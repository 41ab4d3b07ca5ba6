//! The decisions of the bridge that reads the physical controller, runs the
//! assist and feeds the virtual pad.  The caller owns the devices and the
//! clock: it performs what these functions decide and reports back what
//! happened.  Clock readings are milliseconds (nanoseconds for the assist)
//! since a fixed start.
use vstd::prelude::*;
use crate::assist::{AssistConfig, AssistEngine, AssistEngineView, ControllerState};
use crate::calibration::{
    CalibrationStore, apply_device_calibration, lookup_profile, spec_calibrated, spec_device_key,
};
use crate::dualsense::{InputDeviceInfo, InputParser, optional_text};
use crate::text::{seq_contains, str_contains, str_eq};

verus! {

/// How long a report read waits while an assist sequence runs, so that the
/// output keeps changing on time.
pub const ACTIVE_ASSIST_REPLAY_INTERVAL_MS: i32 = 2;

/// How long a report read waits otherwise.
pub const IDLE_INPUT_READ_TIMEOUT_MS: i32 = 8;

/// Delay before looking for a controller again when none was found.
pub const CONTROLLER_SCAN_RETRY_MS: u64 = 900;

/// Delay before looking for a controller again after it failed.
pub const CONTROLLER_ERROR_RETRY_MS: u64 = 700;

/// Delay before trying the virtual-pad driver again.
pub const DRIVER_RETRY_MS: u64 = 2000;

/// Interval between refreshes of the device list.
pub const INVENTORY_REFRESH_MS: u64 = 1000;

/// Interval between refreshes of the environment diagnostics.
pub const DIAGNOSTICS_REFRESH_MS: u64 = 4000;

/// What the bridge is doing.
#[derive(Clone, Copy, Debug, PartialEq, Eq, Structural)]
pub enum ServiceState {
    Stopped,
    Searching,
    Running,
    DriverMissing,
    Error,
}

/// The messages of an error chain joined, outermost first, each cause on a
/// line of its own after `caused by: `.
pub open spec fn joined_chain(messages: Seq<Seq<char>>) -> Seq<char>
    decreases messages.len(),
{
    if messages.len() <= 1 {
        if messages.len() == 0 {
            Seq::empty()
        } else {
            messages[0]
        }
    } else {
        joined_chain(messages.drop_last()) + "\ncaused by: "@ + messages.last()
    }
}

/// The text of an error chain; `unknown error` when it is empty.
pub open spec fn error_chain_text(messages: Seq<Seq<char>>) -> Seq<char> {
    if messages.len() == 0 {
        "unknown error"@
    } else {
        joined_chain(messages)
    }
}

/// The texts of a list of messages.
pub open spec fn message_texts(messages: Seq<String>) -> Seq<Seq<char>> {
    messages.map_values(|m: String| m@)
}

/// The text of an error chain, given the message of each error in it,
/// outermost first.
pub fn format_error_chain(messages: &[String]) -> (r: String)
    ensures
        r@ == error_chain_text(message_texts(messages@)),
{
    let ghost texts = message_texts(messages@);
    if messages.len() == 0 {
        return String::from_str("unknown error");
    }
    let mut text = messages[0].clone();
    assert(texts.take(1).len() == 1);
    let mut i: usize = 1;
    while i < messages.len()
        invariant
            1 <= i <= messages@.len(),
            texts == message_texts(messages@),
            text@ == joined_chain(texts.take(i as int)),
        decreases messages@.len() - i,
    {
        text.append("\ncaused by: ");
        text.append(messages[i].as_str());
        proof {
            let t = texts.take(i + 1);
            assert(t.drop_last() =~= texts.take(i as int));
            assert(t.last() == messages@[i as int]@);
        }
        i = i + 1;
    }
    assert(texts.take(messages@.len() as int) =~= texts);
    text
}

/// Whether an error comes from the virtual-pad driver.
pub open spec fn is_driver_error(message: Seq<char>) -> bool {
    seq_contains(message, "ViGEmBus"@)
}

/// A deadline allows the action at `now`: there is none, or it has come.
pub open spec fn deadline_passed(deadline: Option<u64>, now: u64) -> bool {
    match deadline {
        Some(d) => now >= d,
        None => true,
    }
}

/// The clock reading `delay` after `now`, held at the clock's end.
pub open spec fn after(now: u64, delay: u64) -> u64 {
    if now + delay > u64::MAX {
        u64::MAX
    } else {
        (now + delay) as u64
    }
}

/// Whether a deadline allows the action at `now`.
pub fn is_due(deadline: Option<u64>, now: u64) -> (r: bool)
    ensures
        r == deadline_passed(deadline, now),
{
    match deadline {
        Some(d) => now >= d,
        None => true,
    }
}

fn deadline_after(now: u64, delay: u64) -> (r: u64)
    ensures
        r == after(now, delay),
{
    now.saturating_add(delay)
}

/// The input the assist sees: the raw state through the calibration of the
/// active device, the raw state when there is no active device.
pub open spec fn calibrated_input(
    device: Option<InputDeviceInfo>,
    raw: ControllerState,
    store: CalibrationStore,
) -> ControllerState {
    match device {
        Some(d) => match lookup_profile(store.devices@, spec_device_key(&d)) {
            Some(p) => spec_calibrated(raw, p),
            None => raw,
        },
        None => raw,
    }
}

/// What to do with the reports read in one tick.
#[derive(Clone, Copy, Debug, PartialEq, Eq, Structural)]
pub enum TickAction {
    /// Run the assist on `input` and publish the result; `force` sends the
    /// output to the virtual pad even when it did not change.
    Publish { raw: ControllerState, input: ControllerState, force: bool },
    /// A sequence runs but no input has been read yet: report the assist's
    /// state only.
    ReportPending,
    /// Nothing new.
    Idle,
}

/// The bridge's state, apart from the device handles.
pub struct BridgeCore {
    pub preferred_device_path: Option<String>,
    pub active_device: Option<InputDeviceInfo>,
    pub active_parser: Option<InputParser>,
    pub device_hint: Option<InputDeviceInfo>,
    pub assist: AssistEngine,
    pub last_raw_input: Option<ControllerState>,
    pub last_input: Option<ControllerState>,
    pub last_output: Option<ControllerState>,
    pub next_controller_scan: Option<u64>,
    pub next_driver_retry: Option<u64>,
    pub next_inventory_refresh: Option<u64>,
    pub next_diagnostics_refresh: Option<u64>,
}

/// `a` and `b` have the same selected path, active device and parser, and
/// remembered device.
pub open spec fn same_selection(a: &BridgeCore, b: &BridgeCore) -> bool {
    &&& a.preferred_device_path == b.preferred_device_path
    &&& a.active_device == b.active_device
    &&& a.active_parser == b.active_parser
    &&& a.device_hint == b.device_hint
}

/// `a` and `b` have the same last raw and calibrated inputs.
pub open spec fn same_inputs(a: &BridgeCore, b: &BridgeCore) -> bool {
    a.last_raw_input == b.last_raw_input && a.last_input == b.last_input
}

/// `a` and `b` have the same deadlines.
pub open spec fn same_schedule(a: &BridgeCore, b: &BridgeCore) -> bool {
    &&& a.next_controller_scan == b.next_controller_scan
    &&& a.next_driver_retry == b.next_driver_retry
    &&& a.next_inventory_refresh == b.next_inventory_refresh
    &&& a.next_diagnostics_refresh == b.next_diagnostics_refresh
}

impl BridgeCore {
    /// A bridge with nothing selected, opened or scheduled.
    pub fn new() -> (r: BridgeCore)
        ensures
            r.preferred_device_path.is_none(),
            r.active_device.is_none(),
            r.active_parser.is_none(),
            r.device_hint.is_none(),
            r.assist@ == AssistEngineView::initial(),
            r.last_raw_input.is_none() && r.last_input.is_none() && r.last_output.is_none(),
            r.next_controller_scan.is_none() && r.next_driver_retry.is_none(),
            r.next_inventory_refresh.is_none() && r.next_diagnostics_refresh.is_none(),
    {
        BridgeCore {
            preferred_device_path: None,
            active_device: None,
            active_parser: None,
            device_hint: None,
            assist: AssistEngine::default(),
            last_raw_input: None,
            last_input: None,
            last_output: None,
            next_controller_scan: None,
            next_driver_retry: None,
            next_inventory_refresh: None,
            next_diagnostics_refresh: None,
        }
    }

    /// Takes the user's device choice.  A changed choice drops the active
    /// controller, the remembered device and the last inputs and outputs, and
    /// allows a scan at once; the caller then closes the device.
    pub fn sync_preferences(&mut self, preferred_device_path: Option<String>) -> (changed: bool)
        ensures
            changed == (optional_text(old(self).preferred_device_path) != optional_text(
                preferred_device_path,
            )),
            !changed ==> *final(self) == *old(self),
            changed ==> {
                &&& final(self).preferred_device_path == preferred_device_path
                &&& final(self).active_device.is_none()
                &&& final(self).active_parser.is_none()
                &&& final(self).device_hint.is_none()
                &&& final(self).last_raw_input.is_none()
                &&& final(self).last_input.is_none()
                &&& final(self).last_output.is_none()
                &&& final(self).next_controller_scan.is_none()
                &&& final(self).next_driver_retry == old(self).next_driver_retry
                &&& final(self).next_inventory_refresh == old(self).next_inventory_refresh
                &&& final(self).next_diagnostics_refresh == old(self).next_diagnostics_refresh
                &&& final(self).assist@ == old(self).assist@
            },
    {
        let same = match (&self.preferred_device_path, &preferred_device_path) {
            (Some(a), Some(b)) => str_eq(a.as_str(), b.as_str()),
            (None, None) => true,
            _ => false,
        };
        if same {
            return false;
        }
        self.preferred_device_path = preferred_device_path;
        self.active_device = None;
        self.active_parser = None;
        self.device_hint = None;
        self.last_raw_input = None;
        self.last_input = None;
        self.last_output = None;
        self.next_controller_scan = None;
        true
    }

    /// Whether a device and its parser are active.
    pub fn has_active_controller(&self) -> (r: bool)
        ensures
            r == (self.active_device.is_some() && self.active_parser.is_some()),
    {
        self.active_device.is_some() && self.active_parser.is_some()
    }

    /// Drops the active device and parser.
    pub fn clear_active_controller(&mut self)
        ensures
            final(self).active_device.is_none(),
            final(self).active_parser.is_none(),
            final(self).preferred_device_path == old(self).preferred_device_path,
            final(self).device_hint == old(self).device_hint,
            final(self).assist@ == old(self).assist@,
            same_inputs(&*final(self), &*old(self)),
            final(self).last_output == old(self).last_output,
            same_schedule(&*final(self), &*old(self)),
    {
        self.active_device = None;
        self.active_parser = None;
    }

    /// A device was opened: it becomes the active and the remembered device,
    /// the last inputs are dropped and no scan is pending.
    pub fn activate(&mut self, info: InputDeviceInfo, parser: InputParser)
        ensures
            final(self).active_device == Some(info),
            final(self).active_parser == Some(parser),
            final(self).device_hint matches Some(h) && h@ == info@,
            final(self).last_raw_input.is_none(),
            final(self).last_input.is_none(),
            final(self).next_controller_scan.is_none(),
            final(self).preferred_device_path == old(self).preferred_device_path,
            final(self).assist@ == old(self).assist@,
            final(self).last_output == old(self).last_output,
            final(self).next_driver_retry == old(self).next_driver_retry,
            final(self).next_inventory_refresh == old(self).next_inventory_refresh,
            final(self).next_diagnostics_refresh == old(self).next_diagnostics_refresh,
    {
        self.device_hint = Some(info.copied());
        self.active_device = Some(info);
        self.active_parser = Some(parser);
        self.last_raw_input = None;
        self.last_input = None;
        self.next_controller_scan = None;
    }

    /// No device could be opened at `now_ms`: nothing is active and the next
    /// scan waits [`CONTROLLER_SCAN_RETRY_MS`].
    pub fn controller_not_found(&mut self, now_ms: u64)
        ensures
            final(self).active_device.is_none(),
            final(self).active_parser.is_none(),
            final(self).next_controller_scan == Some(after(now_ms, CONTROLLER_SCAN_RETRY_MS)),
            final(self).preferred_device_path == old(self).preferred_device_path,
            final(self).device_hint == old(self).device_hint,
            final(self).assist@ == old(self).assist@,
            same_inputs(&*final(self), &*old(self)),
            final(self).last_output == old(self).last_output,
            final(self).next_driver_retry == old(self).next_driver_retry,
            final(self).next_inventory_refresh == old(self).next_inventory_refresh,
            final(self).next_diagnostics_refresh == old(self).next_diagnostics_refresh,
    {
        self.active_device = None;
        self.active_parser = None;
        self.next_controller_scan = Some(deadline_after(now_ms, CONTROLLER_SCAN_RETRY_MS));
    }

    /// The virtual pad is connected: no driver retry is pending.
    pub fn virtual_pad_connected(&mut self)
        ensures
            final(self).next_driver_retry.is_none(),
            same_selection(&*final(self), &*old(self)),
            same_inputs(&*final(self), &*old(self)),
            final(self).last_output == old(self).last_output,
            final(self).assist@ == old(self).assist@,
            final(self).next_controller_scan == old(self).next_controller_scan,
            final(self).next_inventory_refresh == old(self).next_inventory_refresh,
            final(self).next_diagnostics_refresh == old(self).next_diagnostics_refresh,
    {
        self.next_driver_retry = None;
    }

    /// Whether a controller scan may run at `now_ms`.
    pub fn controller_scan_due(&self, now_ms: u64) -> (r: bool)
        ensures
            r == deadline_passed(self.next_controller_scan, now_ms),
    {
        is_due(self.next_controller_scan, now_ms)
    }

    /// Whether the virtual-pad driver may be tried at `now_ms`.
    pub fn driver_retry_due(&self, now_ms: u64) -> (r: bool)
        ensures
            r == deadline_passed(self.next_driver_retry, now_ms),
    {
        is_due(self.next_driver_retry, now_ms)
    }

    /// Whether the device list is due for a refresh at `now_ms`; if so, the
    /// next one waits [`INVENTORY_REFRESH_MS`].
    pub fn take_inventory_refresh(&mut self, now_ms: u64) -> (due: bool)
        ensures
            due == deadline_passed(old(self).next_inventory_refresh, now_ms),
            final(self).next_inventory_refresh == if due {
                Some(after(now_ms, INVENTORY_REFRESH_MS))
            } else {
                old(self).next_inventory_refresh
            },
            same_selection(&*final(self), &*old(self)),
            same_inputs(&*final(self), &*old(self)),
            final(self).last_output == old(self).last_output,
            final(self).assist@ == old(self).assist@,
            final(self).next_controller_scan == old(self).next_controller_scan,
            final(self).next_driver_retry == old(self).next_driver_retry,
            final(self).next_diagnostics_refresh == old(self).next_diagnostics_refresh,
    {
        let due = is_due(self.next_inventory_refresh, now_ms);
        if due {
            self.next_inventory_refresh = Some(deadline_after(now_ms, INVENTORY_REFRESH_MS));
        }
        due
    }

    /// Whether the diagnostics are due for a refresh at `now_ms`; if so, the
    /// next one waits [`DIAGNOSTICS_REFRESH_MS`].
    pub fn take_diagnostics_refresh(&mut self, now_ms: u64) -> (due: bool)
        ensures
            due == deadline_passed(old(self).next_diagnostics_refresh, now_ms),
            final(self).next_diagnostics_refresh == if due {
                Some(after(now_ms, DIAGNOSTICS_REFRESH_MS))
            } else {
                old(self).next_diagnostics_refresh
            },
            same_selection(&*final(self), &*old(self)),
            same_inputs(&*final(self), &*old(self)),
            final(self).last_output == old(self).last_output,
            final(self).assist@ == old(self).assist@,
            final(self).next_controller_scan == old(self).next_controller_scan,
            final(self).next_driver_retry == old(self).next_driver_retry,
            final(self).next_inventory_refresh == old(self).next_inventory_refresh,
    {
        let due = is_due(self.next_diagnostics_refresh, now_ms);
        if due {
            self.next_diagnostics_refresh = Some(deadline_after(now_ms, DIAGNOSTICS_REFRESH_MS));
        }
        due
    }

    /// How long the next report read may wait.
    pub fn read_timeout_ms(&self) -> (r: i32)
        ensures
            r == if self.assist@.sequence.is_some() {
                ACTIVE_ASSIST_REPLAY_INTERVAL_MS
            } else {
                IDLE_INPUT_READ_TIMEOUT_MS
            },
    {
        if self.assist.has_pending_sequence() {
            ACTIVE_ASSIST_REPLAY_INTERVAL_MS
        } else {
            IDLE_INPUT_READ_TIMEOUT_MS
        }
    }

    /// Every field that reading `report` with the active parser touches can
    /// be read.
    pub open spec fn spec_reads_readable(&self, report: Seq<u8>) -> bool {
        self.active_parser matches Some(p) ==> p.spec_reads_readable(report)
    }

    /// Whether every field that reading `report` with the active parser
    /// touches can be read.
    pub fn reads_readable(&self, report: &[u8]) -> (r: bool)
        ensures
            r == self.spec_reads_readable(report@),
    {
        match &self.active_parser {
            Some(parser) => parser.reads_readable(report),
            None => true,
        }
    }

    /// The controller state in a report of the active device.  Every field
    /// that the reading touches must be one that can be read.
    pub fn parse_report(&self, report: &[u8]) -> (r: Option<ControllerState>)
        requires
            self.spec_reads_readable(report@),
        ensures
            r == match self.active_parser {
                Some(p) => p.spec_parse_report(report@),
                None => None,
            },
    {
        match &self.active_parser {
            Some(parser) => parser.parse_report(report),
            None => None,
        }
    }

    /// Decides what one tick publishes.  `latest_raw` is the last state read
    /// in the tick, if any; `assist_poll_active` says whether a sequence was
    /// running when the tick began.  A new reading is calibrated, kept, and
    /// published (sent even if unchanged while a sequence runs); with no
    /// reading, a running sequence replays the last input.
    pub fn take_reading(
        &mut self,
        latest_raw: Option<ControllerState>,
        assist_poll_active: bool,
        calibrations: &CalibrationStore,
    ) -> (r: TickAction)
        ensures
            match latest_raw {
                Some(raw) => {
                    let input = calibrated_input(old(self).active_device, raw, *calibrations);
                    &&& r == (TickAction::Publish { raw, input, force: assist_poll_active })
                    &&& final(self).last_raw_input == Some(raw)
                    &&& final(self).last_input == Some(input)
                    &&& same_selection(&*final(self), &*old(self))
                    &&& same_schedule(&*final(self), &*old(self))
                    &&& final(self).last_output == old(self).last_output
                    &&& final(self).assist@ == old(self).assist@
                },
                None => {
                    &&& *final(self) == *old(self)
                    &&& r == if !assist_poll_active {
                        TickAction::Idle
                    } else {
                        match (old(self).last_raw_input, old(self).last_input) {
                            (Some(raw), Some(input)) => TickAction::Publish {
                                raw,
                                input,
                                force: true,
                            },
                            _ => TickAction::ReportPending,
                        }
                    }
                },
            },
    {
        match latest_raw {
            Some(raw) => {
                let input = match &self.active_device {
                    Some(device) => apply_device_calibration(device, raw, calibrations),
                    None => raw,
                };
                self.last_raw_input = Some(raw);
                self.last_input = Some(input);
                TickAction::Publish { raw, input, force: assist_poll_active }
            },
            None => {
                if !assist_poll_active {
                    return TickAction::Idle;
                }
                match (self.last_raw_input, self.last_input) {
                    (Some(raw), Some(input)) => TickAction::Publish { raw, input, force: true },
                    _ => TickAction::ReportPending,
                }
            },
        }
    }

    /// Runs the assist on `input` at `now_ns` and decides whether the output
    /// goes to the virtual pad: when forced, or when it differs from the last
    /// output sent.  Returns the output and that decision; the caller sends
    /// the output and then reports it with [`BridgeCore::confirm_sent`].
    pub fn publish(
        &mut self,
        input: ControllerState,
        config: AssistConfig,
        movement_active: bool,
        now_ns: u64,
        force_send: bool,
    ) -> (r: (ControllerState, bool))
        requires
            old(self).assist@.starts_sequence(input, config, movement_active, now_ns) ==> now_ns
                + config.spec_total_ns() <= u64::MAX,
        ensures
            final(self).assist@ == old(self).assist@.step(input, config, movement_active, now_ns),
            r.0 == AssistEngineView::output(final(self).assist@, input, now_ns),
            r.1 == (force_send || old(self).last_output != Some(r.0)),
            final(self).last_output == old(self).last_output,
            same_selection(&*final(self), &*old(self)),
            same_inputs(&*final(self), &*old(self)),
            same_schedule(&*final(self), &*old(self)),
    {
        let output = self.assist.apply(input, config, movement_active, now_ns);
        let send = force_send || !(self.last_output == Some(output));
        (output, send)
    }

    /// The virtual pad took `output`: it is the last output sent.
    pub fn confirm_sent(&mut self, output: ControllerState)
        ensures
            final(self).last_output == Some(output),
            final(self).assist@ == old(self).assist@,
            same_selection(&*final(self), &*old(self)),
            same_inputs(&*final(self), &*old(self)),
            same_schedule(&*final(self), &*old(self)),
    {
        self.last_output = Some(output);
    }

    /// Takes an error of a tick at `now_ms`.  A driver error keeps the
    /// controller and delays the next driver try by [`DRIVER_RETRY_MS`]; the
    /// caller drops the virtual pad.  Any other error drops the controller
    /// and the last inputs and outputs and delays the next scan by
    /// [`CONTROLLER_ERROR_RETRY_MS`].
    pub fn record_error(&mut self, message: &str, now_ms: u64) -> (r: ServiceState)
        ensures
            is_driver_error(message@) ==> {
                &&& r == ServiceState::DriverMissing
                &&& final(self).next_driver_retry == Some(after(now_ms, DRIVER_RETRY_MS))
                &&& same_selection(&*final(self), &*old(self))
                &&& same_inputs(&*final(self), &*old(self))
                &&& final(self).last_output == old(self).last_output
                &&& final(self).assist@ == old(self).assist@
                &&& final(self).next_controller_scan == old(self).next_controller_scan
                &&& final(self).next_inventory_refresh == old(self).next_inventory_refresh
                &&& final(self).next_diagnostics_refresh == old(self).next_diagnostics_refresh
            },
            !is_driver_error(message@) ==> {
                &&& r == ServiceState::Error
                &&& final(self).active_device.is_none()
                &&& final(self).active_parser.is_none()
                &&& final(self).last_raw_input.is_none()
                &&& final(self).last_input.is_none()
                &&& final(self).last_output.is_none()
                &&& final(self).next_controller_scan == Some(
                    after(now_ms, CONTROLLER_ERROR_RETRY_MS),
                )
                &&& final(self).preferred_device_path == old(self).preferred_device_path
                &&& final(self).device_hint == old(self).device_hint
                &&& final(self).assist@ == old(self).assist@
                &&& final(self).next_driver_retry == old(self).next_driver_retry
                &&& final(self).next_inventory_refresh == old(self).next_inventory_refresh
                &&& final(self).next_diagnostics_refresh == old(self).next_diagnostics_refresh
            },
    {
        if str_contains(message, "ViGEmBus") {
            self.next_driver_retry = Some(deadline_after(now_ms, DRIVER_RETRY_MS));
            return ServiceState::DriverMissing;
        }
        self.active_device = None;
        self.active_parser = None;
        self.last_raw_input = None;
        self.last_input = None;
        self.last_output = None;
        self.next_controller_scan = Some(deadline_after(now_ms, CONTROLLER_ERROR_RETRY_MS));
        ServiceState::Error
    }

    /// Stops the bridge: nothing active, no last inputs or outputs, no
    /// pending scan or driver retry, and a fresh assist.  The selected path,
    /// the remembered device and the refresh schedule stay.
    pub fn stop(&mut self)
        ensures
            final(self).active_device.is_none(),
            final(self).active_parser.is_none(),
            final(self).last_raw_input.is_none(),
            final(self).last_input.is_none(),
            final(self).last_output.is_none(),
            final(self).next_controller_scan.is_none(),
            final(self).next_driver_retry.is_none(),
            final(self).assist@ == AssistEngineView::initial(),
            final(self).preferred_device_path == old(self).preferred_device_path,
            final(self).device_hint == old(self).device_hint,
            final(self).next_inventory_refresh == old(self).next_inventory_refresh,
            final(self).next_diagnostics_refresh == old(self).next_diagnostics_refresh,
    {
        self.active_device = None;
        self.active_parser = None;
        self.last_raw_input = None;
        self.last_input = None;
        self.last_output = None;
        self.next_controller_scan = None;
        self.next_driver_retry = None;
        self.assist.reset();
    }
}

} // verus!
