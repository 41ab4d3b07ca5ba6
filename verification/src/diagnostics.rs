//! Checks of the environment: the drivers the bridge needs, and input
//! remappers that would fight it.
use vstd::prelude::*;
use vstd::string::StringSliceAdditionalSpecFns;
use crate::text::{bytes_lower_contains, bytes_upper_contains, lower_byte, lower_bytes, seq_contains, upper_byte};

verus! {

/// Service of the virtual-pad driver.
pub const VIGEM_BUS_SERVICE: &'static str = "ViGEmBus";

/// Service of the device-hiding driver.
pub const HIDHIDE_SERVICE: &'static str = "HidHide";

/// Process of the DS4Windows remapper.
pub const DS4WINDOWS_PROCESS: &'static str = "DS4Windows.exe";

/// Process of the DualSenseX remapper.
pub const DUALSENSEX_PROCESS: &'static str = "DualSenseX.exe";

/// Whether a system service is installed and running.
#[derive(Clone, Copy, Debug, PartialEq, Eq, Structural)]
pub struct ServiceDiagnostic {
    pub present: bool,
    pub running: bool,
}

impl Default for ServiceDiagnostic {
    fn default() -> (r: Self)
        ensures
            r == (ServiceDiagnostic { present: false, running: false }),
    {
        ServiceDiagnostic { present: false, running: false }
    }
}

/// The state of the drivers and of known remappers.
#[derive(Clone, Copy, Debug, PartialEq, Eq, Structural)]
pub struct EnvironmentDiagnostics {
    pub vigem_bus: ServiceDiagnostic,
    pub hidhide: ServiceDiagnostic,
    pub ds4windows_running: bool,
    pub dualsensex_running: bool,
}

impl Default for EnvironmentDiagnostics {
    fn default() -> (r: Self)
        ensures
            r == (EnvironmentDiagnostics {
                vigem_bus: ServiceDiagnostic { present: false, running: false },
                hidhide: ServiceDiagnostic { present: false, running: false },
                ds4windows_running: false,
                dualsensex_running: false,
            }),
    {
        EnvironmentDiagnostics {
            vigem_bus: ServiceDiagnostic::default(),
            hidhide: ServiceDiagnostic::default(),
            ds4windows_running: false,
            dualsensex_running: false,
        }
    }
}

/// What a finished system command reported: whether it exited with
/// success, and the bytes of its standard output.
#[derive(Clone, Debug)]
pub struct CommandOutput {
    pub success: bool,
    pub stdout: Vec<u8>,
}

/// The bytes of `hay` in ASCII upper case.
pub open spec fn upper_bytes(hay: Seq<u8>) -> Seq<u8> {
    hay.map_values(|b: u8| upper_byte(b))
}

/// The bytes of `hay` in ASCII lower case.
pub open spec fn lower_bytes_of(hay: Seq<u8>) -> Seq<u8> {
    hay.map_values(|b: u8| lower_byte(b))
}

/// The ASCII bytes of the word `RUNNING`.
pub open spec fn running_word() -> Seq<u8> {
    seq![0x52u8, 0x55u8, 0x4eu8, 0x4eu8, 0x49u8, 0x4eu8, 0x47u8]
}

/// The state of a service from the output of a service query: absent when
/// the query could not run or failed; else present, and running when the
/// output says `RUNNING` in any letter case.
pub open spec fn spec_service_diagnostic(query: Option<CommandOutput>) -> ServiceDiagnostic {
    match query {
        Some(output) => if output.success {
            ServiceDiagnostic {
                present: true,
                running: seq_contains(upper_bytes(output.stdout@), running_word()),
            }
        } else {
            ServiceDiagnostic { present: false, running: false }
        },
        None => ServiceDiagnostic { present: false, running: false },
    }
}

/// The state of a service from the output of a service query.
pub fn service_diagnostic(query: Option<&CommandOutput>) -> (r: ServiceDiagnostic)
    ensures
        r == spec_service_diagnostic(match query {
            Some(q) => Some(*q),
            None => None,
        }),
{
    match query {
        Some(output) => {
            if !output.success {
                return ServiceDiagnostic::default();
            }
            let word: Vec<u8> = vec![0x52u8, 0x55u8, 0x4eu8, 0x4eu8, 0x49u8, 0x4eu8, 0x47u8];
            assert(word@ =~= running_word());
            let running = bytes_upper_contains(output.stdout.as_slice(), word.as_slice());
            ServiceDiagnostic { present: true, running }
        },
        None => ServiceDiagnostic::default(),
    }
}

/// Whether a process list names the process: the list could be read, and
/// it holds the process name in any ASCII letter case.
pub fn process_listed(task_list: Option<&CommandOutput>, process_name: &str) -> (r: bool)
    ensures
        r == match task_list {
            Some(output) => seq_contains(
                lower_bytes_of(output.stdout@),
                lower_bytes_of(process_name.spec_bytes()),
            ),
            None => false,
        },
{
    match task_list {
        Some(output) => {
            let needle = lower_bytes(process_name.as_bytes());
            bytes_lower_contains(output.stdout.as_slice(), needle.as_slice())
        },
        None => false,
    }
}

/// The environment diagnostics from the outputs of the queries of the two
/// driver services and of the process lists filtered for the two remappers;
/// `None` for a command that could not be run.
pub fn collect_environment_diagnostics(
    vigem_bus_query: Option<&CommandOutput>,
    hidhide_query: Option<&CommandOutput>,
    ds4windows_tasks: Option<&CommandOutput>,
    dualsensex_tasks: Option<&CommandOutput>,
) -> (r: EnvironmentDiagnostics)
    ensures
        r.vigem_bus == spec_service_diagnostic(match vigem_bus_query {
            Some(q) => Some(*q),
            None => None,
        }),
        r.hidhide == spec_service_diagnostic(match hidhide_query {
            Some(q) => Some(*q),
            None => None,
        }),
        r.ds4windows_running == match ds4windows_tasks {
            Some(output) => seq_contains(
                lower_bytes_of(output.stdout@),
                lower_bytes_of(DS4WINDOWS_PROCESS.spec_bytes()),
            ),
            None => false,
        },
        r.dualsensex_running == match dualsensex_tasks {
            Some(output) => seq_contains(
                lower_bytes_of(output.stdout@),
                lower_bytes_of(DUALSENSEX_PROCESS.spec_bytes()),
            ),
            None => false,
        },
{
    EnvironmentDiagnostics {
        vigem_bus: service_diagnostic(vigem_bus_query),
        hidhide: service_diagnostic(hidhide_query),
        ds4windows_running: process_listed(ds4windows_tasks, DS4WINDOWS_PROCESS),
        dualsensex_running: process_listed(dualsensex_tasks, DUALSENSEX_PROCESS),
    }
}

} // verus!
