//! Ordering of device entries, and the choice of the device to open as the
//! input source.
use vstd::prelude::*;
use crate::dualsense::{
    DeviceView, HidDeviceRecord, InputDeviceInfo, InputPriority, backend_for, device_priority,
    device_product_label, device_sticky_score, hid_entry_view, should_list, spec_backend_for,
    spec_should_list, sticky_match_score,
};
use crate::text::{lemma_seq_less_irreflexive, lemma_seq_less_transitive, seq_less, str_eq, str_less};

verus! {

/// `a` ranks above `b`: the keys compared field by field, `true` above
/// `false` and the higher backend priority first.
pub open spec fn priority_above(a: InputPriority, b: InputPriority) -> bool {
    (a.0 && !b.0) || (a.0 == b.0 && (a.1 > b.1 || (a.1 == b.1 && ((a.2 && !b.2) || (a.2 == b.2
        && ((a.3 && !b.3) || (a.3 == b.3 && a.4 && !b.4)))))))
}

/// Whether `a` comes strictly before `b`: by priority key, highest first;
/// then, for the device list (`by_label`), by product label; then by path.
pub open spec fn device_before(a: DeviceView, b: DeviceView, by_label: bool) -> bool {
    let pa = device_priority(a);
    let pb = device_priority(b);
    priority_above(pa, pb) || (pa == pb && if by_label {
        seq_less(device_product_label(a), device_product_label(b)) || (device_product_label(a)
            == device_product_label(b) && seq_less(a.path, b.path))
    } else {
        seq_less(a.path, b.path)
    })
}

/// The models of a sequence of entries.
pub open spec fn entry_views(s: Seq<InputDeviceInfo>) -> Seq<DeviceView> {
    s.map_values(|d: InputDeviceInfo| d@)
}

/// Where `d` goes in `sorted`: before the first entry, from `i` on, that it
/// comes before; at the end when there is none.
pub open spec fn insertion_point(sorted: Seq<DeviceView>, d: DeviceView, by_label: bool, i: int) -> int
    decreases sorted.len() - i,
{
    if i < 0 || i >= sorted.len() {
        sorted.len() as int
    } else if device_before(d, sorted[i], by_label) {
        i
    } else {
        insertion_point(sorted, d, by_label, i + 1)
    }
}

/// `d` inserted after every entry that it does not come before.
pub open spec fn insert_device(sorted: Seq<DeviceView>, d: DeviceView, by_label: bool) -> Seq<
    DeviceView,
> {
    sorted.insert(insertion_point(sorted, d, by_label, 0), d)
}

/// The entries in the order of [`device_before`]; entries that neither
/// comes before the other keep their order.
pub open spec fn sort_devices(s: Seq<DeviceView>, by_label: bool) -> Seq<DeviceView>
    decreases s.len(),
{
    if s.len() == 0 {
        Seq::empty()
    } else {
        insert_device(sort_devices(s.drop_last(), by_label), s.last(), by_label)
    }
}

/// No entry of `s` comes before an entry ahead of it.
pub open spec fn devices_ordered(s: Seq<DeviceView>, by_label: bool) -> bool {
    forall|i: int, j: int|
        0 <= i < j < s.len() ==> !#[trigger] device_before(s[j], s[i], by_label)
}

/// The order of entries is strict: irreflexive and transitive.
pub proof fn lemma_device_order_strict(a: DeviceView, b: DeviceView, c: DeviceView, by_label: bool)
    ensures
        !device_before(a, a, by_label),
        device_before(a, b, by_label) && device_before(b, c, by_label) ==> device_before(
            a,
            c,
            by_label,
        ),
{
    lemma_seq_less_irreflexive(a.path);
    lemma_seq_less_irreflexive(device_product_label(a));
    if device_before(a, b, by_label) && device_before(b, c, by_label) {
        let (pa, pb, pc) = (device_priority(a), device_priority(b), device_priority(c));
        if pa == pb && pb == pc {
            let (la, lb, lc) = (
                device_product_label(a),
                device_product_label(b),
                device_product_label(c),
            );
            if by_label {
                if seq_less(la, lb) && seq_less(lb, lc) {
                    lemma_seq_less_transitive(la, lb, lc);
                } else if seq_less(a.path, b.path) && seq_less(b.path, c.path) {
                    lemma_seq_less_transitive(a.path, b.path, c.path);
                }
            } else {
                lemma_seq_less_transitive(a.path, b.path, c.path);
            }
        }
    }
}

proof fn lemma_insertion_point_bounds(sorted: Seq<DeviceView>, d: DeviceView, by_label: bool, i: int)
    requires
        0 <= i <= sorted.len(),
    ensures
        i <= insertion_point(sorted, d, by_label, i) <= sorted.len(),
        forall|k: int|
            i <= k < insertion_point(sorted, d, by_label, i) ==> !#[trigger] device_before(
                d,
                sorted[k],
                by_label,
            ),
        insertion_point(sorted, d, by_label, i) < sorted.len() ==> device_before(
            d,
            sorted[insertion_point(sorted, d, by_label, i)],
            by_label,
        ),
    decreases sorted.len() - i,
{
    if i < sorted.len() && !device_before(d, sorted[i], by_label) {
        lemma_insertion_point_bounds(sorted, d, by_label, i + 1);
    }
}

proof fn lemma_insert_device_ordered(sorted: Seq<DeviceView>, d: DeviceView, by_label: bool)
    requires
        devices_ordered(sorted, by_label),
    ensures
        devices_ordered(insert_device(sorted, d, by_label), by_label),
        insert_device(sorted, d, by_label).to_multiset() == sorted.to_multiset().insert(d),
{
    lemma_insertion_point_bounds(sorted, d, by_label, 0);
    let p = insertion_point(sorted, d, by_label, 0);
    let r = insert_device(sorted, d, by_label);
    assert forall|i: int, j: int| 0 <= i < j < r.len() implies !#[trigger] device_before(
        r[j],
        r[i],
        by_label,
    ) by {
        if j < p {
            assert(r[i] == sorted[i] && r[j] == sorted[j]);
        } else if j == p {
            assert(r[i] == sorted[i] && r[j] == d);
        } else if i < p {
            assert(r[i] == sorted[i] && r[j] == sorted[j - 1]);
        } else if i == p {
            assert(r[i] == d && r[j] == sorted[j - 1]);
            lemma_device_order_strict(sorted[j - 1], d, sorted[p], by_label);
            if j - 1 > p {
                assert(!device_before(sorted[j - 1], sorted[p], by_label));
            }
        } else {
            assert(r[i] == sorted[i - 1] && r[j] == sorted[j - 1]);
        }
    }
    vstd::seq_lib::to_multiset_insert(sorted, p, d);
}

/// Ordering entries gives the same entries, none of them ahead of one that
/// comes before it.
pub proof fn lemma_sort_devices(s: Seq<DeviceView>, by_label: bool)
    ensures
        devices_ordered(sort_devices(s, by_label), by_label),
        sort_devices(s, by_label).to_multiset() == s.to_multiset(),
    decreases s.len(),
{
    if s.len() == 0 {
        assert(s =~= Seq::<DeviceView>::empty());
        assert(sort_devices(s, by_label) =~= s);
    } else {
        lemma_sort_devices(s.drop_last(), by_label);
        lemma_insert_device_ordered(sort_devices(s.drop_last(), by_label), s.last(), by_label);
        vstd::seq_lib::to_multiset_build(s.drop_last(), s.last());
        assert(s.drop_last().push(s.last()) =~= s);
    }
}

fn priority_above_exec(a: InputPriority, b: InputPriority) -> (r: bool)
    ensures
        r == priority_above(a, b),
{
    if a.0 != b.0 {
        return a.0;
    }
    if a.1 != b.1 {
        return a.1 > b.1;
    }
    if a.2 != b.2 {
        return a.2;
    }
    if a.3 != b.3 {
        return a.3;
    }
    a.4 && !b.4
}

/// Whether `a` comes strictly before `b` in the order of [`device_before`].
pub fn device_comes_before(a: &InputDeviceInfo, b: &InputDeviceInfo, by_label: bool) -> (r: bool)
    ensures
        r == device_before(a@, b@, by_label),
{
    let pa = a.input_priority();
    let pb = b.input_priority();
    if priority_above_exec(pa, pb) {
        return true;
    }
    let same_priority = pa.0 == pb.0 && pa.1 == pb.1 && pa.2 == pb.2 && pa.3 == pb.3 && pa.4
        == pb.4;
    if !same_priority {
        return false;
    }
    if by_label {
        let la = a.product_label();
        let lb = b.product_label();
        if str_less(la.as_str(), lb.as_str()) {
            true
        } else if str_eq(la.as_str(), lb.as_str()) {
            str_less(a.path.as_str(), b.path.as_str())
        } else {
            false
        }
    } else {
        str_less(a.path.as_str(), b.path.as_str())
    }
}

/// `devices` in the order of [`device_before`]; entries that neither comes
/// before the other keep their order.
pub fn sort_device_entries(devices: Vec<InputDeviceInfo>, by_label: bool) -> (r: Vec<
    InputDeviceInfo,
>)
    ensures
        entry_views(r@) == sort_devices(entry_views(devices@), by_label),
{
    let ghost original = entry_views(devices@);
    let ghost n = devices@.len();
    let mut rest = devices;
    let mut sorted: Vec<InputDeviceInfo> = Vec::new();
    assert(original.take(0) =~= Seq::<DeviceView>::empty());
    assert(entry_views(sorted@) =~= Seq::<DeviceView>::empty());
    assert(entry_views(rest@) =~= original.skip(0));
    while rest.len() > 0
        invariant
            n == original.len(),
            rest@.len() <= n,
            entry_views(sorted@) == sort_devices(original.take(n - rest@.len()), by_label),
            entry_views(rest@) == original.skip(n - rest@.len()),
        decreases rest@.len(),
    {
        let ghost m = n - rest@.len();
        let ghost before_rest = rest@;
        let d = rest.remove(0);
        assert(entry_views(before_rest)[0] == d@);
        assert(d@ == original[m]);
        assert(entry_views(rest@) =~= original.skip(m + 1)) by {
            assert forall|k: int| 0 <= k < rest@.len() implies entry_views(rest@)[k] == original.skip(
                m + 1,
            )[k] by {
                assert(rest@[k] == before_rest[k + 1]);
                assert(entry_views(before_rest)[k + 1] == original.skip(m)[k + 1]);
            }
        }
        let ghost sv = entry_views(sorted@);
        let mut k: usize = 0;
        let mut found = false;
        while k < sorted.len() && !found
            invariant
                k <= sorted@.len(),
                sv == entry_views(sorted@),
                found ==> k < sorted@.len() && device_before(d@, sv[k as int], by_label),
                insertion_point(sv, d@, by_label, 0) == insertion_point(
                    sv,
                    d@,
                    by_label,
                    k as int,
                ),
            decreases sorted@.len() - k + (if found {
                0int
            } else {
                1
            }),
        {
            if device_comes_before(&d, &sorted[k], by_label) {
                found = true;
            } else {
                k = k + 1;
            }
        }
        assert(insertion_point(sv, d@, by_label, 0) == k);
        sorted.insert(k, d);
        proof {
            assert(entry_views(sorted@) =~= sv.insert(k as int, d@));
            let t = original.take(m + 1);
            assert(t.drop_last() =~= original.take(m));
            assert(t.last() == d@);
        }
    }
    assert(original.take(n as int) =~= original);
    sorted
}

/// The entries of the HID devices that pass the filter: with a backend when
/// `supported_only`, else those that belong in the device list.
pub open spec fn hid_entry_views(records: Seq<HidDeviceRecord>, supported_only: bool) -> Seq<
    DeviceView,
>
    decreases records.len(),
{
    if records.len() == 0 {
        Seq::empty()
    } else {
        let rest = hid_entry_views(records.drop_last(), supported_only);
        let last = records.last();
        let keep = if supported_only {
            spec_backend_for(&last).is_some()
        } else {
            spec_should_list(&last)
        };
        if keep {
            rest.push(hid_entry_view(last))
        } else {
            rest
        }
    }
}

/// The entries of the HID devices that pass the filter, in their order.
fn hid_entries(records: &[HidDeviceRecord], supported_only: bool) -> (r: Vec<InputDeviceInfo>)
    ensures
        entry_views(r@) == hid_entry_views(records@, supported_only),
{
    let mut entries: Vec<InputDeviceInfo> = Vec::new();
    let mut i: usize = 0;
    assert(records@.take(0) =~= Seq::<HidDeviceRecord>::empty());
    assert(entry_views(entries@) =~= Seq::<DeviceView>::empty());
    while i < records.len()
        invariant
            i <= records@.len(),
            entry_views(entries@) == hid_entry_views(records@.take(i as int), supported_only),
        decreases records@.len() - i,
    {
        let record = &records[i];
        let keep = if supported_only {
            backend_for(record).is_some()
        } else {
            should_list(record)
        };
        let ghost old_entries = entries@;
        if keep {
            let entry = InputDeviceInfo::from_hid(record);
            entries.push(entry);
            assert(entry_views(entries@) =~= entry_views(old_entries).push(entry@));
        }
        proof {
            let t = records@.take(i + 1);
            assert(t.drop_last() =~= records@.take(i as int));
            assert(t.last() == records@[i as int]);
        }
        i = i + 1;
    }
    assert(records@.take(records@.len() as int) =~= records@);
    entries
}

/// The device list from the HID layer's devices: those that belong in it,
/// ordered by priority key (highest first), product label and path.
pub fn scan_input_devices(records: &[HidDeviceRecord]) -> (r: Vec<InputDeviceInfo>)
    ensures
        entry_views(r@) == sort_devices(hid_entry_views(records@, false), true),
{
    sort_device_entries(hid_entries(records, false), true)
}

/// A device list, HID and XInput entries together, ordered by priority key
/// (highest first), product label and path.
pub fn order_device_list(devices: Vec<InputDeviceInfo>) -> (r: Vec<InputDeviceInfo>)
    ensures
        entry_views(r@) == sort_devices(entry_views(devices@), true),
{
    sort_device_entries(devices, true)
}

/// The devices that can be opened, ordered by priority key (highest first)
/// and path.
pub fn supported_input_devices(records: &[HidDeviceRecord]) -> (r: Vec<InputDeviceInfo>)
    ensures
        entry_views(r@) == sort_devices(hid_entry_views(records@, true), false),
{
    sort_device_entries(hid_entries(records, true), false)
}

/// The position of the first entry of `s`, from `i` on, with this path.
pub open spec fn first_with_path(s: Seq<DeviceView>, path: Seq<char>, i: int) -> Option<int>
    decreases s.len() - i,
{
    if i < 0 || i >= s.len() {
        None
    } else if s[i].path == path {
        Some(i)
    } else {
        first_with_path(s, path, i + 1)
    }
}

/// Among the first `n` entries of `s`, the position of the best match for a
/// remembered device: the highest score, the last of equal scores; `None`
/// when no entry matches it.
pub open spec fn best_match(s: Seq<DeviceView>, reference: DeviceView, n: int) -> Option<int>
    decreases n,
{
    if n <= 0 {
        None
    } else {
        let previous = best_match(s, reference, n - 1);
        match device_sticky_score(s[n - 1], reference) {
            None => previous,
            Some(score) => match previous {
                None => Some(n - 1),
                Some(p) => match device_sticky_score(s[p], reference) {
                    Some(best) => if best <= score {
                        Some(n - 1)
                    } else {
                        previous
                    },
                    None => Some(n - 1),
                },
            },
        }
    }
}

/// The model of a [`SelectionPlan`].
pub enum PlanView {
    NoDevices,
    OpenSelected(DeviceView),
    ReopenRemembered(DeviceView),
    TryInOrder(Seq<DeviceView>),
}

/// What to do to find the input device, given the devices that can be
/// opened.
#[derive(Debug)]
pub enum SelectionPlan {
    /// No device that can be read is connected.
    NoDevices,
    /// Open the device the user selected; failing to open it is an error.
    OpenSelected(InputDeviceInfo),
    /// The selected path is gone: open the device that best matches the one
    /// used before; failing to open it is an error.
    ReopenRemembered(InputDeviceInfo),
    /// Nothing is selected, or the selection is gone and no device matches
    /// the one used before: try these devices in turn, best first, and use
    /// the first one that opens.
    TryInOrder(Vec<InputDeviceInfo>),
}

impl View for SelectionPlan {
    type V = PlanView;

    open spec fn view(&self) -> PlanView {
        match self {
            SelectionPlan::NoDevices => PlanView::NoDevices,
            SelectionPlan::OpenSelected(d) => PlanView::OpenSelected(d@),
            SelectionPlan::ReopenRemembered(d) => PlanView::ReopenRemembered(d@),
            SelectionPlan::TryInOrder(v) => PlanView::TryInOrder(entry_views(v@)),
        }
    }
}

/// The plan for `candidates`, the devices that can be opened in their order:
/// a selected path is opened if present; else the best match for the
/// remembered device is reopened, if any; else the selection has gone stale
/// and the devices are tried in order, best first.  With nothing selected,
/// the best match is tried first and then the rest in order.
pub open spec fn selection_plan(
    candidates: Seq<DeviceView>,
    preferred_path: Option<Seq<char>>,
    hint: Option<DeviceView>,
) -> PlanView {
    if candidates.len() == 0 {
        PlanView::NoDevices
    } else {
        match preferred_path {
            Some(path) => match first_with_path(candidates, path, 0) {
                Some(i) => PlanView::OpenSelected(candidates[i]),
                None => match hint {
                    Some(h) => match best_match(candidates, h, candidates.len() as int) {
                        Some(j) => PlanView::ReopenRemembered(candidates[j]),
                        None => PlanView::TryInOrder(candidates),
                    },
                    None => PlanView::TryInOrder(candidates),
                },
            },
            None => match hint {
                Some(h) => match best_match(candidates, h, candidates.len() as int) {
                    Some(j) => PlanView::TryInOrder(seq![candidates[j]] + candidates.remove(j)),
                    None => PlanView::TryInOrder(candidates),
                },
                None => PlanView::TryInOrder(candidates),
            },
        }
    }
}

/// The text of an optional string slice.
pub open spec fn optional_str_view(s: Option<&str>) -> Option<Seq<char>> {
    match s {
        Some(t) => Some(t@),
        None => None,
    }
}

/// The model of an optional entry.
pub open spec fn optional_entry_view(d: Option<&InputDeviceInfo>) -> Option<DeviceView> {
    match d {
        Some(e) => Some(e@),
        None => None,
    }
}

/// A position as an integer.
pub open spec fn position(p: Option<usize>) -> Option<int> {
    match p {
        Some(i) => Some(i as int),
        None => None,
    }
}

/// The position of the first entry with this path.
pub fn position_of_path(entries: &Vec<InputDeviceInfo>, path: &str) -> (r: Option<usize>)
    ensures
        position(r) == first_with_path(entry_views(entries@), path@, 0),
        r matches Some(i) ==> i < entries@.len(),
{
    let ghost v = entry_views(entries@);
    let mut i: usize = 0;
    while i < entries.len()
        invariant
            i <= entries@.len(),
            v == entry_views(entries@),
            first_with_path(v, path@, 0) == first_with_path(v, path@, i as int),
        decreases entries@.len() - i,
    {
        if str_eq(entries[i].path.as_str(), path) {
            assert(v[i as int].path == path@);
            return Some(i);
        }
        i = i + 1;
    }
    None
}

/// The position of the best match for a remembered device: the highest
/// score, the last of equal scores.
pub fn best_match_position(entries: &Vec<InputDeviceInfo>, reference: &InputDeviceInfo) -> (r:
    Option<usize>)
    ensures
        position(r) == best_match(entry_views(entries@), reference@, entries@.len() as int),
        r matches Some(i) ==> i < entries@.len(),
{
    let ghost v = entry_views(entries@);
    let mut best: Option<usize> = None;
    let mut best_score: u32 = 0;
    let mut i: usize = 0;
    while i < entries.len()
        invariant
            i <= entries@.len(),
            v == entry_views(entries@),
            position(best) == best_match(v, reference@, i as int),
            best matches Some(p) ==> p < i && device_sticky_score(v[p as int], reference@) == Some(
                best_score,
            ),
        decreases entries@.len() - i,
    {
        let score = sticky_match_score(&entries[i], reference);
        assert(v[i as int] == entries@[i as int]@);
        match score {
            Some(s) => {
                match best {
                    None => {
                        best = Some(i);
                        best_score = s;
                    },
                    Some(_) => {
                        if best_score <= s {
                            best = Some(i);
                            best_score = s;
                        }
                    },
                }
            },
            None => {},
        }
        i = i + 1;
    }
    best
}

/// How to find the input device among the HID layer's devices, given the
/// path the user selected, if any, and the device used before, if any.
pub fn plan_input_device_selection(
    records: &[HidDeviceRecord],
    preferred_path: Option<&str>,
    hint: Option<&InputDeviceInfo>,
) -> (r: SelectionPlan)
    ensures
        r@ == selection_plan(
            sort_devices(hid_entry_views(records@, true), false),
            optional_str_view(preferred_path),
            optional_entry_view(hint),
        ),
{
    let mut supported = supported_input_devices(records);
    let ghost c = entry_views(supported@);
    if supported.len() == 0 {
        return SelectionPlan::NoDevices;
    }
    match preferred_path {
        Some(path) => {
            match position_of_path(&supported, path) {
                Some(i) => {
                    let d = supported.remove(i);
                    assert(d@ == c[i as int]);
                    SelectionPlan::OpenSelected(d)
                },
                None => match hint {
                    Some(h) => match best_match_position(&supported, h) {
                        Some(j) => {
                            let d = supported.remove(j);
                            assert(d@ == c[j as int]);
                            SelectionPlan::ReopenRemembered(d)
                        },
                        None => SelectionPlan::TryInOrder(supported),
                    },
                    None => SelectionPlan::TryInOrder(supported),
                },
            }
        },
        None => {
            let best = match hint {
                Some(h) => best_match_position(&supported, h),
                None => None,
            };
            match best {
                Some(j) => {
                    let ghost before = supported@;
                    let first = supported.remove(j);
                    assert(first@ == c[j as int]);
                    assert(entry_views(supported@) =~= c.remove(j as int)) by {
                        assert forall|k: int| 0 <= k < supported@.len() implies entry_views(
                            supported@,
                        )[k] == c.remove(j as int)[k] by {
                            if k < j {
                                assert(supported@[k] == before[k]);
                            } else {
                                assert(supported@[k] == before[k + 1]);
                            }
                        }
                    }
                    let mut ordered: Vec<InputDeviceInfo> = Vec::new();
                    ordered.push(first);
                    ordered.append(&mut supported);
                    assert(entry_views(ordered@) =~= seq![c[j as int]] + c.remove(j as int));
                    SelectionPlan::TryInOrder(ordered)
                },
                None => SelectionPlan::TryInOrder(supported),
            }
        },
    }
}

/// In the order of entries, every entry with a backend comes before every
/// entry without one: supported devices head the device list, XInput slots
/// and unsupported interfaces follow.
pub proof fn lemma_supported_entries_first(s: Seq<DeviceView>, by_label: bool)
    requires
        devices_ordered(s, by_label),
    ensures
        forall|i: int, j: int|
            0 <= i < j < s.len() && (#[trigger] s[j]).backend.is_some() ==> (
            #[trigger] s[i]).backend.is_some(),
{
    assert forall|i: int, j: int|
        0 <= i < j < s.len() && (#[trigger] s[j]).backend.is_some() implies (
        #[trigger] s[i]).backend.is_some() by {
        if s[i].backend.is_none() {
            assert(priority_above(device_priority(s[j]), device_priority(s[i])));
            assert(device_before(s[j], s[i], by_label));
        }
    }
}

proof fn lemma_best_match_bounds(s: Seq<DeviceView>, reference: DeviceView, n: int)
    requires
        n <= s.len(),
    ensures
        best_match(s, reference, n) matches Some(j) ==> 0 <= j < n,
    decreases n,
{
    if n > 0 {
        lemma_best_match_bounds(s, reference, n - 1);
    }
}

/// With nothing selected, the plan tries every device that can be opened,
/// each once: moving the remembered device to the front drops and repeats
/// none.
pub proof fn lemma_plan_tries_every_candidate(candidates: Seq<DeviceView>, hint: Option<DeviceView>)
    requires
        candidates.len() > 0,
    ensures
        selection_plan(candidates, None, hint) matches PlanView::TryInOrder(order)
            && order.to_multiset() == candidates.to_multiset(),
{
    broadcast use vstd::multiset::group_multiset_axioms;

    if let Some(h) = hint {
        lemma_best_match_bounds(candidates, h, candidates.len() as int);
        if let Some(j) = best_match(candidates, h, candidates.len() as int) {
            let rest = candidates.remove(j);
            let order = seq![candidates[j]] + rest;
            vstd::seq_lib::to_multiset_remove(candidates, j);
            assert(order =~= rest.insert(0, candidates[j]));
            vstd::seq_lib::to_multiset_insert(rest, 0, candidates[j]);
            assert(candidates.to_multiset().count(candidates[j]) > 0) by {
                vstd::seq_lib::to_multiset_contains(candidates, candidates[j]);
            }
            assert(order.to_multiset() =~= candidates.to_multiset());
        }
    }
}

/// Of two interfaces of a device with the same backend, a primary input
/// interface (generic desktop joystick or gamepad) outranks one that is not.
pub proof fn lemma_primary_interface_outranks(a: DeviceView, b: DeviceView)
    requires
        a.backend == b.backend,
        a.usage_page == 0x01 && (a.usage == 0x04 || a.usage == 0x05),
        !(b.usage_page == 0x01 && (b.usage == 0x04 || b.usage == 0x05)),
    ensures
        priority_above(device_priority(a), device_priority(b)),
        device_before(a, b, true),
        device_before(a, b, false),
{
}

/// A remembered device is matched by any entry with its vendor, product and
/// serial number, wherever it is now connected; two serial numbers that
/// differ never match.
pub proof fn lemma_same_identity_matches(candidate: DeviceView, reference: DeviceView)
    ensures
        candidate.vendor_id == reference.vendor_id && candidate.product_id == reference.product_id
            && candidate.serial_number == reference.serial_number ==> device_sticky_score(
            candidate,
            reference,
        ).is_some(),
        candidate.serial_number.is_some() && reference.serial_number.is_some()
            && candidate.serial_number != reference.serial_number ==> device_sticky_score(
            candidate,
            reference,
        ).is_none(),
{
}

} // verus!
