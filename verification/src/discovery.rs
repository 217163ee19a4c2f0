//! Finding K1 Pro devices among the enumerated HID interfaces: which
//! interfaces are the vendor control interface, the ids of the devices,
//! which devices are new and which are gone.
use vstd::prelude::*;
use vstd::string::*;

use crate::mappings::DEVICE_NAMESPACE;

verus! {

/// USB vendor id of the K1 Pro.
pub const VENDOR_ID: u16 = 0x5548;

/// USB product id of the K1 Pro.
pub const PRODUCT_ID: u16 = 0x1025;

/// One enumerated HID interface, as plain values.
#[derive(Clone, Debug)]
pub struct HidEntry {
    pub path: String,
    pub serial: String,
    pub usage_page: u16,
    pub usage: u16,
    pub interface_number: i32,
}

/// The vendor control interface: usage page above 1025 and usage 1.
pub open spec fn spec_is_control_interface(usage_page: u16, usage: u16) -> bool {
    usage_page > 1025 && usage == 1
}

/// Whether an interface is the vendor control interface of a K1 Pro.
pub fn is_control_interface(usage_page: u16, usage: u16) -> (r: bool)
    ensures
        r == spec_is_control_interface(usage_page, usage),
{
    usage_page > 1025 && usage == 1
}

/// The device id of a serial number: the namespace, a hyphen, the serial.
pub open spec fn spec_device_id(serial: Seq<char>) -> Seq<char> {
    "k1"@ + "-"@ + serial
}

/// Builds the device id of a serial number.
pub fn device_id(serial: &str) -> (id: String)
    ensures
        id@ == spec_device_id(serial@),
{
    let mut id = String::from_str(DEVICE_NAMESPACE);
    proof {
        reveal_strlit("k1");
    }
    assert(DEVICE_NAMESPACE@ == "k1"@);
    id.append("-");
    id.append(serial);
    id
}

/// The texts of a list of strings.
pub open spec fn texts(list: Seq<String>) -> Seq<Seq<char>> {
    list.map_values(|s: String| s@)
}

/// Whether `s` occurs in `list`.
pub fn contains_text(list: &[String], s: &String) -> (r: bool)
    ensures
        r == texts(list@).contains(s@),
{
    let n = list.len();
    for i in 0..n
        invariant
            n == list@.len(),
            forall|j: int| 0 <= j < i ==> list@[j]@ != s@,
    {
        if list[i] == *s {
            assert(texts(list@)[i as int] == s@);
            return true;
        }
    }
    proof {
        if texts(list@).contains(s@) {
            let j = choose|j: int| 0 <= j < texts(list@).len() && texts(list@)[j] == s@;
            assert(list@[j]@ == s@);
        }
    }
    false
}

/// The ids of the control interfaces among the first `n` entries, in order.
pub open spec fn control_ids(entries: Seq<HidEntry>, n: int) -> Seq<Seq<char>>
    decreases n,
{
    if n <= 0 {
        seq![]
    } else if spec_is_control_interface(entries[n - 1].usage_page, entries[n - 1].usage) {
        control_ids(entries, n - 1).push(spec_device_id(entries[n - 1].serial@))
    } else {
        control_ids(entries, n - 1)
    }
}

/// The indices among the first `n` entries of control interfaces whose
/// device is not yet connected, in order.
pub open spec fn new_entries(entries: Seq<HidEntry>, connected: Seq<Seq<char>>, n: int) -> Seq<usize>
    decreases n,
{
    if n <= 0 {
        seq![]
    } else if spec_is_control_interface(entries[n - 1].usage_page, entries[n - 1].usage)
        && !connected.contains(spec_device_id(entries[n - 1].serial@)) {
        new_entries(entries, connected, n - 1).push((n - 1) as usize)
    } else {
        new_entries(entries, connected, n - 1)
    }
}

/// The outcome of one scan of the enumerated interfaces.
#[derive(Clone, Debug)]
pub struct ScanPlan {
    /// Ids of every device that is present.
    pub active_ids: Vec<String>,
    /// Indices of the entries of devices that are not connected yet.
    pub new_entries: Vec<usize>,
}

/// Scans the enumerated interfaces against the ids of the connected
/// devices.
pub fn plan_scan(entries: &[HidEntry], connected: &[String]) -> (plan: ScanPlan)
    ensures
        texts(plan.active_ids@) == control_ids(entries@, entries@.len() as int),
        plan.new_entries@ == new_entries(entries@, texts(connected@), entries@.len() as int),
{
    let mut active_ids: Vec<String> = Vec::new();
    let mut fresh: Vec<usize> = Vec::new();
    let n = entries.len();
    for i in 0..n
        invariant
            n == entries@.len(),
            texts(active_ids@) == control_ids(entries@, i as int),
            fresh@ == new_entries(entries@, texts(connected@), i as int),
    {
        let entry = &entries[i];
        if is_control_interface(entry.usage_page, entry.usage) {
            let id = device_id(entry.serial.as_str());
            let known = contains_text(connected, &id);
            if !known {
                fresh.push(i);
            }
            let ghost before = active_ids@;
            active_ids.push(id);
            assert(texts(active_ids@) =~= texts(before).push(spec_device_id(entry.serial@)));
        }
    }
    ScanPlan { active_ids, new_entries: fresh }
}

/// The ids of connected devices that are no longer present, in order.
pub open spec fn gone_ids(connected: Seq<Seq<char>>, active: Seq<Seq<char>>) -> Seq<Seq<char>> {
    connected.filter(|id: Seq<char>| !active.contains(id))
}

/// Lists the connected devices that a scan did not find.
pub fn disconnected_ids(connected: &[String], active: &[String]) -> (gone: Vec<String>)
    ensures
        texts(gone@) == gone_ids(texts(connected@), texts(active@)),
{
    let mut gone: Vec<String> = Vec::new();
    let n = connected.len();
    for i in 0..n
        invariant
            n == connected@.len(),
            texts(gone@) == gone_ids(texts(connected@).take(i as int), texts(active@)),
    {
        let id = &connected[i];
        let present = contains_text(active, id);
        let ghost before = gone@;
        assert(texts(connected@).take(i + 1).drop_last() =~= texts(connected@).take(i as int));
        reveal_with_fuel(Seq::<_>::filter, 1);
        if !present {
            gone.push(id.clone());
            assert(texts(gone@) =~= texts(before).push(id@));
        } else {
            assert(gone@ == before);
        }
    }
    assert(texts(connected@).take(n as int) =~= texts(connected@));
    gone
}

/// The first interface 0 of the device with the given serial number.
pub open spec fn is_first_keyboard_interface(entries: Seq<HidEntry>, serial: Seq<char>, i: int) -> bool {
    &&& 0 <= i < entries.len()
    &&& entries[i].interface_number == 0
    &&& entries[i].serial@ == serial
    &&& forall|j: int|
        0 <= j < i ==> !(entries[j].interface_number == 0 && #[trigger] entries[j].serial@ == serial)
}

/// Finds the keyboard interface (interface 0) of the device with the given
/// serial number, which the firmware uses in standalone mode.
pub fn find_keyboard_interface(entries: &[HidEntry], serial: &String) -> (r: Option<usize>)
    ensures
        match r {
            Some(i) => is_first_keyboard_interface(entries@, serial@, i as int),
            None => forall|j: int|
                0 <= j < entries@.len() ==> !(entries@[j].interface_number == 0
                    && #[trigger] entries@[j].serial@ == serial@),
        },
{
    let n = entries.len();
    for i in 0..n
        invariant
            n == entries@.len(),
            forall|j: int|
                0 <= j < i ==> !(entries@[j].interface_number == 0 && #[trigger] entries@[j].serial@
                    == serial@),
    {
        if entries[i].interface_number == 0 && entries[i].serial == *serial {
            return Some(i);
        }
    }
    None
}

/// A scan sees each present device as new exactly when it is not
/// connected, and a connected device that the scan found is not gone.
pub proof fn lemma_scan_partitions_devices(
    entries: Seq<HidEntry>,
    connected: Seq<Seq<char>>,
    n: int,
    k: int,
)
    requires
        0 <= n <= entries.len(),
        entries.len() <= usize::MAX,
    ensures
        0 <= k < new_entries(entries, connected, n).len() ==> {
            let i = new_entries(entries, connected, n)[k] as int;
            &&& 0 <= i < n
            &&& spec_is_control_interface(entries[i].usage_page, entries[i].usage)
            &&& !connected.contains(spec_device_id(entries[i].serial@))
        },
    decreases n,
{
    if n > 0 {
        lemma_scan_partitions_devices(entries, connected, n - 1, k);
        let prev = new_entries(entries, connected, n - 1);
        if spec_is_control_interface(entries[n - 1].usage_page, entries[n - 1].usage)
            && !connected.contains(spec_device_id(entries[n - 1].serial@)) {
            assert(new_entries(entries, connected, n) == prev.push((n - 1) as usize));
            if 0 <= k < prev.len() {
                assert(new_entries(entries, connected, n)[k] == prev[k]);
            }
        }
    }
}

/// A device that a scan found present is never listed as gone, and every
/// gone device was connected.
pub proof fn lemma_gone_devices(connected: Seq<Seq<char>>, active: Seq<Seq<char>>, id: Seq<char>)
    ensures
        active.contains(id) ==> !gone_ids(connected, active).contains(id),
        gone_ids(connected, active).contains(id) ==> connected.contains(id),
{
    let keep = |x: Seq<char>| !active.contains(x);
    if gone_ids(connected, active).contains(id) {
        let g = gone_ids(connected, active);
        let j = choose|j: int| 0 <= j < g.len() && g[j] == id;
        connected.lemma_filter_pred(keep, j);
        connected.lemma_filter_contains_rev(keep, id);
    }
}

} // verus!
