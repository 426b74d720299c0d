use vstd::prelude::*;
use crate::steam_controller::{HidDeviceEntry, VALVE_VENDOR_ID, text_or, text_or_else};

verus! {

/// One line of the full device listing.
#[derive(Debug, Clone)]
pub struct DeviceInfo {
    pub vendor_id: u16,
    pub product_id: u16,
    pub product: String,
}

/// One interface of the vendor, with what tells its interfaces apart.
#[derive(Debug, Clone)]
pub struct DetailedDeviceInfo {
    pub vendor_id: u16,
    pub product_id: u16,
    pub product: String,
    pub interface_number: i32,
    pub usage_page: u16,
    pub usage: u16,
}

/// Whether `d` lists the interface `e`.
pub open spec fn lists(d: DeviceInfo, e: HidDeviceEntry) -> bool {
    &&& d.vendor_id == e.vendor_id
    &&& d.product_id == e.product_id
    &&& d.product@ == text_or(e.product_string, "Unknown"@)
}

/// Whether `d` lists the interface `e` in detail.
pub open spec fn lists_in_detail(d: DetailedDeviceInfo, e: HidDeviceEntry) -> bool {
    &&& d.vendor_id == e.vendor_id
    &&& d.product_id == e.product_id
    &&& d.product@ == text_or(e.product_string, "Unknown"@)
    &&& d.interface_number == e.interface_number
    &&& d.usage_page == e.usage_page
    &&& d.usage == e.usage
}

/// The interfaces of `s` that belong to the vendor, in their order.
pub open spec fn vendor_entries(s: Seq<HidDeviceEntry>) -> Seq<HidDeviceEntry>
    decreases s.len(),
{
    if s.len() == 0 {
        Seq::empty()
    } else {
        let rest = vendor_entries(s.drop_last());
        if s.last().vendor_id == VALVE_VENDOR_ID {
            rest.push(s.last())
        } else {
            rest
        }
    }
}

/// Lists every enumerated interface, with "Unknown" for a missing product name.
pub fn list_devices(devices: &Vec<HidDeviceEntry>) -> (r: Vec<DeviceInfo>)
    ensures
        r@.len() == devices@.len(),
        forall|i: int| 0 <= i < r@.len() ==> lists(#[trigger] r@[i], devices@[i]),
{
    let mut out: Vec<DeviceInfo> = Vec::new();
    let mut i: usize = 0;
    while i < devices.len()
        invariant
            i <= devices@.len(),
            out@.len() == i,
            forall|k: int| 0 <= k < i ==> lists(#[trigger] out@[k], devices@[k]),
        decreases devices@.len() - i,
    {
        let e = &devices[i];
        out.push(
            DeviceInfo {
                vendor_id: e.vendor_id,
                product_id: e.product_id,
                product: text_or_else(&e.product_string, "Unknown"),
            },
        );
        i = i + 1;
    }
    out
}

/// Lists the vendor's interfaces, in enumeration order, with the interface
/// number and usage that tell apart the interfaces of one unit.
pub fn list_steam_controller_interfaces(devices: &Vec<HidDeviceEntry>) -> (r: Vec<
    DetailedDeviceInfo,
>)
    ensures
        r@.len() == vendor_entries(devices@).len(),
        forall|i: int|
            0 <= i < r@.len() ==> lists_in_detail(#[trigger] r@[i], vendor_entries(devices@)[i]),
{
    let mut out: Vec<DetailedDeviceInfo> = Vec::new();
    let mut i: usize = 0;
    while i < devices.len()
        invariant
            i <= devices@.len(),
            out@.len() == vendor_entries(devices@.take(i as int)).len(),
            forall|k: int|
                0 <= k < out@.len() ==> lists_in_detail(
                    #[trigger] out@[k],
                    vendor_entries(devices@.take(i as int))[k],
                ),
        decreases devices@.len() - i,
    {
        let e = &devices[i];
        assert(devices@.take(i + 1).drop_last() =~= devices@.take(i as int));
        if e.vendor_id == VALVE_VENDOR_ID {
            out.push(
                DetailedDeviceInfo {
                    vendor_id: e.vendor_id,
                    product_id: e.product_id,
                    product: text_or_else(&e.product_string, "Unknown"),
                    interface_number: e.interface_number,
                    usage_page: e.usage_page,
                    usage: e.usage,
                },
            );
        }
        i = i + 1;
    }
    assert(devices@.take(devices@.len() as int) =~= devices@);
    out
}

} // verus!
