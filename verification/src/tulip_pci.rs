//! Locating the DEC Tulip NIC on PCI bus 0 and decoding its BAR0.
use vstd::prelude::*;
use crate::pci::{vendor_of, device_of, PCI_SLOTS};

verus! {

pub const TULIP_VENDOR: u16 = 0x1011;
/// DEC 21140.
pub const TULIP_21140: u16 = 0x0009;
/// DEC 21143.
pub const TULIP_21143: u16 = 0x0019;

/// Slot `i` holds a DEC 21140 or 21143.
pub open spec fn is_tulip(ids: Seq<u32>, i: int) -> bool {
    vendor_of(ids[i]) == TULIP_VENDOR && (device_of(ids[i]) == TULIP_21140 || device_of(ids[i]) == TULIP_21143)
}

/// Find a Tulip NIC on PCI bus 0, given the vendor/device dword of each
/// slot: the first matching slot and the low byte of its device id.
pub fn find_tulip(ids: &[u32]) -> (r: Option<(u8, u8)>)
    requires
        ids@.len() <= PCI_SLOTS,
    ensures
        match r {
            Some((slot, dev)) => {
                &&& slot < ids@.len()
                &&& is_tulip(ids@, slot as int)
                &&& forall|j: int| 0 <= j < slot ==> !is_tulip(ids@, j)
                &&& dev == device_of(ids@[slot as int]) as u8
            },
            None => forall|j: int| 0 <= j < ids@.len() ==> !is_tulip(ids@, j),
        },
{
    let mut slot: usize = 0;
    while slot < ids.len()
        invariant
            slot <= ids@.len() <= PCI_SLOTS,
            forall|j: int| 0 <= j < slot ==> !is_tulip(ids@, j),
        decreases ids@.len() - slot,
    {
        let id = ids[slot];
        let vendor = id & 0xFFFF;
        let device = (id >> 16) & 0xFFFF;
        proof {
            assert(vendor_of(id) == vendor as u16 && vendor < 0x10000) by (bit_vector)
                requires
                    vendor == id & 0xFFFFu32,
            ;
            assert(device_of(id) == device as u16 && device < 0x10000) by (bit_vector)
                requires
                    device == (id >> 16u32) & 0xFFFFu32,
            ;
        }
        if vendor == 0x1011 && (device == 0x0009 || device == 0x0019) {
            return Some((slot as u8, device as u8));
        }
        slot = slot + 1;
    }
    None
}

/// Command register value with bus mastering (bit 2) set.
pub fn pci_enable_bus_mastering(cmd: u32) -> (new_cmd: u32)
    ensures
        new_cmd == cmd | 4u32,
{
    cmd | 4
}

/// Base address held in BAR0: an I/O BAR's base, a 32-bit memory BAR's
/// base, or for a 64-bit memory BAR (type 2) the base extended by BAR1.
pub open spec fn bar0_base(bar0: u32, bar1: u32) -> u64 {
    let base = (bar0 & !0xFu32) as u64;
    if bar0 & 1u32 != 0 {
        base
    } else if (bar0 >> 1u32) & 3u32 == 2 {
        base | ((bar1 as u64) << 32u64)
    } else {
        base
    }
}

/// Decodes BAR0; `bar1` is the following BAR, used only by 64-bit BARs.
pub fn pci_read_bar0(bar0: u32, bar1: u32) -> (base: u64)
    ensures
        base == bar0_base(bar0, bar1),
{
    let is_mmio = (bar0 & 1) == 0;
    if !is_mmio {
        return (bar0 & !0xF) as u64;
    }
    let bar_type = (bar0 >> 1) & 0x3;
    let base = (bar0 & !0xF) as u64;
    if bar_type == 0x2 {
        base | ((bar1 as u64) << 32)
    } else {
        base
    }
}

} // verus!
