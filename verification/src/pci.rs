//! x86 PCI configuration space through I/O ports 0xCF8/0xCFC.
//!
//! The port accesses themselves are the caller's; this module computes
//! configuration addresses, extracts and merges 16-bit fields of a
//! configuration dword, and scans the vendor/device words of bus 0.
use vstd::prelude::*;

verus! {

pub const PCI_CONFIG_ADDR: u16 = 0xCF8;
pub const PCI_CONFIG_DATA: u16 = 0xCFC;
pub const PCI_COMMAND: u8 = 0x04;
pub const PCI_BAR0: u8 = 0x10;

/// Number of device slots on a PCI bus.
pub const PCI_SLOTS: usize = 32;

/// Vendor/device dword of an empty slot.
pub const PCI_NO_DEVICE: u32 = 0xFFFF_FFFF;

/// Command register bits: I/O space, memory space, bus master.
pub const PCI_COMMAND_IO_MEM_MASTER: u16 = 0x07;

/// Configuration address of a register: enable bit, bus, device,
/// function and the dword-aligned offset.
pub open spec fn config_address_spec(bus: u8, dev: u8, func: u8, offset: u8) -> u32 {
    (1u32 << 31u32) | ((bus as u32) << 16u32) | ((dev as u32) << 11u32) | ((func as u32) << 8u32) | ((
    offset as u32) & 0xFCu32)
}

/// Configuration address of a register.
pub fn pci_config_address(bus: u8, dev: u8, func: u8, offset: u8) -> (a: u32)
    ensures
        a == config_address_spec(bus, dev, func, offset),
{
    (1u32 << 31u32) | ((bus as u32) << 16u32) | ((dev as u32) << 11u32) | ((func as u32) << 8u32) | ((
    offset as u32) & 0xFCu32)
}

/// Bit position of the 16-bit field at `offset` within its dword.
pub open spec fn half_shift(offset: u8) -> u32 {
    if offset & 2u8 == 0u8 {
        0
    } else {
        16
    }
}

/// The 16-bit field at `offset` of the configuration dword `dword` (read
/// at `offset & 0xFC`).
pub open spec fn read16_spec(dword: u32, offset: u8) -> u16 {
    ((dword >> half_shift(offset)) & 0xFFFFu32) as u16
}

/// Extracts the 16-bit field at `offset` from its configuration dword.
pub fn pci_read16(dword: u32, offset: u8) -> (v: u16)
    ensures
        v == read16_spec(dword, offset),
{
    let shift: u32 = if offset & 2 == 0 {
        0
    } else {
        16
    };
    #[verifier::truncate] (((dword >> shift) & 0xFFFF) as u16)
}

/// The configuration dword `old` with the 16-bit field at `offset`
/// replaced by `val`.
pub open spec fn write16_spec(old: u32, offset: u8, val: u16) -> u32 {
    let shift = half_shift(offset);
    (old & !(0xFFFFu32 << shift)) | ((val as u32) << shift)
}

/// Merges a 16-bit field into its configuration dword; the caller writes
/// the result back at `offset & 0xFC`.
pub fn pci_write16(old: u32, offset: u8, val: u16) -> (new: u32)
    ensures
        new == write16_spec(old, offset, val),
{
    let shift: u32 = if offset & 2 == 0 {
        0
    } else {
        16
    };
    let mask = !(0xFFFFu32 << shift);
    (old & mask) | ((val as u32) << shift)
}

/// Reading back a 16-bit field just written gives the value written, and
/// the other half of the dword is left as it was.
pub proof fn lemma_write16_then_read16(old: u32, offset: u8, val: u16)
    ensures
        read16_spec(write16_spec(old, offset, val), offset) == val,
        read16_spec(write16_spec(old, offset, val), offset ^ 2u8) == read16_spec(old, offset ^ 2u8),
{
    let lo = offset & 2u8 == 0u8;
    assert((offset & 2u8 == 0u8) <==> ((offset ^ 2u8) & 2u8 != 0u8)) by (bit_vector);
    if lo {
        assert((((old & !(0xFFFFu32 << 0u32)) | ((val as u32) << 0u32)) >> 0u32) & 0xFFFFu32 == val as u32)
            by (bit_vector);
        assert(((((old & !(0xFFFFu32 << 0u32)) | ((val as u32) << 0u32)) >> 16u32) & 0xFFFFu32) == (old
            >> 16u32) & 0xFFFFu32) by (bit_vector);
    } else {
        assert((((old & !(0xFFFFu32 << 16u32)) | ((val as u32) << 16u32)) >> 16u32) & 0xFFFFu32 == val as u32)
            by (bit_vector);
        assert(((((old & !(0xFFFFu32 << 16u32)) | ((val as u32) << 16u32)) >> 0u32) & 0xFFFFu32) == (old
            >> 0u32) & 0xFFFFu32) by (bit_vector);
    }
}

/// Vendor id of a vendor/device dword.
pub open spec fn vendor_of(id: u32) -> u16 {
    (id & 0xFFFFu32) as u16
}

/// Device id of a vendor/device dword.
pub open spec fn device_of(id: u32) -> u16 {
    ((id >> 16u32) & 0xFFFFu32) as u16
}

/// x86 PCI bus scanner using I/O ports 0xCF8/0xCFC.
#[derive(Debug, Clone, Copy)]
pub struct PciBus;

/// A PCI device found during bus enumeration.
#[derive(Debug, Clone, Copy, PartialEq, Eq, Structural)]
pub struct PciDevice {
    pub bus: u8,
    pub dev: u8,
    pub func: u8,
    pub vendor: u16,
    pub device: u16,
}

/// Slot `i` holds a device of vendor `vendor` whose device id is one of `accepted`.
pub open spec fn slot_is(ids: Seq<u32>, i: int, vendor: u16, accepted: Seq<u16>) -> bool {
    ids[i] != PCI_NO_DEVICE && vendor_of(ids[i]) == vendor && accepted.contains(device_of(ids[i]))
}

/// Result of scanning bus 0: the first slot that holds a matching
/// device, reported as function 0 of that slot.
pub open spec fn scan_result(ids: Seq<u32>, vendor: u16, accepted: Seq<u16>, r: Option<PciDevice>) -> bool {
    match r {
        Some(d) => {
            &&& 0 <= d.dev < ids.len()
            &&& slot_is(ids, d.dev as int, vendor, accepted)
            &&& forall|j: int| 0 <= j < d.dev ==> !slot_is(ids, j, vendor, accepted)
            &&& d.bus == 0 && d.func == 0
            &&& d.vendor == vendor_of(ids[d.dev as int])
            &&& d.device == device_of(ids[d.dev as int])
        },
        None => forall|j: int| 0 <= j < ids.len() ==> !slot_is(ids, j, vendor, accepted),
    }
}

/// Whether `d` is one of `accepted`.
pub fn contains_u16(accepted: &[u16], d: u16) -> (r: bool)
    ensures
        r == accepted@.contains(d),
{
    let mut k: usize = 0;
    while k < accepted.len()
        invariant
            k <= accepted@.len(),
            forall|m: int| 0 <= m < k ==> accepted@[m] != d,
        decreases accepted@.len() - k,
    {
        if accepted[k] == d {
            return true;
        }
        k = k + 1;
    }
    false
}

impl PciBus {
    /// Find a PCI device of the given vendor matching any of the given
    /// device IDs on bus 0, given the vendor/device dword read from each slot.
    pub fn find_device_any(&self, ids: &[u32], vendor: u16, device_ids: &[u16]) -> (r: Option<PciDevice>)
        requires
            ids@.len() <= PCI_SLOTS,
        ensures
            scan_result(ids@, vendor, device_ids@, r),
    {
        let mut i: usize = 0;
        while i < ids.len()
            invariant
                i <= ids@.len() <= PCI_SLOTS,
                forall|j: int| 0 <= j < i ==> !slot_is(ids@, j, vendor, device_ids@),
            decreases ids@.len() - i,
        {
            let id = ids[i];
            if id != PCI_NO_DEVICE {
                let v = #[verifier::truncate] ((id & 0xFFFF) as u16);
                let d = #[verifier::truncate] (((id >> 16) & 0xFFFF) as u16);
                if v == vendor && contains_u16(device_ids, d) {
                    return Some(PciDevice { bus: 0, dev: i as u8, func: 0, vendor: v, device: d });
                }
            }
            i = i + 1;
        }
        None
    }

    /// Find a PCI device by vendor and device ID on bus 0, given the
    /// vendor/device dword read from each slot.
    pub fn find_device(&self, ids: &[u32], vendor: u16, device_id: u16) -> (r: Option<PciDevice>)
        requires
            ids@.len() <= PCI_SLOTS,
        ensures
            scan_result(ids@, vendor, seq![device_id], r),
    {
        let accepted: Vec<u16> = vec![device_id];
        assert(accepted@ =~= seq![device_id]);
        self.find_device_any(ids, vendor, accepted.as_slice())
    }

    /// Command register value that enables bus mastering, memory space
    /// and I/O space, given its current value.
    pub fn enable_bus_mastering(&self, dev: &PciDevice, cmd: u16) -> (new_cmd: u16)
        ensures
            new_cmd == cmd | PCI_COMMAND_IO_MEM_MASTER,
    {
        cmd | PCI_COMMAND_IO_MEM_MASTER
    }

    /// Configuration offset of BAR `bar`.
    pub fn bar_offset(&self, bar: u8) -> (o: u8)
        requires
            0x10 + bar * 4 <= u8::MAX,
        ensures
            o == 0x10 + bar * 4,
    {
        0x10 + bar * 4
    }

    /// Base address held in a BAR: its raw value without the type bits.
    pub fn read_bar(&self, dev: &PciDevice, raw: u32) -> (base: u64)
        ensures
            base == (raw & !0xFu32) as u64,
    {
        (raw & !0xF) as u64
    }

    /// Configuration address of a device's 32-bit register.
    pub fn read_config(&self, dev: &PciDevice, offset: u8) -> (a: u32)
        ensures
            a == config_address_spec(dev.bus, dev.dev, dev.func, offset),
    {
        pci_config_address(dev.bus, dev.dev, dev.func, offset)
    }

    /// Configuration address and value of a write to a device's 32-bit register.
    pub fn write_config(&self, dev: &PciDevice, offset: u8, val: u32) -> (w: (u32, u32))
        ensures
            w == (config_address_spec(dev.bus, dev.dev, dev.func, offset), val),
    {
        (pci_config_address(dev.bus, dev.dev, dev.func, offset), val)
    }
}

} // verus!
