//! Locating the Intel e1000 NIC on PCI bus 0.
use vstd::prelude::*;
use crate::pci::{
    config_address_spec, read16_spec, write16_spec, scan_result, vendor_of, device_of, PciBus, PciDevice, PCI_COMMAND,
    PCI_SLOTS, pci_config_address, pci_read16, pci_write16,
};

verus! {

pub const E1000_VENDOR: u16 = 0x8086;

/// Device ids of the supported e1000 models (82540EM, 82545EM, 82574L).
pub open spec fn e1000_device_ids() -> Seq<u16> {
    seq![0x100Eu16, 0x100Fu16, 0x10D3u16]
}

/// Result of PCI scan: physical BAR0 address of the e1000 device.
#[derive(Debug, Clone, Copy, PartialEq, Eq, Structural)]
pub struct E1000PciInfo {
    pub bar0_phys: u64,
    pub bus: u8,
    pub dev: u8,
    pub func: u8,
}

/// Scan PCI bus 0 for an Intel e1000 NIC, given the vendor/device dword
/// and the BAR0 dword of each slot; reports the first match with its
/// BAR0 base address (type bits masked). The caller then enables I/O,
/// memory and bus mastering on it with the write of
/// [`e1000_command_write`].
pub fn pci_find_e1000(ids: &[u32], bar0s: &[u32]) -> (r: Option<E1000PciInfo>)
    requires
        ids@.len() <= PCI_SLOTS,
        bar0s@.len() == ids@.len(),
    ensures
        ({
            let found = match r {
                Some(info) => Some(
                    PciDevice {
                        bus: 0,
                        dev: info.dev,
                        func: 0,
                        vendor: vendor_of(ids@[info.dev as int]),
                        device: device_of(ids@[info.dev as int]),
                    },
                ),
                None => None,
            };
            scan_result(ids@, E1000_VENDOR, e1000_device_ids(), found)
        }),
        r matches Some(info) ==> info.bus == 0 && info.func == 0 && info.bar0_phys == (bar0s@[info.dev as int]
            & !0xFu32) as u64,
{
    let accepted: Vec<u16> = vec![0x100E, 0x100F, 0x10D3];
    assert(accepted@ =~= e1000_device_ids());
    let bus = PciBus;
    match bus.find_device_any(ids, E1000_VENDOR, accepted.as_slice()) {
        Some(d) => {
            let bar0_phys = bus.read_bar(&d, bar0s[d.dev as usize]);
            Some(E1000PciInfo { bar0_phys, bus: 0, dev: d.dev, func: 0 })
        },
        None => None,
    }
}

/// Command register value that re-enables I/O space, memory space and
/// bus mastering (needed again after a device reset).
pub fn pci_enable_bus_mastering(cmd: u16) -> (new_cmd: u16)
    ensures
        new_cmd == cmd | 0x07u16,
{
    cmd | 0x07
}

/// Configuration write that enables I/O space, memory space and bus
/// mastering on the NIC found by [`pci_find_e1000`], given the dword
/// currently held at its command register: the address of that dword,
/// and the dword with the command field's low three bits set.
pub fn e1000_command_write(info: &E1000PciInfo, cmd_dword: u32) -> (w: (u32, u32))
    ensures
        w.0 == config_address_spec(info.bus, info.dev, info.func, PCI_COMMAND),
        w.1 == write16_spec(cmd_dword, PCI_COMMAND, read16_spec(cmd_dword, PCI_COMMAND) | 0x07u16),
{
    let cmd = pci_enable_bus_mastering(pci_read16(cmd_dword, PCI_COMMAND));
    (pci_config_address(info.bus, info.dev, info.func, PCI_COMMAND), pci_write16(cmd_dword, PCI_COMMAND, cmd))
}

/// The command register, from the configuration dword at offset 4.
pub fn pci_read_command(dword: u32) -> (cmd: u16)
    ensures
        cmd == read16_spec(dword, PCI_COMMAND),
{
    pci_read16(dword, PCI_COMMAND)
}

} // verus!
