//! Verified protocol and driver logic for a bare-metal x86_64 network kernel.
#![allow(unused_imports)]

pub mod wire;
pub mod ring;
pub mod cmdline;
pub mod nvsp_types;
pub mod nvsp_msg;
pub mod dma;
pub mod channel;
pub mod vmbus;
pub mod netvsc;
pub mod synthvid;
pub mod memory;
pub mod synic;
pub mod hypercall;
pub mod pci;
pub mod e1000_pci;
pub mod tulip_pci;
pub mod regs;
pub mod apic;
pub mod ioapic;
pub mod e1000_desc;
pub mod e1000;
pub mod tulip;
pub mod tulip_eeprom;
pub mod time;
pub mod hal;
pub mod x86_memory;
pub mod dma_alloc;
pub mod bump;
pub mod framebuffer;
pub mod portio;
pub mod arp;
pub mod pic;
pub mod pit;
pub mod nvsp_setup;
