# embclox

Driver and protocol logic for small bare-metal x86_64 network kernels
(e1000, DEC Tulip, Hyper-V NetVSC and synthetic video), written in Verus
with its behaviour stated in `requires` / `ensures` contracts and proved.

## Layout

- `src/` — the verified library.
  - Hyper-V: `ring` (VMBus ring buffers), `channel` (channels, GPADLs),
    `vmbus` (connection, offers), `synic`, `hypercall`, `nvsp_types`,
    `nvsp_msg` (NVSP and RNDIS messages), `netvsc` (the synthetic NIC:
    packet handling, transmit, NVSP and RNDIS bring-up decisions),
    `nvsp_setup` (the NVSP set-up sequence as a state machine),
    `synthvid` (synthetic video).
  - NICs: `e1000_desc`, `e1000`, `e1000_pci`, `tulip`, `tulip_eeprom`,
    `tulip_pci`, `regs` (register access), `dma` (DMA regions).
  - Platform: `pci`, `apic`, `ioapic`, `pic`, `pit`, `portio` (port
    programs, serial console), `time` (TSC clock, alarm table), `memory`
    and `x86_memory` (mapping plans), `dma_alloc`, `bump`, `hal`,
    `cmdline` (kernel command line), `framebuffer` (text console), `arp`.
  - `wire` holds the little-endian byte helpers shared by the above.
- `tests/` — tests of the library on concrete values.
- `app/` — the hardware side: port and MMIO access, MSRs and hypercalls,
  page tables, serial logger, heap, embassy time driver and executor loop,
  Hyper-V bring-up loops, and the embassy-net drivers.

Operations that touch hardware are split: the library decides (register
programs, messages, ring updates, next protocol step) and `app/`
performs the reads, writes and waits.
