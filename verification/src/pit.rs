//! PIT channel 2 one-shots used to calibrate the TSC.
use vstd::prelude::*;
use crate::portio::PortWrite;
use crate::time::pit_expected_us;

verus! {

pub const PIT_CH2_DATA: u16 = 0x42;
pub const PIT_CMD: u16 = 0x43;
/// Port B of the keyboard controller: PIT channel 2 gate (bit 0),
/// speaker (bit 1), channel 2 output (bit 5).
pub const PORT_B: u16 = 0x61;

/// PIT command: channel 2, low byte then high byte, mode 0, binary.
pub const PIT_CH2_ONESHOT: u8 = 0xB0;

/// PIT input clocks in about 10 ms.
pub const PIT_CALIBRATION_COUNT: u16 = 11932;

/// Port B value with the channel 2 gate on and the speaker off.
pub fn pit_gate_on(port_b: u8) -> (v: u8)
    ensures
        v == (port_b | 1u8) & !2u8,
{
    (port_b | 0x01) & !0x02
}

/// Port writes that arm PIT channel 2 as a one-shot of `count` clocks:
/// the mode, then the count's low and high bytes.
pub open spec fn pit_oneshot_spec(count: u16) -> Seq<PortWrite> {
    seq![
        PortWrite { port: PIT_CMD, value: PIT_CH2_ONESHOT },
        PortWrite { port: PIT_CH2_DATA, value: (count & 0xFFu16) as u8 },
        PortWrite { port: PIT_CH2_DATA, value: (count >> 8u16) as u8 },
    ]
}

/// Arms PIT channel 2 as a one-shot of `count` input clocks.
pub fn pit_oneshot_program(count: u16) -> (w: Vec<PortWrite>)
    ensures
        w@ == pit_oneshot_spec(count),
{
    let mut w: Vec<PortWrite> = Vec::new();
    w.push(PortWrite { port: PIT_CMD, value: PIT_CH2_ONESHOT });
    w.push(PortWrite { port: PIT_CH2_DATA, value: (count & 0xFF) as u8 });
    w.push(PortWrite { port: PIT_CH2_DATA, value: (count >> 8) as u8 });
    w
}

/// The one-shot has run out: channel 2's output (port B bit 5) is high.
pub fn pit_expired(port_b: u8) -> (done: bool)
    ensures
        done == (port_b & 0x20u8 != 0),
{
    port_b & 0x20 != 0
}

/// The two count bytes written by the one-shot program give the count back.
pub proof fn lemma_pit_count_bytes(count: u16)
    ensures
        ({
            let p = pit_oneshot_spec(count);
            (p[2].value as u16) * 256 + (p[1].value as u16) == count
        }),
{
    assert(((count >> 8u16) as u8) as u16 * 256 + ((count & 0xFFu16) as u8) as u16 == count) by (bit_vector);
}

/// TSC ticks per microsecond from the ticks counted during a one-shot of
/// `PIT_CALIBRATION_COUNT` clocks (about 10 ms).
pub fn calibrate_tsc_mhz(tsc_elapsed: u64) -> (tsc_per_us: u64)
    ensures
        tsc_per_us == (tsc_elapsed as int) / ((PIT_CALIBRATION_COUNT as int) * 1_000_000 / 1_193_182),
        tsc_per_us == tsc_elapsed / 10_000,
{
    let expected_us = pit_expected_us(PIT_CALIBRATION_COUNT);
    assert(expected_us == 10_000);
    tsc_elapsed / expected_us
}

/// PIT input clocks in about 50 ms.
pub const PIT_50MS_COUNT: u16 = 59659;

/// Port B value that turns the channel 2 gate on with the speaker off,
/// keeping only the refresh and timer-output status bits.
pub fn gate_on_quiet(port_b: u8) -> (v: u8)
    ensures
        v == (port_b & 0x0Cu8) | 1u8,
{
    (port_b & 0x0C) | 0x01
}

/// Port writes that restart the one-shot: gate off, then on again.
pub open spec fn gate_restart_spec(gate: u8) -> Seq<PortWrite> {
    seq![PortWrite { port: PORT_B, value: gate & !1u8 }, PortWrite { port: PORT_B, value: gate | 1u8 }]
}

/// Restarts the channel 2 one-shot by pulsing its gate.
pub fn gate_restart_program(gate: u8) -> (w: Vec<PortWrite>)
    ensures
        w@ == gate_restart_spec(gate),
{
    let mut w: Vec<PortWrite> = Vec::new();
    w.push(PortWrite { port: PORT_B, value: gate & !1u8 });
    w.push(PortWrite { port: PORT_B, value: gate | 1u8 });
    w
}

/// TSC ticks per microsecond from the ticks counted during a 50 ms one-shot.
pub fn calibrate_tsc(tsc_per_50ms: u64) -> (tsc_per_us: u64)
    ensures
        tsc_per_us == tsc_per_50ms / 50_000,
{
    tsc_per_50ms / 50_000
}

} // verus!
