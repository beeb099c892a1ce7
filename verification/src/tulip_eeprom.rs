//! Serial EEPROM (SROM) access for the Tulip's MAC address.
//!
//! The DEC 21140 stores the MAC address in a serial EEPROM accessed by
//! bit-banging CSR9. The read protocol is laid out here as a sequence of
//! CSR9 writes and samples; the caller performs them with a short delay
//! after each write and hands the sampled values back.
use vstd::prelude::*;
use vstd::bytes::*;
use crate::tulip::{CSR9_DI, CSR9_DO, CSR9_RD, CSR9_SK, CSR9_SR};

verus! {

/// One step of a serial ROM transaction on CSR9.
#[derive(Debug, Clone, Copy, PartialEq, Eq, Structural)]
pub enum SromStep {
    /// Write this value to CSR9, then wait.
    Write(u32),
    /// Read CSR9; its data-out bit is the next bit of the word.
    Sample,
}

/// Read command for word `addr`: start bit and opcode 110, then the address.
pub open spec fn srom_command(addr: u8) -> u32 {
    (0x06u32 | ((addr as u32) << 3u32)) as u32
}

/// CSR9 value that presents command bit `i` (bits are sent from bit 8 down).
pub open spec fn command_value(cmd: u32, i: int) -> u32 {
    CSR9_SR | CSR9_RD | if (cmd >> (i as u32)) & 1u32 != 0 {
        CSR9_DI
    } else {
        0u32
    }
}

/// Clocking out command bit `i`: present it, raise the clock, lower it.
pub open spec fn command_steps(cmd: u32, i: int) -> Seq<SromStep> {
    let v = command_value(cmd, i);
    seq![SromStep::Write(v), SromStep::Write(v | CSR9_SK), SromStep::Write(v)]
}

/// Steps that send the nine command bits, most significant first.
pub open spec fn command_phase(cmd: u32, sent: nat) -> Seq<SromStep>
    decreases sent,
{
    if sent == 0 {
        Seq::empty()
    } else {
        command_phase(cmd, (sent - 1) as nat) + command_steps(cmd, 9 - sent)
    }
}

/// Steps that clock in one data bit.
pub open spec fn data_bit_steps() -> Seq<SromStep> {
    seq![
        SromStep::Write(CSR9_SR | CSR9_RD),
        SromStep::Write(CSR9_SR | CSR9_RD | CSR9_SK),
        SromStep::Sample,
        SromStep::Write(CSR9_SR | CSR9_RD),
    ]
}

/// Steps that clock in `n` data bits.
pub open spec fn data_phase(n: nat) -> Seq<SromStep>
    decreases n,
{
    if n == 0 {
        Seq::empty()
    } else {
        data_phase((n - 1) as nat) + data_bit_steps()
    }
}

/// The whole transaction reading word `addr`: select the ROM, send the
/// read command, clock in sixteen data bits, deselect.
pub open spec fn srom_read_program_spec(addr: u8) -> Seq<SromStep> {
    seq![SromStep::Write(CSR9_SR)] + command_phase(srom_command(addr), 9) + data_phase(16) + seq![
        SromStep::Write(0),
    ]
}

/// Steps of the transaction reading EEPROM word `addr`.
pub fn eeprom_read(addr: u8) -> (p: Vec<SromStep>)
    ensures
        p@ == srom_read_program_spec(addr),
{
    let cmd: u32 = 0x06 | ((addr as u32) << 3);
    let mut p: Vec<SromStep> = Vec::new();
    p.push(SromStep::Write(CSR9_SR));
    let mut sent: usize = 0;
    while sent < 9
        invariant
            sent <= 9,
            cmd == srom_command(addr),
            p@ == seq![SromStep::Write(CSR9_SR)] + command_phase(cmd, sent as nat),
        decreases 9 - sent,
    {
        let i: u32 = (8 - sent) as u32;
        let bit = if (cmd >> i) & 1 != 0 {
            CSR9_DI
        } else {
            0
        };
        let val = CSR9_SR | CSR9_RD | bit;
        p.push(SromStep::Write(val));
        p.push(SromStep::Write(val | CSR9_SK));
        p.push(SromStep::Write(val));
        proof {
            assert(val == command_value(cmd, 9 - (sent + 1)));
        }
        sent = sent + 1;
        assert(p@ =~= seq![SromStep::Write(CSR9_SR)] + command_phase(cmd, sent as nat));
    }
    let mut n: usize = 0;
    while n < 16
        invariant
            n <= 16,
            p@ == seq![SromStep::Write(CSR9_SR)] + command_phase(cmd, 9) + data_phase(n as nat),
        decreases 16 - n,
    {
        p.push(SromStep::Write(CSR9_SR | CSR9_RD));
        p.push(SromStep::Write(CSR9_SR | CSR9_RD | CSR9_SK));
        p.push(SromStep::Sample);
        p.push(SromStep::Write(CSR9_SR | CSR9_RD));
        n = n + 1;
        assert(p@ =~= seq![SromStep::Write(CSR9_SR)] + command_phase(cmd, 9) + data_phase(n as nat));
    }
    p.push(SromStep::Write(0));
    assert(p@ =~= srom_read_program_spec(addr));
    p
}

/// Word assembled from CSR9 samples, first sample most significant.
pub open spec fn srom_word_spec(samples: Seq<u32>) -> u16
    decreases samples.len(),
{
    if samples.len() == 0 {
        0
    } else {
        let prev = srom_word_spec(samples.drop_last());
        ((prev << 1u16) | if samples.last() & CSR9_DO != 0 {
            1u16
        } else {
            0u16
        }) as u16
    }
}

/// Assembles the word read by a transaction from its sixteen samples.
pub fn srom_word(samples: &[u32]) -> (w: u16)
    ensures
        w == srom_word_spec(samples@),
{
    let mut data: u16 = 0;
    let mut k: usize = 0;
    while k < samples.len()
        invariant
            k <= samples@.len(),
            data == srom_word_spec(samples@.subrange(0, k as int)),
        decreases samples@.len() - k,
    {
        let bit: u16 = if samples[k] & CSR9_DO != 0 {
            1
        } else {
            0
        };
        proof {
            assert(samples@.subrange(0, k + 1).drop_last() =~= samples@.subrange(0, k as int));
        }
        data = (data << 1) | bit;
        k = k + 1;
    }
    assert(samples@.subrange(0, samples@.len() as int) =~= samples@);
    data
}

/// MAC address stored in the first three EEPROM words, low byte first.
pub open spec fn mac_from_words(w0: u16, w1: u16, w2: u16) -> Seq<u8> {
    seq![
        (w0 & 0xFFu16) as u8,
        (w0 >> 8u16) as u8,
        (w1 & 0xFFu16) as u8,
        (w1 >> 8u16) as u8,
        (w2 & 0xFFu16) as u8,
        (w2 >> 8u16) as u8,
    ]
}

/// The 6-byte MAC address from the first three EEPROM words; `None` when
/// it is all zeros or all ones (no EEPROM contents).
pub fn read_mac(w0: u16, w1: u16, w2: u16) -> (m: Option<[u8; 6]>)
    ensures
        match m {
            Some(mac) => mac@ == mac_from_words(w0, w1, w2) && mac_from_words(w0, w1, w2) != seq![
                0u8,
                0,
                0,
                0,
                0,
                0,
            ] && mac_from_words(w0, w1, w2) != seq![0xFFu8, 0xFF, 0xFF, 0xFF, 0xFF, 0xFF],
            None => mac_from_words(w0, w1, w2) == seq![0u8, 0, 0, 0, 0, 0] || mac_from_words(w0, w1, w2)
                == seq![0xFFu8, 0xFF, 0xFF, 0xFF, 0xFF, 0xFF],
        },
{
    let mac: [u8; 6] = [
        (w0 & 0xFF) as u8,
        (w0 >> 8) as u8,
        (w1 & 0xFF) as u8,
        (w1 >> 8) as u8,
        (w2 & 0xFF) as u8,
        (w2 >> 8) as u8,
    ];
    assert(mac@ =~= mac_from_words(w0, w1, w2));
    let all_zero = mac[0] == 0 && mac[1] == 0 && mac[2] == 0 && mac[3] == 0 && mac[4] == 0 && mac[5] == 0;
    let all_ones = mac[0] == 0xFF && mac[1] == 0xFF && mac[2] == 0xFF && mac[3] == 0xFF && mac[4] == 0xFF
        && mac[5] == 0xFF;
    if all_zero {
        assert(mac@ =~= seq![0u8, 0, 0, 0, 0, 0]);
        return None;
    }
    if all_ones {
        assert(mac@ =~= seq![0xFFu8, 0xFF, 0xFF, 0xFF, 0xFF, 0xFF]);
        return None;
    }
    proof {
        if mac@ == seq![0u8, 0, 0, 0, 0, 0] {
            assert(mac@[0] == 0 && mac@[1] == 0 && mac@[2] == 0 && mac@[3] == 0 && mac@[4] == 0 && mac@[5] == 0);
        }
        if mac@ == seq![0xFFu8, 0xFF, 0xFF, 0xFF, 0xFF, 0xFF] {
            assert(mac@[0] == 0xFF && mac@[1] == 0xFF && mac@[2] == 0xFF && mac@[3] == 0xFF && mac@[4] == 0xFF
                && mac@[5] == 0xFF);
        }
    }
    Some(mac)
}

/// Multiplier and increment of the generator behind `random_mac`.
pub const MAC_LCG_MUL: u64 = 6364136223846793005;
pub const MAC_LCG_INC: u64 = 1442695040888963407;

/// Locally-administered MAC address derived from `seed`: one step of a
/// linear congruential generator, low six bytes, with the first byte's
/// multicast bit cleared and locally-administered bit set.
pub open spec fn random_mac_spec(seed: usize) -> Seq<u8> {
    let h = vstd::wrapping::u64_specs::wrapping_add(
        vstd::wrapping::u64_specs::wrapping_mul(seed as u64, MAC_LCG_MUL),
        MAC_LCG_INC,
    );
    let b = spec_u64_to_le_bytes(h);
    seq![(b[0] & 0xFCu8) | 0x02u8, b[1], b[2], b[3], b[4], b[5]]
}

/// Generate a random locally-administered MAC address.
pub fn random_mac(seed: usize) -> (mac: [u8; 6])
    ensures
        mac@ == random_mac_spec(seed),
{
    let mut h = seed as u64;
    h = h.wrapping_mul(MAC_LCG_MUL).wrapping_add(MAC_LCG_INC);
    let bytes = u64_to_le_bytes(h);
    proof {
        lemma_auto_spec_u64_to_from_le_bytes();
    }
    let mut mac = [bytes[0], bytes[1], bytes[2], bytes[3], bytes[4], bytes[5]];
    mac[0] = (mac[0] & 0xFC) | 0x02;
    assert(mac@ =~= random_mac_spec(seed));
    mac
}

/// Every generated address is a locally administered unicast address:
/// bit 0 (multicast) of the first byte is clear and bit 1 (local) is set.
pub proof fn lemma_random_mac_local_unicast(seed: usize)
    ensures
        random_mac_spec(seed)[0] & 0x03u8 == 0x02u8,
{
    lemma_auto_spec_u64_to_from_le_bytes();
    let h = vstd::wrapping::u64_specs::wrapping_add(
        vstd::wrapping::u64_specs::wrapping_mul(seed as u64, MAC_LCG_MUL),
        MAC_LCG_INC,
    );
    let b0 = spec_u64_to_le_bytes(h)[0];
    assert(((b0 & 0xFCu8) | 0x02u8) & 0x03u8 == 0x02u8) by (bit_vector);
}

/// Seed of the fallback address of a device whose EEPROM holds none.
pub const FALLBACK_MAC_SEED: usize = 0xDEC2_1140;

/// The device's MAC address: the one in its EEPROM words, or else the
/// locally administered fallback address.
pub fn device_mac(w0: u16, w1: u16, w2: u16) -> (mac: [u8; 6])
    ensures
        ({
            let m = mac_from_words(w0, w1, w2);
            if m != seq![0u8, 0, 0, 0, 0, 0] && m != seq![0xFFu8, 0xFF, 0xFF, 0xFF, 0xFF, 0xFF] {
                mac@ == m
            } else {
                mac@ == random_mac_spec(FALLBACK_MAC_SEED)
            }
        }),
{
    match read_mac(w0, w1, w2) {
        Some(m) => m,
        None => random_mac(FALLBACK_MAC_SEED),
    }
}

/// Number of `Sample` steps in a transaction.
pub open spec fn sample_count(p: Seq<SromStep>) -> nat
    decreases p.len(),
{
    if p.len() == 0 {
        0
    } else {
        sample_count(p.drop_last()) + if p.last() == SromStep::Sample {
            1nat
        } else {
            0nat
        }
    }
}

/// Counting over a concatenation adds up.
proof fn lemma_sample_count_concat(a: Seq<SromStep>, b: Seq<SromStep>)
    ensures
        sample_count(a + b) == sample_count(a) + sample_count(b),
    decreases b.len(),
{
    if b.len() == 0 {
        assert(a + b =~= a);
    } else {
        lemma_sample_count_concat(a, b.drop_last());
        assert((a + b).drop_last() =~= a + b.drop_last());
    }
}

/// The command phase never samples.
proof fn lemma_command_phase_no_samples(cmd: u32, sent: nat)
    ensures
        sample_count(command_phase(cmd, sent)) == 0,
    decreases sent,
{
    if sent > 0 {
        lemma_command_phase_no_samples(cmd, (sent - 1) as nat);
        let st = command_steps(cmd, 9 - sent);
        reveal_with_fuel(sample_count, 4);
        lemma_sample_count_concat(command_phase(cmd, (sent - 1) as nat), st);
        assert(st.drop_last().drop_last().drop_last() =~= Seq::<SromStep>::empty());
        assert(st.drop_last().drop_last() =~= seq![st[0]]);
        assert(st.drop_last() =~= seq![st[0], st[1]]);
        assert(seq![st[0]].drop_last() =~= Seq::<SromStep>::empty());
        assert(seq![st[0], st[1]].drop_last() =~= seq![st[0]]);
        assert(sample_count(st) == 0);
    }
}

/// Each data bit samples once.
proof fn lemma_data_phase_samples(n: nat)
    ensures
        sample_count(data_phase(n)) == n,
    decreases n,
{
    if n > 0 {
        lemma_data_phase_samples((n - 1) as nat);
        let st = data_bit_steps();
        reveal_with_fuel(sample_count, 5);
        lemma_sample_count_concat(data_phase((n - 1) as nat), st);
        assert(st.drop_last() =~= seq![st[0], st[1], st[2]]);
        assert(seq![st[0], st[1], st[2]].drop_last() =~= seq![st[0], st[1]]);
        assert(seq![st[0], st[1]].drop_last() =~= seq![st[0]]);
        assert(seq![st[0]].drop_last() =~= Seq::<SromStep>::empty());
        assert(sample_count(st) == 1);
    }
}

/// A word-read transaction samples the ROM's data-out line exactly once
/// per bit of the sixteen-bit word the samples are assembled into.
pub proof fn lemma_read_samples_one_word(addr: u8)
    ensures
        sample_count(srom_read_program_spec(addr)) == 16,
{
    let cmd = srom_command(addr);
    let head = seq![SromStep::Write(CSR9_SR)];
    let tail = seq![SromStep::Write(0)];
    lemma_command_phase_no_samples(cmd, 9);
    lemma_data_phase_samples(16);
    lemma_sample_count_concat(head, command_phase(cmd, 9));
    lemma_sample_count_concat(head + command_phase(cmd, 9), data_phase(16));
    lemma_sample_count_concat(head + command_phase(cmd, 9) + data_phase(16), tail);
    reveal_with_fuel(sample_count, 2);
    assert(head.drop_last() =~= Seq::<SromStep>::empty());
    assert(tail.drop_last() =~= Seq::<SromStep>::empty());
    assert(sample_count(head) == 0);
    assert(sample_count(tail) == 0);
}

} // verus!
