//! Port I/O programs, and the 16550 UART of the serial console.
//!
//! Each operation yields the byte writes to I/O ports it performs, in
//! order, or decides on a byte read from a port; the caller issues the
//! `out`/`in` instructions.
use vstd::prelude::*;
use vstd::string::StringSliceAdditionalSpecFns;

verus! {

/// One byte written to an I/O port.
#[derive(Debug, Clone, Copy, PartialEq, Eq, Structural)]
pub struct PortWrite {
    pub port: u16,
    pub value: u8,
}

/// Port writes that set up a 16550 UART at `base`: interrupts off,
/// divisor 1 (115200 baud) through DLAB, 8N1, FIFO on, RTS/DSR set.
pub open spec fn uart_init_spec(base: u16) -> Seq<PortWrite> {
    seq![
        PortWrite { port: (base + 1) as u16, value: 0x00 },
        PortWrite { port: (base + 3) as u16, value: 0x80 },
        PortWrite { port: base, value: 0x01 },
        PortWrite { port: (base + 1) as u16, value: 0x00 },
        PortWrite { port: (base + 3) as u16, value: 0x03 },
        PortWrite { port: (base + 2) as u16, value: 0xC7 },
        PortWrite { port: (base + 4) as u16, value: 0x0B },
    ]
}

/// Port writes that initialise the UART at `base`.
pub fn uart_init_program(base: u16) -> (w: Vec<PortWrite>)
    requires
        base + 5 <= u16::MAX,
    ensures
        w@ == uart_init_spec(base),
{
    let mut w: Vec<PortWrite> = Vec::new();
    w.push(PortWrite { port: base + 1, value: 0x00 });
    w.push(PortWrite { port: base + 3, value: 0x80 });
    w.push(PortWrite { port: base, value: 0x01 });
    w.push(PortWrite { port: base + 1, value: 0x00 });
    w.push(PortWrite { port: base + 3, value: 0x03 });
    w.push(PortWrite { port: base + 2, value: 0xC7 });
    w.push(PortWrite { port: base + 4, value: 0x0B });
    w
}

/// Polls of the line status register before a byte is sent anyway.
pub const UART_TX_POLLS: u32 = 10000;

/// The transmit holding register is empty (line status bit 5).
pub fn uart_tx_ready(lsr: u8) -> (r: bool)
    ensures
        r == (lsr & 0x20u8 != 0),
{
    lsr & 0x20 != 0
}

/// Bytes sent for `s` on a serial console: each newline is preceded by a
/// carriage return.
pub open spec fn serial_bytes_spec(s: Seq<u8>) -> Seq<u8>
    decreases s.len(),
{
    if s.len() == 0 {
        Seq::empty()
    } else {
        let prev = serial_bytes_spec(s.drop_last());
        if s.last() == 0x0Au8 {
            prev + seq![0x0Du8, 0x0Au8]
        } else {
            prev.push(s.last())
        }
    }
}

/// The bytes to send for `s`, with CR before each LF.
pub fn serial_bytes(s: &str) -> (out: Vec<u8>)
    requires
        s.spec_bytes().len() * 2 <= usize::MAX,
    ensures
        out@ == serial_bytes_spec(s.spec_bytes()),
{
    let bytes = s.as_bytes();
    let mut out: Vec<u8> = Vec::new();
    let mut i: usize = 0;
    while i < bytes.len()
        invariant
            i <= bytes@.len(),
            bytes@ == s.spec_bytes(),
            out@ == serial_bytes_spec(bytes@.subrange(0, i as int)),
        decreases bytes@.len() - i,
    {
        let b = bytes[i];
        proof {
            let t = bytes@.subrange(0, i + 1);
            assert(t.drop_last() =~= bytes@.subrange(0, i as int));
            assert(t.last() == b);
        }
        if b == 0x0A {
            out.push(0x0D);
        }
        out.push(b);
        i = i + 1;
    }
    assert(bytes@.subrange(0, bytes@.len() as int) =~= bytes@);
    out
}

} // verus!
