//! Legacy 8259 PIC pair: remapped and fully masked before the APIC takes over.
use vstd::prelude::*;
use crate::portio::PortWrite;

verus! {

pub const PIC1_CMD: u16 = 0x20;
pub const PIC1_DATA: u16 = 0x21;
pub const PIC2_CMD: u16 = 0xA0;
pub const PIC2_DATA: u16 = 0xA1;

/// Port writes that disable the legacy PIC pair: initialise both chips
/// (ICW1..ICW4, master at vectors 0x20.., slave at 0x28.., slave on
/// IRQ2, 8086 mode), then mask every IRQ.
pub open spec fn pic_disable_spec() -> Seq<PortWrite> {
    seq![
        PortWrite { port: PIC1_CMD, value: 0x11 },
        PortWrite { port: PIC2_CMD, value: 0x11 },
        PortWrite { port: PIC1_DATA, value: 0x20 },
        PortWrite { port: PIC2_DATA, value: 0x28 },
        PortWrite { port: PIC1_DATA, value: 0x04 },
        PortWrite { port: PIC2_DATA, value: 0x02 },
        PortWrite { port: PIC1_DATA, value: 0x01 },
        PortWrite { port: PIC2_DATA, value: 0x01 },
        PortWrite { port: PIC1_DATA, value: 0xFF },
        PortWrite { port: PIC2_DATA, value: 0xFF },
    ]
}

/// Port writes that disable the legacy PIC (remapped, all IRQs masked).
pub fn disable() -> (w: Vec<PortWrite>)
    ensures
        w@ == pic_disable_spec(),
{
    let mut w: Vec<PortWrite> = Vec::new();
    w.push(PortWrite { port: PIC1_CMD, value: 0x11 });
    w.push(PortWrite { port: PIC2_CMD, value: 0x11 });
    w.push(PortWrite { port: PIC1_DATA, value: 0x20 });
    w.push(PortWrite { port: PIC2_DATA, value: 0x28 });
    w.push(PortWrite { port: PIC1_DATA, value: 0x04 });
    w.push(PortWrite { port: PIC2_DATA, value: 0x02 });
    w.push(PortWrite { port: PIC1_DATA, value: 0x01 });
    w.push(PortWrite { port: PIC2_DATA, value: 0x01 });
    w.push(PortWrite { port: PIC1_DATA, value: 0xFF });
    w.push(PortWrite { port: PIC2_DATA, value: 0xFF });
    w
}

/// The disable program leaves every IRQ line of both chips masked: the
/// last byte written to each data port is all ones.
pub proof fn lemma_pic_all_masked()
    ensures
        ({
            let p = pic_disable_spec();
            &&& p[p.len() - 2] == PortWrite { port: PIC1_DATA, value: 0xFF }
            &&& p[p.len() - 1] == PortWrite { port: PIC2_DATA, value: 0xFF }
            &&& forall|i: int| 0 <= i < p.len() ==> p[i].port == PIC1_CMD || p[i].port == PIC2_CMD
                || p[i].port == PIC1_DATA || p[i].port == PIC2_DATA
        }),
{
}

} // verus!
