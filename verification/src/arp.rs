//! Gratuitous ARP announcement frames.
use vstd::prelude::*;

verus! {

/// Length of a frame padded to the Ethernet minimum.
pub const ETH_MIN_FRAME: usize = 60;

/// Gratuitous ARP request from `mac` claiming `ip`: broadcast Ethernet
/// header of type ARP, Ethernet/IPv4 request with `ip` as both sender and
/// target address and an all-zero target MAC, zero-padded to 60 bytes.
pub open spec fn gratuitous_arp_spec(mac: Seq<u8>, ip: Seq<u8>) -> Seq<u8> {
    seq![0xFFu8, 0xFF, 0xFF, 0xFF, 0xFF, 0xFF] + mac + seq![0x08u8, 0x06, 0x00, 0x01, 0x08, 0x00, 6, 4, 0x00, 0x01]
        + mac + ip + seq![0u8, 0, 0, 0, 0, 0] + ip + Seq::new(18, |i: int| 0u8)
}

/// Copies `src` into `frame` at `at`.
fn put(frame: &mut [u8; 60], at: usize, src: &[u8])
    requires
        at + src@.len() <= 60,
    ensures
        final(frame)@ == old(frame)@.subrange(0, at as int) + src@ + old(frame)@.subrange(
            at + src@.len(),
            60,
        ),
{
    let ghost f0 = frame@;
    let mut k: usize = 0;
    while k < src.len()
        invariant
            k <= src@.len(),
            at + src@.len() <= 60,
            frame@.len() == 60,
            forall|j: int|
                0 <= j < 60 ==> #[trigger] frame@[j] == if at <= j < at + k {
                    src@[j - at]
                } else {
                    f0[j]
                },
        decreases src@.len() - k,
    {
        frame[at + k] = src[k];
        k = k + 1;
    }
    assert(frame@ =~= f0.subrange(0, at as int) + src@ + f0.subrange(at + src@.len(), 60));
}

/// Builds the gratuitous ARP announcing `ip` for `mac`.
pub fn gratuitous_arp(mac: [u8; 6], ip: [u8; 4]) -> (frame: [u8; 60])
    ensures
        frame@ == gratuitous_arp_spec(mac@, ip@),
{
    let mut frame = [0u8; 60];
    put(&mut frame, 0, &[0xFFu8, 0xFF, 0xFF, 0xFF, 0xFF, 0xFF]);
    put(&mut frame, 6, &mac);
    put(&mut frame, 12, &[0x08u8, 0x06, 0x00, 0x01, 0x08, 0x00, 6, 4, 0x00, 0x01]);
    put(&mut frame, 22, &mac);
    put(&mut frame, 28, &ip);
    put(&mut frame, 38, &ip);
    assert(frame@ =~= gratuitous_arp_spec(mac@, ip@));
    frame
}

} // verus!
