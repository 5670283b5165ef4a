//! Sequence-numbered network packets: each outbound payload is
//! prefixed with a big-endian 32-bit counter that wraps around, so a
//! receiver can notice loss and reordering.

use vstd::prelude::*;

verus! {

/// The four big-endian bytes of a 32-bit counter.
pub open spec fn be_bytes(n: u32) -> Seq<u8> {
    seq![
        (n / 0x1000000) as u8,
        ((n / 0x10000) % 0x100) as u8,
        ((n / 0x100) % 0x100) as u8,
        (n % 0x100) as u8,
    ]
}

/// Stamps outbound payloads with a wrapping packet counter.
pub struct NetworkPktGenerator {
    cnt: u32,
}

impl NetworkPktGenerator {
    /// The value the last packet was stamped with.
    pub closed spec fn counter(self) -> u32 {
        self.cnt
    }

    pub fn new() -> (r: NetworkPktGenerator)
        ensures
            r.counter() == 0,
    {
        NetworkPktGenerator { cnt: 0 }
    }

    /// Advances the counter (wrapping at 32 bits) and splices its
    /// big-endian bytes in front of the payload.
    pub fn wrap_in_pkt(&mut self, buf: &mut Vec<u8>)
        ensures
            final(self).counter() == (old(self).counter() + 1) % 0x100000000,
            final(buf)@ == be_bytes(final(self).counter()) + old(buf)@,
    {
        self.cnt = self.cnt.wrapping_add(1);
        let n = self.cnt;
        buf.insert(0, (n % 0x100) as u8);
        buf.insert(0, ((n / 0x100) % 0x100) as u8);
        buf.insert(0, ((n / 0x10000) % 0x100) as u8);
        buf.insert(0, (n / 0x1000000) as u8);
        proof {
            assert(final(buf)@ =~= be_bytes(n) + old(buf)@);
        }
    }
}

} // verus!
