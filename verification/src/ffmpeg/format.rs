//! The single-packet formatter: a muxer wrapped around one stream
//! whose output lands in an owned buffer instead of a file, so each
//! encoded packet can be broadcast as soon as it is wrapped.

use vstd::prelude::*;

verus! {

/// Collects the muxer's output for exactly one packet at a time.
///
/// The muxer itself runs outside the library and reports the wrapped
/// bytes back; this type guarantees that the buffer a caller reads
/// holds exactly the bytes of the last packet written, never a
/// mixture with an earlier one.
pub struct SinglePacketFormatter {
    buf: Vec<u8>,
}

impl SinglePacketFormatter {
    /// The bytes of the last wrapped packet.
    pub closed spec fn buffered(self) -> Seq<u8> {
        self.buf@
    }

    pub fn new() -> (r: SinglePacketFormatter)
        ensures
            r.buffered() == Seq::<u8>::empty(),
    {
        let r = SinglePacketFormatter { buf: Vec::new() };
        proof {
            assert(r.buffered() =~= Seq::<u8>::empty());
        }
        r
    }

    /// Replaces the buffer with the wrapped form of one packet: the
    /// previous packet's bytes are cleared first, so packets never
    /// bleed into each other.
    pub fn write_pkt(&mut self, muxed: &[u8])
        ensures
            final(self).buffered() == muxed@,
    {
        self.buf.clear();
        let mut i: usize = 0;
        while i < muxed.len()
            invariant
                i <= muxed@.len(),
                self.buf@ == muxed@.take(i as int),
            decreases muxed@.len() - i,
        {
            self.buf.push(muxed[i]);
            i += 1;
        }
        proof {
            assert(muxed@.take(muxed@.len() as int) =~= muxed@);
        }
    }

    /// The buffer holding the last wrapped packet.
    pub fn get_buf(&self) -> (r: &[u8])
        ensures
            r@ == self.buffered(),
    {
        self.buf.as_slice()
    }
}

} // verus!
