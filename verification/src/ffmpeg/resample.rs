//! Resampler adapter: buffer geometry of the black-box rate and
//! format converter, and the identity case, where the output is the
//! input byte-for-byte.

use vstd::prelude::*;

use crate::ffmpeg::AudioParams;

verus! {

/// Sample rates the pipeline accepts.
pub open spec fn rate_ok(p: AudioParams) -> bool {
    8000 <= p.rate <= 192000
}

/// Destination samples owed for `src_n` source samples:
/// `ceil(src_n × dst_rate / src_rate)`.
pub open spec fn dst_samples_needed(src_n: int, src_rate: int, dst_rate: int) -> int {
    (src_n * dst_rate + src_rate - 1) / src_rate
}

/// Stateful format and rate converter between two parameter sets.
///
/// The conversion itself is the black-box converter's work and runs
/// outside the library; this type plans its scratch buffers and
/// settles the identity case on its own.
pub struct Resampler {
    src_params: AudioParams,
    dst_params: AudioParams,
    src_samples_qty: usize,
    dst_samples_qty: usize,
}

impl Resampler {
    pub closed spec fn src(self) -> AudioParams {
        self.src_params
    }

    pub closed spec fn dst(self) -> AudioParams {
        self.dst_params
    }

    /// Source samples the scratch buffers are currently sized for.
    pub closed spec fn src_capacity(self) -> int {
        self.src_samples_qty as int
    }

    /// Destination samples the scratch buffers are currently sized
    /// for.
    pub closed spec fn dst_capacity(self) -> int {
        self.dst_samples_qty as int
    }

    pub fn new(src_params: AudioParams, dst_params: AudioParams) -> (r: Resampler)
        ensures
            r.src() == src_params,
            r.dst() == dst_params,
            r.src_capacity() == 0,
            r.dst_capacity() == 0,
    {
        Resampler { src_params, dst_params, src_samples_qty: 0, dst_samples_qty: 0 }
    }

    /// Grows the converter's scratch buffers when a capture brings
    /// more samples than they hold; the destination capacity is the
    /// proportional count rounded up, so converted samples always
    /// fit.  Returns whether a reallocation is due.
    pub fn realloc_buffers_if_required(&mut self, required_samples_qty: usize) -> (r: bool)
        requires
            rate_ok(old(self).src()),
            rate_ok(old(self).dst()),
            required_samples_qty < 0x100000000,
            24 * required_samples_qty + 1 <= usize::MAX,
        ensures
            final(self).src() == old(self).src(),
            final(self).dst() == old(self).dst(),
            required_samples_qty <= old(self).src_capacity() ==> !r && *final(self)
                == *old(self),
            required_samples_qty > old(self).src_capacity() ==> r
                && final(self).src_capacity() == required_samples_qty
                && final(self).dst_capacity() == dst_samples_needed(
                required_samples_qty as int,
                old(self).src().rate as int,
                old(self).dst().rate as int,
            ),
    {
        if self.src_samples_qty >= required_samples_qty {
            return false;
        }
        self.src_samples_qty = required_samples_qty;
        let n = required_samples_qty as u64;
        let dst_rate = self.dst_params.rate as u64;
        let src_rate = self.src_params.rate as u64;
        proof {
            assert(n * dst_rate <= 0xffffffffu64 * 192000) by (nonlinear_arith)
                requires
                    n < 0x100000000,
                    0 <= dst_rate <= 192000,
            ;
        }
        let dst_n = (n * dst_rate + src_rate - 1) / src_rate;
        proof {
            assert(dst_n <= 24 * n) by (nonlinear_arith)
                requires
                    dst_n == (n * dst_rate + src_rate - 1) as int / src_rate as int,
                    dst_rate <= 24 * src_rate,
                    0 < src_rate,
                    0 <= n,
            ;
        }
        self.dst_samples_qty = dst_n as usize;
        true
    }

    /// Converts one capture's worth of bytes.  When source and
    /// destination parameters are equal the conversion is the
    /// identity and the library answers directly: the output equals
    /// the input byte-for-byte.  Otherwise `None` is returned and the
    /// caller hands the bytes to the black-box converter.
    pub fn resample(&self, src: &[u8]) -> (r: Option<Vec<u8>>)
        ensures
            self.src() == self.dst() ==> (r matches Some(out) && out@ == src@),
            self.src() != self.dst() ==> r is None,
    {
        if self.src_params == self.dst_params {
            let mut out: Vec<u8> = Vec::new();
            let mut i: usize = 0;
            while i < src.len()
                invariant
                    i <= src@.len(),
                    out@ == src@.take(i as int),
                decreases src@.len() - i,
            {
                out.push(src[i]);
                i += 1;
            }
            proof {
                assert(src@.take(src@.len() as int) =~= src@);
            }
            Some(out)
        } else {
            None
        }
    }
}

/// The identity case keeps the sample count: when the two rates are
/// equal, the proportional rounded-up destination count equals the
/// source count, so an identity conversion neither drops nor invents
/// samples.
pub proof fn lemma_identity_rate_keeps_sample_count(n: int, rate: int)
    requires
        0 <= n,
        0 < rate,
    ensures
        dst_samples_needed(n, rate, rate) == n,
{
    assert((n * rate + rate - 1) / rate == n) by (nonlinear_arith)
        requires
            0 <= n,
            0 < rate,
    ;
}

} // verus!
