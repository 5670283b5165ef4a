//! Encoder and decoder adapters: codec identifiers, sample-format
//! negotiation, the encoder's byte accumulator that cuts the input
//! into whole codec frames, and the classification of the codec
//! library's receive results.

use vstd::prelude::*;

use crate::ffmpeg::error::{Error, ErrorRepr, InternalError, UnsupportedSampleFormatError};
use crate::ffmpeg::{AudioParams, AudioSampleFormat, CHANNELS_QTY};

verus! {

broadcast use vstd::seq::Seq::lemma_flatten_push;

/// The codecs the pipeline can stream.
#[derive(Clone, Copy, Debug, PartialEq, Eq, Structural)]
pub enum Codec {
    Aac,
    AacLd,
    Mp2,
}

/// Everything an encoder is constructed with.
#[derive(Clone, Copy, Debug)]
pub struct Params {
    pub codec: Codec,
    pub bit_rate: u32,
    pub audio_params: AudioParams,
}

impl Codec {
    /// The numeric codec identifier of the codec library.
    pub fn to_raw(&self) -> (r: u32)
        ensures
            r == match self {
                Codec::Aac => 86018u32,
                Codec::AacLd => 86018u32,
                Codec::Mp2 => 86016u32,
            },
    {
        match self {
            Codec::Aac | Codec::AacLd => 86018,
            Codec::Mp2 => 86016,
        }
    }

    /// The profile to install on the encoder, where the codec needs
    /// one.
    pub fn get_profile(&self) -> (r: Option<i32>)
        ensures
            r == match self {
                Codec::AacLd => Some(22i32),
                _ => None::<i32>,
            },
    {
        match self {
            Codec::AacLd => Some(22),
            _ => None,
        }
    }

    /// The muxer that wraps this codec's packets for the wire.
    pub fn get_default_muxer_name(&self) -> (r: &'static str)
        ensures
            matches!(self, Codec::Aac | Codec::AacLd) ==> r@ == "adts"@,
            self is Mp2 ==> r@ == "data"@,
    {
        match self {
            Codec::Aac | Codec::AacLd => "adts",
            Codec::Mp2 => "data",
        }
    }
}

/// One encoded packet as the codec library hands it out.
pub struct AvPacket {
    pub data: Vec<u8>,
}

impl AvPacket {
    pub fn new() -> (r: AvPacket)
        ensures
            r.data@.len() == 0,
    {
        AvPacket { data: Vec::new() }
    }

    pub fn len(&self) -> (r: usize)
        ensures
            r == self.data@.len(),
    {
        self.data.len()
    }

    pub fn is_empty(&self) -> (r: bool)
        ensures
            r == (self.data@.len() == 0),
    {
        self.data.len() == 0
    }
}

/// The format an encoder settles on for a requested format, given
/// what the codec supports: a planar request is refused, an
/// interleaved request is taken as-is when supported, else its planar
/// variant when that is supported, else nothing.
pub open spec fn negotiated_format(
    requested: AudioSampleFormat,
    supported: Seq<AudioSampleFormat>,
) -> Option<AudioSampleFormat> {
    if requested.spec_is_planar() {
        None
    } else if supported.contains(requested) {
        Some(requested)
    } else if supported.contains(requested.spec_to_planar()) {
        Some(requested.spec_to_planar())
    } else {
        None
    }
}

/// Whether `supported` holds `fmt`.
fn formats_contain(supported: &Vec<AudioSampleFormat>, fmt: AudioSampleFormat) -> (r: bool)
    ensures
        r == supported@.contains(fmt),
{
    let mut i: usize = 0;
    while i < supported.len()
        invariant
            i <= supported@.len(),
            forall|j: int| 0 <= j < i ==> supported@[j] != fmt,
        decreases supported@.len() - i,
    {
        if supported[i] == fmt {
            assert(supported@.contains(fmt));
            return true;
        }
        i += 1;
    }
    assert(forall|j: int| 0 <= j < supported@.len() ==> supported@[j] != fmt);
    false
}

/// The interleaved forms of a list of supported formats, for the
/// error shown to the caller.
fn interleaved_forms(supported: &Vec<AudioSampleFormat>) -> (r: Vec<AudioSampleFormat>)
    ensures
        r@ == supported@.map_values(|f: AudioSampleFormat| f.spec_to_interleaved()),
{
    let mut r: Vec<AudioSampleFormat> = Vec::new();
    let mut i: usize = 0;
    while i < supported.len()
        invariant
            i <= supported@.len(),
            r@.len() == i,
            forall|j: int| 0 <= j < i ==> r@[j] == supported@[j].spec_to_interleaved(),
        decreases supported@.len() - i,
    {
        r.push(supported[i].to_interleaved());
        i += 1;
    }
    proof {
        assert(r@ =~= supported@.map_values(|f: AudioSampleFormat| f.spec_to_interleaved()));
    }
    r
}

/// Settles the sample format the encoder is opened with, or the error
/// that lists what the codec would have accepted.
pub fn negotiate_sample_format(
    requested: AudioSampleFormat,
    supported: &Vec<AudioSampleFormat>,
) -> (r: Result<AudioSampleFormat, Error>)
    ensures
        negotiated_format(requested, supported@) matches Some(f) ==> r == Ok::<
            AudioSampleFormat,
            Error,
        >(f),
        negotiated_format(requested, supported@) is None ==> (r matches Err(e)
            && *e.repr matches ErrorRepr::UnsupportedSampleFormat(u) && u.fmt == requested
            && u.supported@ == supported@.map_values(
            |f: AudioSampleFormat| f.spec_to_interleaved(),
        )),
{
    if requested.is_planar() {
        Err(Error::from(UnsupportedSampleFormatError {
            fmt: requested,
            supported: interleaved_forms(supported),
        }))
    } else if formats_contain(supported, requested) {
        Ok(requested)
    } else if formats_contain(supported, requested.to_planar()) {
        Ok(requested.to_planar())
    } else {
        Err(Error::from(UnsupportedSampleFormatError {
            fmt: requested,
            supported: interleaved_forms(supported),
        }))
    }
}

/// The frame-oriented encoder adapter.
///
/// Bytes written in arrive in arbitrary lengths; the encoder cuts
/// them into frames of exactly `frame_bytes` bytes for submission and
/// keeps the remainder for the next write.
pub struct Encoder {
    format: AudioSampleFormat,
    frame_bytes: usize,
    write_buf: Vec<u8>,
}

impl Encoder {
    /// The sample format the encoder settled on.
    pub closed spec fn format(self) -> AudioSampleFormat {
        self.format
    }

    /// Size of one codec frame in bytes:
    /// `frame_size × channels × sample_bytes`.
    pub closed spec fn frame_bytes(self) -> int {
        self.frame_bytes as int
    }

    /// Bytes accumulated but not yet cut into a frame.
    pub closed spec fn pending(self) -> Seq<u8> {
        self.write_buf@
    }

    pub open spec fn wf(self) -> bool {
        &&& 0 < self.frame_bytes()
        &&& self.pending().len() < self.frame_bytes()
    }

    /// Opens an encoder: negotiates the sample format against what
    /// the codec supports and fixes the frame size, in samples per
    /// channel, that the codec announced.
    pub fn new(
        params: Params,
        supported: &Vec<AudioSampleFormat>,
        frame_size: usize,
    ) -> (r: Result<Encoder, Error>)
        requires
            1 <= frame_size,
            frame_size * 8 <= usize::MAX,
        ensures
            negotiated_format(params.audio_params.format, supported@) matches Some(f)
                ==> (r matches Ok(enc) && enc.wf() && enc.format() == f && enc.frame_bytes()
                == frame_size * CHANNELS_QTY * f.spec_sample_size() && enc.pending()
                == Seq::<u8>::empty()),
            negotiated_format(params.audio_params.format, supported@) is None ==> (
            r matches Err(e) && *e.repr matches ErrorRepr::UnsupportedSampleFormat(u)
                && u.fmt == params.audio_params.format && u.supported@
                == supported@.map_values(|f: AudioSampleFormat| f.spec_to_interleaved())),
    {
        match negotiate_sample_format(params.audio_params.format, supported) {
            Ok(format) => {
                let sample_size = format.get_sample_size();
                proof {
                    assert(frame_size * CHANNELS_QTY * sample_size <= frame_size * 8 && 1
                        <= frame_size * CHANNELS_QTY * sample_size) by (nonlinear_arith)
                        requires
                            1 <= sample_size <= 4,
                            1 <= frame_size,
                            CHANNELS_QTY == 2,
                    ;
                }
                let frame_bytes = frame_size * CHANNELS_QTY * sample_size;
                Ok(Encoder { format, frame_bytes, write_buf: Vec::new() })
            },
            Err(e) => Err(e),
        }
    }

    /// Accepts a slice of captured bytes and returns every complete
    /// frame that can now be cut, oldest first.  The concatenation of
    /// the returned frames followed by the bytes still pending equals
    /// the bytes that were pending before followed by the input:
    /// nothing is lost, duplicated or reordered.
    pub fn write(&mut self, in_buf: &[u8]) -> (frames: Vec<Vec<u8>>)
        requires
            old(self).wf(),
            old(self).pending().len() + in_buf@.len() <= usize::MAX,
        ensures
            final(self).wf(),
            final(self).format() == old(self).format(),
            final(self).frame_bytes() == old(self).frame_bytes(),
            frames.deep_view().flatten() + final(self).pending() == old(self).pending()
                + in_buf@,
            forall|i: int|
                0 <= i < frames.deep_view().len() ==> #[trigger] frames.deep_view()[i].len()
                    == old(self).frame_bytes(),
            frames.deep_view().len() == (old(self).pending().len() + in_buf@.len()) as int
                / old(self).frame_bytes(),
    {
        let ghost total = old(self).pending() + in_buf@;
        let fb = self.frame_bytes;
        let mut i: usize = 0;
        while i < in_buf.len()
            invariant
                i <= in_buf@.len(),
                self.format == old(self).format,
                self.frame_bytes == old(self).frame_bytes,
                old(self).pending().len() + in_buf@.len() <= usize::MAX,
                self.write_buf@ == old(self).pending() + in_buf@.take(i as int),
            decreases in_buf@.len() - i,
        {
            self.write_buf.push(in_buf[i]);
            i += 1;
        }
        proof {
            assert(in_buf@.take(in_buf@.len() as int) =~= in_buf@);
        }
        let mut frames: Vec<Vec<u8>> = Vec::new();
        proof {
            assert(frames.deep_view().flatten() + self.write_buf@ =~= total);
        }
        while self.write_buf.len() >= fb
            invariant
                self.format == old(self).format,
                self.frame_bytes == old(self).frame_bytes,
                fb == old(self).frame_bytes,
                0 < fb,
                frames.deep_view().flatten() + self.write_buf@ == total,
                frames.deep_view().len() * fb + self.write_buf@.len() == total.len(),
                forall|j: int|
                    0 <= j < frames.deep_view().len()
                        ==> #[trigger] frames.deep_view()[j].len() == fb,
            decreases self.write_buf@.len(),
        {
            let mut rest = self.write_buf.split_off(fb);
            core::mem::swap(&mut self.write_buf, &mut rest);
            let ghost prev = frames.deep_view();
            frames.push(rest);
            proof {
                assert(frames.deep_view() =~~= prev.push(rest@));
                assert(frames.deep_view().flatten() + self.write_buf@ =~= total);
                assert(frames.deep_view().len() * fb == prev.len() * fb + fb)
                    by (nonlinear_arith)
                    requires
                        frames.deep_view().len() == prev.len() + 1,
                ;
            }
        }
        proof {
            let k = frames.deep_view().len() as int;
            assert(k == total.len() as int / fb as int) by (nonlinear_arith)
                requires
                    k * fb + self.write_buf@.len() == total.len(),
                    0 <= self.write_buf@.len() < fb,
                    0 < fb,
                    0 <= k,
            ;
        }
        frames
    }

    /// Classifies one receive attempt of the codec library: a packet
    /// is handed through, the would-block and end-of-stream codes
    /// mean "nothing now" and are never surfaced as errors, and every
    /// other code is fatal.
    pub fn read(&self, res: Result<Vec<u8>, InternalError>) -> (r: Result<
        Option<Vec<u8>>,
        Error,
    >)
        ensures
            res matches Ok(p) ==> r matches Ok(op) && op == Some(p),
            res matches Err(e) ==> if e.spec_is_again_or_eof() {
                r == Ok::<Option<Vec<u8>>, Error>(None)
            } else {
                r matches Err(err) && *err.repr matches ErrorRepr::Internal(ie) && ie == e
            },
            r matches Err(err) ==> (*err.repr matches ErrorRepr::Internal(ie)
                && !ie.spec_is_again_or_eof()),
    {
        match res {
            Ok(packet) => Ok(Some(packet)),
            Err(e) => {
                if e.is_again_or_eof() {
                    Ok(None)
                } else {
                    Err(Error::from(e))
                }
            },
        }
    }
}

/// Index in an interleaved frame of byte `t` of channel `ch`'s plane:
/// sample `t / ss`, channel `ch`, byte `t % ss` within the sample.
pub open spec fn interleaved_index(ch: int, t: int, channels: int, ss: int) -> int {
    ((t / ss) * channels + ch) * ss + (t % ss)
}

/// Plane `ch` of an interleaved frame: every byte of every sample of
/// that channel, in order.
pub open spec fn plane_of(frame: Seq<u8>, ch: int, channels: int, ss: int) -> Seq<u8> {
    Seq::new(
        (frame.len() as int / channels) as nat,
        |t: int| frame[interleaved_index(ch, t, channels, ss)],
    )
}

/// An interleaved frame split into one plane per channel.
pub open spec fn planar_split(frame: Seq<u8>, channels: int, ss: int) -> Seq<Seq<u8>> {
    Seq::new(channels as nat, |ch: int| plane_of(frame, ch, channels, ss))
}

/// Interleaved bytes of `samples` samples over planar channel data:
/// byte `t` comes from plane `(t / ss) % channels` at offset
/// `(t / (channels × ss)) × ss + t % ss`.
pub open spec fn interleaved_of(
    planes: Seq<Seq<u8>>,
    channels: int,
    ss: int,
    samples: int,
) -> Seq<u8> {
    Seq::new(
        (samples * channels * ss) as nat,
        |t: int| planes[(t / ss) % channels][(t / (channels * ss)) * ss + (t % ss)],
    )
}

/// A plane index computed for a byte of a plane stays inside the
/// frame.
proof fn lemma_plane_index_bounds(t: int, ch: int, channels: int, ss: int, samples: int)
    requires
        0 < channels,
        0 < ss,
        0 <= samples,
        0 <= ch < channels,
        0 <= t < samples * ss,
    ensures
        0 <= interleaved_index(ch, t, channels, ss) < samples * channels * ss,
{
    let s = t / ss;
    let k = t % ss;
    vstd::arithmetic::div_mod::lemma_fundamental_div_mod(t, ss);
    vstd::arithmetic::div_mod::lemma_mod_bound(t, ss);
    vstd::arithmetic::div_mod::lemma_div_pos_is_pos(t, ss);
    assert(s < samples) by (nonlinear_arith)
        requires
            t == ss * s + k,
            0 <= k,
            t < samples * ss,
            0 < ss,
    ;
    assert(0 <= (s * channels + ch) * ss + k < samples * channels * ss) by (nonlinear_arith)
        requires
            0 <= s,
            s <= samples - 1,
            0 <= ch,
            ch <= channels - 1,
            0 <= k,
            k <= ss - 1,
            0 < ss,
            0 < channels,
            1 <= samples,
    ;
}

/// The plane and offset computed for an interleaved byte stay inside
/// the planes.
proof fn lemma_interleave_source_bounds(t: int, channels: int, ss: int, samples: int)
    requires
        0 < channels,
        0 < ss,
        0 <= t < samples * channels * ss,
    ensures
        0 <= (t / ss) % channels < channels,
        0 <= (t / (channels * ss)) * ss + (t % ss) < samples * ss,
{
    vstd::arithmetic::div_mod::lemma_mod_bound(t / ss, channels);
    vstd::arithmetic::div_mod::lemma_div_pos_is_pos(t, ss);
    vstd::arithmetic::div_mod::lemma_mod_bound(t, ss);
    let q = t / (channels * ss);
    let k = t % ss;
    assert(channels * ss > 0) by (nonlinear_arith)
        requires
            0 < channels,
            0 < ss,
    ;
    vstd::arithmetic::div_mod::lemma_fundamental_div_mod(t, channels * ss);
    vstd::arithmetic::div_mod::lemma_mod_bound(t, channels * ss);
    vstd::arithmetic::div_mod::lemma_div_pos_is_pos(t, channels * ss);
    assert(q < samples) by (nonlinear_arith)
        requires
            t == (channels * ss) * q + t % (channels * ss),
            0 <= t % (channels * ss),
            t < samples * channels * ss,
            0 < channels * ss,
    ;
    assert(0 <= q * ss + k < samples * ss) by (nonlinear_arith)
        requires
            0 <= q,
            q <= samples - 1,
            0 <= k,
            k <= ss - 1,
            0 < ss,
    ;
}

/// Splits one interleaved frame into per-channel planes, as a planar
/// codec frame wants the bytes laid out.
pub fn split_planar(frame: &[u8], channels: usize, ss: usize) -> (r: Vec<Vec<u8>>)
    requires
        1 <= channels <= 8,
        1 <= ss <= 4,
        frame@.len() as int % (channels * ss) == 0,
    ensures
        r.deep_view() == planar_split(frame@, channels as int, ss as int),
{
    let ghost c = channels as int;
    let ghost sz = ss as int;
    let ghost samples = frame@.len() as int / (c * sz);
    proof {
        assert(0 < c * sz <= 32) by (nonlinear_arith)
            requires
                1 <= c <= 8,
                1 <= sz <= 4,
        ;
        vstd::arithmetic::div_mod::lemma_fundamental_div_mod(frame@.len() as int, c * sz);
        assert(frame@.len() == samples * (c * sz));
        assert(0 <= samples) by (nonlinear_arith)
            requires
                frame@.len() == samples * (c * sz),
                0 <= frame@.len(),
                0 < c * sz,
        ;
        assert(samples * (c * sz) == (samples * sz) * c) by (nonlinear_arith);
        vstd::arithmetic::div_mod::lemma_div_by_multiple(samples * sz, c);
        assert(frame@.len() as int / c == samples * sz);
    }
    let flen = frame.len();
    let plane_len = flen / channels;
    let mut planes: Vec<Vec<u8>> = Vec::new();
    let mut ch: usize = 0;
    while ch < channels
        invariant
            ch <= channels,
            1 <= channels <= 8,
            1 <= ss <= 4,
            c == channels as int,
            sz == ss as int,
            0 <= samples,
            flen == frame@.len(),
            frame@.len() == samples * (c * sz),
            frame@.len() as int / c == samples * sz,
            plane_len == samples * sz,
            planes.deep_view().len() == ch,
            forall|j: int|
                0 <= j < ch ==> #[trigger] planes.deep_view()[j] == plane_of(
                    frame@,
                    j,
                    c,
                    sz,
                ),
        decreases channels - ch,
    {
        let mut plane: Vec<u8> = Vec::new();
        let mut t: usize = 0;
        while t < plane_len
            invariant
                t <= plane_len,
                ch < channels,
                1 <= channels <= 8,
                1 <= ss <= 4,
                c == channels as int,
                sz == ss as int,
                0 <= samples,
                flen == frame@.len(),
                frame@.len() == samples * (c * sz),
                plane_len == samples * sz,
                plane@.len() == t,
                forall|u: int|
                    0 <= u < t ==> plane@[u] == frame@[interleaved_index(
                        ch as int,
                        u,
                        c,
                        sz,
                    )],
            decreases plane_len - t,
        {
            proof {
                lemma_plane_index_bounds(t as int, ch as int, c, sz, samples);
                assert(samples * c * sz == samples * (c * sz)) by (nonlinear_arith);
                let s0 = t as int / sz;
                let k0 = t as int % sz;
                vstd::arithmetic::div_mod::lemma_div_pos_is_pos(t as int, sz);
                vstd::arithmetic::div_mod::lemma_mod_bound(t as int, sz);
                assert(0 <= s0 * c && s0 * c + ch <= (s0 * c + ch) * sz)
                    by (nonlinear_arith)
                    requires
                        0 <= s0,
                        0 < c,
                        0 <= ch,
                        1 <= sz,
                ;
            }
            let src = ((t / ss) * channels + ch) * ss + (t % ss);
            plane.push(frame[src]);
            t += 1;
        }
        proof {
            assert(plane@ =~= plane_of(frame@, ch as int, c, sz));
        }
        let ghost prev = planes.deep_view();
        planes.push(plane);
        proof {
            assert(planes.deep_view() =~~= prev.push(plane_of(frame@, ch as int, c, sz)));
        }
        ch += 1;
    }
    proof {
        assert(planes.deep_view() =~~= planar_split(frame@, c, sz));
    }
    planes
}

/// Reassembles interleaved bytes from per-channel planes: the inverse
/// of the planar split, used when decoded frames are serialized for
/// the byte sinks.
pub fn interleave_planes(planes: &Vec<Vec<u8>>, samples: usize, ss: usize) -> (r: Vec<u8>)
    requires
        1 <= planes@.len() <= 8,
        1 <= ss <= 4,
        samples * planes@.len() * ss <= usize::MAX,
        forall|j: int|
            0 <= j < planes@.len() ==> samples * ss <= #[trigger] planes@[j]@.len(),
    ensures
        r@ == interleaved_of(
            planes.deep_view(),
            planes@.len() as int,
            ss as int,
            samples as int,
        ),
{
    let channels = planes.len();
    let ghost c = channels as int;
    let ghost sz = ss as int;
    let ghost n = samples as int;
    proof {
        assert(0 <= n * c && 0 <= n * c * sz && n * c <= n * c * sz && n * sz <= n * c
            * sz) by (nonlinear_arith)
            requires
                0 <= n,
                1 <= c,
                1 <= sz,
        ;
    }
    let total = samples * channels * ss;
    let mut out: Vec<u8> = Vec::new();
    let mut t: usize = 0;
    while t < total
        invariant
            t <= total,
            channels == planes@.len(),
            1 <= channels <= 8,
            1 <= ss <= 4,
            c == channels as int,
            sz == ss as int,
            n == samples as int,
            total == n * c * sz,
            n * sz <= n * c * sz,
            forall|j: int|
                0 <= j < planes@.len() ==> n * sz <= #[trigger] planes@[j]@.len(),
            out@.len() == t,
            forall|u: int|
                0 <= u < t ==> out@[u] == planes.deep_view()[(u / sz) % c][(u / (c * sz))
                    * sz + (u % sz)],
        decreases total - t,
    {
        proof {
            lemma_interleave_source_bounds(t as int, c, sz, n);
            assert(0 < c * sz <= 32) by (nonlinear_arith)
                requires
                    1 <= c <= 8,
                    1 <= sz <= 4,
            ;
            vstd::arithmetic::div_mod::lemma_div_pos_is_pos(t as int, c * sz);
            vstd::arithmetic::div_mod::lemma_mod_bound(t as int, sz);
        }
        let ch = (t / ss) % channels;
        let idx = (t / (channels * ss)) * ss + (t % ss);
        out.push(planes[ch][idx]);
        t += 1;
    }
    proof {
        assert(out@ =~= interleaved_of(planes.deep_view(), c, sz, n));
    }
    out
}

/// Splitting an interleaved frame into planes and interleaving the
/// planes again gives back the frame: the encoder's planar layout and
/// the decoder's serialization are inverses.
pub proof fn lemma_split_interleave_round_trip(
    frame: Seq<u8>,
    channels: int,
    ss: int,
    samples: int,
)
    requires
        0 < channels,
        0 < ss,
        0 <= samples,
        frame.len() == samples * channels * ss,
    ensures
        interleaved_of(planar_split(frame, channels, ss), channels, ss, samples) == frame,
{
    let planes = planar_split(frame, channels, ss);
    let out = interleaved_of(planes, channels, ss, samples);
    assert(samples * channels * ss == samples * (channels * ss)) by (nonlinear_arith);
    assert((samples * ss) * channels == samples * (channels * ss)) by (nonlinear_arith);
    vstd::arithmetic::div_mod::lemma_div_by_multiple(samples * ss, channels);
    assert(frame.len() as int / channels == samples * ss);
    assert forall|t: int| 0 <= t < out.len() implies out[t] == frame[t] by {
        lemma_interleave_source_bounds(t, channels, ss, samples);
        assert(0 < channels * ss) by (nonlinear_arith)
            requires
                0 < channels,
                0 < ss,
        ;
        let ch = (t / ss) % channels;
        let u = (t / (channels * ss)) * ss + (t % ss);
        assert(out[t] == plane_of(frame, ch, channels, ss)[u]);
        assert(plane_of(frame, ch, channels, ss)[u] == frame[interleaved_index(
            ch,
            u,
            channels,
            ss,
        )]);
        // u decomposes as quotient t / (channels*ss) and remainder
        // t % ss with respect to ss.
        vstd::arithmetic::div_mod::lemma_mod_bound(t, ss);
        vstd::arithmetic::div_mod::lemma_div_pos_is_pos(t, channels * ss);
        vstd::arithmetic::div_mod::lemma_fundamental_div_mod_converse(
            u,
            ss,
            t / (channels * ss),
            t % ss,
        );
        assert(u / ss == t / (channels * ss));
        assert(u % ss == t % ss);
        // the double division collapses: (t / ss) / channels
        // == t / (ss * channels).
        vstd::arithmetic::div_mod::lemma_div_denominator(t, ss, channels);
        assert(ss * channels == channels * ss) by (nonlinear_arith);
        assert(t / ss / channels == t / (channels * ss));
        vstd::arithmetic::div_mod::lemma_fundamental_div_mod(t / ss, channels);
        assert(t / ss == channels * (t / (channels * ss)) + ch);
        vstd::arithmetic::div_mod::lemma_fundamental_div_mod(t, ss);
        assert(interleaved_index(ch, u, channels, ss) == ((t / (channels * ss)) * channels
            + ch) * ss + (t % ss));
        assert(((t / (channels * ss)) * channels + ch) * ss + (t % ss) == t)
            by (nonlinear_arith)
            requires
                t / ss == channels * (t / (channels * ss)) + ch,
                t == ss * (t / ss) + (t % ss),
        ;
    }
    assert(out =~= frame);
}

/// The per-frame staging buffer of the encoder: holds one codec frame
/// laid out as the codec wants it, interleaved in one plane or split
/// across per-channel planes.
pub struct AvFrameEncoder {
    data: Vec<Vec<u8>>,
    size: usize,
    is_planar: bool,
    channels: usize,
    sample_size: usize,
}

impl AvFrameEncoder {
    /// The planes staged for submission.
    pub closed spec fn planes(self) -> Seq<Seq<u8>> {
        self.data.deep_view()
    }

    /// Bytes of one whole codec frame.
    pub closed spec fn size(self) -> int {
        self.size as int
    }

    pub closed spec fn is_planar(self) -> bool {
        self.is_planar
    }

    pub closed spec fn channels(self) -> int {
        self.channels as int
    }

    pub closed spec fn sample_size(self) -> int {
        self.sample_size as int
    }

    pub open spec fn wf(self) -> bool {
        &&& 1 <= self.channels() <= 8
        &&& 1 <= self.sample_size() <= 4
        &&& 0 < self.size()
        &&& self.size() % (self.channels() * self.sample_size()) == 0
    }

    /// A staging frame of `frame_size` samples per channel.
    pub fn new(
        frame_size: usize,
        format: AudioSampleFormat,
        channels: usize,
    ) -> (r: AvFrameEncoder)
        requires
            1 <= channels <= 8,
            1 <= frame_size,
            frame_size * 32 <= usize::MAX,
        ensures
            r.wf(),
            r.channels() == channels,
            r.sample_size() == format.spec_sample_size(),
            r.is_planar() == format.spec_is_planar(),
            r.size() == frame_size * channels * format.spec_sample_size(),
    {
        let sample_size = format.get_sample_size();
        proof {
            assert(frame_size * channels * sample_size <= frame_size * 32
                && 1 * (channels * sample_size) <= frame_size * (channels * sample_size)
                && frame_size * channels * sample_size == frame_size * (channels
                * sample_size) && (frame_size * (channels * sample_size)) % (channels
                * sample_size) == 0 && 0 < channels * sample_size) by (nonlinear_arith)
                requires
                    1 <= channels <= 8,
                    1 <= sample_size <= 4,
                    1 <= frame_size,
            ;
        }
        AvFrameEncoder {
            data: Vec::new(),
            size: frame_size * channels * sample_size,
            is_planar: format.is_planar(),
            channels,
            sample_size,
        }
    }

    /// Stages the next frame out of the accumulated bytes: `None`
    /// when fewer than one frame's worth remains, else exactly the
    /// first `size` bytes, split into planes when the codec chose a
    /// planar format, and the count consumed.
    pub fn copy_from_slice(&mut self, buf: &[u8]) -> (r: Option<usize>)
        requires
            old(self).wf(),
        ensures
            final(self).wf(),
            final(self).size() == old(self).size(),
            final(self).is_planar() == old(self).is_planar(),
            final(self).channels() == old(self).channels(),
            final(self).sample_size() == old(self).sample_size(),
            buf@.len() < old(self).size() ==> r is None && *final(self) == *old(self),
            buf@.len() >= old(self).size() ==> {
                &&& r == Some(old(self).size() as usize)
                &&& old(self).is_planar() ==> final(self).planes() == planar_split(
                    buf@.take(old(self).size()),
                    old(self).channels(),
                    old(self).sample_size(),
                )
                &&& !old(self).is_planar() ==> final(self).planes() == seq![
                    buf@.take(old(self).size()),
                ]
            },
    {
        if buf.len() < self.size {
            return None;
        }
        let mut prefix: Vec<u8> = Vec::new();
        let mut i: usize = 0;
        while i < self.size
            invariant
                i <= self.size,
                self.size <= buf@.len(),
                prefix@ == buf@.take(i as int),
            decreases self.size - i,
        {
            prefix.push(buf[i]);
            i += 1;
        }
        if self.is_planar {
            let planes = split_planar(prefix.as_slice(), self.channels, self.sample_size);
            self.data = planes;
        } else {
            let mut single: Vec<Vec<u8>> = Vec::new();
            single.push(prefix);
            self.data = single;
            proof {
                assert(self.data.deep_view() =~~= seq![buf@.take(old(self).size())]);
            }
        }
        Some(self.size)
    }
}

impl AvFrameEncoder {
    /// How many planes are staged: one per channel for a planar
    /// format, a single one otherwise.
    pub fn plane_count(&self) -> (r: usize)
        ensures
            r == self.planes().len(),
    {
        self.data.len()
    }

    /// One staged plane, ready to be copied into the codec's frame.
    pub fn plane(&self, i: usize) -> (r: &Vec<u8>)
        requires
            i < self.planes().len(),
        ensures
            r@ == self.planes()[i as int],
    {
        &self.data[i]
    }
}

/// One decoded frame as it comes back from the codec library: the
/// plane bytes and the sample count per channel.
pub struct DecodedFrame {
    pub planes: Vec<Vec<u8>>,
    pub nb_samples: usize,
}

/// The parser-fed decoder adapter.
///
/// Written bytes accumulate; the packet parser outside the library
/// consumes them in bounded steps tracked by a cursor, and decoded
/// frames are serialized back to interleaved bytes.
pub struct Decoder {
    write_buf: Vec<u8>,
    cursor: usize,
}

impl Decoder {
    /// Bytes handed in for parsing.
    pub closed spec fn pending(self) -> Seq<u8> {
        self.write_buf@
    }

    /// How many pending bytes the parser has consumed.
    pub closed spec fn parsed(self) -> int {
        self.cursor as int
    }

    pub open spec fn wf(self) -> bool {
        0 <= self.parsed() <= self.pending().len()
    }

    pub fn new() -> (r: Decoder)
        ensures
            r.wf(),
            r.pending() == Seq::<u8>::empty(),
            r.parsed() == 0,
    {
        let r = Decoder { write_buf: Vec::new(), cursor: 0 };
        proof {
            assert(r.pending() =~= Seq::<u8>::empty());
        }
        r
    }

    /// Accepts a slice of stream bytes for parsing.
    pub fn write(&mut self, in_buf: &[u8])
        requires
            old(self).wf(),
            old(self).pending().len() + in_buf@.len() <= usize::MAX,
        ensures
            final(self).wf(),
            final(self).pending() == old(self).pending() + in_buf@,
            final(self).parsed() == old(self).parsed(),
    {
        let mut i: usize = 0;
        while i < in_buf.len()
            invariant
                i <= in_buf@.len(),
                self.cursor == old(self).cursor,
                old(self).pending().len() + in_buf@.len() <= usize::MAX,
                self.write_buf@ == old(self).pending() + in_buf@.take(i as int),
                old(self).cursor <= old(self).pending().len(),
            decreases in_buf@.len() - i,
        {
            self.write_buf.push(in_buf[i]);
            i += 1;
        }
        proof {
            assert(in_buf@.take(in_buf@.len() as int) =~= in_buf@);
        }
    }

    /// The bytes the parser has not consumed yet.
    pub fn unparsed(&self) -> (r: Vec<u8>)
        requires
            self.wf(),
        ensures
            r@ == self.pending().skip(self.parsed()),
    {
        let mut r: Vec<u8> = Vec::new();
        let mut i: usize = self.cursor;
        while i < self.write_buf.len()
            invariant
                self.cursor <= i <= self.pending().len(),
                r@ == self.pending().subrange(self.parsed(), i as int),
            decreases self.pending().len() - i,
        {
            r.push(self.write_buf[i]);
            proof {
                assert(self.pending().subrange(self.parsed(), i + 1)
                    =~= self.pending().subrange(self.parsed(), i as int).push(
                    self.pending()[i as int],
                ));
            }
            i += 1;
        }
        r
    }

    /// Records that the parser consumed `parsed` more bytes.
    pub fn consume(&mut self, parsed: usize)
        requires
            old(self).wf(),
            parsed + old(self).parsed() <= old(self).pending().len(),
        ensures
            final(self).wf(),
            final(self).pending() == old(self).pending(),
            final(self).parsed() == old(self).parsed() + parsed,
    {
        let n = self.write_buf.len();
        proof {
            assert(self.cursor + parsed <= n);
        }
        self.cursor = self.cursor + parsed;
    }

    /// Whether the parser has consumed everything written.
    pub fn is_drained(&self) -> (r: bool)
        ensures
            r == (self.parsed() == self.pending().len()),
    {
        self.cursor == self.write_buf.len()
    }

    /// Ends one write call: everything was parsed, the accumulator is
    /// cleared for the next write.
    pub fn finish_write(&mut self)
        requires
            old(self).wf(),
            old(self).parsed() == old(self).pending().len(),
        ensures
            final(self).wf(),
            final(self).pending() == Seq::<u8>::empty(),
            final(self).parsed() == 0,
    {
        self.write_buf.clear();
        self.cursor = 0;
        proof {
            assert(final(self).pending() =~= Seq::<u8>::empty());
        }
    }

    /// Classifies one receive attempt of the codec library and
    /// serializes a decoded frame to interleaved bytes.  The
    /// would-block and end-of-stream codes mean "nothing now" and are
    /// never surfaced as errors.
    pub fn read(
        &self,
        res: Result<DecodedFrame, InternalError>,
        sample_size: usize,
    ) -> (r: Result<Option<Vec<u8>>, Error>)
        requires
            1 <= sample_size <= 4,
            res matches Ok(f) ==> {
                &&& f.planes@.len() == CHANNELS_QTY
                &&& f.nb_samples * CHANNELS_QTY * sample_size <= usize::MAX
                &&& forall|j: int|
                    0 <= j < f.planes@.len() ==> f.nb_samples * sample_size
                        <= #[trigger] f.planes@[j]@.len()
            },
        ensures
            res matches Ok(f) ==> (r matches Ok(out) && out matches Some(bytes) && bytes@
                == interleaved_of(
                f.planes.deep_view(),
                CHANNELS_QTY as int,
                sample_size as int,
                f.nb_samples as int,
            )),
            res matches Err(e) ==> if e.spec_is_again_or_eof() {
                r == Ok::<Option<Vec<u8>>, Error>(None)
            } else {
                r matches Err(err) && *err.repr matches ErrorRepr::Internal(ie) && ie == e
            },
            r matches Err(err) ==> (*err.repr matches ErrorRepr::Internal(ie)
                && !ie.spec_is_again_or_eof()),
    {
        match res {
            Ok(frame) => {
                let bytes = interleave_planes(&frame.planes, frame.nb_samples, sample_size);
                Ok(Some(bytes))
            },
            Err(e) => {
                if e.is_again_or_eof() {
                    Ok(None)
                } else {
                    Err(Error::from(e))
                }
            },
        }
    }
}

} // verus!
