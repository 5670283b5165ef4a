//! PCM endpoint model: sample formats, stream directions, hardware
//! parameter planning, and the byte/frame arithmetic that keeps every
//! transfer frame-aligned.
//!
//! The device itself is driven outside the library; everything here is
//! the decision logic of opening, reading and writing: which format to
//! pick, how large the buffer and period times are, how a buffer length
//! is rounded to whole frames, and what to do with each return code of
//! the device (wait, recover from an xrun, fail, or advance).

use vstd::prelude::*;

use crate::audio_saver;

verus! {

/// Error of the PCM layer: a negative error code and the operation
/// during which it came up.
#[derive(Clone, Debug)]
pub struct AlsaError {
    pub errnum: i32,
    pub context: String,
}

impl AlsaError {
    pub fn new(errnum: i32, context: String) -> (r: AlsaError)
        ensures
            r.errnum == errnum,
            r.context@ == context@,
    {
        AlsaError { errnum, context }
    }
}

/// Sample format accepted at the hardware boundary.
#[derive(Clone, Copy, Debug, PartialEq, Eq, Structural)]
pub enum Format {
    U8,
    S16Le,
    FloatLe,
}

/// Direction of a PCM stream.
#[derive(Clone, Copy, Debug, PartialEq, Eq, Structural)]
pub enum Stream {
    Playback,
    Capture,
}

/// Requested or granted configuration of a PCM device.
#[derive(Clone, Copy, Debug, PartialEq, Eq, Structural)]
pub struct Params {
    pub format: Format,
    pub channels: u32,
    pub rate: u32,
}

impl Format {
    /// Size of one sample of this format, in bytes.
    pub open spec fn spec_bytes_per_sample(self) -> usize {
        match self {
            Format::U8 => 1usize,
            Format::S16Le => 2usize,
            Format::FloatLe => 4usize,
        }
    }

    pub fn bytes_per_sample(&self) -> (r: usize)
        ensures
            r == self.spec_bytes_per_sample(),
    {
        match self {
            Format::U8 => 1,
            Format::S16Le => 2,
            Format::FloatLe => 4,
        }
    }

    /// The matching sample format of the audio file sink.
    pub fn to_audio_saver_format(&self) -> (r: audio_saver::Format)
        ensures
            r == match self {
                Format::U8 => audio_saver::Format::U8,
                Format::S16Le => audio_saver::Format::S16Le,
                Format::FloatLe => audio_saver::Format::FloatLe,
            },
    {
        match self {
            Format::U8 => audio_saver::Format::U8,
            Format::S16Le => audio_saver::Format::S16Le,
            Format::FloatLe => audio_saver::Format::FloatLe,
        }
    }

    /// Numeric code of this format in the PCM interface.
    pub fn to_ffi(&self) -> (r: i32)
        ensures
            r == match self {
                Format::U8 => 1int,
                Format::S16Le => 2int,
                Format::FloatLe => 14int,
            },
    {
        match self {
            Format::U8 => 1,
            Format::S16Le => 2,
            Format::FloatLe => 14,
        }
    }
}

impl Stream {
    /// Numeric code of this direction in the PCM interface.
    pub fn to_ffi(&self) -> (r: u32)
        ensures
            r == match self {
                Stream::Playback => 0u32,
                Stream::Capture => 1u32,
            },
    {
        match self {
            Stream::Playback => 0,
            Stream::Capture => 1,
        }
    }
}

impl Params {
    /// The ranges the pipeline accepts before arming itself.
    pub open spec fn well_formed(self) -> bool {
        &&& 1 <= self.channels <= 8
        &&& 8000 <= self.rate <= 192000
    }

    /// Size of one interleaved frame (one sample per channel), in bytes.
    pub open spec fn spec_bytes_per_frame(self) -> int {
        self.format.spec_bytes_per_sample() * self.channels
    }

    pub fn bytes_per_frame(&self) -> (r: usize)
        requires
            self.well_formed(),
        ensures
            r == self.spec_bytes_per_frame(),
            1 <= r <= 32,
    {
        self.format.bytes_per_sample() * (self.channels as usize)
    }

    /// How many whole frames fit in `bytes_qty` bytes; rounds down and
    /// never splits a sample.
    pub fn bytes_qty_to_frames_qty(&self, bytes_qty: usize) -> (r: u64)
        requires
            self.well_formed(),
        ensures
            r == bytes_qty as int / self.spec_bytes_per_frame(),
    {
        (bytes_qty / self.bytes_per_frame()) as u64
    }

    /// Size in bytes of `frames_qty` whole frames.
    pub fn frames_qty_to_bytes_qty(&self, frames_qty: u64) -> (r: usize)
        requires
            self.well_formed(),
            frames_qty * self.spec_bytes_per_frame() <= usize::MAX,
        ensures
            r == frames_qty * self.spec_bytes_per_frame(),
            r as int % self.spec_bytes_per_frame() == 0,
    {
        let bpf = self.bytes_per_frame();
        let ghost b = self.spec_bytes_per_frame();
        proof {
            assert(frames_qty <= frames_qty * b) by (nonlinear_arith)
                requires
                    0 <= frames_qty,
                    1 <= b,
            ;
        }
        let fq: usize = frames_qty as usize;
        let r = fq * bpf;
        proof {
            assert(r as int % b == 0) by (nonlinear_arith)
                requires
                    r == frames_qty * b,
                    0 < b,
            ;
        }
        r
    }

    /// Largest frame-aligned length not exceeding `len`: the portion of
    /// a caller buffer that a transfer actually uses.
    pub fn aligned_len(&self, len: usize) -> (r: usize)
        requires
            self.well_formed(),
        ensures
            r == len - len as int % self.spec_bytes_per_frame(),
            r as int % self.spec_bytes_per_frame() == 0,
            r <= len,
    {
        let bpf = self.bytes_per_frame();
        let ghost b = self.spec_bytes_per_frame();
        let frames = len / bpf;
        proof {
            assert((len as int / b) * b <= len && 0 <= (len as int / b) * b)
                by (nonlinear_arith)
                requires
                    0 < b,
                    0 <= len,
            ;
        }
        let r = frames * bpf;
        proof {
            assert(r == len - len as int % b && r as int % b == 0) by (nonlinear_arith)
                requires
                    frames == len as int / b,
                    r == frames * b,
                    0 < b,
                    0 <= len,
            ;
        }
        r
    }
}

/// Every byte count a transfer touches is a whole number of frames:
/// the used part of a capture or playback buffer of `len` bytes is
/// divisible by `channels * bytes_per_sample`.
pub proof fn lemma_frame_alignment(params: Params, len: usize)
    requires
        params.well_formed(),
    ensures
        (len - len as int % params.spec_bytes_per_frame())
            % params.spec_bytes_per_frame() == 0,
        len - len as int % params.spec_bytes_per_frame() <= len,
{
    let b = params.spec_bytes_per_frame();
    assert(1 <= params.format.spec_bytes_per_sample());
    assert(0 < b) by (nonlinear_arith)
        requires
            b == params.format.spec_bytes_per_sample() * params.channels,
            1 <= params.format.spec_bytes_per_sample(),
            1 <= params.channels,
    ;
    assert((len - len as int % b) % b == 0 && len - len as int % b <= len)
        by (nonlinear_arith)
        requires
            0 < b,
            0 <= len,
    ;
}

/// State of a PCM device as its status interface reports it.
#[derive(Clone, Copy, Debug, PartialEq, Eq, Structural)]
pub enum PcmState {
    Open,
    Setup,
    Prepared,
    Running,
    XRun,
    Draining,
    Paused,
    Suspended,
    Disconnected,
}

impl PcmState {
    /// Decodes the numeric state of the PCM status interface.
    pub fn from_ffi(raw: u32) -> (r: Option<PcmState>)
        ensures
            r == match raw {
                0u32 => Some(PcmState::Open),
                1u32 => Some(PcmState::Setup),
                2u32 => Some(PcmState::Prepared),
                3u32 => Some(PcmState::Running),
                4u32 => Some(PcmState::XRun),
                5u32 => Some(PcmState::Draining),
                6u32 => Some(PcmState::Paused),
                7u32 => Some(PcmState::Suspended),
                8u32 => Some(PcmState::Disconnected),
                _ => None::<PcmState>,
            },
    {
        match raw {
            0 => Some(PcmState::Open),
            1 => Some(PcmState::Setup),
            2 => Some(PcmState::Prepared),
            3 => Some(PcmState::Running),
            4 => Some(PcmState::XRun),
            5 => Some(PcmState::Draining),
            6 => Some(PcmState::Paused),
            7 => Some(PcmState::Suspended),
            8 => Some(PcmState::Disconnected),
            _ => None,
        }
    }
}

/// The order in which formats are probed on a device; its first
/// supported entry is the fallback when the requested format is not.
pub fn format_probe_order() -> (r: Vec<Format>)
    ensures
        r@ == seq![Format::S16Le, Format::FloatLe, Format::U8],
{
    let r: Vec<Format> = vec![Format::S16Le, Format::FloatLe, Format::U8];
    proof {
        assert(r@ =~= seq![Format::S16Le, Format::FloatLe, Format::U8]);
    }
    r
}

/// Picks the sample format a device is opened with: the requested one if
/// the device supports it, else the first supported one, else an error
/// with code `-22` (invalid argument).
pub fn choose_format(requested: Format, available: &Vec<Format>) -> (r: Result<
    Format,
    AlsaError,
>)
    ensures
        available@.contains(requested) ==> r == Ok::<Format, AlsaError>(requested),
        !available@.contains(requested) && available@.len() > 0 ==> r == Ok::<
            Format,
            AlsaError,
        >(available@[0]),
        available@.len() == 0 ==> (r matches Err(e) && e.errnum == -22),
{
    let mut i: usize = 0;
    while i < available.len()
        invariant
            i <= available@.len(),
            forall|j: int| 0 <= j < i ==> available@[j] != requested,
        decreases available@.len() - i,
    {
        if available[i] == requested {
            assert(available@.contains(requested));
            return Ok(requested);
        }
        i += 1;
    }
    assert(forall|j: int| 0 <= j < available@.len() ==> available@[j] != requested);
    assert(!available@.contains(requested));
    if available.len() > 0 {
        Ok(available[0])
    } else {
        Err(AlsaError::new(-22, String::from_str("no sample format is available")))
    }
}

/// Buffer and period times installed at open: the buffer time is the
/// device maximum capped at half a second, and the period is a quarter
/// of the buffer.
pub fn plan_buffer_times(buffer_time_max: u32) -> (r: (u32, u32))
    ensures
        r.0 == if buffer_time_max < 500000 {
            buffer_time_max as int
        } else {
            500000int
        },
        r.1 == r.0 / 4,
{
    let buffer_time = if buffer_time_max < 500000 {
        buffer_time_max
    } else {
        500000
    };
    (buffer_time, buffer_time / 4)
}

/// Start threshold installed at open: capture starts on the first read;
/// playback waits for about one full buffer so that the first feed does
/// not underrun at once.
pub fn calc_start_threshold(stream: Stream, rate: u32, buffer_size: u64) -> (r: u64)
    requires
        buffer_size <= u64::MAX - 5000,
    ensures
        stream == Stream::Playback ==> r == buffer_size + rate as int / 1000000,
        stream == Stream::Capture ==> r == 1,
{
    match stream {
        Stream::Playback => buffer_size + (rate / 1000000) as u64,
        Stream::Capture => 1,
    }
}

/// What the transfer loop does next, decided from one device return
/// code.
#[derive(Clone, Copy, Debug, PartialEq, Eq, Structural)]
pub enum IoAction {
    /// The device has no data or room yet: wait briefly and retry.
    Retry,
    /// An underrun or overrun was signalled: run xrun recovery, then
    /// retry the same bytes; nothing of the current chunk is dropped.
    Recover,
    /// A fatal device error with this code.
    Fail(i32),
    /// This many bytes were transferred; the cursor moved forward.
    Advance(usize),
}

/// Error code the device returns when it would block.
pub const ERR_AGAIN: i64 = -11;

/// Error code the device returns on an underrun or overrun.
pub const ERR_PIPE: i64 = -32;

/// Progress of one interleaved read or write against a caller buffer.
///
/// `total_bytes` is the frame-aligned portion of the buffer;
/// `bytes_left` counts down to zero as the device accepts frames.
pub struct Transfer {
    pub params: Params,
    pub stream: Stream,
    pub total_bytes: usize,
    pub bytes_left: usize,
}

impl Transfer {
    pub open spec fn wf(self) -> bool {
        &&& self.params.well_formed()
        &&& self.bytes_left <= self.total_bytes
        &&& self.total_bytes as int % self.params.spec_bytes_per_frame() == 0
        &&& self.bytes_left as int % self.params.spec_bytes_per_frame() == 0
    }

    /// Begins a transfer over `buf_len` caller bytes; only the
    /// frame-aligned prefix is transferred.
    pub fn new(params: Params, stream: Stream, buf_len: usize) -> (r: Transfer)
        requires
            params.well_formed(),
        ensures
            r.wf(),
            r.params == params,
            r.stream == stream,
            r.total_bytes == buf_len - buf_len as int % params.spec_bytes_per_frame(),
            r.bytes_left == r.total_bytes,
    {
        let total = params.aligned_len(buf_len);
        proof {
            let b = params.spec_bytes_per_frame();
            assert(total as int % b == 0);
        }
        Transfer { params, stream, total_bytes: total, bytes_left: total }
    }

    /// The transfer is complete: every aligned byte went through.
    pub fn is_done(&self) -> (r: bool)
        ensures
            r == (self.bytes_left == 0),
    {
        self.bytes_left == 0
    }

    /// Offset into the caller buffer where the next device call starts.
    pub fn offset(&self) -> (r: usize)
        requires
            self.wf(),
        ensures
            r == self.total_bytes - self.bytes_left,
    {
        self.total_bytes - self.bytes_left
    }

    /// Frames still owed to or by the device.
    pub fn frames_left(&self) -> (r: u64)
        requires
            self.wf(),
        ensures
            r == self.bytes_left as int / self.params.spec_bytes_per_frame(),
    {
        self.params.bytes_qty_to_frames_qty(self.bytes_left)
    }

    /// Decides the next step from one return code of the device: a
    /// would-block code waits and retries, an xrun code recovers and
    /// retries the same bytes, any other negative code is fatal, and a
    /// frame count moves the cursor forward.
    pub fn step(&mut self, res: i64) -> (a: IoAction)
        requires
            old(self).wf(),
            res >= i32::MIN,
            res >= 0 ==> res * old(self).params.spec_bytes_per_frame() <= old(
                self,
            ).bytes_left,
        ensures
            final(self).wf(),
            final(self).params == old(self).params,
            final(self).stream == old(self).stream,
            final(self).total_bytes == old(self).total_bytes,
            res == ERR_AGAIN ==> a == IoAction::Retry && *final(self) == *old(self),
            res == ERR_PIPE ==> a == IoAction::Recover && *final(self) == *old(self),
            res < 0 && res != ERR_AGAIN && res != ERR_PIPE ==> a == IoAction::Fail(
                res as i32,
            ) && *final(self) == *old(self),
            res >= 0 ==> {
                let moved = res * old(self).params.spec_bytes_per_frame();
                a == IoAction::Advance(moved as usize) && final(self).bytes_left
                    == old(self).bytes_left - moved
            },
    {
        if res == ERR_AGAIN {
            IoAction::Retry
        } else if res == ERR_PIPE {
            IoAction::Recover
        } else if res < 0 {
            IoAction::Fail(res as i32)
        } else {
            let bpf = self.params.bytes_per_frame();
            let ghost b = self.params.spec_bytes_per_frame();
            proof {
                assert(res <= res * b) by (nonlinear_arith)
                    requires
                        0 <= res,
                        1 <= b,
                ;
            }
            let resu: usize = res as usize;
            let moved: usize = resu * bpf;
            proof {
                assert(moved == res * b);
                assert(self.bytes_left == b * (self.bytes_left as int / b))
                    by (nonlinear_arith)
                    requires
                        self.bytes_left as int % b == 0,
                        0 < b,
                        0 <= self.bytes_left,
                ;
                let q = self.bytes_left as int / b;
                vstd::arithmetic::div_mod::lemma_mod_multiples_basic(q - res, b);
                assert((q - res) * b == self.bytes_left - moved) by (nonlinear_arith)
                    requires
                        moved == res * b,
                        self.bytes_left == b * q,
                ;
                assert((self.bytes_left - moved) % b == 0);
            }
            self.bytes_left = self.bytes_left - moved;
            IoAction::Advance(moved)
        }
    }

    /// Length of the next playback chunk: at most one device buffer,
    /// never more than is left.
    pub fn next_chunk_len(&self, buf_size_bytes: usize) -> (r: usize)
        ensures
            r == if buf_size_bytes < self.bytes_left {
                buf_size_bytes as int
            } else {
                self.bytes_left as int
            },
    {
        if buf_size_bytes < self.bytes_left {
            buf_size_bytes
        } else {
            self.bytes_left
        }
    }
}

/// Xrun recovery: if the device status says `XRun`, the stream is
/// prepared again and the transfer goes on; any other state makes the
/// original error fatal.
pub fn xrun_action(state: PcmState, errnum: i32) -> (r: Result<(), AlsaError>)
    ensures
        state == PcmState::XRun ==> r is Ok,
        state != PcmState::XRun ==> (r matches Err(e) && e.errnum == errnum),
{
    if matches!(state, PcmState::XRun) {
        Ok(())
    } else {
        Err(AlsaError::new(errnum, String::from_str("writing samples")))
    }
}

} // verus!
