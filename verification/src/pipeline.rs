//! Orchestrator decisions: the fixed defaults the pipeline is armed
//! with, whether a converter is needed between the granted and the
//! desired parameters, and the size of the capture scratch buffer.

use vstd::prelude::*;

use crate::alsa;
use crate::ffmpeg;

verus! {

/// The bit rate the encoder is opened with.
pub const DEFAULT_BIT_RATE: u32 = 96000;

/// How many scratch bytes one capture call should at least fill.
pub const MIN_SCRATCH_BYTES: usize = 4096;

/// The parameters requested from the capture device: 32-bit float
/// samples, stereo, 44.1 kHz.
pub fn default_capture_params() -> (r: alsa::Params)
    ensures
        r.format == alsa::Format::FloatLe,
        r.channels == 2,
        r.rate == 44100,
        r.well_formed(),
{
    alsa::Params { format: alsa::Format::FloatLe, channels: 2, rate: 44100 }
}

/// A converter stands between device and sinks exactly when the
/// device granted something other than what was requested.
pub fn needs_resampler(requested: alsa::Params, granted: alsa::Params) -> (r: bool)
    ensures
        r == (requested != granted),
{
    requested != granted
}

/// The encoder configuration the broadcaster sink is built with.
pub fn default_encoder_params(audio_params: ffmpeg::AudioParams) -> (r: ffmpeg::CodecParams)
    ensures
        r.codec == ffmpeg::Codec::Aac,
        r.bit_rate == DEFAULT_BIT_RATE,
        r.audio_params == audio_params,
{
    ffmpeg::CodecParams {
        codec: ffmpeg::Codec::Aac,
        bit_rate: DEFAULT_BIT_RATE,
        audio_params,
    }
}

/// Size of the capture scratch buffer: the smallest multiple of the
/// frame size that holds at least [`MIN_SCRATCH_BYTES`] bytes, so
/// every capture fills whole frames and nothing is rounded away.
pub fn capture_scratch_len(params: &alsa::Params) -> (r: usize)
    requires
        params.well_formed(),
    ensures
        r as int % params.spec_bytes_per_frame() == 0,
        MIN_SCRATCH_BYTES <= r < MIN_SCRATCH_BYTES + params.spec_bytes_per_frame(),
{
    let bpf = params.bytes_per_frame();
    let frames = (MIN_SCRATCH_BYTES + bpf - 1) / bpf;
    proof {
        let b = params.spec_bytes_per_frame();
        assert(frames * b % b == 0 && MIN_SCRATCH_BYTES <= frames * b
            < MIN_SCRATCH_BYTES + b) by (nonlinear_arith)
            requires
                frames == (MIN_SCRATCH_BYTES + b - 1) as int / b,
                0 < b <= 32,
                MIN_SCRATCH_BYTES == 4096,
        ;
    }
    let r = frames * bpf;
    r
}

} // verus!
