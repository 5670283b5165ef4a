//! Codec and resampler layer: sample formats as the codec library
//! numbers them, frame geometry, the encoder's accumulator, the
//! decoder's parse cursor, the single-packet muxer buffer, and the
//! resampler's buffer planning.
//!
//! The codec library itself is driven outside this crate; these types
//! carry every decision that can be stated over plain bytes and
//! numbers.

pub mod codec;
pub mod error;
pub mod ffmpeg_const;
pub mod format;
pub mod resample;

pub use codec::{Codec, Decoder, Encoder, Params as CodecParams};
pub use error::{Error, ErrorRepr, InternalError};
pub use resample::Resampler;

use vstd::prelude::*;

verus! {

/// Number of channels the pipeline is laid out for: the fixed stereo
/// channel layout.
pub const CHANNELS_QTY: usize = 2;

/// Rate and sample format of a PCM stream at the codec boundary.
#[derive(Clone, Copy, Debug, PartialEq, Eq, Structural)]
pub struct AudioParams {
    pub rate: i32,
    pub format: AudioSampleFormat,
}

/// Sample formats the codec layer recognizes: the three interleaved
/// hardware formats and their planar variants.
#[derive(Clone, Copy, Debug, PartialEq, Eq, Structural)]
pub enum AudioSampleFormat {
    U8,
    S16Le,
    FloatLe,
    U8P,
    S16LeP,
    FloatLeP,
}

impl AudioSampleFormat {
    /// Decodes the numeric sample format of the codec library.
    pub fn from_raw(raw: i32) -> (r: Option<AudioSampleFormat>)
        ensures
            r == match raw {
                0i32 => Some(AudioSampleFormat::U8),
                1i32 => Some(AudioSampleFormat::S16Le),
                3i32 => Some(AudioSampleFormat::FloatLe),
                5i32 => Some(AudioSampleFormat::U8P),
                6i32 => Some(AudioSampleFormat::S16LeP),
                8i32 => Some(AudioSampleFormat::FloatLeP),
                _ => None::<AudioSampleFormat>,
            },
    {
        match raw {
            0 => Some(AudioSampleFormat::U8),
            1 => Some(AudioSampleFormat::S16Le),
            3 => Some(AudioSampleFormat::FloatLe),
            5 => Some(AudioSampleFormat::U8P),
            6 => Some(AudioSampleFormat::S16LeP),
            8 => Some(AudioSampleFormat::FloatLeP),
            _ => None,
        }
    }

    /// The numeric sample format of the codec library.
    pub open spec fn spec_to_raw(self) -> i32 {
        match self {
            AudioSampleFormat::U8 => 0i32,
            AudioSampleFormat::S16Le => 1i32,
            AudioSampleFormat::FloatLe => 3i32,
            AudioSampleFormat::U8P => 5i32,
            AudioSampleFormat::S16LeP => 6i32,
            AudioSampleFormat::FloatLeP => 8i32,
        }
    }

    pub fn to_raw(&self) -> (r: i32)
        ensures
            r == self.spec_to_raw(),
    {
        match self {
            AudioSampleFormat::U8 => 0,
            AudioSampleFormat::S16Le => 1,
            AudioSampleFormat::FloatLe => 3,
            AudioSampleFormat::U8P => 5,
            AudioSampleFormat::S16LeP => 6,
            AudioSampleFormat::FloatLeP => 8,
        }
    }

    /// Size of one sample of this format, in bytes.
    pub open spec fn spec_sample_size(self) -> usize {
        match self {
            AudioSampleFormat::U8 => 1usize,
            AudioSampleFormat::U8P => 1usize,
            AudioSampleFormat::S16Le => 2usize,
            AudioSampleFormat::S16LeP => 2usize,
            AudioSampleFormat::FloatLe => 4usize,
            AudioSampleFormat::FloatLeP => 4usize,
        }
    }

    pub fn get_sample_size(&self) -> (r: usize)
        ensures
            r == self.spec_sample_size(),
            1 <= r <= 4,
    {
        match self {
            AudioSampleFormat::U8 | AudioSampleFormat::U8P => 1,
            AudioSampleFormat::S16Le | AudioSampleFormat::S16LeP => 2,
            AudioSampleFormat::FloatLe | AudioSampleFormat::FloatLeP => 4,
        }
    }

    /// Whether channel samples lie in parallel planes rather than
    /// interleaved.
    pub open spec fn spec_is_planar(self) -> bool {
        match self {
            AudioSampleFormat::U8P => true,
            AudioSampleFormat::S16LeP => true,
            AudioSampleFormat::FloatLeP => true,
            _ => false,
        }
    }

    pub fn is_planar(&self) -> (r: bool)
        ensures
            r == self.spec_is_planar(),
    {
        matches!(
            self,
            AudioSampleFormat::U8P | AudioSampleFormat::S16LeP | AudioSampleFormat::FloatLeP
        )
    }

    /// The planar variant of this format.
    pub open spec fn spec_to_planar(self) -> AudioSampleFormat {
        match self {
            AudioSampleFormat::U8 => AudioSampleFormat::U8P,
            AudioSampleFormat::S16Le => AudioSampleFormat::S16LeP,
            AudioSampleFormat::FloatLe => AudioSampleFormat::FloatLeP,
            other => other,
        }
    }

    pub fn to_planar(&self) -> (r: AudioSampleFormat)
        ensures
            r == self.spec_to_planar(),
    {
        match self {
            AudioSampleFormat::U8 => AudioSampleFormat::U8P,
            AudioSampleFormat::S16Le => AudioSampleFormat::S16LeP,
            AudioSampleFormat::FloatLe => AudioSampleFormat::FloatLeP,
            other => *other,
        }
    }

    /// The interleaved variant of this format.
    pub open spec fn spec_to_interleaved(self) -> AudioSampleFormat {
        match self {
            AudioSampleFormat::U8P => AudioSampleFormat::U8,
            AudioSampleFormat::S16LeP => AudioSampleFormat::S16Le,
            AudioSampleFormat::FloatLeP => AudioSampleFormat::FloatLe,
            other => other,
        }
    }

    pub fn to_interleaved(&self) -> (r: AudioSampleFormat)
        ensures
            r == self.spec_to_interleaved(),
    {
        match self {
            AudioSampleFormat::U8P => AudioSampleFormat::U8,
            AudioSampleFormat::S16LeP => AudioSampleFormat::S16Le,
            AudioSampleFormat::FloatLeP => AudioSampleFormat::FloatLe,
            other => *other,
        }
    }
}

impl From<crate::alsa::Format> for AudioSampleFormat {
    /// The codec-layer form of a hardware sample format.
    fn from(f: crate::alsa::Format) -> (r: AudioSampleFormat) {
        match f {
            crate::alsa::Format::U8 => AudioSampleFormat::U8,
            crate::alsa::Format::S16Le => AudioSampleFormat::S16Le,
            crate::alsa::Format::FloatLe => AudioSampleFormat::FloatLe,
        }
    }
}

impl vstd::std_specs::convert::FromSpecImpl<crate::alsa::Format> for AudioSampleFormat {
    open spec fn obeys_from_spec() -> bool {
        true
    }

    open spec fn from_spec(f: crate::alsa::Format) -> AudioSampleFormat {
        match f {
            crate::alsa::Format::U8 => AudioSampleFormat::U8,
            crate::alsa::Format::S16Le => AudioSampleFormat::S16Le,
            crate::alsa::Format::FloatLe => AudioSampleFormat::FloatLe,
        }
    }
}

impl From<crate::alsa::Params> for AudioParams {
    /// The codec-layer form of a hardware configuration.
    fn from(p: crate::alsa::Params) -> (r: AudioParams) {
        AudioParams { rate: p.rate as i32, format: AudioSampleFormat::from(p.format) }
    }
}

impl vstd::std_specs::convert::FromSpecImpl<crate::alsa::Params> for AudioParams {
    open spec fn obeys_from_spec() -> bool {
        true
    }

    open spec fn from_spec(p: crate::alsa::Params) -> AudioParams {
        AudioParams {
            rate: p.rate as i32,
            format: <AudioSampleFormat as vstd::std_specs::convert::FromSpec<
                crate::alsa::Format,
            >>::from_spec(p.format),
        }
    }
}

impl AudioParams {
    /// Channels of the fixed stereo layout.
    pub fn get_channels_qty(&self) -> (r: usize)
        ensures
            r == CHANNELS_QTY,
    {
        CHANNELS_QTY
    }

    /// How many samples per channel a buffer of `len` bytes holds;
    /// rounds down.
    pub fn get_samples_qty_in_buffer(&self, len: usize) -> (r: usize)
        ensures
            r == len as int / CHANNELS_QTY as int / self.format.spec_sample_size() as int,
    {
        len / CHANNELS_QTY / self.format.get_sample_size()
    }
}

} // verus!
