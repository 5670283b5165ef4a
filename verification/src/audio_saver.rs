//! Audio file sink model: the sample formats the sink accepts, its
//! error taxonomy, and the rule that a chunk handed to the sink must
//! hold whole samples only, so the file always ends on a sample
//! boundary.

use vstd::prelude::*;

verus! {

/// Failure of the audio file sink, together with the output it was
/// writing to.
#[derive(Debug)]
pub struct Error {
    pub repr: Box<ErrorRepr>,
}

#[derive(Debug)]
pub struct ErrorRepr {
    pub kind: ErrorKind,
    pub output: OutputType,
}

/// What went wrong while writing audio.
#[derive(Debug)]
pub enum ErrorKind {
    IoError(String),
    FormatError(&'static str),
    UnfinishedSample,
    AnotherError(String),
}

/// Where the sink writes.
#[derive(Clone, Debug)]
pub enum OutputType {
    File(String),
}

/// Sample encodings the file sink can persist.
#[derive(Clone, Copy, Debug, PartialEq, Eq, Structural)]
pub enum Format {
    U8,
    S16Le,
    S32Le,
    FloatLe,
}

/// Kinds of audio containers on offer.
#[derive(Clone, Copy, Debug, PartialEq, Eq, Structural)]
pub enum AudioType {
    Wav,
}

/// Configuration of a file sink.
#[derive(Clone, Debug)]
pub struct Settings {
    pub channels: u16,
    pub sample_rate: u32,
    pub format: Format,
    pub output: OutputType,
}

impl Error {
    pub fn new(kind: ErrorKind, output: OutputType) -> (r: Error)
        ensures
            r.repr.kind == kind,
            r.repr.output == output,
    {
        Error { repr: Box::new(ErrorRepr { kind, output }) }
    }
}

impl Format {
    /// Width of one sample in bits, as the container header records it.
    pub fn bits_per_sample(&self) -> (r: u16)
        ensures
            r == match self {
                Format::U8 => 8u16,
                Format::S16Le => 16u16,
                Format::S32Le => 32u16,
                Format::FloatLe => 32u16,
            },
    {
        match self {
            Format::U8 => 8,
            Format::S16Le => 16,
            Format::S32Le | Format::FloatLe => 32,
        }
    }

    /// Width of one sample in bytes.
    pub open spec fn spec_sample_bytes(self) -> usize {
        match self {
            Format::U8 => 1usize,
            Format::S16Le => 2usize,
            Format::S32Le => 4usize,
            Format::FloatLe => 4usize,
        }
    }

    pub fn sample_bytes(&self) -> (r: usize)
        ensures
            r == self.spec_sample_bytes(),
    {
        match self {
            Format::U8 => 1,
            Format::S16Le => 2,
            Format::S32Le | Format::FloatLe => 4,
        }
    }

    /// The sink persists whole samples only: a chunk of bytes is
    /// accepted exactly when its length is a multiple of the sample
    /// width, so the file never ends inside a sample.
    pub fn accepts_chunk(&self, len: usize) -> (r: bool)
        ensures
            r == (len as int % self.spec_sample_bytes() as int == 0),
    {
        len % self.sample_bytes() == 0
    }
}

} // verus!
