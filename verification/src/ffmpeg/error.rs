//! Error taxonomy of the codec layer.  The would-block and
//! end-of-stream codes are the only "not now" errors; everything else
//! is fatal to the current stream.

use vstd::prelude::*;

use crate::ffmpeg::codec::Codec;
use crate::ffmpeg::ffmpeg_const::AVERROR_EOF;
use crate::ffmpeg::AudioSampleFormat;

verus! {

/// Any failure of the codec layer.
#[derive(Debug)]
pub struct Error {
    pub repr: Box<ErrorRepr>,
}

#[derive(Debug)]
pub enum ErrorRepr {
    Internal(InternalError),
    NoCodec(NoCodecError),
    NoParser(NoParserError),
    UnsupportedSampleFormat(UnsupportedSampleFormatError),
    CannotAllocate(CannotAllocateError),
}

/// A numeric error code of the codec library, with context.
#[derive(Debug)]
pub struct InternalError {
    pub err_num: i32,
    pub context: String,
}

/// No encoder or decoder exists for the codec.
#[derive(Debug)]
pub struct NoCodecError {
    pub codec: Codec,
}

/// No packet parser exists for the codec.
#[derive(Debug)]
pub struct NoParserError {
    pub codec: Codec,
}

/// The requested sample format cannot be encoded; `supported` lists
/// the interleaved forms the encoder accepts.
#[derive(Debug)]
pub struct UnsupportedSampleFormatError {
    pub fmt: AudioSampleFormat,
    pub supported: Vec<AudioSampleFormat>,
}

/// An allocation inside the codec library failed.
#[derive(Debug)]
pub struct CannotAllocateError {
    pub context: String,
}

impl Error {
    pub fn new(err_num: i32, ctx: String) -> (r: Error)
        ensures
            *r.repr matches ErrorRepr::Internal(e) && e.err_num == err_num && e.context@
                == ctx@,
    {
        Error { repr: Box::new(ErrorRepr::Internal(InternalError::new(err_num, ctx))) }
    }

    pub fn new_cannot_find_codec(codec: Codec) -> (r: Error)
        ensures
            *r.repr matches ErrorRepr::NoCodec(e) && e.codec == codec,
    {
        Error { repr: Box::new(ErrorRepr::NoCodec(NoCodecError { codec })) }
    }

    pub fn new_cannot_find_parser(codec: Codec) -> (r: Error)
        ensures
            *r.repr matches ErrorRepr::NoParser(e) && e.codec == codec,
    {
        Error { repr: Box::new(ErrorRepr::NoParser(NoParserError { codec })) }
    }

    pub fn new_cannot_allocate(context: String) -> (r: Error)
        ensures
            *r.repr matches ErrorRepr::CannotAllocate(e) && e.context@ == context@,
    {
        Error { repr: Box::new(ErrorRepr::CannotAllocate(CannotAllocateError { context })) }
    }
}

impl InternalError {
    pub fn new(err_num: i32, ctx: String) -> (r: InternalError)
        ensures
            r.err_num == err_num,
            r.context@ == ctx@,
    {
        InternalError { err_num, context: ctx }
    }

    /// The would-block code: the negated platform `EAGAIN`.
    pub open spec fn spec_is_again(self) -> bool {
        self.err_num == -11
    }

    pub fn is_again(&self) -> (r: bool)
        ensures
            r == self.spec_is_again(),
    {
        self.err_num == -11
    }

    /// The end-of-stream code.
    pub open spec fn spec_is_eof(self) -> bool {
        self.err_num == AVERROR_EOF
    }

    pub fn is_eof(&self) -> (r: bool)
        ensures
            r == self.spec_is_eof(),
    {
        self.err_num == AVERROR_EOF
    }

    /// The two codes that mean "not now" rather than failure.
    pub open spec fn spec_is_again_or_eof(self) -> bool {
        self.spec_is_again() || self.spec_is_eof()
    }

    pub fn is_again_or_eof(&self) -> (r: bool)
        ensures
            r == self.spec_is_again_or_eof(),
    {
        self.is_again() || self.is_eof()
    }
}

impl From<InternalError> for Error {
    fn from(e: InternalError) -> (r: Error) {
        Error { repr: Box::new(ErrorRepr::Internal(e)) }
    }
}

impl vstd::std_specs::convert::FromSpecImpl<InternalError> for Error {
    open spec fn obeys_from_spec() -> bool {
        true
    }

    open spec fn from_spec(e: InternalError) -> Error {
        Error { repr: Box::new(ErrorRepr::Internal(e)) }
    }
}

impl From<UnsupportedSampleFormatError> for Error {
    fn from(e: UnsupportedSampleFormatError) -> (r: Error) {
        Error { repr: Box::new(ErrorRepr::UnsupportedSampleFormat(e)) }
    }
}

impl vstd::std_specs::convert::FromSpecImpl<UnsupportedSampleFormatError> for Error {
    open spec fn obeys_from_spec() -> bool {
        true
    }

    open spec fn from_spec(e: UnsupportedSampleFormatError) -> Error {
        Error { repr: Box::new(ErrorRepr::UnsupportedSampleFormat(e)) }
    }
}

} // verus!
