//! Error taxonomy of the pipeline: one boxed representation that every
//! layer's failure converts into.

use vstd::prelude::*;

use crate::alsa;
use crate::audio_saver;

verus! {

/// Any failure the pipeline surfaces.
#[derive(Debug)]
pub struct Error {
    pub repr: Box<ErrorRepr>,
}

/// The layers a failure can come from.
#[derive(Debug)]
pub enum ErrorRepr {
    FileError(FileError),
    IoError(IoError),
    Utf8(String),
    AudioSaverError(audio_saver::Error),
    Alsa(alsa::AlsaError),
}

/// Failure against a named file.
#[derive(Debug)]
pub struct FileError {
    pub fname: String,
    pub message: String,
}

/// Failure of a socket, poll or other input/output resource, with the
/// operation it interrupted.
#[derive(Debug)]
pub struct IoError {
    pub context: String,
    pub message: String,
}

impl Error {
    pub fn get_repr(&self) -> (r: &ErrorRepr)
        ensures
            r == &*self.repr,
    {
        &self.repr
    }
}

impl FileError {
    pub fn create(fname: String, message: String) -> (r: FileError)
        ensures
            r.fname@ == fname@,
            r.message@ == message@,
    {
        FileError { fname, message }
    }
}

impl IoError {
    pub fn new(context: String, message: String) -> (r: IoError)
        ensures
            r.context@ == context@,
            r.message@ == message@,
    {
        IoError { context, message }
    }
}

impl From<ErrorRepr> for Error {
    fn from(e: ErrorRepr) -> (r: Error) {
        Error { repr: Box::new(e) }
    }
}

impl vstd::std_specs::convert::FromSpecImpl<ErrorRepr> for Error {
    open spec fn obeys_from_spec() -> bool {
        true
    }

    open spec fn from_spec(e: ErrorRepr) -> Error {
        Error { repr: Box::new(e) }
    }
}

impl From<FileError> for Error {
    fn from(e: FileError) -> (r: Error) {
        Error { repr: Box::new(ErrorRepr::FileError(e)) }
    }
}

impl vstd::std_specs::convert::FromSpecImpl<FileError> for Error {
    open spec fn obeys_from_spec() -> bool {
        true
    }

    open spec fn from_spec(e: FileError) -> Error {
        Error { repr: Box::new(ErrorRepr::FileError(e)) }
    }
}

impl From<IoError> for Error {
    fn from(e: IoError) -> (r: Error) {
        Error { repr: Box::new(ErrorRepr::IoError(e)) }
    }
}

impl vstd::std_specs::convert::FromSpecImpl<IoError> for Error {
    open spec fn obeys_from_spec() -> bool {
        true
    }

    open spec fn from_spec(e: IoError) -> Error {
        Error { repr: Box::new(ErrorRepr::IoError(e)) }
    }
}

impl From<audio_saver::Error> for Error {
    fn from(e: audio_saver::Error) -> (r: Error) {
        Error { repr: Box::new(ErrorRepr::AudioSaverError(e)) }
    }
}

impl vstd::std_specs::convert::FromSpecImpl<audio_saver::Error> for Error {
    open spec fn obeys_from_spec() -> bool {
        true
    }

    open spec fn from_spec(e: audio_saver::Error) -> Error {
        Error { repr: Box::new(ErrorRepr::AudioSaverError(e)) }
    }
}

impl From<alsa::AlsaError> for Error {
    fn from(e: alsa::AlsaError) -> (r: Error) {
        Error { repr: Box::new(ErrorRepr::Alsa(e)) }
    }
}

impl vstd::std_specs::convert::FromSpecImpl<alsa::AlsaError> for Error {
    open spec fn obeys_from_spec() -> bool {
        true
    }

    open spec fn from_spec(e: alsa::AlsaError) -> Error {
        Error { repr: Box::new(ErrorRepr::Alsa(e)) }
    }
}

} // verus!
