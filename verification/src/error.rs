//! Error values of the library.
use vstd::prelude::*;

use crate::io::IoError;

verus! {

/// A failure inside a decoder or encoder plugin, carrying a human-readable
/// message with context. The pipeline does not distinguish transient from
/// permanent codec failure: any failure during the decode/encode loop is
/// permanent for that track.
#[derive(Clone, Debug)]
pub struct CodecError {
    pub message: String,
}

/// A recoverable failure surfaced by registry lookup or probing, with the
/// requested name or the underlying condition as context.
#[derive(Debug)]
pub enum MediaError {
    /// No registered decoder matches the requested codec name.
    NoDecoder(String),
    /// No registered encoder matches the requested name.
    NoEncoder(String),
    /// No registered demuxer recognized the probed byte prefix.
    NoDemuxer,
    /// Probing could not read from the I/O resource.
    Probe(IoError),
    /// A decoder or encoder failed while starting or transcoding.
    Codec(CodecError),
}

} // verus!
