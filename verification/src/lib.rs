//! Core of a media container/codec framework: a unified I/O abstraction over
//! seekable and forward-only byte resources, explicit plugin registries for
//! decoders, encoders and demuxers, content probing, and a stateful per-track
//! packet transcoding pipeline.
pub mod codec;
pub mod error;
pub mod format;
pub mod io;
pub mod media;
pub mod pipeline;
pub mod span;

pub use codec::find_decoder_for_track;
pub use codec::find_encoder_with_params;
pub use error::CodecError;
pub use error::MediaError;
pub use format::find_demuxer;
pub use format::probe;
pub use io::Io;
pub use media::Fraction;
pub use media::MediaInfo;
pub use media::MediaTime;
pub use media::Packet;
pub use media::Track;
pub use pipeline::PacketTranscoder;
pub use pipeline::Transcode;
pub use pipeline::process_transcode;
pub use span::Span;
