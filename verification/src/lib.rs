//! The decoding abstraction of an audio playback pipeline: a packet type that
//! carries either decoded samples or an undecoded raw frame, a backend-tagged
//! error taxonomy, format-family classifiers, and the seek/read contract every
//! decoder backend satisfies. Two in-memory backends exercise the contract end
//! to end.

pub mod backends;
pub mod decoder;
pub mod error;
pub mod format;
pub mod packet;

pub use backends::PassthroughDecoder;
pub use backends::SampleStreamDecoder;
pub use decoder::AudioDecoder;
pub use error::DecoderError;
pub use error::DecoderResult;
pub use format::AudioFileFormat;
pub use packet::AudioPacket;
pub use packet::AudioPacketError;
pub use packet::AudioPacketResult;
pub use packet::PacketData;
