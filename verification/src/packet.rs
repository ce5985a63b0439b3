//! One unit of decoder output: decoded samples or an undecoded raw frame.

use vstd::prelude::*;

verus! {

/// Accessor misuse: the caller asked a packet for the other variant's payload.
/// This is a caller/backend mismatch, not a decode failure.
#[derive(Clone, Copy, Debug, PartialEq, Eq, Structural)]
pub enum AudioPacketError {
    /// `samples` was called on a `Raw` packet.
    Raw,
    /// `oggdata` was called on a `Samples` packet.
    Samples,
}

pub type AudioPacketResult<T> = Result<T, AudioPacketError>;

/// The fixed diagnostic text of each accessor-misuse error.
pub open spec fn spec_misuse_message(e: AudioPacketError) -> Seq<char> {
    match e {
        AudioPacketError::Raw => "Decoder Raw Error: Can't return Raw on Samples"@,
        AudioPacketError::Samples => "Decoder Samples Error: Can't return Samples on Raw"@,
    }
}

impl AudioPacketError {
    /// Render the misuse for display: which accessor was called on which
    /// variant.
    pub fn message(&self) -> (r: String)
        ensures
            r@ == spec_misuse_message(*self),
    {
        match self {
            AudioPacketError::Raw => "Decoder Raw Error: Can't return Raw on Samples".to_owned(),
            AudioPacketError::Samples => {
                "Decoder Samples Error: Can't return Samples on Raw".to_owned()
            },
        }
    }
}

/// The mathematical content of a packet: which variant is active and the
/// sequence it carries.
pub enum PacketData {
    Samples(Seq<u64>),
    Raw(Seq<u8>),
}

impl PacketData {
    /// A packet's content is empty when the active variant's sequence has
    /// length zero, whichever variant that is.
    pub open spec fn is_empty(self) -> bool {
        match self {
            PacketData::Samples(s) => s.len() == 0,
            PacketData::Raw(b) => b.len() == 0,
        }
    }
}

/// One unit of decoder output. `Samples` carries PCM samples, each held as the
/// 64-bit pattern of the floating-point amplitude, bit for bit; `Raw` carries
/// an undecoded frame (an Ogg page, say) to be forwarded untouched. A packet
/// is exactly one variant: asking for the other one fails loudly instead of
/// converting.
pub enum AudioPacket {
    Samples(Vec<u64>),
    Raw(Vec<u8>),
}

impl View for AudioPacket {
    type V = PacketData;

    open spec fn view(&self) -> PacketData {
        match self {
            AudioPacket::Samples(s) => PacketData::Samples(s@),
            AudioPacket::Raw(b) => PacketData::Raw(b@),
        }
    }
}

impl AudioPacket {
    /// A read-only view of the sample sequence; fails with
    /// `AudioPacketError::Raw` when the packet carries a raw frame instead.
    pub fn samples(&self) -> (r: AudioPacketResult<&[u64]>)
        ensures
            match self@ {
                PacketData::Samples(s) => r matches Ok(v) && v@ == s,
                PacketData::Raw(_) => r == Err::<&[u64], _>(AudioPacketError::Raw),
            },
    {
        match self {
            AudioPacket::Samples(s) => Ok(s.as_slice()),
            AudioPacket::Raw(_) => Err(AudioPacketError::Raw),
        }
    }

    /// A read-only view of the raw byte sequence; fails with
    /// `AudioPacketError::Samples` when the packet carries samples instead.
    pub fn oggdata(&self) -> (r: AudioPacketResult<&[u8]>)
        ensures
            match self@ {
                PacketData::Raw(b) => r matches Ok(v) && v@ == b,
                PacketData::Samples(_) => r == Err::<&[u8], _>(AudioPacketError::Samples),
            },
    {
        match self {
            AudioPacket::Raw(d) => Ok(d.as_slice()),
            AudioPacket::Samples(_) => Err(AudioPacketError::Samples),
        }
    }

    /// Whether the active variant's sequence has length zero; never fails,
    /// whichever variant is active.
    pub fn is_empty(&self) -> (r: bool)
        ensures
            r == self@.is_empty(),
    {
        match self {
            AudioPacket::Samples(s) => s.len() == 0,
            AudioPacket::Raw(d) => d.len() == 0,
        }
    }
}

} // verus!
