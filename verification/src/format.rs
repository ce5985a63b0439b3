//! The encoded-format enumeration and the family classifiers' specification.

use vstd::prelude::*;

verus! {

/// The concrete encoded formats a source file may arrive in. Callers use the
/// family classifiers over this enumeration to pick a decoder backend.
#[allow(non_camel_case_types)]
#[derive(Clone, Copy, Debug, PartialEq, Eq, Structural)]
pub enum AudioFileFormat {
    OGG_VORBIS_96,
    OGG_VORBIS_160,
    OGG_VORBIS_320,
    MP3_96,
    MP3_160,
    MP3_160_ENC,
    MP3_256,
    MP3_320,
    AAC_24,
    AAC_48,
    FLAC_FLAC,
}

/// The Ogg Vorbis family: every declared Vorbis bitrate variant.
pub open spec fn spec_is_ogg_vorbis(format: AudioFileFormat) -> bool {
    match format {
        AudioFileFormat::OGG_VORBIS_96 => true,
        AudioFileFormat::OGG_VORBIS_160 => true,
        AudioFileFormat::OGG_VORBIS_320 => true,
        _ => false,
    }
}

/// The MP3 family: every declared plain MP3 bitrate variant. The encrypted
/// variant stays outside the family: no backend decodes it directly.
pub open spec fn spec_is_mp3(format: AudioFileFormat) -> bool {
    match format {
        AudioFileFormat::MP3_96 => true,
        AudioFileFormat::MP3_160 => true,
        AudioFileFormat::MP3_256 => true,
        AudioFileFormat::MP3_320 => true,
        _ => false,
    }
}

/// No format belongs to both the Ogg Vorbis family and the MP3 family; a
/// format outside both families is claimed by neither classifier.
pub proof fn lemma_format_families_disjoint(format: AudioFileFormat)
    ensures
        !(spec_is_ogg_vorbis(format) && spec_is_mp3(format)),
{
}

} // verus!
