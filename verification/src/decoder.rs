//! The decoding contract: seek and pull-next-packet over an abstract stream,
//! with the format-family classifiers every backend inherits.

use vstd::prelude::*;

use crate::error::DecoderError;
use crate::error::DecoderResult;
use crate::format::AudioFileFormat;
use crate::format::spec_is_mp3;
use crate::format::spec_is_ogg_vorbis;
use crate::packet::AudioPacket;
use crate::packet::PacketData;

verus! {

/// The contract every decoder backend satisfies. An instance stands for a
/// fixed stream of packets, delivered in order by `next_packet` from a cursor
/// that `seek` repositions. The granule position handed to `seek` is the index
/// of the packet the cursor lands on. End-of-stream is not a failure: once the
/// cursor reaches the stream's end, `next_packet` keeps returning `None`
/// without error until a successful `seek` moves the cursor back, after which
/// delivery resumes.
pub trait AudioDecoder: Sized {
    /// The whole stream this instance delivers, as packet contents in
    /// delivery order. It is fixed for the instance's life: neither `seek`
    /// nor `next_packet` changes it.
    spec fn stream(&self) -> Seq<PacketData>;

    /// The index of the next packet to deliver.
    spec fn cursor(&self) -> int;

    /// The instance's well-formedness, established by its constructor and
    /// preserved by `seek` and `next_packet`.
    spec fn inv(&self) -> bool;

    /// Move the decode cursor to the given absolute granule position. On
    /// success the position actually reached is returned; it may fall short
    /// of the request where the backend's granularity demands it, and the
    /// cursor then stands there. A request beyond the stream's end fails with
    /// the backend's `DecoderError`, and a failed seek leaves the cursor
    /// where it was.
    fn seek(&mut self, absgp: u64) -> (r: Result<u64, DecoderError>)
        requires
            old(self).inv(),
        ensures
            final(self).inv(),
            final(self).stream() == old(self).stream(),
            absgp > old(self).stream().len() ==> r is Err,
            r is Err ==> final(self).cursor() == old(self).cursor(),
            r matches Ok(reached) ==> reached <= absgp
                && final(self).cursor() == reached as int
                && 0 <= final(self).cursor() <= final(self).stream().len(),
    ;

    /// Pull the next unit of output. With the cursor before the stream's end
    /// the packet at the cursor is delivered and the cursor advances by one;
    /// at the end, `None` is returned and the cursor stays, so repeated calls
    /// keep returning `None` without error. A failure leaves the cursor where
    /// it was.
    fn next_packet(&mut self) -> (r: DecoderResult<Option<AudioPacket>>)
        requires
            old(self).inv(),
        ensures
            final(self).inv(),
            final(self).stream() == old(self).stream(),
            old(self).cursor() >= old(self).stream().len() ==> (r matches Ok(p) && p is None
                && final(self).cursor() == old(self).cursor()),
            r matches Ok(Some(pkt)) ==> 0 <= old(self).cursor() < old(self).stream().len()
                && pkt@ == old(self).stream()[old(self).cursor()]
                && final(self).cursor() == old(self).cursor() + 1,
            (r matches Ok(p) && p is None) ==> old(self).cursor() >= old(self).stream().len(),
            r is Err ==> final(self).cursor() == old(self).cursor(),
    ;

    /// Whether the format belongs to the Ogg Vorbis family: true on every
    /// declared Vorbis bitrate variant and false elsewhere. Classification
    /// depends on the format value alone, so every backend inherits it.
    fn is_ogg_vorbis(format: AudioFileFormat) -> (r: bool)
        ensures
            r == spec_is_ogg_vorbis(format),
    {
        matches!(
            format,
            AudioFileFormat::OGG_VORBIS_320
                | AudioFileFormat::OGG_VORBIS_160
                | AudioFileFormat::OGG_VORBIS_96
        )
    }

    /// Whether the format belongs to the MP3 family: true on every declared
    /// plain MP3 bitrate variant and false elsewhere.
    fn is_mp3(format: AudioFileFormat) -> (r: bool)
        ensures
            r == spec_is_mp3(format),
    {
        matches!(
            format,
            AudioFileFormat::MP3_320
                | AudioFileFormat::MP3_256
                | AudioFileFormat::MP3_160
                | AudioFileFormat::MP3_96
        )
    }
}

} // verus!
