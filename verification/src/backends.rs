//! In-memory backends satisfying the decoding contract: one passthrough, one
//! sample-producing. Each delivers a fixed, already-demuxed or already-decoded
//! stream, which keeps the seek/read protocol itself fully checked while the
//! container parsing and bitstream decoding stay with outside collaborators.

use vstd::prelude::*;

use crate::decoder::AudioDecoder;
use crate::error::DecoderError;
use crate::error::DecoderResult;
use crate::packet::AudioPacket;
use crate::packet::PacketData;

verus! {

/// An element-for-element copy of a vector of plain values.
fn copy_elems<T: Copy>(src: &Vec<T>) -> (r: Vec<T>)
    ensures
        r@ == src@,
{
    let mut out: Vec<T> = Vec::new();
    let mut i: usize = 0;
    while i < src.len()
        invariant
            i <= src@.len(),
            out@ == src@.subrange(0, i as int),
        decreases src@.len() - i,
    {
        out.push(src[i]);
        i = i + 1;
        proof {
            assert(out@ =~= src@.subrange(0, i as int));
        }
    }
    proof {
        assert(out@ =~= src@);
    }
    out
}

/// The passthrough backend: it holds a container's raw pages in order and
/// forwards each one untouched as a `Raw` packet. Its granule positions are
/// page indices.
pub struct PassthroughDecoder {
    pages: Vec<Vec<u8>>,
    cursor: usize,
}

impl PassthroughDecoder {
    /// A passthrough decoder over the given pages, with the cursor at the
    /// stream's start.
    pub fn new(pages: Vec<Vec<u8>>) -> (r: Self)
        ensures
            r.inv(),
            r.cursor() == 0,
            r.stream() == pages@.map(|i: int, p: Vec<u8>| PacketData::Raw(p@)),
    {
        PassthroughDecoder { pages, cursor: 0 }
    }
}

impl AudioDecoder for PassthroughDecoder {
    closed spec fn stream(&self) -> Seq<PacketData> {
        self.pages@.map(|i: int, p: Vec<u8>| PacketData::Raw(p@))
    }

    closed spec fn cursor(&self) -> int {
        self.cursor as int
    }

    closed spec fn inv(&self) -> bool {
        self.cursor <= self.pages@.len()
    }

    fn seek(&mut self, absgp: u64) -> (r: Result<u64, DecoderError>)
        ensures
            absgp <= old(self).stream().len() ==> r == Ok::<u64, DecoderError>(absgp),
            absgp > old(self).stream().len() ==> (r matches Err(e) && e is PassthroughDecoder),
    {
        if absgp > self.pages.len() as u64 {
            Err(DecoderError::PassthroughDecoder(
                "seek target is beyond the end of the stream".to_owned(),
            ))
        } else {
            self.cursor = absgp as usize;
            Ok(absgp)
        }
    }

    fn next_packet(&mut self) -> (r: DecoderResult<Option<AudioPacket>>)
        ensures
            old(self).cursor() < old(self).stream().len() ==> (r matches Ok(Some(pkt))
                && pkt@ == old(self).stream()[old(self).cursor()]),
            r is Ok,
    {
        if self.cursor < self.pages.len() {
            let page = copy_elems(&self.pages[self.cursor]);
            self.cursor = self.cursor + 1;
            Ok(Some(AudioPacket::Raw(page)))
        } else {
            Ok(None)
        }
    }
}

/// The sample-producing backend: it holds already-decoded PCM frames in order
/// and delivers each one as a `Samples` packet. Its granule positions are
/// frame indices.
pub struct SampleStreamDecoder {
    frames: Vec<Vec<u64>>,
    cursor: usize,
}

impl SampleStreamDecoder {
    /// A sample-stream decoder over the given frames, with the cursor at the
    /// stream's start.
    pub fn new(frames: Vec<Vec<u64>>) -> (r: Self)
        ensures
            r.inv(),
            r.cursor() == 0,
            r.stream() == frames@.map(|i: int, f: Vec<u64>| PacketData::Samples(f@)),
    {
        SampleStreamDecoder { frames, cursor: 0 }
    }

    /// Seek back to the stream's start, then pull one packet. Over a
    /// non-empty stream whose first frame holds at least one sample, this
    /// always yields that first frame as a non-empty `Samples` packet. A
    /// zero-length first frame is the one stream shape left out: it would
    /// come back as an empty packet.
    pub fn rewind_and_pull(&mut self) -> (r: DecoderResult<Option<AudioPacket>>)
        requires
            old(self).inv(),
            old(self).stream().len() > 0,
            old(self).stream()[0] matches PacketData::Samples(s) && s.len() > 0,
        ensures
            final(self).inv(),
            final(self).stream() == old(self).stream(),
            final(self).cursor() == 1,
            r matches Ok(Some(p)) && p@ == old(self).stream()[0]
                && (p@ matches PacketData::Samples(s) && s.len() > 0),
    {
        let _reached = self.seek(0);
        self.next_packet()
    }
}

impl AudioDecoder for SampleStreamDecoder {
    closed spec fn stream(&self) -> Seq<PacketData> {
        self.frames@.map(|i: int, f: Vec<u64>| PacketData::Samples(f@))
    }

    closed spec fn cursor(&self) -> int {
        self.cursor as int
    }

    closed spec fn inv(&self) -> bool {
        self.cursor <= self.frames@.len()
    }

    fn seek(&mut self, absgp: u64) -> (r: Result<u64, DecoderError>)
        ensures
            absgp <= old(self).stream().len() ==> r == Ok::<u64, DecoderError>(absgp),
            absgp > old(self).stream().len() ==> (r matches Err(e) && e is SymphoniaDecoder),
    {
        if absgp > self.frames.len() as u64 {
            Err(DecoderError::SymphoniaDecoder(
                "seek target is beyond the end of the stream".to_owned(),
            ))
        } else {
            self.cursor = absgp as usize;
            Ok(absgp)
        }
    }

    fn next_packet(&mut self) -> (r: DecoderResult<Option<AudioPacket>>)
        ensures
            old(self).cursor() < old(self).stream().len() ==> (r matches Ok(Some(pkt))
                && pkt@ == old(self).stream()[old(self).cursor()]),
            r is Ok,
    {
        if self.cursor < self.frames.len() {
            let frame = copy_elems(&self.frames[self.cursor]);
            self.cursor = self.cursor + 1;
            Ok(Some(AudioPacket::Samples(frame)))
        } else {
            Ok(None)
        }
    }
}

} // verus!
