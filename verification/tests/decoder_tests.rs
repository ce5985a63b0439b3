use audio_decoder::backends::PassthroughDecoder;
use audio_decoder::backends::SampleStreamDecoder;
use audio_decoder::AudioDecoder;
use audio_decoder::AudioFileFormat;
use audio_decoder::DecoderError;

#[test]
fn ogg_vorbis_family_classifies_every_bitrate_variant() {
    let family = [
        AudioFileFormat::OGG_VORBIS_96,
        AudioFileFormat::OGG_VORBIS_160,
        AudioFileFormat::OGG_VORBIS_320,
    ];
    for format in family {
        assert!(<PassthroughDecoder as AudioDecoder>::is_ogg_vorbis(format));
        assert!(!<PassthroughDecoder as AudioDecoder>::is_mp3(format));
    }
}

#[test]
fn mp3_family_classifies_every_plain_bitrate_variant() {
    let family = [
        AudioFileFormat::MP3_96,
        AudioFileFormat::MP3_160,
        AudioFileFormat::MP3_256,
        AudioFileFormat::MP3_320,
    ];
    for format in family {
        assert!(<SampleStreamDecoder as AudioDecoder>::is_mp3(format));
        assert!(!<SampleStreamDecoder as AudioDecoder>::is_ogg_vorbis(format));
    }
}

#[test]
fn formats_outside_both_families_are_claimed_by_neither() {
    let outside = [
        AudioFileFormat::MP3_160_ENC,
        AudioFileFormat::AAC_24,
        AudioFileFormat::AAC_48,
        AudioFileFormat::FLAC_FLAC,
    ];
    for format in outside {
        assert!(!<PassthroughDecoder as AudioDecoder>::is_ogg_vorbis(format));
        assert!(!<PassthroughDecoder as AudioDecoder>::is_mp3(format));
    }
}

#[test]
fn passthrough_three_pages_come_out_in_order_then_none() {
    let pages = vec![vec![1u8, 1], vec![2u8, 2], vec![3u8, 3]];
    let mut decoder = PassthroughDecoder::new(pages.clone());
    for expected in &pages {
        let packet = decoder.next_packet().unwrap().expect("a page was due");
        assert_eq!(packet.oggdata().unwrap(), expected.as_slice());
    }
    assert!(decoder.next_packet().unwrap().is_none());
}

#[test]
fn end_of_stream_repeats_none_until_a_seek_rewinds() {
    let mut decoder = PassthroughDecoder::new(vec![vec![9u8]]);
    assert!(decoder.next_packet().unwrap().is_some());
    assert!(decoder.next_packet().unwrap().is_none());
    assert!(decoder.next_packet().unwrap().is_none());
    assert!(decoder.next_packet().unwrap().is_none());
    assert_eq!(decoder.seek(0).unwrap(), 0);
    let packet = decoder.next_packet().unwrap().expect("delivery resumes after the seek");
    assert_eq!(packet.oggdata().unwrap(), &[9u8]);
}

#[test]
fn seek_beyond_the_end_fails_with_the_backend_error() {
    let mut passthrough = PassthroughDecoder::new(vec![vec![1u8], vec![2u8]]);
    let err = passthrough.seek(3).unwrap_err();
    assert!(matches!(err, DecoderError::PassthroughDecoder(_)));
    assert!(err.message().starts_with("Passthrough Decoder Error: "));

    let mut samples = SampleStreamDecoder::new(vec![vec![0.0f64.to_bits()]]);
    let err = samples.seek(2).unwrap_err();
    assert!(matches!(err, DecoderError::SymphoniaDecoder(_)));
    assert!(err.message().starts_with("Symphonia Decoder Error: "));
}

#[test]
fn seek_to_a_reachable_position_lands_there() {
    let mut decoder = PassthroughDecoder::new(vec![vec![1u8], vec![2u8], vec![3u8]]);
    assert_eq!(decoder.seek(2).unwrap(), 2);
    let packet = decoder.next_packet().unwrap().expect("a page was due");
    assert_eq!(packet.oggdata().unwrap(), &[3u8]);
    assert!(decoder.next_packet().unwrap().is_none());
}

#[test]
fn full_decode_seek_then_next_yields_nonempty_samples() {
    let frame: Vec<u64> = [0.25f64, -0.5, 0.75].iter().map(|a| a.to_bits()).collect();
    let mut decoder = SampleStreamDecoder::new(vec![frame.clone()]);
    assert_eq!(decoder.seek(0).unwrap(), 0);
    let packet = decoder.next_packet().unwrap().expect("a frame was due");
    let got = packet.samples().unwrap();
    assert!(got.len() > 0);
    assert_eq!(got, frame.as_slice());
    assert_eq!(f64::from_bits(got[1]), -0.5f64);
}

#[test]
fn rewind_and_pull_yields_the_first_frame() {
    let first: Vec<u64> = [0.5f64, 0.25].iter().map(|a| a.to_bits()).collect();
    let mut decoder = SampleStreamDecoder::new(vec![first.clone(), vec![0.75f64.to_bits()]]);
    assert!(decoder.next_packet().unwrap().is_some());
    assert!(decoder.next_packet().unwrap().is_some());
    let packet = decoder.rewind_and_pull().unwrap().expect("the first frame was due");
    let got = packet.samples().unwrap();
    assert!(got.len() > 0);
    assert_eq!(got, first.as_slice());
}

#[test]
fn sample_stream_ends_with_none_and_no_error() {
    let mut decoder = SampleStreamDecoder::new(vec![
        vec![0.1f64.to_bits()],
        vec![0.2f64.to_bits()],
    ]);
    assert!(decoder.next_packet().unwrap().is_some());
    assert!(decoder.next_packet().unwrap().is_some());
    assert!(decoder.next_packet().unwrap().is_none());
    assert!(decoder.next_packet().unwrap().is_none());
}
