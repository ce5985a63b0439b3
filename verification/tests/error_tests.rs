use audio_decoder::DecoderError;

#[test]
fn passthrough_error_message_names_backend_and_diagnostic() {
    let err = DecoderError::PassthroughDecoder("stream ended mid-page".to_string());
    let text = err.message();
    assert_eq!(text, "Passthrough Decoder Error: stream ended mid-page");
}

#[test]
fn symphonia_error_message_names_backend_and_diagnostic() {
    let err = DecoderError::SymphoniaDecoder("invalid header".to_string());
    let text = err.message();
    assert_eq!(text, "Symphonia Decoder Error: invalid header");
    assert!(text.contains("Symphonia Decoder Error"));
    assert!(text.contains("invalid header"));
}

#[test]
fn symphonia_library_error_becomes_the_full_decode_variant() {
    let inner = symphonia::core::errors::Error::DecodeError("invalid header");
    let err = DecoderError::from(inner);
    assert!(matches!(err, DecoderError::SymphoniaDecoder(_)));
    let text = err.message();
    assert!(text.contains("Symphonia Decoder Error"));
    assert!(text.contains("invalid header"));
    assert_eq!(text, "Symphonia Decoder Error: malformed stream: invalid header");
}

#[test]
fn symphonia_io_error_still_lands_in_the_full_decode_variant() {
    let io = std::io::Error::new(std::io::ErrorKind::UnexpectedEof, "stream cut short");
    let err = DecoderError::from(symphonia::core::errors::Error::IoError(io));
    assert!(matches!(err, DecoderError::SymphoniaDecoder(_)));
    let text = err.message();
    assert!(text.starts_with("Symphonia Decoder Error: "));
    assert!(text.contains("stream cut short"));
}

#[test]
fn symphonia_seek_error_keeps_its_diagnostic() {
    let inner =
        symphonia::core::errors::Error::SeekError(symphonia::core::errors::SeekErrorKind::OutOfRange);
    let err = DecoderError::from(inner);
    let text = err.message();
    assert_eq!(
        text,
        "Symphonia Decoder Error: seek error: requested seek timestamp is out-of-range for stream"
    );
}
