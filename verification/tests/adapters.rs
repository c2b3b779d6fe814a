use compression_native::codec::AdapterError;
use compression_native::codec::Codec;
use compression_native::dual_codec;
use compression_native::zstd_only;

#[test]
fn zstd_round_trip_hello_world() {
    let input: &[u8] = b"hello world";
    assert_eq!(input.len(), 11);
    let compressed = dual_codec::compress("zstd", input, 7).unwrap();
    assert_ne!(compressed.as_slice(), input);
    let restored = dual_codec::decompress("zstd", compressed.as_slice()).unwrap();
    assert_eq!(restored.len(), 11);
    assert_eq!(restored.as_slice(), input);
}

#[test]
fn bzip2_round_trip() {
    let input: Vec<u8> = (0u32..4096).map(|i| (i % 251) as u8).collect();
    let compressed = dual_codec::compress("bzip2", input.as_slice(), 6).unwrap();
    assert_ne!(compressed, input);
    let restored = dual_codec::decompress("bzip2", compressed.as_slice()).unwrap();
    assert_eq!(restored, input);
}

#[test]
fn zstd_only_round_trip() {
    let input: Vec<u8> = (0u32..10000).map(|i| (i % 7) as u8).collect();
    let compressed = zstd_only::compress(input.as_slice(), Some(3)).unwrap();
    assert_ne!(compressed, input);
    let restored = zstd_only::decompress(compressed.as_slice()).unwrap();
    assert_eq!(restored, input);
}

#[test]
fn unknown_selector_rejected_on_compress() {
    for name in ["gzip", "", "ZSTD", "bzip", "zstd "] {
        let r = dual_codec::compress(name, b"payload", 5);
        assert!(matches!(r, Err(AdapterError::UnknownCodec)));
    }
}

#[test]
fn unknown_selector_rejected_on_decompress() {
    for name in ["gzip", "", "Bzip2", "lz4"] {
        let r = dual_codec::decompress(name, b"payload");
        assert!(matches!(r, Err(AdapterError::UnknownCodec)));
    }
}

#[test]
fn decompress_is_deterministic() {
    let input: &[u8] = b"the same bytes, decoded twice, stay the same bytes";
    let compressed = dual_codec::compress("zstd", input, 7).unwrap();
    let first = dual_codec::decompress("zstd", compressed.as_slice()).unwrap();
    let second = dual_codec::decompress("zstd", compressed.as_slice()).unwrap();
    assert_eq!(first, second);
    assert_eq!(first.as_slice(), input);
}

#[test]
fn default_level_matches_explicit_seven() {
    let input: Vec<u8> = (0u32..2048).map(|i| (i % 13) as u8).collect();
    let with_default = zstd_only::compress(input.as_slice(), None).unwrap();
    let with_seven = zstd_only::compress(input.as_slice(), Some(7)).unwrap();
    assert_eq!(with_default, with_seven);
}

#[test]
fn empty_input_round_trips() {
    let empty: &[u8] = b"";
    for name in ["bzip2", "zstd"] {
        let frame = dual_codec::compress(name, empty, 7).unwrap();
        assert!(!frame.is_empty());
        let restored = dual_codec::decompress(name, frame.as_slice()).unwrap();
        assert!(restored.is_empty());
    }
    let frame = zstd_only::compress(empty, None).unwrap();
    assert!(!frame.is_empty());
    let restored = zstd_only::decompress(frame.as_slice()).unwrap();
    assert!(restored.is_empty());
}

#[test]
fn garbage_input_fails_to_decompress() {
    let garbage: &[u8] = b"this is not compressed data at all, not even close";
    let r = dual_codec::decompress("zstd", garbage);
    assert!(matches!(r, Err(AdapterError::CodecFailure(_))));
    let r = dual_codec::decompress("bzip2", garbage);
    assert!(matches!(r, Err(AdapterError::CodecFailure(_))));
    let r = zstd_only::decompress(garbage);
    assert!(matches!(r, Err(AdapterError::CodecFailure(_))));
}

#[test]
fn truncated_input_fails_to_decompress() {
    let input: Vec<u8> = (0u32..4096).map(|i| (i % 97) as u8).collect();
    let compressed = dual_codec::compress("zstd", input.as_slice(), 7).unwrap();
    let truncated = &compressed[..compressed.len() - 4];
    let r = dual_codec::decompress("zstd", truncated);
    assert!(matches!(r, Err(AdapterError::CodecFailure(_))));
}

#[test]
fn mutated_header_fails_to_decompress() {
    let input: &[u8] = b"a buffer whose compressed form will have its header ruined";
    for name in ["bzip2", "zstd"] {
        let mut compressed = dual_codec::compress(name, input, 7).unwrap();
        compressed[0] ^= 0xff;
        let r = dual_codec::decompress(name, compressed.as_slice());
        assert!(matches!(r, Err(AdapterError::CodecFailure(_))));
    }
}

#[test]
fn out_of_range_levels_are_usable() {
    // The underlying codecs clamp precise quality levels into their own
    // ranges, so extreme levels still produce decodable output.
    let input: &[u8] = b"clamped levels still round-trip";
    let high = dual_codec::compress("zstd", input, 1_000_000).unwrap();
    assert_eq!(dual_codec::decompress("zstd", high.as_slice()).unwrap().as_slice(), input);
    let low = dual_codec::compress("bzip2", input, 0).unwrap();
    assert_eq!(dual_codec::decompress("bzip2", low.as_slice()).unwrap().as_slice(), input);
}

#[test]
fn selector_parsing() {
    assert_eq!(Codec::parse("bzip2"), Some(Codec::Bzip2));
    assert_eq!(Codec::parse("zstd"), Some(Codec::Zstd));
    assert_eq!(Codec::parse("deflate"), None);
    assert_eq!(Codec::parse(""), None);
}

#[test]
fn error_messages() {
    let e = AdapterError::UnknownCodec;
    assert_eq!(e.message(), "Compression type");
    let e = AdapterError::CodecFailure(String::from("bad frame"));
    assert_eq!(e.message(), "bad frame");
}
