use base64::Engine;
use cliptrack::image_pipeline::{process_image_data, PipelineError};

#[test]
fn valid_4x4_buffer_round_trips_through_png() {
    let rgba: Vec<u8> = (0..64u32).map(|i| (i * 3 % 251) as u8).collect();
    let out = process_image_data(&rgba, 4, 4).expect("encoding should succeed");
    let (b64, format, dims) = out;
    assert_eq!(format, "png");
    assert_eq!(dims, (4, 4));
    assert!(!b64.is_empty());

    let png = base64::engine::general_purpose::STANDARD.decode(&b64).expect("valid base64");
    assert!(!png.is_empty());
    // the PNG signature
    assert_eq!(&png[..4], &[0x89, b'P', b'N', b'G']);

    // decoding gives back the exact pixels
    let img = image::load_from_memory(&png).expect("valid png");
    let rgba_back = img.to_rgba8();
    assert_eq!(rgba_back.dimensions(), (4, 4));
    assert_eq!(rgba_back.into_raw(), rgba);
}

#[test]
fn wrong_length_fails_with_invalid_buffer() {
    let rgba = vec![0u8; 63];
    let r = process_image_data(&rgba, 4, 4);
    assert!(matches!(r, Err(PipelineError::InvalidBuffer)));

    let r = process_image_data(&Vec::new(), 1, 1);
    assert!(matches!(r, Err(PipelineError::InvalidBuffer)));
}

#[test]
fn zero_dimensions_fail_with_encode_error() {
    // a zero-by-zero buffer has the right length (0), so the failure comes
    // from the encoder, not from the length check
    let r = process_image_data(&Vec::new(), 0, 0);
    assert!(matches!(r, Err(PipelineError::EncodeFailed(_))));
}

#[test]
fn every_nonzero_valid_buffer_encodes() {
    for (w, h) in [(1u32, 1u32), (1, 7), (5, 3)] {
        let rgba = vec![9u8; (w * h * 4) as usize];
        assert!(process_image_data(&rgba, w, h).is_ok());
    }
}

#[test]
fn dimensions_are_taken_at_face_value() {
    // 2x3 needs 24 bytes; 24 bytes with swapped dimensions still encodes
    let rgba = vec![128u8; 24];
    let out = process_image_data(&rgba, 3, 2).expect("encoding should succeed");
    assert_eq!(out.2, (3, 2));
}
