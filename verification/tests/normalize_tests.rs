use auto_ocr::normalize::{
    finish_encoding, normalize, normalize_image, strip_alpha, CapturedImage, EncodedImage,
    NormalizeError,
};

const PNG_SIGNATURE: [u8; 8] = [0x89, b'P', b'N', b'G', 0x0D, 0x0A, 0x1A, 0x0A];

fn decode_rgb(bytes: &[u8]) -> (u32, u32, Vec<u8>) {
    let decoded = image::load_from_memory(bytes).unwrap().to_rgb8();
    (decoded.width(), decoded.height(), decoded.into_raw())
}

#[test]
fn strip_alpha_keeps_first_three_of_each_group() {
    let pixels = [1u8, 2, 3, 4, 5, 6, 7, 8, 9, 10, 11, 12];
    assert_eq!(strip_alpha(&pixels), Ok(vec![1, 2, 3, 5, 6, 7, 9, 10, 11]));
}

#[test]
fn strip_alpha_gives_three_quarters_of_the_length() {
    for groups in 0usize..40 {
        let pixels: Vec<u8> = (0..groups * 4).map(|i| (i % 251) as u8).collect();
        let rgb = strip_alpha(&pixels).unwrap();
        assert_eq!(rgb.len() * 4, pixels.len() * 3);
        for (g, chunk) in rgb.chunks(3).enumerate() {
            assert_eq!(chunk, &pixels[g * 4..g * 4 + 3]);
        }
    }
}

#[test]
fn strip_alpha_of_nothing_is_nothing() {
    assert_eq!(strip_alpha(&[]), Ok(vec![]));
}

#[test]
fn strip_alpha_refuses_partial_pixels() {
    for len in [1usize, 2, 3, 5, 6, 7, 9, 1023] {
        let pixels = vec![7u8; len];
        assert_eq!(strip_alpha(&pixels), Err(NormalizeError::BufferSizeMismatch));
    }
}

#[test]
fn normalize_refuses_partial_pixels() {
    let pixels = vec![255u8; 17];
    assert_eq!(normalize(&pixels, 2, 2), Err(NormalizeError::BufferSizeMismatch));
    assert_eq!(normalize(&pixels[..5], 1, 1), Err(NormalizeError::BufferSizeMismatch));
}

#[test]
fn normalize_encodes_white_square_as_png() {
    let pixels = vec![255u8; 16];
    let encoded = normalize(&pixels, 2, 2).unwrap();
    assert_ne!(encoded.bytes, vec![255u8; 12]);
    assert_eq!(&encoded.bytes[..8], &PNG_SIGNATURE);
    assert_eq!(decode_rgb(&encoded.bytes), (2, 2, vec![255u8; 12]));
}

#[test]
fn normalize_keeps_geometry_and_colour() {
    let pixels: Vec<u8> = vec![
        10, 20, 30, 255, 40, 50, 60, 0, 70, 80, 90, 128, //
        1, 2, 3, 4, 5, 6, 7, 8, 9, 10, 11, 12,
    ];
    let encoded = normalize(&pixels, 3, 2).unwrap();
    assert_eq!(
        decode_rgb(&encoded.bytes),
        (3, 2, vec![10, 20, 30, 40, 50, 60, 70, 80, 90, 1, 2, 3, 5, 6, 7, 9, 10, 11])
    );
}

#[test]
fn normalize_is_repeatable() {
    let pixels: Vec<u8> = (0..64u8).collect();
    assert_eq!(normalize(&pixels, 4, 4), normalize(&pixels, 4, 4));
}

#[test]
fn normalize_fails_without_width_or_height() {
    assert_eq!(normalize(&[], 0, 0), Err(NormalizeError::EncodeFailed));
    assert_eq!(normalize(&[], 0, 5), Err(NormalizeError::EncodeFailed));
    assert_eq!(normalize(&[], 5, 0), Err(NormalizeError::EncodeFailed));
}

#[test]
fn normalize_fails_when_dimensions_do_not_describe_the_buffer() {
    let pixels = vec![0u8; 16];
    assert_eq!(normalize(&pixels, 3, 2), Err(NormalizeError::EncodeFailed));
    assert_eq!(normalize(&pixels, 1, 2), Err(NormalizeError::EncodeFailed));
    assert_eq!(normalize(&pixels, usize::MAX, 2), Err(NormalizeError::EncodeFailed));
    assert_eq!(normalize(&pixels, usize::MAX, usize::MAX), Err(NormalizeError::EncodeFailed));
}

#[test]
fn normalize_image_uses_the_image_dimensions() {
    let image = CapturedImage { width: 1, height: 2, bytes: vec![9, 8, 7, 255, 6, 5, 4, 255] };
    let encoded = normalize_image(&image).unwrap();
    assert_eq!(decode_rgb(&encoded.bytes), (1, 2, vec![9, 8, 7, 6, 5, 4]));
    let wrong = CapturedImage { width: 2, height: 2, bytes: vec![9, 8, 7, 255, 6, 5, 4, 255] };
    assert_eq!(normalize_image(&wrong), Err(NormalizeError::EncodeFailed));
}

#[test]
fn finish_encoding_maps_both_outcomes() {
    assert_eq!(finish_encoding(Some(vec![1, 2, 3])), Ok(EncodedImage { bytes: vec![1, 2, 3] }));
    assert_eq!(finish_encoding(None), Err(NormalizeError::EncodeFailed));
}
