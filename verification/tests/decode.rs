use photobooth::DecodeError;
use photobooth::decode_jpeg_slice;
use photobooth::parse_header_dims;

fn encode_jpeg(pixels: &[u8], width: u32, height: u32, color: image::ExtendedColorType) -> Vec<u8> {
    let mut buf: Vec<u8> = Vec::new();
    let mut encoder = image::codecs::jpeg::JpegEncoder::new_with_quality(&mut buf, 100);
    encoder.encode(pixels, width, height, color).unwrap();
    buf
}

fn solid_rgb(width: u32, height: u32, rgb: [u8; 3]) -> Vec<u8> {
    let mut pixels = Vec::new();
    for _ in 0..width * height {
        pixels.extend_from_slice(&rgb);
    }
    pixels
}

#[test]
fn decode_rgb_fixture_has_full_rgba_buffer() {
    let jpeg = encode_jpeg(&solid_rgb(5, 3, [10, 200, 30]), 5, 3, image::ExtendedColorType::Rgb8);
    let img = decode_jpeg_slice(&jpeg).unwrap();
    assert_eq!(img.width(), 5);
    assert_eq!(img.height(), 3);
    assert_eq!(img.into_buffer().len(), 5 * 3 * 4);
}

#[test]
fn decode_grayscale_fixture_still_yields_four_channels() {
    let pixels = vec![128u8; 4 * 2];
    let jpeg = encode_jpeg(&pixels, 4, 2, image::ExtendedColorType::L8);
    let img = decode_jpeg_slice(&jpeg).unwrap();
    assert_eq!(img.width(), 4);
    assert_eq!(img.height(), 2);
    let buf = img.into_buffer();
    assert_eq!(buf.len(), 4 * 2 * 4);
    for px in buf.chunks(4) {
        // a grayscale source gets an opaque alpha channel
        assert_eq!(px[3], 255);
    }
}

#[test]
fn decode_header_reports_intrinsic_dimensions() {
    let jpeg = encode_jpeg(&solid_rgb(7, 11, [1, 2, 3]), 7, 11, image::ExtendedColorType::Rgb8);
    assert_eq!(parse_header_dims(&jpeg), Some((7, 11)));
}

#[test]
fn decode_zero_length_input_is_bad_header() {
    let r = decode_jpeg_slice(&[]);
    assert_eq!(r.err().unwrap(), DecodeError::BadHeader);
}

#[test]
fn decode_wrong_magic_bytes_is_bad_header() {
    let r = decode_jpeg_slice(b"not a jpeg stream at all");
    assert_eq!(r.err().unwrap(), DecodeError::BadHeader);
}

#[test]
fn decode_truncated_header_is_bad_header() {
    let jpeg = encode_jpeg(&solid_rgb(5, 5, [9, 9, 9]), 5, 5, image::ExtendedColorType::Rgb8);
    // cut the stream off inside the first marker segment
    let r = decode_jpeg_slice(&jpeg[..4]);
    assert_eq!(r.err().unwrap(), DecodeError::BadHeader);
}

#[test]
fn decode_malformed_input_never_yields_a_buffer() {
    let inputs: Vec<Vec<u8>> = vec![
        Vec::new(),
        vec![0xFF],
        vec![0xFF, 0xD8],
        vec![0xFF, 0xD8, 0xFF],
        b"GIF89a not a jpeg".to_vec(),
    ];
    for bytes in inputs {
        assert!(decode_jpeg_slice(&bytes).is_err());
    }
}

#[test]
fn decode_twice_yields_bit_identical_buffers() {
    let jpeg = encode_jpeg(&solid_rgb(6, 6, [40, 80, 120]), 6, 6, image::ExtendedColorType::Rgb8);
    let first = decode_jpeg_slice(&jpeg).unwrap();
    let second = decode_jpeg_slice(&jpeg).unwrap();
    assert_eq!(first.width(), second.width());
    assert_eq!(first.height(), second.height());
    assert_eq!(first.into_buffer(), second.into_buffer());
}
