use base64::Engine;
use pip_clip::clip::ClipImage;
use pip_clip::thumbnail::{
    encode_png_data_url, image_to_png_base64, png_data_url, rgba_or_placeholder, PreviewError,
};

fn decode_url(url: &str) -> image::RgbaImage {
    let b64 = url.strip_prefix("data:image/png;base64,").expect("data URL prefix");
    let png = base64::engine::general_purpose::STANDARD.decode(b64).expect("base64");
    assert_eq!(&png[..8], b"\x89PNG\r\n\x1a\n");
    image::load_from_memory(&png).expect("png").to_rgba8()
}

fn pattern(w: usize, h: usize) -> Vec<u8> {
    (0..w * h * 4).map(|i| (i * 7 % 256) as u8).collect()
}

#[test]
fn placeholder_fills_short_buffers() {
    assert_eq!(rgba_or_placeholder(1, 2, vec![1, 2, 3]), vec![200, 200, 200, 255, 200, 200, 200, 255]);
    assert_eq!(rgba_or_placeholder(1, 1, vec![1, 2, 3, 4, 5]), vec![1, 2, 3, 4, 5]);
    assert_eq!(rgba_or_placeholder(0, 3, vec![]), Vec::<u8>::new());
}

#[test]
fn png_data_url_round_trips() {
    let px = pattern(3, 2);
    let url = png_data_url(&px, 3, 2).unwrap();
    let img = decode_url(&url);
    assert_eq!(img.dimensions(), (3, 2));
    assert_eq!(img.into_raw(), px);
}

#[test]
fn small_image_is_not_scaled() {
    let img = ClipImage { width: 4, height: 3, bytes: pattern(4, 3) };
    let url = encode_png_data_url(&img, 320, (1, 1)).unwrap();
    let back = decode_url(&url);
    assert_eq!(back.dimensions(), (4, 3));
    assert_eq!(back.into_raw(), img.bytes);
}

#[test]
fn large_image_is_scaled_to_given_size() {
    let img = ClipImage { width: 64, height: 32, bytes: pattern(64, 32) };
    let url = encode_png_data_url(&img, 16, (16, 8)).unwrap();
    assert_eq!(decode_url(&url).dimensions(), (16, 8));
}

#[test]
fn mismatched_buffer_gets_placeholder() {
    let img = ClipImage { width: 2, height: 2, bytes: vec![9, 9, 9] };
    let url = encode_png_data_url(&img, 320, (2, 2)).unwrap();
    let back = decode_url(&url);
    assert_eq!(back.into_raw(), vec![200, 200, 200, 255].repeat(4));
}

#[test]
fn empty_image_is_an_encoder_error() {
    let img = ClipImage { width: 0, height: 0, bytes: vec![] };
    assert_eq!(encode_png_data_url(&img, 320, (1, 1)), Err(PreviewError::Png));
}

#[test]
fn older_entry_point_encodes_and_scales() {
    let img = ClipImage { width: 5, height: 5, bytes: pattern(5, 5) };
    let url = image_to_png_base64(&img, 320, (3, 3)).unwrap();
    assert_eq!(decode_url(&url).into_raw(), img.bytes);
    let big = ClipImage { width: 40, height: 20, bytes: pattern(40, 20) };
    let url = image_to_png_base64(&big, 10, (10, 5)).unwrap();
    assert_eq!(decode_url(&url).dimensions(), (10, 5));
    // Surplus bytes reach the encoder, which refuses them.
    let surplus = ClipImage { width: 1, height: 1, bytes: vec![1, 2, 3, 4, 5, 6, 7, 8] };
    assert_eq!(image_to_png_base64(&surplus, 320, (1, 1)), Err(PreviewError::Png));
}

#[test]
fn empty_width_image_is_scaled_to_transparent_pixels() {
    let img = ClipImage { width: 0, height: 1000, bytes: vec![] };
    let url = encode_png_data_url(&img, 320, (1, 320)).unwrap();
    let back = decode_url(&url);
    assert_eq!(back.dimensions(), (1, 320));
    assert!(back.into_raw().iter().all(|b| *b == 0));
}

fn png_bytes(url: &str) -> Vec<u8> {
    let b64 = url.strip_prefix("data:image/png;base64,").unwrap();
    base64::engine::general_purpose::STANDARD.decode(b64).unwrap()
}

#[test]
fn png_header_declares_size() {
    let img = ClipImage { width: 300, height: 2, bytes: pattern(300, 2) };
    let png = png_bytes(&encode_png_data_url(&img, 320, (1, 1)).unwrap());
    let mut header = vec![137u8, 80, 78, 71, 13, 10, 26, 10, 0, 0, 0, 13, b'I', b'H', b'D', b'R'];
    header.extend_from_slice(&300u32.to_be_bytes());
    header.extend_from_slice(&2u32.to_be_bytes());
    header.extend_from_slice(&[8, 6, 0, 0, 0]);
    assert_eq!(&png[..29], &header[..]);
}

#[test]
fn both_entry_points_agree_without_scaling() {
    let img = ClipImage { width: 6, height: 4, bytes: pattern(6, 4) };
    assert_eq!(encode_png_data_url(&img, 320, (1, 1)), image_to_png_base64(&img, 320, (1, 1)));
    let empty = ClipImage { width: 0, height: 5, bytes: vec![] };
    assert_eq!(image_to_png_base64(&empty, 320, (1, 1)), Err(PreviewError::Png));
}
