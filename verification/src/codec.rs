//! The calls into the `image` and `base64` crates that thumbnail encoding makes.
//! Their contracts are taken on trust; everything around them is verified.

use base64::Engine;
use image::ImageEncoder;
use vstd::prelude::*;

verus! {

/// `image::ImageError`, the error of the `image` crate's encoders.
#[verifier::external_type_specification]
#[verifier::external_body]
pub struct ExImageError(image::ImageError);

/// The PNG file that `image::codecs::png::PngEncoder` writes for RGBA8 data of
/// the given size (default compression and filter), or `None` when it reports
/// an error. Both `encode` and, for RGBA8, `write_image` end in the same
/// `encode_inner`, so this names what either writes.
pub uninterp spec fn png_encoded(width: u32, height: u32, data: Seq<u8>) -> Option<Seq<u8>>;

/// When the PNG encoder succeeds: both sides are at least 1 (the png crate's
/// `Writer::init` refuses zero sizes) and the data holds exactly `width * height`
/// pixels of four bytes (`write_image_data` refuses any other length).
pub open spec fn png_encodable(width: u32, height: u32, len: nat) -> bool {
    width >= 1 && height >= 1 && len == width * height * 4
}

/// The four big-endian bytes of `n`.
pub open spec fn be_bytes(n: u32) -> Seq<u8> {
    seq![(n / 16777216) as u8, ((n / 65536) % 256) as u8, ((n / 256) % 256) as u8, (n % 256) as u8]
}

/// The first 29 bytes of every PNG file the encoder writes for an RGBA8 image:
/// the PNG signature, then the start of the IHDR chunk (length 13, type, width
/// and height big-endian, bit depth 8, colour type 6 = RGBA, compression,
/// filter and interlace methods 0).
pub open spec fn png_header(width: u32, height: u32) -> Seq<u8> {
    seq![137u8, 80, 78, 71, 13, 10, 26, 10, 0, 0, 0, 13, 73, 72, 68, 82] + be_bytes(width)
        + be_bytes(height) + seq![8u8, 6, 0, 0, 0]
}

/// Whether `out` is what `image::imageops::resize` with the Lanczos3 filter may
/// produce from the RGBA8 image (`width` by `height`, `pixels`) at the new size.
/// A relation rather than a function: the resampling goes through the
/// platform's `f32::sin`, so the same input need not give the same bytes on
/// every machine.
pub uninterp spec fn lanczos3_resized(
    width: u32,
    height: u32,
    pixels: Seq<u8>,
    new_width: u32,
    new_height: u32,
    out: Seq<u8>,
) -> bool;

/// The character of the base64 alphabet (RFC 4648, `A-Z a-z 0-9 + /`) for a
/// six-bit value.
pub open spec fn base64_digit(v: int) -> char {
    if v < 26 {
        (65 + v) as char
    } else if v < 52 {
        (97 + v - 26) as char
    } else if v < 62 {
        (48 + v - 52) as char
    } else if v == 62 {
        '+'
    } else {
        '/'
    }
}

/// The standard, padded base64 encoding of `bytes`: every group of three bytes,
/// read as a 24-bit big-endian number, gives four characters of six bits each;
/// a last group of one or two bytes is filled with zero bits and padded with `=`.
pub open spec fn base64_standard(bytes: Seq<u8>) -> Seq<char>
    decreases bytes.len(),
{
    if bytes.len() == 0 {
        seq![]
    } else {
        let b1: int = if bytes.len() > 1 { bytes[1] as int } else { 0 };
        let b2: int = if bytes.len() > 2 { bytes[2] as int } else { 0 };
        let n = bytes[0] as int * 65536 + b1 * 256 + b2;
        let group = seq![
            base64_digit(n / 262144),
            base64_digit((n / 4096) % 64),
            if bytes.len() > 1 { base64_digit((n / 64) % 64) } else { '=' },
            if bytes.len() > 2 { base64_digit(n % 64) } else { '=' },
        ];
        if bytes.len() <= 3 {
            group
        } else {
            group + base64_standard(bytes.skip(3))
        }
    }
}

/// Resizes an RGBA8 image with `image::DynamicImage::resize_exact` and the
/// Lanczos3 filter, and returns the new image's raw pixels (`to_rgba8().into_raw()`).
/// Claimed: the result holds exactly `new_width * new_height` pixels of four
/// bytes and is a Lanczos3 resampling of the given pixels (`lanczos3_resized`).
/// Left unsaid: which bytes exactly, since they come from floating-point
/// arithmetic through the platform's `sin`.
/// `from_raw` needs the pixels to cover the source, and the intermediate image
/// (source width by new height, four `f32` per pixel) and the result must be
/// allocatable.
#[verifier::external_body]
pub fn resize_lanczos3(
    width: u32,
    height: u32,
    pixels: Vec<u8>,
    new_width: u32,
    new_height: u32,
) -> (r: Vec<u8>)
    requires
        width * height * 4 <= pixels@.len(),
        width * new_height * 16 <= isize::MAX,
        new_width * new_height * 4 <= isize::MAX,
    ensures
        r@.len() == new_width * new_height * 4,
        lanczos3_resized(width, height, pixels@, new_width, new_height, r@),
{
    let img = image::RgbaImage::from_raw(width, height, pixels).expect("pixels cover the image");
    image::DynamicImage::ImageRgba8(img).resize_exact(
        new_width,
        new_height,
        image::imageops::FilterType::Lanczos3,
    ).to_rgba8().into_raw()
}

/// Encodes RGBA8 pixels as PNG with `PngEncoder::write_image`.
/// Claimed: the result is `png_encoded` of the arguments (for RGBA8,
/// `write_image` hands the buffer to the same `encode_inner` as `encode`); it is
/// a PNG file exactly when both sides are at least 1, and then starts with
/// `png_header`. `write_image` asserts that the buffer holds exactly
/// `width * height` pixels, hence the `requires`.
#[verifier::external_body]
pub fn png_write_rgba8(pixels: &[u8], width: u32, height: u32) -> (r: Result<
    Vec<u8>,
    image::ImageError,
>)
    requires
        pixels@.len() == width * height * 4,
    ensures
        match r {
            Ok(png) => {
                &&& png_encoded(width, height, pixels@) == Some(png@)
                &&& png_encodable(width, height, pixels@.len())
                &&& png@.len() >= 29
                &&& png@.take(29) == png_header(width, height)
            },
            Err(_) => {
                &&& png_encoded(width, height, pixels@) is None
                &&& !png_encodable(width, height, pixels@.len())
            },
        },
{
    let mut out: Vec<u8> = Vec::new();
    image::codecs::png::PngEncoder::new(&mut out).write_image(
        pixels,
        width,
        height,
        image::ColorType::Rgba8,
    )?;
    Ok(out)
}

/// Encodes RGBA8 data as PNG with the older `PngEncoder::encode`.
/// Claimed: the result is `png_encoded` of the arguments; it is a PNG file
/// exactly when both sides are at least 1 and the data has the image's length,
/// and then starts with `png_header`. The png crate computes the image's byte
/// size in `usize` without checking for overflow, hence the `requires`.
#[verifier::external_body]
#[allow(deprecated)]
pub fn png_encode_rgba8(data: &[u8], width: u32, height: u32) -> (r: Result<
    Vec<u8>,
    image::ImageError,
>)
    requires
        width * height * 4 <= isize::MAX,
    ensures
        match r {
            Ok(png) => {
                &&& png_encoded(width, height, data@) == Some(png@)
                &&& png_encodable(width, height, data@.len())
                &&& png@.len() >= 29
                &&& png@.take(29) == png_header(width, height)
            },
            Err(_) => {
                &&& png_encoded(width, height, data@) is None
                &&& !png_encodable(width, height, data@.len())
            },
        },
{
    let mut out: Vec<u8> = Vec::new();
    image::codecs::png::PngEncoder::new(&mut out).encode(data, width, height, image::ColorType::Rgba8)?;
    Ok(out)
}

/// Encodes bytes with `base64::engine::general_purpose::STANDARD`.
/// Claimed: the result is the standard padded encoding, `base64_standard`.
/// `encode` panics when that length overflows `usize` or cannot be allocated,
/// hence the `requires`.
#[verifier::external_body]
pub fn base64_encode(bytes: &[u8]) -> (r: String)
    requires
        4 * ((bytes@.len() + 2) / 3) <= isize::MAX,
    ensures
        r@ == base64_standard(bytes@),
{
    base64::engine::general_purpose::STANDARD.encode(bytes)
}

} // verus!
