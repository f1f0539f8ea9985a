//! PNG thumbnails of clipboard images, delivered as `data:` URLs.

use crate::clip::ClipImage;
use crate::codec::{
    base64_encode, base64_standard, lanczos3_resized, png_encodable, png_encode_rgba8,
    png_encoded, png_header, png_write_rgba8, resize_lanczos3,
};
use vstd::prelude::*;
use vstd::string::*;

verus! {

/// Why a thumbnail could not be produced.
#[derive(Debug, Clone, Copy, PartialEq, Eq, Structural)]
pub enum PreviewError {
    /// The PNG encoder reported an error.
    Png,
    /// The `data:` URL of the PNG would not fit in memory.
    Oversized,
}

/// Bytes of an RGBA8 image of the given size.
pub open spec fn rgba_len(width: u32, height: u32) -> int {
    width * height * 4
}

/// The light grey, opaque image (200, 200, 200, 255) shown in place of pixels
/// that do not cover the image.
pub open spec fn placeholder_pixels(width: u32, height: u32) -> Seq<u8> {
    Seq::new(rgba_len(width, height) as nat, |i: int| if i % 4 == 3 { 255u8 } else { 200u8 })
}

/// The pixels an image is encoded from: the raw bytes when they cover the
/// image, the placeholder otherwise.
pub open spec fn image_pixels(width: u32, height: u32, raw: Seq<u8>) -> Seq<u8> {
    if rgba_len(width, height) <= raw.len() {
        raw
    } else {
        placeholder_pixels(width, height)
    }
}

/// Builds the RGBA8 buffer of an image: keeps `raw` when it holds at least
/// `width * height` pixels, and otherwise fills the image with the placeholder
/// colour.
pub fn rgba_or_placeholder(width: u32, height: u32, raw: Vec<u8>) -> (r: Vec<u8>)
    requires
        rgba_len(width, height) <= isize::MAX,
    ensures
        r@ == image_pixels(width, height, raw@),
{
    let n = width as usize * height as usize * 4;
    if n <= raw.len() {
        raw
    } else {
        let mut px: Vec<u8> = Vec::with_capacity(n);
        let mut i: usize = 0;
        while i < n
            invariant
                i <= n,
                n == rgba_len(width, height),
                px@ =~= placeholder_pixels(width, height).take(i as int),
            decreases n - i,
        {
            let b: u8 = if i % 4 == 3 {
                255
            } else {
                200
            };
            px.push(b);
            i = i + 1;
        }
        assert(placeholder_pixels(width, height).take(n as int) =~= placeholder_pixels(width, height));
        px
    }
}

/// The image's own bytes are encoded whenever they cover the image, whatever
/// its size; only bytes too few for `width * height` pixels are replaced, by the
/// opaque light grey (200, 200, 200, 255) of the image's size.
pub proof fn lemma_pixels_kept_when_covering(width: u32, height: u32, raw: Seq<u8>)
    ensures
        (width as int) * (height as int) * 4 <= raw.len() ==> image_pixels(width, height, raw) == raw,
        (width as int) * (height as int) * 4 > raw.len() ==> {
            &&& image_pixels(width, height, raw).len() == (width as int) * (height as int) * 4
            &&& forall|i: int|
                0 <= i < (width as int) * (height as int) * 4 ==> #[trigger] image_pixels(
                    width,
                    height,
                    raw,
                )[i] == if i % 4 == 3 {
                    255u8
                } else {
                    200u8
                }
        },
{
}

/// The text that precedes the base64 data of a PNG `data:` URL.
pub open spec fn data_url_prefix() -> Seq<char> {
    "data:image/png;base64,"@
}

/// Whether the `data:` URL of a PNG file of `len` bytes can be allocated.
pub open spec fn base64_fits(len: nat) -> bool {
    data_url_prefix().len() + 4 * ((len + 2) / 3) <= isize::MAX
}

/// The `data:` URL of a PNG file, or the reason it cannot be built.
pub open spec fn data_url_of(png: Option<Seq<u8>>) -> Result<Seq<char>, PreviewError> {
    match png {
        None => Err(PreviewError::Png),
        Some(bytes) => if base64_fits(bytes.len()) {
            Ok(data_url_prefix() + base64_standard(bytes))
        } else {
            Err(PreviewError::Oversized)
        },
    }
}

/// Every thumbnail URL is a PNG `data:` URL: the prefix, then base64 text.
pub proof fn lemma_data_url_prefix(png: Option<Seq<u8>>)
    ensures
        data_url_of(png) matches Ok(url) ==> {
            &&& url.subrange(0, data_url_prefix().len() as int) == data_url_prefix()
            &&& url.subrange(data_url_prefix().len() as int, url.len() as int) == base64_standard(
                png->Some_0,
            )
        },
        data_url_of(png) is Err <==> (png is None || !base64_fits(png->Some_0.len())),
{
    if let Ok(url) = data_url_of(png) {
        let b = png->Some_0;
        assert(url.subrange(0, data_url_prefix().len() as int) =~= data_url_prefix());
        assert(url.subrange(data_url_prefix().len() as int, url.len() as int) =~= base64_standard(b));
    }
}

/// A PNG file is refused as too large only when its `data:` URL could not be
/// allocated: the URL is built whenever its 22-character prefix and the
/// `4 * ceil(len / 3)` base64 characters fit in `isize::MAX`.
pub proof fn lemma_data_url_refused_only_when_unallocatable(png: Seq<u8>)
    ensures
        (data_url_of(Some(png)) is Ok) <==> 22 + 4 * ((png.len() + 2) / 3) <= isize::MAX,
        data_url_of(Some(png)) is Ok ==> data_url_of(Some(png)) == Ok::<Seq<char>, PreviewError>(
            "data:image/png;base64,"@ + base64_standard(png),
        ),
        data_url_of(Some(png)) is Err ==> data_url_of(Some(png)) == Err::<Seq<char>, PreviewError>(
            PreviewError::Oversized,
        ),
{
    reveal_strlit("data:image/png;base64,");
}

/// The view of an outcome that carries a `String`.
pub open spec fn outcome_view(r: Result<String, PreviewError>) -> Result<Seq<char>, PreviewError> {
    match r {
        Ok(s) => Ok(s@),
        Err(e) => Err(e),
    }
}

fn base64_len_fits(len: usize) -> (r: bool)
    ensures
        r == base64_fits(len as nat),
{
    let groups = len / 3 + if len % 3 == 0 {
        0
    } else {
        1
    };
    assert(groups == (len + 2) / 3);
    proof {
        reveal_strlit("data:image/png;base64,");
    }
    groups <= (isize::MAX as usize - 22) / 4
}

fn data_url(png: Result<Vec<u8>, image::ImageError>) -> (r: Result<String, PreviewError>)
    ensures
        outcome_view(r) == data_url_of(
            match png {
                Ok(b) => Some(b@),
                Err(_) => None,
            },
        ),
{
    match png {
        Err(_) => Err(PreviewError::Png),
        Ok(bytes) => {
            if base64_len_fits(bytes.len()) {
                let b64 = base64_encode(bytes.as_slice());
                let mut url = String::from_str("data:image/png;base64,");
                url.append(b64.as_str());
                Ok(url)
            } else {
                Err(PreviewError::Oversized)
            }
        },
    }
}

/// What the PNG encoder is known to give for RGBA8 data: a file exactly when
/// the data is encodable, and one that starts with the PNG header of the size.
pub open spec fn png_known(width: u32, height: u32, data: Seq<u8>) -> bool {
    &&& png_encoded(width, height, data) is Some <==> png_encodable(width, height, data.len())
    &&& png_encoded(width, height, data) matches Some(b) ==> {
        &&& b.len() >= 29
        &&& b.take(29) == png_header(width, height)
    }
}

/// Encodes RGBA8 pixels as a PNG `data:` URL.
pub fn png_data_url(pixels: &[u8], width: u32, height: u32) -> (r: Result<String, PreviewError>)
    requires
        pixels@.len() == rgba_len(width, height),
    ensures
        outcome_view(r) == data_url_of(png_encoded(width, height, pixels@)),
        png_known(width, height, pixels@),
{
    let png = png_write_rgba8(pixels, width, height);
    data_url(png)
}

fn png_base64_data_url(data: &[u8], width: u32, height: u32) -> (r: Result<String, PreviewError>)
    requires
        rgba_len(width, height) <= isize::MAX,
    ensures
        outcome_view(r) == data_url_of(png_encoded(width, height, data@)),
        png_known(width, height, data@),
{
    let png = png_encode_rgba8(data, width, height);
    data_url(png)
}

/// Whether an image of the given size is scaled down to fit `max_dim`.
pub open spec fn needs_downscale(width: u32, height: u32, max_dim: u32) -> bool {
    width > max_dim || height > max_dim
}

/// The largest side a thumbnail may have: `max_dim`, or 1 when that is 0.
pub open spec fn side_limit(max_dim: u32) -> u32 {
    if max_dim >= 1 {
        max_dim
    } else {
        1
    }
}

/// Whether a scaled-down size fits: both sides between 1 and [`side_limit`].
pub open spec fn fits(scaled: (u32, u32), max_dim: u32) -> bool {
    1 <= scaled.0 <= side_limit(max_dim) && 1 <= scaled.1 <= side_limit(max_dim)
}

/// Whether `r` is what [`encode_png_data_url`] yields for an image of the given
/// size and bytes: the URL of the image itself when it fits `max_dim`, otherwise
/// the URL of a Lanczos3 resampling of the image to `scaled` (width, height).
pub open spec fn encodes_thumbnail(
    w: u32,
    h: u32,
    bytes: Seq<u8>,
    max_dim: u32,
    scaled: (u32, u32),
    r: Result<Seq<char>, PreviewError>,
) -> bool {
    if needs_downscale(w, h, max_dim) {
        exists|px: Seq<u8>|
            {
                &&& px.len() == rgba_len(scaled.0, scaled.1)
                &&& lanczos3_resized(w, h, image_pixels(w, h, bytes), scaled.0, scaled.1, px)
                &&& r == data_url_of(png_encoded(scaled.0, scaled.1, px))
                &&& png_known(scaled.0, scaled.1, px)
            }
    } else {
        &&& r == data_url_of(png_encoded(w, h, image_pixels(w, h, bytes)))
        &&& png_known(w, h, image_pixels(w, h, bytes))
    }
}

/// Whether `r` is what [`image_to_png_base64`] yields: the size it encodes at is
/// `scaled` when the image exceeds `max_dim` and the image's own size otherwise;
/// the image is resampled to that size when it differs from its own, and the
/// encoder gets the whole buffer otherwise.
pub open spec fn encodes_base64_thumbnail(
    w: u32,
    h: u32,
    bytes: Seq<u8>,
    max_dim: u32,
    scaled: (u32, u32),
    r: Result<Seq<char>, PreviewError>,
) -> bool {
    let target = if needs_downscale(w, h, max_dim) {
        scaled
    } else {
        (w, h)
    };
    if target != (w, h) {
        exists|px: Seq<u8>|
            {
                &&& px.len() == rgba_len(target.0, target.1)
                &&& lanczos3_resized(w, h, image_pixels(w, h, bytes), target.0, target.1, px)
                &&& r == data_url_of(png_encoded(target.0, target.1, px))
                &&& png_known(target.0, target.1, px)
            }
    } else {
        &&& r == data_url_of(png_encoded(w, h, image_pixels(w, h, bytes)))
        &&& png_known(w, h, image_pixels(w, h, bytes))
    }
}

/// The size a thumbnail is encoded at: `scaled` when the image exceeds
/// `max_dim`, the image's own size otherwise.
pub open spec fn thumbnail_size(w: u32, h: u32, max_dim: u32, scaled: (u32, u32)) -> (u32, u32) {
    if needs_downscale(w, h, max_dim) {
        scaled
    } else {
        (w, h)
    }
}

/// An image kept at its size whose bytes are exactly its pixels is encoded
/// from those very bytes; a scaled-down image whose bytes cover it is resampled
/// from those very bytes.
pub proof fn lemma_thumbnail_of_covering_bytes(
    w: u32,
    h: u32,
    bytes: Seq<u8>,
    max_dim: u32,
    scaled: (u32, u32),
    r: Result<Seq<char>, PreviewError>,
)
    requires
        encodes_thumbnail(w, h, bytes, max_dim, scaled, r),
        (w as int) * (h as int) * 4 <= bytes.len(),
    ensures
        !needs_downscale(w, h, max_dim) ==> r == data_url_of(png_encoded(w, h, bytes)),
        needs_downscale(w, h, max_dim) ==> exists|px: Seq<u8>|
            {
                &&& px.len() == (scaled.0 as int) * (scaled.1 as int) * 4
                &&& lanczos3_resized(w, h, bytes, scaled.0, scaled.1, px)
                &&& r == data_url_of(png_encoded(scaled.0, scaled.1, px))
            },
{
    lemma_pixels_kept_when_covering(w, h, bytes);
}

/// A thumbnail is missing for an encoder error exactly when an image that is
/// kept at its size has a side of 0; every thumbnail URL is a PNG `data:` URL
/// whose header declares the thumbnail's size, and that size fits `max_dim`
/// (both sides between 1 and `max_dim`, or 1 when `max_dim` is 0).
pub proof fn lemma_thumbnail_outcome(
    w: u32,
    h: u32,
    bytes: Seq<u8>,
    max_dim: u32,
    scaled: (u32, u32),
    r: Result<Seq<char>, PreviewError>,
)
    requires
        needs_downscale(w, h, max_dim) ==> fits(scaled, max_dim),
        !needs_downscale(w, h, max_dim) ==> bytes.len() <= rgba_len(w, h),
        encodes_thumbnail(w, h, bytes, max_dim, scaled, r),
    ensures
        (r == Err::<Seq<char>, PreviewError>(PreviewError::Png)) <==> (!needs_downscale(w, h, max_dim)
            && (w == 0 || h == 0)),
        r matches Ok(url) ==> {
            let size = thumbnail_size(w, h, max_dim, scaled);
            &&& fits(size, max_dim)
            &&& exists|png: Seq<u8>|
                {
                    &&& png.len() >= 29
                    &&& png.take(29) == png_header(size.0, size.1)
                    &&& url == data_url_prefix() + base64_standard(png)
                }
        },
{
    let size = thumbnail_size(w, h, max_dim, scaled);
    if needs_downscale(w, h, max_dim) {
        let px = choose|px: Seq<u8>|
            {
                &&& px.len() == rgba_len(scaled.0, scaled.1)
                &&& lanczos3_resized(w, h, image_pixels(w, h, bytes), scaled.0, scaled.1, px)
                &&& r == data_url_of(png_encoded(scaled.0, scaled.1, px))
                &&& png_known(scaled.0, scaled.1, px)
            };
        assert(png_encodable(scaled.0, scaled.1, px.len()));
        if let Ok(url) = r {
            let png = png_encoded(scaled.0, scaled.1, px)->Some_0;
            assert(url == data_url_prefix() + base64_standard(png));
        }
    } else {
        let px = image_pixels(w, h, bytes);
        assert(px.len() == rgba_len(w, h));
        if let Ok(url) = r {
            let png = png_encoded(w, h, px)->Some_0;
            assert(url == data_url_prefix() + base64_standard(png));
        }
    }
}

/// For an image kept at its size, both entry points give the same thumbnail:
/// they hand the same pixels to the same PNG encoding.
pub proof fn lemma_entry_points_agree(
    w: u32,
    h: u32,
    bytes: Seq<u8>,
    max_dim: u32,
    scaled: (u32, u32),
    r1: Result<Seq<char>, PreviewError>,
    r2: Result<Seq<char>, PreviewError>,
)
    requires
        !needs_downscale(w, h, max_dim),
        encodes_thumbnail(w, h, bytes, max_dim, scaled, r1),
        encodes_base64_thumbnail(w, h, bytes, max_dim, scaled, r2),
    ensures
        r1 == r2,
{
}

/// Encodes a clipboard image as a PNG `data:` URL, scaled down to `scaled`
/// (width, height) when its larger side exceeds `max_dim`. The image's size is
/// taken modulo 2^32, as `as u32` does.
pub fn encode_png_data_url(img: &ClipImage, max_dim: u32, scaled: (u32, u32)) -> (r: Result<
    String,
    PreviewError,
>)
    requires
        rgba_len(img.width as u32, img.height as u32) <= isize::MAX,
        needs_downscale(img.width as u32, img.height as u32, max_dim) ==> {
            &&& fits(scaled, max_dim)
            &&& (img.width as u32) * scaled.1 * 16 <= isize::MAX
            &&& rgba_len(scaled.0, scaled.1) <= isize::MAX
        },
        !needs_downscale(img.width as u32, img.height as u32, max_dim) ==> img.bytes@.len()
            <= rgba_len(img.width as u32, img.height as u32),
    ensures
        encodes_thumbnail(img.width as u32, img.height as u32, img.bytes@, max_dim, scaled, outcome_view(r)),
{
    let w = #[verifier::truncate] (img.width as u32);
    let h = #[verifier::truncate] (img.height as u32);
    let rgba = rgba_or_placeholder(w, h, img.bytes.clone());
    if w > max_dim || h > max_dim {
        let small = resize_lanczos3(w, h, rgba, scaled.0, scaled.1);
        let r = png_data_url(small.as_slice(), scaled.0, scaled.1);
        assert(small@.len() == rgba_len(scaled.0, scaled.1));
        assert(lanczos3_resized(w, h, image_pixels(w, h, img.bytes@), scaled.0, scaled.1, small@));
        r
    } else {
        png_data_url(rgba.as_slice(), w, h)
    }
}

/// Encodes a clipboard image as a PNG `data:` URL with the older encoder entry
/// point: the image is resized only when `scaled` differs from its size, and the
/// whole buffer is handed to the encoder.
pub fn image_to_png_base64(img: &ClipImage, max_dim: u32, scaled: (u32, u32)) -> (r: Result<
    String,
    PreviewError,
>)
    requires
        rgba_len(img.width as u32, img.height as u32) <= isize::MAX,
        needs_downscale(img.width as u32, img.height as u32, max_dim) && scaled != (
            img.width as u32,
            img.height as u32,
        ) ==> {
            &&& fits(scaled, max_dim)
            &&& (img.width as u32) * scaled.1 * 16 <= isize::MAX
            &&& rgba_len(scaled.0, scaled.1) <= isize::MAX
        },
    ensures
        encodes_base64_thumbnail(
            img.width as u32,
            img.height as u32,
            img.bytes@,
            max_dim,
            scaled,
            outcome_view(r),
        ),
{
    let w = #[verifier::truncate] (img.width as u32);
    let h = #[verifier::truncate] (img.height as u32);
    let rgba = rgba_or_placeholder(w, h, img.bytes.clone());
    let target = if w > max_dim || h > max_dim {
        scaled
    } else {
        (w, h)
    };
    if target.0 != w || target.1 != h {
        let small = resize_lanczos3(w, h, rgba, target.0, target.1);
        let r = png_base64_data_url(small.as_slice(), target.0, target.1);
        assert(small@.len() == rgba_len(target.0, target.1));
        assert(lanczos3_resized(w, h, image_pixels(w, h, img.bytes@), target.0, target.1, small@));
        r
    } else {
        png_base64_data_url(rgba.as_slice(), w, h)
    }
}

} // verus!
