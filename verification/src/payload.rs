//! Building the payloads that describe the clipboard to the overlay.

use crate::clip::{ClipImage, ClipPayload};
use crate::preview::{byte_len, image_label, image_label_of, preview_of, shorten_preview};
use crate::thumbnail::{
    encode_png_data_url, encodes_base64_thumbnail, encodes_thumbnail, image_to_png_base64,
    fits, needs_downscale, rgba_len,
};
use vstd::prelude::*;
use vstd::string::*;

verus! {

/// Byte limit of the text shown by the ambient toast.
pub const WATCH_TEXT_LIMIT: usize = 300;

/// Largest thumbnail side of the ambient toast.
pub const WATCH_IMAGE_DIM: u32 = 320;

/// Byte limit of the text shown by the safe-paste overlay.
pub const PREVIEW_TEXT_LIMIT: usize = 2000;

/// Largest thumbnail side of the safe-paste overlay.
pub const PREVIEW_IMAGE_DIM: u32 = 640;

/// Byte limit of the text shown by the confirmation dialog of the hotkey.
pub const HOTKEY_TEXT_LIMIT: usize = 600;

/// Largest thumbnail side of the confirmation dialog of the hotkey.
pub const HOTKEY_IMAGE_DIM: u32 = 480;

/// `p` describes `text`, shortened to `max` bytes.
pub open spec fn is_text_payload(p: ClipPayload, text: Seq<char>, max: nat) -> bool {
    &&& p.kind@ == "text"@
    &&& p.preview_text@ == preview_of(text, max)
    &&& p.img_base64 is None
    &&& p.raw_len == byte_len(text)
}

/// `p` describes `img`: kind, size label, byte count, and the thumbnail URL of
/// [`encode_png_data_url`] (the image itself when it fits `max_dim`, resampled
/// to `scaled` otherwise), or no URL when encoding failed.
pub open spec fn is_image_payload(p: ClipPayload, img: ClipImage, max_dim: u32, scaled: (u32, u32)) -> bool {
    let w = img.width as u32;
    let h = img.height as u32;
    &&& p.kind@ == "image"@
    &&& p.preview_text@ == image_label_of(img.width as nat, img.height as nat)
    &&& p.raw_len == img.bytes@.len()
    &&& match p.img_base64 {
        Some(url) => encodes_thumbnail(w, h, img.bytes@, max_dim, scaled, Ok(url@)),
        None => exists|e| encodes_thumbnail(w, h, img.bytes@, max_dim, scaled, Err(e)),
    }
}

/// `p` describes `img` like [`is_image_payload`], with the thumbnail URL of
/// [`image_to_png_base64`].
pub open spec fn is_base64_image_payload(
    p: ClipPayload,
    img: ClipImage,
    max_dim: u32,
    scaled: (u32, u32),
) -> bool {
    let w = img.width as u32;
    let h = img.height as u32;
    &&& p.kind@ == "image"@
    &&& p.preview_text@ == image_label_of(img.width as nat, img.height as nat)
    &&& p.raw_len == img.bytes@.len()
    &&& match p.img_base64 {
        Some(url) => encodes_base64_thumbnail(w, h, img.bytes@, max_dim, scaled, Ok(url@)),
        None => exists|e| encodes_base64_thumbnail(w, h, img.bytes@, max_dim, scaled, Err(e)),
    }
}

/// What [`image_to_png_base64`] needs of `img`: a scaled-down size that
/// [`fits`], and buffers that can be allocated.
pub open spec fn base64_thumbnail_ok(img: ClipImage, max_dim: u32, scaled: (u32, u32)) -> bool {
    let w = img.width as u32;
    let h = img.height as u32;
    &&& rgba_len(w, h) <= isize::MAX
    &&& needs_downscale(w, h, max_dim) && scaled != (w, h) ==> {
        &&& fits(scaled, max_dim)
        &&& w * scaled.1 * 16 <= isize::MAX
        &&& rgba_len(scaled.0, scaled.1) <= isize::MAX
    }
}

/// What a thumbnail of `img` needs: a scaled-down size that [`fits`], buffers
/// that can be allocated, and, for an image kept at its size, no bytes beyond
/// its pixels (the encoder asserts an exact length).
pub open spec fn thumbnail_ok(img: ClipImage, max_dim: u32, scaled: (u32, u32)) -> bool {
    let w = img.width as u32;
    let h = img.height as u32;
    &&& rgba_len(w, h) <= isize::MAX
    &&& needs_downscale(w, h, max_dim) ==> {
        &&& fits(scaled, max_dim)
        &&& w * scaled.1 * 16 <= isize::MAX
        &&& rgba_len(scaled.0, scaled.1) <= isize::MAX
    }
    &&& !needs_downscale(w, h, max_dim) ==> img.bytes@.len() <= rgba_len(w, h)
}

fn rgba_bytes(w: u32, h: u32) -> (r: u128)
    ensures
        r == rgba_len(w, h),
        r <= 0xffff_ffffint * 0xffff_ffffint * 4,
{
    assert((w as int) * (h as int) * 4 <= 0xffff_ffffint * 0xffff_ffffint * 4) by (nonlinear_arith)
        requires
            w <= 0xffff_ffff,
            h <= 0xffff_ffff,
    ;
    assert(0 <= (w as int) * (h as int)) by (nonlinear_arith);
    (w as u128) * (h as u128) * 4
}

/// Whether a thumbnail of `img` can be made (see [`thumbnail_ok`]).
pub fn thumbnail_supported(img: &ClipImage, max_dim: u32, scaled: (u32, u32)) -> (r: bool)
    ensures
        r == thumbnail_ok(*img, max_dim, scaled),
{
    let w = #[verifier::truncate] (img.width as u32);
    let h = #[verifier::truncate] (img.height as u32);
    let limit = isize::MAX as u128;
    let fits = rgba_bytes(w, h) <= limit;
    if w > max_dim || h > max_dim {
        let side = if max_dim >= 1 {
            max_dim
        } else {
            1
        };
        fits && 1 <= scaled.0 && scaled.0 <= side && 1 <= scaled.1 && scaled.1 <= side
            && rgba_bytes(w, scaled.1) * 4 <= limit && rgba_bytes(scaled.0, scaled.1) <= limit
    } else {
        fits && (img.bytes.len() as u128) <= rgba_bytes(w, h)
    }
}

/// Describes clipboard text, shortened to `max` bytes.
pub fn text_payload(text: String, max: usize) -> (p: ClipPayload)
    ensures
        is_text_payload(p, text@, max as nat),
{
    let raw_len = text.as_str().as_bytes().len();
    let preview = shorten_preview(text, max);
    ClipPayload { kind: String::from_str("text"), preview_text: preview, img_base64: None, raw_len }
}

/// Describes a clipboard image with its size label and a thumbnail from
/// [`encode_png_data_url`]: the image itself when it fits `max_dim`, otherwise
/// resampled to `scaled` (the caller's scaled-down size).
pub fn image_payload(img: &ClipImage, max_dim: u32, scaled: (u32, u32)) -> (p: ClipPayload)
    requires
        thumbnail_ok(*img, max_dim, scaled),
    ensures
        is_image_payload(p, *img, max_dim, scaled),
{
    let label = image_label(img.width, img.height);
    let url = encode_png_data_url(img, max_dim, scaled);
    let img_base64 = match url {
        Ok(s) => Some(s),
        Err(_) => None,
    };
    ClipPayload {
        kind: String::from_str("image"),
        preview_text: label,
        img_base64,
        raw_len: img.bytes.len(),
    }
}

/// Describes a clipboard image like [`image_payload`], with the thumbnail from
/// [`image_to_png_base64`].
pub fn image_payload_png_base64(img: &ClipImage, max_dim: u32, scaled: (u32, u32)) -> (p: ClipPayload)
    requires
        base64_thumbnail_ok(*img, max_dim, scaled),
    ensures
        is_base64_image_payload(p, *img, max_dim, scaled),
{
    let label = image_label(img.width, img.height);
    let url = image_to_png_base64(img, max_dim, scaled);
    let img_base64 = match url {
        Ok(s) => Some(s),
        Err(_) => None,
    };
    ClipPayload {
        kind: String::from_str("image"),
        preview_text: label,
        img_base64,
        raw_len: img.bytes.len(),
    }
}

/// The payload of the confirmation dialog of the hotkey: the clipboard text when
/// there is any (even empty), shortened to [`HOTKEY_TEXT_LIMIT`] bytes; otherwise
/// the clipboard image with a thumbnail of at most [`HOTKEY_IMAGE_DIM`] (scaled
/// down to `scaled`); otherwise nothing. `img` is only looked at without text.
pub fn hotkey_payload(text: Option<String>, img: Option<&ClipImage>, scaled: (u32, u32)) -> (p:
    Option<ClipPayload>)
    requires
        text is None && img is Some ==> base64_thumbnail_ok(*img->Some_0, HOTKEY_IMAGE_DIM, scaled),
    ensures
        text matches Some(t) ==> (p matches Some(q) && is_text_payload(
            q,
            t@,
            HOTKEY_TEXT_LIMIT as nat,
        )),
        text is None && img is Some ==> (p matches Some(q) && is_base64_image_payload(
            q,
            *img->Some_0,
            HOTKEY_IMAGE_DIM,
            scaled,
        )),
        text is None && img is None ==> p is None,
{
    match text {
        Some(t) => Some(text_payload(t, HOTKEY_TEXT_LIMIT)),
        None => match img {
            Some(i) => Some(image_payload_png_base64(i, HOTKEY_IMAGE_DIM, scaled)),
            None => None,
        },
    }
}

/// Describes clipboard text for the safe-paste overlay: `None` when the text is
/// empty, so that the clipboard's image is looked at instead.
pub fn nonempty_text_payload(text: String, max: usize) -> (p: Option<ClipPayload>)
    ensures
        text@.len() == 0 ==> p is None,
        text@.len() != 0 ==> (p matches Some(q) && is_text_payload(q, text@, max as nat)),
{
    if text.as_str().is_empty() {
        None
    } else {
        Some(text_payload(text, max))
    }
}

} // verus!
