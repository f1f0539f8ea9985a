//! The clipboard contents and the payloads that describe them to the overlay.

use vstd::prelude::*;

verus! {

/// An RGBA image as read from the clipboard: its size in pixels and its raw
/// bytes, nominally four per pixel in row-major order.
pub struct ClipImage {
    pub width: usize,
    pub height: usize,
    pub bytes: Vec<u8>,
}

/// What the overlay is told about the clipboard.
pub struct ClipPayload {
    /// `"text"` or `"image"`.
    pub kind: String,
    /// The (possibly shortened) text, or a label with the image's size.
    pub preview_text: String,
    /// A PNG thumbnail as a `data:` URL, when the image could be encoded.
    pub img_base64: Option<String>,
    /// Length of the raw content in bytes.
    pub raw_len: usize,
}

} // verus!
