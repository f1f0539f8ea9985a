//! Content fingerprints used to notice that the clipboard changed.

use std::collections::hash_map::DefaultHasher;
use std::hash::Hasher;
use crate::clip::ClipImage;
use vstd::bytes::*;
use vstd::prelude::*;
use vstd::std_specs::hash::DefaultHasherAdditionalSpecFns;
use vstd::string::*;
use vstd::utf8::*;

verus! {

/// The byte that `str`'s `Hash` impl appends after the UTF-8 bytes of the text.
pub const STR_HASH_TERMINATOR: u8 = 0xff;

/// The writes a `DefaultHasher` sees when a string is hashed: its UTF-8 bytes,
/// then the terminator byte.
pub open spec fn text_hash_writes(text: Seq<char>) -> Seq<Seq<u8>> {
    seq![encode_utf8(text), seq![STR_HASH_TERMINATOR]]
}

/// The fingerprint of a text: the `DefaultHasher` digest of the text.
pub open spec fn text_fingerprint_of(text: Seq<char>) -> u64 {
    DefaultHasher::spec_finish(text_hash_writes(text))
}

/// Hashes a string with a fresh `DefaultHasher`.
pub fn hash_text(s: &str) -> (fp: u64)
    ensures
        fp == text_fingerprint_of(s@),
{
    let mut h = DefaultHasher::new();
    h.write(s.as_bytes());
    let tag: [u8; 1] = [STR_HASH_TERMINATOR];
    assert(tag@ =~= seq![STR_HASH_TERMINATOR]);
    h.write(&tag);
    let fp = h.finish();
    assert(h@ =~= text_hash_writes(s@));
    fp
}

/// Fingerprint of clipboard text; the same digest as [`hash_text`].
pub fn text_fingerprint(s: &str) -> (fp: u64)
    ensures
        fp == text_fingerprint_of(s@),
{
    hash_text(s)
}


/// Distance between two sampled bytes of an image: a 64th of its length, at least 1.
pub open spec fn sample_stride(len: nat) -> nat {
    if len / 64 == 0 {
        1
    } else {
        len / 64
    }
}

/// How many bytes of an image of `len` bytes are sampled: one at every multiple
/// of the stride below `len`.
pub open spec fn sample_count(len: nat) -> nat {
    let s = sample_stride(len);
    len / s + if len % s == 0 {
        0nat
    } else {
        1nat
    }
}

/// The sampled bytes, each written to the hasher on its own.
pub open spec fn sampled_writes(bytes: Seq<u8>) -> Seq<Seq<u8>> {
    let s = sample_stride(bytes.len());
    Seq::new(sample_count(bytes.len()), |k: int| seq![bytes[k * s]])
}

/// The bytes `usize::hash` writes for `n` on a little-endian target: `n` in
/// little-endian order, as wide as the target's `usize`.
pub open spec fn usize_hash_bytes(n: usize) -> Seq<u8> {
    if usize::BITS == 64 {
        spec_u64_to_le_bytes(n as u64)
    } else {
        spec_u32_to_le_bytes(n as u32)
    }
}

/// The writes a `DefaultHasher` sees for an image: width and height as
/// `usize::hash` writes them on a little-endian target, then the sampled bytes.
pub open spec fn image_hash_writes(width: usize, height: usize, bytes: Seq<u8>) -> Seq<Seq<u8>> {
    seq![usize_hash_bytes(width), usize_hash_bytes(height)] + sampled_writes(bytes)
}

/// Returns the bytes `usize::hash` writes for `n` on a little-endian target.
pub fn usize_le_bytes(n: usize) -> (r: Vec<u8>)
    ensures
        r@ == usize_hash_bytes(n),
{
    if usize::BITS == 64 {
        u64_to_le_bytes(n as u64)
    } else {
        u32_to_le_bytes(n as u32)
    }
}

/// The fingerprint of an image: a digest of its size and of at most 127 sampled bytes.
pub open spec fn image_fingerprint_of(width: usize, height: usize, bytes: Seq<u8>) -> u64 {
    DefaultHasher::spec_finish(image_hash_writes(width, height, bytes))
}

proof fn lemma_sample_in_bounds(len: int, step: int, k: int)
    requires
        len >= 0,
        step >= 1,
        0 <= k < len / step + if len % step == 0 {
            0int
        } else {
            1int
        },
    ensures
        0 <= k * step < len,
{
    vstd::arithmetic::div_mod::lemma_fundamental_div_mod(len, step);
    let q = len / step;
    let r = len % step;
    assert(0 <= r < step);
    if r == 0 {
        assert(k * step <= (q - 1) * step) by (nonlinear_arith)
            requires
                k <= q - 1,
                step >= 1,
        ;
        assert((q - 1) * step == step * q - step) by (nonlinear_arith);
    } else {
        assert(k * step <= q * step) by (nonlinear_arith)
            requires
                k <= q,
                step >= 1,
        ;
        assert(q * step == step * q) by (nonlinear_arith);
    }
    assert(0 <= k * step) by (nonlinear_arith)
        requires
            k >= 0,
            step >= 1,
    ;
}

/// An image fingerprint reads at most 127 of the image's bytes, whatever its
/// size, and never more bytes than the image has.
pub proof fn lemma_sample_count_bounded(len: nat)
    ensures
        sample_count(len) <= 127,
        sample_count(len) <= len,
{
    let s = sample_stride(len);
    if len / 64 == 0 {
        assert(s == 1);
        assert(len % 1 == 0);
        assert(len / 1 == len);
    } else {
        let q = len / 64;
        assert(s == q);
        vstd::arithmetic::div_mod::lemma_fundamental_div_mod(len as int, 64);
        vstd::arithmetic::div_mod::lemma_fundamental_div_mod(len as int, q as int);
        assert(len < 64 * q + 64);
        let c = len / q;
        let r = len % q;
        if q == 1 {
            assert(len % 1 == 0);
            assert(len / 1 == len);
        } else {
            assert(len < 96 * q);
            assert(c * q <= len) by (nonlinear_arith)
                requires
                    len == q * c + r,
                    r >= 0,
            ;
            assert(c < 96) by (nonlinear_arith)
                requires
                    c * q <= len,
                    len < 96 * q,
                    q >= 1,
            ;
            assert(c <= len) by (nonlinear_arith)
                requires
                    c * q <= len,
                    q >= 1,
                    c >= 0,
            ;
            if r != 0 {
                assert(c < len) by (nonlinear_arith)
                    requires
                        len == q * c + r,
                        r >= 1,
                        q >= 1,
                        c >= 0,
                ;
            }
        }
    }
}

/// Hashes an image's size and evenly spaced samples of its bytes with a fresh
/// `DefaultHasher`. The size is written in little-endian order, which is what
/// `usize::hash` writes on the little-endian targets the program runs on.
pub fn hash_image(img: &ClipImage) -> (fp: u64)
    ensures
        fp == image_fingerprint_of(img.width, img.height, img.bytes@),
{
    let mut h = DefaultHasher::new();
    let wb = usize_le_bytes(img.width);
    h.write(wb.as_slice());
    let hb = usize_le_bytes(img.height);
    h.write(hb.as_slice());
    let len = img.bytes.len();
    let q = len / 64;
    let step: usize = if q == 0 {
        1
    } else {
        q
    };
    proof {
        if step == 1 {
            assert(len % step == 0);
        } else {
            assert(len / step < usize::MAX) by (nonlinear_arith)
                requires
                    step >= 2,
                    len <= usize::MAX,
            ;
        }
    }
    let count: usize = len / step + if len % step == 0 {
        0
    } else {
        1
    };
    let ghost prefix = seq![wb@, hb@];
    let ghost samples = sampled_writes(img.bytes@);
    assert(h@ =~= prefix + samples.take(0));
    let mut k: usize = 0;
    while k < count
        invariant
            0 <= k <= count,
            step >= 1,
            step == sample_stride(len as nat),
            count == sample_count(len as nat),
            len == img.bytes@.len(),
            samples == sampled_writes(img.bytes@),
            samples.len() == count,
            h@ =~= prefix + samples.take(k as int),
        decreases count - k,
    {
        proof {
            lemma_sample_in_bounds(len as int, step as int, k as int);
        }
        let i = k * step;
        let b: [u8; 1] = [img.bytes[i]];
        assert(b@ =~= samples[k as int]);
        h.write(&b);
        assert(samples.take(k as int).push(samples[k as int]) =~= samples.take(k + 1));
        k = k + 1;
    }
    assert(samples.take(count as int) =~= samples);
    h.finish()
}

/// Fingerprint of a clipboard image; the same digest as [`hash_image`].
pub fn image_fingerprint(img: &ClipImage) -> (fp: u64)
    ensures
        fp == image_fingerprint_of(img.width, img.height, img.bytes@),
{
    hash_image(img)
}

/// A text's fingerprint is the `DefaultHasher` digest of all of the text's UTF-8
/// bytes followed by the byte 0xff, as `str`'s `Hash` writes them; so two
/// different texts always give the hasher different input.
pub proof fn lemma_text_fingerprint_covers_text(t1: Seq<char>, t2: Seq<char>)
    ensures
        text_fingerprint_of(t1) == DefaultHasher::spec_finish(seq![encode_utf8(t1), seq![0xffu8]]),
        text_hash_writes(t1) == seq![encode_utf8(t1), seq![0xffu8]],
        t1 != t2 ==> text_hash_writes(t1) != text_hash_writes(t2),
{
    broadcast use encode_utf8_decode_utf8;

    assert(text_hash_writes(t1) =~= seq![encode_utf8(t1), seq![0xffu8]]);
    assert(text_hash_writes(t2) =~= seq![encode_utf8(t2), seq![0xffu8]]);
    if t1 != t2 && text_hash_writes(t1) == text_hash_writes(t2) {
        assert(text_hash_writes(t1)[0] == encode_utf8(t1));
        assert(text_hash_writes(t2)[0] == encode_utf8(t2));
        assert(decode_utf8(encode_utf8(t1)) == t1);
        assert(decode_utf8(encode_utf8(t2)) == t2);
    }
}

/// The distance between sampled bytes in a buffer of `len` bytes, as the
/// fingerprint computes it: `len.saturating_div(64).max(1)`.
pub open spec fn stride_of(len: int) -> int {
    if len / 64 == 0 {
        1
    } else {
        len / 64
    }
}

/// How many positions `(0..len).step_by(stride)` visits.
pub open spec fn steps_below(len: int, stride: int) -> int {
    len / stride + if len % stride == 0 {
        0int
    } else {
        1int
    }
}

/// What an image fingerprint hashes: the width, then the height (each as
/// `usize::hash` writes it on a little-endian target), then one write per
/// sampled byte, the bytes at positions `0, s, 2s, ...` below the buffer's
/// length for the stride `s = max(len / 64, 1)`.
pub proof fn lemma_image_samples_cover_buffer(w: usize, h: usize, bytes: Seq<u8>)
    ensures
        image_hash_writes(w, h, bytes) == seq![
            if usize::BITS == 64 {
                spec_u64_to_le_bytes(w as u64)
            } else {
                spec_u32_to_le_bytes(w as u32)
            },
            if usize::BITS == 64 {
                spec_u64_to_le_bytes(h as u64)
            } else {
                spec_u32_to_le_bytes(h as u32)
            },
        ] + Seq::new(
            steps_below(bytes.len() as int, stride_of(bytes.len() as int)) as nat,
            |j: int| seq![bytes[j * stride_of(bytes.len() as int)]],
        ),
{
    let len = bytes.len() as int;
    assert(stride_of(len) == sample_stride(bytes.len()));
    assert(steps_below(len, stride_of(len)) == sample_count(bytes.len()));
    assert(image_hash_writes(w, h, bytes) =~= seq![
        if usize::BITS == 64 {
            spec_u64_to_le_bytes(w as u64)
        } else {
            spec_u32_to_le_bytes(w as u32)
        },
        if usize::BITS == 64 {
            spec_u64_to_le_bytes(h as u64)
        } else {
            spec_u32_to_le_bytes(h as u32)
        },
    ] + Seq::new(
        steps_below(len, stride_of(len)) as nat,
        |j: int| seq![bytes[j * stride_of(len)]],
    ));
}

/// Every sampled position lies in the buffer: the `j`-th sample is byte
/// `j * stride`, below `len`.
pub proof fn lemma_sample_position_in_buffer(len: nat, j: int)
    requires
        0 <= j < steps_below(len as int, stride_of(len as int)),
    ensures
        0 <= j * stride_of(len as int) < len,
{
    lemma_sample_in_bounds(len as int, stride_of(len as int), j);
}

/// Every multiple of the stride below the buffer's length is sampled, as sample
/// number `i / stride`: no part of the buffer is left out of the sampling.
pub proof fn lemma_every_stride_multiple_sampled(len: nat, i: int)
    requires
        0 <= i < len,
        i % stride_of(len as int) == 0,
    ensures
        0 <= i / stride_of(len as int) < steps_below(len as int, stride_of(len as int)),
        (i / stride_of(len as int)) * stride_of(len as int) == i,
{
    let s = stride_of(len as int);
    let l = len as int;
    vstd::arithmetic::div_mod::lemma_fundamental_div_mod(i, s);
    vstd::arithmetic::div_mod::lemma_fundamental_div_mod(l, s);
    let q = i / s;
    let ql = l / s;
    let r = l % s;
    assert(i == s * q);
    assert(0 <= q) by (nonlinear_arith)
        requires
            i == s * q,
            i >= 0,
            s >= 1,
    ;
    if q >= steps_below(l, s) {
        if r == 0 {
            assert(s * q >= s * ql) by (nonlinear_arith)
                requires
                    q >= ql,
                    s >= 1,
            ;
        } else {
            assert(s * q >= s * (ql + 1)) by (nonlinear_arith)
                requires
                    q >= ql + 1,
                    s >= 1,
            ;
            assert(s * (ql + 1) == s * ql + s) by (nonlinear_arith);
        }
        assert(false);
    }
    assert(q * s == i) by (nonlinear_arith)
        requires
            i == s * q,
    ;
}

} // verus!
