//! Preview text: shortening clipboard text at a byte limit, and the size
//! label shown for images.

use vstd::prelude::*;
use vstd::string::*;
use vstd::utf8::*;

verus! {

broadcast use {encode_utf8_decode_utf8, encode_utf8_valid_utf8};

/// The character appended to a shortened preview.
pub open spec fn ellipsis() -> char {
    '\u{2026}'
}

/// The UTF-8 length of a text in bytes (what `str::len` returns).
pub open spec fn byte_len(text: Seq<char>) -> nat {
    encode_utf8(text).len()
}

/// The largest character boundary of `bytes` at or below `i` (what
/// `str::floor_char_boundary` returns).
pub open spec fn floor_boundary(bytes: Seq<u8>, i: int) -> int
    decreases i,
{
    if i <= 0 {
        0
    } else if is_char_boundary(bytes, i) {
        i
    } else {
        floor_boundary(bytes, i - 1)
    }
}

/// Where a text longer than `max` bytes is cut: at the last character boundary
/// at or below `max`.
pub open spec fn cut_point(text: Seq<char>, max: nat) -> int {
    floor_boundary(encode_utf8(text), max as int)
}

/// The preview of a text: the text itself when it has at most `max` bytes,
/// otherwise the whole characters within its first `max` bytes followed by an
/// ellipsis.
pub open spec fn preview_of(text: Seq<char>, max: nat) -> Seq<char> {
    if byte_len(text) > max {
        decode_utf8(encode_utf8(text).take(cut_point(text, max))).push(ellipsis())
    } else {
        text
    }
}

/// Shortens `text` to the whole characters within its first `max` bytes, plus
/// an ellipsis, when it is longer than `max` bytes.
pub fn shorten_preview(text: String, max: usize) -> (r: String)
    ensures
        r@ == preview_of(text@, max as nat),
{
    let whole = text.as_str();
    let long = whole.as_bytes().len() > max;
    if long {
        let ghost bytes = encode_utf8(text@);
        assert(whole@ == text@);
        let mut i: usize = max;
        while !whole.is_char_boundary(i)
            invariant
                i <= max,
                max < bytes.len(),
                bytes == whole.spec_bytes(),
                valid_utf8(bytes),
                floor_boundary(bytes, max as int) == floor_boundary(bytes, i as int),
            decreases i,
        {
            assert(is_char_boundary(bytes, 0));
            i = i - 1;
        }
        assert(floor_boundary(bytes, i as int) == i);
        let (head, _tail) = whole.split_at(i);
        let mut r = head.to_owned();
        r.append("\u{2026}");
        proof {
            reveal_strlit("\u{2026}");
            assert(bytes.take(i as int) =~= bytes.subrange(0, i as int));
            assert(head.spec_bytes() =~= bytes.subrange(0, i as int));
            assert(decode_utf8(encode_utf8(head@)) == head@);
            assert("\u{2026}"@ =~= seq![ellipsis()]);
            assert(r@ =~= preview_of(text@, max as nat));
        }
        r
    } else {
        assert(byte_len(text@) <= max);
        text
    }
}

/// UTF-8 encoding distributes over concatenation.
proof fn lemma_encode_utf8_concat(a: Seq<char>, b: Seq<char>)
    ensures
        encode_utf8(a + b) == encode_utf8(a) + encode_utf8(b),
    decreases a.len(),
{
    if a.len() == 0 {
        assert(a + b =~= b);
        assert(encode_utf8(a) =~= Seq::<u8>::empty());
        assert(encode_utf8(a) + encode_utf8(b) =~= encode_utf8(b));
    } else {
        assert((a + b).drop_first() =~= a.drop_first() + b);
        lemma_encode_utf8_concat(a.drop_first(), b);
        assert((a + b)[0] == a[0]);
        assert(encode_utf8(a + b) =~= encode_utf8(a) + encode_utf8(b));
    }
}

/// The end of the encoding of a prefix of a text is a character boundary of the
/// text's encoding.
proof fn lemma_prefix_end_is_boundary(text: Seq<char>, k: int)
    requires
        0 <= k <= text.len(),
    ensures
        is_char_boundary(encode_utf8(text), encode_utf8(text.take(k)).len() as int),
    decreases k,
{
    let bytes = encode_utf8(text);
    if k == 0 {
        assert(text.take(0) =~= Seq::<char>::empty());
        assert(encode_utf8(text.take(0)) =~= Seq::<u8>::empty());
    } else {
        let rest = text.drop_first();
        encode_utf8_first_scalar(text);
        assert(pop_first_scalar(bytes) =~= encode_utf8(rest));
        lemma_prefix_end_is_boundary(rest, k - 1);
        assert(text.take(k).drop_first() =~= rest.take(k - 1));
        assert(text.take(k)[0] == text[0]);
        assert(encode_utf8(text.take(k)) =~= encode_scalar(text[0] as u32) + encode_utf8(rest.take(k - 1)));
        assert(encode_utf8(text.take(k)).len() > 0) by {
            char_is_scalar(text[0]);
            assert(encode_scalar(text[0] as u32).len() > 0);
        }
    }
}

proof fn lemma_floor_boundary(bytes: Seq<u8>, i: int)
    requires
        valid_utf8(bytes),
        0 <= i,
    ensures
        0 <= floor_boundary(bytes, i) <= i,
        is_char_boundary(bytes, floor_boundary(bytes, i)),
        forall|j: int| floor_boundary(bytes, i) < j <= i ==> !is_char_boundary(bytes, j),
    decreases i,
{
    if i > 0 && !is_char_boundary(bytes, i) {
        lemma_floor_boundary(bytes, i - 1);
    }
}

/// A preview keeps the longest prefix of the text that fits in `max` bytes and
/// adds the three bytes of the ellipsis only when something was cut: it is the
/// text itself when the text fits, and never longer than `max + 3` bytes.
pub proof fn lemma_preview_bounded(text: Seq<char>, max: nat)
    ensures
        byte_len(preview_of(text, max)) <= max + 3,
        byte_len(text) <= max ==> preview_of(text, max) == text,
        byte_len(text) > max ==> {
            let kept = preview_of(text, max).drop_last();
            &&& preview_of(text, max).last() == ellipsis()
            &&& kept.len() < text.len()
            &&& text.take(kept.len() as int) == kept
            &&& byte_len(kept) <= max
            &&& byte_len(text.take(kept.len() + 1int)) > max
        },
{
    if byte_len(text) > max {
        let bytes = encode_utf8(text);
        let c = cut_point(text, max);
        lemma_floor_boundary(bytes, max as int);
        let head = bytes.take(c);
        assert(head =~= bytes.subrange(0, c));
        valid_utf8_split(bytes, c);
        decode_utf8_split(bytes, c);
        decode_utf8_encode_utf8(head);
        let h = decode_utf8(head);
        let t = decode_utf8(bytes.subrange(c, bytes.len() as int));
        assert(text == h + t);
        assert(preview_of(text, max).drop_last() =~= h);
        assert(text.take(h.len() as int) =~= h);
        assert(byte_len(h) == c);
        // something was cut: the tail is not empty
        if t.len() == 0 {
            assert(text =~= h);
            assert(false);
        }
        // the next character does not fit
        let k = h.len() as int;
        lemma_prefix_end_is_boundary(text, k + 1);
        assert(text.take(k + 1) =~= h.push(text[k]));
        lemma_encode_utf8_concat(h, seq![text[k]]);
        assert(h.push(text[k]) =~= h + seq![text[k]]);
        assert(seq![text[k]].drop_first() =~= Seq::<char>::empty());
        assert(encode_utf8(seq![text[k]]) =~= encode_scalar(text[k] as u32)) by {
            assert(encode_utf8(Seq::<char>::empty()) =~= Seq::<u8>::empty());
        }
        char_is_scalar(text[k]);
        assert(encode_scalar(text[k] as u32).len() > 0);
        // the ellipsis takes three bytes
        lemma_encode_utf8_concat(h, seq![ellipsis()]);
        assert(h.push(ellipsis()) =~= h + seq![ellipsis()]);
        assert(seq![ellipsis()].drop_first() =~= Seq::<char>::empty());
        assert(encode_utf8(seq![ellipsis()]) =~= encode_scalar(ellipsis() as u32)) by {
            assert(encode_utf8(Seq::<char>::empty()) =~= Seq::<u8>::empty());
        }
        assert(ellipsis() as u32 == 0x2026);
        assert(encode_scalar(0x2026u32).len() == 3) by {
            assert(!has_width_1_encoding(0x2026u32));
            assert(!has_width_2_encoding(0x2026u32));
            assert(has_width_3_encoding(0x2026u32));
        }
    }
}

/// The decimal digit `d` as a character.
pub open spec fn digit_char(d: nat) -> char {
    seq!['0', '1', '2', '3', '4', '5', '6', '7', '8', '9'][d as int]
}

/// The decimal representation of `n`, as `Display` writes it.
pub open spec fn decimal(n: nat) -> Seq<char>
    decreases n,
{
    if n < 10 {
        seq![digit_char(n)]
    } else {
        decimal(n / 10).push(digit_char(n % 10))
    }
}

/// The number a string of decimal digits stands for.
pub open spec fn decimal_value(s: Seq<char>) -> int
    decreases s.len(),
{
    if s.len() == 0 {
        0
    } else {
        decimal_value(s.drop_last()) * 10 + (s.last() as int - '0' as int)
    }
}

proof fn lemma_digit_char(d: nat)
    requires
        d < 10,
    ensures
        digit_char(d) as int - '0' as int == d,
{
    assert(seq!['0', '1', '2', '3', '4', '5', '6', '7', '8', '9'][d as int] as int == 48 + d);
}

/// The decimal representation names exactly the number: a label shows the
/// true size of the image.
pub proof fn lemma_decimal_value(n: nat)
    ensures
        decimal_value(decimal(n)) == n,
        decimal(n).len() >= 1,
    decreases n,
{
    if n < 10 {
        lemma_digit_char(n);
        assert(decimal(n).drop_last() =~= Seq::<char>::empty());
        assert(decimal_value(Seq::<char>::empty()) == 0);
        assert(decimal(n).last() == digit_char(n));
    } else {
        lemma_decimal_value(n / 10);
        lemma_digit_char(n % 10);
        assert(decimal(n).drop_last() =~= decimal(n / 10));
        assert(decimal(n).last() == digit_char(n % 10));
        assert(n == (n / 10) * 10 + n % 10);
    }
}

fn digit_str(d: usize) -> (r: &'static str)
    requires
        d < 10,
    ensures
        r@ == seq![digit_char(d as nat)],
{
    let r = match d {
        0 => "0",
        1 => "1",
        2 => "2",
        3 => "3",
        4 => "4",
        5 => "5",
        6 => "6",
        7 => "7",
        8 => "8",
        _ => "9",
    };
    proof {
        reveal_strlit("0");
        reveal_strlit("1");
        reveal_strlit("2");
        reveal_strlit("3");
        reveal_strlit("4");
        reveal_strlit("5");
        reveal_strlit("6");
        reveal_strlit("7");
        reveal_strlit("8");
        reveal_strlit("9");
        assert(r@ =~= seq![digit_char(d as nat)]);
    }
    r
}

/// Appends the decimal representation of `n` to `s`.
pub fn push_decimal(s: &mut String, n: usize)
    ensures
        final(s)@ == old(s)@ + decimal(n as nat),
    decreases n,
{
    if n >= 10 {
        push_decimal(s, n / 10);
    }
    s.append(digit_str(n % 10));
    assert(final(s)@ =~= old(s)@ + decimal(n as nat)) by {
        if n >= 10 {
        }
    }
}

/// The label shown for an image: `Image (W×H)`.
pub open spec fn image_label_of(width: nat, height: nat) -> Seq<char> {
    seq!['I', 'm', 'a', 'g', 'e', ' ', '('] + decimal(width) + seq!['\u{d7}'] + decimal(height)
        + seq![')']
}

/// Whether every character of `s` is a decimal digit.
pub open spec fn all_digits(s: Seq<char>) -> bool {
    forall|i: int| 0 <= i < s.len() ==> '0' <= #[trigger] s[i] <= '9'
}

proof fn lemma_decimal_digits(n: nat)
    ensures
        all_digits(decimal(n)),
    decreases n,
{
    if n < 10 {
        lemma_digit_char(n);
    } else {
        lemma_decimal_digits(n / 10);
        lemma_digit_char(n % 10);
        assert forall|i: int| 0 <= i < decimal(n).len() implies '0' <= #[trigger] decimal(n)[i]
            <= '9' by {
            if i < decimal(n / 10).len() {
                assert(decimal(n)[i] == decimal(n / 10)[i]);
            }
        }
    }
}

/// The label of an image reads `Image (`, then the width's digits, `×`, the
/// height's digits and `)`: the width always comes first, and each number is
/// written with digits that read back as exactly that number.
pub proof fn lemma_image_label_reads_back(w: nat, h: nat)
    ensures
        image_label_of(w, h) == "Image ("@ + decimal(w) + "\u{d7}"@ + decimal(h) + ")"@,
        all_digits(decimal(w)),
        all_digits(decimal(h)),
        decimal(w).len() >= 1,
        decimal(h).len() >= 1,
        decimal_value(decimal(w)) == w,
        decimal_value(decimal(h)) == h,
{
    reveal_strlit("Image (");
    reveal_strlit("\u{d7}");
    reveal_strlit(")");
    lemma_decimal_digits(w);
    lemma_decimal_digits(h);
    lemma_decimal_value(w);
    lemma_decimal_value(h);
    assert(image_label_of(w, h) =~= "Image ("@ + decimal(w) + "\u{d7}"@ + decimal(h) + ")"@);
}

/// Formats the label shown for an image of the given size.
pub fn image_label(width: usize, height: usize) -> (r: String)
    ensures
        r@ == image_label_of(width as nat, height as nat),
{
    let mut r = String::from_str("Image (");
    push_decimal(&mut r, width);
    r.append("\u{d7}");
    push_decimal(&mut r, height);
    r.append(")");
    proof {
        reveal_strlit("Image (");
        reveal_strlit("\u{d7}");
        reveal_strlit(")");
        assert(r@ =~= image_label_of(width as nat, height as nat));
    }
    r
}

} // verus!
