use pip_clip::preview::{image_label, push_decimal, shorten_preview};

#[test]
fn short_text_is_kept() {
    assert_eq!(shorten_preview("hello".to_string(), 300), "hello");
    assert_eq!(shorten_preview("abc".to_string(), 3), "abc");
    assert_eq!(shorten_preview(String::new(), 0), "");
}

#[test]
fn long_text_is_cut_with_ellipsis() {
    let text = "x".repeat(310);
    let p = shorten_preview(text, 300);
    assert_eq!(p.len(), 303);
    assert!(p.ends_with('…'));
    assert_eq!(&p[..300], "x".repeat(300));
    assert_eq!(shorten_preview("abcd".to_string(), 3), "abc…");
    assert_eq!(shorten_preview("abcd".to_string(), 0), "…");
}

#[test]
fn cut_respects_characters() {
    // "é" takes two bytes: a cut inside it moves back to the character's start.
    assert_eq!(shorten_preview("ééé".to_string(), 2), "é…");
    assert_eq!(shorten_preview("ééé".to_string(), 3), "é…");
    assert_eq!(shorten_preview("héllo".to_string(), 2), "h…");
    assert_eq!(shorten_preview("éé".to_string(), 1), "…");
    let t = "a".to_string() + &"é".repeat(200);
    let p = shorten_preview(t.clone(), 300);
    assert_eq!(p, format!("a{}…", "é".repeat(149)));
    assert!(p.len() <= 303);
    assert!(t.starts_with(p.trim_end_matches('…')));
    // a four-byte character
    assert_eq!(shorten_preview("ab😀cd".to_string(), 5), "ab…");
}

#[test]
fn decimal_labels() {
    assert_eq!(image_label(1920, 1080), "Image (1920×1080)");
    assert_eq!(image_label(0, 7), "Image (0×7)");
    assert_eq!(image_label(usize::MAX, 10), format!("Image ({}×10)", usize::MAX));
    let mut s = String::from("n=");
    push_decimal(&mut s, 9050);
    assert_eq!(s, "n=9050");
}
