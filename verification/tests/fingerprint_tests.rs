use pip_clip::clip::ClipImage;
use pip_clip::fingerprint::{hash_image, hash_text, image_fingerprint, text_fingerprint};
use std::collections::hash_map::DefaultHasher;
use std::hash::{Hash, Hasher};

fn std_text_hash(s: &str) -> u64 {
    let mut h = DefaultHasher::new();
    s.hash(&mut h);
    h.finish()
}

fn std_image_hash(width: usize, height: usize, bytes: &[u8]) -> u64 {
    let mut h = DefaultHasher::new();
    width.hash(&mut h);
    height.hash(&mut h);
    let step = bytes.len().saturating_div(64).max(1);
    for i in (0..bytes.len()).step_by(step) {
        bytes[i].hash(&mut h);
    }
    h.finish()
}

#[test]
fn text_hash_matches_str_hash() {
    for s in ["", "hello", "héllo wörld", "clipboard\ncontents\t…", "a"] {
        assert_eq!(hash_text(s), std_text_hash(s));
    }
}

#[test]
fn text_fingerprint_equals_hash_text() {
    assert_eq!(text_fingerprint("abc"), hash_text("abc"));
    assert_ne!(text_fingerprint("abc"), text_fingerprint("abd"));
}

#[test]
fn image_hash_matches_sampled_std_hash() {
    for len in [0usize, 1, 63, 64, 127, 128, 129, 1000, 4096, 10007] {
        let bytes: Vec<u8> = (0..len).map(|i| (i * 31 % 251) as u8).collect();
        let img = ClipImage { width: 7, height: 9, bytes: bytes.clone() };
        assert_eq!(hash_image(&img), std_image_hash(7, 9, &bytes), "len {len}");
        assert_eq!(image_fingerprint(&img), hash_image(&img));
    }
}

#[test]
fn image_hash_sees_size_and_samples() {
    let a = ClipImage { width: 2, height: 2, bytes: vec![1; 16] };
    let b = ClipImage { width: 4, height: 1, bytes: vec![1; 16] };
    let mut c_bytes = vec![1; 16];
    c_bytes[5] = 9;
    let c = ClipImage { width: 2, height: 2, bytes: c_bytes };
    assert_ne!(hash_image(&a), hash_image(&b));
    assert_ne!(hash_image(&a), hash_image(&c));
}

#[test]
fn image_hash_skips_unsampled_bytes() {
    // 6400 bytes: stride 100, so byte 50 is not sampled.
    let a = ClipImage { width: 40, height: 40, bytes: vec![0; 6400] };
    let mut other = vec![0; 6400];
    other[50] = 7;
    let b = ClipImage { width: 40, height: 40, bytes: other };
    assert_eq!(hash_image(&a), hash_image(&b));
    let mut sampled = vec![0; 6400];
    sampled[100] = 7;
    let c = ClipImage { width: 40, height: 40, bytes: sampled };
    assert_ne!(hash_image(&a), hash_image(&c));
}
