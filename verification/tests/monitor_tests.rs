use pip_clip::clip::ClipImage;
use pip_clip::fingerprint::hash_text;
use pip_clip::monitor::{Monitor, WatchStep, IDLE_INTERVAL_MS, POLL_INTERVAL_MS};
use pip_clip::fingerprint::hash_image;
use pip_clip::payload::{
    hotkey_payload, image_payload, image_payload_png_base64, nonempty_text_payload, text_payload,
    thumbnail_supported, HOTKEY_IMAGE_DIM, HOTKEY_TEXT_LIMIT, PREVIEW_IMAGE_DIM,
    PREVIEW_TEXT_LIMIT, WATCH_IMAGE_DIM, WATCH_TEXT_LIMIT,
};

#[test]
fn limits_and_intervals() {
    assert_eq!(WATCH_TEXT_LIMIT, 300);
    assert_eq!(WATCH_IMAGE_DIM, 320);
    assert_eq!(PREVIEW_TEXT_LIMIT, 2000);
    assert_eq!(PREVIEW_IMAGE_DIM, 640);
    assert_eq!(HOTKEY_TEXT_LIMIT, 600);
    assert_eq!(HOTKEY_IMAGE_DIM, 480);
    assert_eq!(POLL_INTERVAL_MS, 250);
    assert_eq!(IDLE_INTERVAL_MS, 400);
}

#[test]
fn new_monitor_reads() {
    let m = Monitor::new();
    assert!(!m.paused && !m.preview_active && m.last_fingerprint.is_none());
    assert_eq!(m.poll(), WatchStep::Read);
}

#[test]
fn paused_or_previewing_monitor_idles() {
    let mut m = Monitor::new();
    m.toggle_pause();
    assert_eq!(m.poll(), WatchStep::Idle);
    m.toggle_pause();
    assert_eq!(m, Monitor::new());
    m.begin_preview();
    assert_eq!(m.poll(), WatchStep::Idle);
    m.end_preview();
    assert_eq!(m.poll(), WatchStep::Read);
}

#[test]
fn same_text_is_reported_once() {
    let mut m = Monitor::new();
    let first = m.observe_text("copied".to_string()).expect("new text is reported");
    assert_eq!(first.kind, "text");
    assert_eq!(first.preview_text, "copied");
    assert_eq!(first.raw_len, 6);
    assert!(first.img_base64.is_none());
    assert_eq!(m.last_fingerprint, Some(hash_text("copied")));
    assert!(m.observe_text("copied".to_string()).is_none());
    assert!(m.observe_text("other".to_string()).is_some());
    assert!(m.observe_text("copied".to_string()).is_some());
}

#[test]
fn empty_text_is_skipped_by_watch() {
    let mut m = Monitor::new();
    assert!(m.watch_text(String::new()).is_none());
    assert_eq!(m, Monitor::new());
    // Without the skip, empty text is a content like any other.
    assert!(m.observe_text(String::new()).is_some());
}

#[test]
fn long_text_is_shortened_for_the_toast() {
    let mut m = Monitor::new();
    let p = m.watch_text("y".repeat(500)).unwrap();
    assert_eq!(p.preview_text, format!("{}…", "y".repeat(300)));
    assert_eq!(p.raw_len, 500);
}

#[test]
fn same_image_is_reported_once() {
    let img = ClipImage { width: 2, height: 1, bytes: vec![1, 2, 3, 4, 5, 6, 7, 8] };
    let mut m = Monitor::new();
    assert!(thumbnail_supported(&img, WATCH_IMAGE_DIM, (2, 1)));
    let p = m.observe_image(&img, (2, 1)).expect("new image is reported");
    assert_eq!(p.kind, "image");
    assert_eq!(p.preview_text, "Image (2×1)");
    assert_eq!(p.raw_len, 8);
    assert!(p.img_base64.unwrap().starts_with("data:image/png;base64,"));
    assert!(m.observe_image(&img, (2, 1)).is_none());
}

#[test]
fn payload_builders() {
    let p = text_payload("héllo".to_string(), 3);
    assert_eq!(p.preview_text, "hé…");
    assert_eq!(p.raw_len, 6);
    assert!(nonempty_text_payload(String::new(), 10).is_none());
    assert_eq!(nonempty_text_payload("a".to_string(), 10).unwrap().preview_text, "a");
    let empty = ClipImage { width: 0, height: 0, bytes: vec![] };
    let q = image_payload(&empty, 640, (1, 1));
    assert_eq!(q.preview_text, "Image (0×0)");
    assert!(q.img_base64.is_none());
}

#[test]
fn thumbnail_requirements() {
    let exact = ClipImage { width: 1, height: 1, bytes: vec![0; 4] };
    let surplus = ClipImage { width: 1, height: 1, bytes: vec![0; 8] };
    assert!(thumbnail_supported(&exact, 320, (1, 1)));
    assert!(!thumbnail_supported(&surplus, 320, (1, 1)));
    let tall = ClipImage { width: 0, height: 1000, bytes: vec![] };
    assert!(thumbnail_supported(&tall, 320, (1, 320)));
    let big = ClipImage { width: 1000, height: 10, bytes: vec![] };
    assert!(thumbnail_supported(&big, 320, (320, 3)));
    assert!(!thumbnail_supported(&big, 320, (321, 3)));
    assert!(!thumbnail_supported(&big, 320, (320, 0)));
    let huge = ClipImage { width: 1 << 31, height: 1 << 31, bytes: vec![] };
    assert!(!thumbnail_supported(&huge, 320, (320, 320)));
}

#[test]
fn only_changes_are_reported_over_a_run() {
    let mut m = Monitor::new();
    let run = ["a", "a", "b", "b", "a", "c", "c"];
    let reported: Vec<bool> = run.iter().map(|t| m.watch_text(t.to_string()).is_some()).collect();
    assert_eq!(reported, vec![true, false, true, false, true, true, false]);
    assert_eq!(m.last_fingerprint, Some(hash_text("c")));
    assert!(!m.paused && !m.preview_active);
}

#[test]
fn text_cut_inside_a_character_is_reported() {
    let mut m = Monitor::new();
    let t = "a".to_string() + &"é".repeat(200);
    let p = m.watch_text(t).unwrap();
    assert_eq!(p.preview_text, format!("a{}…", "é".repeat(149)));
    assert_eq!(p.raw_len, 401);
}

#[test]
fn unchanged_image_is_not_encoded_again() {
    // Surplus bytes cannot be encoded by `write_image`; an unchanged image is
    // not encoded at all.
    let img = ClipImage { width: 1, height: 1, bytes: vec![0; 8] };
    let mut m = Monitor::new();
    m.record_fingerprint(hash_image(&img));
    assert!(!m.reports(hash_image(&img)));
    assert!(m.observe_image(&img, (1, 1)).is_none());
}

#[test]
fn base64_thumbnail_fails_softly() {
    let img = ClipImage { width: 1, height: 1, bytes: vec![0; 8] };
    let mut m = Monitor::new();
    let p = m.observe_image_png_base64(&img, (1, 1)).expect("new image is reported");
    assert_eq!(p.preview_text, "Image (1×1)");
    assert!(p.img_base64.is_none());
    assert!(m.observe_image_png_base64(&img, (1, 1)).is_none());
    let good = ClipImage { width: 2, height: 2, bytes: vec![7; 16] };
    let q = image_payload_png_base64(&good, 320, (2, 2));
    assert!(q.img_base64.unwrap().starts_with("data:image/png;base64,"));
}

#[test]
fn hotkey_payload_prefers_text() {
    let img = ClipImage { width: 2, height: 1, bytes: vec![1; 8] };
    let p = hotkey_payload(Some(String::new()), Some(&img), (2, 1)).unwrap();
    assert_eq!(p.kind, "text");
    assert_eq!(p.preview_text, "");
    let long = hotkey_payload(Some("z".repeat(700)), None, (1, 1)).unwrap();
    assert_eq!(long.preview_text, format!("{}…", "z".repeat(600)));
    let q = hotkey_payload(None, Some(&img), (2, 1)).unwrap();
    assert_eq!(q.kind, "image");
    assert_eq!(q.preview_text, "Image (2×1)");
    assert!(q.img_base64.is_some());
    assert!(hotkey_payload(None, None, (1, 1)).is_none());
}

#[test]
fn paste_only_from_open_overlay() {
    let mut m = Monitor::new();
    assert!(!m.confirm_paste());
    m.begin_preview();
    assert!(m.confirm_paste());
    assert!(!m.preview_active);
    assert!(!m.confirm_paste());
}

#[test]
fn pausing_k_times() {
    let mut m = Monitor::new();
    for k in 1..=7 {
        m.toggle_pause();
        assert_eq!(m.paused, k % 2 == 1);
    }
    assert!(m.last_fingerprint.is_none() && !m.preview_active);
}
