//! The clipboard monitor: whether to look at the clipboard, and whether what is
//! there is new enough to be shown.

use crate::clip::{ClipImage, ClipPayload};
use crate::fingerprint::{hash_image, hash_text, image_fingerprint_of, text_fingerprint_of};
use crate::payload::{
    base64_thumbnail_ok, image_payload, image_payload_png_base64, is_base64_image_payload,
    is_image_payload, is_text_payload, text_payload, thumbnail_ok, WATCH_IMAGE_DIM,
    WATCH_TEXT_LIMIT,
};
use vstd::prelude::*;
use vstd::string::*;

verus! {

/// Milliseconds between two looks at the clipboard.
pub const POLL_INTERVAL_MS: u64 = 250;

/// Milliseconds the monitor waits while it is paused or the overlay is open.
pub const IDLE_INTERVAL_MS: u64 = 400;

/// State of the clipboard monitor.
#[derive(Debug, Clone, Copy, PartialEq, Eq, Structural)]
pub struct Monitor {
    /// Monitoring was paused from the tray.
    pub paused: bool,
    /// Fingerprint of the last content that was reported.
    pub last_fingerprint: Option<u64>,
    /// The safe-paste overlay is open.
    pub preview_active: bool,
}

/// What the monitor does next.
#[derive(Debug, Clone, Copy, PartialEq, Eq, Structural)]
pub enum WatchStep {
    /// Wait [`IDLE_INTERVAL_MS`] without reading the clipboard.
    Idle,
    /// Read the clipboard, then wait [`POLL_INTERVAL_MS`].
    Read,
}

/// The step the monitor takes in state `m`.
pub open spec fn step_of(m: Monitor) -> WatchStep {
    if m.paused || m.preview_active {
        WatchStep::Idle
    } else {
        WatchStep::Read
    }
}

/// Whether content with fingerprint `fp` is reported in state `m`.
pub open spec fn reports(m: Monitor, fp: u64) -> bool {
    m.last_fingerprint != Some(fp)
}

/// The state after content with fingerprint `fp` was seen.
pub open spec fn seen(m: Monitor, fp: u64) -> Monitor {
    Monitor { last_fingerprint: Some(fp), ..m }
}

/// The state after the tray's pause item was chosen.
pub open spec fn pause_toggled(m: Monitor) -> Monitor {
    Monitor { paused: !m.paused, ..m }
}

/// The state with the overlay open (`true`) or closed (`false`).
pub open spec fn with_preview(m: Monitor, active: bool) -> Monitor {
    Monitor { preview_active: active, ..m }
}

impl Monitor {
    /// A monitor that is running, has reported nothing and shows no overlay.
    pub fn new() -> (m: Monitor)
        ensures
            m == (Monitor { paused: false, last_fingerprint: None, preview_active: false }),
    {
        Monitor { paused: false, last_fingerprint: None, preview_active: false }
    }

    /// Whether to read the clipboard now: not while paused or while the overlay
    /// is open.
    pub fn poll(&self) -> (s: WatchStep)
        ensures
            s == step_of(*self),
    {
        if self.paused || self.preview_active {
            WatchStep::Idle
        } else {
            WatchStep::Read
        }
    }

    /// Flips between paused and running.
    pub fn toggle_pause(&mut self)
        ensures
            *final(self) == pause_toggled(*old(self)),
    {
        self.paused = !self.paused;
    }

    /// The overlay was opened.
    pub fn begin_preview(&mut self)
        ensures
            *final(self) == with_preview(*old(self), true),
    {
        self.preview_active = true;
    }

    /// The overlay was confirmed: closes it and says whether to paste, which is
    /// only when the overlay was open, so that a paste cannot be injected
    /// outside the confirmation flow.
    pub fn confirm_paste(&mut self) -> (inject: bool)
        ensures
            inject == old(self).preview_active,
            *final(self) == with_preview(*old(self), false),
    {
        let inject = self.preview_active;
        self.preview_active = false;
        inject
    }

    /// The overlay was cancelled (or confirmed).
    pub fn end_preview(&mut self)
        ensures
            *final(self) == with_preview(*old(self), false),
    {
        self.preview_active = false;
    }

    /// Whether content with fingerprint `fp` would be reported now.
    pub fn reports(&self, fp: u64) -> (r: bool)
        ensures
            r == reports(*self, fp),
    {
        match self.last_fingerprint {
            Some(last) => last != fp,
            None => true,
        }
    }

    /// Notes that content with fingerprint `fp` is on the clipboard; true when it
    /// differs from the last content noted.
    pub fn record_fingerprint(&mut self, fp: u64) -> (changed: bool)
        ensures
            changed == reports(*old(self), fp),
            *final(self) == seen(*old(self), fp),
    {
        let changed = match self.last_fingerprint {
            Some(last) => last != fp,
            None => true,
        };
        self.last_fingerprint = Some(fp);
        changed
    }

    /// Looks at clipboard text: reports it, shortened for the toast, when its
    /// fingerprint differs from the last one noted.
    pub fn observe_text(&mut self, text: String) -> (p: Option<ClipPayload>)
        ensures
            *final(self) == seen(*old(self), text_fingerprint_of(text@)),
            p is Some <==> reports(*old(self), text_fingerprint_of(text@)),
            p matches Some(q) ==> is_text_payload(q, text@, WATCH_TEXT_LIMIT as nat),
    {
        let fp = hash_text(text.as_str());
        if self.record_fingerprint(fp) {
            Some(text_payload(text, WATCH_TEXT_LIMIT))
        } else {
            None
        }
    }

    /// Looks at clipboard text as the monitor does since empty text is skipped:
    /// empty text changes nothing and is not reported.
    pub fn watch_text(&mut self, text: String) -> (p: Option<ClipPayload>)
        ensures
            text@.len() == 0 ==> *final(self) == *old(self) && p is None,
            text@.len() != 0 ==> {
                &&& *final(self) == seen(*old(self), text_fingerprint_of(text@))
                &&& p is Some <==> reports(*old(self), text_fingerprint_of(text@))
                &&& p matches Some(q) ==> is_text_payload(q, text@, WATCH_TEXT_LIMIT as nat)
            },
    {
        if text.as_str().is_empty() {
            None
        } else {
            self.observe_text(text)
        }
    }

    /// Looks at a clipboard image: reports it with a thumbnail for the toast when
    /// its fingerprint differs from the last one noted (`scaled` is the size the
    /// thumbnail is scaled down to). The thumbnail is encoded only then.
    pub fn observe_image(&mut self, img: &ClipImage, scaled: (u32, u32)) -> (p: Option<
        ClipPayload,
    >)
        requires
            reports(*old(self), image_fingerprint_of(img.width, img.height, img.bytes@))
                ==> thumbnail_ok(*img, WATCH_IMAGE_DIM, scaled),
        ensures
            *final(self) == seen(*old(self), image_fingerprint_of(img.width, img.height, img.bytes@)),
            p is Some <==> reports(*old(self), image_fingerprint_of(img.width, img.height, img.bytes@)),
            p matches Some(q) ==> is_image_payload(q, *img, WATCH_IMAGE_DIM, scaled),
    {
        let fp = hash_image(img);
        if self.record_fingerprint(fp) {
            Some(image_payload(img, WATCH_IMAGE_DIM, scaled))
        } else {
            None
        }
    }

    /// Looks at a clipboard image like [`Monitor::observe_image`], with the
    /// thumbnail from [`image_to_png_base64`] (which fails softly, with no
    /// thumbnail, on a buffer that does not match the image's size).
    pub fn observe_image_png_base64(&mut self, img: &ClipImage, scaled: (u32, u32)) -> (p: Option<
        ClipPayload,
    >)
        requires
            reports(*old(self), image_fingerprint_of(img.width, img.height, img.bytes@))
                ==> base64_thumbnail_ok(*img, WATCH_IMAGE_DIM, scaled),
        ensures
            *final(self) == seen(*old(self), image_fingerprint_of(img.width, img.height, img.bytes@)),
            p is Some <==> reports(*old(self), image_fingerprint_of(img.width, img.height, img.bytes@)),
            p matches Some(q) ==> is_base64_image_payload(q, *img, WATCH_IMAGE_DIM, scaled),
    {
        let fp = hash_image(img);
        if self.record_fingerprint(fp) {
            Some(image_payload_png_base64(img, WATCH_IMAGE_DIM, scaled))
        } else {
            None
        }
    }
}

/// Content is reported exactly when its fingerprint differs from the last one
/// seen; a different fingerprint is always reported.
pub proof fn lemma_change_reported(m: Monitor, fp1: u64, fp2: u64)
    ensures
        fp1 != fp2 ==> reports(seen(m, fp1), fp2),
        fp1 == fp2 ==> !reports(seen(m, fp1), fp2),
{
}

/// The state after contents with the fingerprints `fps` were seen in turn.
pub open spec fn seen_all(m: Monitor, fps: Seq<u64>) -> Monitor
    decreases fps.len(),
{
    if fps.len() == 0 {
        m
    } else {
        seen(seen_all(m, fps.drop_last()), fps.last())
    }
}

/// Over a run of clipboard contents, a content is reported exactly when its
/// fingerprint differs from that of the content before it, and the first one
/// when it differs from the last one seen before the run; seeing contents
/// changes nothing but the remembered fingerprint.
pub proof fn lemma_reports_changes(m: Monitor, fps: Seq<u64>, i: int)
    requires
        0 <= i < fps.len(),
    ensures
        i == 0 ==> (reports(seen_all(m, fps.take(i)), fps[i]) == reports(m, fps[0])),
        i > 0 ==> (reports(seen_all(m, fps.take(i)), fps[i]) == (fps[i - 1] != fps[i])),
        seen_all(m, fps.take(i)).paused == m.paused,
        seen_all(m, fps.take(i)).preview_active == m.preview_active,
    decreases i,
{
    if i == 0 {
        assert(fps.take(0) =~= Seq::<u64>::empty());
    } else {
        let pre = fps.take(i);
        assert(pre.drop_last() =~= fps.take(i - 1));
        assert(pre.last() == fps[i - 1]);
        lemma_reports_changes(m, fps, i - 1);
    }
}

/// The state after the pause item was chosen `k` times.
pub open spec fn pause_toggled_n(m: Monitor, k: nat) -> Monitor
    decreases k,
{
    if k == 0 {
        m
    } else {
        pause_toggled(pause_toggled_n(m, (k - 1) as nat))
    }
}

/// Choosing the pause item `k` times pauses exactly when the monitor was
/// running and `k` is odd, or paused and `k` is even; nothing else changes.
pub proof fn lemma_pause_k_times(m: Monitor, k: nat)
    ensures
        pause_toggled_n(m, k).paused == (m.paused != (k % 2 == 1)),
        pause_toggled_n(m, k).last_fingerprint == m.last_fingerprint,
        pause_toggled_n(m, k).preview_active == m.preview_active,
    decreases k,
{
    if k > 0 {
        lemma_pause_k_times(m, (k - 1) as nat);
    }
}

/// While the clipboard keeps the same content, it is reported on the first
/// look at most, and on the first look exactly when it is new.
pub proof fn lemma_steady_content(m: Monitor, fp: u64, n: nat, i: int)
    requires
        0 <= i < n,
    ensures
        reports(seen_all(m, Seq::new(n, |j: int| fp).take(i)), fp) == (i == 0 && reports(m, fp)),
{
    let fps = Seq::new(n, |j: int| fp);
    lemma_reports_changes(m, fps, i);
    if i == 0 {
        assert(fps.take(0) =~= Seq::<u64>::empty());
    }
}

/// Choosing the pause item twice leaves the monitor as it was.
pub proof fn lemma_pause_twice(m: Monitor)
    ensures
        pause_toggled(pause_toggled(m)) == m,
{
}

/// A paused monitor, or one whose overlay is open, does not read the clipboard.
pub proof fn lemma_quiet_when_paused_or_previewing(m: Monitor)
    ensures
        m.paused ==> step_of(m) == WatchStep::Idle,
        m.preview_active ==> step_of(m) == WatchStep::Idle,
        step_of(with_preview(m, true)) == WatchStep::Idle,
        !m.paused ==> step_of(pause_toggled(m)) == WatchStep::Idle,
{
}

/// Opening and then closing the overlay gives back a monitor that reads the
/// clipboard exactly when it is not paused, and keeps what it has seen.
pub proof fn lemma_preview_round_trip(m: Monitor)
    ensures
        with_preview(with_preview(m, true), false) == with_preview(m, false),
        step_of(with_preview(with_preview(m, true), false)) == if m.paused {
            WatchStep::Idle
        } else {
            WatchStep::Read
        },
        with_preview(with_preview(m, true), false).last_fingerprint == m.last_fingerprint,
{
}

/// The same text seen twice in a row is reported at most once.
pub proof fn lemma_same_text_reported_once(m: Monitor, text: Seq<char>)
    ensures
        !reports(seen(m, text_fingerprint_of(text)), text_fingerprint_of(text)),
{
}

/// The same image seen twice in a row is reported at most once.
pub proof fn lemma_same_image_reported_once(m: Monitor, img: ClipImage)
    ensures
        !reports(
            seen(m, image_fingerprint_of(img.width, img.height, img.bytes@)),
            image_fingerprint_of(img.width, img.height, img.bytes@),
        ),
{
}

} // verus!
