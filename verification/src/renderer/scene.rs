//! The render loop's decisions between frames: whether a frame must be
//! drawn at all, which lyric line is current, how the lyric view moves to
//! it, and how long the previous track's album art is held while the new
//! one loads. Times are milliseconds on a monotonic clock.

use vstd::prelude::*;
use crate::renderer::text::TrackLabel;

verus! {

/// Longest pause between two presented frames while the scene is static.
pub const STATIC_SCENE_HEARTBEAT_MS: u64 = 1000;

/// How long the previous track's art stays on screen while the new track's
/// art is still being fetched.
pub const ART_GRACE_MS: u64 = 10_000;

/// Lines the current lyric may move by and still scroll smoothly; larger
/// moves (a seek, a new track) jump.
pub const LYRIC_SCROLL_LIMIT: usize = 2;

// ---------------------------------------------------------------------------
// Redraw pausing
// ---------------------------------------------------------------------------

/// What the render loop remembers between frames to decide whether an
/// identical frame can be skipped.
#[derive(Clone, Copy, Debug, PartialEq, Eq, Structural)]
pub struct RedrawGate {
    /// Whether any frame has been presented yet.
    pub has_presented: bool,
    /// Whether the scene was in motion on the previous frame.
    pub was_animating: bool,
    /// When the last frame was presented.
    pub last_present_ms: u64,
}

/// Milliseconds from `earlier` to `now`, zero if the clock reads earlier.
pub open spec fn elapsed_ms(earlier: u64, now: u64) -> int {
    if now >= earlier {
        now - earlier
    } else {
        0
    }
}

/// A frame is needed when something changed, something moves, motion has
/// just stopped (the settle frame), nothing was presented yet, or the
/// heartbeat is due.
pub open spec fn spec_needs_draw(gate: RedrawGate, now_ms: u64, dirty: bool, animating: bool) -> bool {
    ||| dirty
    ||| animating
    ||| (gate.was_animating && !animating)
    ||| !gate.has_presented
    ||| elapsed_ms(gate.last_present_ms, now_ms) >= STATIC_SCENE_HEARTBEAT_MS
}

impl RedrawGate {
    /// The state at start-up: nothing presented, and the scene treated as
    /// moving so that the first stillness gets its settle frame.
    pub fn new(now_ms: u64) -> (r: RedrawGate)
        ensures
            !r.has_presented,
            r.was_animating,
            r.last_present_ms == now_ms,
    {
        RedrawGate { has_presented: false, was_animating: true, last_present_ms: now_ms }
    }

    /// Decides one frame: returns whether to draw and present it. A frame
    /// is drawn when it is needed and some monitor is ready to show it.
    pub fn frame(&mut self, now_ms: u64, dirty: bool, animating: bool, monitor_ready: bool) -> (draw:
        bool)
        ensures
            draw == (spec_needs_draw(*old(self), now_ms, dirty, animating) && monitor_ready),
            final(self).was_animating == animating,
            draw ==> final(self).has_presented && final(self).last_present_ms == now_ms,
            !draw ==> final(self).has_presented == old(self).has_presented
                && final(self).last_present_ms == old(self).last_present_ms,
    {
        let settle_frame = self.was_animating && !animating;
        self.was_animating = animating;
        let since = if now_ms >= self.last_present_ms {
            now_ms - self.last_present_ms
        } else {
            0
        };
        let needs_draw = dirty || animating || settle_frame || !self.has_presented || since
            >= STATIC_SCENE_HEARTBEAT_MS;
        let draw = needs_draw && monitor_ready;
        if draw {
            self.last_present_ms = now_ms;
            self.has_presented = true;
        }
        draw
    }
}

/// The first frame is always drawn once a monitor is ready.
pub proof fn first_frame_is_drawn(gate: RedrawGate, now_ms: u64, dirty: bool, animating: bool)
    requires
        !gate.has_presented,
    ensures
        spec_needs_draw(gate, now_ms, dirty, animating),
{
}

/// However still the scene, a frame is presented at least once per
/// heartbeat.
pub proof fn static_scene_keeps_a_heartbeat(gate: RedrawGate, now_ms: u64, dirty: bool, animating: bool)
    requires
        now_ms >= gate.last_present_ms + STATIC_SCENE_HEARTBEAT_MS,
    ensures
        spec_needs_draw(gate, now_ms, dirty, animating),
{
}

/// The frame on which motion stops is drawn, so nothing is left mid-decay
/// on screen.
pub proof fn motion_stopping_draws_a_settle_frame(gate: RedrawGate, now_ms: u64, dirty: bool)
    requires
        gate.was_animating,
    ensures
        spec_needs_draw(gate, now_ms, dirty, false),
{
}

/// A still, unchanged scene that was presented less than a heartbeat ago
/// is not redrawn.
pub proof fn still_scene_is_not_redrawn(gate: RedrawGate, now_ms: u64)
    requires
        gate.has_presented,
        !gate.was_animating,
        gate.last_present_ms <= now_ms < gate.last_present_ms + STATIC_SCENE_HEARTBEAT_MS,
    ensures
        !spec_needs_draw(gate, now_ms, false, false),
{
}

// ---------------------------------------------------------------------------
// Lyrics
// ---------------------------------------------------------------------------

/// Line start times in playback order.
pub open spec fn starts_sorted(starts: Seq<u64>) -> bool {
    forall|i: int, j: int| 0 <= i <= j < starts.len() ==> starts[i] <= starts[j]
}

/// `idx` is the number of lines that have started at `pos_ms`: every line
/// before it has started and none from it on has.
pub open spec fn is_started_count(starts: Seq<u64>, pos_ms: u64, idx: int) -> bool {
    &&& 0 <= idx <= starts.len()
    &&& forall|i: int| 0 <= i < idx ==> #[trigger] starts[i] <= pos_ms
    &&& forall|i: int| idx <= i < starts.len() ==> #[trigger] starts[i] > pos_ms
}

/// Binary search for the number of lines whose start is at or before
/// `pos_ms`.
fn started_line_count(starts: &[u64], pos_ms: u64) -> (r: usize)
    ensures
        r <= starts@.len(),
        starts_sorted(starts@) ==> is_started_count(starts@, pos_ms, r as int),
{
    let mut lo: usize = 0;
    let mut hi: usize = starts.len();
    while lo < hi
        invariant
            lo <= hi <= starts@.len(),
            starts_sorted(starts@) ==> forall|i: int| 0 <= i < lo ==> #[trigger] starts@[i] <= pos_ms,
            starts_sorted(starts@) ==> forall|i: int|
                hi <= i < starts@.len() ==> #[trigger] starts@[i] > pos_ms,
        decreases hi - lo,
    {
        let mid = lo + (hi - lo) / 2;
        if starts[mid] <= pos_ms {
            lo = mid + 1;
        } else {
            hi = mid;
        }
    }
    lo
}

/// The current lyric line index (the number of lines started) at playback
/// position `pos_ms`. The index of the previous frame is kept when it is
/// still right, which is the common case; otherwise it is searched for.
pub fn current_lyric_index(starts: &[u64], pos_ms: u64, previous: usize) -> (r: usize)
    ensures
        r <= starts@.len(),
        starts_sorted(starts@) ==> is_started_count(starts@, pos_ms, r as int),
{
    let len = starts.len();
    let in_bounds = if previous == 0 {
        len == 0 || pos_ms < starts[0]
    } else if previous - 1 < len {
        if pos_ms < starts[previous - 1] {
            false
        } else {
            previous >= len || pos_ms < starts[previous]
        }
    } else {
        false
    };
    if in_bounds {
        proof {
            if starts_sorted(starts@) {
                if previous == 0 {
                    assert forall|i: int| 0 <= i < len implies #[trigger] starts@[i] > pos_ms by {
                        assert(starts@[0] <= starts@[i]);
                    }
                } else {
                    assert forall|i: int| 0 <= i < previous implies #[trigger] starts@[i]
                        <= pos_ms by {
                        assert(starts@[i] <= starts@[previous - 1]);
                    }
                    assert forall|i: int| previous <= i < len implies #[trigger] starts@[i]
                        > pos_ms by {
                        assert(starts@[previous as int] <= starts@[i]);
                    }
                }
            }
        }
        previous
    } else {
        started_line_count(starts, pos_ms)
    }
}

/// How the lyric view follows a change of the current line.
#[derive(Clone, Copy, Debug, PartialEq, Eq, Structural)]
pub enum LyricShift {
    /// The view snaps to the new line with no scroll animation.
    Jump,
    /// The view scrolls by this many lines (positive: back up the page).
    Scroll(i64),
}

/// The move from line `previous` to line `current`: a jump when it spans
/// more than `LYRIC_SCROLL_LIMIT` lines, otherwise a scroll by the
/// difference; `None` when the line did not change.
pub fn lyric_shift(previous: usize, current: usize) -> (r: Option<LyricShift>)
    ensures
        previous == current ==> r.is_none(),
        previous != current && (previous - current > LYRIC_SCROLL_LIMIT || current - previous
            > LYRIC_SCROLL_LIMIT) ==> r == Some(LyricShift::Jump),
        previous != current && -(LYRIC_SCROLL_LIMIT as int) <= previous - current
            <= LYRIC_SCROLL_LIMIT ==> r == Some(LyricShift::Scroll((previous - current) as i64)),
{
    if previous == current {
        None
    } else if current > previous {
        let d = current - previous;
        if d > LYRIC_SCROLL_LIMIT {
            Some(LyricShift::Jump)
        } else {
            Some(LyricShift::Scroll(-(d as i64)))
        }
    } else {
        let d = previous - current;
        if d > LYRIC_SCROLL_LIMIT {
            Some(LyricShift::Jump)
        } else {
            Some(LyricShift::Scroll(d as i64))
        }
    }
}

// ---------------------------------------------------------------------------
// Holding the previous album art while the next one loads
// ---------------------------------------------------------------------------

/// Whether album art is on screen, and the deadline by which a new track's
/// art must arrive before the old art fades out.
#[derive(Clone, Copy, Debug, PartialEq, Eq, Structural)]
pub struct ArtHold {
    pub has_album_art: bool,
    pub pending_deadline_ms: Option<u64>,
}

/// A new track started: with its art, the art is shown at once; without,
/// the previous art stays and a grace period starts.
pub open spec fn spec_track_changed(h: ArtHold, arrived_with_art: bool, now_ms: u64) -> ArtHold {
    if arrived_with_art {
        ArtHold { has_album_art: true, pending_deadline_ms: None }
    } else {
        ArtHold { pending_deadline_ms: Some((now_ms + ART_GRACE_MS) as u64), ..h }
    }
}

/// The current track's background fetch finished: art ends any wait; no
/// art ends a running grace period at once.
pub open spec fn spec_assets_loaded(h: ArtHold, arrived_with_art: bool, now_ms: u64) -> ArtHold {
    if arrived_with_art {
        ArtHold { has_album_art: true, pending_deadline_ms: None }
    } else if h.pending_deadline_ms is Some {
        ArtHold { pending_deadline_ms: Some(now_ms), ..h }
    } else {
        h
    }
}

/// Whether the grace period is over and the held art should fade.
pub open spec fn spec_deadline_passed(h: ArtHold, now_ms: u64) -> bool {
    match h.pending_deadline_ms {
        Some(d) => now_ms >= d,
        None => false,
    }
}

impl ArtHold {
    /// No art and nothing pending.
    pub fn new() -> (r: ArtHold)
        ensures
            !r.has_album_art,
            r.pending_deadline_ms.is_none(),
    {
        ArtHold { has_album_art: false, pending_deadline_ms: None }
    }

    /// A new track started (see `spec_track_changed`).
    pub fn track_changed(&mut self, arrived_with_art: bool, now_ms: u64)
        requires
            now_ms <= u64::MAX - ART_GRACE_MS,
        ensures
            *final(self) == spec_track_changed(*old(self), arrived_with_art, now_ms),
    {
        if arrived_with_art {
            self.has_album_art = true;
            self.pending_deadline_ms = None;
        } else {
            self.pending_deadline_ms = Some(now_ms + ART_GRACE_MS);
        }
    }

    /// The current track's assets arrived (see `spec_assets_loaded`).
    pub fn assets_loaded(&mut self, arrived_with_art: bool, now_ms: u64)
        ensures
            *final(self) == spec_assets_loaded(*old(self), arrived_with_art, now_ms),
    {
        if arrived_with_art {
            self.has_album_art = true;
            self.pending_deadline_ms = None;
        } else if self.pending_deadline_ms.is_some() {
            self.pending_deadline_ms = Some(now_ms);
        }
    }

    /// Whether the grace period is over and the held art should fade.
    pub fn deadline_passed(&self, now_ms: u64) -> (r: bool)
        ensures
            r == spec_deadline_passed(*self, now_ms),
    {
        match self.pending_deadline_ms {
            Some(d) => now_ms >= d,
            None => false,
        }
    }

    /// The held art has faded out completely and is dropped.
    pub fn fade_finished(&mut self)
        ensures
            !final(self).has_album_art,
            final(self).pending_deadline_ms is None,
    {
        self.has_album_art = false;
        self.pending_deadline_ms = None;
    }

    /// The player went away: art and any wait are cleared.
    pub fn player_shut_down(&mut self)
        ensures
            !final(self).has_album_art,
            final(self).pending_deadline_ms is None,
    {
        self.has_album_art = false;
        self.pending_deadline_ms = None;
    }
}

/// A track that changes without art keeps the old art on screen, unfaded,
/// for the whole grace period.
pub proof fn artless_track_keeps_the_old_art(h: ArtHold, t0: u64, t: u64)
    requires
        t0 <= u64::MAX - ART_GRACE_MS,
        t0 <= t < t0 + ART_GRACE_MS,
    ensures
        spec_track_changed(h, false, t0).has_album_art == h.has_album_art,
        !spec_deadline_passed(spec_track_changed(h, false, t0), t),
        spec_deadline_passed(spec_track_changed(h, false, t0), (t0 + ART_GRACE_MS) as u64),
{
}

/// If that track's fetch then ends without art, the fade starts at once.
pub proof fn artless_fetch_ends_the_grace_period(h: ArtHold, t0: u64, t1: u64)
    requires
        t0 <= u64::MAX - ART_GRACE_MS,
    ensures
        spec_deadline_passed(spec_assets_loaded(spec_track_changed(h, false, t0), false, t1), t1),
{
}

/// Art arriving, with the track or later, always ends the wait.
pub proof fn arriving_art_ends_the_wait(h: ArtHold, now_ms: u64, t: u64)
    requires
        now_ms <= u64::MAX - ART_GRACE_MS,
    ensures
        !spec_deadline_passed(spec_track_changed(h, true, now_ms), t),
        !spec_deadline_passed(spec_assets_loaded(h, true, now_ms), t),
        spec_track_changed(h, true, now_ms).has_album_art,
        spec_assets_loaded(h, true, now_ms).has_album_art,
{
}

// ---------------------------------------------------------------------------
// Late assets
// ---------------------------------------------------------------------------

/// Assets fetched in the background apply only if they are for the track
/// still playing; results for a track that has since changed are dropped.
pub fn assets_match_current(current: &Option<TrackLabel>, loaded: &TrackLabel) -> (r: bool)
    ensures
        r == match current {
            Some(c) => c.title@ == loaded.title@ && c.artist@ == loaded.artist@ && c.album@
                == loaded.album@,
            None => false,
        },
{
    match current {
        Some(c) => c.same_track(loaded),
        None => false,
    }
}

} // verus!
