//! Book-keeping of the wallpaper's layer surfaces, one per monitor: their
//! sizes, whether they have been configured, and whether a frame is still
//! in flight. The Wayland objects themselves ride along as opaque handles.

use vstd::prelude::*;

verus! {

/// Size a surface gets when the compositor leaves the choice to us.
pub const DEFAULT_WIDTH: u32 = 1920;

/// Size a surface gets when the compositor leaves the choice to us.
pub const DEFAULT_HEIGHT: u32 = 1080;

/// A surface whose frame callback has not come back for this long counts
/// as hidden (the compositor stops sending callbacks for occluded surfaces).
pub const OCCLUSION_MS: u64 = 100;

/// The state of one monitor's surface.
#[derive(Clone, Copy, Debug, PartialEq, Eq, Structural)]
pub struct WindowState {
    /// Identifies the surface (and its layer surface).
    pub surface_id: u64,
    /// Identifies the monitor it is on.
    pub output_id: u64,
    pub width: u32,
    pub height: u32,
    pub scale_factor: i32,
    pub first_configure: bool,
    pub frame_pending: bool,
    /// When the last frame callback was requested, in milliseconds of a
    /// monotonic clock.
    pub last_frame_request_ms: u64,
}

/// One surface: its state and the handles the application keeps for it.
pub struct WindowEntry<T> {
    pub state: WindowState,
    pub handles: T,
}

/// The physical size of one monitor's surface.
#[derive(Clone, Copy, Debug, PartialEq, Eq, Structural)]
pub struct OutputSize {
    pub width: u32,
    pub height: u32,
}

/// All surfaces, the ones waiting to be dropped, and a serial that changes
/// whenever the set of surfaces does.
pub struct WindowTable<T> {
    pub windows: Vec<WindowEntry<T>>,
    pub dead_windows: Vec<WindowEntry<T>>,
    pub configuration_serial: u32,
    pub is_transparent: bool,
}

/// Whether surface `w` is the one being retired: the monitor matches when
/// `by_output`, the surface otherwise.
pub open spec fn is_retired(w: WindowState, id: u64, by_output: bool) -> bool {
    if by_output {
        w.output_id == id
    } else {
        w.surface_id == id
    }
}

/// The serial after one change of the set of surfaces (wrapping).
pub open spec fn next_serial(s: u32) -> u32 {
    if s == u32::MAX { 0 } else { (s + 1) as u32 }
}

fn bump_serial(s: u32) -> (r: u32)
    ensures
        r == next_serial(s),
{
    if s == u32::MAX {
        0
    } else {
        s + 1
    }
}

/// The states of a list of surfaces.
pub open spec fn states<T>(ws: Seq<WindowEntry<T>>) -> Seq<WindowState> {
    ws.map_values(|e: WindowEntry<T>| e.state)
}

/// Whether surface `w` may be drawn to now: configured and not waiting for
/// a frame callback.
pub open spec fn is_ready(w: WindowState) -> bool {
    !w.frame_pending && w.first_configure
}

/// Whether surface `w` looks hidden at `now`.
pub open spec fn looks_hidden(w: WindowState, now: u64) -> bool {
    w.frame_pending && now >= w.last_frame_request_ms && now - w.last_frame_request_ms > OCCLUSION_MS
}

/// A surface's physical size: logical size times scale factor (the scale
/// factor taken as `u32`).
pub open spec fn spec_output_size(w: WindowState) -> OutputSize {
    OutputSize {
        width: (w.width * (w.scale_factor as u32)) as u32,
        height: (w.height * (w.scale_factor as u32)) as u32,
    }
}

/// The opaque region a surface gets: its whole area, unless the wallpaper
/// is transparent or the surface has no size yet.
pub open spec fn spec_opaque_region(w: WindowState, transparent: bool) -> Option<(u32, u32)> {
    if !transparent && w.width > 0 && w.height > 0 {
        Some((w.width, w.height))
    } else {
        None
    }
}

impl<T> WindowTable<T> {
    /// No surfaces yet.
    pub fn new(is_transparent: bool) -> (r: WindowTable<T>)
        ensures
            r.windows@.len() == 0 && r.dead_windows@.len() == 0,
            r.configuration_serial == 0,
            r.is_transparent == is_transparent,
    {
        WindowTable {
            windows: Vec::new(),
            dead_windows: Vec::new(),
            configuration_serial: 0,
            is_transparent,
        }
    }

    /// A monitor appeared: its surface starts unconfigured at the default
    /// size, and the serial moves on (wrapping).
    pub fn new_output(&mut self, surface_id: u64, output_id: u64, handles: T, now_ms: u64)
        ensures
            states(final(self).windows@) == states(old(self).windows@).push(
                WindowState {
                    surface_id,
                    output_id,
                    width: DEFAULT_WIDTH,
                    height: DEFAULT_HEIGHT,
                    scale_factor: 1,
                    first_configure: false,
                    frame_pending: false,
                    last_frame_request_ms: now_ms,
                },
            ),
            final(self).dead_windows@ == old(self).dead_windows@,
            final(self).configuration_serial == next_serial(old(self).configuration_serial),
            final(self).is_transparent == old(self).is_transparent,
    {
        let state = WindowState {
            surface_id,
            output_id,
            width: DEFAULT_WIDTH,
            height: DEFAULT_HEIGHT,
            scale_factor: 1,
            first_configure: false,
            frame_pending: false,
            last_frame_request_ms: now_ms,
        };
        self.windows.push(WindowEntry { state, handles });
        proof {
            assert(states(self.windows@) =~= states(old(self).windows@).push(state));
        }
        self.configuration_serial = bump_serial(self.configuration_serial);
    }

    /// Moves every surface that `is_retired` picks to the dead list, in
    /// order, moving the serial on once per surface.
    fn retire(&mut self, id: u64, by_output: bool)
        ensures
            states(final(self).windows@) == states(old(self).windows@).filter(
                |w: WindowState| !is_retired(w, id, by_output),
            ),
            states(final(self).dead_windows@) == states(old(self).dead_windows@) + states(
                old(self).windows@,
            ).filter(|w: WindowState| is_retired(w, id, by_output)),
            final(self).is_transparent == old(self).is_transparent,
    {
        let ghost keep_p = |w: WindowState| !is_retired(w, id, by_output);
        let ghost drop_p = |w: WindowState| is_retired(w, id, by_output);
        let ghost old_states = states(self.windows@);
        let ghost old_dead = states(self.dead_windows@);
        let mut old_windows: Vec<WindowEntry<T>> = Vec::new();
        std::mem::swap(&mut old_windows, &mut self.windows);
        let n = old_windows.len();
        let mut i: usize = 0;
        proof {
            assert(old_states.skip(0) =~= old_states);
            assert(old_states.take(0) =~= Seq::<WindowState>::empty());
            reveal_with_fuel(Seq::<_>::filter, 1);
            assert(old_dead + old_states.take(0).filter(drop_p) =~= old_dead);
        }
        while old_windows.len() > 0
            invariant
                n == old_states.len(),
                i + old_windows@.len() == n,
                states(old_windows@) == old_states.skip(i as int),
                states(self.windows@) == old_states.take(i as int).filter(keep_p),
                states(self.dead_windows@) == old_dead + old_states.take(i as int).filter(drop_p),
                self.is_transparent == old(self).is_transparent,
                keep_p == (|w: WindowState| !is_retired(w, id, by_output)),
                drop_p == (|w: WindowState| is_retired(w, id, by_output)),
            decreases old_windows@.len(),
        {
            let ghost before = old_windows@;
            let e = old_windows.remove(0);
            proof {
                assert(states(before)[0] == before[0].state);
                assert(old_states.skip(i as int)[0] == old_states[i as int]);
                assert(e.state == old_states[i as int]);
                assert forall|k: int| 0 <= k < old_windows@.len() implies states(old_windows@)[k]
                    == old_states.skip(i + 1)[k] by {
                    assert(old_windows@[k] == before[k + 1]);
                    assert(states(before)[k + 1] == old_states.skip(i as int)[k + 1]);
                }
                assert(states(old_windows@) =~= old_states.skip(i + 1));
                assert(old_states.take(i + 1).drop_last() =~= old_states.take(i as int));
                assert(old_states.take(i + 1).last() == old_states[i as int]);
                reveal_with_fuel(Seq::<_>::filter, 1);
            }
            let matches = if by_output { e.state.output_id == id } else { e.state.surface_id == id };
            let ghost st = e.state;
            let ghost dead_before = states(self.dead_windows@);
            let ghost live_before = states(self.windows@);
            if matches {
                self.dead_windows.push(e);
                self.configuration_serial = bump_serial(self.configuration_serial);
                proof {
                    let t1 = old_states.take(i + 1);
                    assert(is_retired(st, id, by_output));
                    assert(drop_p(st) && !keep_p(st));
                    assert(t1.filter(drop_p) == t1.drop_last().filter(drop_p).push(t1.last()));
                    assert(t1.filter(keep_p) == t1.drop_last().filter(keep_p));
                    assert(states(self.dead_windows@) =~= dead_before.push(st));
                    assert(old_dead + old_states.take(i + 1).filter(drop_p) =~= (old_dead
                        + old_states.take(i as int).filter(drop_p)).push(st));
                }
            } else {
                self.windows.push(e);
                proof {
                    let t1 = old_states.take(i + 1);
                    assert(!is_retired(st, id, by_output));
                    assert(!drop_p(st) && keep_p(st));
                    assert(t1.filter(keep_p) == t1.drop_last().filter(keep_p).push(t1.last()));
                    assert(t1.filter(drop_p) == t1.drop_last().filter(drop_p));
                    assert(states(self.windows@) =~= live_before.push(st));
                }
            }
            i = i + 1;
        }
        proof {
            assert(old_states.take(n as int) =~= old_states);
        }
    }

    /// A monitor went away: its surfaces are scheduled for removal, and the
    /// serial moves on once per surface.
    pub fn output_destroyed(&mut self, output_id: u64)
        ensures
            states(final(self).windows@) == states(old(self).windows@).filter(
                |w: WindowState| !is_retired(w, output_id, true),
            ),
            states(final(self).dead_windows@) == states(old(self).dead_windows@) + states(
                old(self).windows@,
            ).filter(|w: WindowState| is_retired(w, output_id, true)),
    {
        self.retire(output_id, true);
    }

    /// The compositor closed a layer surface: it is scheduled for removal.
    pub fn closed(&mut self, surface_id: u64)
        ensures
            states(final(self).windows@) == states(old(self).windows@).filter(
                |w: WindowState| !is_retired(w, surface_id, false),
            ),
            states(final(self).dead_windows@) == states(old(self).dead_windows@) + states(
                old(self).windows@,
            ).filter(|w: WindowState| is_retired(w, surface_id, false)),
    {
        self.retire(surface_id, false);
    }

    fn set_state(&mut self, i: usize, st: WindowState)
        requires
            i < old(self).windows@.len(),
        ensures
            states(final(self).windows@) == states(old(self).windows@).update(i as int, st),
            final(self).dead_windows@ == old(self).dead_windows@,
            final(self).configuration_serial == old(self).configuration_serial,
            final(self).is_transparent == old(self).is_transparent,
    {
        let e = self.windows.remove(i);
        self.windows.insert(i, WindowEntry { state: st, handles: e.handles });
        proof {
            assert(states(self.windows@) =~= states(old(self).windows@).update(i as int, st));
        }
    }

    /// Index of the surface `surface_id`, if there is one.
    pub fn find(&self, surface_id: u64) -> (r: Option<usize>)
        ensures
            match r {
                Some(i) => i < self.windows@.len() && self.windows@[i as int].state.surface_id
                    == surface_id && forall|j: int|
                    0 <= j < i ==> self.windows@[j].state.surface_id != surface_id,
                None => forall|j: int|
                    0 <= j < self.windows@.len() ==> self.windows@[j].state.surface_id != surface_id,
            },
    {
        let mut i: usize = 0;
        while i < self.windows.len()
            invariant
                i <= self.windows@.len(),
                forall|j: int| 0 <= j < i ==> self.windows@[j].state.surface_id != surface_id,
            decreases self.windows@.len() - i,
        {
            if self.windows[i].state.surface_id == surface_id {
                return Some(i);
            }
            i = i + 1;
        }
        None
    }

    /// The compositor configured surface `surface_id` with `width` x
    /// `height` (0 leaves the choice to us: the default size): the surface
    /// is configured and free to draw. Returns the opaque region to set
    /// (`None`: clear it), or `None` overall for an unknown surface.
    pub fn configure(&mut self, surface_id: u64, width: u32, height: u32) -> (r: Option<Option<(u32, u32)>>)
        ensures
            final(self).dead_windows@ == old(self).dead_windows@,
            final(self).configuration_serial == old(self).configuration_serial,
            final(self).is_transparent == old(self).is_transparent,
            match r {
                Some(region) => exists|i: int|
                    0 <= i < old(self).windows@.len() && old(self).windows@[i].state.surface_id
                        == surface_id && {
                        let w = old(self).windows@[i].state;
                        let nw = (WindowState {
                            width: if width == 0 { DEFAULT_WIDTH } else { width },
                            height: if height == 0 { DEFAULT_HEIGHT } else { height },
                            first_configure: true,
                            frame_pending: false,
                            ..w
                        });
                        &&& states(final(self).windows@) == states(old(self).windows@).update(i, nw)
                        &&& region == if old(self).is_transparent {
                            None
                        } else {
                            Some((nw.width, nw.height))
                        }
                    },
                None => states(final(self).windows@) == states(old(self).windows@) && forall|j: int|
                    0 <= j < old(self).windows@.len() ==> old(self).windows@[j].state.surface_id
                        != surface_id,
            },
    {
        let i = match self.find(surface_id) {
            Some(i) => i,
            None => return None,
        };
        let w = self.windows[i].state;
        let nw = WindowState {
            width: if width == 0 { DEFAULT_WIDTH } else { width },
            height: if height == 0 { DEFAULT_HEIGHT } else { height },
            first_configure: true,
            frame_pending: false,
            ..w
        };
        self.set_state(i, nw);
        let region = if self.is_transparent { None } else { Some((nw.width, nw.height)) };
        Some(region)
    }

    /// The compositor changed the scale factor of surface `surface_id`;
    /// returns whether the surface is known.
    pub fn scale_factor_changed(&mut self, surface_id: u64, factor: i32) -> (found: bool)
        ensures
            final(self).dead_windows@ == old(self).dead_windows@,
            final(self).configuration_serial == old(self).configuration_serial,
            final(self).is_transparent == old(self).is_transparent,
            found == exists|j: int|
                0 <= j < old(self).windows@.len() && old(self).windows@[j].state.surface_id
                    == surface_id,
            found ==> exists|i: int|
                0 <= i < old(self).windows@.len() && old(self).windows@[i].state.surface_id
                    == surface_id && states(final(self).windows@) == states(old(self).windows@).update(
                    i,
                    (WindowState { scale_factor: factor, ..old(self).windows@[i].state }),
                ),
            !found ==> states(final(self).windows@) == states(old(self).windows@),
    {
        match self.find(surface_id) {
            Some(i) => {
                let w = self.windows[i].state;
                self.set_state(i, WindowState { scale_factor: factor, ..w });
                true
            },
            None => false,
        }
    }

    /// The frame callback of surface `surface_id` came back: it may draw
    /// again. Returns whether the surface is known.
    pub fn frame_done(&mut self, surface_id: u64) -> (found: bool)
        ensures
            final(self).dead_windows@ == old(self).dead_windows@,
            final(self).configuration_serial == old(self).configuration_serial,
            final(self).is_transparent == old(self).is_transparent,
            found == exists|j: int|
                0 <= j < old(self).windows@.len() && old(self).windows@[j].state.surface_id
                    == surface_id,
            found ==> exists|i: int|
                0 <= i < old(self).windows@.len() && old(self).windows@[i].state.surface_id
                    == surface_id && states(final(self).windows@) == states(old(self).windows@).update(
                    i,
                    (WindowState { frame_pending: false, ..old(self).windows@[i].state }),
                ),
            !found ==> states(final(self).windows@) == states(old(self).windows@),
    {
        match self.find(surface_id) {
            Some(i) => {
                let w = self.windows[i].state;
                self.set_state(i, WindowState { frame_pending: false, ..w });
                true
            },
            None => false,
        }
    }

    /// A frame was drawn to surface `index`: it now waits for its frame
    /// callback, requested at `now_ms`. Returns whether the index exists
    /// (and a callback should be requested).
    pub fn mark_frame_rendered(&mut self, index: usize, now_ms: u64) -> (found: bool)
        ensures
            found == (index < old(self).windows@.len()),
            found ==> states(final(self).windows@) == states(old(self).windows@).update(
                index as int,
                (WindowState {
                    frame_pending: true,
                    last_frame_request_ms: now_ms,
                    ..old(self).windows@[index as int].state
                }),
            ),
            !found ==> states(final(self).windows@) == states(old(self).windows@),
            final(self).dead_windows@ == old(self).dead_windows@,
            final(self).configuration_serial == old(self).configuration_serial,
            final(self).is_transparent == old(self).is_transparent,
    {
        if index < self.windows.len() {
            let w = self.windows[index].state;
            self.set_state(index, WindowState { frame_pending: true, last_frame_request_ms: now_ms, ..w });
            true
        } else {
            false
        }
    }

    /// Whether surface `index` must not be drawn to yet: a frame is in
    /// flight, or it has not been configured. Unknown indices are not
    /// pending.
    pub fn is_frame_pending(&self, index: usize) -> (r: bool)
        ensures
            r == (index < self.windows@.len() && (self.windows@[index as int].state.frame_pending
                || !self.windows@[index as int].state.first_configure)),
    {
        if index < self.windows.len() {
            let w = self.windows[index].state;
            w.frame_pending || !w.first_configure
        } else {
            false
        }
    }

    /// Whether any monitor can take a frame now (or there are none).
    pub fn any_monitor_ready(&self) -> (r: bool)
        ensures
            r == (self.windows@.len() == 0 || exists|j: int|
                0 <= j < self.windows@.len() && is_ready(#[trigger] self.windows@[j].state)),
    {
        if self.windows.len() == 0 {
            return true;
        }
        let mut i: usize = 0;
        while i < self.windows.len()
            invariant
                i <= self.windows@.len(),
                forall|j: int| 0 <= j < i ==> !is_ready(#[trigger] self.windows@[j].state),
            decreases self.windows@.len() - i,
        {
            let w = self.windows[i].state;
            if !w.frame_pending && w.first_configure {
                return true;
            }
            i = i + 1;
        }
        false
    }

    /// Whether the wallpaper is hidden everywhere: there are surfaces, and
    /// every one has waited over 100 ms for its frame callback.
    pub fn is_occluded(&self, now_ms: u64) -> (r: bool)
        ensures
            r == (self.windows@.len() > 0 && forall|j: int|
                0 <= j < self.windows@.len() ==> looks_hidden(#[trigger] self.windows@[j].state, now_ms)),
    {
        if self.windows.len() == 0 {
            return false;
        }
        let mut i: usize = 0;
        while i < self.windows.len()
            invariant
                i <= self.windows@.len(),
                forall|j: int| 0 <= j < i ==> looks_hidden(#[trigger] self.windows@[j].state, now_ms),
            decreases self.windows@.len() - i,
        {
            let w = self.windows[i].state;
            if !(w.frame_pending && now_ms >= w.last_frame_request_ms && now_ms - w.last_frame_request_ms
                > OCCLUSION_MS) {
                return false;
            }
            i = i + 1;
        }
        true
    }

    /// The physical size of every monitor's surface, in order.
    pub fn outputs(&self) -> (r: Vec<OutputSize>)
        requires
            forall|j: int|
                0 <= j < self.windows@.len() ==> #[trigger] self.windows@[j].state.width
                    * (self.windows@[j].state.scale_factor as u32) <= u32::MAX
                    && self.windows@[j].state.height * (self.windows@[j].state.scale_factor as u32)
                    <= u32::MAX,
        ensures
            r@.len() == self.windows@.len(),
            forall|j: int|
                0 <= j < r@.len() ==> #[trigger] r@[j] == spec_output_size(self.windows@[j].state),
    {
        let mut out: Vec<OutputSize> = Vec::new();
        let mut i: usize = 0;
        while i < self.windows.len()
            invariant
                i <= self.windows@.len(),
                out@.len() == i,
                forall|j: int|
                    0 <= j < self.windows@.len() ==> #[trigger] self.windows@[j].state.width
                        * (self.windows@[j].state.scale_factor as u32) <= u32::MAX
                        && self.windows@[j].state.height * (self.windows@[j].state.scale_factor as u32)
                        <= u32::MAX,
                forall|j: int| 0 <= j < i ==> #[trigger] out@[j] == spec_output_size(self.windows@[j].state),
            decreases self.windows@.len() - i,
        {
            let w = self.windows[i].state;
            let s = #[verifier::truncate] (w.scale_factor as u32);
            out.push(OutputSize { width: w.width * s, height: w.height * s });
            i = i + 1;
        }
        out
    }

    /// Switches transparency and returns each surface's new opaque region,
    /// in order (`None`: clear it).
    pub fn update_opaque_regions(&mut self, is_transparent: bool) -> (r: Vec<Option<(u32, u32)>>)
        ensures
            final(self).is_transparent == is_transparent,
            final(self).windows@ == old(self).windows@,
            final(self).dead_windows@ == old(self).dead_windows@,
            final(self).configuration_serial == old(self).configuration_serial,
            r@.len() == old(self).windows@.len(),
            forall|j: int|
                0 <= j < r@.len() ==> #[trigger] r@[j] == spec_opaque_region(
                    old(self).windows@[j].state,
                    is_transparent,
                ),
    {
        self.is_transparent = is_transparent;
        let mut out: Vec<Option<(u32, u32)>> = Vec::new();
        let mut i: usize = 0;
        while i < self.windows.len()
            invariant
                i <= self.windows@.len(),
                out@.len() == i,
                forall|j: int|
                    0 <= j < i ==> #[trigger] out@[j] == spec_opaque_region(self.windows@[j].state, is_transparent),
            decreases self.windows@.len() - i,
        {
            let w = self.windows[i].state;
            if !is_transparent && w.width > 0 && w.height > 0 {
                out.push(Some((w.width, w.height)));
            } else {
                out.push(None);
            }
            i = i + 1;
        }
        out
    }

    /// Drops the surfaces scheduled for removal.
    pub fn cleanup_dead_windows(&mut self)
        ensures
            final(self).dead_windows@.len() == 0,
            final(self).windows@ == old(self).windows@,
            final(self).configuration_serial == old(self).configuration_serial,
            final(self).is_transparent == old(self).is_transparent,
    {
        self.dead_windows.clear();
    }
}

/// Law: when the wallpaper looks hidden on every monitor, no monitor is
/// ready to draw.
pub proof fn occluded_means_nothing_ready(ws: Seq<WindowState>, now: u64)
    requires
        ws.len() > 0,
        forall|j: int| 0 <= j < ws.len() ==> looks_hidden(#[trigger] ws[j], now),
    ensures
        !exists|j: int| 0 <= j < ws.len() && is_ready(#[trigger] ws[j]),
{
    assert forall|j: int| 0 <= j < ws.len() implies !is_ready(#[trigger] ws[j]) by {
        assert(looks_hidden(ws[j], now));
    }
}

/// Law: a surface just drawn to is pending until its frame callback comes
/// back, and free again afterwards (if it was configured).
pub proof fn drawn_surface_waits_for_its_callback(w: WindowState, now: u64)
    ensures
        !is_ready((WindowState { frame_pending: true, last_frame_request_ms: now, ..w })),
        w.first_configure ==> is_ready(
            (WindowState { frame_pending: false, last_frame_request_ms: now, ..w }),
        ),
{
}

} // verus!
