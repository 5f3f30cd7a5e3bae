//! Beam lifecycle controller and simulation context: the set of live
//! beams, the rotation detector, and the press markers of the activity
//! counter, with the per-frame passes that the overlay runs in order —
//! event handling (detector ingestion and spawn decisions), translation,
//! growth, despawning, the overlap-gated window clear, and activity
//! accounting.

use vstd::prelude::*;
use vstd::pervasive::VecAdditionalExecFns;

use crate::beam::{
    aged_beam, beam_expired, grown_beam, moved_beam, sat_add_u64, sat_add_u64_exec,
    sat_add_i64_exec, sat_sub_i64_exec, scroll_delta_exec, spawned_beam, Beam, VOL_GROWTH_MS,
};
use crate::input::{
    button_kind_of_code, vol_kind_of, vol_kind_side, ButtonKind, GamepadButtonCode, SdvxInputKind,
    VolKind, VolRotation, VolSide,
};
use crate::vol::{
    clamped_sample, left_detection, pushed_window, right_detection, VolState,
    DEFAULT_WINDOW_CAPACITY,
};

verus! {

/// A button-change value meaning a press edge, in thousandths.
pub const PRESS_VALUE_MILLI: i32 = 1000;

/// A button-change value meaning a release edge, in thousandths.
pub const RELEASE_VALUE_MILLI: i32 = 0;

/// A press marker is evicted once it is older than this, in milliseconds.
pub const ACTIVITY_WINDOW_MS: u64 = 1000;

/// One raw controller event, as the overlay consumes it: a button code
/// with its new value, or an axis sample for one rotary side, both in
/// thousandths.
#[derive(Clone, Copy, PartialEq, Eq, Structural, Debug)]
pub enum GamepadInputEvent {
    ButtonChanged(GamepadButtonCode, i32),
    AxisChanged(VolSide, i32),
}

/// The mathematical state of the overlay: the live beams in spawn order,
/// the two sample windows with their capacity, and the ages of the press
/// markers of the activity counter.
#[verifier::ext_equal]
pub struct OverlayModel {
    pub beams: Seq<Beam>,
    pub left: Seq<i32>,
    pub right: Seq<i32>,
    pub cap: nat,
    pub press_ages: Seq<u64>,
}

/// The simulation context that owns all shared mutable state of the
/// overlay: the live beams, the rotation detector, and the press
/// markers.
#[derive(Clone, Debug)]
pub struct OverlayState {
    /// Live beams, in spawn order.
    pub beams: Vec<Beam>,
    /// The rotation detector's two sample windows.
    pub vol_state: VolState,
    /// Age in milliseconds of each recent press marker.
    pub press_ages_ms: Vec<u64>,
}

impl OverlayState {
    /// The mathematical state this context holds.
    pub open spec fn model(self) -> OverlayModel {
        OverlayModel {
            beams: self.beams@,
            left: self.vol_state.left_samples(),
            right: self.vol_state.right_samples(),
            cap: self.vol_state.cap(),
            press_ages: self.press_ages_ms@,
        }
    }

    /// Well-formed: the detector's windows respect their capacity.
    pub open spec fn wf(self) -> bool {
        self.vol_state.wf()
    }

    /// An overlay with no beams, empty windows of the default capacity,
    /// and no press markers.
    pub fn new() -> (r: Self)
        ensures
            r.wf(),
            r.model() == empty_model(DEFAULT_WINDOW_CAPACITY as nat),
    {
        let r = OverlayState {
            beams: Vec::new(),
            vol_state: VolState::new(),
            press_ages_ms: Vec::new(),
        };
        proof {
            assert(r.model() =~= empty_model(DEFAULT_WINDOW_CAPACITY as nat));
        }
        r
    }

    /// Translation pass: every live beam advances along the vertical
    /// axis at the scroll speed.
    pub fn move_beams(&mut self, dt_ms: u64)
        ensures
            final(self).model() == model_moved(old(self).model(), dt_ms),
            final(self).wf() == old(self).wf(),
    {
        let n = self.beams.len();
        let delta = scroll_delta_exec(dt_ms);
        let mut i: usize = 0;
        while i < n
            invariant
                i <= n,
                n == self.beams.len(),
                self.vol_state == old(self).vol_state,
                self.press_ages_ms == old(self).press_ages_ms,
                n == old(self).beams.len(),
                delta == crate::beam::scroll_delta_milli(dt_ms),
                delta >= 0,
                forall|j: int|
                    0 <= j < i ==> self.beams@[j] == moved_beam(old(self).beams@[j], dt_ms),
                forall|j: int| i <= j < n ==> self.beams@[j] == old(self).beams@[j],
            decreases n - i,
        {
            let b = self.beams[i];
            let nb = Beam {
                pos: crate::beam::BeamPos {
                    y_milli: sat_add_i64_exec(b.pos.y_milli, delta),
                    ..b.pos
                },
                ..b
            };
            self.beams.set(i, nb);
            i = i + 1;
        }
        proof {
            assert(final(self).model() =~= model_moved(old(self).model(), dt_ms));
        }
    }

    /// Growth pass: every growing beam's scale increases at the scroll
    /// speed, its position backs off by half the scale delta, and its
    /// growth age advances.
    pub fn grow_beams(&mut self, dt_ms: u64)
        ensures
            final(self).model() == model_grown(old(self).model(), dt_ms),
            final(self).wf() == old(self).wf(),
    {
        let n = self.beams.len();
        let delta = scroll_delta_exec(dt_ms);
        let mut i: usize = 0;
        while i < n
            invariant
                i <= n,
                n == self.beams.len(),
                self.vol_state == old(self).vol_state,
                self.press_ages_ms == old(self).press_ages_ms,
                n == old(self).beams.len(),
                delta == crate::beam::scroll_delta_milli(dt_ms),
                delta >= 0,
                forall|j: int|
                    0 <= j < i ==> self.beams@[j] == grown_beam(old(self).beams@[j], dt_ms),
                forall|j: int| i <= j < n ==> self.beams@[j] == old(self).beams@[j],
            decreases n - i,
        {
            let b = self.beams[i];
            if b.growing {
                let nb = Beam {
                    scale_y_milli: sat_add_i64_exec(b.scale_y_milli, delta),
                    pos: crate::beam::BeamPos {
                        y_milli: sat_sub_i64_exec(b.pos.y_milli, delta / 2),
                        ..b.pos
                    },
                    growth_age_ms: sat_add_u64_exec(b.growth_age_ms, dt_ms),
                    ..b
                };
                self.beams.set(i, nb);
            }
            i = i + 1;
        }
        proof {
            assert(final(self).model() =~= model_grown(old(self).model(), dt_ms));
        }
    }
}

impl OverlayState {
    /// Despawn pass: every beam's age since spawn advances, then every
    /// beam whose growth is over and whose age exceeds the time-to-live
    /// is removed; the others stay, in order.
    pub fn despawn_beams(&mut self, dt_ms: u64)
        ensures
            final(self).model() == model_despawned(old(self).model(), dt_ms),
            final(self).wf() == old(self).wf(),
    {
        let n = self.beams.len();
        let mut kept: Vec<Beam> = Vec::new();
        let mut i: usize = 0;
        while i < n
            invariant
                i <= n,
                n == self.beams.len(),
                self.beams == old(self).beams,
                self.vol_state == old(self).vol_state,
                self.press_ages_ms == old(self).press_ages_ms,
                kept@ == surviving_beams(self.beams@.take(i as int), dt_ms),
            decreases n - i,
        {
            proof {
                lemma_take_succ(self.beams@, i as int);
            }
            let b = self.beams[i];
            let aged = Beam { age_ms: sat_add_u64_exec(b.age_ms, dt_ms), ..b };
            if aged.growing || aged.age_ms <= crate::beam::BEAM_TTL_MS {
                kept.push(aged);
            }
            i = i + 1;
        }
        proof {
            assert(self.beams@.take(n as int) =~= self.beams@);
        }
        self.beams = kept;
        proof {
            assert(final(self).model() =~= model_despawned(old(self).model(), dt_ms));
        }
    }

    /// Stop-growing pass for knob beams: every knob beam whose growth
    /// age exceeds the threshold settles, and the sample window of its
    /// side is cleared — unless both directions of that side were
    /// growing at the start of the pass (the overlap case), in which
    /// case the clear is suppressed and retried next frame.
    pub fn stop_growing_vol_beams(&mut self)
        ensures
            final(self).model() == model_stopped(old(self).model()),
            old(self).wf() ==> final(self).wf(),
    {
        let ghost bs = self.beams@;
        let left_overlapping = self.side_overlapping_exec(VolSide::Left);
        let right_overlapping = self.side_overlapping_exec(VolSide::Right);
        let n = self.beams.len();
        let mut stop_left = false;
        let mut stop_right = false;
        let mut i: usize = 0;
        while i < n
            invariant
                i <= n,
                n == self.beams.len(),
                n == bs.len(),
                self.vol_state == old(self).vol_state,
                self.press_ages_ms == old(self).press_ages_ms,
                forall|j: int| 0 <= j < i ==> self.beams@[j] == stopped_beam(bs[j]),
                forall|j: int| i <= j < n ==> self.beams@[j] == bs[j],
                stop_left == exists|j: int|
                    0 <= j < i && vol_stop_due(bs[j]) && beam_vol_side(bs[j]) == Some(
                        VolSide::Left,
                    ),
                stop_right == exists|j: int|
                    0 <= j < i && vol_stop_due(bs[j]) && beam_vol_side(bs[j]) == Some(
                        VolSide::Right,
                    ),
            decreases n - i,
        {
            let b = self.beams[i];
            let is_vol_left = match b.kind {
                SdvxInputKind::Vol(VolKind::Left(_)) => true,
                _ => false,
            };
            let is_vol_right = match b.kind {
                SdvxInputKind::Vol(VolKind::Right(_)) => true,
                _ => false,
            };
            if b.growing && (is_vol_left || is_vol_right) && b.growth_age_ms > VOL_GROWTH_MS {
                self.beams.set(i, Beam { growing: false, ..b });
                if is_vol_left {
                    stop_left = true;
                } else {
                    stop_right = true;
                }
            }
            i = i + 1;
        }
        if stop_left && !left_overlapping {
            self.vol_state.clear_left();
        }
        if stop_right && !right_overlapping {
            self.vol_state.clear_right();
        }
        proof {
            assert(final(self).model() =~= model_stopped(old(self).model()));
        }
    }

    /// Whether both rotation directions of a side are represented among
    /// the currently growing beams.
    fn side_overlapping_exec(&self, side: VolSide) -> (r: bool)
        ensures
            r == side_overlapping(self.beams@, side),
    {
        let a = self.any_growing_vol(vol_kind_of_exec(side, VolRotation::Left));
        let b = self.any_growing_vol(vol_kind_of_exec(side, VolRotation::Right));
        a && b
    }

    /// Whether some beam of the given knob identity is growing.
    fn any_growing_vol(&self, k: VolKind) -> (r: bool)
        ensures
            r == exists|j: int| 0 <= j < self.beams@.len() && is_growing_vol(self.beams@[j], k),
    {
        let n = self.beams.len();
        let mut i: usize = 0;
        while i < n
            invariant
                i <= n,
                n == self.beams.len(),
                forall|j: int| 0 <= j < i ==> !is_growing_vol(self.beams@[j], k),
            decreases n - i,
        {
            let b = self.beams[i];
            if b.growing && match b.kind {
                SdvxInputKind::Vol(bk) => bk == k,
                _ => false,
            } {
                return true;
            }
            i = i + 1;
        }
        false
    }
}

impl OverlayState {
    /// Handles a button-change event: an unrecognized code or an
    /// in-between value changes nothing; a press edge spawns a beam of
    /// that button and records a press marker; a release edge settles
    /// every growing beam of that button at once, whatever its age.
    pub fn button_changed(&mut self, code: GamepadButtonCode, value_milli: i32)
        ensures
            final(self).model() == model_button_changed(old(self).model(), code, value_milli),
            old(self).wf() ==> final(self).wf(),
    {
        let kind = match ButtonKind::from_gamepad_button_type(&code) {
            Some(kind) => kind,
            None => {
                proof {
                    assert(final(self).model() =~= model_button_changed(
                        old(self).model(),
                        code,
                        value_milli,
                    ));
                }
                return ;
            },
        };
        if value_milli == PRESS_VALUE_MILLI {
            self.beams.push(Beam::new(SdvxInputKind::Button(kind)));
            self.press_ages_ms.push(0);
        } else if value_milli == RELEASE_VALUE_MILLI {
            let n = self.beams.len();
            let mut i: usize = 0;
            while i < n
                invariant
                    i <= n,
                    n == self.beams.len(),
                    n == old(self).beams.len(),
                    self.vol_state == old(self).vol_state,
                    self.press_ages_ms == old(self).press_ages_ms,
                    forall|j: int|
                        0 <= j < i ==> self.beams@[j] == released_button_beam(
                            old(self).beams@[j],
                            kind,
                        ),
                    forall|j: int| i <= j < n ==> self.beams@[j] == old(self).beams@[j],
                decreases n - i,
            {
                let b = self.beams[i];
                if b.growing && match b.kind {
                    SdvxInputKind::Button(bk) => bk == kind,
                    _ => false,
                } {
                    self.beams.set(i, Beam { growing: false, ..b });
                }
                i = i + 1;
            }
        }
        proof {
            assert(final(self).model() =~= model_button_changed(
                old(self).model(),
                code,
                value_milli,
            ));
        }
    }

    /// Handles an axis sample for one rotary side: the sample enters
    /// that side's window (clamped into range, oldest out when full),
    /// and if the window then shows a rotation, the first growing beam
    /// of that (side, direction) has its growth age reset; failing that,
    /// nothing happens while any live beam of that identity remains; and
    /// with none, a new beam of that identity spawns.
    #[verifier::loop_isolation(false)]
    pub fn axis_changed(&mut self, side: VolSide, value_milli: i32)
        requires
            old(self).wf(),
        ensures
            final(self).model() == model_axis_changed(old(self).model(), side, value_milli),
            final(self).wf(),
    {
        let detection = match side {
            VolSide::Left => {
                self.vol_state.push_left(value_milli);
                self.vol_state.get_left_vol_rotation()
            },
            VolSide::Right => {
                self.vol_state.push_right(value_milli);
                self.vol_state.get_right_vol_rotation()
            },
        };
        let ghost m1 = with_side_window(
            old(self).model(),
            side,
            pushed_window(
                side_window(old(self).model(), side),
                old(self).model().cap,
                clamped_sample(value_milli),
            ),
        );
        proof {
            assert(self.model() =~= m1);
        }
        let rot = match detection {
            Some(rot) => rot,
            None => {
                return ;
            },
        };
        let k = vol_kind_of_exec(side, rot);
        let ghost vs = self.vol_state;
        let ghost bs = self.beams@;
        let n = self.beams.len();
        let mut any_live = false;
        let mut i: usize = 0;
        while i < n
            invariant
                i <= n,
                n == self.beams.len(),
                self.beams@ == bs,
                self.vol_state == vs,
                self.press_ages_ms == old(self).press_ages_ms,
                forall|j: int| 0 <= j < i ==> !is_growing_vol(bs[j], k),
                any_live == exists|j: int| 0 <= j < i && bs[j].kind == SdvxInputKind::Vol(k),
            decreases n - i,
        {
            let b = self.beams[i];
            let matches_kind = match b.kind {
                SdvxInputKind::Vol(bk) => bk == k,
                _ => false,
            };
            if matches_kind && b.growing {
                self.beams.set(i, Beam { growth_age_ms: 0, ..b });
                proof {
                    lemma_first_growing_vol_index(bs, k);
                    assert(first_growing_vol_index(bs, k) == i as int);
                    assert(final(self).model() =~= OverlayModel {
                        beams: beams_after_detection(bs, k),
                        ..m1
                    });
                }
                return ;
            }
            if matches_kind {
                any_live = true;
            }
            i = i + 1;
        }
        proof {
            lemma_first_growing_vol_index(bs, k);
            assert(first_growing_vol_index(bs, k) == -1);
        }
        if !any_live {
            self.beams.push(Beam::new(SdvxInputKind::Vol(k)));
        }
        proof {
            assert(final(self).model() =~= OverlayModel {
                beams: beams_after_detection(bs, k),
                ..m1
            });
        }
    }
}

impl OverlayState {
    /// Activity pass: every press marker ages by the frame duration,
    /// markers older than the one-second window leave, and the
    /// surviving count is the current press rate.
    pub fn track_kps(&mut self, dt_ms: u64) -> (count: usize)
        ensures
            final(self).model() == model_tracked(old(self).model(), dt_ms),
            count == final(self).model().press_ages.len(),
            final(self).wf() == old(self).wf(),
    {
        let n = self.press_ages_ms.len();
        let mut kept: Vec<u64> = Vec::new();
        let mut i: usize = 0;
        while i < n
            invariant
                i <= n,
                n == self.press_ages_ms.len(),
                self.beams == old(self).beams,
                self.vol_state == old(self).vol_state,
                self.press_ages_ms == old(self).press_ages_ms,
                kept@ == surviving_press_ages(self.press_ages_ms@.take(i as int), dt_ms),
            decreases n - i,
        {
            proof {
                lemma_take_succ(self.press_ages_ms@, i as int);
            }
            let aged = sat_add_u64_exec(self.press_ages_ms[i], dt_ms);
            if aged <= ACTIVITY_WINDOW_MS {
                kept.push(aged);
            }
            i = i + 1;
        }
        proof {
            assert(self.press_ages_ms@.take(n as int) =~= self.press_ages_ms@);
        }
        self.press_ages_ms = kept;
        let count = self.press_ages_ms.len();
        proof {
            assert(final(self).model() =~= model_tracked(old(self).model(), dt_ms));
        }
        count
    }

    /// Runs one whole frame: every event of the frame in order (detector
    /// ingestion and spawn decisions), then translation, growth,
    /// despawning, the overlap-gated stop-growing pass, and activity
    /// accounting; the result is the current press rate.
    #[verifier::loop_isolation(false)]
    pub fn step_frame(&mut self, dt_ms: u64, events: &Vec<GamepadInputEvent>) -> (kps: usize)
        requires
            old(self).wf(),
        ensures
            final(self).model() == model_frame(old(self).model(), dt_ms, events@),
            kps == final(self).model().press_ages.len(),
            final(self).wf(),
    {
        let n = events.len();
        let mut i: usize = 0;
        while i < n
            invariant
                i <= n,
                self.wf(),
                self.model() == model_events(old(self).model(), events@.take(i as int)),
            decreases n - i,
        {
            proof {
                lemma_take_succ(events@, i as int);
            }
            match events[i] {
                GamepadInputEvent::ButtonChanged(code, value_milli) => {
                    self.button_changed(code, value_milli);
                },
                GamepadInputEvent::AxisChanged(side, value_milli) => {
                    self.axis_changed(side, value_milli);
                },
            }
            i = i + 1;
        }
        proof {
            assert(events@.take(n as int) =~= events@);
        }
        self.move_beams(dt_ms);
        self.grow_beams(dt_ms);
        self.despawn_beams(dt_ms);
        self.stop_growing_vol_beams();
        self.track_kps(dt_ms)
    }
}

/// The ages of the press markers that survive the activity pass, each
/// advanced by the frame duration, in order.
pub open spec fn surviving_press_ages(ages: Seq<u64>, dt_ms: u64) -> Seq<u64>
    decreases ages.len(),
{
    if ages.len() == 0 {
        Seq::empty()
    } else {
        let rest = surviving_press_ages(ages.drop_last(), dt_ms);
        let a = sat_add_u64(ages.last(), dt_ms);
        if a <= ACTIVITY_WINDOW_MS {
            rest.push(a)
        } else {
            rest
        }
    }
}

/// The model after the activity pass.
pub open spec fn model_tracked(m: OverlayModel, dt_ms: u64) -> OverlayModel {
    OverlayModel { press_ages: surviving_press_ages(m.press_ages, dt_ms), ..m }
}

/// The model after one event.
pub open spec fn model_event(m: OverlayModel, e: GamepadInputEvent) -> OverlayModel {
    match e {
        GamepadInputEvent::ButtonChanged(code, value_milli) => model_button_changed(
            m,
            code,
            value_milli,
        ),
        GamepadInputEvent::AxisChanged(side, value_milli) => model_axis_changed(
            m,
            side,
            value_milli,
        ),
    }
}

/// The model after a frame's events, applied in order.
pub open spec fn model_events(m: OverlayModel, es: Seq<GamepadInputEvent>) -> OverlayModel
    decreases es.len(),
{
    if es.len() == 0 {
        m
    } else {
        model_event(model_events(m, es.drop_last()), es.last())
    }
}

/// The model after one whole frame: the events in order, then
/// translation, growth, despawning, the stop-growing pass with its
/// overlap-gated window clear, and the activity pass.
pub open spec fn model_frame(m: OverlayModel, dt_ms: u64, es: Seq<GamepadInputEvent>) -> OverlayModel {
    model_tracked(
        model_stopped(model_despawned(model_grown(model_moved(model_events(m, es), dt_ms), dt_ms), dt_ms)),
        dt_ms,
    )
}

/// The index of the first growing beam of a knob identity, or `-1` when
/// no beam of that identity is growing.
pub open spec fn first_growing_vol_index(bs: Seq<Beam>, k: VolKind) -> int
    decreases bs.len(),
{
    if bs.len() == 0 {
        -1
    } else if is_growing_vol(bs[0], k) {
        0
    } else {
        let rest = first_growing_vol_index(bs.drop_first(), k);
        if rest == -1 {
            -1
        } else {
            rest + 1
        }
    }
}

/// What the first-growing index means: `-1` exactly when no beam of the
/// identity is growing; otherwise it is the least index of one.
pub proof fn lemma_first_growing_vol_index(bs: Seq<Beam>, k: VolKind)
    ensures
        first_growing_vol_index(bs, k) == -1 ==> forall|j: int|
            0 <= j < bs.len() ==> !is_growing_vol(bs[j], k),
        first_growing_vol_index(bs, k) != -1 ==> {
            let fi = first_growing_vol_index(bs, k);
            &&& 0 <= fi < bs.len()
            &&& is_growing_vol(bs[fi], k)
            &&& forall|j: int| 0 <= j < fi ==> !is_growing_vol(bs[j], k)
        },
    decreases bs.len(),
{
    if bs.len() > 0 && !is_growing_vol(bs[0], k) {
        lemma_first_growing_vol_index(bs.drop_first(), k);
        assert forall|j: int| 1 <= j < bs.len() implies bs.drop_first()[j - 1] == bs[j] by {}
    }
}

/// Whether any live beam carries a knob identity.
pub open spec fn has_live_vol(bs: Seq<Beam>, k: VolKind) -> bool {
    exists|j: int| 0 <= j < bs.len() && bs[j].kind == SdvxInputKind::Vol(k)
}

/// A beam after a release edge of a button: a growing beam of that
/// button settles; every other beam is unchanged.
pub open spec fn released_button_beam(b: Beam, kind: ButtonKind) -> Beam {
    if b.growing && b.kind == SdvxInputKind::Button(kind) {
        Beam { growing: false, ..b }
    } else {
        b
    }
}

/// The beams after a rotation detection of a knob identity: the first
/// growing beam of that identity restarts its growth phase; with none
/// growing but one alive, nothing changes; with none alive, a fresh beam
/// of that identity spawns.
pub open spec fn beams_after_detection(bs: Seq<Beam>, k: VolKind) -> Seq<Beam> {
    let fi = first_growing_vol_index(bs, k);
    if fi != -1 {
        bs.update(fi, Beam { growth_age_ms: 0, ..bs[fi] })
    } else if has_live_vol(bs, k) {
        bs
    } else {
        bs.push(spawned_beam(SdvxInputKind::Vol(k)))
    }
}

/// The window of one side of a model.
pub open spec fn side_window(m: OverlayModel, side: VolSide) -> Seq<i32> {
    match side {
        VolSide::Left => m.left,
        VolSide::Right => m.right,
    }
}

/// The model with one side's window replaced.
pub open spec fn with_side_window(m: OverlayModel, side: VolSide, w: Seq<i32>) -> OverlayModel {
    match side {
        VolSide::Left => OverlayModel { left: w, ..m },
        VolSide::Right => OverlayModel { right: w, ..m },
    }
}

/// What detection reports for a side's window: the sign-sum rule, with
/// the direction mapping mirrored between the sides.
pub open spec fn side_detection(side: VolSide, s: Seq<i32>, cap: nat) -> Option<VolRotation> {
    match side {
        VolSide::Left => left_detection(s, cap),
        VolSide::Right => right_detection(s, cap),
    }
}

/// The model after a button-change event.
pub open spec fn model_button_changed(
    m: OverlayModel,
    code: GamepadButtonCode,
    value_milli: i32,
) -> OverlayModel {
    match button_kind_of_code(code) {
        None => m,
        Some(kind) => if value_milli == PRESS_VALUE_MILLI {
            OverlayModel {
                beams: m.beams.push(spawned_beam(SdvxInputKind::Button(kind))),
                press_ages: m.press_ages.push(0),
                ..m
            }
        } else if value_milli == RELEASE_VALUE_MILLI {
            OverlayModel {
                beams: m.beams.map_values(|b: Beam| released_button_beam(b, kind)),
                ..m
            }
        } else {
            m
        },
    }
}

/// The model after an axis sample for one side: the clamped sample
/// enters that side's window, and the beams follow the detection the
/// new window shows, if any.
pub open spec fn model_axis_changed(m: OverlayModel, side: VolSide, value_milli: i32) -> OverlayModel {
    let w = pushed_window(side_window(m, side), m.cap, clamped_sample(value_milli));
    let m1 = with_side_window(m, side, w);
    match side_detection(side, w, m.cap) {
        None => m1,
        Some(rot) => OverlayModel {
            beams: beams_after_detection(m.beams, vol_kind_of(side, rot)),
            ..m1
        },
    }
}

/// A settled beam despawns exactly when its age since spawn passes the
/// time-to-live: the despawn pass keeps it while its new age is at most
/// the time-to-live, and removes it the moment the age exceeds it.
pub proof fn lemma_despawn_exactly_after_ttl(b: Beam, dt_ms: u64)
    requires
        !b.growing,
    ensures
        surviving_beams(seq![b], dt_ms).len() == 0 <==> sat_add_u64(b.age_ms, dt_ms)
            > crate::beam::BEAM_TTL_MS,
{
    assert(surviving_beams(Seq::<Beam>::empty(), dt_ms) == Seq::<Beam>::empty());
    assert(seq![b].drop_last() =~= Seq::<Beam>::empty());
    assert(seq![b].last() == b);
    assert(surviving_beams(seq![b], dt_ms) == if beam_expired(aged_beam(b, dt_ms)) {
        Seq::<Beam>::empty()
    } else {
        Seq::<Beam>::empty().push(aged_beam(b, dt_ms))
    });
}

/// A release edge settles a growing beam of the released button at any
/// age, and touches no other beam.
pub proof fn lemma_release_clears_growing(b: Beam, kind: ButtonKind)
    ensures
        released_button_beam(b, kind).growing == (b.growing && b.kind != SdvxInputKind::Button(
            kind,
        )),
        b.kind != SdvxInputKind::Button(kind) ==> released_button_beam(b, kind) == b,
{
}

/// A knob beam settles in the stop-growing pass exactly when its growth
/// age has passed the threshold, whatever else happened; a button beam
/// never settles there.
pub proof fn lemma_vol_growth_threshold(b: Beam)
    ensures
        stopped_beam(b).growing == (b.growing && !(b.kind is Vol && b.growth_age_ms
            > VOL_GROWTH_MS)),
        b.kind is Button ==> stopped_beam(b) == b,
{
}

/// While both directions of a side are growing, the stop-growing pass
/// leaves that side's shared sample window untouched.
pub proof fn lemma_overlap_suppresses_clear(m: OverlayModel, side: VolSide)
    ensures
        side_overlapping(m.beams, side) ==> side_window(model_stopped(m), side) == side_window(
            m,
            side,
        ),
{
}

/// A detection for a knob identity that already has a growing beam
/// restarts that beam's growth phase — the first such beam — and never
/// adds a beam.
pub proof fn lemma_retrigger_resets_growth(bs: Seq<Beam>, k: VolKind)
    requires
        exists|j: int| 0 <= j < bs.len() && is_growing_vol(bs[j], k),
    ensures
        beams_after_detection(bs, k).len() == bs.len(),
        ({
            let fi = first_growing_vol_index(bs, k);
            &&& 0 <= fi < bs.len()
            &&& is_growing_vol(bs[fi], k)
            &&& forall|j: int| 0 <= j < fi ==> !is_growing_vol(bs[j], k)
            &&& beams_after_detection(bs, k) == bs.update(
                fi,
                Beam { growth_age_ms: 0, ..bs[fi] },
            )
        }),
{
    lemma_first_growing_vol_index(bs, k);
}

/// The `VolKind` of a side and direction, as executable code.
fn vol_kind_of_exec(side: VolSide, rot: VolRotation) -> (k: VolKind)
    ensures
        k == vol_kind_of(side, rot),
{
    match side {
        VolSide::Left => VolKind::Left(rot),
        VolSide::Right => VolKind::Right(rot),
    }
}

/// A prefix of one more element drops back to the prefix one shorter.
proof fn lemma_take_succ<A>(s: Seq<A>, i: int)
    requires
        0 <= i < s.len(),
    ensures
        s.take(i + 1).drop_last() =~= s.take(i),
        s.take(i + 1).last() == s[i],
{
}

/// Whether a beam is a growing knob beam of the given identity.
pub open spec fn is_growing_vol(b: Beam, k: VolKind) -> bool {
    b.growing && b.kind == SdvxInputKind::Vol(k)
}

/// The side of a knob beam; a button beam has none.
pub open spec fn beam_vol_side(b: Beam) -> Option<VolSide> {
    match b.kind {
        SdvxInputKind::Vol(k) => Some(vol_kind_side(k)),
        SdvxInputKind::Button(_) => None,
    }
}

/// Whether both rotation directions of a side are represented among the
/// growing beams: the overlap case of the window-clear rule.
pub open spec fn side_overlapping(bs: Seq<Beam>, side: VolSide) -> bool {
    (exists|j: int|
        0 <= j < bs.len() && is_growing_vol(bs[j], vol_kind_of(side, VolRotation::Left))) && (
    exists|j: int|
        0 <= j < bs.len() && is_growing_vol(bs[j], vol_kind_of(side, VolRotation::Right)))
}

/// Whether a knob beam's growth phase is due to end: it is growing and
/// its growth age exceeds the threshold.
pub open spec fn vol_stop_due(b: Beam) -> bool {
    b.growing && b.kind is Vol && b.growth_age_ms > VOL_GROWTH_MS
}

/// A beam after the stop-growing pass: a knob beam whose growth is due
/// to end settles; every other beam is unchanged.
pub open spec fn stopped_beam(b: Beam) -> Beam {
    if vol_stop_due(b) {
        Beam { growing: false, ..b }
    } else {
        b
    }
}

/// Whether a side's window is due to be cleared this pass: some knob
/// beam of that side ends its growth now, and the side is not in the
/// overlap case.
pub open spec fn side_clear_due(bs: Seq<Beam>, side: VolSide) -> bool {
    !side_overlapping(bs, side) && exists|j: int|
        0 <= j < bs.len() && vol_stop_due(bs[j]) && beam_vol_side(bs[j]) == Some(side)
}

/// The beams that survive the despawn pass, each aged by the frame
/// duration, in order.
pub open spec fn surviving_beams(bs: Seq<Beam>, dt_ms: u64) -> Seq<Beam>
    decreases bs.len(),
{
    if bs.len() == 0 {
        Seq::empty()
    } else {
        let rest = surviving_beams(bs.drop_last(), dt_ms);
        let b = aged_beam(bs.last(), dt_ms);
        if beam_expired(b) {
            rest
        } else {
            rest.push(b)
        }
    }
}

/// The model after the despawn pass.
pub open spec fn model_despawned(m: OverlayModel, dt_ms: u64) -> OverlayModel {
    OverlayModel { beams: surviving_beams(m.beams, dt_ms), ..m }
}

/// The model after the stop-growing pass: due knob beams settle, and
/// each side's window empties exactly when a beam of that side settles
/// now and the side is not overlapping.
pub open spec fn model_stopped(m: OverlayModel) -> OverlayModel {
    OverlayModel {
        beams: m.beams.map_values(|b: Beam| stopped_beam(b)),
        left: if side_clear_due(m.beams, VolSide::Left) {
            Seq::empty()
        } else {
            m.left
        },
        right: if side_clear_due(m.beams, VolSide::Right) {
            Seq::empty()
        } else {
            m.right
        },
        ..m
    }
}

/// The model of a freshly constructed overlay.
pub open spec fn empty_model(cap: nat) -> OverlayModel {
    OverlayModel {
        beams: Seq::empty(),
        left: Seq::empty(),
        right: Seq::empty(),
        cap,
        press_ages: Seq::empty(),
    }
}

/// The model after the translation pass.
pub open spec fn model_moved(m: OverlayModel, dt_ms: u64) -> OverlayModel {
    OverlayModel { beams: m.beams.map_values(|b: Beam| moved_beam(b, dt_ms)), ..m }
}

/// The model after the growth pass.
pub open spec fn model_grown(m: OverlayModel, dt_ms: u64) -> OverlayModel {
    OverlayModel { beams: m.beams.map_values(|b: Beam| grown_beam(b, dt_ms)), ..m }
}

} // verus!
