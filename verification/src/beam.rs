//! The beam entity model: one visual indicator per active input, its
//! kind-specific colour, origin and size, and the per-frame transforms
//! (translate, grow, age) that the lifecycle controller applies.
//!
//! Coordinates, sizes and colour channels are thousandths of the
//! original unit; durations are milliseconds. Position and scale
//! arithmetic saturates at the `i64` bounds instead of wrapping, and ages
//! saturate at the `u64` bound.

use vstd::prelude::*;

use crate::input::{ButtonKind, SdvxInputKind, VolKind, VolRotation};

verus! {

/// How far a beam travels per millisecond, in milli-units; growth uses
/// the same rate.
pub const SCROLL_SPEED_MILLI_PER_MS: i64 = 300;

/// Gap between two button lanes, in milli-units.
pub const BUTTON_GAP_MILLI: i64 = 2000;

/// Width of a primary button beam, in milli-units.
pub const BUTTON_BEAM_WIDTH_MILLI: i64 = 50000;

/// Width of a knob beam, in milli-units.
pub const VOL_BEAM_WIDTH_MILLI: i64 = 40000;

/// Width of the whole lane area, in milli-units.
pub const WINDOW_WIDTH_MILLI: i64 = BUTTON_BEAM_WIDTH_MILLI * 4 + BUTTON_GAP_MILLI * 5
    + VOL_BEAM_WIDTH_MILLI * 4;

/// A beam whose growth phase is over lives until its age since spawn
/// exceeds this, in milliseconds.
pub const BEAM_TTL_MS: u64 = 3000;

/// A knob beam grows until its growth age exceeds this, in milliseconds.
pub const VOL_GROWTH_MS: u64 = 50;

/// An RGB colour with channels in thousandths of full intensity.
#[derive(Clone, Copy, PartialEq, Eq, Structural, Debug)]
pub struct BeamColor {
    pub red_milli: u32,
    pub green_milli: u32,
    pub blue_milli: u32,
}

/// A width and height in milli-units.
#[derive(Clone, Copy, PartialEq, Eq, Structural, Debug)]
pub struct BeamSize {
    pub width_milli: i64,
    pub height_milli: i64,
}

/// A point in milli-units; `z` orders overlapping beams for drawing.
#[derive(Clone, Copy, PartialEq, Eq, Structural, Debug)]
pub struct BeamPos {
    pub x_milli: i64,
    pub y_milli: i64,
    pub z_milli: i64,
}

/// The fixed colour of a beam of a kind.
pub open spec fn beam_color_of(kind: SdvxInputKind) -> BeamColor {
    match kind {
        SdvxInputKind::Button(ButtonKind::FXL) | SdvxInputKind::Button(ButtonKind::FXR) => (BeamColor {
            red_milli: 960,
            green_milli: 560,
            blue_milli: 0,
        }),
        SdvxInputKind::Button(_) => (BeamColor {
            red_milli: 1000,
            green_milli: 1000,
            blue_milli: 1000,
        }),
        SdvxInputKind::Vol(VolKind::Left(_)) => (BeamColor {
            red_milli: 50,
            green_milli: 710,
            blue_milli: 900,
        }),
        SdvxInputKind::Vol(VolKind::Right(_)) => (BeamColor {
            red_milli: 750,
            green_milli: 250,
            blue_milli: 560,
        }),
    }
}

/// The fixed origin a beam of a kind spawns at.
pub open spec fn beam_origin_of(kind: SdvxInputKind) -> BeamPos {
    match kind {
        SdvxInputKind::Button(ButtonKind::BTA) => (BeamPos {
            x_milli: -78000i64,
            y_milli: -200000i64,
            z_milli: 1000i64,
        }),
        SdvxInputKind::Button(ButtonKind::BTB) => (BeamPos {
            x_milli: -26000i64,
            y_milli: -200000i64,
            z_milli: 1000i64,
        }),
        SdvxInputKind::Button(ButtonKind::BTC) => (BeamPos {
            x_milli: 26000i64,
            y_milli: -200000i64,
            z_milli: 1000i64,
        }),
        SdvxInputKind::Button(ButtonKind::BTD) => (BeamPos {
            x_milli: 78000i64,
            y_milli: -200000i64,
            z_milli: 1000i64,
        }),
        SdvxInputKind::Button(ButtonKind::FXL) => (BeamPos {
            x_milli: -52000i64,
            y_milli: -200000i64,
            z_milli: 0i64,
        }),
        SdvxInputKind::Button(ButtonKind::FXR) => (BeamPos {
            x_milli: 52000i64,
            y_milli: -200000i64,
            z_milli: 0i64,
        }),
        SdvxInputKind::Vol(VolKind::Left(VolRotation::Left)) => (BeamPos {
            x_milli: -165000i64,
            y_milli: -200000i64,
            z_milli: 0i64,
        }),
        SdvxInputKind::Vol(VolKind::Left(VolRotation::Right)) => (BeamPos {
            x_milli: -125000i64,
            y_milli: -200000i64,
            z_milli: 0i64,
        }),
        SdvxInputKind::Vol(VolKind::Right(VolRotation::Left)) => (BeamPos {
            x_milli: 125000i64,
            y_milli: -200000i64,
            z_milli: 0i64,
        }),
        SdvxInputKind::Vol(VolKind::Right(VolRotation::Right)) => (BeamPos {
            x_milli: 165000i64,
            y_milli: -200000i64,
            z_milli: 0i64,
        }),
    }
}

/// The fixed base size of a beam of a kind.
pub open spec fn beam_size_of(kind: SdvxInputKind) -> BeamSize {
    match kind {
        SdvxInputKind::Button(ButtonKind::FXL) | SdvxInputKind::Button(ButtonKind::FXR) => (BeamSize {
            width_milli: (BUTTON_BEAM_WIDTH_MILLI * 2 + BUTTON_GAP_MILLI) as i64,
            height_milli: 1000i64,
        }),
        SdvxInputKind::Button(_) => (BeamSize {
            width_milli: BUTTON_BEAM_WIDTH_MILLI,
            height_milli: 1000i64,
        }),
        SdvxInputKind::Vol(_) => (BeamSize { width_milli: VOL_BEAM_WIDTH_MILLI, height_milli: 1000i64 }),
    }
}

/// Fixed per-kind presentation of a beam: colour, spawn origin and size.
#[derive(Clone, Copy, PartialEq, Eq, Structural, Debug)]
pub struct BeamConfig;

impl BeamConfig {
    /// The fixed colour of a beam of this kind.
    pub fn color(kind: &SdvxInputKind) -> (r: BeamColor)
        ensures
            r == beam_color_of(*kind),
    {
        match kind {
            SdvxInputKind::Button(ButtonKind::FXL) | SdvxInputKind::Button(ButtonKind::FXR) => (BeamColor {
                red_milli: 960,
                green_milli: 560,
                blue_milli: 0,
            }),
            SdvxInputKind::Button(_) => (BeamColor {
                red_milli: 1000,
                green_milli: 1000,
                blue_milli: 1000,
            }),
            SdvxInputKind::Vol(VolKind::Left(_)) => (BeamColor {
                red_milli: 50,
                green_milli: 710,
                blue_milli: 900,
            }),
            SdvxInputKind::Vol(VolKind::Right(_)) => (BeamColor {
                red_milli: 750,
                green_milli: 250,
                blue_milli: 560,
            }),
        }
    }

    /// The fixed origin a beam of this kind spawns at.
    pub fn pos(kind: &SdvxInputKind) -> (r: BeamPos)
        ensures
            r == beam_origin_of(*kind),
    {
        match kind {
            SdvxInputKind::Button(ButtonKind::BTA) => (BeamPos {
                x_milli: -78000,
                y_milli: -200000,
                z_milli: 1000,
            }),
            SdvxInputKind::Button(ButtonKind::BTB) => (BeamPos {
                x_milli: -26000,
                y_milli: -200000,
                z_milli: 1000,
            }),
            SdvxInputKind::Button(ButtonKind::BTC) => (BeamPos {
                x_milli: 26000,
                y_milli: -200000,
                z_milli: 1000,
            }),
            SdvxInputKind::Button(ButtonKind::BTD) => (BeamPos {
                x_milli: 78000,
                y_milli: -200000,
                z_milli: 1000,
            }),
            SdvxInputKind::Button(ButtonKind::FXL) => (BeamPos {
                x_milli: -52000,
                y_milli: -200000,
                z_milli: 0,
            }),
            SdvxInputKind::Button(ButtonKind::FXR) => (BeamPos {
                x_milli: 52000,
                y_milli: -200000,
                z_milli: 0,
            }),
            SdvxInputKind::Vol(VolKind::Left(VolRotation::Left)) => (BeamPos {
                x_milli: -165000,
                y_milli: -200000,
                z_milli: 0,
            }),
            SdvxInputKind::Vol(VolKind::Left(VolRotation::Right)) => (BeamPos {
                x_milli: -125000,
                y_milli: -200000,
                z_milli: 0,
            }),
            SdvxInputKind::Vol(VolKind::Right(VolRotation::Left)) => (BeamPos {
                x_milli: 125000,
                y_milli: -200000,
                z_milli: 0,
            }),
            SdvxInputKind::Vol(VolKind::Right(VolRotation::Right)) => (BeamPos {
                x_milli: 165000,
                y_milli: -200000,
                z_milli: 0,
            }),
        }
    }

    /// The fixed base size of a beam of this kind.
    pub fn size(kind: &SdvxInputKind) -> (r: BeamSize)
        ensures
            r == beam_size_of(*kind),
    {
        match kind {
            SdvxInputKind::Button(ButtonKind::FXL) | SdvxInputKind::Button(ButtonKind::FXR) => (BeamSize {
                width_milli: BUTTON_BEAM_WIDTH_MILLI * 2 + BUTTON_GAP_MILLI,
                height_milli: 1000,
            }),
            SdvxInputKind::Button(_) => (BeamSize {
                width_milli: BUTTON_BEAM_WIDTH_MILLI,
                height_milli: 1000,
            }),
            SdvxInputKind::Vol(_) => (BeamSize {
                width_milli: VOL_BEAM_WIDTH_MILLI,
                height_milli: 1000,
            }),
        }
    }
}

impl Default for BeamConfig {
    fn default() -> (r: Self)
        ensures
            r == BeamConfig,
    {
        BeamConfig
    }
}

/// One live visual indicator.
#[derive(Clone, Copy, PartialEq, Eq, Structural, Debug)]
pub struct Beam {
    /// Which input this beam stands for.
    pub kind: SdvxInputKind,
    /// Centre position, in milli-units.
    pub pos: BeamPos,
    /// Base size, in milli-units.
    pub size: BeamSize,
    /// Vertical scale factor, in thousandths; grows from `1000`.
    pub scale_y_milli: i64,
    /// Milliseconds since the beam spawned.
    pub age_ms: u64,
    /// Milliseconds since the growth phase last (re)started.
    pub growth_age_ms: u64,
    /// Whether the beam is still in its growth phase.
    pub growing: bool,
}

/// The beam a spawn event of a kind creates: at the kind's origin and
/// size, unscaled, with both ages zero and the growth phase running.
pub open spec fn spawned_beam(kind: SdvxInputKind) -> Beam {
    Beam {
        kind,
        pos: beam_origin_of(kind),
        size: beam_size_of(kind),
        scale_y_milli: 1000,
        age_ms: 0,
        growth_age_ms: 0,
        growing: true,
    }
}

impl Beam {
    /// A freshly spawned beam of the given kind.
    pub fn new(kind: SdvxInputKind) -> (r: Beam)
        ensures
            r == spawned_beam(kind),
    {
        Beam {
            kind,
            pos: BeamConfig::pos(&kind),
            size: BeamConfig::size(&kind),
            scale_y_milli: 1000,
            age_ms: 0,
            growth_age_ms: 0,
            growing: true,
        }
    }

}

/// An integer clamped into the `i64` range.
pub open spec fn clamped_to_i64(v: int) -> i64 {
    if v > i64::MAX {
        i64::MAX
    } else if v < i64::MIN {
        i64::MIN
    } else {
        v as i64
    }
}

/// A sum clamped into the `u64` range.
pub open spec fn sat_add_u64(a: u64, b: u64) -> u64 {
    if a + b > u64::MAX {
        u64::MAX
    } else {
        (a + b) as u64
    }
}

/// How far a beam travels in a frame of the given duration, in
/// milli-units, clamped at the `i64` bound.
pub open spec fn scroll_delta_milli(dt_ms: u64) -> i64 {
    clamped_to_i64(SCROLL_SPEED_MILLI_PER_MS * dt_ms)
}

/// A beam after one frame of translation: it advances along the vertical
/// axis at the scroll speed.
pub open spec fn moved_beam(b: Beam, dt_ms: u64) -> Beam {
    Beam {
        pos: BeamPos {
            y_milli: clamped_to_i64(b.pos.y_milli + scroll_delta_milli(dt_ms)),
            ..b.pos
        },
        ..b
    }
}

/// A beam after one frame of growth: while growing, its scale increases
/// at the scroll speed and its position backs off by half the scale
/// delta, so growth expands symmetrically from the leading edge; its
/// growth age advances. A settled beam is unchanged.
pub open spec fn grown_beam(b: Beam, dt_ms: u64) -> Beam {
    if b.growing {
        Beam {
            scale_y_milli: clamped_to_i64(b.scale_y_milli + scroll_delta_milli(dt_ms)),
            pos: BeamPos {
                y_milli: clamped_to_i64(b.pos.y_milli - scroll_delta_milli(dt_ms) / 2),
                ..b.pos
            },
            growth_age_ms: sat_add_u64(b.growth_age_ms, dt_ms),
            ..b
        }
    } else {
        b
    }
}

/// A beam after a frame's worth of ageing.
pub open spec fn aged_beam(b: Beam, dt_ms: u64) -> Beam {
    Beam { age_ms: sat_add_u64(b.age_ms, dt_ms), ..b }
}

/// Whether a beam's life is over: growth has ended and its age since
/// spawn exceeds the time-to-live.
pub open spec fn beam_expired(b: Beam) -> bool {
    !b.growing && b.age_ms > BEAM_TTL_MS
}

/// Saturating unsigned addition of a duration.
pub(crate) fn sat_add_u64_exec(a: u64, b: u64) -> (r: u64)
    ensures
        r == sat_add_u64(a, b),
{
    if a <= u64::MAX - b {
        a + b
    } else {
        u64::MAX
    }
}

/// Saturating addition of a non-negative delta.
pub(crate) fn sat_add_i64_exec(a: i64, d: i64) -> (r: i64)
    requires
        d >= 0,
    ensures
        r == clamped_to_i64(a + d),
{
    if a <= i64::MAX - d {
        a + d
    } else {
        i64::MAX
    }
}

/// Saturating subtraction of a non-negative delta.
pub(crate) fn sat_sub_i64_exec(a: i64, d: i64) -> (r: i64)
    requires
        d >= 0,
    ensures
        r == clamped_to_i64(a - d),
{
    if a >= i64::MIN + d {
        a - d
    } else {
        i64::MIN
    }
}

/// This frame's travel distance in milli-units.
pub(crate) fn scroll_delta_exec(dt_ms: u64) -> (r: i64)
    ensures
        r == scroll_delta_milli(dt_ms),
        r >= 0,
{
    if dt_ms <= (i64::MAX / SCROLL_SPEED_MILLI_PER_MS) as u64 {
        SCROLL_SPEED_MILLI_PER_MS * (dt_ms as i64)
    } else {
        i64::MAX
    }
}

} // verus!
