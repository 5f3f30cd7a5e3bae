//! Input identities: physical button codes, logical button kinds, knob
//! sides and rotation directions, and the classifier from raw codes to
//! logical buttons.

use vstd::prelude::*;

verus! {

/// A raw physical gamepad button code, as a controller reports it.
#[derive(Clone, Copy, PartialEq, Eq, Structural, Debug)]
pub enum GamepadButtonCode {
    South,
    East,
    North,
    West,
    C,
    Z,
    LeftTrigger,
    LeftTrigger2,
    RightTrigger,
    RightTrigger2,
    Select,
    Start,
    Mode,
    LeftThumb,
    RightThumb,
    DPadUp,
    DPadDown,
    DPadLeft,
    DPadRight,
}

/// A logical button of the control surface: four primary buttons and two
/// auxiliary "FX" buttons.
#[derive(Clone, Copy, PartialEq, Eq, Structural, Debug)]
pub enum ButtonKind {
    BTA,
    BTB,
    BTC,
    BTD,
    FXL,
    FXR,
}

/// Which of the two twin rotary controls an event belongs to.
#[derive(Clone, Copy, PartialEq, Eq, Structural, Debug)]
pub enum VolSide {
    Left,
    Right,
}

/// The detected turning direction of a rotary control.
#[derive(Clone, Copy, PartialEq, Eq, Structural, Debug)]
pub enum VolRotation {
    Left,
    Right,
}

/// A rotary control event identity: the side together with the direction.
#[derive(Clone, Copy, PartialEq, Eq, Structural, Debug)]
pub enum VolKind {
    Left(VolRotation),
    Right(VolRotation),
}

/// The identity of one visual beam: a button press or a knob rotation.
#[derive(Clone, Copy, PartialEq, Eq, Structural, Debug)]
pub enum SdvxInputKind {
    Button(ButtonKind),
    Vol(VolKind),
}

/// A tag carrying the identity of one input indicator.
#[derive(Clone, Copy, PartialEq, Eq, Structural, Debug)]
pub struct SdvxInput {
    pub kind: SdvxInputKind,
}

impl SdvxInput {
    pub fn new(kind: SdvxInputKind) -> (r: Self)
        ensures
            r.kind == kind,
    {
        Self { kind }
    }
}

/// The `VolKind` of a given side and direction.
pub open spec fn vol_kind_of(side: VolSide, rot: VolRotation) -> VolKind {
    match side {
        VolSide::Left => VolKind::Left(rot),
        VolSide::Right => VolKind::Right(rot),
    }
}

/// The side a `VolKind` belongs to.
pub open spec fn vol_kind_side(k: VolKind) -> VolSide {
    match k {
        VolKind::Left(_) => VolSide::Left,
        VolKind::Right(_) => VolSide::Right,
    }
}

/// Which logical button a raw code stands for; codes outside the six
/// recognized ones mean no button.
pub open spec fn button_kind_of_code(code: GamepadButtonCode) -> Option<ButtonKind> {
    match code {
        GamepadButtonCode::West => Some(ButtonKind::BTA),
        GamepadButtonCode::South => Some(ButtonKind::BTB),
        GamepadButtonCode::East => Some(ButtonKind::BTC),
        GamepadButtonCode::North => Some(ButtonKind::BTD),
        GamepadButtonCode::LeftTrigger => Some(ButtonKind::FXL),
        GamepadButtonCode::RightTrigger => Some(ButtonKind::FXR),
        _ => None,
    }
}

impl ButtonKind {
    /// Classifies a raw physical button code: the matching logical button,
    /// or `None` for the codes this overlay ignores.
    pub fn from_gamepad_button_type(button_type: &GamepadButtonCode) -> (r: Option<ButtonKind>)
        ensures
            r == button_kind_of_code(*button_type),
    {
        match button_type {
            GamepadButtonCode::West => Some(ButtonKind::BTA),
            GamepadButtonCode::South => Some(ButtonKind::BTB),
            GamepadButtonCode::East => Some(ButtonKind::BTC),
            GamepadButtonCode::North => Some(ButtonKind::BTD),
            GamepadButtonCode::LeftTrigger => Some(ButtonKind::FXL),
            GamepadButtonCode::RightTrigger => Some(ButtonKind::FXR),
            _ => None,
        }
    }
}

} // verus!
