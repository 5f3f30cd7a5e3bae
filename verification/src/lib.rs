//! Core logic of a key overlay for a twin-knob rhythm-game controller.
//!
//! The library turns raw gamepad events into the state of a set of visual
//! "beams": one per button press and one per detected knob rotation. It
//! covers the input classifier, the rotation detector over bounded sample
//! windows, the beam lifecycle (spawn, translate, grow, despawn), the
//! overlap rule that gates clearing a shared sample window, and the
//! sliding-window press counter. Rendering and device polling live outside.
//!
//! Analog samples, coordinates and colours are held in thousandths
//! (milli-units) and durations in milliseconds, so that every rule is exact
//! integer arithmetic.

pub mod beam;
pub mod input;
pub mod overlay;
pub mod vol;
