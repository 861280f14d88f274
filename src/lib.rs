//! Knob-and-buttons control of three colour levels and a frame rate.
//!
//! The library holds the decisions: how a raw analog sample becomes a
//! discrete level, which target the buttons select, when a target changes,
//! and what must be handed on to the renderer. Sampling, pin reads, timing
//! and publication belong to the caller.
pub mod knob;
pub mod ui;

pub use knob::{level_from_sample, LEVELS};
pub use ui::{button_state, ButtonState, Publish, UiState};
