//! Core of an interactive on-screen menu overlay: a localization store with
//! runtime language switching, the menu state machine that governs screen
//! transitions and selection, a procedural block-glyph text layout engine,
//! and the fade-in animation accumulator.

pub mod animation;
pub mod glyph;
pub mod language;
pub mod menu;

pub use crate::menu::MenuState;
