//! Interaction engine behind a numeric PIN entry screen for a small device
//! with a carousel selector and a few buttons: a bounded PIN buffer, a fixed
//! choice table, a re-randomised selector position, transient reveal flags
//! and the warning-to-prompt header transition.

pub mod buffer;
pub mod choices;
pub mod display;
pub mod entry;
pub mod random;
pub mod text;
