//! The parts of the bar that hold state.

pub mod clock;
pub mod settings;
