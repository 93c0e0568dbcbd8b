//! The daemon: its state, its life cycle and the dictation engine.

pub mod dictation;
pub mod lifecycle;
pub mod state;

pub use dictation::DictationEngine;
pub use lifecycle::Lifecycle;
pub use state::{DaemonState, DictationCommand};
