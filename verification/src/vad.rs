//! Voice activity detection: per-chunk decisions and segment assembly.

pub mod detector;
pub mod energy;
pub mod pipeline;
pub mod processor;

pub use detector::{VadDecision, VadDetector};
pub use energy::{EnergyVad, EnergyVadConfig};
pub use processor::{SpeechSegment, VadProcessor, VadProcessorConfig};
