//! Audio: chunks, the sample ring, devices and capture rules.

pub mod buffer;
pub mod capture;
pub mod devices;
pub mod ring;

pub use buffer::{AudioBuffer, AudioChunk, AudioConsumer, AudioProducer, Sample};
pub use capture::{AudioCapture, CaptureConfig, DeviceChoice};
pub use devices::{AudioDeviceInfo, AudioDeviceManager};

use crate::Error;
use vstd::prelude::*;

verus! {

/// The audio system as the engine sees it: at most one capture at a time.
pub struct AudioEngine {
    capture: Option<AudioCapture>,
}

impl AudioEngine {
    /// The capture held, if any.
    pub closed spec fn capture(&self) -> Option<AudioCapture> {
        self.capture
    }

    /// Whether a capture is held and runs.
    pub open spec fn capturing(&self) -> bool {
        self.capture() matches Some(c) && c.running()
    }

    /// An audio engine without a capture.
    pub fn new() -> (engine: Self)
        ensures
            engine.capture() is None,
    {
        AudioEngine { capture: None }
    }

    /// Begins a capture with these settings. A capture that is held is
    /// stopped and let go first. Returns whether a stream was running
    /// that has to be paused, and which device to open; where the
    /// settings are refused, no capture is held afterwards.
    pub fn start_capture(&mut self, config: CaptureConfig) -> (result: (
        bool,
        Result<DeviceChoice, Error>,
    ))
        ensures
            result.0 == old(self).capturing(),
            match config.validation_error() {
                Some(message) => {
                    &&& result.1 matches Err(e)
                    &&& e.spec_kind() == crate::ErrorKind::Config
                    &&& e.spec_message() == message
                    &&& final(self).capture() is None
                },
                None => {
                    &&& result.1 is Ok
                    &&& final(self).capture() matches Some(c)
                    &&& c.spec_config() == config
                    &&& !c.running()
                },
            },
    {
        let was_running = self.stop_capture();
        let capture = AudioCapture::new(config);
        let choice = capture.start();
        match choice {
            Ok(device) => {
                self.capture = Some(capture);
                (was_running, Ok(device))
            },
            Err(e) => (was_running, Err(e)),
        }
    }

    /// Records that the stream of the capture held plays.
    pub fn capture_started(&mut self)
        ensures
            match old(self).capture() {
                Some(c) => final(self).capture() matches Some(d) && d.running() && d.spec_config()
                    == c.spec_config(),
                None => final(self).capture() is None,
            },
    {
        let held = self.capture.take();
        match held {
            Some(mut capture) => {
                capture.mark_started();
                self.capture = Some(capture);
            },
            None => {},
        }
    }

    /// Stops the capture held and lets it go. Returns whether a stream
    /// was running that has to be paused. Without a capture nothing
    /// happens.
    pub fn stop_capture(&mut self) -> (was_running: bool)
        ensures
            was_running == old(self).capturing(),
            final(self).capture() is None,
    {
        let held = self.capture.take();
        match held {
            Some(mut capture) => capture.stop(),
            None => false,
        }
    }

    /// Whether a capture is held and runs.
    pub fn is_capturing(&self) -> (b: bool)
        ensures
            b == self.capturing(),
    {
        match &self.capture {
            Some(capture) => capture.is_running(),
            None => false,
        }
    }
}

impl Default for AudioEngine {
    fn default() -> (engine: Self)
        ensures
            engine.capture() is None,
    {
        Self::new()
    }
}

} // verus!
