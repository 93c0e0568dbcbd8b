//! Onevox: the verified core of a local speech-to-text daemon.
//!
//! The library holds the streaming pipeline's rules: how captured samples
//! become chunks, how chunks are classified and assembled into speech
//! segments, how a dictation session reacts to hotkey and control events,
//! and how control messages are framed and answered. Devices, sockets,
//! clocks and model back ends are driven by the program around it, which
//! hands the library plain values and carries out the actions it returns.
//!
//! Audio samples are signed 16-bit PCM values; full scale is `i16::MAX`.
//! Timestamps are microseconds on the capture clock.

use vstd::prelude::*;

pub mod audio;
pub mod config;
pub mod daemon;
pub mod health;
pub mod history;
pub mod indicator;
pub mod ipc;
pub mod models;
pub mod platform;
pub mod text;
pub mod vad;

pub use config::Config;

verus! {

/// The component an [`Error`] belongs to.
#[derive(Clone, Copy, Debug, PartialEq, Eq, Structural)]
pub enum ErrorKind {
    Audio,
    Model,
    Platform,
    Config,
    Ipc,
    Vad,
    Io,
    Other,
}

/// The library's error: a component and a message.
#[derive(Debug, Clone)]
pub enum Error {
    Audio(String),
    Model(String),
    Platform(String),
    Config(String),
    Ipc(String),
    Vad(String),
    Io(String),
    Other(String),
}

impl Error {
    /// The component this error belongs to.
    pub open spec fn spec_kind(&self) -> ErrorKind {
        match self {
            Error::Audio(_) => ErrorKind::Audio,
            Error::Model(_) => ErrorKind::Model,
            Error::Platform(_) => ErrorKind::Platform,
            Error::Config(_) => ErrorKind::Config,
            Error::Ipc(_) => ErrorKind::Ipc,
            Error::Vad(_) => ErrorKind::Vad,
            Error::Io(_) => ErrorKind::Io,
            Error::Other(_) => ErrorKind::Other,
        }
    }

    /// The message carried by this error, without the component prefix.
    pub open spec fn spec_message(&self) -> Seq<char> {
        match self {
            Error::Audio(m) => m@,
            Error::Model(m) => m@,
            Error::Platform(m) => m@,
            Error::Config(m) => m@,
            Error::Ipc(m) => m@,
            Error::Vad(m) => m@,
            Error::Io(m) => m@,
            Error::Other(m) => m@,
        }
    }

    /// The prefix that [`Error::to_string`] puts before the message.
    pub open spec fn prefix(kind: ErrorKind) -> Seq<char> {
        match kind {
            ErrorKind::Audio => "Audio error: "@,
            ErrorKind::Model => "Model error: "@,
            ErrorKind::Platform => "Platform error: "@,
            ErrorKind::Config => "Configuration error: "@,
            ErrorKind::Ipc => "IPC error: "@,
            ErrorKind::Vad => "VAD error: "@,
            ErrorKind::Io => "IO error: "@,
            ErrorKind::Other => "Other error: "@,
        }
    }

    /// The component this error belongs to.
    #[verifier::when_used_as_spec(spec_kind)]
    pub fn kind(&self) -> (k: ErrorKind)
        ensures
            k == self.spec_kind(),
    {
        match self {
            Error::Audio(_) => ErrorKind::Audio,
            Error::Model(_) => ErrorKind::Model,
            Error::Platform(_) => ErrorKind::Platform,
            Error::Config(_) => ErrorKind::Config,
            Error::Ipc(_) => ErrorKind::Ipc,
            Error::Vad(_) => ErrorKind::Vad,
            Error::Io(_) => ErrorKind::Io,
            Error::Other(_) => ErrorKind::Other,
        }
    }

    /// The message carried by this error.
    pub fn message(&self) -> (m: &str)
        ensures
            m@ == self.spec_message(),
    {
        match self {
            Error::Audio(m) => m.as_str(),
            Error::Model(m) => m.as_str(),
            Error::Platform(m) => m.as_str(),
            Error::Config(m) => m.as_str(),
            Error::Ipc(m) => m.as_str(),
            Error::Vad(m) => m.as_str(),
            Error::Io(m) => m.as_str(),
            Error::Other(m) => m.as_str(),
        }
    }

    /// The error as one line of text: the component's prefix, then the message.
    pub fn to_string(&self) -> (s: String)
        ensures
            s@ == Error::prefix(self.spec_kind()) + self.spec_message(),
    {
        let head: &str = match self {
            Error::Audio(_) => "Audio error: ",
            Error::Model(_) => "Model error: ",
            Error::Platform(_) => "Platform error: ",
            Error::Config(_) => "Configuration error: ",
            Error::Ipc(_) => "IPC error: ",
            Error::Vad(_) => "VAD error: ",
            Error::Io(_) => "IO error: ",
            Error::Other(_) => "Other error: ",
        };
        crate::text::concat(head, self.message())
    }
}

} // verus!
