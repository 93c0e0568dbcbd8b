//! The messages that cross the control socket.

use crate::history::HistoryEntry;
use vstd::prelude::*;

verus! {

/// The daemon's version, as status reports give it.
pub const VERSION: &'static str = "0.1.0";

/// The envelope of every message.
#[derive(Debug, Clone)]
pub struct Message {
    /// Ties a response to its request.
    pub id: u64,
    /// What the message carries.
    pub payload: Payload,
}

/// What a message carries.
#[derive(Debug, Clone)]
pub enum Payload {
    /// A request from a client.
    Request(Command),
    /// The daemon's response.
    Response(Response),
    /// An event the daemon emits unasked.
    Event(Event),
}

/// What a client can ask of the daemon.
#[derive(Debug, Clone)]
pub enum Command {
    /// Is the daemon there?
    Ping,
    /// Report the status.
    GetStatus,
    /// Shut down.
    Shutdown,
    /// Read the settings again.
    ReloadConfig,
    /// Report the settings.
    GetConfig,
    /// Start dictating.
    StartDictation,
    /// Stop dictating.
    StopDictation,
    /// List the audio devices.
    ListDevices,
    /// List the models.
    ListModels,
    /// Load the model at this path.
    LoadModel { path: String },
    /// Unload the model.
    UnloadModel,
    /// Report the history.
    GetHistory,
    /// Delete one entry of the history.
    DeleteHistoryEntry { id: u64 },
    /// Delete the whole history.
    ClearHistory,
}

/// What the daemon answers.
#[derive(Debug, Clone)]
pub enum Response {
    /// Done.
    Success,
    /// Done, with a message.
    Done(String),
    /// Not done, and why.
    Error(String),
    /// The status.
    Status(DaemonStatus),
    /// The settings, as TOML.
    Config(String),
    /// A list.
    List(Vec<String>),
    /// The answer to a ping.
    Pong,
    /// The history.
    History(Vec<HistoryEntry>),
}

/// The daemon's status.
#[derive(Debug, Clone)]
pub struct DaemonStatus {
    /// The daemon's version.
    pub version: String,
    /// The process identifier.
    pub pid: u32,
    /// Seconds since the daemon started.
    pub uptime_secs: u64,
    /// The operational state.
    pub state: DaemonState,
    /// Whether a model is loaded.
    pub model_loaded: bool,
    /// The loaded model's name.
    pub model_name: Option<String>,
    /// Whether a dictation is under way.
    pub is_dictating: bool,
    /// Memory in use, in bytes.
    pub memory_usage_bytes: u64,
    /// Processor use, in tenths of a percent.
    pub cpu_usage_tenths: u32,
}

/// The daemon's operational state.
#[derive(Debug, Clone, Copy, PartialEq, Eq, Structural)]
pub enum DaemonState {
    /// Starting up.
    Starting,
    /// Idle and ready.
    Idle,
    /// Processing audio.
    Active,
    /// Shutting down.
    ShuttingDown,
    /// In error.
    Error,
}

/// What the daemon emits unasked.
#[derive(Debug, Clone)]
pub enum Event {
    /// The daemon started.
    Started,
    /// The daemon is shutting down.
    ShuttingDown,
    /// A model was loaded.
    ModelLoaded { name: String },
    /// The model was unloaded.
    ModelUnloaded,
    /// A transcription was made.
    TranscriptionComplete { text: String, duration_ms: u64 },
    /// Something went wrong.
    Error { message: String },
    /// A line of the log; the time in seconds since the epoch.
    Log { level: String, message: String, timestamp: u64 },
}

impl Message {
    /// A request.
    pub fn request(id: u64, command: Command) -> (message: Self)
        ensures
            message.id == id,
            message.payload == Payload::Request(command),
    {
        Message { id, payload: Payload::Request(command) }
    }

    /// A response.
    pub fn response(id: u64, response: Response) -> (message: Self)
        ensures
            message.id == id,
            message.payload == Payload::Response(response),
    {
        Message { id, payload: Payload::Response(response) }
    }

    /// An event.
    pub fn event(id: u64, event: Event) -> (message: Self)
        ensures
            message.id == id,
            message.payload == Payload::Event(event),
    {
        Message { id, payload: Payload::Event(event) }
    }
}

impl DaemonStatus {
    /// The status of a daemon that is starting: no model, no dictation,
    /// nothing measured yet.
    pub fn new(pid: u32, uptime_secs: u64) -> (status: Self)
        ensures
            status.version@ == VERSION@,
            status.pid == pid,
            status.uptime_secs == uptime_secs,
            status.state == DaemonState::Starting,
            !status.model_loaded,
            status.model_name is None,
            !status.is_dictating,
            status.memory_usage_bytes == 0,
            status.cpu_usage_tenths == 0,
    {
        DaemonStatus {
            version: VERSION.to_owned(),
            pid,
            uptime_secs,
            state: DaemonState::Starting,
            model_loaded: false,
            model_name: None,
            is_dictating: false,
            memory_usage_bytes: 0,
            cpu_usage_tenths: 0,
        }
    }
}

impl DaemonState {
    /// The state in words.
    pub fn label(&self) -> (text: &'static str)
        ensures
            text@ == match self {
                DaemonState::Starting => "Starting"@,
                DaemonState::Idle => "Idle"@,
                DaemonState::Active => "Active"@,
                DaemonState::ShuttingDown => "Shutting Down"@,
                DaemonState::Error => "Error"@,
            },
    {
        match self {
            DaemonState::Starting => "Starting",
            DaemonState::Idle => "Idle",
            DaemonState::Active => "Active",
            DaemonState::ShuttingDown => "Shutting Down",
            DaemonState::Error => "Error",
        }
    }
}

impl Command {
    /// Whether the command is answered however often it comes: pings and
    /// shutdowns are.
    pub fn is_critical(&self) -> (critical: bool)
        ensures
            critical == (*self is Ping || *self is Shutdown),
    {
        match self {
            Command::Ping => true,
            Command::Shutdown => true,
            _ => false,
        }
    }
}

} // verus!
