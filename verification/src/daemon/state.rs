//! The daemon's state: what status reports show and what control
//! commands change.

use crate::config::Config;
use crate::ipc::protocol::{DaemonState as State, DaemonStatus, VERSION};
use crate::{Error, ErrorKind};
use vstd::prelude::*;

verus! {

/// What the control side asks of the dictation engine.
#[derive(Debug, Clone, Copy, PartialEq, Eq, Structural)]
pub enum DictationCommand {
    Start,
    Stop,
}

/// The way from the control side to the dictation engine.
#[derive(Debug, Clone, Copy, PartialEq, Eq, Structural)]
pub enum DictationLink {
    /// No engine has registered yet.
    Unset,
    /// An engine listens.
    Open,
    /// The engine is gone.
    Closed,
}

/// The daemon's state, as contracts see it.
pub struct DaemonStateView {
    pub pid: u32,
    pub start_time: u64,
    pub state: State,
    pub shutdown_requested: bool,
    pub model_loaded: bool,
    pub model_name: Option<Seq<char>>,
    pub is_dictating: bool,
    pub link: DictationLink,
    /// Commands for the dictation engine that were accepted and not yet
    /// handed over.
    pub outbox: Seq<DictationCommand>,
}

/// The daemon's state.
pub struct DaemonState {
    config: Config,
    start_time: u64,
    pid: u32,
    state: State,
    shutdown_requested: bool,
    model_loaded: bool,
    model_name: Option<String>,
    is_dictating: bool,
    link: DictationLink,
    outbox: Vec<DictationCommand>,
}

impl View for DaemonState {
    type V = DaemonStateView;

    closed spec fn view(&self) -> DaemonStateView {
        DaemonStateView {
            pid: self.pid,
            start_time: self.start_time,
            state: self.state,
            shutdown_requested: self.shutdown_requested,
            model_loaded: self.model_loaded,
            model_name: match self.model_name {
                Some(name) => Some(name@),
                None => None,
            },
            is_dictating: self.is_dictating,
            link: self.link,
            outbox: self.outbox@,
        }
    }
}

/// What a request for the dictation engine meets with, by the state of
/// the link: nothing where it is open.
pub open spec fn link_error(link: DictationLink) -> Option<Seq<char>> {
    match link {
        DictationLink::Unset => Some("Dictation engine not initialized"@),
        DictationLink::Closed => Some("Dictation engine not available"@),
        DictationLink::Open => None,
    }
}

/// The seconds from `start` to `now`; none where `now` is earlier.
pub open spec fn seconds_since(start: u64, now: u64) -> u64 {
    if now >= start {
        (now - start) as u64
    } else {
        0
    }
}

impl DaemonState {
    /// The settings.
    pub closed spec fn spec_config(&self) -> Config {
        self.config
    }

    /// The state of a daemon that starts at time `now`, in seconds.
    pub fn new(config: Config, pid: u32, now: u64) -> (state: Self)
        ensures
            state.spec_config() == config,
            state@ == (DaemonStateView {
                pid,
                start_time: now,
                state: State::Starting,
                shutdown_requested: false,
                model_loaded: false,
                model_name: None,
                is_dictating: false,
                link: DictationLink::Unset,
                outbox: Seq::empty(),
            }),
    {
        DaemonState {
            config,
            start_time: now,
            pid,
            state: State::Starting,
            shutdown_requested: false,
            model_loaded: false,
            model_name: None,
            is_dictating: false,
            link: DictationLink::Unset,
            outbox: Vec::new(),
        }
    }

    /// The status at time `now`, with what was measured of the process.
    pub fn status(&self, now: u64, memory_usage_bytes: u64, cpu_usage_tenths: u32) -> (status:
        DaemonStatus)
        ensures
            status.version@ == VERSION@,
            status.pid == self@.pid,
            status.uptime_secs == seconds_since(self@.start_time, now),
            status.state == self@.state,
            status.model_loaded == self@.model_loaded,
            match status.model_name {
                Some(name) => self@.model_name == Some(name@),
                None => self@.model_name is None,
            },
            status.is_dictating == self@.is_dictating,
            status.memory_usage_bytes == memory_usage_bytes,
            status.cpu_usage_tenths == cpu_usage_tenths,
    {
        let uptime_secs = if now >= self.start_time {
            now - self.start_time
        } else {
            0
        };
        DaemonStatus {
            version: VERSION.to_owned(),
            pid: self.pid,
            uptime_secs,
            state: self.state,
            model_loaded: self.model_loaded,
            model_name: self.model_name.clone(),
            is_dictating: self.is_dictating,
            memory_usage_bytes,
            cpu_usage_tenths,
        }
    }

    /// The settings.
    pub fn config(&self) -> (config: &Config)
        ensures
            *config == self.spec_config(),
    {
        &self.config
    }

    /// Sets the operational state.
    pub fn set_state(&mut self, state: State)
        ensures
            final(self)@ == (DaemonStateView { state, ..old(self)@ }),
            final(self).spec_config() == old(self).spec_config(),
    {
        self.state = state;
    }

    /// The operational state.
    pub fn state(&self) -> (state: State)
        ensures
            state == self@.state,
    {
        self.state
    }

    /// Marks the daemon ready: idle.
    pub fn set_ready(&mut self)
        ensures
            final(self)@ == (DaemonStateView { state: State::Idle, ..old(self)@ }),
            final(self).spec_config() == old(self).spec_config(),
    {
        self.set_state(State::Idle);
    }

    /// Marks the daemon active.
    pub fn set_active(&mut self)
        ensures
            final(self)@ == (DaemonStateView { state: State::Active, ..old(self)@ }),
            final(self).spec_config() == old(self).spec_config(),
    {
        self.set_state(State::Active);
    }

    /// Marks the daemon in error.
    pub fn set_error(&mut self)
        ensures
            final(self)@ == (DaemonStateView { state: State::Error, ..old(self)@ }),
            final(self).spec_config() == old(self).spec_config(),
    {
        self.set_state(State::Error);
    }

    /// Asks for shutdown: the daemon is shutting down from now on.
    pub fn shutdown(&mut self)
        ensures
            final(self)@ == (DaemonStateView {
                state: State::ShuttingDown,
                shutdown_requested: true,
                ..old(self)@
            }),
            final(self).spec_config() == old(self).spec_config(),
    {
        self.set_state(State::ShuttingDown);
        self.shutdown_requested = true;
    }

    /// Whether shutdown was asked for.
    pub fn is_shutdown_requested(&self) -> (b: bool)
        ensures
            b == self@.shutdown_requested,
    {
        self.shutdown_requested
    }

    /// Records which model is loaded, if any.
    pub fn set_model_loaded(&mut self, name: Option<String>)
        ensures
            final(self)@ == (DaemonStateView {
                model_loaded: name is Some,
                model_name: match name {
                    Some(n) => Some(n@),
                    None => None,
                },
                ..old(self)@
            }),
            final(self).spec_config() == old(self).spec_config(),
    {
        self.model_loaded = name.is_some();
        self.model_name = name;
    }

    /// Records whether a dictation is under way: the daemon is active
    /// while one is and idle otherwise.
    pub fn set_dictating(&mut self, is_dictating: bool)
        ensures
            final(self)@ == (DaemonStateView {
                is_dictating,
                state: if is_dictating {
                    State::Active
                } else {
                    State::Idle
                },
                ..old(self)@
            }),
            final(self).spec_config() == old(self).spec_config(),
    {
        self.is_dictating = is_dictating;
        if is_dictating {
            self.set_active();
        } else {
            self.set_ready();
        }
    }

    /// Whether a dictation is under way.
    pub fn is_dictating_flag(&self) -> (b: bool)
        ensures
            b == self@.is_dictating,
    {
        self.is_dictating
    }

    /// Records that a dictation engine listens for commands.
    pub fn set_dictation_channel(&mut self)
        ensures
            final(self)@ == (DaemonStateView { link: DictationLink::Open, ..old(self)@ }),
            final(self).spec_config() == old(self).spec_config(),
    {
        self.link = DictationLink::Open;
    }

    /// Records that the dictation engine is gone.
    pub fn close_dictation_channel(&mut self)
        ensures
            final(self)@ == (DaemonStateView { link: DictationLink::Closed, ..old(self)@ }),
            final(self).spec_config() == old(self).spec_config(),
    {
        self.link = DictationLink::Closed;
    }

    /// Queues a command for the dictation engine where one listens; fails
    /// where none ever registered or the one that did is gone.
    pub fn request_dictation(&mut self, command: DictationCommand) -> (result: Result<(), Error>)
        ensures
            final(self).spec_config() == old(self).spec_config(),
            match link_error(old(self)@.link) {
                None => {
                    &&& result is Ok
                    &&& final(self)@ == (DaemonStateView {
                        outbox: old(self)@.outbox.push(command),
                        ..old(self)@
                    })
                },
                Some(message) => {
                    &&& result matches Err(e)
                    &&& e.spec_kind() == ErrorKind::Other
                    &&& e.spec_message() == message
                    &&& final(self)@ == old(self)@
                },
            },
    {
        match self.link {
            DictationLink::Open => {
                self.outbox.push(command);
                Ok(())
            },
            DictationLink::Unset => Err(
                Error::Other("Dictation engine not initialized".to_owned()),
            ),
            DictationLink::Closed => Err(Error::Other("Dictation engine not available".to_owned())),
        }
    }

    /// Asks the dictation engine to start.
    pub fn start_dictation(&mut self) -> (result: Result<(), Error>)
        ensures
            final(self).spec_config() == old(self).spec_config(),
            match link_error(old(self)@.link) {
                None => {
                    &&& result is Ok
                    &&& final(self)@ == (DaemonStateView {
                        outbox: old(self)@.outbox.push(DictationCommand::Start),
                        ..old(self)@
                    })
                },
                Some(message) => {
                    &&& result matches Err(e)
                    &&& e.spec_kind() == ErrorKind::Other
                    &&& e.spec_message() == message
                    &&& final(self)@ == old(self)@
                },
            },
    {
        self.request_dictation(DictationCommand::Start)
    }

    /// Asks the dictation engine to stop.
    pub fn stop_dictation(&mut self) -> (result: Result<(), Error>)
        ensures
            final(self).spec_config() == old(self).spec_config(),
            match link_error(old(self)@.link) {
                None => {
                    &&& result is Ok
                    &&& final(self)@ == (DaemonStateView {
                        outbox: old(self)@.outbox.push(DictationCommand::Stop),
                        ..old(self)@
                    })
                },
                Some(message) => {
                    &&& result matches Err(e)
                    &&& e.spec_kind() == ErrorKind::Other
                    &&& e.spec_message() == message
                    &&& final(self)@ == old(self)@
                },
            },
    {
        self.request_dictation(DictationCommand::Stop)
    }

    /// Hands over the commands queued for the dictation engine, oldest
    /// first, and empties the queue.
    pub fn take_dictation_commands(&mut self) -> (commands: Vec<DictationCommand>)
        ensures
            commands@ == old(self)@.outbox,
            final(self)@ == (DaemonStateView { outbox: Seq::empty(), ..old(self)@ }),
            final(self).spec_config() == old(self).spec_config(),
    {
        let mut commands: Vec<DictationCommand> = Vec::new();
        std::mem::swap(&mut commands, &mut self.outbox);
        commands
    }

    /// Takes over settings that were read again. Where reading them
    /// failed, the error is handed on and the settings stay.
    pub fn reload_config(&mut self, loaded: Result<Config, Error>) -> (result: Result<(), Error>)
        ensures
            final(self)@ == old(self)@,
            match loaded {
                Ok(config) => result is Ok && final(self).spec_config() == config,
                Err(e) => result == Err::<(), Error>(e) && final(self).spec_config() == old(self).spec_config(),
            },
    {
        match loaded {
            Ok(config) => {
                self.config = config;
                Ok(())
            },
            Err(e) => Err(e),
        }
    }
}

} // verus!
