//! The daemon's life cycle: what happens at start, while it runs and at
//! shutdown, and in which order.
//!
//! The life cycle decides; the program around it acts and reports back
//! what came of it.

use crate::ipc::client::FALLBACK_RUNTIME_DIR;
use crate::platform::paths::{join, path_join};
use crate::text::{decimal, decimal_string};
use crate::{Error, ErrorKind};
use vstd::prelude::*;

verus! {

/// How often the daemon tries to make the dictation engine.
pub const MAX_ENGINE_RETRIES: u32 = 3;

/// How long the daemon waits before it tries again, in milliseconds.
pub const ENGINE_RETRY_BACKOFF_MS: u64 = 5000;

/// How often the daemon looks whether shutdown was asked for, in
/// milliseconds.
pub const SHUTDOWN_POLL_MS: u64 = 100;

/// The exit code of a clean shutdown.
pub const EXIT_CLEAN: i32 = 0;

/// The exit code of a daemon that could not start.
pub const EXIT_FAILED: i32 = 1;

/// Where the daemon stands.
#[derive(Debug, Clone, Copy, PartialEq, Eq, Structural)]
pub enum LifecyclePhase {
    /// Made, not started.
    Created,
    /// Asking whether another daemon answers on the socket.
    Probing,
    /// Binding the socket.
    Binding,
    /// Running and taking commands.
    Running,
    /// Shut down cleanly.
    Stopped,
    /// Could not start.
    Failed,
}

/// Where the dictation engine stands.
#[derive(Debug, Clone, Copy, PartialEq, Eq, Structural)]
pub enum EnginePhase {
    /// Not asked for yet.
    NotStarted,
    /// Being made.
    Creating,
    /// Waiting before the next try.
    Waiting,
    /// Made; hotkeys work.
    Ready,
    /// Given up; the daemon runs without hotkeys.
    Unavailable,
}

/// What the program reports to the life cycle.
#[derive(Debug, Clone, Copy, PartialEq, Eq, Structural)]
pub enum LifecycleEvent {
    /// The daemon is asked to start.
    Start,
    /// Whether another daemon answered the ping.
    ProbeAnswered(bool),
    /// Whether the socket could be bound.
    SocketBound(bool),
    /// Whether the dictation engine could be made.
    EngineCreated(bool),
    /// The wait before the next try is over.
    BackoffElapsed,
    /// A termination or interrupt signal came.
    ShutdownSignal,
    /// A client asked for shutdown.
    ShutdownRequested,
}

/// What the life cycle asks the program to do.
#[derive(Debug, Clone, Copy, PartialEq, Eq, Structural)]
pub enum LifecycleAction {
    /// Ping the socket to see whether another daemon answers.
    ProbeInstance,
    /// Remove a socket file left behind.
    RemoveStaleSocket,
    /// Bind the socket, for the owner only.
    BindSocket,
    /// Set the daemon's state to idle.
    MarkReady,
    /// Start accepting connections.
    AcceptConnections,
    /// Try to make the dictation engine on its thread.
    CreateEngine,
    /// Tell the user which permissions the engine needs.
    ReportPermissionHelp,
    /// Wait this many milliseconds, then report that the wait is over.
    Sleep(u64),
    /// Tell the user that the daemon runs without hotkeys.
    ReportNoHotkeys,
    /// Set the daemon's state to shutting down.
    MarkShuttingDown,
    /// Tell the dictation thread to stop.
    StopDictationThread,
    /// Stop accepting connections.
    AbortAcceptLoop,
    /// Remove the socket.
    RemoveSocket,
    /// Release the text injector.
    ReleaseInjector,
    /// Release the capture.
    ReleaseCapture,
    /// Release the voice activity detection.
    ReleaseVad,
    /// Unload the model.
    UnloadModel,
    /// Exit with this code.
    Exit(i32),
}

/// The life cycle's state, as contracts see it.
pub struct LifecycleState {
    pub phase: LifecyclePhase,
    pub engine: EnginePhase,
    /// How often making the engine has failed.
    pub failures: u32,
}

/// What a shutdown takes, in order: the state is marked, the dictation
/// thread and the accept loop are stopped, the socket is removed, and the
/// resources are released: injector, capture, detection, model. Then the
/// daemon exits cleanly.
pub open spec fn shutdown_sequence() -> Seq<LifecycleAction> {
    seq![
        LifecycleAction::MarkShuttingDown,
        LifecycleAction::StopDictationThread,
        LifecycleAction::AbortAcceptLoop,
        LifecycleAction::RemoveSocket,
        LifecycleAction::ReleaseInjector,
        LifecycleAction::ReleaseCapture,
        LifecycleAction::ReleaseVad,
        LifecycleAction::UnloadModel,
        LifecycleAction::Exit(EXIT_CLEAN),
    ]
}

impl LifecycleState {
    /// A daemon that was made and not started.
    pub open spec fn initial() -> LifecycleState {
        LifecycleState {
            phase: LifecyclePhase::Created,
            engine: EnginePhase::NotStarted,
            failures: 0,
        }
    }

    /// What a failure to make the engine leads to: the first one brings
    /// the hint about permissions; the last one allowed ends the tries,
    /// and the daemon runs on without hotkeys; any other is followed by a
    /// wait and another try.
    pub open spec fn engine_failed(self) -> (LifecycleState, Seq<LifecycleAction>) {
        let failures = if self.failures < u32::MAX {
            (self.failures + 1) as u32
        } else {
            self.failures
        };
        let hint = if self.failures == 0 {
            seq![LifecycleAction::ReportPermissionHelp]
        } else {
            Seq::<LifecycleAction>::empty()
        };
        if failures >= MAX_ENGINE_RETRIES {
            (
                LifecycleState { engine: EnginePhase::Unavailable, failures, ..self },
                hint + seq![LifecycleAction::ReportNoHotkeys],
            )
        } else {
            (
                LifecycleState { engine: EnginePhase::Waiting, failures, ..self },
                hint + seq![LifecycleAction::Sleep(ENGINE_RETRY_BACKOFF_MS)],
            )
        }
    }

    /// The state after an event and the actions it asks for. An event
    /// that does not fit the phase changes nothing.
    pub open spec fn next(self, event: LifecycleEvent) -> (LifecycleState, Seq<LifecycleAction>) {
        match (self.phase, event) {
            (LifecyclePhase::Created, LifecycleEvent::Start) => (
                LifecycleState { phase: LifecyclePhase::Probing, ..self },
                seq![LifecycleAction::ProbeInstance],
            ),
            (LifecyclePhase::Probing, LifecycleEvent::ProbeAnswered(true)) => (
                LifecycleState { phase: LifecyclePhase::Failed, ..self },
                seq![LifecycleAction::Exit(EXIT_FAILED)],
            ),
            (LifecyclePhase::Probing, LifecycleEvent::ProbeAnswered(false)) => (
                LifecycleState { phase: LifecyclePhase::Binding, ..self },
                seq![LifecycleAction::RemoveStaleSocket, LifecycleAction::BindSocket],
            ),
            (LifecyclePhase::Binding, LifecycleEvent::SocketBound(false)) => (
                LifecycleState { phase: LifecyclePhase::Failed, ..self },
                seq![LifecycleAction::Exit(EXIT_FAILED)],
            ),
            (LifecyclePhase::Binding, LifecycleEvent::SocketBound(true)) => (
                LifecycleState {
                    phase: LifecyclePhase::Running,
                    engine: EnginePhase::Creating,
                    ..self
                },
                seq![
                    LifecycleAction::MarkReady,
                    LifecycleAction::AcceptConnections,
                    LifecycleAction::CreateEngine,
                ],
            ),
            (LifecyclePhase::Running, LifecycleEvent::EngineCreated(made)) => if self.engine
                != EnginePhase::Creating {
                (self, Seq::empty())
            } else if made {
                (LifecycleState { engine: EnginePhase::Ready, ..self }, Seq::empty())
            } else {
                self.engine_failed()
            },
            (LifecyclePhase::Running, LifecycleEvent::BackoffElapsed) => if self.engine
                == EnginePhase::Waiting {
                (
                    LifecycleState { engine: EnginePhase::Creating, ..self },
                    seq![LifecycleAction::CreateEngine],
                )
            } else {
                (self, Seq::empty())
            },
            (LifecyclePhase::Running, LifecycleEvent::ShutdownSignal) => (
                LifecycleState { phase: LifecyclePhase::Stopped, ..self },
                shutdown_sequence(),
            ),
            (LifecyclePhase::Running, LifecycleEvent::ShutdownRequested) => (
                LifecycleState { phase: LifecyclePhase::Stopped, ..self },
                shutdown_sequence(),
            ),
            _ => (self, Seq::empty()),
        }
    }

    /// The state after a run of events.
    pub open spec fn run(self, events: Seq<LifecycleEvent>) -> LifecycleState
        decreases events.len(),
    {
        if events.len() == 0 {
            self
        } else {
            self.run(events.drop_last()).next(events.last()).0
        }
    }

    /// How often a run of events asks to make the engine.
    pub open spec fn engine_tries(self, events: Seq<LifecycleEvent>) -> nat
        decreases events.len(),
    {
        if events.len() == 0 {
            0
        } else {
            let before = self.run(events.drop_last());
            self.engine_tries(events.drop_last()) + if before.next(events.last()).1.contains(
                LifecycleAction::CreateEngine,
            ) {
                1nat
            } else {
                0nat
            }
        }
    }

    /// How many tries are left in a state: none once the engine is there
    /// or given up.
    pub open spec fn tries_left(self) -> nat {
        match self.phase {
            LifecyclePhase::Created | LifecyclePhase::Probing | LifecyclePhase::Binding => {
                MAX_ENGINE_RETRIES as nat
            },
            LifecyclePhase::Running => match self.engine {
                EnginePhase::Waiting => if self.failures < MAX_ENGINE_RETRIES {
                    (MAX_ENGINE_RETRIES - self.failures) as nat
                } else {
                    0
                },
                EnginePhase::Creating => if self.failures + 1 < MAX_ENGINE_RETRIES {
                    (MAX_ENGINE_RETRIES - self.failures - 1) as nat
                } else {
                    0
                },
                _ => 0,
            },
            _ => 0,
        }
    }

    /// What holds of every state that can be reached: the engine is only
    /// asked for while the daemon runs, and a wait follows a failure that
    /// was not the last one allowed.
    pub open spec fn inv(self) -> bool {
        &&& self.phase is Created || self.phase is Probing || self.phase is Binding
            ==> self.engine is NotStarted && self.failures == 0
        &&& self.engine is Waiting ==> 0 < self.failures < MAX_ENGINE_RETRIES
        &&& self.engine is Creating ==> self.failures < MAX_ENGINE_RETRIES
    }
}

/// However the events come, the daemon asks to make the dictation engine
/// three times at most. After the third failure it runs on without
/// hotkeys.
pub proof fn lemma_engine_tries_bounded(events: Seq<LifecycleEvent>)
    ensures
        LifecycleState::initial().engine_tries(events) <= MAX_ENGINE_RETRIES,
        LifecycleState::initial().run(events).inv(),
{
    lemma_tries_accounted(events);
}

/// Tries made and tries left never add up to more than three.
proof fn lemma_tries_accounted(events: Seq<LifecycleEvent>)
    ensures
        LifecycleState::initial().run(events).inv(),
        LifecycleState::initial().engine_tries(events) + LifecycleState::initial().run(
            events,
        ).tries_left() <= MAX_ENGINE_RETRIES,
    decreases events.len(),
{
    let start = LifecycleState::initial();
    if events.len() > 0 {
        lemma_tries_accounted(events.drop_last());
        let before = start.run(events.drop_last());
        let (after, actions) = before.next(events.last());
        let create = LifecycleAction::CreateEngine;
        if actions.contains(create) {
            let i = choose|i: int| 0 <= i < actions.len() && actions[i] == create;
            assert(actions[i] == create);
        }
        match (before.phase, events.last()) {
            (LifecyclePhase::Binding, LifecycleEvent::SocketBound(true)) => {
                assert(actions[2] == create);
            },
            (LifecyclePhase::Running, LifecycleEvent::BackoffElapsed) => {
                if before.engine == EnginePhase::Waiting {
                    assert(actions[0] == create);
                }
            },
            _ => {},
        }
    }
}

/// A shutdown, by signal or by command, releases the resources in this
/// order: injector, capture, detection, model; and the daemon exits with
/// the code of a clean shutdown.
pub proof fn lemma_shutdown_releases_in_order(state: LifecycleState, by_signal: bool)
    requires
        state.phase == LifecyclePhase::Running,
    ensures
        ({
            let (after, actions) = state.next(
                if by_signal {
                    LifecycleEvent::ShutdownSignal
                } else {
                    LifecycleEvent::ShutdownRequested
                },
            );
            &&& after.phase == LifecyclePhase::Stopped
            &&& actions.len() == 9
            &&& actions[0] == LifecycleAction::MarkShuttingDown
            &&& actions[4] == LifecycleAction::ReleaseInjector
            &&& actions[5] == LifecycleAction::ReleaseCapture
            &&& actions[6] == LifecycleAction::ReleaseVad
            &&& actions[7] == LifecycleAction::UnloadModel
            &&& actions[8] == LifecycleAction::Exit(EXIT_CLEAN)
        }),
{
}

/// The daemon's life cycle.
pub struct Lifecycle {
    phase: LifecyclePhase,
    engine: EnginePhase,
    failures: u32,
}

impl View for Lifecycle {
    type V = LifecycleState;

    closed spec fn view(&self) -> LifecycleState {
        LifecycleState { phase: self.phase, engine: self.engine, failures: self.failures }
    }
}

/// What stopping the daemon from outside comes to, by what the ping
/// brought.
pub open spec fn stop_error(ping: Result<bool, ()>) -> Option<Seq<char>> {
    match ping {
        Ok(true) => None,
        Ok(false) => Some("Daemon is not responding"@),
        Err(_) => Some("Daemon is not running"@),
    }
}

impl Lifecycle {
    /// A daemon that was made and not started.
    pub fn new() -> (lifecycle: Self)
        ensures
            lifecycle@ == LifecycleState::initial(),
    {
        Lifecycle {
            phase: LifecyclePhase::Created,
            engine: EnginePhase::NotStarted,
            failures: 0,
        }
    }

    /// Where the daemon stands.
    pub fn phase(&self) -> (phase: LifecyclePhase)
        ensures
            phase == self@.phase,
    {
        self.phase
    }

    /// Where the dictation engine stands.
    pub fn engine(&self) -> (engine: EnginePhase)
        ensures
            engine == self@.engine,
    {
        self.engine
    }

    /// Whether hotkeys work: the engine is there.
    pub fn hotkeys_available(&self) -> (b: bool)
        ensures
            b == (self@.engine == EnginePhase::Ready),
    {
        self.engine == EnginePhase::Ready
    }

    /// Asks the daemon to start: the first thing to do is to see whether
    /// another daemon answers on the socket.
    pub fn start(&mut self) -> (actions: Vec<LifecycleAction>)
        ensures
            (final(self)@, actions@) == old(self)@.next(LifecycleEvent::Start),
    {
        self.on_event(LifecycleEvent::Start)
    }

    /// Takes an event and returns the actions it asks for, in order.
    pub fn on_event(&mut self, event: LifecycleEvent) -> (actions: Vec<LifecycleAction>)
        ensures
            (final(self)@, actions@) == old(self)@.next(event),
    {
        let mut actions: Vec<LifecycleAction> = Vec::new();
        match (self.phase, event) {
            (LifecyclePhase::Created, LifecycleEvent::Start) => {
                self.phase = LifecyclePhase::Probing;
                actions.push(LifecycleAction::ProbeInstance);
            },
            (LifecyclePhase::Probing, LifecycleEvent::ProbeAnswered(true)) => {
                self.phase = LifecyclePhase::Failed;
                actions.push(LifecycleAction::Exit(EXIT_FAILED));
            },
            (LifecyclePhase::Probing, LifecycleEvent::ProbeAnswered(false)) => {
                self.phase = LifecyclePhase::Binding;
                actions.push(LifecycleAction::RemoveStaleSocket);
                actions.push(LifecycleAction::BindSocket);
            },
            (LifecyclePhase::Binding, LifecycleEvent::SocketBound(false)) => {
                self.phase = LifecyclePhase::Failed;
                actions.push(LifecycleAction::Exit(EXIT_FAILED));
            },
            (LifecyclePhase::Binding, LifecycleEvent::SocketBound(true)) => {
                self.phase = LifecyclePhase::Running;
                self.engine = EnginePhase::Creating;
                actions.push(LifecycleAction::MarkReady);
                actions.push(LifecycleAction::AcceptConnections);
                actions.push(LifecycleAction::CreateEngine);
            },
            (LifecyclePhase::Running, LifecycleEvent::EngineCreated(made)) => {
                if self.engine == EnginePhase::Creating {
                    if made {
                        self.engine = EnginePhase::Ready;
                    } else {
                        if self.failures == 0 {
                            actions.push(LifecycleAction::ReportPermissionHelp);
                        }
                        if self.failures < u32::MAX {
                            self.failures = self.failures + 1;
                        }
                        if self.failures >= MAX_ENGINE_RETRIES {
                            self.engine = EnginePhase::Unavailable;
                            actions.push(LifecycleAction::ReportNoHotkeys);
                        } else {
                            self.engine = EnginePhase::Waiting;
                            actions.push(LifecycleAction::Sleep(ENGINE_RETRY_BACKOFF_MS));
                        }
                    }
                }
            },
            (LifecyclePhase::Running, LifecycleEvent::BackoffElapsed) => {
                if self.engine == EnginePhase::Waiting {
                    self.engine = EnginePhase::Creating;
                    actions.push(LifecycleAction::CreateEngine);
                }
            },
            (LifecyclePhase::Running, LifecycleEvent::ShutdownSignal) => {
                self.phase = LifecyclePhase::Stopped;
                push_shutdown(&mut actions);
            },
            (LifecyclePhase::Running, LifecycleEvent::ShutdownRequested) => {
                self.phase = LifecyclePhase::Stopped;
                push_shutdown(&mut actions);
            },
            _ => {},
        }
        assert(actions@ =~= old(self)@.next(event).1);
        actions
    }

    /// What stopping the daemon from outside takes, by what a ping
    /// brought: a daemon that answered is sent the shutdown command; one
    /// that did not is reported so.
    pub fn stop(ping: Result<bool, ()>) -> (result: Result<(), Error>)
        ensures
            match stop_error(ping) {
                None => result is Ok,
                Some(message) => {
                    &&& result matches Err(e)
                    &&& e.spec_kind() == ErrorKind::Other
                    &&& e.spec_message() == message
                },
            },
    {
        match ping {
            Ok(true) => Ok(()),
            Ok(false) => Err(Error::Other("Daemon is not responding".to_owned())),
            Err(_) => Err(Error::Other("Daemon is not running".to_owned())),
        }
    }
}

/// Appends what a shutdown takes.
fn push_shutdown(actions: &mut Vec<LifecycleAction>)
    requires
        old(actions)@.len() == 0,
    ensures
        final(actions)@ == shutdown_sequence(),
{
    actions.push(LifecycleAction::MarkShuttingDown);
    actions.push(LifecycleAction::StopDictationThread);
    actions.push(LifecycleAction::AbortAcceptLoop);
    actions.push(LifecycleAction::RemoveSocket);
    actions.push(LifecycleAction::ReleaseInjector);
    actions.push(LifecycleAction::ReleaseCapture);
    actions.push(LifecycleAction::ReleaseVad);
    actions.push(LifecycleAction::UnloadModel);
    actions.push(LifecycleAction::Exit(EXIT_CLEAN));
    assert(actions@ =~= shutdown_sequence());
}

/// The file that holds the daemon's process identifier: `onevox.pid`
/// beside the control socket, that is in the runtime directory, or in the
/// cache directory where there is no runtime directory, or in
/// `/tmp/onevox` where there is neither.
pub fn pid_file_path(runtime_dir: Option<&str>, cache_dir: Option<&str>) -> (path: String)
    ensures
        path@ == path_join(
            match runtime_dir {
                Some(dir) => dir@,
                None => match cache_dir {
                    Some(dir) => dir@,
                    None => FALLBACK_RUNTIME_DIR@,
                },
            },
            "onevox.pid"@,
        ),
{
    let base: &str = match runtime_dir {
        Some(dir) => dir,
        None => match cache_dir {
            Some(dir) => dir,
            None => FALLBACK_RUNTIME_DIR,
        },
    };
    join(base, "onevox.pid")
}

/// What is written to the file that holds the process identifier.
pub fn pid_file_content(pid: u32) -> (content: String)
    ensures
        content@ == decimal(pid as nat),
{
    decimal_string(pid as u64)
}

} // verus!
