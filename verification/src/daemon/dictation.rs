//! The dictation engine: what hotkey events and control commands start
//! and stop, and what a dictation session does with the chunks it gets.
//!
//! The engine decides; the program around it acts. Every step returns the
//! actions to carry out, in order.

use crate::audio::buffer::AudioChunk;
use crate::audio::capture::CaptureConfig;
use crate::config::Config;
use crate::models::runtime::{ModelConfig, Transcription};
use crate::platform::hotkey::HotkeyEvent;
use crate::platform::injector::InjectorConfig;
use crate::text::{concat, same_text};
use crate::vad::detector::{VadDecision, VadDetector};
use crate::vad::processor::{SpeechSegment, VadProcessor};
use crate::Error;
use vstd::prelude::*;

verus! {

/// How long the engine waits for a hotkey event before it looks at the
/// shutdown signal again, and a session for a chunk before it looks
/// whether dictation still goes on; in milliseconds.
pub const POLL_INTERVAL_MS: u64 = 100;

/// How many seconds of audio the ring of a dictation session holds.
pub const SESSION_BUFFER_SECS: u32 = 2;

/// The pause before typing that the engine sets, in milliseconds.
pub const INJECTION_INITIAL_DELAY_MS: u64 = 50;

/// What a session does with the audio.
#[derive(Debug, Clone, Copy, PartialEq, Eq, Structural)]
pub enum SessionMode {
    /// Speech segments are detected and transcribed one by one.
    Vad,
    /// Everything captured is transcribed at the end.
    HoldToTalk,
}

/// What the engine asks the program to do.
#[derive(Debug, Clone)]
pub enum EngineAction {
    /// Show that recording is under way.
    ShowRecording,
    /// Show that audio is being processed.
    ShowProcessing,
    /// Take the indicator away.
    HideIndicator,
    /// Start capture with these settings.
    StartCapture(CaptureConfig),
    /// Stop capture: the consumer then sees the end of the stream.
    StopCapture,
    /// Start the task that consumes the captured chunks.
    SpawnConsumer(SessionMode),
    /// Release the hotkey.
    UnregisterHotkeys,
    /// Unload the model.
    UnloadModel,
}

/// What an engine action is, without its payload.
#[derive(Debug, Clone, Copy, PartialEq, Eq, Structural)]
pub enum EngineStep {
    ShowRecording,
    ShowProcessing,
    HideIndicator,
    StartCapture,
    StopCapture,
    SpawnVadConsumer,
    SpawnHoldConsumer,
    UnregisterHotkeys,
    UnloadModel,
}

impl EngineAction {
    /// What the action is, without its payload.
    pub open spec fn step(self) -> EngineStep {
        match self {
            EngineAction::ShowRecording => EngineStep::ShowRecording,
            EngineAction::ShowProcessing => EngineStep::ShowProcessing,
            EngineAction::HideIndicator => EngineStep::HideIndicator,
            EngineAction::StartCapture(_) => EngineStep::StartCapture,
            EngineAction::StopCapture => EngineStep::StopCapture,
            EngineAction::SpawnConsumer(SessionMode::Vad) => EngineStep::SpawnVadConsumer,
            EngineAction::SpawnConsumer(SessionMode::HoldToTalk) => EngineStep::SpawnHoldConsumer,
            EngineAction::UnregisterHotkeys => EngineStep::UnregisterHotkeys,
            EngineAction::UnloadModel => EngineStep::UnloadModel,
        }
    }
}

/// The steps of the actions, in order.
pub open spec fn steps_of(actions: Seq<EngineAction>) -> Seq<EngineStep> {
    actions.map_values(|a: EngineAction| a.step())
}

/// The engine's state, as contracts see it.
pub struct EngineState {
    /// Whether a dictation is under way.
    pub is_dictating: bool,
    /// Whether the engine was shut down.
    pub shutdown: bool,
    /// Whether sessions detect speech segments.
    pub vad_enabled: bool,
}

impl EngineState {
    /// The state after a request to start dictation, and the steps it
    /// takes. A request while a dictation is under way changes nothing.
    pub open spec fn start(self) -> (EngineState, Seq<EngineStep>) {
        if self.is_dictating {
            (self, Seq::empty())
        } else {
            (
                EngineState { is_dictating: true, ..self },
                seq![
                    EngineStep::ShowRecording,
                    EngineStep::StartCapture,
                    if self.vad_enabled {
                        EngineStep::SpawnVadConsumer
                    } else {
                        EngineStep::SpawnHoldConsumer
                    },
                ],
            )
        }
    }

    /// The state after a request to stop dictation, and the steps it
    /// takes. A request while no dictation is under way changes nothing.
    pub open spec fn stop(self) -> (EngineState, Seq<EngineStep>) {
        if !self.is_dictating {
            (self, Seq::empty())
        } else {
            (
                EngineState { is_dictating: false, ..self },
                seq![EngineStep::ShowProcessing, EngineStep::StopCapture],
            )
        }
    }

    /// The steps a shutdown takes to end a dictation: none where none is
    /// under way.
    pub open spec fn ending_steps(self) -> Seq<EngineStep> {
        if self.is_dictating {
            seq![EngineStep::StopCapture, EngineStep::HideIndicator]
        } else {
            Seq::empty()
        }
    }

    /// The steps a shutdown takes to give up what the engine holds: none
    /// where an earlier shutdown has done so.
    pub open spec fn releasing_steps(self) -> Seq<EngineStep> {
        if self.shutdown {
            Seq::empty()
        } else if self.is_dictating {
            seq![EngineStep::UnregisterHotkeys, EngineStep::UnloadModel]
        } else {
            seq![EngineStep::HideIndicator, EngineStep::UnregisterHotkeys, EngineStep::UnloadModel]
        }
    }

    /// The state after a shutdown, and the steps it takes. Every shutdown
    /// ends a dictation that is under way, also one that was started
    /// after an earlier shutdown; the hotkey and the model are given up
    /// once. A shutdown of an engine that is shut down and not dictating
    /// changes nothing.
    pub open spec fn shut_down(self) -> (EngineState, Seq<EngineStep>) {
        (
            EngineState { is_dictating: false, shutdown: true, ..self },
            self.ending_steps() + self.releasing_steps(),
        )
    }

    /// The state after a hotkey event: a press asks to start, a release
    /// asks to stop.
    pub open spec fn on_hotkey(self, event: HotkeyEvent) -> (EngineState, Seq<EngineStep>) {
        match event {
            HotkeyEvent::Pressed => self.start(),
            HotkeyEvent::Released => self.stop(),
        }
    }
}

/// Stopping is idempotent: where no dictation is under way a stop changes
/// nothing and asks for nothing, and a second stop after a first never
/// does.
pub proof fn lemma_stop_is_idempotent(state: EngineState)
    ensures
        !state.is_dictating ==> state.stop() == (state, Seq::<EngineStep>::empty()),
        state.stop().0.stop() == (state.stop().0, Seq::<EngineStep>::empty()),
{
}

/// Shutting down twice is shutting down once: from every state, a
/// shutdown leaves the engine shut down and not dictating, and a second
/// shutdown leaves that state and asks for nothing; capture is not
/// stopped a second time.
pub proof fn lemma_shutdown_is_idempotent(state: EngineState)
    ensures
        state.shut_down().0.shut_down() == (state.shut_down().0, Seq::<EngineStep>::empty()),
        state.shut_down().0.shutdown,
        !state.shut_down().0.is_dictating,
        state.is_dictating ==> state.shut_down().1[0] == EngineStep::StopCapture,
{
    let once = state.shut_down().0;
    assert(once.ending_steps() + once.releasing_steps() =~= Seq::<EngineStep>::empty());
}

/// A shutdown ends a dictation that was started after an earlier
/// shutdown: capture is stopped and the engine is not dictating; the
/// shutdown after that asks for nothing.
pub proof fn lemma_shutdown_after_restart(state: EngineState)
    ensures
        ({
            let restarted = state.shut_down().0.start().0;
            &&& restarted.is_dictating
            &&& restarted.shut_down().1 == seq![EngineStep::StopCapture, EngineStep::HideIndicator]
            &&& !restarted.shut_down().0.is_dictating
            &&& restarted.shut_down().0.shut_down().1.len() == 0
        }),
{
    let restarted = state.shut_down().0.start().0;
    assert(restarted.ending_steps() + restarted.releasing_steps() =~= seq![
        EngineStep::StopCapture,
        EngineStep::HideIndicator,
    ]);
    lemma_shutdown_is_idempotent(restarted);
}

/// The dictation engine.
pub struct DictationEngine {
    config: Config,
    is_dictating: bool,
    shutdown_signal: bool,
}

impl View for DictationEngine {
    type V = EngineState;

    closed spec fn view(&self) -> EngineState {
        EngineState {
            is_dictating: self.is_dictating,
            shutdown: self.shutdown_signal,
            vad_enabled: self.config.vad.enabled,
        }
    }
}

impl DictationEngine {
    /// The settings.
    pub closed spec fn spec_config(&self) -> Config {
        self.config
    }

    /// An engine with these settings: not dictating, not shut down.
    pub fn new(config: Config) -> (engine: Self)
        ensures
            engine.spec_config() == config,
            engine@ == (EngineState {
                is_dictating: false,
                shutdown: false,
                vad_enabled: config.vad.enabled,
            }),
    {
        DictationEngine { config, is_dictating: false, shutdown_signal: false }
    }

    /// The injector's settings: the pause after typing is the configured
    /// paste delay.
    pub fn injector_config(&self) -> (config: InjectorConfig)
        ensures
            config.key_delay_ms == self.spec_config().injection.paste_delay_ms,
            config.initial_delay_ms == INJECTION_INITIAL_DELAY_MS,
    {
        InjectorConfig {
            key_delay_ms: self.config.injection.paste_delay_ms as u64,
            initial_delay_ms: INJECTION_INITIAL_DELAY_MS,
        }
    }

    /// The settings the model is loaded with: path and language as
    /// configured, the graphics processor where the configured device is
    /// "gpu", and `n_threads` threads.
    pub fn model_config(&self, n_threads: u32) -> (config: ModelConfig)
        ensures
            config.model_path@ == self.spec_config().model.model_path@,
            config.language@ == self.spec_config().model.language@,
            config.use_gpu == (self.spec_config().model.device@ == "gpu"@),
            config.n_threads == n_threads,
            config.beam_size == 5,
            !config.translate,
    {
        ModelConfig {
            model_path: self.config.model.model_path.clone(),
            language: self.config.model.language.clone(),
            use_gpu: same_text(self.config.model.device.as_str(), "gpu"),
            n_threads,
            beam_size: 5,
            translate: false,
        }
    }

    /// The settings a session's capture is started with.
    pub fn capture_config(&self) -> (config: CaptureConfig)
        ensures
            config.sample_rate == self.spec_config().audio.sample_rate,
            config.device_name@ == self.spec_config().audio.device@,
            config.chunk_duration_ms == self.spec_config().audio.chunk_duration_ms,
            config.buffer_capacity_secs == SESSION_BUFFER_SECS,
    {
        CaptureConfig {
            sample_rate: self.config.audio.sample_rate,
            device_name: self.config.audio.device.clone(),
            chunk_duration_ms: self.config.audio.chunk_duration_ms,
            buffer_capacity_secs: SESSION_BUFFER_SECS,
        }
    }

    /// How long a session waits between hiding the indicator and typing,
    /// in milliseconds.
    pub fn focus_settle_ms(&self) -> (ms: u32)
        ensures
            ms == self.spec_config().injection.focus_settle_ms,
    {
        self.config.injection.focus_settle_ms
    }

    /// Whether a dictation is under way.
    pub fn is_dictating(&self) -> (b: bool)
        ensures
            b == self@.is_dictating,
    {
        self.is_dictating
    }

    /// Whether the engine was shut down.
    pub fn is_shut_down(&self) -> (b: bool)
        ensures
            b == self@.shutdown,
    {
        self.shutdown_signal
    }

    /// Reacts to a hotkey event: a press starts a dictation, a release
    /// stops it.
    pub fn handle_hotkey_event(&mut self, event: HotkeyEvent) -> (actions: Vec<EngineAction>)
        ensures
            final(self).spec_config() == old(self).spec_config(),
            (final(self)@, steps_of(actions@)) == old(self)@.on_hotkey(event),
            capture_settings_hold(actions@, old(self).spec_config()),
    {
        match event {
            HotkeyEvent::Pressed => self.start_dictation(),
            HotkeyEvent::Released => self.stop_dictation(),
        }
    }

    /// Starts a dictation session, unless one is under way: the engine
    /// is dictating from now on, and the program shows the recording
    /// indicator, starts capture and starts the consumer for the
    /// configured mode, in this order.
    pub fn start_dictation(&mut self) -> (actions: Vec<EngineAction>)
        ensures
            final(self).spec_config() == old(self).spec_config(),
            (final(self)@, steps_of(actions@)) == old(self)@.start(),
            capture_settings_hold(actions@, old(self).spec_config()),
    {
        let mut actions: Vec<EngineAction> = Vec::new();
        if self.is_dictating {
            assert(steps_of(actions@) =~= Seq::<EngineStep>::empty());
            return actions;
        }
        self.is_dictating = true;
        actions.push(EngineAction::ShowRecording);
        actions.push(EngineAction::StartCapture(self.capture_config()));
        let mode = if self.config.vad.enabled {
            SessionMode::Vad
        } else {
            SessionMode::HoldToTalk
        };
        actions.push(EngineAction::SpawnConsumer(mode));
        assert(steps_of(actions@) =~= old(self)@.start().1);
        actions
    }

    /// Stops the dictation session, if one is under way: the engine is
    /// not dictating from now on, and the program shows the processing
    /// indicator and stops capture. Where none is under way nothing
    /// happens.
    pub fn stop_dictation(&mut self) -> (actions: Vec<EngineAction>)
        ensures
            final(self).spec_config() == old(self).spec_config(),
            (final(self)@, steps_of(actions@)) == old(self)@.stop(),
            !old(self)@.is_dictating ==> actions@.len() == 0 && final(self)@ == old(self)@,
            capture_settings_hold(actions@, old(self).spec_config()),
    {
        let mut actions: Vec<EngineAction> = Vec::new();
        if !self.is_dictating {
            assert(steps_of(actions@) =~= Seq::<EngineStep>::empty());
            return actions;
        }
        self.is_dictating = false;
        actions.push(EngineAction::ShowProcessing);
        actions.push(EngineAction::StopCapture);
        assert(steps_of(actions@) =~= old(self)@.stop().1);
        actions
    }

    /// Shuts the engine down: capture is stopped where a dictation is
    /// under way, the indicator is taken away, the hotkey is released
    /// and the model is unloaded. A second shutdown does nothing, unless
    /// a dictation was started in between: that one it ends.
    pub fn shutdown(&mut self) -> (actions: Vec<EngineAction>)
        ensures
            final(self).spec_config() == old(self).spec_config(),
            (final(self)@, steps_of(actions@)) == old(self)@.shut_down(),
            !final(self)@.is_dictating && final(self)@.shutdown,
            old(self)@.shutdown && !old(self)@.is_dictating ==> actions@.len() == 0,
            old(self)@.shutdown && !old(self)@.is_dictating ==> final(self)@ == old(self)@,
    {
        let mut actions: Vec<EngineAction> = Vec::new();
        let was_shut_down = self.shutdown_signal;
        self.shutdown_signal = true;
        if self.is_dictating {
            actions.push(EngineAction::StopCapture);
            self.is_dictating = false;
            actions.push(EngineAction::HideIndicator);
            if !was_shut_down {
                actions.push(EngineAction::UnregisterHotkeys);
                actions.push(EngineAction::UnloadModel);
            }
        } else if !was_shut_down {
            actions.push(EngineAction::HideIndicator);
            actions.push(EngineAction::UnregisterHotkeys);
            actions.push(EngineAction::UnloadModel);
        }
        assert(steps_of(actions@) =~= old(self)@.shut_down().1);
        actions
    }
}

/// Whether every request to start capture among the actions carries the
/// session's capture settings: the configured device, rate and chunk
/// length, and a ring of two seconds.
pub open spec fn capture_settings_hold(actions: Seq<EngineAction>, config: Config) -> bool {
    forall|i: int|
        0 <= i < actions.len() ==> (#[trigger] actions[i] matches EngineAction::StartCapture(c)
            ==> c.sample_rate == config.audio.sample_rate && c.device_name@ == config.audio.device@
            && c.chunk_duration_ms == config.audio.chunk_duration_ms && c.buffer_capacity_secs
            == SESSION_BUFFER_SECS)
}

/// What a session asks the program to do.
#[derive(Debug)]
pub enum SessionAction {
    /// Show that recording is under way.
    ShowRecording,
    /// Show that audio is being processed.
    ShowProcessing,
    /// Take the indicator away.
    HideIndicator,
    /// Transcribe this segment on a worker that may block, and hand the
    /// result back before anything else.
    Transcribe(SpeechSegment),
    /// Wait this many milliseconds.
    Sleep(u64),
    /// Type this text into the focused application.
    Inject(String),
    /// Log this error.
    Report(String),
    /// The session is over.
    Finish,
}

/// What a session action is, as contracts see it.
pub enum SessionStep {
    ShowRecording,
    ShowProcessing,
    HideIndicator,
    Transcribe(Seq<AudioChunk>),
    Sleep(u64),
    Inject(Seq<char>),
    Report(Seq<char>),
    Finish,
}

impl SessionAction {
    /// What the action is, as contracts see it.
    pub open spec fn step(self) -> SessionStep {
        match self {
            SessionAction::ShowRecording => SessionStep::ShowRecording,
            SessionAction::ShowProcessing => SessionStep::ShowProcessing,
            SessionAction::HideIndicator => SessionStep::HideIndicator,
            SessionAction::Transcribe(segment) => SessionStep::Transcribe(segment.chunks@),
            SessionAction::Sleep(ms) => SessionStep::Sleep(ms),
            SessionAction::Inject(text) => SessionStep::Inject(text@),
            SessionAction::Report(text) => SessionStep::Report(text@),
            SessionAction::Finish => SessionStep::Finish,
        }
    }

    /// Whether the action, where it carries a segment, carries one whose
    /// length and start are those of its chunks.
    pub open spec fn sound(self) -> bool {
        self matches SessionAction::Transcribe(segment) ==> segment.is_segment_of(segment.chunks@)
    }
}

/// The steps of the actions, in order.
pub open spec fn session_steps(actions: Seq<SessionAction>) -> Seq<SessionStep> {
    actions.map_values(|a: SessionAction| a.step())
}

/// Whether all the actions are sound.
pub open spec fn all_sound(actions: Seq<SessionAction>) -> bool {
    forall|i: int| 0 <= i < actions.len() ==> (#[trigger] actions[i]).sound()
}

/// Where a session stands.
#[derive(Debug, Clone, Copy, PartialEq, Eq, Structural)]
pub enum SessionPhase {
    /// It takes chunks.
    Listening,
    /// It waits for a transcription and will go on listening.
    Transcribing,
    /// It waits for the last transcription and will then be over.
    Closing,
    /// It is over.
    Finished,
}

/// What follows a transcription's result: the text is typed, after the
/// indicator is hidden and the focus has had time to settle; a failure is
/// reported.
pub open spec fn delivery(result: Result<Transcription, Seq<char>>, focus_settle_ms: u32) -> Seq<
    SessionStep,
> {
    match result {
        Ok(t) => if focus_settle_ms > 0 {
            seq![
                SessionStep::HideIndicator,
                SessionStep::Sleep(focus_settle_ms as u64),
                SessionStep::Inject(t.text@),
            ]
        } else {
            seq![SessionStep::HideIndicator, SessionStep::Inject(t.text@)]
        },
        Err(why) => seq![SessionStep::Report("Transcription failed: "@ + why)],
    }
}

/// A dictation session in hold-to-talk mode: it keeps every chunk and has
/// them transcribed as one segment when the capture ends.
pub struct HoldSession {
    collected: Vec<AudioChunk>,
    focus_settle_ms: u32,
    phase: SessionPhase,
}

impl HoldSession {
    /// The chunks kept so far.
    pub closed spec fn collected(&self) -> Seq<AudioChunk> {
        self.collected@
    }

    /// Where the session stands.
    pub closed spec fn phase(&self) -> SessionPhase {
        self.phase
    }

    /// The pause before typing, in milliseconds.
    pub closed spec fn settle_ms(&self) -> u32 {
        self.focus_settle_ms
    }

    /// A session that has kept nothing yet.
    pub fn new(focus_settle_ms: u32) -> (session: Self)
        ensures
            session.collected().len() == 0,
            session.phase() == SessionPhase::Listening,
            session.settle_ms() == focus_settle_ms,
    {
        HoldSession { collected: Vec::new(), focus_settle_ms, phase: SessionPhase::Listening }
    }

    /// Where the session stands.
    pub fn current_phase(&self) -> (phase: SessionPhase)
        ensures
            phase == self.phase(),
    {
        self.phase
    }

    /// Keeps a chunk. A session that no longer listens drops it.
    pub fn on_chunk(&mut self, chunk: AudioChunk)
        ensures
            final(self).phase() == old(self).phase(),
            final(self).settle_ms() == old(self).settle_ms(),
            final(self).collected() == if old(self).phase() == SessionPhase::Listening {
                old(self).collected().push(chunk)
            } else {
                old(self).collected()
            },
    {
        if self.phase == SessionPhase::Listening {
            self.collected.push(chunk);
        }
    }

    /// Whether the session ends when no chunk came for a while: it does
    /// once dictation has stopped.
    pub fn ends_on_idle(is_dictating: bool) -> (ends: bool)
        ensures
            ends == !is_dictating,
    {
        !is_dictating
    }

    /// Ends the capture: all the chunks kept go out as one segment to be
    /// transcribed; where none was kept the session is over at once.
    pub fn on_capture_end(&mut self) -> (actions: Vec<SessionAction>)
        ensures
            all_sound(actions@),
            final(self).settle_ms() == old(self).settle_ms(),
            old(self).phase() != SessionPhase::Listening ==> actions@.len() == 0 && final(self).phase() == old(self).phase() && final(self).collected() == old(self).collected(),
            old(self).phase() == SessionPhase::Listening ==> final(self).collected().len() == 0,
            old(self).phase() == SessionPhase::Listening && old(self).collected().len() > 0 ==> {
                &&& final(self).phase() == SessionPhase::Closing
                &&& session_steps(actions@) == seq![
                    SessionStep::ShowProcessing,
                    SessionStep::Transcribe(old(self).collected()),
                ]
            },
            old(self).phase() == SessionPhase::Listening && old(self).collected().len() == 0 ==> {
                &&& final(self).phase() == SessionPhase::Finished
                &&& session_steps(actions@) == seq![SessionStep::HideIndicator, SessionStep::Finish]
            },
    {
        let mut actions: Vec<SessionAction> = Vec::new();
        if self.phase != SessionPhase::Listening {
            return actions;
        }
        if self.collected.len() > 0 {
            let mut chunks: Vec<AudioChunk> = Vec::new();
            std::mem::swap(&mut chunks, &mut self.collected);
            let segment = SpeechSegment::new(chunks);
            self.phase = SessionPhase::Closing;
            actions.push(SessionAction::ShowProcessing);
            actions.push(SessionAction::Transcribe(segment));
            assert(session_steps(actions@) =~= seq![
                SessionStep::ShowProcessing,
                SessionStep::Transcribe(old(self).collected()),
            ]);
        } else {
            self.phase = SessionPhase::Finished;
            actions.push(SessionAction::HideIndicator);
            actions.push(SessionAction::Finish);
            assert(session_steps(actions@) =~= seq![
                SessionStep::HideIndicator,
                SessionStep::Finish,
            ]);
        }
        actions
    }

    /// Takes the result of the transcription: the text is typed or the
    /// failure reported, the indicator is taken away and the session is
    /// over.
    pub fn on_transcribed(&mut self, result: Result<Transcription, String>) -> (actions: Vec<
        SessionAction,
    >)
        ensures
            all_sound(actions@),
            final(self).settle_ms() == old(self).settle_ms(),
            final(self).collected() == old(self).collected(),
            old(self).phase() != SessionPhase::Closing ==> actions@.len() == 0 && final(self).phase() == old(self).phase(),
            old(self).phase() == SessionPhase::Closing ==> {
                &&& final(self).phase() == SessionPhase::Finished
                &&& session_steps(actions@) == delivery(
                    match result {
                        Ok(t) => Ok(t),
                        Err(why) => Err(why@),
                    },
                    old(self).settle_ms(),
                ) + seq![SessionStep::HideIndicator, SessionStep::Finish]
            },
    {
        let mut actions: Vec<SessionAction> = Vec::new();
        if self.phase != SessionPhase::Closing {
            return actions;
        }
        deliver(&mut actions, result, self.focus_settle_ms);
        let ghost delivered = session_steps(actions@);
        self.phase = SessionPhase::Finished;
        actions.push(SessionAction::HideIndicator);
        actions.push(SessionAction::Finish);
        assert(session_steps(actions@) =~= delivered + seq![
            SessionStep::HideIndicator,
            SessionStep::Finish,
        ]);
        actions
    }
}

/// Appends what follows a transcription's result.
fn deliver(actions: &mut Vec<SessionAction>, result: Result<Transcription, String>, focus_settle_ms: u32)
    requires
        old(actions)@.len() == 0,
    ensures
        all_sound(final(actions)@),
        session_steps(final(actions)@) == delivery(
            match result {
                Ok(t) => Ok(t),
                Err(why) => Err(why@),
            },
            focus_settle_ms,
        ),
{
    match result {
        Ok(t) => {
            actions.push(SessionAction::HideIndicator);
            if focus_settle_ms > 0 {
                actions.push(SessionAction::Sleep(focus_settle_ms as u64));
            }
            actions.push(SessionAction::Inject(t.text));
            assert(session_steps(actions@) =~= delivery(Ok(t), focus_settle_ms));
        },
        Err(why) => {
            actions.push(SessionAction::Report(concat("Transcription failed: ", why.as_str())));
            assert(session_steps(actions@) =~= delivery(Err(why@), focus_settle_ms));
        },
    }
}

/// A dictation session in voice-activity mode: each segment the assembler
/// closes is transcribed and typed before the next chunk is looked at, so
/// texts reach the application in the order their segments were closed.
pub struct VadSession<D: VadDetector> {
    processor: VadProcessor<D>,
    focus_settle_ms: u32,
    phase: SessionPhase,
}

impl<D: VadDetector> VadSession<D> {
    /// The assembler.
    pub closed spec fn processor(&self) -> VadProcessor<D> {
        self.processor
    }

    /// Where the session stands.
    pub closed spec fn phase(&self) -> SessionPhase {
        self.phase
    }

    /// The pause before typing, in milliseconds.
    pub closed spec fn settle_ms(&self) -> u32 {
        self.focus_settle_ms
    }

    /// Whether the session's state is one that can be reached.
    pub open spec fn wf(&self) -> bool {
        self.processor().wf() && self.phase() != SessionPhase::Closing
    }

    /// A session around an assembler.
    pub fn new(processor: VadProcessor<D>, focus_settle_ms: u32) -> (session: Self)
        requires
            processor.wf(),
        ensures
            session.wf(),
            session.processor() == processor,
            session.phase() == SessionPhase::Listening,
            session.settle_ms() == focus_settle_ms,
    {
        VadSession { processor, focus_settle_ms, phase: SessionPhase::Listening }
    }

    /// Where the session stands.
    pub fn current_phase(&self) -> (phase: SessionPhase)
        ensures
            phase == self.phase(),
    {
        self.phase
    }

    /// Whether a listening session `pre`, given `chunk`, may become `post`
    /// and ask for `actions`, the detector's verdict being `verdict`.
    pub open spec fn took_chunk(
        pre: Self,
        chunk: AudioChunk,
        post: Self,
        actions: Seq<SessionAction>,
        verdict: Result<VadDecision, Error>,
    ) -> bool {
        &&& D::detects(&pre.processor().detector(), &chunk, &post.processor().detector(), verdict)
        &&& match verdict {
            Ok(decision) => {
                &&& post.processor()@ == pre.processor()@.step(chunk, decision).0
                &&& match pre.processor()@.step(chunk, decision).1 {
                    Some(chunks) => {
                        &&& post.phase() == SessionPhase::Transcribing
                        &&& session_steps(actions) == seq![
                            SessionStep::ShowProcessing,
                            SessionStep::Transcribe(chunks),
                        ]
                    },
                    None => {
                        &&& post.phase() == SessionPhase::Listening
                        &&& actions.len() == 0
                    },
                }
            },
            Err(e) => {
                &&& post.processor()@ == pre.processor()@.learn_capacity(chunk)
                &&& post.phase() == SessionPhase::Listening
                &&& session_steps(actions) == seq![
                    SessionStep::Report(
                        "VAD processing failed: "@ + Error::prefix(e.spec_kind())
                            + e.spec_message(),
                    ),
                ]
            },
        }
    }

    /// Takes a chunk. While the session listens the chunk goes to the
    /// assembler: where that closes a segment, the segment goes out to
    /// be transcribed and the session waits for the result; where the
    /// detector fails, the failure is reported and the session goes on.
    /// A session that does not listen drops the chunk.
    pub fn on_chunk(&mut self, chunk: AudioChunk) -> (actions: Vec<SessionAction>)
        requires
            old(self).wf(),
        ensures
            final(self).wf(),
            all_sound(actions@),
            final(self).settle_ms() == old(self).settle_ms(),
            old(self).phase() != SessionPhase::Listening ==> actions@.len() == 0 && final(self).phase() == old(self).phase() && final(self).processor() == old(self).processor(),
            old(self).phase() == SessionPhase::Listening ==> exists|verdict: Result<
                VadDecision,
                Error,
            >|
                Self::took_chunk(*old(self), chunk, *final(self), actions@, verdict),
    {
        let mut actions: Vec<SessionAction> = Vec::new();
        if self.phase != SessionPhase::Listening {
            return actions;
        }
        let result = self.processor.process(chunk);
        let ghost verdict = choose|verdict: Result<VadDecision, Error>|
            VadProcessor::<D>::processed(
                old(self).processor(),
                chunk,
                self.processor(),
                result,
                verdict,
            );
        match result {
            Ok(Some(segment)) => {
                self.phase = SessionPhase::Transcribing;
                let ghost chunks = segment.chunks@;
                actions.push(SessionAction::ShowProcessing);
                actions.push(SessionAction::Transcribe(segment));
                assert(session_steps(actions@) =~= seq![
                    SessionStep::ShowProcessing,
                    SessionStep::Transcribe(chunks),
                ]);
            },
            Ok(None) => {},
            Err(e) => {
                assert(verdict == Err::<VadDecision, Error>(e));
                let why = e.to_string();
                assert("VAD processing failed: "@ + why@ =~= "VAD processing failed: "@
                    + Error::prefix(e.spec_kind()) + e.spec_message());
                actions.push(SessionAction::Report(concat("VAD processing failed: ", why.as_str())));
                assert(session_steps(actions@) =~= seq![
                    SessionStep::Report(
                        "VAD processing failed: "@ + Error::prefix(e.spec_kind())
                            + e.spec_message(),
                    ),
                ]);
            },
        }
        assert(Self::took_chunk(*old(self), chunk, *self, actions@, verdict));
        actions
    }

    /// Takes the result of a transcription: the text is typed or the
    /// failure reported, and the session listens again; while dictation
    /// still goes on, the recording indicator comes back.
    pub fn on_transcribed(
        &mut self,
        result: Result<Transcription, String>,
        is_dictating: bool,
    ) -> (actions: Vec<SessionAction>)
        requires
            old(self).wf(),
        ensures
            final(self).wf(),
            all_sound(actions@),
            final(self).settle_ms() == old(self).settle_ms(),
            final(self).processor() == old(self).processor(),
            old(self).phase() != SessionPhase::Transcribing ==> actions@.len() == 0 && final(self).phase() == old(self).phase(),
            old(self).phase() == SessionPhase::Transcribing ==> {
                &&& final(self).phase() == SessionPhase::Listening
                &&& session_steps(actions@) == delivery(
                    match result {
                        Ok(t) => Ok(t),
                        Err(why) => Err(why@),
                    },
                    old(self).settle_ms(),
                ) + if is_dictating {
                    seq![SessionStep::ShowRecording]
                } else {
                    Seq::<SessionStep>::empty()
                }
            },
    {
        let mut actions: Vec<SessionAction> = Vec::new();
        if self.phase != SessionPhase::Transcribing {
            return actions;
        }
        deliver(&mut actions, result, self.focus_settle_ms);
        let ghost delivered = session_steps(actions@);
        self.phase = SessionPhase::Listening;
        if is_dictating {
            actions.push(SessionAction::ShowRecording);
            assert(session_steps(actions@) =~= delivered + seq![SessionStep::ShowRecording]);
        } else {
            assert(session_steps(actions@) =~= delivered + Seq::<SessionStep>::empty());
        }
        actions
    }

    /// Whether the session ends when no chunk came for a while: it does
    /// once dictation has stopped.
    pub fn ends_on_idle(is_dictating: bool) -> (ends: bool)
        ensures
            ends == !is_dictating,
    {
        !is_dictating
    }

    /// Ends the capture: the indicator is taken away and the session is
    /// over. A segment that is still open is dropped.
    pub fn on_capture_end(&mut self) -> (actions: Vec<SessionAction>)
        requires
            old(self).wf(),
        ensures
            final(self).wf(),
            all_sound(actions@),
            final(self).settle_ms() == old(self).settle_ms(),
            final(self).processor() == old(self).processor(),
            final(self).phase() == SessionPhase::Finished,
            session_steps(actions@) == if old(self).phase() == SessionPhase::Finished {
                Seq::<SessionStep>::empty()
            } else {
                seq![SessionStep::HideIndicator, SessionStep::Finish]
            },
    {
        let mut actions: Vec<SessionAction> = Vec::new();
        if self.phase == SessionPhase::Finished {
            assert(session_steps(actions@) =~= Seq::<SessionStep>::empty());
            return actions;
        }
        self.phase = SessionPhase::Finished;
        actions.push(SessionAction::HideIndicator);
        actions.push(SessionAction::Finish);
        assert(session_steps(actions@) =~= seq![SessionStep::HideIndicator, SessionStep::Finish]);
        actions
    }
}

} // verus!
