use onevox::audio::buffer::AudioChunk;
use onevox::config::Config;
use onevox::daemon::dictation::{
    DictationEngine, EngineAction, HoldSession, SessionAction, SessionMode, SessionPhase,
    VadSession,
};
use onevox::models::runtime::{transcribe_segment, ModelConfig, ModelInfo, ModelRuntime, Transcription};
use onevox::models::MockModel;
use onevox::platform::hotkey::HotkeyEvent;
use onevox::vad::detector::{VadDecision, VadDetector};
use onevox::vad::energy::{EnergyVad, EnergyVadConfig};
use onevox::vad::processor::{SpeechSegment, VadProcessor, VadProcessorConfig};
use onevox::Error;

fn silence(stamp: u64) -> AudioChunk {
    AudioChunk::new(vec![0; 1600], 16000, stamp)
}

fn sine(stamp: u64) -> AudioChunk {
    let samples: Vec<i16> = (0..1600)
        .map(|i| ((0.2 * (i as f32 * 0.05).sin()) * i16::MAX as f32) as i16)
        .collect();
    AudioChunk::new(samples, 16000, stamp)
}

fn default_processor() -> VadProcessor<EnergyVad> {
    VadProcessor::new(VadProcessorConfig::default(), EnergyVad::new(EnergyVadConfig::default()))
}

/// The default settings with a threshold that rides on the background.
fn adaptive_processor() -> VadProcessor<EnergyVad> {
    let config = EnergyVadConfig { adaptive: true, ..EnergyVadConfig::default() };
    VadProcessor::new(VadProcessorConfig::default(), EnergyVad::new(config))
}

/// A model that answers with the number of samples it was given.
struct LengthModel {
    loaded: bool,
}

impl ModelRuntime for LengthModel {
    fn loaded(&self) -> bool {
        self.loaded
    }
    fn load(&mut self, _config: ModelConfig) -> Result<(), Error> {
        self.loaded = true;
        Ok(())
    }
    fn is_loaded(&self) -> bool {
        self.loaded
    }
    fn transcribe(&mut self, samples: &[i16], sample_rate: u32) -> Result<Transcription, Error> {
        onevox::models::runtime::check_transcribe_input(self.loaded, samples.len(), sample_rate)?;
        Ok(Transcription::new(samples.len().to_string()))
    }
    fn unload(&mut self) {
        self.loaded = false;
    }
    fn name(&self) -> &str {
        "length"
    }
    fn info(&self) -> ModelInfo {
        ModelInfo::default()
    }
}

/// Runs a session in voice-activity mode over the chunks, as the daemon's
/// consumer does, and returns the segments' start times and the texts
/// typed, in order.
fn run_vad_session<M: ModelRuntime>(
    processor: VadProcessor<EnergyVad>,
    chunks: Vec<AudioChunk>,
    model: &mut M,
) -> (Vec<u64>, Vec<String>) {
    let mut session = VadSession::new(processor, 0);
    let mut starts = Vec::new();
    let mut typed = Vec::new();
    for chunk in chunks {
        let mut pending: Vec<SessionAction> = session.on_chunk(chunk);
        while !pending.is_empty() {
            let mut next = Vec::new();
            for action in pending {
                match action {
                    SessionAction::Transcribe(segment) => {
                        starts.push(segment.start_time);
                        let result = transcribe_segment(model, &segment).map_err(|e| e.to_string());
                        next.extend(session.on_transcribed(result, true));
                    }
                    SessionAction::Inject(text) => typed.push(text),
                    _ => {}
                }
            }
            pending = next;
        }
    }
    let end = session.on_capture_end();
    assert!(matches!(end.last(), Some(SessionAction::Finish)));
    (starts, typed)
}

#[test]
fn silence_yields_nothing() {
    let mut model = MockModel::new();
    model.load(ModelConfig::default()).unwrap();
    let chunks: Vec<AudioChunk> = (0..30).map(|k| silence(k * 100_000)).collect();
    let (starts, typed) = run_vad_session(default_processor(), chunks, &mut model);
    assert!(starts.is_empty());
    assert!(typed.is_empty());
    let chunks: Vec<AudioChunk> = (0..30).map(|k| silence(k * 100_000)).collect();
    let (starts, typed) = run_vad_session(adaptive_processor(), chunks, &mut model);
    assert!(starts.is_empty());
    assert!(typed.is_empty());
}

#[test]
fn single_utterance_yields_one_segment() {
    let mut processor = default_processor();
    let mut segments: Vec<SpeechSegment> = Vec::new();
    let mut emitted_at: Vec<usize> = Vec::new();
    let mut stamp = 0;
    for call in 1..=14 {
        let chunk = if call <= 10 { sine(stamp) } else { silence(stamp) };
        if let Some(segment) = processor.process(chunk).unwrap() {
            emitted_at.push(call);
            segments.push(segment);
        }
        stamp += 100_000;
    }
    // Exactly one of the fourteen calls emits: the thirteenth.
    assert_eq!(emitted_at, vec![13]);
    assert_eq!(segments.len(), 1);
    let stamps: Vec<u64> = segments[0].chunks.iter().map(|c| c.timestamp).collect();
    assert_eq!(stamps, (0..13).map(|k| k * 100_000).collect::<Vec<u64>>());
    // Ten chunks of speech and the three silent chunks it takes to close.
    assert_eq!(segments[0].len(), 13);
    assert_eq!(segments[0].start_time, 0);
    assert_eq!(segments[0].duration_ms, 1300);
    let mut model = MockModel::new();
    model.load(ModelConfig::default()).unwrap();
    let chunks: Vec<AudioChunk> =
        (0..10).map(|k| sine(k * 100_000)).chain((10..14).map(|k| silence(k * 100_000))).collect();
    let (starts, typed) = run_vad_session(default_processor(), chunks, &mut model);
    assert_eq!(starts, vec![0]);
    assert_eq!(typed, vec!["[Mock transcription of 1.3s audio]"]);
}

#[test]
fn two_utterances_yield_two_segments_in_order() {
    let mut chunks = Vec::new();
    let mut stamp = 0;
    let mut add = |loud: bool, n: usize, chunks: &mut Vec<AudioChunk>| {
        for _ in 0..n {
            chunks.push(if loud { sine(stamp) } else { silence(stamp) });
            stamp += 100_000;
        }
    };
    add(true, 10, &mut chunks);
    add(false, 20, &mut chunks);
    add(true, 10, &mut chunks);
    add(false, 5, &mut chunks);
    let mut processor = default_processor();
    let mut emitted: Vec<(usize, Vec<u64>)> = Vec::new();
    for (k, chunk) in chunks.iter().enumerate() {
        if let Some(segment) = processor.process(chunk.duplicate()).unwrap() {
            emitted.push((k + 1, segment.chunks.iter().map(|c| c.timestamp).collect()));
        }
    }
    // Exactly two of the forty-five calls emit: the thirteenth and the
    // forty-third. The segments are runs of what was fed and share no
    // chunk.
    assert_eq!(emitted.len(), 2);
    assert_eq!(emitted[0].0, 13);
    assert_eq!(emitted[0].1, (0..13).map(|k| k * 100_000).collect::<Vec<u64>>());
    assert_eq!(emitted[1].0, 43);
    assert_eq!(emitted[1].1, (28..43).map(|k| k * 100_000).collect::<Vec<u64>>());
    let mut model = LengthModel { loaded: true };
    let (starts, typed) = run_vad_session(default_processor(), chunks, &mut model);
    assert_eq!(starts.len(), 2);
    assert!(starts[0] <= starts[1]);
    assert_eq!(starts[0], 0);
    // The second segment opens with the last two silent chunks and the
    // loud chunk before the one at which speech was heard: chunks 28..=42.
    assert_eq!(starts[1], 2_800_000);
    assert_eq!(typed, vec![(13 * 1600).to_string(), (15 * 1600).to_string()]);
}

#[test]
fn hold_to_talk_yields_one_segment_with_every_chunk() {
    let mut session = HoldSession::new(80);
    for k in 0..30 {
        session.on_chunk(sine(k * 100_000));
    }
    assert!(!HoldSession::ends_on_idle(true));
    assert!(HoldSession::ends_on_idle(false));
    let mut actions = session.on_capture_end();
    assert_eq!(actions.len(), 2);
    assert!(matches!(actions[0], SessionAction::ShowProcessing));
    let segment = match actions.pop() {
        Some(SessionAction::Transcribe(segment)) => segment,
        _ => unreachable!(),
    };
    assert_eq!(segment.len(), 30);
    assert_eq!(segment.start_time, 0);
    assert_eq!(session.current_phase(), SessionPhase::Closing);
    let mut model = LengthModel { loaded: true };
    let result = transcribe_segment(&mut model, &segment).map_err(|e| e.to_string());
    let actions = session.on_transcribed(result);
    let texts: Vec<String> = actions
        .iter()
        .map(|a| match a {
            SessionAction::HideIndicator => "hide".to_string(),
            SessionAction::Sleep(ms) => format!("sleep {}", ms),
            SessionAction::Inject(text) => format!("inject {}", text),
            SessionAction::Finish => "finish".to_string(),
            _ => "other".to_string(),
        })
        .collect();
    assert_eq!(texts, vec!["hide", "sleep 80", "inject 48000", "hide", "finish"]);
    assert_eq!(session.current_phase(), SessionPhase::Finished);
    assert!(session.on_capture_end().is_empty());
}

#[test]
fn hold_to_talk_without_audio_ends_at_once() {
    let mut session = HoldSession::new(0);
    let actions = session.on_capture_end();
    assert!(matches!(actions[..], [SessionAction::HideIndicator, SessionAction::Finish]));
    assert!(session.on_transcribed(Err("late".to_string())).is_empty());
}

#[test]
fn failed_transcription_is_reported_and_the_session_goes_on() {
    let mut session = VadSession::new(default_processor(), 0);
    let mut dispatched = 0;
    for k in 0..14u64 {
        let chunk = if k < 10 { sine(k * 100_000) } else { silence(k * 100_000) };
        for action in session.on_chunk(chunk) {
            if let SessionAction::Transcribe(_) = action {
                dispatched += 1;
                assert_eq!(session.current_phase(), SessionPhase::Transcribing);
                let after = session.on_transcribed(Err("boom".to_string()), false);
                match &after[..] {
                    [SessionAction::Report(text)] => {
                        assert_eq!(text, "Transcription failed: boom")
                    }
                    _ => unreachable!(),
                }
            }
        }
    }
    assert_eq!(dispatched, 1);
    assert_eq!(session.current_phase(), SessionPhase::Listening);
}

/// A detector that fails on every chunk.
struct BrokenDetector;

impl VadDetector for BrokenDetector {
    fn detect(&mut self, _chunk: &AudioChunk) -> Result<VadDecision, Error> {
        Err(Error::Vad("no signal".to_string()))
    }
    fn name(&self) -> &str {
        "broken"
    }
    fn reset(&mut self) {}
}

#[test]
fn detector_failure_drops_the_chunk() {
    let mut processor = VadProcessor::new(VadProcessorConfig::default(), BrokenDetector);
    let e = processor.process(sine(0)).unwrap_err();
    assert_eq!(e.to_string(), "VAD error: no signal");
    assert!(!processor.is_in_speech());
    assert_eq!(processor.detector_name(), "broken");
    let mut session = VadSession::new(processor, 0);
    match &session.on_chunk(sine(1))[..] {
        [SessionAction::Report(text)] => {
            assert_eq!(text, "VAD processing failed: VAD error: no signal")
        }
        _ => unreachable!(),
    }
}

#[test]
fn reset_returns_the_assembler_to_idle() {
    let mut processor = default_processor();
    for k in 0..5 {
        assert!(processor.process(sine(k)).unwrap().is_none());
    }
    assert!(processor.is_in_speech());
    processor.reset();
    assert!(!processor.is_in_speech());
    assert!(processor.apply(silence(9), VadDecision::Silence).is_none());
    assert!(processor.apply(sine(10), VadDecision::Speech).is_none());
    let segment = processor.apply(silence(11), VadDecision::Silence).unwrap();
    let stamps: Vec<u64> = segment.chunks.iter().map(|c| c.timestamp).collect();
    assert_eq!(stamps, vec![9, 10, 11]);
}

#[test]
fn pre_roll_keeps_the_latest_chunks_only() {
    let mut processor = VadProcessor::new(
        VadProcessorConfig { pre_roll_ms: 250, post_roll_ms: 0 },
        EnergyVad::new(EnergyVadConfig::default()),
    );
    for k in 0..8 {
        assert!(processor.apply(silence(k), VadDecision::Silence).is_none());
    }
    assert!(processor.apply(sine(8), VadDecision::Speech).is_none());
    let segment = processor.apply(silence(9), VadDecision::Silence).unwrap();
    // 250 ms of pre-roll in chunks of 100 ms are three chunks.
    let stamps: Vec<u64> = segment.chunks.iter().map(|c| c.timestamp).collect();
    assert_eq!(stamps, vec![5, 6, 7, 8, 9]);
}

#[test]
fn adaptive_threshold_rides_on_the_median() {
    let config = EnergyVadConfig {
        threshold: 100,
        min_speech_chunks: 1,
        min_silence_chunks: 1,
        adaptive: true,
        adaptive_window_size: 3,
    };
    let mut vad = EnergyVad::new(config);
    // Energies 1000, 1000, 50: the median stays at 1000, so nothing is
    // above the threshold of 1100.
    assert_eq!(vad.detect_samples(&[1000; 8]), VadDecision::Silence);
    assert_eq!(vad.detect_samples(&[1000; 8]), VadDecision::Silence);
    assert_eq!(vad.detect_samples(&[50; 8]), VadDecision::Silence);
    // Window 1000, 50, 2000: median 1000, threshold 1100.
    assert_eq!(vad.detect_samples(&[2000; 8]), VadDecision::Speech);
    assert!(vad.in_speech());
    // Window 50, 2000, 60: median 60, threshold 160.
    assert_eq!(vad.detect_samples(&[60; 8]), VadDecision::Silence);
    vad.reset();
    assert!(!vad.in_speech());
    assert_eq!(vad.name(), "Energy-based VAD");
}

#[test]
fn hysteresis_counts_chunks() {
    let config = EnergyVadConfig {
        threshold: 655,
        min_speech_chunks: 2,
        min_silence_chunks: 3,
        adaptive: false,
        adaptive_window_size: 30,
    };
    let mut vad = EnergyVad::new(config);
    let loud = [5000i16; 16];
    let quiet = [0i16; 16];
    let decisions: Vec<VadDecision> = [
        &loud, &quiet, &loud, &loud, &quiet, &quiet, &loud, &quiet, &quiet, &quiet, &quiet,
    ]
    .iter()
    .map(|s| vad.detect_samples(&s[..]))
    .collect();
    let (q, s) = (VadDecision::Silence, VadDecision::Speech);
    assert_eq!(decisions, vec![q, q, q, s, s, s, s, s, s, q, q]);
}

#[test]
fn engine_starts_and_stops_dictation() {
    let mut engine = DictationEngine::new(Config::default());
    assert!(!engine.is_dictating());
    // Stopping while nothing runs does nothing.
    assert!(engine.stop_dictation().is_empty());
    assert!(engine.handle_hotkey_event(HotkeyEvent::Released).is_empty());
    let actions = engine.handle_hotkey_event(HotkeyEvent::Pressed);
    assert!(engine.is_dictating());
    assert_eq!(actions.len(), 3);
    assert!(matches!(actions[0], EngineAction::ShowRecording));
    match &actions[1] {
        EngineAction::StartCapture(config) => {
            assert_eq!(config.sample_rate, 16000);
            assert_eq!(config.chunk_duration_ms, 200);
            assert_eq!(config.buffer_capacity_secs, 2);
            assert_eq!(config.device_name, "default");
        }
        _ => unreachable!(),
    }
    assert!(matches!(actions[2], EngineAction::SpawnConsumer(SessionMode::Vad)));
    // A second press while dictating is refused.
    assert!(engine.start_dictation().is_empty());
    let actions = engine.handle_hotkey_event(HotkeyEvent::Released);
    assert!(matches!(actions[..], [EngineAction::ShowProcessing, EngineAction::StopCapture]));
    assert!(!engine.is_dictating());
    assert!(engine.stop_dictation().is_empty());
}

#[test]
fn engine_shutdown_twice_is_shutdown_once() {
    let mut config = Config::default();
    config.vad.enabled = false;
    config.injection.paste_delay_ms = 25;
    config.model.device = "gpu".to_string();
    let mut engine = DictationEngine::new(config);
    assert_eq!(engine.injector_config().key_delay_ms, 25);
    assert_eq!(engine.injector_config().initial_delay_ms, 50);
    assert!(engine.model_config(4).use_gpu);
    assert_eq!(engine.focus_settle_ms(), 80);
    let started = engine.start_dictation();
    assert!(matches!(started[2], EngineAction::SpawnConsumer(SessionMode::HoldToTalk)));
    let actions = engine.shutdown();
    assert!(matches!(
        actions[..],
        [
            EngineAction::StopCapture,
            EngineAction::HideIndicator,
            EngineAction::UnregisterHotkeys,
            EngineAction::UnloadModel
        ]
    ));
    assert!(engine.is_shut_down());
    assert!(!engine.is_dictating());
    assert!(engine.shutdown().is_empty());
    assert!(engine.is_shut_down());
    assert!(!engine.is_dictating());
}

#[test]
fn adaptive_threshold_hears_speech_after_silence() {
    // With the adaptive threshold a loud signal is heard against the
    // silence before it, for as long as silence fills the window.
    let mut model = LengthModel { loaded: true };
    let chunks: Vec<AudioChunk> = (0..20)
        .map(|k| silence(k * 100_000))
        .chain((20..30).map(|k| sine(k * 100_000)))
        .chain((30..34).map(|k| silence(k * 100_000)))
        .collect();
    let (starts, typed) = run_vad_session(adaptive_processor(), chunks, &mut model);
    assert_eq!(starts, vec![1_800_000]);
    assert_eq!(typed, vec![(15 * 1600).to_string()]);
}

#[test]
fn utterance_after_a_lead_keeps_the_pre_roll_and_the_closing_chunks() {
    let mut processor = default_processor();
    let mut segments: Vec<SpeechSegment> = Vec::new();
    let mut fed: Vec<AudioChunk> = Vec::new();
    for k in 0..5 {
        fed.push(silence(k * 100_000));
    }
    for k in 5..15 {
        fed.push(sine(k * 100_000));
    }
    for k in 15..18 {
        fed.push(silence(k * 100_000));
    }
    for (k, chunk) in fed.iter().enumerate() {
        let out = processor.process(chunk.duplicate()).unwrap();
        // Nothing comes out before the last closing chunk.
        assert_eq!(out.is_some(), k == 17);
        segments.extend(out);
    }
    assert_eq!(segments.len(), 1);
    // Three chunks of pre-roll, of which the last is the first loud chunk;
    // the nine loud chunks from the opening one on; three closing chunks.
    assert_eq!(segments[0].len(), 3 + 9 + 3);
    let stamps: Vec<u64> = segments[0].chunks.iter().map(|c| c.timestamp).collect();
    let expected: Vec<u64> = (3..18).map(|k| k * 100_000).collect();
    assert_eq!(stamps, expected);
    assert_eq!(segments[0].start_time, 300_000);
}

#[test]
fn shutdown_ends_a_dictation_started_after_a_shutdown() {
    let mut engine = DictationEngine::new(Config::default());
    let first = engine.shutdown();
    assert!(matches!(
        first[..],
        [EngineAction::HideIndicator, EngineAction::UnregisterHotkeys, EngineAction::UnloadModel]
    ));
    assert_eq!(engine.start_dictation().len(), 3);
    assert!(engine.is_dictating());
    let second = engine.shutdown();
    assert!(matches!(second[..], [EngineAction::StopCapture, EngineAction::HideIndicator]));
    assert!(!engine.is_dictating());
    assert!(engine.is_shut_down());
    assert!(engine.shutdown().is_empty());
    assert!(!engine.is_dictating());
}

#[test]
fn a_model_that_is_not_loaded_fails_with_a_model_error() {
    let mut model = MockModel::new();
    match model.transcribe(&vec![0i16; 16000], 16000) {
        Err(Error::Model(message)) => assert_eq!(message, "Model not loaded"),
        other => panic!("unexpected {:?}", other.map(|t| t.text).map_err(|e| e.to_string())),
    }
}
