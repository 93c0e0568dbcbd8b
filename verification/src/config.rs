//! The daemon's settings and their defaults.

use crate::vad::energy::EnergyVadConfig;
use crate::vad::processor::VadProcessorConfig;
use vstd::prelude::*;

verus! {

/// The window of the adaptive threshold, in chunks.
pub const ADAPTIVE_WINDOW_CHUNKS: usize = 30;

/// All settings.
#[derive(Debug, Clone)]
pub struct Config {
    pub daemon: DaemonConfig,
    pub hotkey: HotkeyConfig,
    pub audio: AudioConfig,
    pub ui: UiConfig,
    pub vad: VadConfig,
    pub model: ModelConfig,
    pub post_processing: PostProcessingConfig,
    pub injection: InjectionConfig,
    pub history: HistoryConfig,
}

#[derive(Debug, Clone)]
pub struct DaemonConfig {
    pub auto_start: bool,
    pub log_level: String,
}

#[derive(Debug, Clone)]
pub struct HotkeyConfig {
    pub trigger: String,
    pub mode: String,
}

#[derive(Debug, Clone)]
pub struct AudioConfig {
    pub device: String,
    pub sample_rate: u32,
    pub chunk_duration_ms: u32,
}

#[derive(Debug, Clone, Copy)]
pub struct UiConfig {
    pub recording_overlay: bool,
}

#[derive(Debug, Clone)]
pub struct VadConfig {
    pub enabled: bool,
    pub backend: String,
    /// Energy threshold, in sample units (full scale is 32767).
    pub threshold: u32,
    pub pre_roll_ms: u32,
    pub post_roll_ms: u32,
    pub min_speech_chunks: usize,
    pub min_silence_chunks: usize,
    pub adaptive: bool,
}

#[derive(Debug, Clone)]
pub struct ModelConfig {
    pub backend: String,
    pub model_path: String,
    pub device: String,
    pub language: String,
    pub task: String,
    pub preload: bool,
}

#[derive(Debug, Clone, Copy)]
pub struct PostProcessingConfig {
    pub auto_punctuation: bool,
    pub auto_capitalize: bool,
    pub remove_filler_words: bool,
}

#[derive(Debug, Clone)]
pub struct InjectionConfig {
    pub method: String,
    pub paste_delay_ms: u32,
    pub focus_settle_ms: u32,
}

#[derive(Debug, Clone, Copy)]
pub struct HistoryConfig {
    pub enabled: bool,
    pub max_entries: usize,
    pub auto_save: bool,
}

/// How long the engine waits between hiding the overlay and typing, where
/// the settings do not say.
pub fn default_focus_settle_ms() -> (ms: u32)
    ensures
        ms == 80,
{
    80
}

impl Default for DaemonConfig {
    fn default() -> (config: Self)
        ensures
            config.auto_start,
            config.log_level@ == "info"@,
    {
        DaemonConfig { auto_start: true, log_level: "info".to_owned() }
    }
}

impl Default for HotkeyConfig {
    fn default() -> (config: Self)
        ensures
            config.trigger@ == "Cmd+Shift+0"@,
            config.mode@ == "push-to-talk"@,
    {
        HotkeyConfig { trigger: "Cmd+Shift+0".to_owned(), mode: "push-to-talk".to_owned() }
    }
}

impl Default for AudioConfig {
    fn default() -> (config: Self)
        ensures
            config.device@ == "default"@,
            config.sample_rate == 16000,
            config.chunk_duration_ms == 200,
    {
        AudioConfig { device: "default".to_owned(), sample_rate: 16000, chunk_duration_ms: 200 }
    }
}

impl Default for UiConfig {
    fn default() -> (config: Self)
        ensures
            config.recording_overlay,
    {
        UiConfig { recording_overlay: true }
    }
}

impl Default for VadConfig {
    fn default() -> (config: Self)
        ensures
            config.enabled,
            config.backend@ == "energy"@,
            config.threshold == 655,
            config.pre_roll_ms == 300,
            config.post_roll_ms == 500,
            config.min_speech_chunks == 2,
            config.min_silence_chunks == 3,
            !config.adaptive,
    {
        VadConfig {
            enabled: true,
            backend: "energy".to_owned(),
            threshold: 655,
            pre_roll_ms: 300,
            post_roll_ms: 500,
            min_speech_chunks: 2,
            min_silence_chunks: 3,
            adaptive: false,
        }
    }
}

impl Default for ModelConfig {
    fn default() -> (config: Self)
        ensures
            config.backend@ == "whisper_cpp"@,
            config.model_path@ == "ggml-base.en.bin"@,
            config.device@ == "auto"@,
            config.language@ == "en"@,
            config.task@ == "transcribe"@,
            config.preload,
    {
        ModelConfig {
            backend: "whisper_cpp".to_owned(),
            model_path: "ggml-base.en.bin".to_owned(),
            device: "auto".to_owned(),
            language: "en".to_owned(),
            task: "transcribe".to_owned(),
            preload: true,
        }
    }
}

impl Default for PostProcessingConfig {
    fn default() -> (config: Self)
        ensures
            config.auto_punctuation,
            config.auto_capitalize,
            !config.remove_filler_words,
    {
        PostProcessingConfig {
            auto_punctuation: true,
            auto_capitalize: true,
            remove_filler_words: false,
        }
    }
}

impl Default for InjectionConfig {
    fn default() -> (config: Self)
        ensures
            config.method@ == "accessibility"@,
            config.paste_delay_ms == 50,
            config.focus_settle_ms == 80,
    {
        InjectionConfig {
            method: "accessibility".to_owned(),
            paste_delay_ms: 50,
            focus_settle_ms: default_focus_settle_ms(),
        }
    }
}

impl Default for HistoryConfig {
    fn default() -> (config: Self)
        ensures
            config.enabled,
            config.max_entries == 1000,
            config.auto_save,
    {
        HistoryConfig { enabled: true, max_entries: 1000, auto_save: true }
    }
}

impl Default for Config {
    fn default() -> (config: Self)
        ensures
            config.daemon.auto_start,
            config.daemon.log_level@ == "info"@,
            config.hotkey.trigger@ == "Cmd+Shift+0"@,
            config.hotkey.mode@ == "push-to-talk"@,
            config.audio.device@ == "default"@,
            config.audio.sample_rate == 16000,
            config.audio.chunk_duration_ms == 200,
            config.ui.recording_overlay,
            config.vad.enabled,
            config.vad.backend@ == "energy"@,
            config.vad.threshold == 655,
            config.vad.pre_roll_ms == 300,
            config.vad.post_roll_ms == 500,
            config.vad.min_speech_chunks == 2,
            config.vad.min_silence_chunks == 3,
            !config.vad.adaptive,
            config.model.backend@ == "whisper_cpp"@,
            config.model.model_path@ == "ggml-base.en.bin"@,
            config.model.device@ == "auto"@,
            config.model.language@ == "en"@,
            config.model.task@ == "transcribe"@,
            config.model.preload,
            config.post_processing.auto_punctuation,
            config.post_processing.auto_capitalize,
            !config.post_processing.remove_filler_words,
            config.injection.method@ == "accessibility"@,
            config.injection.paste_delay_ms == 50,
            config.injection.focus_settle_ms == 80,
            config.history.enabled,
            config.history.max_entries == 1000,
            config.history.auto_save,
    {
        Config {
            daemon: DaemonConfig::default(),
            hotkey: HotkeyConfig::default(),
            audio: AudioConfig::default(),
            ui: UiConfig::default(),
            vad: VadConfig::default(),
            model: ModelConfig::default(),
            post_processing: PostProcessingConfig::default(),
            injection: InjectionConfig::default(),
            history: HistoryConfig::default(),
        }
    }
}

impl VadConfig {
    /// The energy detector's settings.
    pub fn to_energy_vad_config(&self) -> (config: EnergyVadConfig)
        ensures
            config.threshold == self.threshold,
            config.min_speech_chunks == self.min_speech_chunks,
            config.min_silence_chunks == self.min_silence_chunks,
            config.adaptive == self.adaptive,
            config.adaptive_window_size == ADAPTIVE_WINDOW_CHUNKS,
    {
        EnergyVadConfig {
            threshold: self.threshold,
            min_speech_chunks: self.min_speech_chunks,
            min_silence_chunks: self.min_silence_chunks,
            adaptive: self.adaptive,
            adaptive_window_size: ADAPTIVE_WINDOW_CHUNKS,
        }
    }

    /// The segment assembler's settings.
    pub fn to_processor_config(&self) -> (config: VadProcessorConfig)
        ensures
            config.pre_roll_ms == self.pre_roll_ms,
            config.post_roll_ms == self.post_roll_ms,
    {
        VadProcessorConfig { pre_roll_ms: self.pre_roll_ms, post_roll_ms: self.post_roll_ms }
    }
}

} // verus!
