use onevox::config::{default_focus_settle_ms, Config, HistoryConfig, VadConfig};
use onevox::health::{ComponentCheck, HealthChecker, HealthMonitor, HealthStatus};
use onevox::history::{HistoryEntry, HistoryManager};
use onevox::indicator::{indicator_state_text, parse_indicator_state, IndicatorMode};
use onevox::models::downloader::{checksum_matches, parse_sha256_from_output, ModelDownloader};
use onevox::models::onnx_runtime::OnnxRuntime;
use onevox::models::registry::{ModelRegistry, ModelSize};
use onevox::models::runtime::{default_thread_count, ModelInfo, Transcription};
use onevox::models::whisper_candle::WhisperCandle;
use onevox::text::{concat3, decimal_string};
use onevox::{Error, ErrorKind};

#[test]
fn test_history_entry_creation() {
    let entry = HistoryEntry::new(
        "Test transcription".to_string(),
        "whisper-base".to_string(),
        1500,
        Some(950),
        1_700_000_000,
    );

    assert_eq!(entry.text, "Test transcription");
    assert_eq!(entry.model, "whisper-base");
    assert_eq!(entry.duration_ms, 1500);
    assert_eq!(entry.confidence, Some(950));
    assert!(entry.timestamp > 0);
    assert_eq!(entry.id, entry.timestamp);
}

#[test]
fn test_history_manager_add_and_get() {
    let config = HistoryConfig { enabled: true, max_entries: 10, auto_save: false };

    let mut manager = HistoryManager::new(config);

    let entry = HistoryEntry::new("Test".to_string(), "whisper".to_string(), 1000, None, 1);

    assert!(!manager.add_entry(entry));
    assert_eq!(manager.count(), 1);

    let entries = manager.get_all();
    assert_eq!(entries.len(), 1);
    assert_eq!(entries[0].text, "Test");
}

#[test]
fn test_history_manager_max_entries() {
    let config = HistoryConfig { enabled: true, max_entries: 3, auto_save: false };

    let mut manager = HistoryManager::new(config);

    for i in 0..5 {
        let entry =
            HistoryEntry::new(format!("Test {}", i), "whisper".to_string(), 1000, None, 100 + i);
        manager.add_entry(entry);
    }

    assert_eq!(manager.count(), 3);
    let texts: Vec<String> = manager.get_all().into_iter().map(|e| e.text).collect();
    assert_eq!(texts, vec!["Test 2", "Test 3", "Test 4"]);
}

#[test]
fn test_delete_entry() {
    let config = HistoryConfig { enabled: true, max_entries: 10, auto_save: false };

    let mut manager = HistoryManager::new(config);

    let entry = HistoryEntry::new("Test".to_string(), "whisper".to_string(), 1000, None, 77);

    let id = entry.id;
    manager.add_entry(entry);
    assert_eq!(manager.count(), 1);

    assert_eq!(manager.delete_entry(id), Some(true));
    assert_eq!(manager.count(), 0);
    assert_eq!(manager.delete_entry(id), Some(false));
}

#[test]
fn test_clear_history() {
    let config = HistoryConfig { enabled: true, max_entries: 10, auto_save: false };

    let mut manager = HistoryManager::new(config);

    for i in 0..3 {
        let entry =
            HistoryEntry::new(format!("Test {}", i), "whisper".to_string(), 1000, None, 10 + i);
        manager.add_entry(entry);
    }

    assert_eq!(manager.count(), 3);
    assert!(manager.clear());
    assert_eq!(manager.count(), 0);
}

#[test]
fn history_keeps_order_and_can_be_switched_off() {
    let on = HistoryConfig { enabled: true, max_entries: 0, auto_save: true };
    let mut manager = HistoryManager::new(on);
    for id in [5, 6, 5, 7] {
        assert!(manager.add_entry(HistoryEntry::new(
            id.to_string(),
            "m".to_string(),
            1,
            None,
            id
        )));
    }
    assert_eq!(manager.get_entry(6).map(|e| e.text.as_str()), Some("6"));
    assert!(manager.get_entry(8).is_none());
    assert_eq!(manager.delete_entry(5), Some(true));
    let ids: Vec<u64> = manager.get_all().iter().map(|e| e.id).collect();
    assert_eq!(ids, vec![6, 7]);
    let off = HistoryConfig { enabled: false, max_entries: 10, auto_save: true };
    let loaded = vec![HistoryEntry::new("x".to_string(), "m".to_string(), 1, None, 1)];
    let mut disabled = HistoryManager::with_entries(off, loaded);
    assert_eq!(disabled.count(), 0);
    assert!(!disabled.add_entry(HistoryEntry::new("y".to_string(), "m".to_string(), 1, None, 2)));
    assert_eq!(disabled.count(), 0);
    assert_eq!(disabled.delete_entry(1), None);
    assert!(!disabled.clear());
}

#[test]
fn onnx_runtime_test_create_backend() {
    let backend = OnnxRuntime::new();
    assert!(backend.is_ok());
}

#[test]
fn onnx_runtime_test_not_loaded_initially() {
    let backend = OnnxRuntime::new().unwrap();
    assert!(!backend.is_loaded());
}

#[test]
fn test_decode_empty_tokens() {
    let backend = OnnxRuntime::with_vocab(vec![
        "<blank>".to_string(),
        "a".to_string(),
        "b".to_string(),
    ]);

    let result = backend.decode_ctc_tokens(&[]);
    assert!(result.is_ok());
    assert_eq!(result.unwrap(), "");
}

#[test]
fn ctc_decoding_drops_blanks_repeats_and_special_tokens() {
    let vocab: Vec<String> = ["\u{2581}he", "llo", "\u{2581}world", "<unk>", "!", "<blank>"]
        .iter()
        .map(|s| s.to_string())
        .collect();
    let backend = OnnxRuntime::with_vocab(vocab);
    let ids = [5, 0, 0, 5, 1, 1, 3, 1, -4, 99, 2, 5, 2, 4, 4];
    assert_eq!(backend.decode_ctc_tokens(&ids).unwrap(), "hellollo world world!");
    let empty = OnnxRuntime::new().unwrap();
    let e = empty.decode_ctc_tokens(&[1]).unwrap_err();
    assert_eq!(e.message(), "Vocabulary not loaded");
    assert_eq!(e.kind(), ErrorKind::Model);
    assert_eq!(OnnxRuntime::mel_bins_from(None), 80);
    assert_eq!(OnnxRuntime::mel_bins_from(Some(128)), 128);
    assert_eq!(
        OnnxRuntime::find_encoder_path("/m"),
        vec![
            "/m/encoder-model.int8.onnx",
            "/m/encoder-model.onnx",
            "/m/model.int8.onnx",
            "/m/model.onnx"
        ]
    );
    let mut backend = OnnxRuntime::new().unwrap();
    let config = onevox::models::runtime::ModelConfig::default();
    assert_eq!(
        backend.loaded_with(config.clone(), "/m".to_string(), Vec::new(), 80).unwrap_err().message(),
        "Vocabulary is empty"
    );
    backend.loaded_with(config, "/m".to_string(), vec!["a".to_string()], 128).unwrap();
    assert!(backend.is_loaded());
    assert_eq!(backend.frame_count(1280), Some(10));
    assert!(backend.check_request(10, 16000).is_ok());
    assert!(backend.check_request(10, 8000).is_err());
    backend.unload();
    assert!(!backend.is_loaded());
}

#[test]
fn downloader_test_cache_dir() {
    let downloader = ModelDownloader::new("/home/u/.cache/onevox/models".to_string());
    let dir = downloader.model_dir("ggml-base.en");
    assert!(dir.contains("onevox"));
    assert!(dir.contains("models"));
    assert_eq!(dir, "/home/u/.cache/onevox/models/ggml-base.en");
}

#[test]
fn checksums_are_read_from_tool_output() {
    let hash = "e3b0c44298fc1c149afbf4c8996fb92427ae41e4649b934ca495991b7852b855";
    assert_eq!(
        parse_sha256_from_output(&format!("{}  model.bin\n", hash)).as_deref(),
        Some(hash)
    );
    assert_eq!(
        parse_sha256_from_output(&format!("SHA256(model.bin)= {}\n", hash)).as_deref(),
        Some(hash)
    );
    assert_eq!(parse_sha256_from_output("sha256sum: model.bin: No such file"), None);
    assert_eq!(parse_sha256_from_output(&format!("x = {}z", &hash[1..])), None);
    assert_eq!(parse_sha256_from_output(""), None);
    assert!(checksum_matches(&hash.to_uppercase(), hash));
    assert!(!checksum_matches(&hash[1..], hash));
    assert!(ModelDownloader::is_downloaded(&vec![true, true]));
    assert!(!ModelDownloader::is_downloaded(&vec![true, false]));
    assert!(ModelDownloader::is_downloaded(&Vec::new()));
}

#[test]
fn candle_backend_is_not_built() {
    let e = match WhisperCandle::new() {
        Err(e) => e,
        Ok(_) => unreachable!(),
    };
    assert_eq!(e.to_string(), "Model error: Candle feature not enabled. Rebuild with --features candle");
}

#[test]
fn config_defaults() {
    let config = Config::default();
    assert!(config.daemon.auto_start);
    assert_eq!(config.daemon.log_level, "info");
    assert_eq!(config.hotkey.trigger, "Cmd+Shift+0");
    assert_eq!(config.hotkey.mode, "push-to-talk");
    assert_eq!(config.audio.device, "default");
    assert_eq!(config.audio.sample_rate, 16000);
    assert_eq!(config.audio.chunk_duration_ms, 200);
    assert!(config.ui.recording_overlay);
    assert_eq!(config.model.backend, "whisper_cpp");
    assert_eq!(config.model.model_path, "ggml-base.en.bin");
    assert_eq!(config.model.task, "transcribe");
    assert!(config.post_processing.auto_punctuation);
    assert!(!config.post_processing.remove_filler_words);
    assert_eq!(config.injection.method, "accessibility");
    assert_eq!(config.injection.paste_delay_ms, 50);
    assert_eq!(config.injection.focus_settle_ms, 80);
    assert_eq!(default_focus_settle_ms(), 80);
    assert_eq!(config.history.max_entries, 1000);
    let vad = VadConfig::default();
    assert_eq!(vad.threshold, 655);
    let energy = vad.to_energy_vad_config();
    assert_eq!(energy.min_speech_chunks, 2);
    assert_eq!(energy.min_silence_chunks, 3);
    assert!(!energy.adaptive);
    assert_eq!(energy.adaptive_window_size, 30);
    let processor = vad.to_processor_config();
    assert_eq!((processor.pre_roll_ms, processor.post_roll_ms), (300, 500));
}

#[test]
fn health_is_the_worst_of_its_checks() {
    let checker = HealthChecker::new();
    let memory = checker.check_memory(600 * 1024 * 1024, 1);
    assert_eq!(memory.status, HealthStatus::Degraded);
    assert_eq!(memory.message.as_deref(), Some("Memory usage high: 600 MB"));
    let critical = checker.check_memory(2 * 1024 * 1024 * 1024, 1);
    assert_eq!(critical.message.as_deref(), Some("Memory usage critical: 2048 MB"));
    assert_eq!(checker.check_memory(1024, 1).status, HealthStatus::Healthy);
    let cpu = checker.check_cpu(805, 2);
    assert_eq!(cpu.status, HealthStatus::Unhealthy);
    assert_eq!(cpu.message.as_deref(), Some("CPU usage critical: 80.5%"));
    assert_eq!(checker.check_cpu(500, 2).message.as_deref(), Some("CPU usage high: 50.0%"));
    assert_eq!(checker.check_cpu(499, 2).status, HealthStatus::Healthy);
    let ipc = checker.check_ipc(Ok(false), 3);
    assert_eq!(ipc.message.as_deref(), Some("IPC socket not found"));
    assert_eq!(
        checker.check_ipc(Err("no dir".to_string()), 3).message.as_deref(),
        Some("Failed to get IPC socket path: no dir")
    );
    let model = checker.check_model(false, 4);
    assert_eq!(model.status, HealthStatus::Degraded);
    let audio = checker.check_audio(Ok(2), 5);
    assert_eq!(audio.status, HealthStatus::Healthy);
    assert_eq!(checker.check_audio(Ok(0), 5).status, HealthStatus::Unhealthy);
    let degraded = checker.check(vec![memory, model, audio], 99, 7);
    assert_eq!(degraded.status, HealthStatus::Degraded);
    assert_eq!((degraded.timestamp, degraded.duration_ms), (99, 7));
    let unhealthy = checker.check(vec![checker.check_model(true, 0), ipc, cpu], 1, 1);
    assert_eq!(unhealthy.status, HealthStatus::Unhealthy);
    assert_eq!(checker.check(Vec::new(), 0, 0).status, HealthStatus::Healthy);
    let named = ComponentCheck::healthy("x", 9);
    assert_eq!((named.name.as_str(), named.duration_ms), ("x", 9));
    assert_eq!(ComponentCheck::degraded("x", "slow", 1).message.as_deref(), Some("slow"));
    assert_eq!(ComponentCheck::unhealthy("x", "down", 1).status, HealthStatus::Unhealthy);
    let mut monitor = HealthMonitor::new(30_000);
    assert!(monitor.last_check().is_none());
    assert_eq!(monitor.check_interval_ms(), 30_000);
    monitor.record(unhealthy);
    assert_eq!(monitor.last_check().map(|c| c.status), Some(HealthStatus::Unhealthy));
}

#[test]
fn indicator_modes_are_written_in_words() {
    assert_eq!(IndicatorMode::from_cli("recording"), Some(IndicatorMode::Recording));
    assert_eq!(IndicatorMode::from_cli("processing"), Some(IndicatorMode::Processing));
    assert_eq!(IndicatorMode::from_cli("Recording"), None);
    assert_eq!(IndicatorMode::Recording.as_cli(), "recording");
    assert_eq!(IndicatorMode::Processing.label(), "PROCESSING");
    assert_eq!(indicator_state_text(None), "hidden");
    assert_eq!(indicator_state_text(Some(IndicatorMode::Processing)), "processing");
    assert_eq!(parse_indicator_state("hidden"), Some(None));
    assert_eq!(parse_indicator_state("recording"), Some(Some(IndicatorMode::Recording)));
    assert_eq!(parse_indicator_state("gone"), None);
}

#[test]
fn errors_are_written_with_their_component() {
    let cases = [
        (Error::Audio("a".to_string()), ErrorKind::Audio, "Audio error: a"),
        (Error::Model("b".to_string()), ErrorKind::Model, "Model error: b"),
        (Error::Platform("c".to_string()), ErrorKind::Platform, "Platform error: c"),
        (Error::Config("d".to_string()), ErrorKind::Config, "Configuration error: d"),
        (Error::Ipc("e".to_string()), ErrorKind::Ipc, "IPC error: e"),
        (Error::Vad("f".to_string()), ErrorKind::Vad, "VAD error: f"),
        (Error::Io("g".to_string()), ErrorKind::Io, "IO error: g"),
        (Error::Other("h".to_string()), ErrorKind::Other, "Other error: h"),
    ];
    for (error, kind, text) in cases {
        assert_eq!(error.kind(), kind);
        assert_eq!(error.to_string(), text);
    }
}

#[test]
fn text_helpers() {
    assert_eq!(decimal_string(0), "0");
    assert_eq!(decimal_string(907), "907");
    assert_eq!(decimal_string(u64::MAX), "18446744073709551615");
    assert_eq!(onevox::text::concat("a", "bc"), "abc");
    assert_eq!(concat3("a", "", "c"), "ac");
    assert_eq!(Transcription::trimmed(" \t hi there\u{3000}\n").text, "hi there");
    assert!(Transcription::new(String::new()).is_empty());
    assert_eq!(default_thread_count(Some(0)), 1);
    assert_eq!(default_thread_count(Some(6)), 6);
    assert_eq!(default_thread_count(Some(64)), 8);
    assert_eq!(default_thread_count(None), 1);
    assert_eq!(ModelInfo::default().name, "Unknown");
    assert_eq!(ModelSize::Medium.as_str(), "medium");
    let registry = ModelRegistry::new();
    assert_eq!(registry.list_models().len(), 12);
    assert_eq!(registry.recommended().id, "ggml-base.en");
    assert_eq!(registry.recommended().size_bytes, 142 * 1024 * 1024);
    assert_eq!(registry.get_model("ggml-large-v3-turbo").unwrap().speed_factor_tenths, 35);
}

#[test]
fn checksums_are_held_against_the_expected_ones() {
    let hash = "E3B0C44298FC1C149AFBF4C8996FB92427AE41E4649B934CA495991B7852B855";
    assert!(onevox::models::downloader::verify_checksum("/m/a.bin", hash, &hash.to_lowercase()).is_ok());
    let e = onevox::models::downloader::verify_checksum("/m/a.bin", "ABC", "abd").unwrap_err();
    assert_eq!(e.message(), "Checksum mismatch for /m/a.bin. expected=abc, actual=abd");
    assert_eq!(onevox::models::downloader::ascii_lowercase("AbC-\u{c4}Z"), "abc-\u{c4}z");
    assert_eq!(
        onevox::models::downloader::checksum_tools("/m/a.bin"),
        vec![
            vec!["sha256sum", "/m/a.bin"],
            vec!["shasum", "-a", "256", "/m/a.bin"],
            vec!["openssl", "dgst", "-sha256", "/m/a.bin"],
        ]
    );
    assert!(ModelDownloader::needs_whisper_cli("ggml-base.en", false));
    assert!(!ModelDownloader::needs_whisper_cli("ggml-base.en", true));
    assert!(!ModelDownloader::needs_whisper_cli("parakeet-ctc-0.6b", false));
    assert!(!ModelDownloader::needs_whisper_cli("ggml", false));
    assert_eq!(ModelDownloader::get_whisper_cli_path("/cache"), "/cache/bin/whisper-cli");
    let registry = ModelRegistry::new();
    let mut model = registry.recommended().clone();
    assert!(ModelDownloader::expected_checksum(&model, "ggml-base.en.bin").is_none());
    model.file_sha256.push(("other.bin".to_string(), "11".to_string()));
    model.file_sha256.push(("ggml-base.en.bin".to_string(), "22".to_string()));
    model.file_sha256.push(("ggml-base.en.bin".to_string(), "33".to_string()));
    assert_eq!(
        ModelDownloader::expected_checksum(&model, "ggml-base.en.bin").map(String::as_str),
        Some("22")
    );
}

#[test]
fn history_file_follows_the_environment() {
    let path = HistoryManager::default_history_path;
    assert_eq!(path(Some("/data"), Some("/old"), Some("/share"), Some("/home/u")), "/data/history.json");
    assert_eq!(path(None, Some("/old"), Some("/share"), Some("/home/u")), "/old/history.json");
    assert_eq!(path(None, None, Some("/share"), Some("/home/u")), "/share/onevox/history.json");
    assert_eq!(
        path(None, None, None, Some("/home/u")),
        "/home/u/.local/share/onevox/history.json"
    );
    assert_eq!(path(None, None, None, None), "./.local/share/onevox/history.json");
}

#[test]
fn installing_the_tool_clones_configures_and_builds() {
    assert!(ModelDownloader::install_whisper_cli(true).is_empty());
    let commands = ModelDownloader::install_whisper_cli(false);
    let lines: Vec<String> = commands
        .iter()
        .map(|c| format!("{} {} [{}]", c.program, c.args.join(" "), c.in_source_dir))
        .collect();
    assert_eq!(
        lines,
        vec![
            "git clone https://github.com/ggerganov/whisper.cpp /tmp/whisper.cpp [false]",
            "cmake -B build [true]",
            "cmake --build build --config Release -j [true]",
        ]
    );
    assert_eq!(commands[0].on_error, "Failed to execute git clone");
    assert_eq!(commands[0].on_failure, "Failed to clone whisper.cpp repository");
    assert_eq!(commands[1].on_failure, "CMake configuration failed");
    assert_eq!(commands[2].on_error, "Failed to build whisper.cpp");
    assert_eq!(commands[2].on_failure, "CMake build failed");
}

#[test]
fn onnx_back_ends_describe_themselves() {
    let empty = OnnxRuntime::new().unwrap();
    let info = empty.info(0);
    assert_eq!(info.name, "onnx-runtime");
    assert_eq!(info.backend, "onnx-runtime");
    assert_eq!(info.model_type, "unknown");
    assert!(!info.gpu_enabled);
    let mut loaded = OnnxRuntime::new().unwrap();
    let config = onevox::models::runtime::ModelConfig {
        model_path: "parakeet-ctc-0.6b".to_string(),
        use_gpu: true,
        ..Default::default()
    };
    loaded.loaded_with(config, "/models/parakeet".to_string(), vec!["a".to_string()], 80).unwrap();
    let info = loaded.info(1234);
    assert_eq!(info.model_type, "parakeet-ctc-0.6b");
    assert_eq!(info.size_bytes, 1234);
    assert!(info.gpu_enabled);
    let mut whisper = onevox::models::whisper_onnx::WhisperOnnx::new().unwrap();
    assert_eq!(whisper.info().name, "whisper-onnx-");
    whisper.loaded_with("whisper-tiny.en".to_string());
    let info = whisper.info();
    assert_eq!(info.name, "whisper-onnx-whisper-tiny.en");
    assert_eq!(info.model_type, "whisper");
    assert_eq!(info.backend, "onnx");
    assert_eq!(info.size_bytes, 0);
}
