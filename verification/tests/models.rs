use onevox::models::mock::MockModel;
use onevox::models::registry::ModelRegistry;
use onevox::models::runtime::{ModelConfig, ModelRuntime};
use onevox::models::tokenizer::SimpleTokenizer;
use onevox::models::whisper_cpp_cli::{PollStep, WhisperCppCli};
use onevox::models::onnx_runtime::{logits_layout, mel_frame_count, parse_vocab, OnnxRuntime};
use onevox::models::whisper_onnx::WhisperOnnx;
use onevox::ErrorKind;

#[test]
fn test_parse_output() {
    let cli = WhisperCppCli::new(None);

    let output = r#"
[00:00:00.000 --> 00:00:02.000]   Hello world
[00:00:02.000 --> 00:00:04.000]   This is a test
        "#;

    let result = cli.parse_output(output).unwrap();
    assert_eq!(result, "Hello world This is a test");
}

#[test]
fn test_parse_output_single_line() {
    let cli = WhisperCppCli::new(None);

    let output = "[00:00:00.000 --> 00:00:02.000]   You";

    let result = cli.parse_output(output).unwrap();
    assert_eq!(result, "You");
}

#[test]
fn test_empty_tokens() {
    let tokenizer = SimpleTokenizer::new();
    let text = tokenizer.decode(&[]).unwrap();
    assert_eq!(text, "");
}

#[test]
fn test_basic_decoding() {
    let tokenizer = SimpleTokenizer::from_entries(vec![
        ("\u{120}the".to_string(), 262),
        ("\u{120}".to_string(), 220),
        ("\u{120}a".to_string(), 290),
    ]);

    let tokens = vec![262, 220, 290];
    let text = tokenizer.decode(&tokens).unwrap();
    assert!(!text.is_empty());
    assert_eq!(text, "the a");
}

#[test]
fn test_mock_model() {
    let mut model = MockModel::new();
    assert!(!model.is_loaded());

    let config = ModelConfig::default();
    model.load(config).unwrap();
    assert!(model.is_loaded());

    let samples = vec![0i16; 16000];
    let result = model.transcribe(&samples, 16000).unwrap();
    assert!(!result.is_empty());
    assert!(result.text.contains("Mock"));

    model.unload();
    assert!(!model.is_loaded());
}

#[test]
fn test_registry() {
    let registry = ModelRegistry::new();
    assert!(!registry.list_models().is_empty());
    assert!(registry.get_model("ggml-base.en").is_some());
    assert!(registry.get_model("parakeet-ctc-0.6b").is_some());
    assert!(registry.get_model("nonexistent").is_none());
}

#[test]
fn test_download_urls() {
    let registry = ModelRegistry::new();
    let model = registry.get_model("ggml-tiny.en").unwrap();
    let urls = model.download_urls();
    assert!(!urls.is_empty());
    assert!(urls[0].1.contains("huggingface.co"));
    assert_eq!(
        urls[0].1,
        "https://huggingface.co/ggerganov/whisper.cpp/resolve/main/ggml-tiny.en.bin"
    );
}

#[test]
fn mock_model_texts_by_length() {
    let mut model = MockModel::new();
    model.load(ModelConfig::default()).unwrap();
    let short = model.transcribe(&vec![0i16; 4000], 16000).unwrap();
    assert_eq!(short.text, "[too short]");
    let medium = model.transcribe(&vec![0i16; 24000], 16000).unwrap();
    assert_eq!(medium.text, "[Mock transcription of 1.5s audio]");
    assert_eq!(medium.tokens, Some(3));
    assert_eq!(medium.confidence, Some(950));
    assert_eq!(medium.language.as_deref(), Some("en"));
    let long = model.transcribe(&vec![0i16; 40000], 16000).unwrap();
    assert_eq!(
        long.text,
        "[Mock transcription: This is a simulated transcription of 2.5 seconds of audio.]"
    );
}

#[test]
fn transcribe_rejects_bad_requests_with_distinct_errors() {
    let mut model = MockModel::new();
    let not_loaded = model.transcribe(&vec![0i16; 16000], 16000).unwrap_err();
    assert_eq!(not_loaded.kind(), ErrorKind::Model);
    assert_eq!(not_loaded.message(), "Model not loaded");
    model.load(ModelConfig::default()).unwrap();
    let wrong_rate = model.transcribe(&vec![0i16; 16000], 44100).unwrap_err();
    assert_eq!(
        wrong_rate.message(),
        "Sample rate must be 16kHz, got 44100Hz. Please resample audio."
    );
    let empty = model.transcribe(&[], 16000).unwrap_err();
    assert_eq!(empty.message(), "No audio samples provided");
    assert_eq!(empty.to_string(), "Model error: No audio samples provided");
}

#[test]
fn tokenizer_skips_special_and_unknown_tokens() {
    let tokenizer = SimpleTokenizer::minimal_fallback();
    let text = tokenizer.decode(&[72, 105, 50257, 32, 32, 9999, 33]).unwrap();
    assert_eq!(text, "Hi !");
}

#[test]
fn cli_validates_model_paths() {
    assert!(WhisperCppCli::validate_model_path("models/ggml-base.en.bin").is_ok());
    let blank = WhisperCppCli::validate_model_path("   ").unwrap_err();
    assert_eq!(blank.message(), "Model path cannot be empty");
    let broken = WhisperCppCli::validate_model_path("a\nb").unwrap_err();
    assert_eq!(broken.message(), "Model path contains invalid control characters");
}

#[test]
fn cli_polls_until_exit_or_timeout() {
    assert_eq!(WhisperCppCli::poll(true, 99_999), PollStep::Collect);
    assert_eq!(WhisperCppCli::poll(false, 30_000), PollStep::Wait(20));
    assert_eq!(WhisperCppCli::poll(false, 30_001), PollStep::Kill);
    assert_eq!(
        WhisperCppCli::timed_out().message(),
        "whisper-cli timed out after 30 seconds"
    );
}

#[test]
fn cli_builds_arguments_and_reads_results() {
    let mut cli = WhisperCppCli::in_cache_dir("/cache");
    assert_eq!(cli.binary_path(), "/cache/bin/whisper-cli");
    let missing = cli.load(ModelConfig::default(), false, None).unwrap_err();
    assert!(missing.message().starts_with("whisper-cli binary not found at: /cache/bin/whisper-cli\n"));
    let mut config = ModelConfig::default();
    config.n_threads = 4;
    config.translate = true;
    cli.load(config, true, Some("/m/ggml-base.en.bin".to_string())).unwrap();
    assert!(cli.is_loaded());
    assert_eq!(
        cli.command_args("/tmp/a.wav"),
        vec!["-m", "/m/ggml-base.en.bin", "-f", "/tmp/a.wav", "-np", "-t", "4", "-l", "en", "-tr"]
    );
    let done = cli.finish(true, "[00:00:00.000 --> 00:00:01.000]  hi there \n", "", 12).unwrap();
    assert_eq!(done.text, "hi there");
    assert_eq!(done.processing_time_ms, 12);
    let failed = cli.finish(false, "", "boom", 1).unwrap_err();
    assert_eq!(failed.message(), "whisper-cli failed: boom");
    assert_eq!(cli.info(7).model_type, "ggml-base.en.bin");
    let places = WhisperCppCli::resolve_model_path("ggml-base.en.bin", "/cache/models");
    assert_eq!(
        places,
        vec![
            "ggml-base.en.bin",
            "/cache/models/ggml-base.en.bin/ggml-base.en.bin.bin",
            "/cache/models/ggml-base.en/ggml-base.en.bin",
            "/cache/models/ggml-base.en.bin",
        ]
    );
}

#[test]
fn whisper_cpp_test_create_backend() {
    let backend = onevox::models::whisper_cpp::WhisperCpp::new();
    assert!(backend.is_ok());
}

#[test]
fn whisper_cpp_test_not_loaded_initially() {
    let backend = onevox::models::whisper_cpp::WhisperCpp::new().unwrap();
    assert!(!backend.is_loaded());
}

#[test]
fn whisper_cpp_looks_for_its_model_and_joins_segments() {
    let places =
        onevox::models::whisper_cpp::WhisperCpp::resolve_model_path("ggml-base.en", "/models");
    assert_eq!(
        places,
        vec![
            "/models/ggml-base.en",
            "/models/ggml-base.en/ggml-base.en.bin",
            "/models/ggml-base.en.bin/ggml-base.en.bin",
            "/models/ggml-base.en/ggml-model.bin",
            "/models/ggml-base.en/ggml-base.en",
        ]
    );
    let missing = onevox::models::whisper_cpp::WhisperCpp::not_found(&places[1], "ggml-base.en");
    assert_eq!(
        missing.message(),
        "Model file not found: /models/ggml-base.en/ggml-base.en.bin\nDownload GGML models with: onevox models download ggml-base.en"
    );
    let mut backend = onevox::models::whisper_cpp::WhisperCpp::new().unwrap();
    assert_eq!(backend.check_request(10, 16000).unwrap_err().message(), "Model not loaded");
    assert_eq!(backend.info(0).model_type, "unknown");
    let mut config = ModelConfig::default();
    config.n_threads = 3;
    backend.loaded_with(config, places[1].clone());
    assert!(backend.is_loaded());
    assert_eq!(backend.threads(), Some(3));
    assert!(backend.check_request(10, 16000).is_ok());
    let segments = vec![" Hello".to_string(), " world.".to_string(), " ".to_string()];
    let done = backend.finish(&segments, 40);
    assert_eq!(done.text, "Hello world.");
    assert_eq!(done.tokens, Some(3));
    assert_eq!(done.processing_time_ms, 40);
    let info = backend.info(123);
    assert_eq!((info.name.as_str(), info.size_bytes, info.gpu_enabled), ("whisper.cpp", 123, true));
    assert_eq!(info.model_type, "models/ggml-base.en.bin");
    backend.unload();
    assert!(!backend.is_loaded());
    assert_eq!(backend.name(), "whisper.cpp");
}

#[test]
fn whisper_decoding_stops_at_the_end_token() {
    let mut decoding = onevox::models::whisper_onnx::Decoding::new("en");
    assert_eq!(decoding.tokens(), &vec![50257, 50258, 50358, 50362]);
    assert!(decoding.wants_more());
    assert!(decoding.on_token(10));
    assert!(decoding.on_token(50400));
    assert!(decoding.on_token(11));
    assert!(decoding.on_token(10));
    assert_eq!(decoding.count_of(10), 2);
    assert_eq!(decoding.count_of(50400), 1);
    assert_eq!(decoding.seen(), &vec![10, 50400, 11, 10]);
    assert_eq!(decoding.step(), 4);
    assert!(!decoding.boosts_end());
    assert!(!decoding.on_token(50256));
    assert!(!decoding.wants_more());
    assert_eq!(decoding.text_tokens(), vec![10, 11, 10]);
    // Once stopped, nothing is taken any more.
    assert!(!decoding.on_token(12));
    assert_eq!(decoding.step(), 5);
    assert_eq!(decoding.text_tokens(), vec![10, 11, 10]);
}

#[test]
fn whisper_decoding_stops_on_repetition() {
    let mut stuck = onevox::models::whisper_onnx::Decoding::new("en");
    let mut taken = 0;
    while stuck.on_token(7) {
        taken += 1;
    }
    // The first token and five repeats are kept; the sixth repeat stops.
    assert_eq!(taken, 6);
    assert_eq!(stuck.text_tokens(), vec![7; 6]);
    let mut swinging = onevox::models::whisper_onnx::Decoding::new("en");
    let mut kept = 0;
    for k in 0..20 {
        if !swinging.on_token(if k % 2 == 0 { 1 } else { 2 }) {
            break;
        }
        kept += 1;
    }
    // 1 2 1 2 1 is taken; the sixth token completes the pattern.
    assert_eq!(kept, 5);
    assert_eq!(swinging.text_tokens(), vec![1, 2, 1, 2, 1]);
    let mut long = onevox::models::whisper_onnx::Decoding::new("en");
    let mut steps = 0;
    while long.wants_more() {
        long.on_token(100 + (steps % 7));
        steps += 1;
    }
    // Four tokens of prompt and 445 decoded ones are more than 448.
    assert_eq!(steps, 445);
    assert_eq!(long.text_tokens().len(), 445);
    assert!(long.boosts_end());
}

#[test]
fn whisper_onnx_files_and_padding() {
    let (encoder, decoder) = WhisperOnnx::load_model("/m/whisper-tiny.en");
    assert_eq!(encoder, "/m/whisper-tiny.en/onnx/encoder_model.onnx");
    assert_eq!(decoder, "/m/whisper-tiny.en/onnx/decoder_model_merged.onnx");
    assert_eq!(WhisperOnnx::ensure_onnx_runtime_available()[3], "/usr/lib/libonnxruntime.dylib");
    let padded = WhisperOnnx::pad(&[5, 6, 7]);
    assert_eq!(padded.len(), 480_000);
    assert_eq!(&padded[..4], &[5, 6, 7, 0]);
    assert_eq!(WhisperOnnx::pad(&vec![9; 500_000]).len(), 480_000);
    let mut backend = WhisperOnnx::new().unwrap();
    assert!(!backend.is_loaded());
    backend.loaded_with("whisper-tiny.en".to_string());
    assert!(backend.check_request(1, 16000).is_ok());
    backend.unload();
    assert!(backend.check_request(1, 16000).is_err());
    assert_eq!(backend.name(), "whisper-onnx");
}

#[test]
fn onnx_vocabulary_and_layout() {
    assert_eq!(
        parse_vocab("<unk> 0\r\n\u{2581}the 1\n\n   \n  a\t2\nb"),
        vec!["<unk>", "\u{2581}the", "a", "b"]
    );
    assert!(parse_vocab("").is_empty());
    assert_eq!(mel_frame_count(400).unwrap(), 1);
    assert_eq!(mel_frame_count(559).unwrap(), 1);
    assert_eq!(mel_frame_count(560).unwrap(), 2);
    assert_eq!(mel_frame_count(16000).unwrap(), 98);
    assert_eq!(
        mel_frame_count(399).unwrap_err().message(),
        "Audio too short: 399 samples (need at least 400)"
    );
    assert_eq!(logits_layout(&[1, 5, 7], 35), Some((5, 7)));
    assert_eq!(logits_layout(&[1, 5, 7], 34), None);
    assert_eq!(logits_layout(&[5, 7], 35), None);
    assert_eq!(logits_layout(&[1, -1, 7], 35), None);
    assert_eq!(logits_layout(&[1, 0, 7], 0), Some((0, 7)));
}

#[test]
fn tokenizer_reads_a_vocabulary_file() {
    let text = "{\"hello\": 1, \"\u{120}world\": 2, \"<|endoftext|>\": 50256}";
    let tokenizer = SimpleTokenizer::from_file(text).unwrap();
    assert_eq!(tokenizer.decode(&[1, 2, 50256]).unwrap(), "hello world");
    assert_eq!(tokenizer.decode(&[2, 1]).unwrap(), "worldhello");
    assert_eq!(tokenizer.decode(&[3]).unwrap(), "");
}

#[test]
fn tokenizer_takes_the_later_of_two_texts_for_one_token() {
    let tokenizer = SimpleTokenizer::from_file("{\"b\": 7, \"a\": 7}").unwrap();
    assert_eq!(tokenizer.decode(&[7]).unwrap(), "b");
}

#[test]
fn tokenizer_refuses_text_that_is_no_vocabulary() {
    for text in ["", "not json", "[1, 2]", "{\"a\": \"b\"}", "{\"a\": 1.5}", "{\"a\": 1} x"] {
        match SimpleTokenizer::from_file(text) {
            Ok(_) => panic!("accepted {text:?}"),
            Err(e) => {
                assert_eq!(e.kind(), ErrorKind::Other);
                assert_eq!(e.message(), "Failed to parse vocab.json");
            }
        }
    }
}

#[test]
fn onnx_reads_the_mel_bins_from_the_settings() {
    use_mel_bins(None, Ok(80));
    use_mel_bins(Some("{\"features_size\": 128}"), Ok(128));
    use_mel_bins(Some("{\"features_size\": 0}"), Ok(0));
    use_mel_bins(Some("{\"other\": 1}"), Ok(80));
    use_mel_bins(Some("{\"features_size\": -3}"), Ok(80));
    use_mel_bins(Some("{\"features_size\": \"128\"}"), Ok(80));
    use_mel_bins(Some("{\"features_size\": 64.0}"), Ok(80));
    use_mel_bins(Some("[128]"), Ok(80));
    use_mel_bins(Some("{features_size: 128}"), Err(()));
    use_mel_bins(Some(""), Err(()));
}

fn use_mel_bins(settings: Option<&str>, expected: Result<usize, ()>) {
    match (OnnxRuntime::load_model_config(settings), expected) {
        (Ok(bins), Ok(wanted)) => assert_eq!(bins, wanted),
        (Err(e), Err(())) => {
            assert_eq!(e.kind(), ErrorKind::Model);
            assert!(e.message().starts_with("Failed to parse config JSON: "));
            assert!(e.message().len() > "Failed to parse config JSON: ".len());
        }
        (got, _) => panic!("settings {settings:?} gave {:?}", got.map_err(|e| e.to_string())),
    }
}

#[test]
fn a_chunk_is_transcribed_at_its_own_rate() {
    let mut model = MockModel::new();
    model.load(ModelConfig::default()).unwrap();
    let chunk = onevox::audio::buffer::AudioChunk::new(vec![0i16; 24000], 16000, 0);
    let heard = onevox::models::runtime::transcribe_chunk(&mut model, &chunk).unwrap();
    assert_eq!(heard.text, "[Mock transcription of 1.5s audio]");
    let wrong_rate = onevox::audio::buffer::AudioChunk::new(vec![0i16; 24000], 44100, 0);
    assert!(onevox::models::runtime::transcribe_chunk(&mut model, &wrong_rate).is_err());
}
