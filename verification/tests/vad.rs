use onevox::audio::buffer::AudioChunk;
use onevox::vad::detector::{VadDecision, VadDetector};
use onevox::vad::energy::{EnergyVad, EnergyVadConfig};
use onevox::vad::processor::{SpeechSegment, VadProcessor, VadProcessorConfig};

/// A float sample in [-1, 1] as 16-bit PCM.
fn pcm(x: f32) -> i16 {
    (x.clamp(-1.0, 1.0) * i16::MAX as f32) as i16
}

fn create_silent_chunk(duration_ms: u64, sample_rate: u32) -> AudioChunk {
    let samples_count = (sample_rate as u64 * duration_ms / 1000) as usize;
    AudioChunk::new(vec![pcm(0.0); samples_count], sample_rate, 0)
}

fn create_speech_chunk(duration_ms: u64, sample_rate: u32) -> AudioChunk {
    let samples_count = (sample_rate as u64 * duration_ms / 1000) as usize;
    let samples: Vec<i16> = (0..samples_count)
        .map(|i| pcm(0.2 * (i as f32 * 0.01).sin()))
        .collect();
    AudioChunk::new(samples, sample_rate, 0)
}

#[test]
fn test_rms_energy_calculation() {
    let samples = vec![pcm(0.0), pcm(0.5), pcm(-0.5), pcm(1.0), pcm(-1.0)];
    let energy = EnergyVad::calculate_rms_energy(&samples);
    assert!(energy > pcm(0.0) as u32);
    assert!(energy < pcm(1.0) as u32);
}

#[test]
fn test_silence_detection() {
    let mut vad = EnergyVad::new(EnergyVadConfig::default());
    let chunk = AudioChunk::new(vec![pcm(0.0); 1000], 16000, 0);

    let decision = vad.detect(&chunk).unwrap();
    assert_eq!(decision, VadDecision::Silence);
}

#[test]
fn test_idle_state() {
    let vad_config = EnergyVadConfig::default();
    let detector = EnergyVad::new(vad_config);
    let config = VadProcessorConfig::default();
    let mut processor = VadProcessor::new(config, detector);

    let chunk = create_silent_chunk(100, 16000);
    let result = processor.process(chunk).unwrap();

    assert!(result.is_none());
    assert!(!processor.is_in_speech());
}

#[test]
fn test_speech_detection() {
    let vad_config = EnergyVadConfig {
        threshold: pcm(0.02) as u32,
        min_speech_chunks: 2,
        min_silence_chunks: 3,
        adaptive: false,
        adaptive_window_size: 30,
    };
    let detector = EnergyVad::new(vad_config);
    let config = VadProcessorConfig::default();
    let mut processor = VadProcessor::new(config, detector);

    for i in 0..5 {
        let chunk = create_speech_chunk(100, 16000);
        let result = processor.process(chunk).unwrap();
        assert!(
            result.is_none(),
            "Unexpected speech segment at chunk {} during active speech",
            i
        );
    }

    assert!(
        processor.is_in_speech(),
        "Processor should be in speech state after processing speech chunks"
    );

    let mut segment_found = false;
    for _ in 0..5 {
        let chunk = create_silent_chunk(100, 16000);
        let result = processor.process(chunk).unwrap();

        if let Some(segment) = result {
            assert!(!segment.is_empty(), "Segment should not be empty");
            assert!(segment.duration_ms > 0, "Segment duration should be > 0");
            segment_found = true;
            break;
        }
    }

    assert!(
        segment_found,
        "Speech segment should have been detected after silence"
    );
}

#[test]
fn rms_energy_exact_values() {
    assert_eq!(EnergyVad::calculate_rms_energy(&[]), 0);
    assert_eq!(EnergyVad::calculate_rms_energy(&[3, -4]), 3);
    assert_eq!(EnergyVad::calculate_rms_energy(&[100, 100, 100, 100]), 100);
    assert_eq!(EnergyVad::calculate_rms_energy(&[i16::MIN; 7]), 32768);
}

#[test]
fn segment_holds_pre_roll_speech_and_closing_chunk() {
    let vad_config = EnergyVadConfig {
        threshold: 655,
        min_speech_chunks: 2,
        min_silence_chunks: 3,
        adaptive: false,
        adaptive_window_size: 30,
    };
    let mut processor = VadProcessor::new(
        VadProcessorConfig { pre_roll_ms: 300, post_roll_ms: 500 },
        EnergyVad::new(vad_config),
    );
    let mut stamp = 0u64;
    let mut emitted: Vec<SpeechSegment> = Vec::new();
    let mut feed = |loud: bool, processor: &mut VadProcessor<EnergyVad>, stamp: &mut u64| {
        let samples = if loud { vec![5000i16; 1600] } else { vec![0i16; 1600] };
        let chunk = AudioChunk::new(samples, 16000, *stamp);
        *stamp += 100_000;
        if let Some(segment) = processor.process(chunk).unwrap() {
            emitted.push(segment);
        }
    };
    for _ in 0..6 {
        feed(false, &mut processor, &mut stamp);
    }
    for _ in 0..4 {
        feed(true, &mut processor, &mut stamp);
    }
    for _ in 0..3 {
        feed(false, &mut processor, &mut stamp);
    }
    assert_eq!(emitted.len(), 1);
    let segment = &emitted[0];
    // Pre-roll capacity is ceil(300 / 100) = 3. The first loud chunk is
    // still silence to the detector and enters the pre-roll, so the
    // segment starts two silent chunks before it: chunks 4..=12.
    assert_eq!(segment.len(), 9);
    assert_eq!(segment.start_time, 400_000);
    assert_eq!(segment.duration_ms, 900);
    assert_eq!(segment.sample_rate(), 16000);
    assert_eq!(segment.get_samples().len(), 9 * 1600);
    let stamps: Vec<u64> = segment.chunks.iter().map(|c| c.timestamp).collect();
    assert_eq!(
        stamps,
        vec![400_000, 500_000, 600_000, 700_000, 800_000, 900_000, 1_000_000, 1_100_000, 1_200_000]
    );
    assert!(!processor.is_in_speech());
}
