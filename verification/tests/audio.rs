use onevox::audio::buffer::{AudioBuffer, AudioChunk};
use onevox::audio::capture::{
    chunk_channel, AudioCapture, CaptureConfig, ChunkAccumulator, DeviceChoice, PushAction,
    PushOutcome, RecvOutcome, SampleFormat,
};
use onevox::audio::devices::{AudioDeviceInfo, AudioDeviceManager};
use onevox::audio::AudioEngine;
use onevox::ErrorKind;

#[test]
fn chunk_duration_is_length_over_rate() {
    assert_eq!(AudioChunk::new(vec![0; 1600], 16000, 0).duration_ms(), 100);
    assert_eq!(AudioChunk::new(vec![0; 1601], 16000, 0).duration_ms(), 100);
    assert_eq!(AudioChunk::new(vec![0; 15], 16000, 0).duration_ms(), 0);
    assert_eq!(AudioChunk::new(vec![0; 44100], 44100, 0).duration_ms(), 1000);
    assert_eq!(AudioChunk::new(vec![], 0, 0).duration_ms(), 0);
    assert_eq!(AudioChunk::new(vec![1], 0, 0).duration_ms(), u64::MAX);
    let chunk = AudioChunk::new(vec![1, 2, 3], 8000, 77);
    assert_eq!(chunk.len(), 3);
    assert!(!chunk.is_empty());
    let copy = chunk.duplicate();
    assert_eq!(copy.samples, vec![1, 2, 3]);
    assert_eq!(copy.sample_rate, 8000);
    assert_eq!(copy.timestamp, 77);
}

#[test]
fn ring_keeps_order_and_drops_what_does_not_fit() {
    let mut ring = AudioBuffer::new(4);
    assert_eq!(ring.capacity(), 4);
    assert!(ring.is_empty());
    assert_eq!(ring.push(&[1, 2, 3]), 3);
    assert_eq!(ring.len(), 3);
    assert_eq!(ring.free_len(), 1);
    // Only the first sample of the offer fits; the rest is dropped.
    assert_eq!(ring.push(&[4, 5, 6]), 1);
    assert!(ring.is_full());
    assert_eq!(ring.pop_vec(2), vec![1, 2]);
    assert_eq!(ring.push(&[7, 8, 9]), 2);
    let mut dest = vec![-1i16; 6];
    assert_eq!(ring.pop(&mut dest), 4);
    assert_eq!(dest, vec![3, 4, 7, 8, -1, -1]);
    assert!(ring.is_empty());
    assert_eq!(ring.pop_vec(3), Vec::<i16>::new());
}

#[test]
fn full_ring_takes_nothing_until_something_is_taken_out() {
    let mut ring = AudioBuffer::new(3);
    assert_eq!(ring.push(&[1, 2, 3, 4]), 3);
    for _ in 0..5 {
        assert_eq!(ring.push(&[9]), 0);
        assert_eq!(ring.len(), 3);
    }
    assert_eq!(ring.pop_vec(1), vec![1]);
    assert_eq!(ring.push(&[5, 6]), 1);
    assert_eq!(ring.pop_vec(10), vec![2, 3, 5]);
}

#[test]
fn split_ring_carries_samples_from_producer_to_consumer() {
    let (mut producer, mut consumer) = AudioBuffer::default_capacity().split();
    assert_eq!(producer.capacity(), 32000);
    assert_eq!(consumer.capacity(), 32000);
    assert_eq!(producer.free_len(), 32000);
    assert!(consumer.is_empty());
    assert_eq!(producer.push(&[10, 20, 30]), 3);
    assert!(!producer.is_full());
    assert_eq!(consumer.len(), 3);
    assert_eq!(consumer.pop_vec(2), vec![10, 20]);
    let mut dest = vec![0i16; 4];
    assert_eq!(consumer.pop(&mut dest), 1);
    assert_eq!(dest, vec![30, 0, 0, 0]);
    let mut sent = 0usize;
    let mut got = 0usize;
    while got < 100_000 {
        sent += producer.push(&[7; 1000]);
        got += consumer.pop_vec(640).len();
    }
    assert!(sent >= got);
    assert!(sent - got <= 32000);
}

#[test]
fn capture_config_bounds() {
    assert!(CaptureConfig::default().validate().is_ok());
    let mut config = CaptureConfig::default();
    config.sample_rate = 12345;
    let e = config.validate().unwrap_err();
    assert_eq!(e.kind(), ErrorKind::Config);
    assert_eq!(
        e.message(),
        "Unsupported sample rate 12345. Supported values: [8000, 16000, 22050, 44100, 48000]"
    );
    for rate in [8000, 16000, 22050, 44100, 48000] {
        config.sample_rate = rate;
        assert!(config.validate().is_ok());
    }
    config.chunk_duration_ms = 9;
    assert_eq!(
        config.validate().unwrap_err().message(),
        "chunk_duration_ms must be between 10 and 1000"
    );
    config.chunk_duration_ms = 1001;
    assert!(config.validate().is_err());
    config.chunk_duration_ms = 1000;
    config.buffer_capacity_secs = 0;
    assert_eq!(
        config.validate().unwrap_err().message(),
        "buffer_capacity_secs must be between 1 and 60"
    );
    config.buffer_capacity_secs = 61;
    assert!(config.validate().is_err());
    config.buffer_capacity_secs = 60;
    assert!(config.validate().is_ok());
}

#[test]
fn chunk_size_and_ring_capacity() {
    let config = CaptureConfig::default();
    assert_eq!(config.chunk_size(), 3200);
    // Two seconds in chunks of 200 ms are ten chunks.
    assert_eq!(config.ring_capacity(), 10);
    let mut small = CaptureConfig::default();
    small.chunk_duration_ms = 100;
    small.buffer_capacity_secs = 1;
    // One second is ten chunks of 100 ms.
    assert_eq!(small.ring_capacity(), 10);
    small.buffer_capacity_secs = 3;
    assert_eq!(small.ring_capacity(), 30);
    let mut odd = CaptureConfig::default();
    odd.sample_rate = 22050;
    odd.chunk_duration_ms = 30;
    odd.buffer_capacity_secs = 1;
    assert_eq!(odd.chunk_size(), 661);
    // 22050 samples in chunks of 661: 33 full chunks and a rest.
    assert_eq!(odd.ring_capacity(), 34);
}

#[test]
fn callback_samples_become_chunks_of_the_configured_size() {
    let mut config = CaptureConfig::default();
    config.chunk_duration_ms = 10;
    let mut acc = ChunkAccumulator::new(&config, 16000, 0);
    assert!(!acc.needs_resampling());
    let first: Vec<i16> = (0..100).collect();
    assert!(acc.cut_chunks(&first, 5).is_empty());
    let second: Vec<i16> = (100..400).collect();
    let chunks = acc.cut_chunks(&second, 6);
    assert_eq!(chunks.len(), 2);
    for chunk in &chunks {
        assert_eq!(chunk.sample_rate, 16000);
        assert_eq!(chunk.samples.len(), 160);
        assert_eq!(chunk.timestamp, 6);
    }
    assert_eq!(chunks[0].samples, (0..160).collect::<Vec<i16>>());
    assert_eq!(chunks[1].samples, (160..320).collect::<Vec<i16>>());
    let rest = acc.push_samples(&(400..480).collect::<Vec<i16>>());
    assert_eq!(rest, vec![(320..480).collect::<Vec<i16>>()]);
}

#[test]
fn resampled_chunks_take_the_delivery_rate() {
    let acc = ChunkAccumulator::new(&CaptureConfig::default(), 48000, 0);
    assert!(acc.needs_resampling());
    let ok = acc.chunk_of_resampled(vec![1; 3200], Some(vec![2; 1067]), 9);
    assert_eq!(ok.sample_rate, 16000);
    assert_eq!(ok.samples, vec![2; 1067]);
    let failed = acc.chunk_of_resampled(vec![1; 3200], None, 9);
    assert_eq!(failed.sample_rate, 48000);
    assert_eq!(failed.samples, vec![1; 3200]);
}

#[test]
fn dropped_chunks_are_counted_and_reported_every_five_seconds() {
    let mut acc = ChunkAccumulator::new(&CaptureConfig::default(), 16000, 1_000_000);
    assert_eq!(acc.on_push_outcome(PushOutcome::Full, 1_100_000), PushAction::Continue);
    assert_eq!(acc.on_push_outcome(PushOutcome::Full, 5_999_999), PushAction::Continue);
    assert_eq!(acc.dropped_chunks(), 2);
    assert_eq!(acc.on_push_outcome(PushOutcome::Full, 6_000_000), PushAction::WarnDropped(3));
    assert_eq!(acc.on_push_outcome(PushOutcome::Full, 6_000_001), PushAction::Continue);
    assert_eq!(acc.on_push_outcome(PushOutcome::Delivered, 6_000_002), PushAction::Continue);
    assert_eq!(acc.dropped_chunks(), 0);
    assert!(acc.is_open());
    assert_eq!(acc.on_push_outcome(PushOutcome::Closed, 7_000_000), PushAction::ReportClosed);
    assert_eq!(acc.on_push_outcome(PushOutcome::Closed, 7_000_001), PushAction::Continue);
    assert!(!acc.is_open());
    assert!(acc.cut_chunks(&[1; 10_000], 8_000_000).is_empty());
}

#[test]
fn ring_overflow_drops_chunks_without_blocking() {
    // Chunks of 100 ms into a ring for half a second: ten chunks, the
    // smallest ring there is.
    let mut config = CaptureConfig::default();
    config.chunk_duration_ms = 100;
    config.buffer_capacity_secs = 1;
    let capacity = config.ring_capacity();
    assert_eq!(capacity, 10);
    let (mut sender, mut receiver) = chunk_channel(capacity);
    let mut acc = ChunkAccumulator::new(&config, 16000, 0);
    let mut warnings = 0;
    let mut dropped = 0;
    for k in 0..20u64 {
        let now = k * 100_000;
        let chunk = AudioChunk::new(vec![0; 1600], 16000, now);
        match acc.deliver(&mut sender, chunk, now) {
            PushAction::WarnDropped(_) => warnings += 1,
            PushAction::Continue => {}
            PushAction::ReportClosed => unreachable!(),
        }
        dropped = acc.dropped_chunks();
    }
    assert_eq!(dropped, 10);
    assert!(warnings <= 1);
    for k in 0..10u64 {
        match receiver.try_recv() {
            RecvOutcome::Chunk(chunk) => assert_eq!(chunk.timestamp, k * 100_000),
            _ => unreachable!(),
        }
    }
    assert!(matches!(receiver.try_recv(), RecvOutcome::Empty));
    let fresh = AudioChunk::new(vec![0; 1600], 16000, 2_000_000);
    assert_eq!(acc.deliver(&mut sender, fresh, 2_000_000), PushAction::Continue);
    assert_eq!(acc.dropped_chunks(), 0);
    assert!(matches!(receiver.try_recv(), RecvOutcome::Chunk(_)));
    drop(receiver);
    let late = AudioChunk::new(vec![0; 1600], 16000, 2_100_000);
    assert_eq!(acc.deliver(&mut sender, late, 2_100_000), PushAction::ReportClosed);
}

#[test]
fn receiver_sees_the_end_when_the_producer_is_gone() {
    let (mut sender, mut receiver) = chunk_channel(10);
    assert_eq!(sender.try_push(AudioChunk::new(vec![1], 16000, 1)), PushOutcome::Delivered);
    drop(sender);
    assert!(matches!(receiver.try_recv(), RecvOutcome::Chunk(_)));
    assert!(matches!(receiver.try_recv(), RecvOutcome::Closed));
}

#[test]
fn capture_start_and_stop() {
    let mut capture = AudioCapture::new(CaptureConfig::default());
    assert!(!capture.is_running());
    assert!(matches!(capture.start(), Ok(DeviceChoice::Default)));
    let plan = capture.plan_stream(48000, SampleFormat::I16).unwrap();
    assert_eq!(plan.channels, 1);
    assert_eq!(plan.chunk_size, 3200);
    assert_eq!(plan.ring_capacity, 10);
    assert!(plan.needs_resampling);
    let refused = capture.plan_stream(48000, SampleFormat::U8).unwrap_err();
    assert_eq!(refused.to_string(), "Audio error: Unsupported sample format: U8");
    capture.mark_started();
    assert!(capture.is_running());
    assert_eq!(capture.start().unwrap_err().message(), "Capture already running");
    assert!(capture.stop());
    assert!(!capture.stop());
    assert!(!capture.is_running());
    let mut named = CaptureConfig::default();
    named.device_name = "USB Mic".to_string();
    match AudioCapture::new(named).start() {
        Ok(DeviceChoice::Named(name)) => assert_eq!(name, "USB Mic"),
        _ => unreachable!(),
    }
}

#[test]
fn audio_engine_holds_one_capture() {
    let mut engine = AudioEngine::new();
    assert!(!engine.is_capturing());
    assert!(!engine.stop_capture());
    let (was_running, choice) = engine.start_capture(CaptureConfig::default());
    assert!(!was_running);
    assert!(choice.is_ok());
    engine.capture_started();
    assert!(engine.is_capturing());
    let (was_running, choice) = engine.start_capture(CaptureConfig::default());
    assert!(was_running);
    assert!(choice.is_ok());
    assert!(!engine.is_capturing());
    let mut bad = CaptureConfig::default();
    bad.sample_rate = 1;
    assert!(engine.start_capture(bad).1.is_err());
    assert!(!engine.is_capturing());
}

#[test]
fn devices_are_found_by_exact_name() {
    let names = vec!["Built-in".to_string(), "USB Mic".to_string(), "USB Mic".to_string()];
    let manager = AudioDeviceManager::new();
    assert_eq!(manager.get_device_by_name(&names, "USB Mic"), Some(1));
    assert_eq!(manager.get_device_by_name(&names, "usb mic"), None);
    let info = AudioDeviceInfo::new(Some("USB Mic".to_string()), "USB Mic", 48000, 2);
    assert!(info.is_default);
    assert_eq!(info.to_string(), "USB Mic (default) - 48000Hz, 2 ch");
    let unnamed = AudioDeviceInfo::new(None, "USB Mic", 44100, 1);
    assert_eq!(unnamed.to_string(), "Unknown Device - 44100Hz, 1 ch");
}

#[test]
fn split_ring_keeps_what_it_held() {
    let mut ring = AudioBuffer::new(8);
    assert_eq!(ring.push(&[1, 2, 3]), 3);
    let (mut producer, mut consumer) = ring.split();
    // Five places are free: a slice of five goes in whole.
    assert_eq!(producer.free_len(), 5);
    assert!(!producer.is_full());
    assert_eq!(producer.push(&[4, 5, 6, 7, 8]), 5);
    assert!(producer.is_full());
    assert_eq!(producer.push(&[9]), 0);
    // What the ring held comes out first and in order.
    assert!(!consumer.is_empty());
    assert_eq!(consumer.len(), 8);
    assert_eq!(consumer.pop_vec(2), vec![1, 2]);
    let mut dest = vec![0i16; 3];
    assert_eq!(consumer.pop(&mut dest), 3);
    assert_eq!(dest, vec![3, 4, 5]);
    // The places the consumer freed are there for the producer.
    assert_eq!(producer.free_len(), 5);
    assert_eq!(producer.push(&[10, 11]), 2);
    assert_eq!(consumer.pop_vec(10), vec![6, 7, 8, 10, 11]);
    assert!(consumer.is_empty());
    assert_eq!(consumer.pop_vec(4), Vec::<i16>::new());
}

#[test]
fn chunk_ring_is_not_full_while_places_are_free() {
    let (mut sender, mut receiver) = chunk_channel(3);
    for k in 0..3u64 {
        assert_eq!(sender.try_push(AudioChunk::new(vec![1], 16000, k)), PushOutcome::Delivered);
    }
    assert_eq!(sender.try_push(AudioChunk::new(vec![1], 16000, 3)), PushOutcome::Full);
    match receiver.try_recv() {
        RecvOutcome::Chunk(chunk) => assert_eq!(chunk.timestamp, 0),
        _ => unreachable!(),
    }
    assert_eq!(sender.try_push(AudioChunk::new(vec![1], 16000, 4)), PushOutcome::Delivered);
    let mut rx = receiver.into_inner();
    assert_eq!(rx.try_recv().map(|c| c.timestamp).ok(), Some(1));
    drop(rx);
    assert_eq!(sender.try_push(AudioChunk::new(vec![1], 16000, 5)), PushOutcome::Closed);
}
