use synapsed::station::act::audio::audio::{
    chunk_samples, initial_fill_samples, NetAudioTargets, AUDIO_PORT, BUFFER_CAPACITY, INPUT_CHANNELS,
    TARGET_FILL_FRAMES,
};

fn sorted(mut v: Vec<String>) -> Vec<String> {
    v.sort();
    v
}

#[test]
fn packets_hold_ten_milliseconds_or_at_least_128_samples() {
    assert_eq!(chunk_samples(48000, 2), 960);
    assert_eq!(chunk_samples(44100, 1), 441);
    assert_eq!(chunk_samples(8000, 1), 128);
    assert_eq!(chunk_samples(0, 0), 128);
    assert_eq!(chunk_samples(u32::MAX, u16::MAX), (u32::MAX as usize * u16::MAX as usize) / 100);
}

#[test]
fn playback_starts_with_150_ms_of_silence() {
    assert_eq!(initial_fill_samples(INPUT_CHANNELS), 14400);
    assert_eq!(TARGET_FILL_FRAMES, 7200);
    assert_eq!(BUFFER_CAPACITY, 262144);
    assert_eq!(AUDIO_PORT, 5000);
}

#[test]
fn targets_are_added_once_and_cleared_on_pause() {
    let mut t = NetAudioTargets::new();
    assert!(!t.is_running());
    assert!(t.get_targets().is_empty());
    t.start_net_audio("10.0.0.2");
    t.start_net_audio("10.0.0.3");
    t.start_net_audio("10.0.0.2");
    assert!(t.is_running());
    assert_eq!(sorted(t.get_targets()), vec!["10.0.0.2".to_string(), "10.0.0.3".to_string()]);
    t.pause_net_audio();
    assert!(!t.is_running());
    assert!(t.get_targets().is_empty());
    t.start_net_audio("10.0.0.4");
    assert_eq!(t.get_targets(), vec!["10.0.0.4".to_string()]);
}
