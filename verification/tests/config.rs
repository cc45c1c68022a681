use voiceinput::config::{
    default_beam_size, default_device, default_language, default_log_level, default_max_duration_sec,
    default_min_duration_ms, default_min_hold_ms, default_mirror, default_sample_rate,
    default_theme, default_trigger, default_true, default_window_height, default_window_width,
    AudioConfig, GeneralConfig, HotkeyConfig, WhisperConfig,
};

#[test]
fn section_defaults() {
    let hotkey = HotkeyConfig::default();
    assert_eq!(hotkey.trigger, "RControl");
    assert_eq!(hotkey.min_hold_ms, 300);
    let audio = AudioConfig::default();
    assert_eq!(audio.sample_rate, 16000);
    assert_eq!(audio.max_duration_sec, 60);
    assert_eq!(audio.min_duration_ms, 500);
    assert_eq!(audio.device, "default");
    let whisper = WhisperConfig::default();
    assert_eq!(whisper.language, "zh");
    assert_eq!(whisper.beam_size, 5);
    assert_eq!(whisper.threads, 0);
    let general = GeneralConfig::default();
    assert!(!general.auto_start);
    assert!(general.show_tray);
    assert_eq!(general.log_level, "info");
    assert_eq!(general.mirror, "auto");
}

#[test]
fn field_defaults() {
    assert_eq!(default_trigger(), "RControl");
    assert_eq!(default_min_hold_ms(), 300);
    assert_eq!(default_sample_rate(), 16000);
    assert_eq!(default_max_duration_sec(), 60);
    assert_eq!(default_min_duration_ms(), 500);
    assert_eq!(default_device(), "default");
    assert_eq!(default_language(), "zh");
    assert_eq!(default_beam_size(), 5);
    assert_eq!(default_window_width(), 400);
    assert_eq!(default_window_height(), 160);
    assert_eq!(default_theme(), "auto");
    assert!(default_true());
    assert_eq!(default_log_level(), "info");
    assert_eq!(default_mirror(), "auto");
}
