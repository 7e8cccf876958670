use surface_dial::platform::mock::MockPlatform;
use surface_dial::platform::{
    key_to_keycode, mic_mute_toggle, parse_pulseaudio_volume, DEFAULT_MIC_RESTORE, AppInfo, DeviceType, Key, MediaKey, Platform,
    PlatformError, Urgency,
};

#[test]
fn test_parse_pulseaudio_volume() {
    assert_eq!(parse_pulseaudio_volume("Volume: front-left: 65536 / 100%").unwrap(), 100);
    assert_eq!(parse_pulseaudio_volume("Something 50% something").unwrap(), 50);
}

#[test]
fn test_key_to_keycode() {
    assert_eq!(key_to_keycode(Key::F15), 113);
    assert_eq!(key_to_keycode(Key::F16), 106);
    assert_eq!(key_to_keycode(Key::F17), 64);
    assert_eq!(key_to_keycode(Key::F18), 79);
    assert_eq!(key_to_keycode(Key::F19), 80);
}

#[test]
fn test_mock_platform_creation() {
    let platform = MockPlatform::new();
    assert_eq!(platform.get_volume().unwrap(), 50);
    assert!(!platform.is_muted().unwrap());
}

#[test]
fn test_volume_control() {
    let mut platform = MockPlatform::new();

    platform.set_volume(75).unwrap();
    assert_eq!(platform.get_volume().unwrap(), 75);

    assert_eq!(platform.volume_history(), vec![75]);
}

#[test]
fn test_volume_clamping() {
    let mut platform = MockPlatform::new();

    platform.set_volume(150).unwrap();
    assert_eq!(platform.get_volume().unwrap(), 100);

    platform.set_volume(-10).unwrap();
    assert_eq!(platform.get_volume().unwrap(), 0);
}

#[test]
fn test_mute_toggle() {
    let mut platform = MockPlatform::new();

    platform.toggle_mute().unwrap();
    assert!(platform.is_muted().unwrap());
    assert_eq!(platform.mute_toggle_count(), 1);

    platform.toggle_mute().unwrap();
    assert!(!platform.is_muted().unwrap());
    assert_eq!(platform.mute_toggle_count(), 2);
}

#[test]
fn test_media_keys() {
    let mut platform = MockPlatform::new();

    platform.send_media_key(MediaKey::PlayPause).unwrap();
    platform.send_media_key(MediaKey::NextTrack).unwrap();

    let sent = platform.media_keys_sent();
    assert_eq!(sent.len(), 2);
    assert_eq!(sent[0], MediaKey::PlayPause);
    assert_eq!(sent[1], MediaKey::NextTrack);
}

#[test]
fn test_key_events() {
    let mut platform = MockPlatform::new();

    platform.send_key_down(Key::F15).unwrap();
    platform.send_key_up(Key::F15).unwrap();

    assert_eq!(platform.keys_pressed(), vec![Key::F15]);
    assert_eq!(platform.keys_released(), vec![Key::F15]);
}

#[test]
fn test_notifications() {
    let mut platform = MockPlatform::new();

    platform.send_notification("Test", "Hello World", Urgency::Normal).unwrap();

    let notifications = platform.notifications_sent();
    assert_eq!(notifications.len(), 1);
    assert_eq!(notifications[0].title, "Test");
    assert_eq!(notifications[0].body, "Hello World");
}

#[test]
fn test_force_error() {
    let mut platform = MockPlatform::new();
    platform.set_force_error(true);

    assert!(platform.get_volume().is_err());
    assert!(platform.set_volume(50).is_err());
    assert!(platform.toggle_mute().is_err());
}

#[test]
fn test_clear_history() {
    let mut platform = MockPlatform::new();

    platform.set_volume(75).unwrap();
    platform.toggle_mute().unwrap();
    platform.send_media_key(MediaKey::PlayPause).unwrap();

    platform.clear_history();

    assert!(platform.volume_history().is_empty());
    assert_eq!(platform.mute_toggle_count(), 0);
    assert!(platform.media_keys_sent().is_empty());
}

#[test]
fn test_builder_pattern() {
    let platform = MockPlatform::new().with_volume(80).with_mic_volume(60).with_muted(true);

    assert_eq!(platform.get_volume().unwrap(), 80);
    assert_eq!(platform.get_mic_volume().unwrap(), 60);
    assert!(platform.is_muted().unwrap());
}

#[test]
fn test_device_type_equality() {
    assert_eq!(DeviceType::Speakers, DeviceType::Speakers);
    assert_ne!(DeviceType::Speakers, DeviceType::Headphones);
}

#[test]
fn test_key_equality() {
    assert_eq!(Key::F15, Key::F15);
    assert_ne!(Key::F15, Key::F16);
}

#[test]
fn test_media_key_equality() {
    assert_eq!(MediaKey::PlayPause, MediaKey::PlayPause);
    assert_ne!(MediaKey::PlayPause, MediaKey::NextTrack);
}

// Edge cases and laws of the library.

#[test]
fn pulseaudio_volume_edge_cases() {
    // clamped to 0..=100
    assert_eq!(parse_pulseaudio_volume("Volume: 150%").unwrap(), 100);
    assert_eq!(parse_pulseaudio_volume("Volume: -5%").unwrap(), 0);
    // the first word that is a percentage wins; others are skipped
    assert_eq!(parse_pulseaudio_volume("front-left: x% 30% 40%").unwrap(), 30);
    // every trailing % sign is dropped
    assert_eq!(parse_pulseaudio_volume("70%%").unwrap(), 70);
    // any white space separates words
    assert_eq!(parse_pulseaudio_volume("a\t\n25%\u{3000}b").unwrap(), 25);
    assert_eq!(parse_pulseaudio_volume("+8%").unwrap(), 8);
    match parse_pulseaudio_volume("no percentage here 5") {
        Err(PlatformError::ParseError(m)) => assert_eq!(m, "Cannot parse pactl output"),
        other => panic!("{:?}", other),
    }
    assert!(parse_pulseaudio_volume("").is_err());
    assert!(parse_pulseaudio_volume("%").is_err());
}

#[test]
fn mic_controls_are_separate() {
    let mut platform = MockPlatform::new();
    platform.set_mic_volume(30).unwrap();
    platform.toggle_mic_mute().unwrap();
    assert_eq!(platform.get_mic_volume().unwrap(), 30);
    assert!(platform.is_mic_muted().unwrap());
    assert_eq!(platform.mic_mute_toggle_count(), 1);
    assert_eq!(platform.mic_volume_history(), vec![30]);
    assert_eq!(platform.get_volume().unwrap(), 50);
    assert!(platform.volume_history().is_empty());
}

#[test]
fn forced_errors_change_nothing() {
    let mut platform = MockPlatform::new();
    platform.set_force_error(true);
    match platform.set_volume(10) {
        Err(PlatformError::OperationFailed(m)) => assert_eq!(m, "Simulated error"),
        other => panic!("{:?}", other),
    }
    assert!(platform.send_key_down(Key::F15).is_err());
    assert!(platform.list_output_devices().is_err());
    platform.set_force_error(false);
    assert_eq!(platform.get_volume().unwrap(), 50);
    assert!(platform.volume_history().is_empty());
    assert!(platform.keys_pressed().is_empty());
}

#[test]
fn devices_and_foreground_app() {
    let mut platform = MockPlatform::new();
    let out = platform.list_output_devices().unwrap();
    assert_eq!(out.len(), 1);
    assert_eq!(out[0].id, "mock-speakers");
    assert_eq!(out[0].device_type, DeviceType::Speakers);
    let input = platform.list_input_devices().unwrap();
    assert_eq!(input[0].name, "Mock Microphone");
    assert_eq!(platform.get_default_output().unwrap().name, "Mock Speakers");
    assert!(platform.set_default_output("anything").is_ok());
    assert!(platform.get_foreground_app().unwrap().is_none());
    platform.set_foreground_app(Some(AppInfo {
        name: "Editor".to_string(),
        bundle_id: Some("org.example.editor".to_string()),
        process_id: Some(42),
        executable: None,
    }));
    let app = platform.get_foreground_app().unwrap().unwrap();
    assert_eq!(app.name, "Editor");
    assert_eq!(app.bundle_id.as_deref(), Some("org.example.editor"));
    assert_eq!(app.process_id, Some(42));
    assert!(platform.get_app_volume(&app).is_err());
    assert!(platform.get_daemon_pid().is_none());
    assert!(!platform.is_daemon_installed());
}

#[test]
fn default_mock_is_fresh() {
    let platform = MockPlatform::default();
    assert_eq!(platform.get_mic_volume().unwrap(), 50);
    assert!(!platform.is_mic_muted().unwrap());
    assert!(platform.notifications_sent().is_empty());
}

#[test]
fn mic_mute_toggle_remembers_volume() {
    // muting a live microphone remembers its volume
    assert_eq!(mic_mute_toggle(70, DEFAULT_MIC_RESTORE), (0, 70));
    // unmuting restores it
    assert_eq!(mic_mute_toggle(0, 70), (70, 70));
    // with nothing remembered, the default comes back
    assert_eq!(mic_mute_toggle(0, 0), (50, 0));
    assert_eq!(mic_mute_toggle(-1, -5), (DEFAULT_MIC_RESTORE, -5));
}

#[test]
fn media_keys_listed_in_call_order_across_other_calls() {
    let mut p = MockPlatform::new();
    p.send_media_key(MediaKey::PlayPause).unwrap();
    p.set_volume(40).unwrap();
    p.set_force_error(true);
    assert!(p.send_media_key(MediaKey::PrevTrack).is_err());
    p.set_force_error(false);
    p.send_media_key(MediaKey::NextTrack).unwrap();
    p.toggle_mute().unwrap();
    assert_eq!(p.media_keys_sent(), vec![MediaKey::PlayPause, MediaKey::NextTrack]);
}

#[test]
fn forced_errors_change_nothing_until_lifted() {
    let mut p = MockPlatform::new().with_volume(30);
    p.set_force_error(true);
    assert!(matches!(p.set_volume(80), Err(PlatformError::OperationFailed(_))));
    assert!(matches!(p.toggle_mute(), Err(PlatformError::OperationFailed(_))));
    assert!(matches!(p.send_key_down(Key::F15), Err(PlatformError::OperationFailed(_))));
    assert!(p.volume_history().is_empty());
    assert_eq!(p.mute_toggle_count(), 0);
    assert!(p.keys_pressed().is_empty());
    p.set_force_error(false);
    assert_eq!(p.get_volume().unwrap(), 30);
    p.set_volume(80).unwrap();
    assert_eq!(p.get_volume().unwrap(), 80);
}

#[test]
fn mic_mute_then_unmute_restores_volume() {
    let (muted, kept) = mic_mute_toggle(35, DEFAULT_MIC_RESTORE);
    assert_eq!(muted, 0);
    assert_eq!(mic_mute_toggle(muted, kept), (35, 35));
}

#[test]
fn media_keys_since_clear_history() {
    let mut p = MockPlatform::new();
    p.send_media_key(MediaKey::PlayPause).unwrap();
    p.clear_history();
    assert!(p.media_keys_sent().is_empty());
    p.send_media_key(MediaKey::NextTrack).unwrap();
    p.send_media_key(MediaKey::PrevTrack).unwrap();
    assert_eq!(p.media_keys_sent(), vec![MediaKey::NextTrack, MediaKey::PrevTrack]);
}
