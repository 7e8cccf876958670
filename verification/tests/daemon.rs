use surface_dial::config::Config;
use surface_dial::daemon::{
    ControlMode, Daemon, DaemonStats, PlatformAction, SURFACE_DIAL_PRODUCT_ID,
    SURFACE_DIAL_VENDOR_ID,
};
use surface_dial::input::ClickResult;
use surface_dial::platform::mock::MockPlatform;
use surface_dial::platform::{Key, MediaKey, Platform};

const MS: u64 = 1_000_000;
const SEC: u64 = 1_000_000_000;

/// Performs an action on a platform, as the daemon's runner does.
fn perform(p: &mut MockPlatform, a: Option<PlatformAction>) {
    let _ = match a {
        Some(PlatformAction::ToggleMute) => p.toggle_mute(),
        Some(PlatformAction::ToggleMicMute) => p.toggle_mic_mute(),
        Some(PlatformAction::SendMediaKey(k)) => p.send_media_key(k),
        Some(PlatformAction::KeyDown(k)) => p.send_key_down(k),
        Some(PlatformAction::KeyUp(k)) => p.send_key_up(k),
        Some(PlatformAction::SetVolume(v)) => p.set_volume(v),
        Some(PlatformAction::SetMicVolume(v)) => p.set_mic_volume(v),
        None => Ok(()),
    };
}

/// One raw rotation report at clock reading `now` (multiplier 1).
fn rotate_at(d: &mut Daemon, p: &mut MockPlatform, raw: i8, now: u64) {
    if let Some(total) = d.accumulate_rotation(raw) {
        let current = match d.control_mode() {
            ControlMode::Volume => p.get_volume().ok(),
            ControlMode::Microphone => p.get_mic_volume().ok(),
        };
        assert!(d.rotation_fits_at(total, current, now));
        let a = d.apply_rotation_at(total, current, now);
        perform(p, a);
    }
}

fn handle_rotation(d: &mut Daemon, raw: i8) {
    let mut p = MockPlatform::new();
    let now = d.now();
    rotate_at(d, &mut p, raw, now);
}

#[test]
fn test_control_mode_equality() {
    assert_eq!(ControlMode::Volume, ControlMode::Volume);
    assert_eq!(ControlMode::Microphone, ControlMode::Microphone);
    assert_ne!(ControlMode::Volume, ControlMode::Microphone);
}

#[test]
fn test_control_mode_debug() {
    let mode = ControlMode::Volume;
    let debug_str = format!("{:?}", mode);
    assert!(debug_str.contains("Volume"));
}

#[test]
fn test_control_mode_clone() {
    let mode = ControlMode::Microphone;
    let cloned = mode;
    assert_eq!(mode, cloned);
}

#[test]
fn test_daemon_stats_default() {
    let stats = DaemonStats::default();
    assert!(stats.start_time.is_none());
    assert_eq!(stats.rotation_count, 0);
    assert_eq!(stats.click_count, 0);
    assert_eq!(stats.mode_switches, 0);
}

#[test]
fn test_daemon_stats_debug() {
    let stats = DaemonStats::default();
    let debug_str = format!("{:?}", stats);
    assert!(debug_str.contains("DaemonStats"));
    assert!(debug_str.contains("rotation_count"));
}

#[test]
fn test_surface_dial_usb_ids() {
    assert_eq!(SURFACE_DIAL_VENDOR_ID, 0x045E);
    assert_eq!(SURFACE_DIAL_PRODUCT_ID, 0x091B);
}

#[test]
fn test_daemon_creation() {
    let config = Config::default();
    let daemon = Daemon::new(config);
    assert_eq!(daemon.control_mode(), ControlMode::Volume);
    assert!(!daemon.is_connected());
}

#[test]
fn test_daemon_initial_state() {
    let config = Config::default();
    let daemon = Daemon::new(config);

    assert_eq!(daemon.control_mode(), ControlMode::Volume);
    assert!(!daemon.is_connected());
    assert!(!daemon.was_button_pressed());
    assert_eq!(daemon.stats.rotation_count, 0);
    assert_eq!(daemon.stats.click_count, 0);
    assert_eq!(daemon.stats.mode_switches, 0);
    assert!(daemon.stats.start_time.is_none());
    assert!(daemon.mic_mode_started().is_none());
    assert!(daemon.last_rotation().is_none());
}

#[test]
fn test_daemon_with_custom_config() {
    let mut config = Config::default();
    config.volume.step_min = 5;
    config.volume.step_max = 15;
    config.microphone.mode_duration = 30;

    let daemon = Daemon::new(config);
    assert_eq!(daemon.config().volume.step_min, 5);
    assert_eq!(daemon.config().volume.step_max, 15);
    assert_eq!(daemon.config().microphone.mode_duration, 30);
}

#[test]
fn test_switch_mode_to_microphone() {
    let mut daemon = Daemon::new(Config::default());
    assert_eq!(daemon.control_mode(), ControlMode::Volume);
    assert_eq!(daemon.stats.mode_switches, 0);

    daemon.switch_mode(ControlMode::Microphone);

    assert_eq!(daemon.control_mode(), ControlMode::Microphone);
    assert_eq!(daemon.stats.mode_switches, 1);
}

#[test]
fn test_switch_mode_to_volume() {
    let mut daemon = Daemon::new(Config::default());
    daemon.switch_mode(ControlMode::Microphone);
    daemon.stats.mode_switches = 0;

    daemon.switch_mode(ControlMode::Volume);

    assert_eq!(daemon.control_mode(), ControlMode::Volume);
    assert_eq!(daemon.stats.mode_switches, 1);
}

#[test]
fn test_switch_mode_same_mode_no_change() {
    let mut daemon = Daemon::new(Config::default());
    assert_eq!(daemon.control_mode(), ControlMode::Volume);

    daemon.switch_mode(ControlMode::Volume);

    assert_eq!(daemon.stats.mode_switches, 0);
}

#[test]
fn test_switch_mode_multiple_times() {
    let mut daemon = Daemon::new(Config::default());

    daemon.switch_mode(ControlMode::Microphone);
    daemon.switch_mode(ControlMode::Volume);
    daemon.switch_mode(ControlMode::Microphone);

    assert_eq!(daemon.stats.mode_switches, 3);
    assert_eq!(daemon.control_mode(), ControlMode::Microphone);
}

#[test]
fn test_switch_mode_resets_rotation_processor() {
    let mut config = Config::default();
    config.sensitivity.dead_zone = 5;
    let mut daemon = Daemon::new(config);

    let _ = daemon.accumulate_rotation(1);
    let _ = daemon.accumulate_rotation(1);
    assert_eq!(daemon.pending_rotation(), 2);

    daemon.switch_mode(ControlMode::Microphone);

    assert_eq!(daemon.control_mode(), ControlMode::Microphone);
    assert_eq!(daemon.pending_rotation(), 0);
}

#[test]
fn test_reload_config() {
    let mut daemon = Daemon::new(Config::default());

    assert_eq!(daemon.config().volume.step_min, 2);
    assert_eq!(daemon.config().volume.step_max, 8);

    let mut new_config = Config::default();
    new_config.volume.step_min = 5;
    new_config.volume.step_max = 15;
    new_config.interaction.double_click_ms = 500;
    new_config.sensitivity.multiplier = "2.0".to_string();

    daemon.reload_config(new_config);

    assert_eq!(daemon.config().volume.step_min, 5);
    assert_eq!(daemon.config().volume.step_max, 15);
    assert_eq!(daemon.config().interaction.double_click_ms, 500);
    assert_eq!(daemon.config().sensitivity.multiplier, "2.0");
}

#[test]
fn test_reload_config_preserves_state() {
    let mut daemon = Daemon::new(Config::default());

    daemon.switch_mode(ControlMode::Microphone);
    daemon.set_connected(true);
    daemon.stats.rotation_count = 100;
    daemon.stats.click_count = 50;

    let new_config = Config::default();
    daemon.reload_config(new_config);

    assert_eq!(daemon.control_mode(), ControlMode::Microphone);
    assert!(daemon.is_connected());
    assert_eq!(daemon.stats.rotation_count, 100);
    assert_eq!(daemon.stats.click_count, 50);
}

#[test]
fn test_process_click_result_single_click_increments_stats() {
    let mut daemon = Daemon::new(Config::default());
    assert_eq!(daemon.stats.click_count, 0);

    daemon.process_click_result(ClickResult::SingleClick);

    assert_eq!(daemon.stats.click_count, 1);
}

#[test]
fn test_process_click_result_double_click_switches_to_mic() {
    let mut daemon = Daemon::new(Config::default());
    assert_eq!(daemon.control_mode(), ControlMode::Volume);

    daemon.process_click_result(ClickResult::DoubleClick);

    assert_eq!(daemon.control_mode(), ControlMode::Microphone);
    assert!(daemon.mic_mode_started().is_some());
    assert_eq!(daemon.stats.click_count, 1);
}

#[test]
fn test_process_click_result_triple_click_increments_stats() {
    let mut config = Config::default();
    config.media_control.enabled = true;
    let mut daemon = Daemon::new(config);

    daemon.process_click_result(ClickResult::TripleClick);

    assert_eq!(daemon.stats.click_count, 1);
}

#[test]
fn test_process_click_result_triple_click_disabled_media() {
    let mut config = Config::default();
    config.media_control.enabled = false;
    let mut daemon = Daemon::new(config);

    let action = daemon.process_click_result(ClickResult::TripleClick);

    assert_eq!(daemon.stats.click_count, 1);
    assert_eq!(action, None);
}

#[test]
fn test_process_click_result_none_does_nothing() {
    let mut daemon = Daemon::new(Config::default());
    let initial_clicks = daemon.stats.click_count;

    daemon.process_click_result(ClickResult::NoAction);

    assert_eq!(daemon.stats.click_count, initial_clicks);
}

#[test]
fn test_mic_mode_starts_with_timestamp() {
    let mut daemon = Daemon::new(Config::default());

    daemon.process_click_result(ClickResult::DoubleClick);

    let started = daemon.mic_mode_started().unwrap();
    let elapsed = daemon.now() - started;
    assert!(elapsed < 100 * MS);
}

#[test]
fn test_mic_mode_expiry_check_in_tick() {
    let mut config = Config::default();
    config.microphone.mode_duration = 1;

    let mut daemon = Daemon::new(config);
    let t0 = 10 * SEC;
    daemon.process_click_result_at(ClickResult::DoubleClick, t0);
    assert_eq!(daemon.control_mode(), ControlMode::Microphone);

    daemon.tick_at(t0 + 2 * SEC);

    assert_eq!(daemon.control_mode(), ControlMode::Volume);
    assert!(daemon.mic_mode_started().is_none());
}

#[test]
fn test_mic_mode_not_expired_yet() {
    let mut config = Config::default();
    config.microphone.mode_duration = 10;

    let mut daemon = Daemon::new(config);
    let t0 = daemon.now();
    daemon.process_click_result_at(ClickResult::DoubleClick, t0);

    daemon.tick_at(t0);

    assert_eq!(daemon.control_mode(), ControlMode::Microphone);
    assert!(daemon.mic_mode_started().is_some());
}

#[test]
fn test_button_down_state_tracking() {
    let mut daemon = Daemon::new(Config::default());
    assert!(!daemon.was_button_pressed());

    daemon.handle_button_state(true);
    assert!(daemon.was_button_pressed());

    daemon.handle_button_state(false);
    assert!(!daemon.was_button_pressed());
}

#[test]
fn test_repeated_same_state_no_action() {
    let mut daemon = Daemon::new(Config::default());

    daemon.handle_button_state(true);
    daemon.handle_button_state(true);
    daemon.handle_button_state(true);

    assert!(daemon.was_button_pressed());
}

#[test]
fn test_control_mode_accessor() {
    let mut daemon = Daemon::new(Config::default());

    assert_eq!(daemon.control_mode(), ControlMode::Volume);

    daemon.switch_mode(ControlMode::Microphone);
    assert_eq!(daemon.control_mode(), ControlMode::Microphone);
}

#[test]
fn test_is_connected_accessor() {
    let mut daemon = Daemon::new(Config::default());

    assert!(!daemon.is_connected());

    daemon.set_connected(true);
    assert!(daemon.is_connected());
}

#[test]
fn test_config_reload_sighup_simulation() {
    let mut daemon = Daemon::new(Config::default());

    assert_eq!(daemon.config().volume.step_min, 2);

    let mut new_config = Config::default();
    new_config.volume.step_min = 10;
    new_config.volume.step_max = 20;

    daemon.reload_config(new_config);

    assert_eq!(daemon.config().volume.step_min, 10);
    assert_eq!(daemon.config().volume.step_max, 20);
}

#[test]
fn test_reload_updates_click_detector_config() {
    let mut daemon = Daemon::new(Config::default());

    let previous_double_click = daemon.config().interaction.double_click_ms;

    let mut new_config = Config::default();
    new_config.interaction.double_click_ms = previous_double_click + 100;
    daemon.reload_config(new_config);

    assert_eq!(daemon.config().interaction.double_click_ms, previous_double_click + 100);
}

#[test]
fn test_reload_updates_rotation_processor_config() {
    let mut daemon = Daemon::new(Config::default());

    let mut new_config = Config::default();
    new_config.sensitivity.multiplier = "2.0".to_string();
    new_config.sensitivity.dead_zone = 10;
    daemon.reload_config(new_config);

    assert_eq!(daemon.config().sensitivity.multiplier, "2.0");
    assert_eq!(daemon.config().sensitivity.dead_zone, 10);
}

#[test]
fn test_button_state_reset_on_mode_switch() {
    let mut daemon = Daemon::new(Config::default());

    daemon.handle_button_state(true);

    daemon.switch_mode(ControlMode::Microphone);

    assert!(daemon.was_button_pressed());
}

#[test]
fn test_device_disconnect_sets_connected_false() {
    let mut daemon = Daemon::new(Config::default());

    assert!(!daemon.is_connected());

    daemon.set_connected(true);
    assert!(daemon.is_connected());

    daemon.set_connected(false);
    assert!(!daemon.is_connected());
}

#[test]
fn test_device_reconnect_after_disconnect() {
    let mut daemon = Daemon::new(Config::default());

    daemon.set_connected(true);
    assert!(daemon.is_connected());

    daemon.set_connected(false);
    assert!(!daemon.is_connected());

    daemon.set_connected(true);
    assert!(daemon.is_connected());

    daemon.stats.rotation_count = 50;
    daemon.set_connected(false);
    daemon.set_connected(true);
    assert_eq!(daemon.stats.rotation_count, 50);
}

#[test]
fn test_config_reload_handles_invalid_gracefully() {
    let mut daemon = Daemon::new(Config::default());

    let config = Config::default();
    daemon.reload_config(config);

    assert_eq!(daemon.config().volume.step_min, 2);
}

#[test]
fn test_multiple_disconnect_reconnect_cycles() {
    let mut daemon = Daemon::new(Config::default());

    for cycle in 0..5 {
        daemon.set_connected(true);
        assert!(daemon.is_connected(), "Cycle {}: should be connected", cycle);

        daemon.stats.rotation_count += 10;

        daemon.set_connected(false);
        assert!(!daemon.is_connected(), "Cycle {}: should be disconnected", cycle);
    }

    assert_eq!(daemon.stats.rotation_count, 50);
}

#[test]
fn test_rotation_processing_after_reconnect() {
    let mut daemon = Daemon::new(Config::default());

    daemon.set_connected(true);
    handle_rotation(&mut daemon, 5);
    handle_rotation(&mut daemon, 5);

    daemon.set_connected(false);

    daemon.set_connected(true);

    handle_rotation(&mut daemon, 5);
    assert_eq!(daemon.stats.rotation_count, 3);
}

#[test]
fn test_click_detection_after_reconnect() {
    let mut daemon = Daemon::new(Config::default());

    daemon.set_connected(true);
    daemon.handle_button_state_at(true, 0);
    daemon.handle_button_state_at(false, 20 * MS);

    daemon.set_connected(false);
    daemon.set_connected(true);

    daemon.handle_button_state_at(true, 1000 * MS);
    daemon.handle_button_state_at(false, 1020 * MS);

    daemon.tick_at(1420 * MS);

    assert!(daemon.stats.click_count >= 1);
}

#[test]
fn test_mode_preserved_through_disconnect() {
    let mut daemon = Daemon::new(Config::default());

    daemon.switch_mode(ControlMode::Microphone);
    assert_eq!(daemon.control_mode(), ControlMode::Microphone);

    daemon.set_connected(false);

    assert_eq!(daemon.control_mode(), ControlMode::Microphone);

    daemon.set_connected(true);

    assert_eq!(daemon.control_mode(), ControlMode::Microphone);
}

#[test]
fn test_button_state_cleared_on_disconnect() {
    let mut daemon = Daemon::new(Config::default());

    daemon.handle_button_state(true);
    assert!(daemon.was_button_pressed());

    daemon.set_connected(false);

    assert!(daemon.was_button_pressed());

    daemon.set_connected(true);
    daemon.handle_button_state(false);
    assert!(!daemon.was_button_pressed());
}

#[test]
fn test_stats_not_corrupted_by_errors() {
    let mut daemon = Daemon::new(Config::default());

    daemon.stats.rotation_count = u64::MAX - 10;
    daemon.stats.click_count = 1000;

    daemon.set_connected(false);
    daemon.set_connected(true);
    daemon.set_connected(false);

    assert_eq!(daemon.stats.rotation_count, u64::MAX - 10);
    assert_eq!(daemon.stats.click_count, 1000);

    daemon.stats.rotation_count = daemon.stats.rotation_count.wrapping_add(1);
    assert_eq!(daemon.stats.rotation_count, u64::MAX - 9);
}

#[test]
fn test_config_reload_during_error_state() {
    let mut daemon = Daemon::new(Config::default());

    daemon.set_connected(false);

    let mut new_config = Config::default();
    new_config.volume.step_max = 15;
    daemon.reload_config(new_config);

    assert_eq!(daemon.config().volume.step_max, 15);
}

// Scenarios and laws of the daemon, on explicit clock readings.

#[test]
fn test_full_double_click_sequence() {
    let mut daemon = Daemon::new(Config::default());
    daemon.handle_button_state_at(true, 0);
    daemon.handle_button_state_at(false, 30 * MS);
    daemon.handle_button_state_at(true, 80 * MS);
    daemon.handle_button_state_at(false, 110 * MS);
    assert_eq!(daemon.control_mode(), ControlMode::Microphone);
    assert_eq!(daemon.mic_mode_started(), Some(110 * MS));
    assert_eq!(daemon.stats.click_count, 1);
    assert_eq!(daemon.stats.mode_switches, 1);
}

#[test]
fn single_click_toggles_mute_after_window() {
    let mut daemon = Daemon::new(Config::default());
    let mut p = MockPlatform::new();
    perform(&mut p, daemon.handle_button_state_at(true, 0));
    perform(&mut p, daemon.handle_button_state_at(false, 50 * MS));
    assert_eq!(daemon.tick_at(300 * MS), None);
    let a = daemon.tick_at(450 * MS);
    assert_eq!(a, Some(PlatformAction::ToggleMute));
    perform(&mut p, a);
    assert!(p.is_muted().unwrap());
    assert_eq!(daemon.stats.click_count, 1);
}

#[test]
fn single_click_in_mic_mode_toggles_mic_mute() {
    let mut daemon = Daemon::new(Config::default());
    daemon.process_click_result_at(ClickResult::DoubleClick, 0);
    daemon.handle_button_state_at(true, SEC);
    daemon.handle_button_state_at(false, SEC + 50 * MS);
    assert_eq!(daemon.tick_at(2 * SEC), Some(PlatformAction::ToggleMicMute));
}

#[test]
fn triple_click_sends_configured_media_key() {
    let mut config = Config::default();
    config.media_control.triple_click_action = "next_track".to_string();
    let mut daemon = Daemon::new(config);
    assert_eq!(
        daemon.process_click_result_at(ClickResult::TripleClick, 0),
        Some(PlatformAction::SendMediaKey(MediaKey::NextTrack))
    );
    let mut config = Config::default();
    config.media_control.triple_click_action = "whatever".to_string();
    let mut daemon = Daemon::new(config);
    assert_eq!(
        daemon.process_click_result_at(ClickResult::TripleClick, 0),
        Some(PlatformAction::SendMediaKey(MediaKey::PlayPause))
    );
}

#[test]
fn long_press_holds_f15() {
    let mut daemon = Daemon::new(Config::default());
    assert_eq!(daemon.handle_button_state_at(true, 0), None);
    assert_eq!(daemon.tick_at(999 * MS), None);
    assert_eq!(daemon.tick_at(1000 * MS), Some(PlatformAction::KeyDown(Key::F15)));
    assert!(daemon.is_long_pressing());
    assert_eq!(daemon.accumulate_rotation(5), None);
    assert_eq!(daemon.stats.rotation_count, 0);
    assert_eq!(
        daemon.handle_button_state_at(false, 1500 * MS),
        Some(PlatformAction::KeyUp(Key::F15))
    );
    assert_eq!(daemon.stats.click_count, 0);
}

#[test]
fn rotation_steps_by_speed_and_clamps() {
    let mut daemon = Daemon::new(Config::default());
    let mut p = MockPlatform::new().with_volume(50);
    rotate_at(&mut daemon, &mut p, 1, 0);
    assert_eq!(p.get_volume().unwrap(), 52);
    // 10 ms later: fast rotation, the largest step
    rotate_at(&mut daemon, &mut p, 1, 10 * MS);
    assert_eq!(p.get_volume().unwrap(), 60);
    // 2 s later: slow rotation, the smallest step, downward
    rotate_at(&mut daemon, &mut p, -1, 2010 * MS);
    assert_eq!(p.get_volume().unwrap(), 58);
    let mut p = MockPlatform::new().with_volume(99);
    rotate_at(&mut daemon, &mut p, 1, 2020 * MS);
    assert_eq!(p.get_volume().unwrap(), 100);
    // at the top nothing more is set
    rotate_at(&mut daemon, &mut p, 1, 2030 * MS);
    assert_eq!(p.volume_history(), vec![100]);
    assert_eq!(daemon.stats.rotation_count, 5);
}

#[test]
fn rotation_in_mic_mode_sets_mic_volume_and_restarts_timer() {
    let mut daemon = Daemon::new(Config::default());
    daemon.process_click_result_at(ClickResult::DoubleClick, 0);
    let mut p = MockPlatform::new().with_mic_volume(40);
    rotate_at(&mut daemon, &mut p, -1, 5 * SEC);
    assert_eq!(p.mic_volume_history(), vec![37]);
    assert!(p.volume_history().is_empty());
    assert_eq!(daemon.mic_mode_started(), Some(5 * SEC));
    // the mode lasts from the restart
    daemon.tick_at(14 * SEC);
    assert_eq!(daemon.control_mode(), ControlMode::Microphone);
    daemon.tick_at(15 * SEC);
    assert_eq!(daemon.control_mode(), ControlMode::Volume);
}

#[test]
fn unreadable_volume_sets_nothing_but_counts() {
    let mut daemon = Daemon::new(Config::default());
    let mut p = MockPlatform::new();
    p.set_force_error(true);
    rotate_at(&mut daemon, &mut p, 3, 0);
    assert_eq!(daemon.stats.rotation_count, 1);
    assert_eq!(daemon.last_rotation(), Some(0));
}

#[test]
fn dead_zone_holds_rotation_back() {
    let mut config = Config::default();
    config.sensitivity.dead_zone = 2;
    config.sensitivity.invert = true;
    let mut daemon = Daemon::new(config);
    assert_eq!(daemon.accumulate_rotation(1), None);
    assert_eq!(daemon.accumulate_rotation(1), None);
    assert_eq!(daemon.accumulate_rotation(1), Some(-3));
    assert_eq!(daemon.pending_rotation(), 0);
}

#[test]
fn set_connected_reports_changes() {
    let mut daemon = Daemon::new(Config::default());
    assert!(!daemon.set_connected(false));
    assert!(daemon.set_connected(true));
    assert!(!daemon.set_connected(true));
    assert!(daemon.set_connected(false));
}

#[test]
fn stats_room_check() {
    let mut stats = DaemonStats::default();
    assert!(stats.has_room());
    stats.click_count = u64::MAX;
    assert!(!stats.has_room());
}

#[test]
fn test_button_press_triggers_click_detector() {
    let mut daemon = Daemon::new(Config::default());

    daemon.handle_button_state_at(true, 0);
    daemon.handle_button_state_at(false, 0);

    daemon.tick_at(500 * MS);

    assert_eq!(daemon.stats.click_count, 1);
}

#[test]
fn three_quick_clicks_enter_mic_mode_then_send_media_key() {
    let mut config = Config::default();
    config.media_control.enabled = true;
    let mut daemon = Daemon::new(config);

    let mut actions = Vec::new();
    for i in 0..3u64 {
        actions.push(daemon.handle_button_state_at(true, i * 50 * MS));
        actions.push(daemon.handle_button_state_at(false, i * 50 * MS));
    }

    assert_eq!(actions[3], None);
    assert_eq!(daemon.control_mode(), ControlMode::Microphone);
    assert_eq!(actions[5], Some(PlatformAction::SendMediaKey(MediaKey::PlayPause)));
    // the double click and the triple click are each counted
    assert_eq!(daemon.stats.click_count, 2);
}

#[test]
fn test_daemon_stats_accumulate() {
    let mut daemon = Daemon::new(Config::default());

    for i in 0..5u64 {
        let t = i * 500 * MS;
        daemon.handle_button_state_at(true, t);
        daemon.handle_button_state_at(false, t);
        daemon.tick_at(t + 500 * MS);
    }

    assert_eq!(daemon.stats.click_count, 5);
}
