use surface_dial::cli::config_cmd::{
    describe_error, get_failure, reset_config_in, set_report, CommandReport, GetArgs, ResetArgs,
    SetArgs,
};
use surface_dial::cli::status_cmd::{
    current_state, device_status_from, status_check_exit_code, status_exit_code, get_feature_status, status_report_lines, AudioDeviceInfo,
    DaemonStatus, DeviceEntry, FullStatus, SensitivityStatus,
};
use surface_dial::cli::{exit_codes, Cli, ConfigCmd, DaemonCmd, Output, StatusCmd};
use surface_dial::config::{Config, ConfigError};

#[test]
fn test_config_cmd_variants() {
    let cmds = vec![
        ConfigCmd::Show,
        ConfigCmd::Get(GetArgs { key: "test".to_string() }),
        ConfigCmd::SetValue(SetArgs {
            key: "test".to_string(),
            value: "value".to_string(),
            dry_run: false,
        }),
        ConfigCmd::Reset(ResetArgs { section: None, force: false }),
        ConfigCmd::Path,
    ];

    assert_eq!(cmds.len(), 5);
}

#[test]
fn test_get_args() {
    let args = GetArgs { key: "volume.step_min".to_string() };
    assert_eq!(args.key, "volume.step_min");
}

#[test]
fn test_set_args() {
    let args = SetArgs { key: "volume.step_max".to_string(), value: "10".to_string(), dry_run: true };
    assert_eq!(args.key, "volume.step_max");
    assert_eq!(args.value, "10");
    assert!(args.dry_run);
}

#[test]
fn test_reset_args() {
    let args = ResetArgs { section: Some("volume".to_string()), force: true };
    assert_eq!(args.section, Some("volume".to_string()));
    assert!(args.force);
}

#[test]
fn test_daemon_cmd_default() {
    let cmd = DaemonCmd::default();
    assert!(cmd.config.is_none());
    assert!(!cmd.foreground);
    assert!(cmd.log_level.is_none());
    assert!(!cmd.no_log_file);
}

#[test]
fn test_daemon_cmd_with_options() {
    let cmd = DaemonCmd {
        config: Some(std::path::PathBuf::from("/custom/config.toml")),
        foreground: true,
        log_level: Some("debug".to_string()),
        no_log_file: true,
    };

    assert_eq!(cmd.config, Some(std::path::PathBuf::from("/custom/config.toml")));
    assert!(cmd.foreground);
    assert_eq!(cmd.log_level, Some("debug".to_string()));
    assert!(cmd.no_log_file);
}

#[test]
fn test_status_cmd_default() {
    let cmd = StatusCmd::default();
    assert!(!cmd.detailed);
    assert!(!cmd.check);
    assert!(!cmd.watch);
}

#[test]
fn test_current_state_default() {
    let state = current_state(None, None, None, None);
    assert_eq!(state.mode, "Volume");
}

#[test]
fn test_get_feature_status() {
    let config = Config::default();
    let features = get_feature_status(&config);

    assert!(features.osd.enabled);
    assert!(features.battery_monitor.enabled);
    assert!(!features.audio_feedback.enabled);
}

// Scenarios of the command line and status report.

fn cli(verbose: u8, quiet: bool) -> Cli {
    Cli { verbose, json: false, quiet, command: None }
}

#[test]
fn log_level_follows_verbosity() {
    assert_eq!(cli(0, false).log_level(), "info");
    assert_eq!(cli(1, false).log_level(), "debug");
    assert_eq!(cli(2, false).log_level(), "trace");
    assert_eq!(cli(3, false).log_level(), "trace");
    assert_eq!(cli(2, true).log_level(), "error");
}

#[test]
fn exit_codes_and_output() {
    assert_eq!(
        (exit_codes::SUCCESS, exit_codes::ERROR, exit_codes::INVALID_ARGS, exit_codes::DEVICE_NOT_FOUND),
        (0, 1, 2, 3)
    );
    assert!(Output::new(true).json);
    assert!(!Output::new(false).json);
}

#[test]
fn daemon_overrides_apply_to_config() {
    let mut config = Config::default();
    let cmd = DaemonCmd { config: None, foreground: false, log_level: Some("trace".to_string()), no_log_file: true };
    cmd.apply_overrides(&mut config);
    assert_eq!(config.daemon.log_level, "trace");
    assert!(!config.daemon.log_file_enabled);
    let mut config = Config::default();
    DaemonCmd::default().apply_overrides(&mut config);
    assert_eq!(config.daemon.log_level, "info");
    assert!(config.daemon.log_file_enabled);
}

#[test]
fn feature_details_from_config() {
    let config = Config::default();
    let f = get_feature_status(&config);
    assert_eq!(f.osd.detail.as_deref(), Some("center-bottom, 1500ms"));
    assert_eq!(f.battery_monitor.detail.as_deref(), Some("poll: 300s"));
    assert_eq!(f.system_tray.detail, None);
    assert_eq!(f.media_control.detail.as_deref(), Some("play_pause"));
    assert_eq!(f.event_hooks.detail.as_deref(), Some("0 webhooks"));
    assert_eq!(f.device_switching.detail.as_deref(), Some("long_press_rotate"));
}

fn entry(vendor_id: u16, product_id: u16, name: Option<&str>, path: &str, n: i32) -> DeviceEntry {
    DeviceEntry {
        vendor_id,
        product_id,
        product_name: name.map(|s| s.to_string()),
        path: path.to_string(),
        interface_number: n,
    }
}

#[test]
fn device_status_counts_dial_interfaces() {
    let entries = vec![
        entry(0x1234, 0x0001, Some("Keyboard"), "/dev/a", 0),
        entry(0x045E, 0x091B, None, "/dev/b", 1),
        entry(0x045E, 0x091B, Some("Surface Dial System Multi Axis"), "/dev/c", 2),
        entry(0x045E, 0x091C, Some("Other"), "/dev/d", 3),
    ];
    let d = device_status_from(&entries, true);
    assert!(d.connected);
    assert_eq!(d.device_count, 2);
    assert_eq!(d.vendor_id.as_deref(), Some("045E"));
    assert_eq!(d.product_id.as_deref(), Some("091B"));
    assert_eq!(d.product_name.as_deref(), Some("Surface Dial System Multi Axis"));
    assert_eq!(d.interfaces.len(), 2);
    assert_eq!(d.interfaces[0].path, "/dev/b");
    assert_eq!(d.interfaces[1].interface_number, 2);
    let d = device_status_from(&entries, false);
    assert!(d.interfaces.is_empty());
    let d = device_status_from(&vec![entries[0].clone()], true);
    assert!(!d.connected);
    assert_eq!(d.device_count, 0);
    assert!(d.vendor_id.is_none() && d.product_id.is_none() && d.product_name.is_none());
}

fn sample_status(connected: bool) -> FullStatus {
    let entries = if connected {
        vec![entry(0x045E, 0x091B, Some("Surface Dial"), "/dev/hidraw3", 0)]
    } else {
        vec![]
    };
    let config = Config::default();
    FullStatus {
        daemon: DaemonStatus { running: false, pid: None, uptime_seconds: None, log_level: "info".to_string() },
        device: device_status_from(&entries, true),
        state: current_state(Some(65), Some(true), Some(80), Some(false)),
        features: get_feature_status(&config),
        sensitivity: SensitivityStatus {
            dead_zone: 0,
            multiplier: "1.0".to_string(),
            invert: false,
            preset: "default".to_string(),
        },
        audio_devices: vec![AudioDeviceInfo {
            name: "Speakers".to_string(),
            device_type: "speakers".to_string(),
            is_default: true,
        }],
    }
}

const BAR: &str = "\x1b[36m│\x1b[0m";

#[test]
fn status_report_when_connected() {
    let lines = status_report_lines(&sample_status(true), true);
    assert!(lines[0].starts_with("\x1b[36m╭─ Surface Dial Status "));
    assert_eq!(lines[1], BAR);
    assert_eq!(lines[2], format!("{BAR}  \x1b[1mDevice\x1b[0m"));
    assert_eq!(lines[3], format!("{BAR}    \x1b[32m✓\x1b[0m Surface Dial connected (1 interface)"));
    assert_eq!(lines[4], format!("{BAR}    • VID:PID 045E:091B"));
    assert_eq!(lines[5], format!("{BAR}    • Product: Surface Dial"));
    assert!(lines.contains(&format!("{BAR}    • Volume: 65% \x1b[31m(muted)\x1b[0m")));
    assert!(lines.contains(&format!("{BAR}    • Mic: 80%")));
    assert!(lines.contains(&format!("{BAR}    \x1b[32m✓\x1b[0m OSD            \x1b[2m(center-bottom, 1500ms)\x1b[0m")));
    assert!(lines.contains(&format!("{BAR}    \x1b[31m✗\x1b[0m Audio Feedback \x1b[2m(disabled)\x1b[0m")));
    assert!(lines.contains(&format!("{BAR}    \x1b[32m✓\x1b[0m Battery Monitor \x1b[2m(poll: 300s)\x1b[0m")));
    assert!(lines.contains(&format!("{BAR}    • Multiplier: 1.0x")));
    assert!(lines.contains(&format!("{BAR}    • Invert: No")));
    assert!(lines.contains(&format!("{BAR}    • speakers: Speakers \x1b[32m(default)\x1b[0m")));
    assert!(lines.contains(&format!("{BAR}    • Interface 0: /dev/hidraw3")));
    assert!(lines.last().unwrap().starts_with("\x1b[36m╰"));
}

#[test]
fn status_report_when_disconnected() {
    let lines = status_report_lines(&sample_status(false), false);
    assert_eq!(lines[3], format!("{BAR}    \x1b[31m✗\x1b[0m Not connected"));
    assert_eq!(lines[5], format!("{BAR}    Make sure the dial is:"));
    assert!(!lines.iter().any(|l| l.contains("Audio Devices")));
    assert!(!lines.iter().any(|l| l.contains("Device Interfaces")));
}

#[test]
fn config_command_reports() {
    let mut config = Config::default();
    let result = config.set_value("volume.step_min", "5");
    match set_report("volume.step_min", "5", false, &result) {
        CommandReport::Done { message, save } => {
            assert_eq!(message, "Set volume.step_min = 5");
            assert!(save);
        }
        _ => panic!(),
    }
    match set_report("volume.step_min", "5", true, &result) {
        CommandReport::Done { message, save } => {
            assert_eq!(message, "Would set volume.step_min = 5");
            assert!(!save);
        }
        _ => panic!(),
    }
    let result = config.set_value("volume.step_min", "0");
    match set_report("volume.step_min", "0", false, &result) {
        CommandReport::Failed { code, message } => {
            assert_eq!(code, exit_codes::INVALID_ARGS);
            assert_eq!(
                message,
                "Failed to set 'volume.step_min': Invalid value for volume.step_min: must be between 1 and 20, got 0"
            );
        }
        _ => panic!(),
    }
    let e = ConfigError::UnknownKey("nope".to_string());
    assert_eq!(describe_error(&e), "Unknown config key: nope");
    assert_eq!(get_failure("nope", &e), "Failed to get 'nope': Unknown config key: nope");

    match reset_config_in(&mut config, Some("volume"), false) {
        CommandReport::Failed { code, message } => {
            assert_eq!(code, exit_codes::INVALID_ARGS);
            assert_eq!(message, "Reset requires --force flag to confirm");
        }
        _ => panic!(),
    }
    assert_eq!(config.volume.step_min, 5);
    match reset_config_in(&mut config, Some("volume"), true) {
        CommandReport::Done { message, save } => {
            assert_eq!(message, "Reset section 'volume' to defaults");
            assert!(save);
        }
        _ => panic!(),
    }
    assert_eq!(config.volume.step_min, 2);
    match reset_config_in(&mut config, Some("nowhere"), true) {
        CommandReport::Failed { message, .. } => {
            assert!(message.starts_with("Failed to reset section 'nowhere': Unknown config key: unknown section 'nowhere'"));
        }
        _ => panic!(),
    }
    config.osd.enabled = false;
    match reset_config_in(&mut config, None, true) {
        CommandReport::Done { message, .. } => assert_eq!(message, "Reset all configuration to defaults"),
        _ => panic!(),
    }
    assert!(config.osd.enabled);
}

#[test]
fn status_exit_code_follows_connection() {
    assert_eq!(status_exit_code(true), exit_codes::SUCCESS);
    assert_eq!(status_exit_code(false), exit_codes::DEVICE_NOT_FOUND);
    assert_eq!(status_exit_code(false), 3);
}

#[test]
fn status_check_exit_code_follows_daemon() {
    assert_eq!(status_check_exit_code(true), 0);
    assert_eq!(status_check_exit_code(false), 1);
    assert_eq!(status_check_exit_code(false), exit_codes::ERROR);
}
