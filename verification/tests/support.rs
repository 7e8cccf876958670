use surface_dial::logging::{
    colors_supported, console_line, file_line, max_size_bytes, needs_rotation, parse_level, rotated_file_name,
    rotation_shifts, LogLevel,
};
use surface_dial::pidfile::{
    daemon_running, existing_pid_file_action, parse_pid_contents, trim_str, PidFileError,
    PidFileFound,
};
use surface_dial::text::{format_hex4, format_i32, format_u64, pad_right_exec, parse_i32, parse_u32};

#[test]
fn test_parse_level() {
    assert_eq!(parse_level("error"), LogLevel::Error);
    assert_eq!(parse_level("WARN"), LogLevel::Warn);
    assert_eq!(parse_level("Info"), LogLevel::Info);
    assert_eq!(parse_level("debug"), LogLevel::Debug);
    assert_eq!(parse_level("trace"), LogLevel::Trace);
    assert_eq!(parse_level("invalid"), LogLevel::Info);
}

#[test]
fn test_read_pid_trims_whitespace() {
    assert_eq!(parse_pid_contents("  54321  \n\n".to_string()).unwrap(), 54321);
}

#[test]
fn test_invalid_pid_file_contents() {
    let result = parse_pid_contents("not-a-number\n".to_string());
    assert!(matches!(result, Err(PidFileError::InvalidContents(_))));
    match result {
        Err(PidFileError::InvalidContents(c)) => assert_eq!(c, "not-a-number\n"),
        other => panic!("{:?}", other),
    }
}

#[test]
fn test_empty_pid_file() {
    assert!(matches!(parse_pid_contents(String::new()), Err(PidFileError::InvalidContents(_))));
}

#[test]
fn pid_contents_edge_cases() {
    assert_eq!(parse_pid_contents("42\n".to_string()).unwrap(), 42);
    assert_eq!(parse_pid_contents("\t+7\r\n".to_string()).unwrap(), 7);
    assert_eq!(parse_pid_contents("4294967295".to_string()).unwrap(), u32::MAX);
    assert!(parse_pid_contents("4294967296".to_string()).is_err());
    assert!(parse_pid_contents("-1".to_string()).is_err());
    assert!(parse_pid_contents("1 2".to_string()).is_err());
    assert_eq!(trim_str("\u{a0} a b \u{2003}"), "a b");
    assert_eq!(trim_str("   "), "");
}

#[test]
fn rotation_helpers() {
    assert_eq!(max_size_bytes(10), 10 * 1024 * 1024);
    assert!(needs_rotation(90, 11, 100));
    assert!(!needs_rotation(90, 10, 100));
    assert_eq!(rotated_file_name("daemon.log", 3), "daemon.log.3");
    assert_eq!(rotation_shifts(4), vec![(3, 4), (2, 3), (1, 2)]);
    assert!(rotation_shifts(1).is_empty());
    assert!(rotation_shifts(0).is_empty());
}

#[test]
fn decimal_text_round_trips() {
    for v in [0i32, 7, -7, 10, 1234, i32::MAX, i32::MIN] {
        assert_eq!(format_i32(v), v.to_string());
        assert_eq!(parse_i32(&format_i32(v)), Some(v));
    }
    assert_eq!(format_u64(u64::MAX), u64::MAX.to_string());
    assert_eq!(parse_u32("+0012"), Some(12));
    assert_eq!(parse_u32(""), None);
    assert_eq!(parse_i32("-"), None);
    assert_eq!(parse_i32("2147483648"), None);
}

#[test]
fn hex_and_padding() {
    assert_eq!(format_hex4(0x045E), "045E");
    assert_eq!(format_hex4(0x091B), "091B");
    assert_eq!(format_hex4(0xFFFF), "FFFF");
    assert_eq!(format_hex4(0), "0000");
    assert_eq!(pad_right_exec("OSD", 6), "OSD   ");
    assert_eq!(pad_right_exec("Battery Monitor", 14), "Battery Monitor");
}

#[test]
fn log_lines() {
    assert_eq!(
        file_line("2024-01-01T00:00:00.000+0000", LogLevel::Info, "daemon", "started"),
        "[2024-01-01T00:00:00.000+0000] [INFO ] [daemon] started\n"
    );
    assert_eq!(
        console_line("t", LogLevel::Error, "x", "boom", true),
        "\x1b[31m[t] [ERROR] [x] boom\x1b[0m\n"
    );
    assert_eq!(console_line("t", LogLevel::Warn, "x", "m", false), "[t] [WARN ] [x] m\n");
}

#[test]
fn color_support_from_environment() {
    assert!(!colors_supported(true, Some("xterm"), true));
    assert!(colors_supported(false, Some("xterm-256color"), false));
    assert!(!colors_supported(false, Some("dumb"), false));
    assert!(!colors_supported(false, Some(""), false));
    assert!(!colors_supported(false, None, false));
    assert!(colors_supported(false, None, true));
}

#[test]
fn existing_pid_file_decides_create() {
    assert!(matches!(existing_pid_file_action(PidFileFound::Nothing), Ok(false)));
    assert!(matches!(existing_pid_file_action(PidFileFound::Invalid), Ok(true)));
    assert!(matches!(existing_pid_file_action(PidFileFound::Pid(42, false)), Ok(true)));
    assert!(matches!(
        existing_pid_file_action(PidFileFound::Pid(42, true)),
        Err(PidFileError::AlreadyRunning(42))
    ));
}

#[test]
fn daemon_runs_only_with_live_recorded_process() {
    assert!(daemon_running(PidFileFound::Pid(7, true)));
    assert!(!daemon_running(PidFileFound::Pid(7, false)));
    assert!(!daemon_running(PidFileFound::Invalid));
    assert!(!daemon_running(PidFileFound::Nothing));
}
