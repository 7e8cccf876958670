use surface_dial::config::{Config, ConfigError};

#[test]
fn test_default_config() {
    let config = Config::default();
    assert_eq!(config.volume.step_min, 2);
    assert_eq!(config.volume.step_max, 8);
    assert_eq!(config.volume.curve, "logarithmic");
    assert_eq!(config.interaction.double_click_ms, 400);
    assert_eq!(config.interaction.long_press_ms, 1000);
    assert!(config.osd.enabled);
    assert!(!config.audio_feedback.enabled);
}

#[test]
fn test_config_keys_count() {
    let keys = Config::keys();
    assert!(keys.len() >= 45, "Expected at least 45 config keys, got {}", keys.len());
}

#[test]
fn test_get_all_keys() {
    let config = Config::default();
    for key in Config::keys() {
        let result = config.get(key);
        assert!(result.is_ok(), "Failed to get key '{}': {:?}", key, result);
    }
}

#[test]
fn test_set_int_valid() {
    let mut config = Config::default();
    assert!(config.set("volume.step_min", "5").is_ok());
    assert_eq!(config.volume.step_min, 5);
}

#[test]
fn test_set_int_below_range() {
    let mut config = Config::default();
    let result = config.set("volume.step_min", "0");
    assert!(result.is_err());
    match result {
        Err(ConfigError::InvalidValue { key, .. }) => assert_eq!(key, "volume.step_min"),
        _ => panic!("Expected InvalidValue error"),
    }
}

#[test]
fn test_set_int_above_range() {
    let mut config = Config::default();
    let result = config.set("volume.step_min", "21");
    assert!(result.is_err());
}

#[test]
fn test_set_bool_true_variants() {
    let mut config = Config::default();
    for v in &["true", "1", "yes", "on", "True", "TRUE"] {
        assert!(config.set("sensitivity.invert", v).is_ok());
        assert!(config.sensitivity.invert);
    }
}

#[test]
fn test_set_bool_false_variants() {
    let mut config = Config::default();
    config.sensitivity.invert = true;
    for v in &["false", "0", "no", "off", "False", "FALSE"] {
        config.sensitivity.invert = true;
        assert!(config.set("sensitivity.invert", v).is_ok());
        assert!(!config.sensitivity.invert);
    }
}

#[test]
fn test_set_enum_valid() {
    let mut config = Config::default();
    assert!(config.set("volume.curve", "linear").is_ok());
    assert_eq!(config.volume.curve, "linear");
    assert!(config.set("volume.curve", "logarithmic").is_ok());
    assert!(config.set("volume.curve", "exponential").is_ok());
}

#[test]
fn test_set_enum_invalid() {
    let mut config = Config::default();
    let result = config.set("volume.curve", "invalid_curve");
    assert!(result.is_err());
}

#[test]
fn test_unknown_key() {
    let mut config = Config::default();
    let result = config.set("nonexistent.key", "value");
    assert!(matches!(result, Err(ConfigError::UnknownKey(_))));

    let result = config.get("nonexistent.key");
    assert!(matches!(result, Err(ConfigError::UnknownKey(_))));
}

#[test]
fn test_osd_position_enum() {
    let mut config = Config::default();
    let positions =
        ["center-bottom", "center", "top-right", "top-left", "bottom-right", "bottom-left"];
    for pos in positions {
        assert!(config.set("osd.position", pos).is_ok());
        assert_eq!(config.osd.position, pos);
    }
}

#[test]
fn test_log_level_enum() {
    let mut config = Config::default();
    let levels = ["error", "warn", "info", "debug", "trace"];
    for level in levels {
        assert!(config.set("daemon.log_level", level).is_ok());
        assert_eq!(config.daemon.log_level, level);
    }
}

#[test]
fn test_interaction_timing_ranges() {
    let mut config = Config::default();

    assert!(config.set("interaction.double_click_ms", "100").is_ok());
    assert!(config.set("interaction.double_click_ms", "800").is_ok());
    assert!(config.set("interaction.double_click_ms", "99").is_err());
    assert!(config.set("interaction.double_click_ms", "801").is_err());

    assert!(config.set("interaction.triple_click_ms", "200").is_ok());
    assert!(config.set("interaction.triple_click_ms", "1000").is_ok());
    assert!(config.set("interaction.triple_click_ms", "199").is_err());

    assert!(config.set("interaction.long_press_ms", "500").is_ok());
    assert!(config.set("interaction.long_press_ms", "3000").is_ok());
    assert!(config.set("interaction.long_press_ms", "499").is_err());
}

#[test]
fn test_battery_warning_thresholds() {
    let config = Config::default();
    assert_eq!(config.battery.warning_thresholds, vec![20, 10, 5]);
}

#[test]
fn test_events_scripts_dir() {
    let mut config = Config::default();
    assert!(config.events.scripts_dir.is_none());
    assert_eq!(config.get("events.scripts_dir").unwrap(), "");

    assert!(config.set("events.scripts_dir", "/path/to/scripts").is_ok());
    assert_eq!(config.events.scripts_dir, Some("/path/to/scripts".to_string()));
    assert_eq!(config.get("events.scripts_dir").unwrap(), "/path/to/scripts");

    assert!(config.set("events.scripts_dir", "").is_ok());
    assert!(config.events.scripts_dir.is_none());
}

#[test]
fn test_validate_defaults_pass() {
    let config = Config::default();
    let errors = config.validate();
    assert!(errors.is_empty(), "Default config should be valid: {:?}", errors);
}

#[test]
fn test_validate_step_min_greater_than_max() {
    let mut config = Config::default();
    config.volume.step_min = 10;
    config.volume.step_max = 5;

    let errors = config.validate();
    assert!(!errors.is_empty());
    assert!(errors[0].contains("volume.step_min"));
}

#[test]
fn test_validate_fast_ms_not_less_than_slow_ms() {
    let mut config = Config::default();
    config.acceleration.fast_ms = 500;
    config.acceleration.slow_ms = 100;

    let errors = config.validate();
    assert!(!errors.is_empty());
    assert!(errors[0].contains("acceleration.fast_ms"));
}

#[test]
fn test_validate_interaction_timing_order() {
    let mut config = Config::default();
    config.interaction.double_click_ms = 800;
    config.interaction.triple_click_ms = 600;

    let errors = config.validate();
    assert!(!errors.is_empty());
    assert!(errors.iter().any(|e| e.contains("double_click_ms")));
}

#[test]
fn test_is_valid_convenience() {
    let config = Config::default();
    assert!(config.is_valid());

    let mut invalid = Config::default();
    invalid.volume.step_min = 20;
    invalid.volume.step_max = 1;
    assert!(!invalid.is_valid());
}

#[test]
fn test_keys_count_matches_expected() {
    let keys = Config::keys();
    assert_eq!(keys.len(), 52, "Expected 52 config keys, got {}", keys.len());
}

#[test]
fn test_validate_catches_invalid_enums() {
    let mut config = Config::default();

    config.volume.curve = "invalid_curve".to_string();
    let errors = config.validate();
    assert!(errors.iter().any(|e| e.contains("volume.curve")), "Should catch invalid volume.curve");

    config = Config::default();
    config.osd.position = "middle-ish".to_string();
    let errors = config.validate();
    assert!(errors.iter().any(|e| e.contains("osd.position")), "Should catch invalid osd.position");

    config = Config::default();
    config.daemon.log_level = "verbose".to_string();
    let errors = config.validate();
    assert!(
        errors.iter().any(|e| e.contains("daemon.log_level")),
        "Should catch invalid daemon.log_level"
    );

    config = Config::default();
    config.media_control.triple_click_action = "unknown_action".to_string();
    let errors = config.validate();
    assert!(
        errors.iter().any(|e| e.contains("triple_click_action")),
        "Should catch invalid triple_click_action"
    );
}

#[test]
fn test_config_set_value() {
    let mut config = Config::default();

    config.set_value("volume.step_min", "5").unwrap();
    assert_eq!(config.volume.step_min, 5);

    config.set_value("volume.step_max", "15").unwrap();
    assert_eq!(config.volume.step_max, 15);

    config.set_value("media_control.enabled", "true").unwrap();
    assert!(config.media_control.enabled);

    config.set_value("volume.curve", "exponential").unwrap();
    assert_eq!(config.volume.curve, "exponential");
}

#[test]
fn test_config_set_value_invalid() {
    let mut config = Config::default();

    let result = config.set_value("nonexistent.key", "5");
    assert!(result.is_err());

    let result = config.set_value("volume.step_min", "not_a_number");
    assert!(result.is_err());
}

#[test]
fn test_config_reset_section() {
    let mut config = Config::default();

    config.volume.step_min = 10;
    config.volume.step_max = 18;
    config.volume.curve = "custom".to_string();

    config.reset_section("volume").unwrap();

    let default_config = Config::default();
    assert_eq!(config.volume.step_min, default_config.volume.step_min);
    assert_eq!(config.volume.step_max, default_config.volume.step_max);
    assert_eq!(config.volume.curve, default_config.volume.curve);
}

#[test]
fn test_config_reset_invalid_section() {
    let mut config = Config::default();

    let result = config.reset_section("nonexistent");
    assert!(result.is_err());
}

#[test]
fn test_config_validation_on_set() {
    let mut config = Config::default();

    assert!(config.set_value("volume.step_min", "1").is_ok());
    assert!(config.set_value("volume.step_max", "20").is_ok());

    assert!(config.set_value("volume.step_min", "0").is_err());
    assert!(config.set_value("volume.step_max", "100").is_err());

    assert!(config.set_value("media_control.enabled", "true").is_ok());
    assert!(config.set_value("media_control.enabled", "false").is_ok());
}

#[test]
fn test_config_curve_values() {
    let mut config = Config::default();

    assert!(config.set_value("volume.curve", "linear").is_ok());
    assert_eq!(config.volume.curve, "linear");

    assert!(config.set_value("volume.curve", "logarithmic").is_ok());
    assert_eq!(config.volume.curve, "logarithmic");

    assert!(config.set_value("volume.curve", "exponential").is_ok());
    assert_eq!(config.volume.curve, "exponential");

    assert!(config.set_value("volume.curve", "custom").is_ok());
    assert_eq!(config.volume.curve, "custom");

    assert!(config.set_value("volume.curve", "invalid").is_err());
}

#[test]
fn test_config_validate_cross_field() {
    let mut config = Config::default();

    config.volume.step_min = 15;
    config.volume.step_max = 5;

    let errors = config.validate();
    assert!(!errors.is_empty());
    assert!(errors[0].contains("step_min"));
}

// Laws and edge cases of the library.

#[test]
fn every_key_reads_back_what_was_set() {
    let mut config = Config::default();
    for key in Config::keys() {
        let value = config.get(key).unwrap();
        match config.set(key, &value) {
            Ok(()) => {}
            Err(ConfigError::FloatSetting { .. }) => {
                config.set_float_text(key, &value).unwrap();
            }
            Err(e) => panic!("{} rejected {:?}: {:?}", key, value, e),
        }
        assert_eq!(config.get(key).unwrap(), value, "{}", key);
    }
}

#[test]
fn float_keys_are_handed_back() {
    let mut config = Config::default();
    match config.set("sensitivity.multiplier", "1.5") {
        Err(ConfigError::FloatSetting { key, value, min_tenths, max_tenths }) => {
            assert_eq!(key, "sensitivity.multiplier");
            assert_eq!(value, "1.5");
            assert_eq!((min_tenths, max_tenths), (1, 50));
        }
        other => panic!("{:?}", other),
    }
    config.set_float_text("sensitivity.multiplier", "1.5").unwrap();
    assert_eq!(config.get("sensitivity.multiplier").unwrap(), "1.5");
    assert_eq!(config.sensitivity.multiplier, "1.5");
}

#[test]
fn float_defaults_as_text() {
    let config = Config::default();
    assert_eq!(config.audio_feedback.volume, "0.3");
    assert_eq!(config.microphone.curve_steepness, "2");
    assert_eq!(config.osd.opacity, "0.9");
    assert!(config.audio_feedback.tick);
    assert!(config.audio_feedback.boundary);
}

#[test]
fn type_mismatch_names_the_kind() {
    let mut config = Config::default();
    match config.set("volume.step_min", "abc") {
        Err(ConfigError::TypeMismatch { key, expected, got }) => {
            assert_eq!(key, "volume.step_min");
            assert_eq!(expected, "integer");
            assert_eq!(got, "abc");
        }
        other => panic!("{:?}", other),
    }
}

#[test]
fn set_leaves_other_keys_alone() {
    let mut config = Config::default();
    let before: Vec<String> = Config::keys().iter().map(|k| config.get(k).unwrap()).collect();
    config.set("volume.step_max", "12").unwrap();
    for (i, key) in Config::keys().iter().enumerate() {
        if *key != "volume.step_max" {
            assert_eq!(config.get(key).unwrap(), before[i], "{}", key);
        }
    }
    assert_eq!(config.get("volume.step_max").unwrap(), "12");
}

#[test]
fn rejected_set_changes_nothing() {
    let mut config = Config::default();
    assert!(config.set("volume.step_max", "99").is_err());
    assert_eq!(config.volume.step_max, 8);
}

#[test]
fn reset_section_restores_defaults_only_there() {
    let mut config = Config::default();
    config.set("osd.timeout_ms", "3000").unwrap();
    config.set("volume.step_max", "12").unwrap();
    config.reset_section("osd").unwrap();
    assert_eq!(config.osd.timeout_ms, 1500);
    assert_eq!(config.volume.step_max, 12);
    match config.reset_section("nowhere") {
        Err(ConfigError::UnknownKey(msg)) => assert!(msg.starts_with("unknown section 'nowhere'")),
        other => panic!("{:?}", other),
    }
}

#[test]
fn every_media_action_is_accepted() {
    for action in ["play_pause", "next_track", "prev_track"] {
        let mut config = Config::default();
        assert!(config.set("media_control.triple_click_action", action).is_ok());
        assert_eq!(config.media_control.triple_click_action, action);
        assert!(config.validate().is_empty());
    }
    let mut config = Config::default();
    assert!(config.set("media_control.triple_click_action", "stop").is_err());
    assert_eq!(config.media_control.triple_click_action, "play_pause");
}
