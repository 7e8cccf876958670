//! Configuration settings, addressed by dot-notation keys (`volume.step_min`,
//! `daemon.log_level`, ...), with validation of values and of cross-field
//! constraints.
//!
//! Floating-point settings (curve steepness, sensitivity multiplier, overlay
//! opacity, feedback volume) are held as the decimal text of their value;
//! reading and writing them as numbers belongs to the application.

use crate::text::{cat, format_i32, int_text, parse_i32, parse_i32_spec, str_eq, push_char};
use vstd::prelude::*;

verus! {

/// A webhook called on events.
#[derive(Debug, Clone)]
pub struct WebhookConfig {
    pub url: String,
    pub events: Vec<String>,
    pub method: Option<String>,
    /// Extra request headers, as name/value pairs
    pub headers: Option<Vec<(String, String)>>,
}

/// Volume control settings.
#[derive(Debug, Clone)]
pub struct VolumeConfig {
    /// Minimum step size for slow rotation (1-20)
    pub step_min: i32,
    /// Maximum step size for fast rotation (1-20)
    pub step_max: i32,
    /// Volume curve type: linear, logarithmic, exponential, custom
    pub curve: String,
    /// Curve steepness for log/exp curves (1.0-20.0), as decimal text
    pub curve_steepness: String,
}

impl VolumeConfig {
    /// The value of a key of this section.
    pub open spec fn setting(&self, k: ConfigKey) -> SettingValue {
        match k {
            ConfigKey::VolumeStepMin => SettingValue::Int(self.step_min),
            ConfigKey::VolumeStepMax => SettingValue::Int(self.step_max),
            ConfigKey::VolumeCurve => SettingValue::Text(self.curve@),
            ConfigKey::VolumeCurveSteepness => SettingValue::Text(self.curve_steepness@),
            _ => SettingValue::OptionalText(None),
        }
    }

    fn store(&mut self, k: ConfigKey, v: Setting)
        requires
            key_section_of(k) == Section::Volume,
            setting_fits(k, v@),
        ensures
            final(self).setting(k) == v@,
            forall|k2: ConfigKey| k2 != k ==> #[trigger] final(self).setting(k2) == old(self).setting(k2),
    {
        match k {
            ConfigKey::VolumeStepMin => {
                if let Setting::Int(x) = v {
                    self.step_min = x;
                }
            },
            ConfigKey::VolumeStepMax => {
                if let Setting::Int(x) = v {
                    self.step_max = x;
                }
            },
            ConfigKey::VolumeCurve => {
                if let Setting::Text(x) = v {
                    self.curve = x;
                }
            },
            ConfigKey::VolumeCurveSteepness => {
                if let Setting::Text(x) = v {
                    self.curve_steepness = x;
                }
            },
            _ => {},
        }
    }
}

impl Default for VolumeConfig {
    fn default() -> (r: Self)
        ensures
            r.step_min == 2,
            r.step_max == 8,
            r.curve@ == "logarithmic"@,
            r.curve_steepness@ == "2"@,
    {
        VolumeConfig {
            step_min: 2,
            step_max: 8,
            curve: "logarithmic".to_owned(),
            curve_steepness: "2".to_owned(),
        }
    }
}

/// Microphone control settings.
#[derive(Debug, Clone)]
pub struct MicrophoneConfig {
    /// Minimum step size for slow rotation (1-20)
    pub step_min: i32,
    /// Maximum step size for fast rotation (1-20)
    pub step_max: i32,
    /// Seconds to stay in mic mode after a double click (1-60)
    pub mode_duration: i32,
    /// Volume curve type: linear, logarithmic, exponential, custom
    pub curve: String,
    /// Curve steepness for log/exp curves (1.0-20.0), as decimal text
    pub curve_steepness: String,
}

impl MicrophoneConfig {
    /// The value of a key of this section.
    pub open spec fn setting(&self, k: ConfigKey) -> SettingValue {
        match k {
            ConfigKey::MicrophoneStepMin => SettingValue::Int(self.step_min),
            ConfigKey::MicrophoneStepMax => SettingValue::Int(self.step_max),
            ConfigKey::MicrophoneModeDuration => SettingValue::Int(self.mode_duration),
            ConfigKey::MicrophoneCurve => SettingValue::Text(self.curve@),
            ConfigKey::MicrophoneCurveSteepness => SettingValue::Text(self.curve_steepness@),
            _ => SettingValue::OptionalText(None),
        }
    }

    fn store(&mut self, k: ConfigKey, v: Setting)
        requires
            key_section_of(k) == Section::Microphone,
            setting_fits(k, v@),
        ensures
            final(self).setting(k) == v@,
            forall|k2: ConfigKey| k2 != k ==> #[trigger] final(self).setting(k2) == old(self).setting(k2),
    {
        match k {
            ConfigKey::MicrophoneStepMin => {
                if let Setting::Int(x) = v {
                    self.step_min = x;
                }
            },
            ConfigKey::MicrophoneStepMax => {
                if let Setting::Int(x) = v {
                    self.step_max = x;
                }
            },
            ConfigKey::MicrophoneModeDuration => {
                if let Setting::Int(x) = v {
                    self.mode_duration = x;
                }
            },
            ConfigKey::MicrophoneCurve => {
                if let Setting::Text(x) = v {
                    self.curve = x;
                }
            },
            ConfigKey::MicrophoneCurveSteepness => {
                if let Setting::Text(x) = v {
                    self.curve_steepness = x;
                }
            },
            _ => {},
        }
    }
}

impl Default for MicrophoneConfig {
    fn default() -> (r: Self)
        ensures
            r.step_min == 3,
            r.step_max == 10,
            r.mode_duration == 10,
            r.curve@ == "linear"@,
            r.curve_steepness@ == "2"@,
    {
        MicrophoneConfig {
            step_min: 3,
            step_max: 10,
            mode_duration: 10,
            curve: "linear".to_owned(),
            curve_steepness: "2".to_owned(),
        }
    }
}

/// Acceleration settings for rotation speed mapping.
#[derive(Debug, Clone)]
pub struct AccelerationConfig {
    /// Time in ms below which the maximum step is used (10-500)
    pub fast_ms: i32,
    /// Time in ms above which the minimum step is used (100-2000)
    pub slow_ms: i32,
}

impl AccelerationConfig {
    /// The value of a key of this section.
    pub open spec fn setting(&self, k: ConfigKey) -> SettingValue {
        match k {
            ConfigKey::AccelerationFastMs => SettingValue::Int(self.fast_ms),
            ConfigKey::AccelerationSlowMs => SettingValue::Int(self.slow_ms),
            _ => SettingValue::OptionalText(None),
        }
    }

    fn store(&mut self, k: ConfigKey, v: Setting)
        requires
            key_section_of(k) == Section::Acceleration,
            setting_fits(k, v@),
        ensures
            final(self).setting(k) == v@,
            forall|k2: ConfigKey| k2 != k ==> #[trigger] final(self).setting(k2) == old(self).setting(k2),
    {
        match k {
            ConfigKey::AccelerationFastMs => {
                if let Setting::Int(x) = v {
                    self.fast_ms = x;
                }
            },
            ConfigKey::AccelerationSlowMs => {
                if let Setting::Int(x) = v {
                    self.slow_ms = x;
                }
            },
            _ => {},
        }
    }
}

impl Default for AccelerationConfig {
    fn default() -> (r: Self)
        ensures
            r.fast_ms == 80,
            r.slow_ms == 400,
    {
        AccelerationConfig {
            fast_ms: 80,
            slow_ms: 400,
        }
    }
}

/// Interaction timing settings.
#[derive(Debug, Clone)]
pub struct InteractionConfig {
    /// Maximum time between clicks for a double click (100-800 ms)
    pub double_click_ms: i32,
    /// Maximum time for a triple-click sequence (200-1000 ms)
    pub triple_click_ms: i32,
    /// Hold duration for a long press (500-3000 ms)
    pub long_press_ms: i32,
}

impl InteractionConfig {
    /// The value of a key of this section.
    pub open spec fn setting(&self, k: ConfigKey) -> SettingValue {
        match k {
            ConfigKey::InteractionDoubleClickMs => SettingValue::Int(self.double_click_ms),
            ConfigKey::InteractionTripleClickMs => SettingValue::Int(self.triple_click_ms),
            ConfigKey::InteractionLongPressMs => SettingValue::Int(self.long_press_ms),
            _ => SettingValue::OptionalText(None),
        }
    }

    fn store(&mut self, k: ConfigKey, v: Setting)
        requires
            key_section_of(k) == Section::Interaction,
            setting_fits(k, v@),
        ensures
            final(self).setting(k) == v@,
            forall|k2: ConfigKey| k2 != k ==> #[trigger] final(self).setting(k2) == old(self).setting(k2),
    {
        match k {
            ConfigKey::InteractionDoubleClickMs => {
                if let Setting::Int(x) = v {
                    self.double_click_ms = x;
                }
            },
            ConfigKey::InteractionTripleClickMs => {
                if let Setting::Int(x) = v {
                    self.triple_click_ms = x;
                }
            },
            ConfigKey::InteractionLongPressMs => {
                if let Setting::Int(x) = v {
                    self.long_press_ms = x;
                }
            },
            _ => {},
        }
    }
}

impl Default for InteractionConfig {
    fn default() -> (r: Self)
        ensures
            r.double_click_ms == 400,
            r.triple_click_ms == 600,
            r.long_press_ms == 1000,
    {
        InteractionConfig {
            double_click_ms: 400,
            triple_click_ms: 600,
            long_press_ms: 1000,
        }
    }
}

/// Sensitivity settings.
#[derive(Debug, Clone)]
pub struct SensitivityConfig {
    /// Rotation units to ignore (0-10)
    pub dead_zone: i32,
    /// Sensitivity multiplier (0.1-5.0), as decimal text
    pub multiplier: String,
    /// Reverse rotation direction
    pub invert: bool,
    /// Preset name: default, accessibility, precision, fast
    pub preset: String,
}

impl SensitivityConfig {
    /// The value of a key of this section.
    pub open spec fn setting(&self, k: ConfigKey) -> SettingValue {
        match k {
            ConfigKey::SensitivityDeadZone => SettingValue::Int(self.dead_zone),
            ConfigKey::SensitivityMultiplier => SettingValue::Text(self.multiplier@),
            ConfigKey::SensitivityInvert => SettingValue::Flag(self.invert),
            ConfigKey::SensitivityPreset => SettingValue::Text(self.preset@),
            _ => SettingValue::OptionalText(None),
        }
    }

    fn store(&mut self, k: ConfigKey, v: Setting)
        requires
            key_section_of(k) == Section::Sensitivity,
            setting_fits(k, v@),
        ensures
            final(self).setting(k) == v@,
            forall|k2: ConfigKey| k2 != k ==> #[trigger] final(self).setting(k2) == old(self).setting(k2),
    {
        match k {
            ConfigKey::SensitivityDeadZone => {
                if let Setting::Int(x) = v {
                    self.dead_zone = x;
                }
            },
            ConfigKey::SensitivityMultiplier => {
                if let Setting::Text(x) = v {
                    self.multiplier = x;
                }
            },
            ConfigKey::SensitivityInvert => {
                if let Setting::Flag(x) = v {
                    self.invert = x;
                }
            },
            ConfigKey::SensitivityPreset => {
                if let Setting::Text(x) = v {
                    self.preset = x;
                }
            },
            _ => {},
        }
    }
}

impl Default for SensitivityConfig {
    fn default() -> (r: Self)
        ensures
            r.dead_zone == 0,
            r.multiplier@ == "1"@,
            r.invert == false,
            r.preset@ == "default"@,
    {
        SensitivityConfig {
            dead_zone: 0,
            multiplier: "1".to_owned(),
            invert: false,
            preset: "default".to_owned(),
        }
    }
}

/// On-screen display settings.
#[derive(Debug, Clone)]
pub struct OsdConfig {
    /// Enable the overlay
    pub enabled: bool,
    /// Position: center-bottom, center, top-right, top-left, bottom-right, bottom-left
    pub position: String,
    /// Size: small, medium, large
    pub size: String,
    /// Display timeout in ms (500-5000)
    pub timeout_ms: i32,
    /// Opacity (0.1-1.0), as decimal text
    pub opacity: String,
    /// Show volume/mute icon
    pub show_icon: bool,
    /// Show percentage number
    pub show_percentage: bool,
}

impl OsdConfig {
    /// The value of a key of this section.
    pub open spec fn setting(&self, k: ConfigKey) -> SettingValue {
        match k {
            ConfigKey::OsdEnabled => SettingValue::Flag(self.enabled),
            ConfigKey::OsdPosition => SettingValue::Text(self.position@),
            ConfigKey::OsdSize => SettingValue::Text(self.size@),
            ConfigKey::OsdTimeoutMs => SettingValue::Int(self.timeout_ms),
            ConfigKey::OsdOpacity => SettingValue::Text(self.opacity@),
            ConfigKey::OsdShowIcon => SettingValue::Flag(self.show_icon),
            ConfigKey::OsdShowPercentage => SettingValue::Flag(self.show_percentage),
            _ => SettingValue::OptionalText(None),
        }
    }

    fn store(&mut self, k: ConfigKey, v: Setting)
        requires
            key_section_of(k) == Section::Osd,
            setting_fits(k, v@),
        ensures
            final(self).setting(k) == v@,
            forall|k2: ConfigKey| k2 != k ==> #[trigger] final(self).setting(k2) == old(self).setting(k2),
    {
        match k {
            ConfigKey::OsdEnabled => {
                if let Setting::Flag(x) = v {
                    self.enabled = x;
                }
            },
            ConfigKey::OsdPosition => {
                if let Setting::Text(x) = v {
                    self.position = x;
                }
            },
            ConfigKey::OsdSize => {
                if let Setting::Text(x) = v {
                    self.size = x;
                }
            },
            ConfigKey::OsdTimeoutMs => {
                if let Setting::Int(x) = v {
                    self.timeout_ms = x;
                }
            },
            ConfigKey::OsdOpacity => {
                if let Setting::Text(x) = v {
                    self.opacity = x;
                }
            },
            ConfigKey::OsdShowIcon => {
                if let Setting::Flag(x) = v {
                    self.show_icon = x;
                }
            },
            ConfigKey::OsdShowPercentage => {
                if let Setting::Flag(x) = v {
                    self.show_percentage = x;
                }
            },
            _ => {},
        }
    }
}

impl Default for OsdConfig {
    fn default() -> (r: Self)
        ensures
            r.enabled == true,
            r.position@ == "center-bottom"@,
            r.size@ == "medium"@,
            r.timeout_ms == 1500,
            r.opacity@ == "0.9"@,
            r.show_icon == true,
            r.show_percentage == true,
    {
        OsdConfig {
            enabled: true,
            position: "center-bottom".to_owned(),
            size: "medium".to_owned(),
            timeout_ms: 1500,
            opacity: "0.9".to_owned(),
            show_icon: true,
            show_percentage: true,
        }
    }
}

/// Battery monitoring settings.
#[derive(Debug, Clone)]
pub struct BatteryConfig {
    /// Enable battery monitoring
    pub enabled: bool,
    /// Poll interval in seconds (60-3600)
    pub poll_interval_seconds: i32,
    /// Show battery in status output
    pub show_in_status: bool,
    /// Show battery level in the overlay
    pub show_in_osd: bool,
    /// Low battery warning thresholds
    pub warning_thresholds: Vec<i32>,
}

impl BatteryConfig {
    /// The value of a key of this section.
    pub open spec fn setting(&self, k: ConfigKey) -> SettingValue {
        match k {
            ConfigKey::BatteryEnabled => SettingValue::Flag(self.enabled),
            ConfigKey::BatteryPollIntervalSeconds => SettingValue::Int(self.poll_interval_seconds),
            ConfigKey::BatteryShowInStatus => SettingValue::Flag(self.show_in_status),
            ConfigKey::BatteryShowInOsd => SettingValue::Flag(self.show_in_osd),
            _ => SettingValue::OptionalText(None),
        }
    }

    fn store(&mut self, k: ConfigKey, v: Setting)
        requires
            key_section_of(k) == Section::Battery,
            setting_fits(k, v@),
        ensures
            final(self).setting(k) == v@,
            forall|k2: ConfigKey| k2 != k ==> #[trigger] final(self).setting(k2) == old(self).setting(k2),
            final(self).warning_thresholds == old(self).warning_thresholds,
    {
        match k {
            ConfigKey::BatteryEnabled => {
                if let Setting::Flag(x) = v {
                    self.enabled = x;
                }
            },
            ConfigKey::BatteryPollIntervalSeconds => {
                if let Setting::Int(x) = v {
                    self.poll_interval_seconds = x;
                }
            },
            ConfigKey::BatteryShowInStatus => {
                if let Setting::Flag(x) = v {
                    self.show_in_status = x;
                }
            },
            ConfigKey::BatteryShowInOsd => {
                if let Setting::Flag(x) = v {
                    self.show_in_osd = x;
                }
            },
            _ => {},
        }
    }
}

impl Default for BatteryConfig {
    fn default() -> (r: Self)
        ensures
            r.enabled == true,
            r.poll_interval_seconds == 300,
            r.show_in_status == true,
            r.show_in_osd == true,
            r.warning_thresholds@ == seq![20i32, 10i32, 5i32],
    {
        let mut thresholds: Vec<i32> = Vec::new();
        thresholds.push(20);
        thresholds.push(10);
        thresholds.push(5);
        assert(thresholds@ =~= seq![20i32, 10i32, 5i32]);
        BatteryConfig {
            enabled: true,
            poll_interval_seconds: 300,
            show_in_status: true,
            show_in_osd: true,
            warning_thresholds: thresholds,
        }
    }
}

/// Device switching settings.
#[derive(Debug, Clone)]
pub struct DeviceSwitchingConfig {
    /// Enable device switching
    pub enabled: bool,
    /// Trigger mode: long_press_rotate
    pub mode: String,
    /// Show device list in the overlay
    pub show_in_osd: bool,
}

impl DeviceSwitchingConfig {
    /// The value of a key of this section.
    pub open spec fn setting(&self, k: ConfigKey) -> SettingValue {
        match k {
            ConfigKey::DeviceSwitchingEnabled => SettingValue::Flag(self.enabled),
            ConfigKey::DeviceSwitchingMode => SettingValue::Text(self.mode@),
            ConfigKey::DeviceSwitchingShowInOsd => SettingValue::Flag(self.show_in_osd),
            _ => SettingValue::OptionalText(None),
        }
    }

    fn store(&mut self, k: ConfigKey, v: Setting)
        requires
            key_section_of(k) == Section::DeviceSwitching,
            setting_fits(k, v@),
        ensures
            final(self).setting(k) == v@,
            forall|k2: ConfigKey| k2 != k ==> #[trigger] final(self).setting(k2) == old(self).setting(k2),
    {
        match k {
            ConfigKey::DeviceSwitchingEnabled => {
                if let Setting::Flag(x) = v {
                    self.enabled = x;
                }
            },
            ConfigKey::DeviceSwitchingMode => {
                if let Setting::Text(x) = v {
                    self.mode = x;
                }
            },
            ConfigKey::DeviceSwitchingShowInOsd => {
                if let Setting::Flag(x) = v {
                    self.show_in_osd = x;
                }
            },
            _ => {},
        }
    }
}

impl Default for DeviceSwitchingConfig {
    fn default() -> (r: Self)
        ensures
            r.enabled == true,
            r.mode@ == "long_press_rotate"@,
            r.show_in_osd == true,
    {
        DeviceSwitchingConfig {
            enabled: true,
            mode: "long_press_rotate".to_owned(),
            show_in_osd: true,
        }
    }
}

/// Media control settings.
#[derive(Debug, Clone)]
pub struct MediaControlConfig {
    /// Enable media control
    pub enabled: bool,
    /// Triple-click action: play_pause, next_track, prev_track
    pub triple_click_action: String,
}

impl MediaControlConfig {
    /// The value of a key of this section.
    pub open spec fn setting(&self, k: ConfigKey) -> SettingValue {
        match k {
            ConfigKey::MediaControlEnabled => SettingValue::Flag(self.enabled),
            ConfigKey::MediaControlTripleClickAction => SettingValue::Text(self.triple_click_action@),
            _ => SettingValue::OptionalText(None),
        }
    }

    fn store(&mut self, k: ConfigKey, v: Setting)
        requires
            key_section_of(k) == Section::MediaControl,
            setting_fits(k, v@),
        ensures
            final(self).setting(k) == v@,
            forall|k2: ConfigKey| k2 != k ==> #[trigger] final(self).setting(k2) == old(self).setting(k2),
    {
        match k {
            ConfigKey::MediaControlEnabled => {
                if let Setting::Flag(x) = v {
                    self.enabled = x;
                }
            },
            ConfigKey::MediaControlTripleClickAction => {
                if let Setting::Text(x) = v {
                    self.triple_click_action = x;
                }
            },
            _ => {},
        }
    }
}

impl Default for MediaControlConfig {
    fn default() -> (r: Self)
        ensures
            r.enabled == true,
            r.triple_click_action@ == "play_pause"@,
    {
        MediaControlConfig {
            enabled: true,
            triple_click_action: "play_pause".to_owned(),
        }
    }
}

/// Audio feedback settings.
#[derive(Debug, Clone)]
pub struct AudioFeedbackConfig {
    /// Enable audio feedback
    pub enabled: bool,
    /// Feedback volume (0.0-1.0), as decimal text
    pub volume: String,
    /// Play tick on rotation
    pub tick: bool,
    /// Play sound at volume boundaries
    pub boundary: bool,
    /// Play sound on mode change
    pub mode_change: bool,
    /// Play sound on mute toggle
    pub mute: bool,
}

impl AudioFeedbackConfig {
    /// The value of a key of this section.
    pub open spec fn setting(&self, k: ConfigKey) -> SettingValue {
        match k {
            ConfigKey::AudioFeedbackEnabled => SettingValue::Flag(self.enabled),
            ConfigKey::AudioFeedbackVolume => SettingValue::Text(self.volume@),
            ConfigKey::AudioFeedbackTick => SettingValue::Flag(self.tick),
            ConfigKey::AudioFeedbackBoundary => SettingValue::Flag(self.boundary),
            ConfigKey::AudioFeedbackModeChange => SettingValue::Flag(self.mode_change),
            ConfigKey::AudioFeedbackMute => SettingValue::Flag(self.mute),
            _ => SettingValue::OptionalText(None),
        }
    }

    fn store(&mut self, k: ConfigKey, v: Setting)
        requires
            key_section_of(k) == Section::AudioFeedback,
            setting_fits(k, v@),
        ensures
            final(self).setting(k) == v@,
            forall|k2: ConfigKey| k2 != k ==> #[trigger] final(self).setting(k2) == old(self).setting(k2),
    {
        match k {
            ConfigKey::AudioFeedbackEnabled => {
                if let Setting::Flag(x) = v {
                    self.enabled = x;
                }
            },
            ConfigKey::AudioFeedbackVolume => {
                if let Setting::Text(x) = v {
                    self.volume = x;
                }
            },
            ConfigKey::AudioFeedbackTick => {
                if let Setting::Flag(x) = v {
                    self.tick = x;
                }
            },
            ConfigKey::AudioFeedbackBoundary => {
                if let Setting::Flag(x) = v {
                    self.boundary = x;
                }
            },
            ConfigKey::AudioFeedbackModeChange => {
                if let Setting::Flag(x) = v {
                    self.mode_change = x;
                }
            },
            ConfigKey::AudioFeedbackMute => {
                if let Setting::Flag(x) = v {
                    self.mute = x;
                }
            },
            _ => {},
        }
    }
}

impl Default for AudioFeedbackConfig {
    fn default() -> (r: Self)
        ensures
            r.enabled == false,
            r.volume@ == "0.3"@,
            r.tick == true,
            r.boundary == true,
            r.mode_change == true,
            r.mute == true,
    {
        AudioFeedbackConfig {
            enabled: false,
            volume: "0.3".to_owned(),
            tick: true,
            boundary: true,
            mode_change: true,
            mute: true,
        }
    }
}

/// Event hook settings.
#[derive(Debug, Clone)]
pub struct EventsConfig {
    /// Enable event hooks
    pub enabled: bool,
    /// Debounce interval in ms (100-5000)
    pub debounce_ms: i32,
    /// Script hooks directory
    pub scripts_dir: Option<String>,
    /// Webhook configurations
    pub webhooks: Vec<WebhookConfig>,
}

impl EventsConfig {
    /// The value of a key of this section.
    pub open spec fn setting(&self, k: ConfigKey) -> SettingValue {
        match k {
            ConfigKey::EventsEnabled => SettingValue::Flag(self.enabled),
            ConfigKey::EventsDebounceMs => SettingValue::Int(self.debounce_ms),
            ConfigKey::EventsScriptsDir => SettingValue::OptionalText(optional_text(self.scripts_dir)),
            _ => SettingValue::OptionalText(None),
        }
    }

    fn store(&mut self, k: ConfigKey, v: Setting)
        requires
            key_section_of(k) == Section::Events,
            setting_fits(k, v@),
        ensures
            final(self).setting(k) == v@,
            forall|k2: ConfigKey| k2 != k ==> #[trigger] final(self).setting(k2) == old(self).setting(k2),
            final(self).webhooks == old(self).webhooks,
    {
        match k {
            ConfigKey::EventsEnabled => {
                if let Setting::Flag(x) = v {
                    self.enabled = x;
                }
            },
            ConfigKey::EventsDebounceMs => {
                if let Setting::Int(x) = v {
                    self.debounce_ms = x;
                }
            },
            ConfigKey::EventsScriptsDir => {
                if let Setting::OptionalText(x) = v {
                    self.scripts_dir = x;
                }
            },
            _ => {},
        }
    }
}

impl Default for EventsConfig {
    fn default() -> (r: Self)
        ensures
            r.enabled == false,
            r.debounce_ms == 500,
            r.scripts_dir is None,
            r.webhooks@.len() == 0,
    {
        EventsConfig {
            enabled: false,
            debounce_ms: 500,
            scripts_dir: None,
            webhooks: Vec::new(),
        }
    }
}

/// System tray settings.
#[derive(Debug, Clone)]
pub struct TrayConfig {
    /// Enable system tray icon
    pub enabled: bool,
    /// Show current volume in tray
    pub show_volume: bool,
    /// Show battery level in tray
    pub show_battery: bool,
    /// Show current mode in tray
    pub show_mode: bool,
}

impl TrayConfig {
    /// The value of a key of this section.
    pub open spec fn setting(&self, k: ConfigKey) -> SettingValue {
        match k {
            ConfigKey::TrayEnabled => SettingValue::Flag(self.enabled),
            ConfigKey::TrayShowVolume => SettingValue::Flag(self.show_volume),
            ConfigKey::TrayShowBattery => SettingValue::Flag(self.show_battery),
            ConfigKey::TrayShowMode => SettingValue::Flag(self.show_mode),
            _ => SettingValue::OptionalText(None),
        }
    }

    fn store(&mut self, k: ConfigKey, v: Setting)
        requires
            key_section_of(k) == Section::Tray,
            setting_fits(k, v@),
        ensures
            final(self).setting(k) == v@,
            forall|k2: ConfigKey| k2 != k ==> #[trigger] final(self).setting(k2) == old(self).setting(k2),
    {
        match k {
            ConfigKey::TrayEnabled => {
                if let Setting::Flag(x) = v {
                    self.enabled = x;
                }
            },
            ConfigKey::TrayShowVolume => {
                if let Setting::Flag(x) = v {
                    self.show_volume = x;
                }
            },
            ConfigKey::TrayShowBattery => {
                if let Setting::Flag(x) = v {
                    self.show_battery = x;
                }
            },
            ConfigKey::TrayShowMode => {
                if let Setting::Flag(x) = v {
                    self.show_mode = x;
                }
            },
            _ => {},
        }
    }
}

impl Default for TrayConfig {
    fn default() -> (r: Self)
        ensures
            r.enabled == true,
            r.show_volume == true,
            r.show_battery == true,
            r.show_mode == true,
    {
        TrayConfig {
            enabled: true,
            show_volume: true,
            show_battery: true,
            show_mode: true,
        }
    }
}

/// Daemon settings.
#[derive(Debug, Clone)]
pub struct DaemonConfig {
    /// Log level: error, warn, info, debug, trace
    pub log_level: String,
    /// Enable logging to file
    pub log_file_enabled: bool,
    /// Max log file size in MB (1-100)
    pub log_max_size_mb: i32,
    /// Number of rotated log files to keep (1-10)
    pub log_keep_files: i32,
    /// Use JSON format for log files
    pub log_json: bool,
}

impl DaemonConfig {
    /// The value of a key of this section.
    pub open spec fn setting(&self, k: ConfigKey) -> SettingValue {
        match k {
            ConfigKey::DaemonLogLevel => SettingValue::Text(self.log_level@),
            ConfigKey::DaemonLogFileEnabled => SettingValue::Flag(self.log_file_enabled),
            ConfigKey::DaemonLogMaxSizeMb => SettingValue::Int(self.log_max_size_mb),
            ConfigKey::DaemonLogKeepFiles => SettingValue::Int(self.log_keep_files),
            ConfigKey::DaemonLogJson => SettingValue::Flag(self.log_json),
            _ => SettingValue::OptionalText(None),
        }
    }

    fn store(&mut self, k: ConfigKey, v: Setting)
        requires
            key_section_of(k) == Section::Daemon,
            setting_fits(k, v@),
        ensures
            final(self).setting(k) == v@,
            forall|k2: ConfigKey| k2 != k ==> #[trigger] final(self).setting(k2) == old(self).setting(k2),
    {
        match k {
            ConfigKey::DaemonLogLevel => {
                if let Setting::Text(x) = v {
                    self.log_level = x;
                }
            },
            ConfigKey::DaemonLogFileEnabled => {
                if let Setting::Flag(x) = v {
                    self.log_file_enabled = x;
                }
            },
            ConfigKey::DaemonLogMaxSizeMb => {
                if let Setting::Int(x) = v {
                    self.log_max_size_mb = x;
                }
            },
            ConfigKey::DaemonLogKeepFiles => {
                if let Setting::Int(x) = v {
                    self.log_keep_files = x;
                }
            },
            ConfigKey::DaemonLogJson => {
                if let Setting::Flag(x) = v {
                    self.log_json = x;
                }
            },
            _ => {},
        }
    }
}

impl Default for DaemonConfig {
    fn default() -> (r: Self)
        ensures
            r.log_level@ == "info"@,
            r.log_file_enabled == true,
            r.log_max_size_mb == 10,
            r.log_keep_files == 3,
            r.log_json == false,
    {
        DaemonConfig {
            log_level: "info".to_owned(),
            log_file_enabled: true,
            log_max_size_mb: 10,
            log_keep_files: 3,
            log_json: false,
        }
    }
}

/// A configuration key (the dot-notation names of `Config::keys`).
#[derive(Debug, Clone, Copy, PartialEq, Eq, Structural)]
pub enum ConfigKey {
    VolumeStepMin,
    VolumeStepMax,
    VolumeCurve,
    VolumeCurveSteepness,
    MicrophoneStepMin,
    MicrophoneStepMax,
    MicrophoneModeDuration,
    MicrophoneCurve,
    MicrophoneCurveSteepness,
    AccelerationFastMs,
    AccelerationSlowMs,
    InteractionDoubleClickMs,
    InteractionTripleClickMs,
    InteractionLongPressMs,
    SensitivityDeadZone,
    SensitivityMultiplier,
    SensitivityInvert,
    SensitivityPreset,
    OsdEnabled,
    OsdPosition,
    OsdSize,
    OsdTimeoutMs,
    OsdOpacity,
    OsdShowIcon,
    OsdShowPercentage,
    BatteryEnabled,
    BatteryPollIntervalSeconds,
    BatteryShowInStatus,
    BatteryShowInOsd,
    DeviceSwitchingEnabled,
    DeviceSwitchingMode,
    DeviceSwitchingShowInOsd,
    MediaControlEnabled,
    MediaControlTripleClickAction,
    AudioFeedbackEnabled,
    AudioFeedbackVolume,
    AudioFeedbackTick,
    AudioFeedbackBoundary,
    AudioFeedbackModeChange,
    AudioFeedbackMute,
    EventsEnabled,
    EventsDebounceMs,
    EventsScriptsDir,
    TrayEnabled,
    TrayShowVolume,
    TrayShowBattery,
    TrayShowMode,
    DaemonLogLevel,
    DaemonLogFileEnabled,
    DaemonLogMaxSizeMb,
    DaemonLogKeepFiles,
    DaemonLogJson,
}

/// The dot-notation name of a key.
pub open spec fn key_name(k: ConfigKey) -> Seq<char> {
    match k {
        ConfigKey::VolumeStepMin => "volume.step_min"@,
        ConfigKey::VolumeStepMax => "volume.step_max"@,
        ConfigKey::VolumeCurve => "volume.curve"@,
        ConfigKey::VolumeCurveSteepness => "volume.curve_steepness"@,
        ConfigKey::MicrophoneStepMin => "microphone.step_min"@,
        ConfigKey::MicrophoneStepMax => "microphone.step_max"@,
        ConfigKey::MicrophoneModeDuration => "microphone.mode_duration"@,
        ConfigKey::MicrophoneCurve => "microphone.curve"@,
        ConfigKey::MicrophoneCurveSteepness => "microphone.curve_steepness"@,
        ConfigKey::AccelerationFastMs => "acceleration.fast_ms"@,
        ConfigKey::AccelerationSlowMs => "acceleration.slow_ms"@,
        ConfigKey::InteractionDoubleClickMs => "interaction.double_click_ms"@,
        ConfigKey::InteractionTripleClickMs => "interaction.triple_click_ms"@,
        ConfigKey::InteractionLongPressMs => "interaction.long_press_ms"@,
        ConfigKey::SensitivityDeadZone => "sensitivity.dead_zone"@,
        ConfigKey::SensitivityMultiplier => "sensitivity.multiplier"@,
        ConfigKey::SensitivityInvert => "sensitivity.invert"@,
        ConfigKey::SensitivityPreset => "sensitivity.preset"@,
        ConfigKey::OsdEnabled => "osd.enabled"@,
        ConfigKey::OsdPosition => "osd.position"@,
        ConfigKey::OsdSize => "osd.size"@,
        ConfigKey::OsdTimeoutMs => "osd.timeout_ms"@,
        ConfigKey::OsdOpacity => "osd.opacity"@,
        ConfigKey::OsdShowIcon => "osd.show_icon"@,
        ConfigKey::OsdShowPercentage => "osd.show_percentage"@,
        ConfigKey::BatteryEnabled => "battery.enabled"@,
        ConfigKey::BatteryPollIntervalSeconds => "battery.poll_interval_seconds"@,
        ConfigKey::BatteryShowInStatus => "battery.show_in_status"@,
        ConfigKey::BatteryShowInOsd => "battery.show_in_osd"@,
        ConfigKey::DeviceSwitchingEnabled => "device_switching.enabled"@,
        ConfigKey::DeviceSwitchingMode => "device_switching.mode"@,
        ConfigKey::DeviceSwitchingShowInOsd => "device_switching.show_in_osd"@,
        ConfigKey::MediaControlEnabled => "media_control.enabled"@,
        ConfigKey::MediaControlTripleClickAction => "media_control.triple_click_action"@,
        ConfigKey::AudioFeedbackEnabled => "audio_feedback.enabled"@,
        ConfigKey::AudioFeedbackVolume => "audio_feedback.volume"@,
        ConfigKey::AudioFeedbackTick => "audio_feedback.tick"@,
        ConfigKey::AudioFeedbackBoundary => "audio_feedback.boundary"@,
        ConfigKey::AudioFeedbackModeChange => "audio_feedback.mode_change"@,
        ConfigKey::AudioFeedbackMute => "audio_feedback.mute"@,
        ConfigKey::EventsEnabled => "events.enabled"@,
        ConfigKey::EventsDebounceMs => "events.debounce_ms"@,
        ConfigKey::EventsScriptsDir => "events.scripts_dir"@,
        ConfigKey::TrayEnabled => "tray.enabled"@,
        ConfigKey::TrayShowVolume => "tray.show_volume"@,
        ConfigKey::TrayShowBattery => "tray.show_battery"@,
        ConfigKey::TrayShowMode => "tray.show_mode"@,
        ConfigKey::DaemonLogLevel => "daemon.log_level"@,
        ConfigKey::DaemonLogFileEnabled => "daemon.log_file_enabled"@,
        ConfigKey::DaemonLogMaxSizeMb => "daemon.log_max_size_mb"@,
        ConfigKey::DaemonLogKeepFiles => "daemon.log_keep_files"@,
        ConfigKey::DaemonLogJson => "daemon.log_json"@,
    }
}

/// A section of the configuration.
#[derive(Debug, Clone, Copy, PartialEq, Eq, Structural)]
pub enum Section {
    Volume,
    Microphone,
    Acceleration,
    Interaction,
    Sensitivity,
    Osd,
    Battery,
    DeviceSwitching,
    MediaControl,
    AudioFeedback,
    Events,
    Tray,
    Daemon,
}

/// The name of a section.
pub open spec fn section_name(s: Section) -> Seq<char> {
    match s {
        Section::Volume => "volume"@,
        Section::Microphone => "microphone"@,
        Section::Acceleration => "acceleration"@,
        Section::Interaction => "interaction"@,
        Section::Sensitivity => "sensitivity"@,
        Section::Osd => "osd"@,
        Section::Battery => "battery"@,
        Section::DeviceSwitching => "device_switching"@,
        Section::MediaControl => "media_control"@,
        Section::AudioFeedback => "audio_feedback"@,
        Section::Events => "events"@,
        Section::Tray => "tray"@,
        Section::Daemon => "daemon"@,
    }
}

/// The section a key belongs to.
pub open spec fn key_section_of(k: ConfigKey) -> Section {
    match k {
        ConfigKey::VolumeStepMin => Section::Volume,
        ConfigKey::VolumeStepMax => Section::Volume,
        ConfigKey::VolumeCurve => Section::Volume,
        ConfigKey::VolumeCurveSteepness => Section::Volume,
        ConfigKey::MicrophoneStepMin => Section::Microphone,
        ConfigKey::MicrophoneStepMax => Section::Microphone,
        ConfigKey::MicrophoneModeDuration => Section::Microphone,
        ConfigKey::MicrophoneCurve => Section::Microphone,
        ConfigKey::MicrophoneCurveSteepness => Section::Microphone,
        ConfigKey::AccelerationFastMs => Section::Acceleration,
        ConfigKey::AccelerationSlowMs => Section::Acceleration,
        ConfigKey::InteractionDoubleClickMs => Section::Interaction,
        ConfigKey::InteractionTripleClickMs => Section::Interaction,
        ConfigKey::InteractionLongPressMs => Section::Interaction,
        ConfigKey::SensitivityDeadZone => Section::Sensitivity,
        ConfigKey::SensitivityMultiplier => Section::Sensitivity,
        ConfigKey::SensitivityInvert => Section::Sensitivity,
        ConfigKey::SensitivityPreset => Section::Sensitivity,
        ConfigKey::OsdEnabled => Section::Osd,
        ConfigKey::OsdPosition => Section::Osd,
        ConfigKey::OsdSize => Section::Osd,
        ConfigKey::OsdTimeoutMs => Section::Osd,
        ConfigKey::OsdOpacity => Section::Osd,
        ConfigKey::OsdShowIcon => Section::Osd,
        ConfigKey::OsdShowPercentage => Section::Osd,
        ConfigKey::BatteryEnabled => Section::Battery,
        ConfigKey::BatteryPollIntervalSeconds => Section::Battery,
        ConfigKey::BatteryShowInStatus => Section::Battery,
        ConfigKey::BatteryShowInOsd => Section::Battery,
        ConfigKey::DeviceSwitchingEnabled => Section::DeviceSwitching,
        ConfigKey::DeviceSwitchingMode => Section::DeviceSwitching,
        ConfigKey::DeviceSwitchingShowInOsd => Section::DeviceSwitching,
        ConfigKey::MediaControlEnabled => Section::MediaControl,
        ConfigKey::MediaControlTripleClickAction => Section::MediaControl,
        ConfigKey::AudioFeedbackEnabled => Section::AudioFeedback,
        ConfigKey::AudioFeedbackVolume => Section::AudioFeedback,
        ConfigKey::AudioFeedbackTick => Section::AudioFeedback,
        ConfigKey::AudioFeedbackBoundary => Section::AudioFeedback,
        ConfigKey::AudioFeedbackModeChange => Section::AudioFeedback,
        ConfigKey::AudioFeedbackMute => Section::AudioFeedback,
        ConfigKey::EventsEnabled => Section::Events,
        ConfigKey::EventsDebounceMs => Section::Events,
        ConfigKey::EventsScriptsDir => Section::Events,
        ConfigKey::TrayEnabled => Section::Tray,
        ConfigKey::TrayShowVolume => Section::Tray,
        ConfigKey::TrayShowBattery => Section::Tray,
        ConfigKey::TrayShowMode => Section::Tray,
        ConfigKey::DaemonLogLevel => Section::Daemon,
        ConfigKey::DaemonLogFileEnabled => Section::Daemon,
        ConfigKey::DaemonLogMaxSizeMb => Section::Daemon,
        ConfigKey::DaemonLogKeepFiles => Section::Daemon,
        ConfigKey::DaemonLogJson => Section::Daemon,
    }
}

/// The name of the section (the part before the dot) a key belongs to.
pub open spec fn key_section(k: ConfigKey) -> Seq<char> {
    section_name(key_section_of(k))
}

/// Every key, in the order `Config::keys` lists them.
pub open spec fn all_keys() -> Seq<ConfigKey> {
    seq![
        ConfigKey::VolumeStepMin,
        ConfigKey::VolumeStepMax,
        ConfigKey::VolumeCurve,
        ConfigKey::VolumeCurveSteepness,
        ConfigKey::MicrophoneStepMin,
        ConfigKey::MicrophoneStepMax,
        ConfigKey::MicrophoneModeDuration,
        ConfigKey::MicrophoneCurve,
        ConfigKey::MicrophoneCurveSteepness,
        ConfigKey::AccelerationFastMs,
        ConfigKey::AccelerationSlowMs,
        ConfigKey::InteractionDoubleClickMs,
        ConfigKey::InteractionTripleClickMs,
        ConfigKey::InteractionLongPressMs,
        ConfigKey::SensitivityDeadZone,
        ConfigKey::SensitivityMultiplier,
        ConfigKey::SensitivityInvert,
        ConfigKey::SensitivityPreset,
        ConfigKey::OsdEnabled,
        ConfigKey::OsdPosition,
        ConfigKey::OsdSize,
        ConfigKey::OsdTimeoutMs,
        ConfigKey::OsdOpacity,
        ConfigKey::OsdShowIcon,
        ConfigKey::OsdShowPercentage,
        ConfigKey::BatteryEnabled,
        ConfigKey::BatteryPollIntervalSeconds,
        ConfigKey::BatteryShowInStatus,
        ConfigKey::BatteryShowInOsd,
        ConfigKey::DeviceSwitchingEnabled,
        ConfigKey::DeviceSwitchingMode,
        ConfigKey::DeviceSwitchingShowInOsd,
        ConfigKey::MediaControlEnabled,
        ConfigKey::MediaControlTripleClickAction,
        ConfigKey::AudioFeedbackEnabled,
        ConfigKey::AudioFeedbackVolume,
        ConfigKey::AudioFeedbackTick,
        ConfigKey::AudioFeedbackBoundary,
        ConfigKey::AudioFeedbackModeChange,
        ConfigKey::AudioFeedbackMute,
        ConfigKey::EventsEnabled,
        ConfigKey::EventsDebounceMs,
        ConfigKey::EventsScriptsDir,
        ConfigKey::TrayEnabled,
        ConfigKey::TrayShowVolume,
        ConfigKey::TrayShowBattery,
        ConfigKey::TrayShowMode,
        ConfigKey::DaemonLogLevel,
        ConfigKey::DaemonLogFileEnabled,
        ConfigKey::DaemonLogMaxSizeMb,
        ConfigKey::DaemonLogKeepFiles,
        ConfigKey::DaemonLogJson,
    ]
}

/// What a value must be to be accepted for a key.
pub open spec fn key_rule(k: ConfigKey) -> KeyRule {
    match k {
        ConfigKey::VolumeStepMin => KeyRule::IntRange(1, 20),
        ConfigKey::VolumeStepMax => KeyRule::IntRange(1, 20),
        ConfigKey::VolumeCurve => KeyRule::OneOf(curve_choices()),
        ConfigKey::VolumeCurveSteepness => KeyRule::Decimal(10, 200),
        ConfigKey::MicrophoneStepMin => KeyRule::IntRange(1, 20),
        ConfigKey::MicrophoneStepMax => KeyRule::IntRange(1, 20),
        ConfigKey::MicrophoneModeDuration => KeyRule::IntRange(1, 60),
        ConfigKey::MicrophoneCurve => KeyRule::OneOf(curve_choices()),
        ConfigKey::MicrophoneCurveSteepness => KeyRule::Decimal(10, 200),
        ConfigKey::AccelerationFastMs => KeyRule::IntRange(10, 500),
        ConfigKey::AccelerationSlowMs => KeyRule::IntRange(100, 2000),
        ConfigKey::InteractionDoubleClickMs => KeyRule::IntRange(100, 800),
        ConfigKey::InteractionTripleClickMs => KeyRule::IntRange(200, 1000),
        ConfigKey::InteractionLongPressMs => KeyRule::IntRange(500, 3000),
        ConfigKey::SensitivityDeadZone => KeyRule::IntRange(0, 10),
        ConfigKey::SensitivityMultiplier => KeyRule::Decimal(1, 50),
        ConfigKey::SensitivityInvert => KeyRule::Flag,
        ConfigKey::SensitivityPreset => KeyRule::OneOf(preset_choices()),
        ConfigKey::OsdEnabled => KeyRule::Flag,
        ConfigKey::OsdPosition => KeyRule::OneOf(position_choices()),
        ConfigKey::OsdSize => KeyRule::OneOf(size_choices()),
        ConfigKey::OsdTimeoutMs => KeyRule::IntRange(500, 5000),
        ConfigKey::OsdOpacity => KeyRule::Decimal(1, 10),
        ConfigKey::OsdShowIcon => KeyRule::Flag,
        ConfigKey::OsdShowPercentage => KeyRule::Flag,
        ConfigKey::BatteryEnabled => KeyRule::Flag,
        ConfigKey::BatteryPollIntervalSeconds => KeyRule::IntRange(60, 3600),
        ConfigKey::BatteryShowInStatus => KeyRule::Flag,
        ConfigKey::BatteryShowInOsd => KeyRule::Flag,
        ConfigKey::DeviceSwitchingEnabled => KeyRule::Flag,
        ConfigKey::DeviceSwitchingMode => KeyRule::OneOf(switch_mode_choices()),
        ConfigKey::DeviceSwitchingShowInOsd => KeyRule::Flag,
        ConfigKey::MediaControlEnabled => KeyRule::Flag,
        ConfigKey::MediaControlTripleClickAction => KeyRule::OneOf(media_action_choices()),
        ConfigKey::AudioFeedbackEnabled => KeyRule::Flag,
        ConfigKey::AudioFeedbackVolume => KeyRule::Decimal(0, 10),
        ConfigKey::AudioFeedbackTick => KeyRule::Flag,
        ConfigKey::AudioFeedbackBoundary => KeyRule::Flag,
        ConfigKey::AudioFeedbackModeChange => KeyRule::Flag,
        ConfigKey::AudioFeedbackMute => KeyRule::Flag,
        ConfigKey::EventsEnabled => KeyRule::Flag,
        ConfigKey::EventsDebounceMs => KeyRule::IntRange(100, 5000),
        ConfigKey::EventsScriptsDir => KeyRule::Path,
        ConfigKey::TrayEnabled => KeyRule::Flag,
        ConfigKey::TrayShowVolume => KeyRule::Flag,
        ConfigKey::TrayShowBattery => KeyRule::Flag,
        ConfigKey::TrayShowMode => KeyRule::Flag,
        ConfigKey::DaemonLogLevel => KeyRule::OneOf(log_level_choices()),
        ConfigKey::DaemonLogFileEnabled => KeyRule::Flag,
        ConfigKey::DaemonLogMaxSizeMb => KeyRule::IntRange(1, 100),
        ConfigKey::DaemonLogKeepFiles => KeyRule::IntRange(1, 10),
        ConfigKey::DaemonLogJson => KeyRule::Flag,
    }
}

/// The value a key has in the default configuration.
pub open spec fn default_setting(k: ConfigKey) -> SettingValue {
    match k {
        ConfigKey::VolumeStepMin => SettingValue::Int(2),
        ConfigKey::VolumeStepMax => SettingValue::Int(8),
        ConfigKey::VolumeCurve => SettingValue::Text("logarithmic"@),
        ConfigKey::VolumeCurveSteepness => SettingValue::Text("2"@),
        ConfigKey::MicrophoneStepMin => SettingValue::Int(3),
        ConfigKey::MicrophoneStepMax => SettingValue::Int(10),
        ConfigKey::MicrophoneModeDuration => SettingValue::Int(10),
        ConfigKey::MicrophoneCurve => SettingValue::Text("linear"@),
        ConfigKey::MicrophoneCurveSteepness => SettingValue::Text("2"@),
        ConfigKey::AccelerationFastMs => SettingValue::Int(80),
        ConfigKey::AccelerationSlowMs => SettingValue::Int(400),
        ConfigKey::InteractionDoubleClickMs => SettingValue::Int(400),
        ConfigKey::InteractionTripleClickMs => SettingValue::Int(600),
        ConfigKey::InteractionLongPressMs => SettingValue::Int(1000),
        ConfigKey::SensitivityDeadZone => SettingValue::Int(0),
        ConfigKey::SensitivityMultiplier => SettingValue::Text("1"@),
        ConfigKey::SensitivityInvert => SettingValue::Flag(false),
        ConfigKey::SensitivityPreset => SettingValue::Text("default"@),
        ConfigKey::OsdEnabled => SettingValue::Flag(true),
        ConfigKey::OsdPosition => SettingValue::Text("center-bottom"@),
        ConfigKey::OsdSize => SettingValue::Text("medium"@),
        ConfigKey::OsdTimeoutMs => SettingValue::Int(1500),
        ConfigKey::OsdOpacity => SettingValue::Text("0.9"@),
        ConfigKey::OsdShowIcon => SettingValue::Flag(true),
        ConfigKey::OsdShowPercentage => SettingValue::Flag(true),
        ConfigKey::BatteryEnabled => SettingValue::Flag(true),
        ConfigKey::BatteryPollIntervalSeconds => SettingValue::Int(300),
        ConfigKey::BatteryShowInStatus => SettingValue::Flag(true),
        ConfigKey::BatteryShowInOsd => SettingValue::Flag(true),
        ConfigKey::DeviceSwitchingEnabled => SettingValue::Flag(true),
        ConfigKey::DeviceSwitchingMode => SettingValue::Text("long_press_rotate"@),
        ConfigKey::DeviceSwitchingShowInOsd => SettingValue::Flag(true),
        ConfigKey::MediaControlEnabled => SettingValue::Flag(true),
        ConfigKey::MediaControlTripleClickAction => SettingValue::Text("play_pause"@),
        ConfigKey::AudioFeedbackEnabled => SettingValue::Flag(false),
        ConfigKey::AudioFeedbackVolume => SettingValue::Text("0.3"@),
        ConfigKey::AudioFeedbackTick => SettingValue::Flag(true),
        ConfigKey::AudioFeedbackBoundary => SettingValue::Flag(true),
        ConfigKey::AudioFeedbackModeChange => SettingValue::Flag(true),
        ConfigKey::AudioFeedbackMute => SettingValue::Flag(true),
        ConfigKey::EventsEnabled => SettingValue::Flag(false),
        ConfigKey::EventsDebounceMs => SettingValue::Int(500),
        ConfigKey::EventsScriptsDir => SettingValue::OptionalText(None),
        ConfigKey::TrayEnabled => SettingValue::Flag(true),
        ConfigKey::TrayShowVolume => SettingValue::Flag(true),
        ConfigKey::TrayShowBattery => SettingValue::Flag(true),
        ConfigKey::TrayShowMode => SettingValue::Flag(true),
        ConfigKey::DaemonLogLevel => SettingValue::Text("info"@),
        ConfigKey::DaemonLogFileEnabled => SettingValue::Flag(true),
        ConfigKey::DaemonLogMaxSizeMb => SettingValue::Int(10),
        ConfigKey::DaemonLogKeepFiles => SettingValue::Int(3),
        ConfigKey::DaemonLogJson => SettingValue::Flag(false),
    }
}

/// The accepted values of the curve settings.
pub open spec fn curve_choices() -> Seq<Seq<char>> {
    seq!["linear"@, "logarithmic"@, "exponential"@, "custom"@]
}

fn curve_choice_list() -> (v: Vec<&'static str>)
    ensures
        v@.map_values(|s: &str| s@) == curve_choices(),
{
    let v = vec!["linear", "logarithmic", "exponential", "custom"];
    assert(v@.map_values(|s: &str| s@) =~= curve_choices());
    v
}

/// The accepted values of the preset settings.
pub open spec fn preset_choices() -> Seq<Seq<char>> {
    seq!["default"@, "accessibility"@, "precision"@, "fast"@]
}

fn preset_choice_list() -> (v: Vec<&'static str>)
    ensures
        v@.map_values(|s: &str| s@) == preset_choices(),
{
    let v = vec!["default", "accessibility", "precision", "fast"];
    assert(v@.map_values(|s: &str| s@) =~= preset_choices());
    v
}

/// The accepted values of the position settings.
pub open spec fn position_choices() -> Seq<Seq<char>> {
    seq!["center-bottom"@, "center"@, "top-right"@, "top-left"@, "bottom-right"@, "bottom-left"@]
}

fn position_choice_list() -> (v: Vec<&'static str>)
    ensures
        v@.map_values(|s: &str| s@) == position_choices(),
{
    let v = vec!["center-bottom", "center", "top-right", "top-left", "bottom-right", "bottom-left"];
    assert(v@.map_values(|s: &str| s@) =~= position_choices());
    v
}

/// The accepted values of the size settings.
pub open spec fn size_choices() -> Seq<Seq<char>> {
    seq!["small"@, "medium"@, "large"@]
}

fn size_choice_list() -> (v: Vec<&'static str>)
    ensures
        v@.map_values(|s: &str| s@) == size_choices(),
{
    let v = vec!["small", "medium", "large"];
    assert(v@.map_values(|s: &str| s@) =~= size_choices());
    v
}

/// The accepted values of the switch mode settings.
pub open spec fn switch_mode_choices() -> Seq<Seq<char>> {
    seq!["long_press_rotate"@]
}

fn switch_mode_choice_list() -> (v: Vec<&'static str>)
    ensures
        v@.map_values(|s: &str| s@) == switch_mode_choices(),
{
    let v = vec!["long_press_rotate"];
    assert(v@.map_values(|s: &str| s@) =~= switch_mode_choices());
    v
}

/// The accepted values of the media action settings.
pub open spec fn media_action_choices() -> Seq<Seq<char>> {
    seq!["play_pause"@, "next_track"@, "prev_track"@]
}

fn media_action_choice_list() -> (v: Vec<&'static str>)
    ensures
        v@.map_values(|s: &str| s@) == media_action_choices(),
{
    let v = vec!["play_pause", "next_track", "prev_track"];
    assert(v@.map_values(|s: &str| s@) =~= media_action_choices());
    v
}

/// The accepted values of the log level settings.
pub open spec fn log_level_choices() -> Seq<Seq<char>> {
    seq!["error"@, "warn"@, "info"@, "debug"@, "trace"@]
}

fn log_level_choice_list() -> (v: Vec<&'static str>)
    ensures
        v@.map_values(|s: &str| s@) == log_level_choices(),
{
    let v = vec!["error", "warn", "info", "debug", "trace"];
    assert(v@.map_values(|s: &str| s@) =~= log_level_choices());
    v
}

/// Root configuration.
#[derive(Debug, Clone)]
pub struct Config {
    pub volume: VolumeConfig,
    pub microphone: MicrophoneConfig,
    pub acceleration: AccelerationConfig,
    pub interaction: InteractionConfig,
    pub sensitivity: SensitivityConfig,
    pub osd: OsdConfig,
    pub battery: BatteryConfig,
    pub device_switching: DeviceSwitchingConfig,
    pub media_control: MediaControlConfig,
    pub audio_feedback: AudioFeedbackConfig,
    pub events: EventsConfig,
    pub tray: TrayConfig,
    pub daemon: DaemonConfig,
}

/// The value of a setting.
pub enum SettingValue {
    Int(i32),
    Flag(bool),
    Text(Seq<char>),
    OptionalText(Option<Seq<char>>),
}

/// A setting value held by the program.
#[derive(Debug, Clone)]
pub enum Setting {
    Int(i32),
    Flag(bool),
    Text(String),
    OptionalText(Option<String>),
}

impl View for Setting {
    type V = SettingValue;

    open spec fn view(&self) -> SettingValue {
        match self {
            Setting::Int(i) => SettingValue::Int(*i),
            Setting::Flag(b) => SettingValue::Flag(*b),
            Setting::Text(s) => SettingValue::Text(s@),
            Setting::OptionalText(o) => SettingValue::OptionalText(optional_text(*o)),
        }
    }
}

/// The text of an optional string.
pub open spec fn optional_text(o: Option<String>) -> Option<Seq<char>> {
    match o {
        Some(s) => Some(s@),
        None => None,
    }
}

/// What a value must be to be accepted for a key.
pub enum KeyRule {
    /// An integer within the bounds (inclusive)
    IntRange(i32, i32),
    /// A floating-point number within the bounds, given in tenths (inclusive)
    Decimal(i32, i32),
    /// A boolean word
    Flag,
    /// One of the listed words
    OneOf(Seq<Seq<char>>),
    /// A path; the empty text clears it
    Path,
}

/// Executable form of `KeyRule`.
enum Rule {
    IntRange(i32, i32),
    Decimal(i32, i32),
    Flag,
    OneOf(Vec<&'static str>),
    Path,
}

impl View for Rule {
    type V = KeyRule;

    closed spec fn view(&self) -> KeyRule {
        match self {
            Rule::IntRange(lo, hi) => KeyRule::IntRange(*lo, *hi),
            Rule::Decimal(lo, hi) => KeyRule::Decimal(*lo, *hi),
            Rule::Flag => KeyRule::Flag,
            Rule::OneOf(v) => KeyRule::OneOf(v@.map_values(|s: &str| s@)),
            Rule::Path => KeyRule::Path,
        }
    }
}

/// Whether a value has the kind a key holds.
pub open spec fn setting_fits(k: ConfigKey, v: SettingValue) -> bool {
    match (key_rule(k), v) {
        (KeyRule::IntRange(_, _), SettingValue::Int(_)) => true,
        (KeyRule::Decimal(_, _), SettingValue::Text(_)) => true,
        (KeyRule::Flag, SettingValue::Flag(_)) => true,
        (KeyRule::OneOf(_), SettingValue::Text(_)) => true,
        (KeyRule::Path, SettingValue::OptionalText(_)) => true,
        _ => false,
    }
}

/// The text `Config::get` gives for a value: integers in decimal, booleans as
/// `true`/`false`, an absent path as the empty text.
pub open spec fn setting_text(v: SettingValue) -> Seq<char> {
    match v {
        SettingValue::Int(i) => int_text(i as int),
        SettingValue::Flag(b) => if b { "true"@ } else { "false"@ },
        SettingValue::Text(t) => t,
        SettingValue::OptionalText(o) => match o {
            Some(t) => t,
            None => Seq::empty(),
        },
    }
}

/// Configuration errors.
#[derive(Debug)]
pub enum ConfigError {
    /// The key (or section) is not known
    UnknownKey(String),
    /// The value is of the right kind but not accepted
    InvalidValue { key: String, message: String },
    /// The value is not of the kind the key holds
    TypeMismatch { key: String, expected: String, got: String },
    /// The key holds a floating-point number: `value` is to be read as a
    /// number, checked against the bounds (in tenths) and stored with
    /// `Config::set_float_text`
    FloatSetting { key: String, value: String, min_tenths: i32, max_tenths: i32 },
}

/// What a configuration error says.
pub enum ConfigFault {
    UnknownKey(Seq<char>),
    InvalidValue(Seq<char>, Seq<char>),
    TypeMismatch(Seq<char>, Seq<char>, Seq<char>),
    FloatSetting(Seq<char>, Seq<char>, i32, i32),
}

impl View for ConfigError {
    type V = ConfigFault;

    open spec fn view(&self) -> ConfigFault {
        match self {
            ConfigError::UnknownKey(s) => ConfigFault::UnknownKey(s@),
            ConfigError::InvalidValue { key, message } => ConfigFault::InvalidValue(key@, message@),
            ConfigError::TypeMismatch { key, expected, got } => ConfigFault::TypeMismatch(
                key@,
                expected@,
                got@,
            ),
            ConfigError::FloatSetting { key, value, min_tenths, max_tenths } =>
                ConfigFault::FloatSetting(key@, value@, *min_tenths, *max_tenths),
        }
    }
}

/// `list` joined with `sep` between consecutive items.
pub open spec fn join(list: Seq<Seq<char>>, sep: Seq<char>) -> Seq<char>
    decreases list.len(),
{
    if list.len() == 0 {
        Seq::empty()
    } else if list.len() == 1 {
        list[0]
    } else {
        join(list.drop_last(), sep) + sep + list.last()
    }
}

/// ASCII letters lowered, other characters kept.
pub open spec fn ascii_lower(s: Seq<char>) -> Seq<char> {
    s.map_values(|c: char| if 'A' <= c && c <= 'Z' { ((c as u32) + 32) as char } else { c })
}

/// The boolean a word denotes, compared without regard to ASCII case:
/// `true`, `1`, `yes`, `on` and `false`, `0`, `no`, `off`.  (No other
/// character lowers to one of the letters of these words, so this is what
/// comparing the Unicode lowercase gives.)
pub open spec fn bool_word(s: Seq<char>) -> Option<bool> {
    let l = ascii_lower(s);
    if l == "true"@ || l == "1"@ || l == "yes"@ || l == "on"@ {
        Some(true)
    } else if l == "false"@ || l == "0"@ || l == "no"@ || l == "off"@ {
        Some(false)
    } else {
        None
    }
}

/// The message of a value outside its range.
pub open spec fn range_text(min: i32, max: i32, v: i32) -> Seq<char> {
    "must be between "@ + int_text(min as int) + " and "@ + int_text(max as int) + ", got "@
        + int_text(v as int)
}

/// The message of a word outside its choices.
pub open spec fn choice_text(choices: Seq<Seq<char>>, v: Seq<char>) -> Seq<char> {
    "must be one of ["@ + join(choices, ", "@) + "], got '"@ + v + "'"@
}

/// What setting a key to a value gives: the new value, or the error.
pub open spec fn parsed_setting(rule: KeyRule, key: Seq<char>, value: Seq<char>) -> Result<
    SettingValue,
    ConfigFault,
> {
    match rule {
        KeyRule::IntRange(lo, hi) => match parse_i32_spec(value) {
            None => Err(ConfigFault::TypeMismatch(key, "integer"@, value)),
            Some(v) => if v < lo || v > hi {
                Err(ConfigFault::InvalidValue(key, range_text(lo, hi, v)))
            } else {
                Ok(SettingValue::Int(v))
            },
        },
        KeyRule::Decimal(lo, hi) => Err(ConfigFault::FloatSetting(key, value, lo, hi)),
        KeyRule::Flag => match bool_word(value) {
            None => Err(ConfigFault::TypeMismatch(key, "boolean (true/false)"@, value)),
            Some(b) => Ok(SettingValue::Flag(b)),
        },
        KeyRule::OneOf(choices) => if choices.contains(value) {
            Ok(SettingValue::Text(value))
        } else {
            Err(ConfigFault::InvalidValue(key, choice_text(choices, value)))
        },
        KeyRule::Path => if value.len() == 0 {
            Ok(SettingValue::OptionalText(None))
        } else {
            Ok(SettingValue::OptionalText(Some(value)))
        },
    }
}

/// The first key of `keys` with the given name.
pub open spec fn first_key_named(keys: Seq<ConfigKey>, name: Seq<char>) -> Option<ConfigKey>
    decreases keys.len(),
{
    if keys.len() == 0 {
        None
    } else if key_name(keys[0]) == name {
        Some(keys[0])
    } else {
        first_key_named(keys.drop_first(), name)
    }
}

/// The key with the given name.
pub open spec fn key_lookup(name: Seq<char>) -> Option<ConfigKey> {
    first_key_named(all_keys(), name)
}

impl ConfigKey {
    /// The dot-notation name of the key.
    pub fn name(&self) -> (s: &'static str)
        ensures
            s@ == key_name(*self),
    {
        match self {
            ConfigKey::VolumeStepMin => "volume.step_min",
            ConfigKey::VolumeStepMax => "volume.step_max",
            ConfigKey::VolumeCurve => "volume.curve",
            ConfigKey::VolumeCurveSteepness => "volume.curve_steepness",
            ConfigKey::MicrophoneStepMin => "microphone.step_min",
            ConfigKey::MicrophoneStepMax => "microphone.step_max",
            ConfigKey::MicrophoneModeDuration => "microphone.mode_duration",
            ConfigKey::MicrophoneCurve => "microphone.curve",
            ConfigKey::MicrophoneCurveSteepness => "microphone.curve_steepness",
            ConfigKey::AccelerationFastMs => "acceleration.fast_ms",
            ConfigKey::AccelerationSlowMs => "acceleration.slow_ms",
            ConfigKey::InteractionDoubleClickMs => "interaction.double_click_ms",
            ConfigKey::InteractionTripleClickMs => "interaction.triple_click_ms",
            ConfigKey::InteractionLongPressMs => "interaction.long_press_ms",
            ConfigKey::SensitivityDeadZone => "sensitivity.dead_zone",
            ConfigKey::SensitivityMultiplier => "sensitivity.multiplier",
            ConfigKey::SensitivityInvert => "sensitivity.invert",
            ConfigKey::SensitivityPreset => "sensitivity.preset",
            ConfigKey::OsdEnabled => "osd.enabled",
            ConfigKey::OsdPosition => "osd.position",
            ConfigKey::OsdSize => "osd.size",
            ConfigKey::OsdTimeoutMs => "osd.timeout_ms",
            ConfigKey::OsdOpacity => "osd.opacity",
            ConfigKey::OsdShowIcon => "osd.show_icon",
            ConfigKey::OsdShowPercentage => "osd.show_percentage",
            ConfigKey::BatteryEnabled => "battery.enabled",
            ConfigKey::BatteryPollIntervalSeconds => "battery.poll_interval_seconds",
            ConfigKey::BatteryShowInStatus => "battery.show_in_status",
            ConfigKey::BatteryShowInOsd => "battery.show_in_osd",
            ConfigKey::DeviceSwitchingEnabled => "device_switching.enabled",
            ConfigKey::DeviceSwitchingMode => "device_switching.mode",
            ConfigKey::DeviceSwitchingShowInOsd => "device_switching.show_in_osd",
            ConfigKey::MediaControlEnabled => "media_control.enabled",
            ConfigKey::MediaControlTripleClickAction => "media_control.triple_click_action",
            ConfigKey::AudioFeedbackEnabled => "audio_feedback.enabled",
            ConfigKey::AudioFeedbackVolume => "audio_feedback.volume",
            ConfigKey::AudioFeedbackTick => "audio_feedback.tick",
            ConfigKey::AudioFeedbackBoundary => "audio_feedback.boundary",
            ConfigKey::AudioFeedbackModeChange => "audio_feedback.mode_change",
            ConfigKey::AudioFeedbackMute => "audio_feedback.mute",
            ConfigKey::EventsEnabled => "events.enabled",
            ConfigKey::EventsDebounceMs => "events.debounce_ms",
            ConfigKey::EventsScriptsDir => "events.scripts_dir",
            ConfigKey::TrayEnabled => "tray.enabled",
            ConfigKey::TrayShowVolume => "tray.show_volume",
            ConfigKey::TrayShowBattery => "tray.show_battery",
            ConfigKey::TrayShowMode => "tray.show_mode",
            ConfigKey::DaemonLogLevel => "daemon.log_level",
            ConfigKey::DaemonLogFileEnabled => "daemon.log_file_enabled",
            ConfigKey::DaemonLogMaxSizeMb => "daemon.log_max_size_mb",
            ConfigKey::DaemonLogKeepFiles => "daemon.log_keep_files",
            ConfigKey::DaemonLogJson => "daemon.log_json",
        }
    }

    /// The section of the key.
    pub fn section(&self) -> (s: Section)
        ensures
            s == key_section_of(*self),
    {
        match self {
            ConfigKey::VolumeStepMin => Section::Volume,
            ConfigKey::VolumeStepMax => Section::Volume,
            ConfigKey::VolumeCurve => Section::Volume,
            ConfigKey::VolumeCurveSteepness => Section::Volume,
            ConfigKey::MicrophoneStepMin => Section::Microphone,
            ConfigKey::MicrophoneStepMax => Section::Microphone,
            ConfigKey::MicrophoneModeDuration => Section::Microphone,
            ConfigKey::MicrophoneCurve => Section::Microphone,
            ConfigKey::MicrophoneCurveSteepness => Section::Microphone,
            ConfigKey::AccelerationFastMs => Section::Acceleration,
            ConfigKey::AccelerationSlowMs => Section::Acceleration,
            ConfigKey::InteractionDoubleClickMs => Section::Interaction,
            ConfigKey::InteractionTripleClickMs => Section::Interaction,
            ConfigKey::InteractionLongPressMs => Section::Interaction,
            ConfigKey::SensitivityDeadZone => Section::Sensitivity,
            ConfigKey::SensitivityMultiplier => Section::Sensitivity,
            ConfigKey::SensitivityInvert => Section::Sensitivity,
            ConfigKey::SensitivityPreset => Section::Sensitivity,
            ConfigKey::OsdEnabled => Section::Osd,
            ConfigKey::OsdPosition => Section::Osd,
            ConfigKey::OsdSize => Section::Osd,
            ConfigKey::OsdTimeoutMs => Section::Osd,
            ConfigKey::OsdOpacity => Section::Osd,
            ConfigKey::OsdShowIcon => Section::Osd,
            ConfigKey::OsdShowPercentage => Section::Osd,
            ConfigKey::BatteryEnabled => Section::Battery,
            ConfigKey::BatteryPollIntervalSeconds => Section::Battery,
            ConfigKey::BatteryShowInStatus => Section::Battery,
            ConfigKey::BatteryShowInOsd => Section::Battery,
            ConfigKey::DeviceSwitchingEnabled => Section::DeviceSwitching,
            ConfigKey::DeviceSwitchingMode => Section::DeviceSwitching,
            ConfigKey::DeviceSwitchingShowInOsd => Section::DeviceSwitching,
            ConfigKey::MediaControlEnabled => Section::MediaControl,
            ConfigKey::MediaControlTripleClickAction => Section::MediaControl,
            ConfigKey::AudioFeedbackEnabled => Section::AudioFeedback,
            ConfigKey::AudioFeedbackVolume => Section::AudioFeedback,
            ConfigKey::AudioFeedbackTick => Section::AudioFeedback,
            ConfigKey::AudioFeedbackBoundary => Section::AudioFeedback,
            ConfigKey::AudioFeedbackModeChange => Section::AudioFeedback,
            ConfigKey::AudioFeedbackMute => Section::AudioFeedback,
            ConfigKey::EventsEnabled => Section::Events,
            ConfigKey::EventsDebounceMs => Section::Events,
            ConfigKey::EventsScriptsDir => Section::Events,
            ConfigKey::TrayEnabled => Section::Tray,
            ConfigKey::TrayShowVolume => Section::Tray,
            ConfigKey::TrayShowBattery => Section::Tray,
            ConfigKey::TrayShowMode => Section::Tray,
            ConfigKey::DaemonLogLevel => Section::Daemon,
            ConfigKey::DaemonLogFileEnabled => Section::Daemon,
            ConfigKey::DaemonLogMaxSizeMb => Section::Daemon,
            ConfigKey::DaemonLogKeepFiles => Section::Daemon,
            ConfigKey::DaemonLogJson => Section::Daemon,
        }
    }

    /// What a value must be to be accepted for the key.
    fn rule(&self) -> (r: Rule)
        ensures
            r@ == key_rule(*self),
    {
        match self {
            ConfigKey::VolumeStepMin => Rule::IntRange(1, 20),
            ConfigKey::VolumeStepMax => Rule::IntRange(1, 20),
            ConfigKey::VolumeCurve => Rule::OneOf(curve_choice_list()),
            ConfigKey::VolumeCurveSteepness => Rule::Decimal(10, 200),
            ConfigKey::MicrophoneStepMin => Rule::IntRange(1, 20),
            ConfigKey::MicrophoneStepMax => Rule::IntRange(1, 20),
            ConfigKey::MicrophoneModeDuration => Rule::IntRange(1, 60),
            ConfigKey::MicrophoneCurve => Rule::OneOf(curve_choice_list()),
            ConfigKey::MicrophoneCurveSteepness => Rule::Decimal(10, 200),
            ConfigKey::AccelerationFastMs => Rule::IntRange(10, 500),
            ConfigKey::AccelerationSlowMs => Rule::IntRange(100, 2000),
            ConfigKey::InteractionDoubleClickMs => Rule::IntRange(100, 800),
            ConfigKey::InteractionTripleClickMs => Rule::IntRange(200, 1000),
            ConfigKey::InteractionLongPressMs => Rule::IntRange(500, 3000),
            ConfigKey::SensitivityDeadZone => Rule::IntRange(0, 10),
            ConfigKey::SensitivityMultiplier => Rule::Decimal(1, 50),
            ConfigKey::SensitivityInvert => Rule::Flag,
            ConfigKey::SensitivityPreset => Rule::OneOf(preset_choice_list()),
            ConfigKey::OsdEnabled => Rule::Flag,
            ConfigKey::OsdPosition => Rule::OneOf(position_choice_list()),
            ConfigKey::OsdSize => Rule::OneOf(size_choice_list()),
            ConfigKey::OsdTimeoutMs => Rule::IntRange(500, 5000),
            ConfigKey::OsdOpacity => Rule::Decimal(1, 10),
            ConfigKey::OsdShowIcon => Rule::Flag,
            ConfigKey::OsdShowPercentage => Rule::Flag,
            ConfigKey::BatteryEnabled => Rule::Flag,
            ConfigKey::BatteryPollIntervalSeconds => Rule::IntRange(60, 3600),
            ConfigKey::BatteryShowInStatus => Rule::Flag,
            ConfigKey::BatteryShowInOsd => Rule::Flag,
            ConfigKey::DeviceSwitchingEnabled => Rule::Flag,
            ConfigKey::DeviceSwitchingMode => Rule::OneOf(switch_mode_choice_list()),
            ConfigKey::DeviceSwitchingShowInOsd => Rule::Flag,
            ConfigKey::MediaControlEnabled => Rule::Flag,
            ConfigKey::MediaControlTripleClickAction => Rule::OneOf(media_action_choice_list()),
            ConfigKey::AudioFeedbackEnabled => Rule::Flag,
            ConfigKey::AudioFeedbackVolume => Rule::Decimal(0, 10),
            ConfigKey::AudioFeedbackTick => Rule::Flag,
            ConfigKey::AudioFeedbackBoundary => Rule::Flag,
            ConfigKey::AudioFeedbackModeChange => Rule::Flag,
            ConfigKey::AudioFeedbackMute => Rule::Flag,
            ConfigKey::EventsEnabled => Rule::Flag,
            ConfigKey::EventsDebounceMs => Rule::IntRange(100, 5000),
            ConfigKey::EventsScriptsDir => Rule::Path,
            ConfigKey::TrayEnabled => Rule::Flag,
            ConfigKey::TrayShowVolume => Rule::Flag,
            ConfigKey::TrayShowBattery => Rule::Flag,
            ConfigKey::TrayShowMode => Rule::Flag,
            ConfigKey::DaemonLogLevel => Rule::OneOf(log_level_choice_list()),
            ConfigKey::DaemonLogFileEnabled => Rule::Flag,
            ConfigKey::DaemonLogMaxSizeMb => Rule::IntRange(1, 100),
            ConfigKey::DaemonLogKeepFiles => Rule::IntRange(1, 10),
            ConfigKey::DaemonLogJson => Rule::Flag,
        }
    }
}

fn all_keys_exec() -> (v: Vec<ConfigKey>)
    ensures
        v@ == all_keys(),
{
    let v = vec![
        ConfigKey::VolumeStepMin,
        ConfigKey::VolumeStepMax,
        ConfigKey::VolumeCurve,
        ConfigKey::VolumeCurveSteepness,
        ConfigKey::MicrophoneStepMin,
        ConfigKey::MicrophoneStepMax,
        ConfigKey::MicrophoneModeDuration,
        ConfigKey::MicrophoneCurve,
        ConfigKey::MicrophoneCurveSteepness,
        ConfigKey::AccelerationFastMs,
        ConfigKey::AccelerationSlowMs,
        ConfigKey::InteractionDoubleClickMs,
        ConfigKey::InteractionTripleClickMs,
        ConfigKey::InteractionLongPressMs,
        ConfigKey::SensitivityDeadZone,
        ConfigKey::SensitivityMultiplier,
        ConfigKey::SensitivityInvert,
        ConfigKey::SensitivityPreset,
        ConfigKey::OsdEnabled,
        ConfigKey::OsdPosition,
        ConfigKey::OsdSize,
        ConfigKey::OsdTimeoutMs,
        ConfigKey::OsdOpacity,
        ConfigKey::OsdShowIcon,
        ConfigKey::OsdShowPercentage,
        ConfigKey::BatteryEnabled,
        ConfigKey::BatteryPollIntervalSeconds,
        ConfigKey::BatteryShowInStatus,
        ConfigKey::BatteryShowInOsd,
        ConfigKey::DeviceSwitchingEnabled,
        ConfigKey::DeviceSwitchingMode,
        ConfigKey::DeviceSwitchingShowInOsd,
        ConfigKey::MediaControlEnabled,
        ConfigKey::MediaControlTripleClickAction,
        ConfigKey::AudioFeedbackEnabled,
        ConfigKey::AudioFeedbackVolume,
        ConfigKey::AudioFeedbackTick,
        ConfigKey::AudioFeedbackBoundary,
        ConfigKey::AudioFeedbackModeChange,
        ConfigKey::AudioFeedbackMute,
        ConfigKey::EventsEnabled,
        ConfigKey::EventsDebounceMs,
        ConfigKey::EventsScriptsDir,
        ConfigKey::TrayEnabled,
        ConfigKey::TrayShowVolume,
        ConfigKey::TrayShowBattery,
        ConfigKey::TrayShowMode,
        ConfigKey::DaemonLogLevel,
        ConfigKey::DaemonLogFileEnabled,
        ConfigKey::DaemonLogMaxSizeMb,
        ConfigKey::DaemonLogKeepFiles,
        ConfigKey::DaemonLogJson,
    ];
    assert(v@ =~= all_keys());
    v
}

impl Default for Config {
    fn default() -> (c: Self)
        ensures
            forall|k: ConfigKey| #[trigger] c.setting(k) == default_setting(k),
            c.battery.warning_thresholds@ == seq![20i32, 10i32, 5i32],
            c.events.webhooks@.len() == 0,
    {
        let c = Config {
            volume: VolumeConfig::default(),
            microphone: MicrophoneConfig::default(),
            acceleration: AccelerationConfig::default(),
            interaction: InteractionConfig::default(),
            sensitivity: SensitivityConfig::default(),
            osd: OsdConfig::default(),
            battery: BatteryConfig::default(),
            device_switching: DeviceSwitchingConfig::default(),
            media_control: MediaControlConfig::default(),
            audio_feedback: AudioFeedbackConfig::default(),
            events: EventsConfig::default(),
            tray: TrayConfig::default(),
            daemon: DaemonConfig::default(),
        };
        c
    }
}

fn flag_string(b: bool) -> (s: String)
    ensures
        s@ == setting_text(SettingValue::Flag(b)),
{
    if b {
        "true".to_owned()
    } else {
        "false".to_owned()
    }
}

fn optional_string(o: &Option<String>) -> (s: String)
    ensures
        s@ == setting_text(SettingValue::OptionalText(optional_text(*o))),
{
    match o {
        Some(t) => t.clone(),
        None => String::new(),
    }
}

/// The items of `list` joined with `sep` between consecutive ones.
fn join_exec(list: &Vec<&'static str>, sep: &str) -> (r: String)
    ensures
        r@ == join(list@.map_values(|s: &str| s@), sep@),
{
    let ghost views = list@.map_values(|s: &str| s@);
    let mut r = String::new();
    let mut i: usize = 0;
    while i < list.len()
        invariant
            i <= list@.len(),
            views == list@.map_values(|s: &str| s@),
            r@ == join(views.take(i as int), sep@),
        decreases list.len() - i,
    {
        proof {
            assert(views.take(i + 1).drop_last() =~= views.take(i as int));
            assert(views.take(i + 1).last() == list@[i as int]@);
        }
        if i > 0 {
            r.append(sep);
        } else {
            assert(views.take(1) =~= seq![views[0]]);
        }
        r.append(list[i]);
        i = i + 1;
    }
    assert(views.take(list@.len() as int) =~= views);
    r
}

/// Whether `value` is one of `list`.
fn list_contains(list: &Vec<&'static str>, value: &str) -> (b: bool)
    ensures
        b == list@.map_values(|s: &str| s@).contains(value@),
{
    let ghost views = list@.map_values(|s: &str| s@);
    let mut i: usize = 0;
    while i < list.len()
        invariant
            i <= list@.len(),
            views == list@.map_values(|s: &str| s@),
            forall|j: int| 0 <= j < i ==> views[j] != value@,
        decreases list.len() - i,
    {
        if str_eq(list[i], value) {
            assert(views[i as int] == value@);
            return true;
        }
        i = i + 1;
    }
    false
}

/// ASCII letters of `s` lowered.
pub fn ascii_lowercase(s: &str) -> (r: String)
    ensures
        r@ == ascii_lower(s@),
{
    let n = s.unicode_len();
    let mut r = String::new();
    let mut i: usize = 0;
    while i < n
        invariant
            n == s@.len(),
            i <= n,
            r@ == ascii_lower(s@.take(i as int)),
        decreases n - i,
    {
        let c = s.get_char(i);
        let l = if 'A' <= c && c <= 'Z' { ((c as u32) + 32) as u8 as char } else { c };
        proof {
            if 'A' <= c && c <= 'Z' {
                assert(((c as u32) + 32) as u8 as char == ((c as u32) + 32) as char);
            }
        }
        push_char(&mut r, l);
        assert(ascii_lower(s@.take(i + 1)) =~= ascii_lower(s@.take(i as int)).push(l));
        i = i + 1;
    }
    assert(s@.take(n as int) =~= s@);
    r
}

fn range_message(min: i32, max: i32, v: i32) -> (s: String)
    ensures
        s@ == range_text(min, max, v),
{
    let s = cat("must be between ".to_owned(), format_i32(min).as_str());
    let s = cat(s, " and ");
    let s = cat(s, format_i32(max).as_str());
    let s = cat(s, ", got ");
    cat(s, format_i32(v).as_str())
}

fn choice_message(choices: &Vec<&'static str>, v: &str) -> (s: String)
    ensures
        s@ == choice_text(choices@.map_values(|s: &str| s@), v@),
{
    let s = cat("must be one of [".to_owned(), join_exec(choices, ", ").as_str());
    let s = cat(s, "], got '");
    let s = cat(s, v);
    cat(s, "'")
}

/// Reads `value` under `rule`.
fn parse_setting(rule: Rule, key: &str, value: &str) -> (r: Result<Setting, ConfigError>)
    ensures
        match r {
            Ok(v) => parsed_setting(rule@, key@, value@) == Ok::<SettingValue, ConfigFault>(v@),
            Err(e) => parsed_setting(rule@, key@, value@) == Err::<SettingValue, ConfigFault>(e@),
        },
{
    match rule {
        Rule::IntRange(lo, hi) => match parse_i32(value) {
            None => Err(
                ConfigError::TypeMismatch {
                    key: key.to_owned(),
                    expected: "integer".to_owned(),
                    got: value.to_owned(),
                },
            ),
            Some(v) => {
                if v < lo || v > hi {
                    Err(ConfigError::InvalidValue { key: key.to_owned(), message: range_message(lo, hi, v) })
                } else {
                    Ok(Setting::Int(v))
                }
            },
        },
        Rule::Decimal(lo, hi) => Err(
            ConfigError::FloatSetting {
                key: key.to_owned(),
                value: value.to_owned(),
                min_tenths: lo,
                max_tenths: hi,
            },
        ),
        Rule::Flag => {
            let l = ascii_lowercase(value);
            let ls = l.as_str();
            if str_eq(ls, "true") || str_eq(ls, "1") || str_eq(ls, "yes") || str_eq(ls, "on") {
                Ok(Setting::Flag(true))
            } else if str_eq(ls, "false") || str_eq(ls, "0") || str_eq(ls, "no") || str_eq(
                ls,
                "off",
            ) {
                Ok(Setting::Flag(false))
            } else {
                Err(
                    ConfigError::TypeMismatch {
                        key: key.to_owned(),
                        expected: "boolean (true/false)".to_owned(),
                        got: value.to_owned(),
                    },
                )
            }
        },
        Rule::OneOf(choices) => {
            if list_contains(&choices, value) {
                Ok(Setting::Text(value.to_owned()))
            } else {
                Err(ConfigError::InvalidValue { key: key.to_owned(), message: choice_message(&choices, value) })
            }
        },
        Rule::Path => {
            if value.unicode_len() == 0 {
                Ok(Setting::OptionalText(None))
            } else {
                Ok(Setting::OptionalText(Some(value.to_owned())))
            }
        },
    }
}

impl ConfigKey {
    /// The key with the given dot-notation name.
    pub fn from_name(name: &str) -> (r: Option<ConfigKey>)
        ensures
            r == key_lookup(name@),
    {
        let keys = all_keys_exec();
        let mut i: usize = 0;
        assert(all_keys().skip(0) =~= all_keys());
        while i < keys.len()
            invariant
                keys@ == all_keys(),
                i <= keys@.len(),
                key_lookup(name@) == first_key_named(all_keys().skip(i as int), name@),
            decreases keys.len() - i,
        {
            let k = keys[i];
            proof {
                assert(all_keys().skip(i as int)[0] == k);
                assert(all_keys().skip(i as int).drop_first() =~= all_keys().skip(i + 1));
            }
            if str_eq(name, k.name()) {
                return Some(k);
            }
            i = i + 1;
        }
        None
    }
}

impl Config {
    /// The value of a key.
    pub open spec fn setting(&self, k: ConfigKey) -> SettingValue {
        match key_section_of(k) {
            Section::Volume => self.volume.setting(k),
            Section::Microphone => self.microphone.setting(k),
            Section::Acceleration => self.acceleration.setting(k),
            Section::Interaction => self.interaction.setting(k),
            Section::Sensitivity => self.sensitivity.setting(k),
            Section::Osd => self.osd.setting(k),
            Section::Battery => self.battery.setting(k),
            Section::DeviceSwitching => self.device_switching.setting(k),
            Section::MediaControl => self.media_control.setting(k),
            Section::AudioFeedback => self.audio_feedback.setting(k),
            Section::Events => self.events.setting(k),
            Section::Tray => self.tray.setting(k),
            Section::Daemon => self.daemon.setting(k),
        }
    }

    fn setting_string(&self, k: ConfigKey) -> (s: String)
        ensures
            s@ == setting_text(self.setting(k)),
    {
        match k {
            ConfigKey::VolumeStepMin => format_i32(self.volume.step_min),
            ConfigKey::VolumeStepMax => format_i32(self.volume.step_max),
            ConfigKey::VolumeCurve => self.volume.curve.clone(),
            ConfigKey::VolumeCurveSteepness => self.volume.curve_steepness.clone(),
            ConfigKey::MicrophoneStepMin => format_i32(self.microphone.step_min),
            ConfigKey::MicrophoneStepMax => format_i32(self.microphone.step_max),
            ConfigKey::MicrophoneModeDuration => format_i32(self.microphone.mode_duration),
            ConfigKey::MicrophoneCurve => self.microphone.curve.clone(),
            ConfigKey::MicrophoneCurveSteepness => self.microphone.curve_steepness.clone(),
            ConfigKey::AccelerationFastMs => format_i32(self.acceleration.fast_ms),
            ConfigKey::AccelerationSlowMs => format_i32(self.acceleration.slow_ms),
            ConfigKey::InteractionDoubleClickMs => format_i32(self.interaction.double_click_ms),
            ConfigKey::InteractionTripleClickMs => format_i32(self.interaction.triple_click_ms),
            ConfigKey::InteractionLongPressMs => format_i32(self.interaction.long_press_ms),
            ConfigKey::SensitivityDeadZone => format_i32(self.sensitivity.dead_zone),
            ConfigKey::SensitivityMultiplier => self.sensitivity.multiplier.clone(),
            ConfigKey::SensitivityInvert => flag_string(self.sensitivity.invert),
            ConfigKey::SensitivityPreset => self.sensitivity.preset.clone(),
            ConfigKey::OsdEnabled => flag_string(self.osd.enabled),
            ConfigKey::OsdPosition => self.osd.position.clone(),
            ConfigKey::OsdSize => self.osd.size.clone(),
            ConfigKey::OsdTimeoutMs => format_i32(self.osd.timeout_ms),
            ConfigKey::OsdOpacity => self.osd.opacity.clone(),
            ConfigKey::OsdShowIcon => flag_string(self.osd.show_icon),
            ConfigKey::OsdShowPercentage => flag_string(self.osd.show_percentage),
            ConfigKey::BatteryEnabled => flag_string(self.battery.enabled),
            ConfigKey::BatteryPollIntervalSeconds => format_i32(self.battery.poll_interval_seconds),
            ConfigKey::BatteryShowInStatus => flag_string(self.battery.show_in_status),
            ConfigKey::BatteryShowInOsd => flag_string(self.battery.show_in_osd),
            ConfigKey::DeviceSwitchingEnabled => flag_string(self.device_switching.enabled),
            ConfigKey::DeviceSwitchingMode => self.device_switching.mode.clone(),
            ConfigKey::DeviceSwitchingShowInOsd => flag_string(self.device_switching.show_in_osd),
            ConfigKey::MediaControlEnabled => flag_string(self.media_control.enabled),
            ConfigKey::MediaControlTripleClickAction => self.media_control.triple_click_action.clone(),
            ConfigKey::AudioFeedbackEnabled => flag_string(self.audio_feedback.enabled),
            ConfigKey::AudioFeedbackVolume => self.audio_feedback.volume.clone(),
            ConfigKey::AudioFeedbackTick => flag_string(self.audio_feedback.tick),
            ConfigKey::AudioFeedbackBoundary => flag_string(self.audio_feedback.boundary),
            ConfigKey::AudioFeedbackModeChange => flag_string(self.audio_feedback.mode_change),
            ConfigKey::AudioFeedbackMute => flag_string(self.audio_feedback.mute),
            ConfigKey::EventsEnabled => flag_string(self.events.enabled),
            ConfigKey::EventsDebounceMs => format_i32(self.events.debounce_ms),
            ConfigKey::EventsScriptsDir => optional_string(&self.events.scripts_dir),
            ConfigKey::TrayEnabled => flag_string(self.tray.enabled),
            ConfigKey::TrayShowVolume => flag_string(self.tray.show_volume),
            ConfigKey::TrayShowBattery => flag_string(self.tray.show_battery),
            ConfigKey::TrayShowMode => flag_string(self.tray.show_mode),
            ConfigKey::DaemonLogLevel => self.daemon.log_level.clone(),
            ConfigKey::DaemonLogFileEnabled => flag_string(self.daemon.log_file_enabled),
            ConfigKey::DaemonLogMaxSizeMb => format_i32(self.daemon.log_max_size_mb),
            ConfigKey::DaemonLogKeepFiles => format_i32(self.daemon.log_keep_files),
            ConfigKey::DaemonLogJson => flag_string(self.daemon.log_json),
        }
    }

    fn store(&mut self, k: ConfigKey, v: Setting)
        requires
            setting_fits(k, v@),
        ensures
            final(self).setting(k) == v@,
            final(self).agrees_except(*old(self), k),
    {
        match k.section() {
            Section::Volume => self.volume.store(k, v),
            Section::Microphone => self.microphone.store(k, v),
            Section::Acceleration => self.acceleration.store(k, v),
            Section::Interaction => self.interaction.store(k, v),
            Section::Sensitivity => self.sensitivity.store(k, v),
            Section::Osd => self.osd.store(k, v),
            Section::Battery => self.battery.store(k, v),
            Section::DeviceSwitching => self.device_switching.store(k, v),
            Section::MediaControl => self.media_control.store(k, v),
            Section::AudioFeedback => self.audio_feedback.store(k, v),
            Section::Events => self.events.store(k, v),
            Section::Tray => self.tray.store(k, v),
            Section::Daemon => self.daemon.store(k, v),
        }
    }
    /// `self` holds the same values as `other` for every key but `k`, and the
    /// same warning thresholds and webhooks.
    pub open spec fn agrees_except(&self, other: Config, k: ConfigKey) -> bool {
        &&& forall|k2: ConfigKey| k2 != k ==> #[trigger] self.setting(k2) == other.setting(k2)
        &&& self.battery.warning_thresholds == other.battery.warning_thresholds
        &&& self.events.webhooks == other.events.webhooks
    }

    /// The names of all configurable keys.
    pub fn keys() -> (v: Vec<&'static str>)
        ensures
            v@.map_values(|s: &str| s@) == all_keys().map_values(|k: ConfigKey| key_name(k)),
    {
        let keys = all_keys_exec();
        let mut v: Vec<&'static str> = Vec::new();
        let mut i: usize = 0;
        while i < keys.len()
            invariant
                keys@ == all_keys(),
                i <= keys@.len(),
                v@.map_values(|s: &str| s@) == all_keys().take(i as int).map_values(
                    |k: ConfigKey| key_name(k),
                ),
            decreases keys.len() - i,
        {
            v.push(keys[i].name());
            assert(all_keys().take(i + 1).map_values(|k: ConfigKey| key_name(k)) =~= all_keys().take(
                i as int,
            ).map_values(|k: ConfigKey| key_name(k)).push(key_name(keys@[i as int])));
            assert(v@.map_values(|s: &str| s@) =~= all_keys().take(i + 1).map_values(
                |k: ConfigKey| key_name(k),
            ));
            i = i + 1;
        }
        assert(all_keys().take(52) =~= all_keys());
        v
    }

    /// The value of a key as text.
    pub fn get(&self, key: &str) -> (r: Result<String, ConfigError>)
        ensures
            match key_lookup(key@) {
                None => r matches Err(e) && e@ == ConfigFault::UnknownKey(key@),
                Some(k) => r matches Ok(s) && s@ == setting_text(self.setting(k)),
            },
    {
        match ConfigKey::from_name(key) {
            None => Err(ConfigError::UnknownKey(key.to_owned())),
            Some(k) => Ok(self.setting_string(k)),
        }
    }

    /// Sets a key from text, after checking the value against the key's rule.
    /// On error nothing changes.  Floating-point keys answer
    /// `ConfigError::FloatSetting`: their text is read as a number by the
    /// caller and stored with `set_float_text`.
    pub fn set(&mut self, key: &str, value: &str) -> (r: Result<(), ConfigError>)
        ensures
            match key_lookup(key@) {
                None => r matches Err(e) && e@ == ConfigFault::UnknownKey(key@) && *final(self)
                    == *old(self),
                Some(k) => match parsed_setting(key_rule(k), key@, value@) {
                    Ok(v) => r is Ok && final(self).setting(k) == v && final(self).agrees_except(
                        *old(self),
                        k,
                    ),
                    Err(f) => r matches Err(e) && e@ == f && *final(self) == *old(self),
                },
            },
    {
        match ConfigKey::from_name(key) {
            None => Err(ConfigError::UnknownKey(key.to_owned())),
            Some(k) => {
                let v = parse_setting(k.rule(), key, value)?;
                proof {
                    assert(setting_fits(k, v@));
                }
                self.store(k, v);
                Ok(())
            },
        }
    }

    /// Same as `set`.
    pub fn set_value(&mut self, key: &str, value: &str) -> (r: Result<(), ConfigError>)
        ensures
            match key_lookup(key@) {
                None => r matches Err(e) && e@ == ConfigFault::UnknownKey(key@) && *final(self)
                    == *old(self),
                Some(k) => match parsed_setting(key_rule(k), key@, value@) {
                    Ok(v) => r is Ok && final(self).setting(k) == v && final(self).agrees_except(
                        *old(self),
                        k,
                    ),
                    Err(f) => r matches Err(e) && e@ == f && *final(self) == *old(self),
                },
            },
    {
        self.set(key, value)
    }

    /// Stores the decimal text of a floating-point key (one whose rule is
    /// `Decimal`); any other key is refused as unknown.
    pub fn set_float_text(&mut self, key: &str, text: &str) -> (r: Result<(), ConfigError>)
        ensures
            match key_lookup(key@) {
                Some(k) => if key_rule(k) is Decimal {
                    r is Ok && final(self).setting(k) == SettingValue::Text(text@)
                        && final(self).agrees_except(*old(self), k)
                } else {
                    r matches Err(e) && e@ == ConfigFault::UnknownKey(key@) && *final(self)
                        == *old(self)
                },
                None => r matches Err(e) && e@ == ConfigFault::UnknownKey(key@) && *final(self)
                    == *old(self),
            },
    {
        match ConfigKey::from_name(key) {
            Some(k) => {
                match k.rule() {
                    Rule::Decimal(_, _) => {
                        self.store(k, Setting::Text(text.to_owned()));
                        Ok(())
                    },
                    _ => Err(ConfigError::UnknownKey(key.to_owned())),
                }
            },
            None => Err(ConfigError::UnknownKey(key.to_owned())),
        }
    }

    /// The cross-field and word checks of `validate`, one message per failed
    /// check.
    pub open spec fn validation_errors(&self) -> Seq<Seq<char>> {
        one_if(
            self.volume.step_min > self.volume.step_max,
            order_text("volume.step_min"@, self.volume.step_min, "<="@, "volume.step_max"@, self.volume.step_max),
        ) + one_if(
            self.microphone.step_min > self.microphone.step_max,
            order_text("microphone.step_min"@, self.microphone.step_min, "<="@, "microphone.step_max"@, self.microphone.step_max),
        ) + one_if(
            self.acceleration.fast_ms >= self.acceleration.slow_ms,
            order_text("acceleration.fast_ms"@, self.acceleration.fast_ms, "<"@, "acceleration.slow_ms"@, self.acceleration.slow_ms),
        ) + one_if(
            self.interaction.double_click_ms >= self.interaction.triple_click_ms,
            order_text("interaction.double_click_ms"@, self.interaction.double_click_ms, "<"@, "interaction.triple_click_ms"@, self.interaction.triple_click_ms),
        ) + one_if(
            self.interaction.triple_click_ms >= self.interaction.long_press_ms,
            order_text("interaction.triple_click_ms"@, self.interaction.triple_click_ms, "<"@, "interaction.long_press_ms"@, self.interaction.long_press_ms),
        ) + one_if(
            !curve_choices().contains(self.volume.curve@),
            word_text("volume.curve"@, self.volume.curve@, curve_choices()),
        ) + one_if(
            !curve_choices().contains(self.microphone.curve@),
            word_text("microphone.curve"@, self.microphone.curve@, curve_choices()),
        ) + one_if(
            !preset_choices().contains(self.sensitivity.preset@),
            word_text("sensitivity.preset"@, self.sensitivity.preset@, preset_choices()),
        ) + one_if(
            !position_choices().contains(self.osd.position@),
            word_text("osd.position"@, self.osd.position@, position_choices()),
        ) + one_if(
            !size_choices().contains(self.osd.size@),
            word_text("osd.size"@, self.osd.size@, size_choices()),
        ) + one_if(
            !switch_mode_choices().contains(self.device_switching.mode@),
            word_text("device_switching.mode"@, self.device_switching.mode@, switch_mode_choices()),
        ) + one_if(
            !media_action_choices().contains(self.media_control.triple_click_action@),
            word_text("media_control.triple_click_action"@, self.media_control.triple_click_action@, media_action_choices()),
        ) + one_if(
            !log_level_choices().contains(self.daemon.log_level@),
            word_text("daemon.log_level"@, self.daemon.log_level@, log_level_choices()),
        )
    }

    /// Checks cross-field constraints (step and timing order) and the words
    /// of the word-valued settings; returns one message per failed check,
    /// empty when the configuration is valid.
    pub fn validate(&self) -> (errors: Vec<String>)
        ensures
            errors@.map_values(|s: String| s@) == self.validation_errors(),
    {
        let mut errors: Vec<String> = Vec::new();
        assert(errors@.map_values(|s: String| s@) =~= Seq::<Seq<char>>::empty());
        push_if(
            &mut errors,
            self.volume.step_min > self.volume.step_max,
            order_message("volume.step_min", self.volume.step_min, "<=", "volume.step_max", self.volume.step_max),
        );
        push_if(
            &mut errors,
            self.microphone.step_min > self.microphone.step_max,
            order_message("microphone.step_min", self.microphone.step_min, "<=", "microphone.step_max", self.microphone.step_max),
        );
        push_if(
            &mut errors,
            self.acceleration.fast_ms >= self.acceleration.slow_ms,
            order_message("acceleration.fast_ms", self.acceleration.fast_ms, "<", "acceleration.slow_ms", self.acceleration.slow_ms),
        );
        push_if(
            &mut errors,
            self.interaction.double_click_ms >= self.interaction.triple_click_ms,
            order_message("interaction.double_click_ms", self.interaction.double_click_ms, "<", "interaction.triple_click_ms", self.interaction.triple_click_ms),
        );
        push_if(
            &mut errors,
            self.interaction.triple_click_ms >= self.interaction.long_press_ms,
            order_message("interaction.triple_click_ms", self.interaction.triple_click_ms, "<", "interaction.long_press_ms", self.interaction.long_press_ms),
        );
        check_word(&mut errors, "volume.curve", self.volume.curve.as_str(), &curve_choice_list());
        check_word(&mut errors, "microphone.curve", self.microphone.curve.as_str(), &curve_choice_list());
        check_word(&mut errors, "sensitivity.preset", self.sensitivity.preset.as_str(), &preset_choice_list());
        check_word(&mut errors, "osd.position", self.osd.position.as_str(), &position_choice_list());
        check_word(&mut errors, "osd.size", self.osd.size.as_str(), &size_choice_list());
        check_word(&mut errors, "device_switching.mode", self.device_switching.mode.as_str(), &switch_mode_choice_list());
        check_word(
            &mut errors,
            "media_control.triple_click_action",
            self.media_control.triple_click_action.as_str(),
            &media_action_choice_list(),
        );
        check_word(&mut errors, "daemon.log_level", self.daemon.log_level.as_str(), &log_level_choice_list());
        errors
    }

    /// Whether `validate` finds nothing.
    pub fn is_valid(&self) -> (b: bool)
        ensures
            b == (self.validation_errors().len() == 0),
    {
        let errors = self.validate();
        assert(errors@.map_values(|s: String| s@).len() == errors@.len());
        errors.len() == 0
    }

    /// Resets one section to its defaults; other sections are kept.
    pub fn reset_section(&mut self, section: &str) -> (r: Result<(), ConfigError>)
        ensures
            match section_lookup(section@) {
                Some(sec) => {
                    &&& r is Ok
                    &&& forall|k: ConfigKey| #[trigger]
                        final(self).setting(k) == if key_section_of(k) == sec {
                            default_setting(k)
                        } else {
                            old(self).setting(k)
                        }
                    &&& final(self).battery.warning_thresholds@ == if sec == Section::Battery {
                        seq![20i32, 10i32, 5i32]
                    } else {
                        old(self).battery.warning_thresholds@
                    }
                    &&& final(self).events.webhooks@ == if sec == Section::Events {
                        Seq::<WebhookConfig>::empty()
                    } else {
                        old(self).events.webhooks@
                    }
                },
                None => r matches Err(e) && e@ == ConfigFault::UnknownKey(
                    unknown_section_text(section@),
                ) && *final(self) == *old(self),
            },
    {
        match Section::from_name(section) {
            Some(Section::Volume) => self.volume = VolumeConfig::default(),
            Some(Section::Microphone) => self.microphone = MicrophoneConfig::default(),
            Some(Section::Acceleration) => self.acceleration = AccelerationConfig::default(),
            Some(Section::Interaction) => self.interaction = InteractionConfig::default(),
            Some(Section::Sensitivity) => self.sensitivity = SensitivityConfig::default(),
            Some(Section::Osd) => self.osd = OsdConfig::default(),
            Some(Section::Battery) => self.battery = BatteryConfig::default(),
            Some(Section::DeviceSwitching) => self.device_switching = DeviceSwitchingConfig::default(),
            Some(Section::MediaControl) => self.media_control = MediaControlConfig::default(),
            Some(Section::AudioFeedback) => self.audio_feedback = AudioFeedbackConfig::default(),
            Some(Section::Events) => self.events = EventsConfig::default(),
            Some(Section::Tray) => self.tray = TrayConfig::default(),
            Some(Section::Daemon) => self.daemon = DaemonConfig::default(),
            None => {
                let m = cat("unknown section '".to_owned(), section);
                let m = cat(m, "'. Valid sections: volume, microphone, acceleration, interaction, sensitivity, osd, battery, device_switching, media_control, audio_feedback, events, tray, daemon");
                return Err(ConfigError::UnknownKey(m));
            },
        }
        Ok(())
    }
}

/// Every section, in the order of the configuration file.
pub open spec fn all_sections() -> Seq<Section> {
    seq![
        Section::Volume,
        Section::Microphone,
        Section::Acceleration,
        Section::Interaction,
        Section::Sensitivity,
        Section::Osd,
        Section::Battery,
        Section::DeviceSwitching,
        Section::MediaControl,
        Section::AudioFeedback,
        Section::Events,
        Section::Tray,
        Section::Daemon,
    ]
}

/// The first section of `sections` with the given name.
pub open spec fn first_section_named(sections: Seq<Section>, name: Seq<char>) -> Option<Section>
    decreases sections.len(),
{
    if sections.len() == 0 {
        None
    } else if section_name(sections[0]) == name {
        Some(sections[0])
    } else {
        first_section_named(sections.drop_first(), name)
    }
}

/// The section with the given name.
pub open spec fn section_lookup(name: Seq<char>) -> Option<Section> {
    first_section_named(all_sections(), name)
}

impl Section {
    /// The name of the section.
    pub fn name(&self) -> (s: &'static str)
        ensures
            s@ == section_name(*self),
    {
        match self {
            Section::Volume => "volume",
            Section::Microphone => "microphone",
            Section::Acceleration => "acceleration",
            Section::Interaction => "interaction",
            Section::Sensitivity => "sensitivity",
            Section::Osd => "osd",
            Section::Battery => "battery",
            Section::DeviceSwitching => "device_switching",
            Section::MediaControl => "media_control",
            Section::AudioFeedback => "audio_feedback",
            Section::Events => "events",
            Section::Tray => "tray",
            Section::Daemon => "daemon",
        }
    }

    /// The section with the given name.
    pub fn from_name(name: &str) -> (r: Option<Section>)
        ensures
            r == section_lookup(name@),
    {
        let sections = vec![
            Section::Volume,
            Section::Microphone,
            Section::Acceleration,
            Section::Interaction,
            Section::Sensitivity,
            Section::Osd,
            Section::Battery,
            Section::DeviceSwitching,
            Section::MediaControl,
            Section::AudioFeedback,
            Section::Events,
            Section::Tray,
            Section::Daemon,
        ];
        assert(sections@ =~= all_sections());
        assert(all_sections().skip(0) =~= all_sections());
        let mut i: usize = 0;
        while i < sections.len()
            invariant
                sections@ == all_sections(),
                i <= sections@.len(),
                section_lookup(name@) == first_section_named(all_sections().skip(i as int), name@),
            decreases sections.len() - i,
        {
            let s = sections[i];
            proof {
                assert(all_sections().skip(i as int)[0] == s);
                assert(all_sections().skip(i as int).drop_first() =~= all_sections().skip(i + 1));
            }
            if str_eq(name, s.name()) {
                return Some(s);
            }
            i = i + 1;
        }
        None
    }
}

/// The message of an unknown section.
pub open spec fn unknown_section_text(section: Seq<char>) -> Seq<char> {
    "unknown section '"@ + section
        + "'. Valid sections: volume, microphone, acceleration, interaction, sensitivity, osd, battery, device_switching, media_control, audio_feedback, events, tray, daemon"@
}

/// `seq![m]` when `c` holds, empty otherwise.
pub open spec fn one_if(c: bool, m: Seq<char>) -> Seq<Seq<char>> {
    if c {
        seq![m]
    } else {
        Seq::empty()
    }
}

/// The message of an ordering constraint: `left (a) must be rel right (b)`.
pub open spec fn order_text(left: Seq<char>, a: i32, rel: Seq<char>, right: Seq<char>, b: i32) -> Seq<
    char,
> {
    left + " ("@ + int_text(a as int) + ") must be "@ + rel + " "@ + right + " ("@ + int_text(
        b as int,
    ) + ")"@
}

/// The message of a word outside its choices: `name 'value' must be one of: ...`.
pub open spec fn word_text(name: Seq<char>, value: Seq<char>, choices: Seq<Seq<char>>) -> Seq<char> {
    name + " '"@ + value + "' must be one of: "@ + join(choices, ", "@)
}

fn order_message(left: &str, a: i32, rel: &str, right: &str, b: i32) -> (s: String)
    ensures
        s@ == order_text(left@, a, rel@, right@, b),
{
    let s = cat(left.to_owned(), " (");
    let s = cat(s, format_i32(a).as_str());
    let s = cat(s, ") must be ");
    let s = cat(s, rel);
    let s = cat(s, " ");
    let s = cat(s, right);
    let s = cat(s, " (");
    let s = cat(s, format_i32(b).as_str());
    cat(s, ")")
}

fn push_if(errors: &mut Vec<String>, c: bool, m: String)
    ensures
        final(errors)@.map_values(|s: String| s@) == old(errors)@.map_values(|s: String| s@)
            + one_if(c, m@),
{
    if c {
        errors.push(m);
    }
    assert(errors@.map_values(|s: String| s@) =~= old(errors)@.map_values(|s: String| s@) + one_if(
        c,
        m@,
    ));
}

fn check_word(errors: &mut Vec<String>, name: &str, value: &str, choices: &Vec<&'static str>)
    ensures
        final(errors)@.map_values(|s: String| s@) == old(errors)@.map_values(|s: String| s@)
            + one_if(
            !choices@.map_values(|s: &str| s@).contains(value@),
            word_text(name@, value@, choices@.map_values(|s: &str| s@)),
        ),
{
    let ok = list_contains(choices, value);
    let m = cat(name.to_owned(), " '");
    let m = cat(m, value);
    let m = cat(m, "' must be one of: ");
    let m = cat(m, join_exec(choices, ", ").as_str());
    push_if(errors, !ok, m);
}


/// Whether a value satisfies a key's rule (range, choices), so that writing
/// its text back is accepted.
pub open spec fn value_accepted(k: ConfigKey, v: SettingValue) -> bool {
    match (key_rule(k), v) {
        (KeyRule::IntRange(lo, hi), SettingValue::Int(i)) => lo <= i <= hi,
        (KeyRule::Flag, SettingValue::Flag(_)) => true,
        (KeyRule::OneOf(choices), SettingValue::Text(t)) => choices.contains(t),
        (KeyRule::Path, SettingValue::OptionalText(o)) => match o {
            Some(t) => t.len() > 0,
            None => true,
        },
        _ => false,
    }
}

/// Writing back the text that `get` gives for a key is accepted and leaves
/// the key's value unchanged, for every key whose value satisfies its rule
/// (floating-point keys are read as numbers outside the library).
pub proof fn lemma_get_then_set_roundtrip(c: Config, k: ConfigKey)
    requires
        value_accepted(k, c.setting(k)),
    ensures
        parsed_setting(key_rule(k), key_name(k), setting_text(c.setting(k))) == Ok::<
            SettingValue,
            ConfigFault,
        >(c.setting(k)),
{
    reveal_strlit("true");
    reveal_strlit("false");
    reveal_strlit("1");
    reveal_strlit("yes");
    reveal_strlit("on");
    reveal_strlit("0");
    reveal_strlit("no");
    reveal_strlit("off");
    match c.setting(k) {
        SettingValue::Int(i) => {
            crate::text::lemma_parse_format_i32(i);
        },
        SettingValue::Flag(b) => {
            let t = setting_text(c.setting(k));
            assert(ascii_lower(t) =~= t);
        },
        _ => {},
    }
}

/// For the floating-point keys, `set` hands the text it is given back to its
/// caller as a `FloatSetting` (the number is read outside the library), and
/// the text that `get` gives, stored back with `set_float_text`, leaves the
/// key's value unchanged: get then store is a round trip for these keys too.
pub proof fn lemma_float_get_then_store_roundtrip(c: Config, k: ConfigKey)
    requires
        key_rule(k) is Decimal,
    ensures
        SettingValue::Text(setting_text(c.setting(k))) == c.setting(k),
        parsed_setting(key_rule(k), key_name(k), setting_text(c.setting(k))) == Err::<
            SettingValue,
            ConfigFault,
        >(
            ConfigFault::FloatSetting(
                key_name(k),
                setting_text(c.setting(k)),
                key_rule(k)->Decimal_0,
                key_rule(k)->Decimal_1,
            ),
        ),
{
    match k {
        ConfigKey::VolumeCurveSteepness => {},
        ConfigKey::MicrophoneCurveSteepness => {},
        ConfigKey::SensitivityMultiplier => {},
        ConfigKey::OsdOpacity => {},
        ConfigKey::AudioFeedbackVolume => {},
        _ => {},
    }
}

/// A configuration that `validate` passes (`is_valid`) keeps every
/// cross-field order: step minimum at most step maximum (volume and
/// microphone), fast threshold below slow threshold, and double-click window
/// below triple-click window below long-press time; and its word settings
/// are among their accepted words.
pub proof fn lemma_valid_config_is_ordered(c: Config)
    requires
        c.validation_errors().len() == 0,
    ensures
        c.volume.step_min <= c.volume.step_max,
        c.microphone.step_min <= c.microphone.step_max,
        c.acceleration.fast_ms < c.acceleration.slow_ms,
        c.interaction.double_click_ms < c.interaction.triple_click_ms,
        c.interaction.triple_click_ms < c.interaction.long_press_ms,
        curve_choices().contains(c.volume.curve@),
        curve_choices().contains(c.microphone.curve@),
        preset_choices().contains(c.sensitivity.preset@),
        position_choices().contains(c.osd.position@),
        size_choices().contains(c.osd.size@),
        switch_mode_choices().contains(c.device_switching.mode@),
        media_action_choices().contains(c.media_control.triple_click_action@),
        log_level_choices().contains(c.daemon.log_level@),
{
}

/// The accepted range of each integer setting, as the settings reference
/// gives it; `None` for the settings that are not integers.
pub open spec fn documented_int_range(k: ConfigKey) -> Option<(i32, i32)> {
    match k {
        ConfigKey::VolumeStepMin => Some((1i32, 20i32)),
        ConfigKey::VolumeStepMax => Some((1i32, 20i32)),
        ConfigKey::MicrophoneStepMin => Some((1i32, 20i32)),
        ConfigKey::MicrophoneStepMax => Some((1i32, 20i32)),
        ConfigKey::MicrophoneModeDuration => Some((1i32, 60i32)),
        ConfigKey::AccelerationFastMs => Some((10i32, 500i32)),
        ConfigKey::AccelerationSlowMs => Some((100i32, 2000i32)),
        ConfigKey::InteractionDoubleClickMs => Some((100i32, 800i32)),
        ConfigKey::InteractionTripleClickMs => Some((200i32, 1000i32)),
        ConfigKey::InteractionLongPressMs => Some((500i32, 3000i32)),
        ConfigKey::SensitivityDeadZone => Some((0i32, 10i32)),
        ConfigKey::OsdTimeoutMs => Some((500i32, 5000i32)),
        ConfigKey::BatteryPollIntervalSeconds => Some((60i32, 3600i32)),
        ConfigKey::EventsDebounceMs => Some((100i32, 5000i32)),
        ConfigKey::DaemonLogMaxSizeMb => Some((1i32, 100i32)),
        ConfigKey::DaemonLogKeepFiles => Some((1i32, 10i32)),
        _ => None,
    }
}

/// Setting an integer key from the decimal text of `v` (what `set` does for
/// that key) accepts and stores `v` exactly when `v` lies in the key's
/// documented range, and otherwise answers `InvalidValue` with the range;
/// every other key is not read as an integer at all.
pub proof fn lemma_int_setting_ranges(k: ConfigKey, v: i32)
    ensures
        match documented_int_range(k) {
            Some((lo, hi)) => parsed_setting(key_rule(k), key_name(k), int_text(v as int))
                == if lo <= v <= hi {
                Ok::<SettingValue, ConfigFault>(SettingValue::Int(v))
            } else {
                Err::<SettingValue, ConfigFault>(
                    ConfigFault::InvalidValue(key_name(k), range_text(lo, hi, v)),
                )
            },
            None => !(key_rule(k) is IntRange),
        },
{
    crate::text::lemma_parse_format_i32(v);
}

/// A name that some key of `keys` has is found, and the key found has it.
pub proof fn lemma_named_key_found(keys: Seq<ConfigKey>, name: Seq<char>, j: int)
    requires
        0 <= j < keys.len(),
        key_name(keys[j]) == name,
    ensures
        first_key_named(keys, name) matches Some(k) && key_name(k) == name,
    decreases keys.len(),
{
    if key_name(keys[0]) != name {
        lemma_named_key_found(keys.drop_first(), name, j - 1);
    }
}

/// Every listed key can be looked up by its name.
pub proof fn lemma_every_key_found(k: ConfigKey)
    ensures
        key_lookup(key_name(k)) matches Some(k2) && key_name(k2) == key_name(k),
{
    let j = choose|j: int| 0 <= j < all_keys().len() && all_keys()[j] == k;
    assert(exists|j: int| 0 <= j < all_keys().len() && all_keys()[j] == k) by {
        match k {
            ConfigKey::VolumeStepMin => { assert(all_keys()[0] == k); },
            ConfigKey::VolumeStepMax => { assert(all_keys()[1] == k); },
            ConfigKey::VolumeCurve => { assert(all_keys()[2] == k); },
            ConfigKey::VolumeCurveSteepness => { assert(all_keys()[3] == k); },
            ConfigKey::MicrophoneStepMin => { assert(all_keys()[4] == k); },
            ConfigKey::MicrophoneStepMax => { assert(all_keys()[5] == k); },
            ConfigKey::MicrophoneModeDuration => { assert(all_keys()[6] == k); },
            ConfigKey::MicrophoneCurve => { assert(all_keys()[7] == k); },
            ConfigKey::MicrophoneCurveSteepness => { assert(all_keys()[8] == k); },
            ConfigKey::AccelerationFastMs => { assert(all_keys()[9] == k); },
            ConfigKey::AccelerationSlowMs => { assert(all_keys()[10] == k); },
            ConfigKey::InteractionDoubleClickMs => { assert(all_keys()[11] == k); },
            ConfigKey::InteractionTripleClickMs => { assert(all_keys()[12] == k); },
            ConfigKey::InteractionLongPressMs => { assert(all_keys()[13] == k); },
            ConfigKey::SensitivityDeadZone => { assert(all_keys()[14] == k); },
            ConfigKey::SensitivityMultiplier => { assert(all_keys()[15] == k); },
            ConfigKey::SensitivityInvert => { assert(all_keys()[16] == k); },
            ConfigKey::SensitivityPreset => { assert(all_keys()[17] == k); },
            ConfigKey::OsdEnabled => { assert(all_keys()[18] == k); },
            ConfigKey::OsdPosition => { assert(all_keys()[19] == k); },
            ConfigKey::OsdSize => { assert(all_keys()[20] == k); },
            ConfigKey::OsdTimeoutMs => { assert(all_keys()[21] == k); },
            ConfigKey::OsdOpacity => { assert(all_keys()[22] == k); },
            ConfigKey::OsdShowIcon => { assert(all_keys()[23] == k); },
            ConfigKey::OsdShowPercentage => { assert(all_keys()[24] == k); },
            ConfigKey::BatteryEnabled => { assert(all_keys()[25] == k); },
            ConfigKey::BatteryPollIntervalSeconds => { assert(all_keys()[26] == k); },
            ConfigKey::BatteryShowInStatus => { assert(all_keys()[27] == k); },
            ConfigKey::BatteryShowInOsd => { assert(all_keys()[28] == k); },
            ConfigKey::DeviceSwitchingEnabled => { assert(all_keys()[29] == k); },
            ConfigKey::DeviceSwitchingMode => { assert(all_keys()[30] == k); },
            ConfigKey::DeviceSwitchingShowInOsd => { assert(all_keys()[31] == k); },
            ConfigKey::MediaControlEnabled => { assert(all_keys()[32] == k); },
            ConfigKey::MediaControlTripleClickAction => { assert(all_keys()[33] == k); },
            ConfigKey::AudioFeedbackEnabled => { assert(all_keys()[34] == k); },
            ConfigKey::AudioFeedbackVolume => { assert(all_keys()[35] == k); },
            ConfigKey::AudioFeedbackTick => { assert(all_keys()[36] == k); },
            ConfigKey::AudioFeedbackBoundary => { assert(all_keys()[37] == k); },
            ConfigKey::AudioFeedbackModeChange => { assert(all_keys()[38] == k); },
            ConfigKey::AudioFeedbackMute => { assert(all_keys()[39] == k); },
            ConfigKey::EventsEnabled => { assert(all_keys()[40] == k); },
            ConfigKey::EventsDebounceMs => { assert(all_keys()[41] == k); },
            ConfigKey::EventsScriptsDir => { assert(all_keys()[42] == k); },
            ConfigKey::TrayEnabled => { assert(all_keys()[43] == k); },
            ConfigKey::TrayShowVolume => { assert(all_keys()[44] == k); },
            ConfigKey::TrayShowBattery => { assert(all_keys()[45] == k); },
            ConfigKey::TrayShowMode => { assert(all_keys()[46] == k); },
            ConfigKey::DaemonLogLevel => { assert(all_keys()[47] == k); },
            ConfigKey::DaemonLogFileEnabled => { assert(all_keys()[48] == k); },
            ConfigKey::DaemonLogMaxSizeMb => { assert(all_keys()[49] == k); },
            ConfigKey::DaemonLogKeepFiles => { assert(all_keys()[50] == k); },
            ConfigKey::DaemonLogJson => { assert(all_keys()[51] == k); },
        }
    }
    lemma_named_key_found(all_keys(), key_name(k), j);
}

/// The default configuration passes validation.
pub proof fn lemma_default_is_valid(c: Config)
    requires
        forall|k: ConfigKey| #[trigger] c.setting(k) == default_setting(k),
    ensures
        c.validation_errors().len() == 0,
{
    assert(c.setting(ConfigKey::VolumeStepMin) == default_setting(ConfigKey::VolumeStepMin));
    assert(c.setting(ConfigKey::VolumeStepMax) == default_setting(ConfigKey::VolumeStepMax));
    assert(c.setting(ConfigKey::MicrophoneStepMin) == default_setting(ConfigKey::MicrophoneStepMin));
    assert(c.setting(ConfigKey::MicrophoneStepMax) == default_setting(ConfigKey::MicrophoneStepMax));
    assert(c.setting(ConfigKey::AccelerationFastMs) == default_setting(ConfigKey::AccelerationFastMs));
    assert(c.setting(ConfigKey::AccelerationSlowMs) == default_setting(ConfigKey::AccelerationSlowMs));
    assert(c.setting(ConfigKey::InteractionDoubleClickMs) == default_setting(ConfigKey::InteractionDoubleClickMs));
    assert(c.setting(ConfigKey::InteractionTripleClickMs) == default_setting(ConfigKey::InteractionTripleClickMs));
    assert(c.setting(ConfigKey::InteractionLongPressMs) == default_setting(ConfigKey::InteractionLongPressMs));
    assert(c.setting(ConfigKey::VolumeCurve) == default_setting(ConfigKey::VolumeCurve));
    assert(curve_choices()[1] == c.volume.curve@);
    assert(c.setting(ConfigKey::MicrophoneCurve) == default_setting(ConfigKey::MicrophoneCurve));
    assert(curve_choices()[0] == c.microphone.curve@);
    assert(c.setting(ConfigKey::SensitivityPreset) == default_setting(ConfigKey::SensitivityPreset));
    assert(preset_choices()[0] == c.sensitivity.preset@);
    assert(c.setting(ConfigKey::OsdPosition) == default_setting(ConfigKey::OsdPosition));
    assert(position_choices()[0] == c.osd.position@);
    assert(c.setting(ConfigKey::OsdSize) == default_setting(ConfigKey::OsdSize));
    assert(size_choices()[1] == c.osd.size@);
    assert(c.setting(ConfigKey::DeviceSwitchingMode) == default_setting(ConfigKey::DeviceSwitchingMode));
    assert(switch_mode_choices()[0] == c.device_switching.mode@);
    assert(c.setting(ConfigKey::MediaControlTripleClickAction) == default_setting(ConfigKey::MediaControlTripleClickAction));
    assert(media_action_choices()[0] == c.media_control.triple_click_action@);
    assert(c.setting(ConfigKey::DaemonLogLevel) == default_setting(ConfigKey::DaemonLogLevel));
    assert(log_level_choices()[2] == c.daemon.log_level@);
}

/// Every default value satisfies its key's rule.
pub proof fn lemma_defaults_accepted(k: ConfigKey)
    ensures
        key_rule(k) !is Decimal ==> value_accepted(k, default_setting(k)),
{
    match k {
        ConfigKey::VolumeCurve => { assert(curve_choices()[1] == "logarithmic"@); },
        ConfigKey::MicrophoneCurve => { assert(curve_choices()[0] == "linear"@); },
        ConfigKey::SensitivityPreset => { assert(preset_choices()[0] == "default"@); },
        ConfigKey::OsdPosition => { assert(position_choices()[0] == "center-bottom"@); },
        ConfigKey::OsdSize => { assert(size_choices()[1] == "medium"@); },
        ConfigKey::DeviceSwitchingMode => { assert(switch_mode_choices()[0] == "long_press_rotate"@); },
        ConfigKey::MediaControlTripleClickAction => { assert(media_action_choices()[0] == "play_pause"@); },
        ConfigKey::DaemonLogLevel => { assert(log_level_choices()[2] == "info"@); },
        _ => {},
    }
}

} // verus!
