//! The daemon's decisions.
//!
//! `Daemon` holds the control state (volume or microphone mode, click
//! detection, rotation held back in the dead zone, statistics) and turns each
//! dial event into the next state and the platform action it calls for.  The
//! program around the library reads the dial, performs the actions and
//! reports back what the platform answered.

use crate::clock::{millis_between, millis_between_exec};
use std::time::Instant;
use crate::config::{Config, InteractionConfig};
use crate::input::{
    abs, click_press, click_release, click_tick, oriented, step_for_elapsed, step_from_elapsed,
    step_range_overflows, ClickConfig, ClickDetector, ClickResult, ClickState,
    RotationAccumulator,
};
use crate::platform::{clamp_spec, Key, MediaKey};
use crate::text::str_eq;
use vstd::prelude::*;

verus! {

/// USB vendor identifier of the Microsoft Surface Dial.
pub const SURFACE_DIAL_VENDOR_ID: u16 = 0x045E;

/// USB product identifier of the Microsoft Surface Dial.
pub const SURFACE_DIAL_PRODUCT_ID: u16 = 0x091B;

/// Nanoseconds in a second.
pub const NANOS_PER_SEC: u64 = 1_000_000_000;

/// What the dial controls.
#[derive(Debug, Clone, Copy, PartialEq, Eq, Structural)]
pub enum ControlMode {
    /// Controlling system volume
    Volume,
    /// Controlling microphone volume
    Microphone,
}

/// Statistics about daemon operation.
#[derive(Debug)]
pub struct DaemonStats {
    /// When the daemon started
    pub start_time: Option<Instant>,
    /// Total rotation events processed
    pub rotation_count: u64,
    /// Total click events processed
    pub click_count: u64,
    /// Number of mode switches
    pub mode_switches: u64,
}

impl Default for DaemonStats {
    fn default() -> (s: Self)
        ensures
            s.start_time is None,
            s.rotation_count == 0,
            s.click_count == 0,
            s.mode_switches == 0,
    {
        DaemonStats { start_time: None, rotation_count: 0, click_count: 0, mode_switches: 0 }
    }
}

impl DaemonStats {
    /// Whether every counter can still be incremented.
    pub open spec fn has_room_spec(&self) -> bool {
        &&& self.rotation_count < u64::MAX
        &&& self.click_count < u64::MAX
        &&& self.mode_switches < u64::MAX
    }

    /// Whether every counter can still be incremented.
    pub fn has_room(&self) -> (b: bool)
        ensures
            b == self.has_room_spec(),
    {
        self.rotation_count < u64::MAX && self.click_count < u64::MAX && self.mode_switches
            < u64::MAX
    }
}

/// An action the daemon asks the platform to perform.
#[derive(Debug, Clone, Copy, PartialEq, Eq, Structural)]
pub enum PlatformAction {
    /// Toggle system mute
    ToggleMute,
    /// Toggle microphone mute
    ToggleMicMute,
    /// Send a media key
    SendMediaKey(MediaKey),
    /// Press a key
    KeyDown(Key),
    /// Release a key
    KeyUp(Key),
    /// Set the system volume
    SetVolume(i32),
    /// Set the microphone volume
    SetMicVolume(i32),
}

/// The daemon's state as contracts see it.
pub struct DaemonModel {
    /// What the dial controls
    pub mode: ControlMode,
    /// When microphone mode started or was last used (clock reading, ns)
    pub mic_mode_started: Option<u64>,
    /// Click detection state
    pub clicks: ClickState,
    /// Click detection timing
    pub click_config: ClickConfig,
    /// Rotation held back in the dead zone
    pub pending: i32,
    /// Rotation dead zone
    pub dead_zone: i32,
    /// Whether rotation is reversed
    pub invert: bool,
    /// When the last rotation was applied (clock reading, ns)
    pub last_rotation: Option<u64>,
    /// Whether the button was down in the last report
    pub was_button_pressed: bool,
    /// Whether the dial is connected
    pub connected: bool,
    /// Rotation events processed
    pub rotation_count: u64,
    /// Click events processed
    pub click_count: u64,
    /// Mode switches
    pub mode_switches: u64,
}

/// The click timing of interaction settings (each value converted with
/// `as u64`).
pub open spec fn click_config_of(i: InteractionConfig) -> ClickConfig {
    ClickConfig {
        double_click_ms: i.double_click_ms as u64,
        triple_click_ms: i.triple_click_ms as u64,
        long_press_ms: i.long_press_ms as u64,
    }
}

/// The media key of a triple-click action name: `play_pause`, `next_track`
/// or `prev_track`; any other name plays or pauses.
pub open spec fn media_key_for(action: Seq<char>) -> MediaKey {
    if action == "next_track"@ {
        MediaKey::NextTrack
    } else if action == "prev_track"@ {
        MediaKey::PrevTrack
    } else {
        MediaKey::PlayPause
    }
}

/// The sign of an integer: -1, 0 or 1.
pub open spec fn signum(x: int) -> int {
    if x > 0 {
        1
    } else if x < 0 {
        -1
    } else {
        0
    }
}

/// Nanoseconds from `earlier` to `later`, zero when `later` is not after it.
pub open spec fn nanos_between(later: u64, earlier: u64) -> int {
    if later >= earlier {
        later - earlier
    } else {
        0
    }
}

/// The model after switching to `mode`: a real switch forgets the rotation
/// held back and counts the switch; switching to the current mode changes
/// nothing.
pub open spec fn switch_spec(m: DaemonModel, mode: ControlMode) -> DaemonModel {
    if m.mode == mode {
        m
    } else {
        DaemonModel { mode, pending: 0, mode_switches: (m.mode_switches + 1) as u64, ..m }
    }
}

/// What a click result does at time `now`: a single click toggles the mute
/// of what is controlled, a double click enters microphone mode (starting
/// its timer), a triple click sends the configured media key when media
/// control is enabled, a long press holds F15 down until it ends.  Single,
/// double and triple clicks are counted.
pub open spec fn click_spec(m: DaemonModel, cfg: Config, r: ClickResult, now: u64) -> (
    DaemonModel,
    Option<PlatformAction>,
) {
    match r {
        ClickResult::SingleClick => (
            DaemonModel { click_count: (m.click_count + 1) as u64, ..m },
            Some(
                if m.mode == ControlMode::Volume {
                    PlatformAction::ToggleMute
                } else {
                    PlatformAction::ToggleMicMute
                },
            ),
        ),
        ClickResult::DoubleClick => {
            let s = switch_spec(m, ControlMode::Microphone);
            (
                DaemonModel {
                    mic_mode_started: Some(now),
                    click_count: (s.click_count + 1) as u64,
                    ..s
                },
                None,
            )
        },
        ClickResult::TripleClick => (
            DaemonModel { click_count: (m.click_count + 1) as u64, ..m },
            if cfg.media_control.enabled {
                Some(PlatformAction::SendMediaKey(media_key_for(cfg.media_control.triple_click_action@)))
            } else {
                None
            },
        ),
        ClickResult::LongPressStart => (m, Some(PlatformAction::KeyDown(Key::F15))),
        ClickResult::LongPressEnd => (m, Some(PlatformAction::KeyUp(Key::F15))),
        ClickResult::NoAction => (m, None),
    }
}

/// Whether microphone mode has lasted its configured duration (in seconds,
/// converted with `as u64`) at time `now`.
pub open spec fn mic_expired(m: DaemonModel, cfg: Config, now: u64) -> bool {
    &&& m.mode == ControlMode::Microphone
    &&& m.mic_mode_started matches Some(started)
    &&& nanos_between(now, started) >= (cfg.microphone.mode_duration as u64) * NANOS_PER_SEC
}

/// The periodic update at time `now`: an expired microphone mode returns to
/// volume control, then the click detector's check is acted on.
pub open spec fn tick_spec(m: DaemonModel, cfg: Config, now: u64) -> (
    DaemonModel,
    Option<PlatformAction>,
) {
    let m1 = if mic_expired(m, cfg, now) {
        DaemonModel { mic_mode_started: None, ..switch_spec(m, ControlMode::Volume) }
    } else {
        m
    };
    let (c, r) = click_tick(m1.clicks, m1.click_config, now);
    click_spec(DaemonModel { clicks: c, ..m1 }, cfg, r, now)
}

/// A button report at time `now`: a change from released to pressed is a
/// press, from pressed to released a release; the report is remembered.
pub open spec fn button_spec(m: DaemonModel, cfg: Config, pressed: bool, now: u64) -> (
    DaemonModel,
    Option<PlatformAction>,
) {
    if pressed && !m.was_button_pressed {
        let (c, r) = click_press(m.clicks, now);
        let (m2, a) = click_spec(DaemonModel { clicks: c, ..m }, cfg, r, now);
        (DaemonModel { was_button_pressed: pressed, ..m2 }, a)
    } else if !pressed && m.was_button_pressed {
        let (c, r) = click_release(m.clicks, m.click_config, now);
        let (m2, a) = click_spec(DaemonModel { clicks: c, ..m }, cfg, r, now);
        (DaemonModel { was_button_pressed: pressed, ..m2 }, a)
    } else {
        (DaemonModel { was_button_pressed: pressed, ..m }, None)
    }
}

/// Whether a long press is in progress.
pub open spec fn long_pressing(c: ClickState) -> bool {
    c.long_press_fired && c.button_down
}

/// A raw rotation report: ignored during a long press; otherwise added to
/// what is held back, and the total handed on once it leaves the dead zone.
pub open spec fn rotation_units_spec(m: DaemonModel, raw: i8) -> (DaemonModel, Option<i32>) {
    if long_pressing(m.clicks) {
        (m, None)
    } else {
        let total = m.pending + oriented(raw, m.invert);
        if abs(total) > m.dead_zone {
            (DaemonModel { pending: 0, ..m }, Some(total as i32))
        } else {
            (DaemonModel { pending: total as i32, ..m }, None)
        }
    }
}

/// Whether adding `raw` to what is held back stays within `i32` and away
/// from `i32::MIN`.
pub open spec fn rotation_accepts(m: DaemonModel, raw: i8) -> bool {
    long_pressing(m.clicks) || i32::MIN < m.pending + oriented(raw, m.invert) <= i32::MAX
}

/// The step bounds of the controlled volume.
pub open spec fn step_bounds(m: DaemonModel, cfg: Config) -> (i32, i32) {
    if m.mode == ControlMode::Volume {
        (cfg.volume.step_min, cfg.volume.step_max)
    } else {
        (cfg.microphone.step_min, cfg.microphone.step_max)
    }
}

/// Milliseconds since the last applied rotation at time `now`.
pub open spec fn since_last_rotation(m: DaemonModel, now: u64) -> Option<u64> {
    match m.last_rotation {
        Some(t) => Some(millis_between(now, t) as u64),
        None => None,
    }
}

/// The volume step of a rotation at time `now`, from the time since the
/// previous one (acceleration).
pub open spec fn rotation_step(m: DaemonModel, cfg: Config, now: u64) -> int {
    step_for_elapsed(
        since_last_rotation(m, now),
        step_bounds(m, cfg).0,
        step_bounds(m, cfg).1,
        cfg.acceleration.fast_ms as u64,
        cfg.acceleration.slow_ms as u64,
    )
}

/// Whether applying a rotation at time `now` keeps its arithmetic within
/// `i32`: the step range, the signed step and the new volume.
pub open spec fn rotation_fits(
    m: DaemonModel,
    cfg: Config,
    adjusted: i32,
    current: Option<i32>,
    now: u64,
) -> bool {
    &&& !step_range_overflows(
        since_last_rotation(m, now),
        step_bounds(m, cfg).0,
        step_bounds(m, cfg).1,
        cfg.acceleration.fast_ms as u64,
        cfg.acceleration.slow_ms as u64,
    )
    &&& current matches Some(c) ==> {
        &&& i32::MIN <= signum(adjusted as int) * rotation_step(m, cfg, now) <= i32::MAX
        &&& i32::MIN <= c + signum(adjusted as int) * rotation_step(m, cfg, now) <= i32::MAX
    }
}

/// Applies a rotation (already past the dead zone and scaled by the
/// sensitivity multiplier) at time `now`, the controlled volume being
/// `current` (`None`: it could not be read).  Microphone mode's timer
/// restarts; when the volume was read, it moves one step (chosen by the
/// rotation speed) in the rotation's direction, clamped to 0..=100, and is
/// set if that changes it.  The rotation is timed and counted.
pub open spec fn apply_rotation_spec(
    m: DaemonModel,
    cfg: Config,
    adjusted: i32,
    current: Option<i32>,
    now: u64,
) -> (DaemonModel, Option<PlatformAction>) {
    let m1 = if m.mode == ControlMode::Microphone {
        DaemonModel { mic_mode_started: Some(now), ..m }
    } else {
        m
    };
    let action = match current {
        Some(c) => {
            let target = clamp_spec(
                c + signum(adjusted as int) * rotation_step(m, cfg, now),
                0,
                100,
            );
            if target != c {
                Some(
                    if m.mode == ControlMode::Volume {
                        PlatformAction::SetVolume(target as i32)
                    } else {
                        PlatformAction::SetMicVolume(target as i32)
                    },
                )
            } else {
                None
            }
        },
        None => None,
    };
    (
        DaemonModel {
            last_rotation: Some(now),
            rotation_count: (m.rotation_count + 1) as u64,
            ..m1
        },
        action,
    )
}

/// The daemon's control state.
pub struct Daemon {
    config: Config,
    control_mode: ControlMode,
    mic_mode_started: Option<u64>,
    click_detector: ClickDetector,
    rotation: RotationAccumulator,
    last_rotation: Option<u64>,
    was_button_pressed: bool,
    connected: bool,
    /// Operation statistics
    pub stats: DaemonStats,
}

fn media_key_of(action: &String) -> (k: MediaKey)
    ensures
        k == media_key_for(action@),
{
    if str_eq(action.as_str(), "next_track") {
        MediaKey::NextTrack
    } else if str_eq(action.as_str(), "prev_track") {
        MediaKey::PrevTrack
    } else {
        MediaKey::PlayPause
    }
}

impl Daemon {
    /// The daemon's state.
    pub closed spec fn model(&self) -> DaemonModel {
        DaemonModel {
            mode: self.control_mode,
            mic_mode_started: self.mic_mode_started,
            clicks: self.click_detector.state(),
            click_config: self.click_detector.config(),
            pending: self.rotation.pending(),
            dead_zone: self.rotation.dead_zone(),
            invert: self.rotation.invert(),
            last_rotation: self.last_rotation,
            was_button_pressed: self.was_button_pressed,
            connected: self.connected,
            rotation_count: self.stats.rotation_count,
            click_count: self.stats.click_count,
            mode_switches: self.stats.mode_switches,
        }
    }

    /// When the daemon started.
    pub closed spec fn start_time(&self) -> Option<Instant> {
        self.stats.start_time
    }

    /// Whether every statistics counter can still be incremented.
    pub open spec fn stats_have_room(&self) -> bool {
        &&& self.model().rotation_count < u64::MAX
        &&& self.model().click_count < u64::MAX
        &&& self.model().mode_switches < u64::MAX
    }

    /// The configuration in use.
    pub closed spec fn config_spec(&self) -> Config {
        self.config
    }

    /// A daemon for `config`: volume mode, idle click detection with the
    /// configured timing, nothing held back, not connected, zero statistics.
    pub fn new(config: Config) -> (d: Self)
        ensures
            d.config_spec() == config,
            d.model() == (DaemonModel {
                mode: ControlMode::Volume,
                mic_mode_started: None,
                clicks: crate::input::idle_click_state(),
                click_config: click_config_of(config.interaction),
                pending: 0,
                dead_zone: config.sensitivity.dead_zone,
                invert: config.sensitivity.invert,
                last_rotation: None,
                was_button_pressed: false,
                connected: false,
                rotation_count: 0,
                click_count: 0,
                mode_switches: 0,
            }),
            d.start_time() is None,
    {
        let click_detector = ClickDetector::new(ClickConfig::from_config(&config.interaction));
        let rotation = RotationAccumulator::new(
            config.sensitivity.dead_zone,
            config.sensitivity.invert,
        );
        Daemon {
            config,
            control_mode: ControlMode::Volume,
            mic_mode_started: None,
            click_detector,
            rotation,
            last_rotation: None,
            was_button_pressed: false,
            connected: false,
            stats: DaemonStats::default(),
        }
    }

    /// The clock reading (nanoseconds) that the real-time operations use.  It
    /// depends on the time of the call, so no clause states it.
    pub fn now(&self) -> u64 {
        self.click_detector.now()
    }

    /// The configuration in use.
    pub fn config(&self) -> (c: &Config)
        ensures
            *c == self.config_spec(),
    {
        &self.config
    }

    /// What the dial controls.
    pub fn control_mode(&self) -> (m: ControlMode)
        ensures
            m == self.model().mode,
    {
        self.control_mode
    }

    /// Whether the dial is connected.
    pub fn is_connected(&self) -> (b: bool)
        ensures
            b == self.model().connected,
    {
        self.connected
    }

    /// When microphone mode started or was last used (clock reading).
    pub fn mic_mode_started(&self) -> (t: Option<u64>)
        ensures
            t == self.model().mic_mode_started,
    {
        self.mic_mode_started
    }

    /// When the last rotation was applied (clock reading).
    pub fn last_rotation(&self) -> (t: Option<u64>)
        ensures
            t == self.model().last_rotation,
    {
        self.last_rotation
    }

    /// Whether the button was down in the last report.
    pub fn was_button_pressed(&self) -> (b: bool)
        ensures
            b == self.model().was_button_pressed,
    {
        self.was_button_pressed
    }

    /// Rotation held back in the dead zone.
    pub fn pending_rotation(&self) -> (p: i32)
        ensures
            p == self.model().pending,
    {
        self.rotation.pending_rotation()
    }

    /// Whether a long press is in progress.
    pub fn is_long_pressing(&self) -> (b: bool)
        ensures
            b == long_pressing(self.model().clicks),
    {
        self.click_detector.is_long_pressing()
    }

    /// Records whether the dial is connected; returns whether that changed.
    pub fn set_connected(&mut self, connected: bool) -> (changed: bool)
        ensures
            changed == (old(self).model().connected != connected),
            final(self).model() == (DaemonModel { connected, ..old(self).model() }),
            final(self).config_spec() == old(self).config_spec(),
            final(self).start_time() == old(self).start_time(),
    {
        let changed = self.connected != connected;
        self.connected = connected;
        changed
    }

    /// Switches what the dial controls; a real switch forgets the rotation
    /// held back and is counted.
    pub fn switch_mode(&mut self, new_mode: ControlMode)
        requires
            old(self).model().mode_switches < u64::MAX,
        ensures
            final(self).model() == switch_spec(old(self).model(), new_mode),
            final(self).config_spec() == old(self).config_spec(),
            final(self).start_time() == old(self).start_time(),
    {
        if self.control_mode != new_mode {
            self.control_mode = new_mode;
            self.rotation.reset();
            self.stats.mode_switches = self.stats.mode_switches + 1;
        }
    }

    /// Acts on a click result at clock reading `now`, returning the platform
    /// action it calls for.
    pub fn process_click_result_at(&mut self, result: ClickResult, now: u64) -> (a: Option<
        PlatformAction,
    >)
        requires
            old(self).model().click_count < u64::MAX,
            result == ClickResult::DoubleClick ==> old(self).model().mode_switches < u64::MAX,
        ensures
            (final(self).model(), a) == click_spec(
                old(self).model(),
                old(self).config_spec(),
                result,
                now,
            ),
            final(self).config_spec() == old(self).config_spec(),
            final(self).start_time() == old(self).start_time(),
    {
        match result {
            ClickResult::SingleClick => {
                self.stats.click_count = self.stats.click_count + 1;
                match self.control_mode {
                    ControlMode::Volume => Some(PlatformAction::ToggleMute),
                    ControlMode::Microphone => Some(PlatformAction::ToggleMicMute),
                }
            },
            ClickResult::DoubleClick => {
                self.switch_mode(ControlMode::Microphone);
                self.mic_mode_started = Some(now);
                self.stats.click_count = self.stats.click_count + 1;
                None
            },
            ClickResult::TripleClick => {
                self.stats.click_count = self.stats.click_count + 1;
                if self.config.media_control.enabled {
                    Some(
                        PlatformAction::SendMediaKey(
                            media_key_of(&self.config.media_control.triple_click_action),
                        ),
                    )
                } else {
                    None
                }
            },
            ClickResult::LongPressStart => Some(PlatformAction::KeyDown(Key::F15)),
            ClickResult::LongPressEnd => Some(PlatformAction::KeyUp(Key::F15)),
            ClickResult::NoAction => None,
        }
    }

    /// Acts on a click result now.
    pub fn process_click_result(&mut self, result: ClickResult) -> (a: Option<PlatformAction>)
        requires
            old(self).model().click_count < u64::MAX,
            result == ClickResult::DoubleClick ==> old(self).model().mode_switches < u64::MAX,
        ensures
            exists|t: u64|
                (final(self).model(), a) == click_spec(
                    old(self).model(),
                    old(self).config_spec(),
                    result,
                    t,
                ),
            final(self).config_spec() == old(self).config_spec(),
            final(self).start_time() == old(self).start_time(),
    {
        let now = self.now();
        self.process_click_result_at(result, now)
    }

    /// The periodic update at clock reading `now`: microphone mode expiry,
    /// then click-detection timeouts.
    pub fn tick_at(&mut self, now: u64) -> (a: Option<PlatformAction>)
        requires
            old(self).stats_have_room(),
        ensures
            (final(self).model(), a) == tick_spec(old(self).model(), old(self).config_spec(), now),
            final(self).config_spec() == old(self).config_spec(),
            final(self).start_time() == old(self).start_time(),
    {
        if self.control_mode == ControlMode::Microphone {
            if let Some(started) = self.mic_mode_started {
                let elapsed: u64 = if now >= started {
                    now - started
                } else {
                    0
                };
                let secs: u64 = self.config.microphone.mode_duration as u64;
                if (elapsed as u128) >= (secs as u128) * (NANOS_PER_SEC as u128) {
                    self.switch_mode(ControlMode::Volume);
                    self.mic_mode_started = None;
                }
            }
        }
        let result = self.click_detector.tick_at(now);
        self.process_click_result_at(result, now)
    }

    /// The periodic update now.
    pub fn tick(&mut self) -> (a: Option<PlatformAction>)
        requires
            old(self).stats_have_room(),
        ensures
            exists|t: u64|
                (final(self).model(), a) == tick_spec(old(self).model(), old(self).config_spec(), t),
            final(self).config_spec() == old(self).config_spec(),
            final(self).start_time() == old(self).start_time(),
    {
        let now = self.now();
        self.tick_at(now)
    }

    /// A button report (`pressed`: the button is down) at clock reading `now`.
    pub fn handle_button_state_at(&mut self, pressed: bool, now: u64) -> (a: Option<
        PlatformAction,
    >)
        requires
            old(self).stats_have_room(),
        ensures
            (final(self).model(), a) == button_spec(
                old(self).model(),
                old(self).config_spec(),
                pressed,
                now,
            ),
            final(self).config_spec() == old(self).config_spec(),
            final(self).start_time() == old(self).start_time(),
    {
        let mut action = None;
        if pressed && !self.was_button_pressed {
            let result = self.click_detector.button_down_at(now);
            action = self.process_click_result_at(result, now);
        } else if !pressed && self.was_button_pressed {
            let result = self.click_detector.button_up_at(now);
            action = self.process_click_result_at(result, now);
        }
        self.was_button_pressed = pressed;
        action
    }

    /// A button report now.
    pub fn handle_button_state(&mut self, pressed: bool) -> (a: Option<PlatformAction>)
        requires
            old(self).stats_have_room(),
        ensures
            exists|t: u64|
                (final(self).model(), a) == button_spec(
                    old(self).model(),
                    old(self).config_spec(),
                    pressed,
                    t,
                ),
            final(self).config_spec() == old(self).config_spec(),
            final(self).start_time() == old(self).start_time(),
    {
        let now = self.now();
        self.handle_button_state_at(pressed, now)
    }

    /// Whether `accumulate_rotation` can take `raw` without overflow.
    pub fn accepts_rotation(&self, raw: i8) -> (b: bool)
        ensures
            b == rotation_accepts(self.model(), raw),
    {
        if self.click_detector.is_long_pressing() {
            return true;
        }
        let p = self.rotation.pending_rotation() as i64;
        let r = raw as i64;
        let t: i64 = if self.rotation_inverted() {
            p - r
        } else {
            p + r
        };
        (i32::MIN as i64) < t && t <= i32::MAX as i64
    }

    fn rotation_inverted(&self) -> (b: bool)
        ensures
            b == self.model().invert,
    {
        self.rotation.is_inverted()
    }

    /// A raw rotation report: ignored during a long press (nothing changes);
    /// otherwise the rotation units that leave the dead zone, if any.
    pub fn accumulate_rotation(&mut self, raw: i8) -> (r: Option<i32>)
        requires
            rotation_accepts(old(self).model(), raw),
        ensures
            (final(self).model(), r) == rotation_units_spec(old(self).model(), raw),
            final(self).config_spec() == old(self).config_spec(),
            final(self).start_time() == old(self).start_time(),
    {
        if self.click_detector.is_long_pressing() {
            return None;
        }
        self.rotation.process(raw)
    }

    /// Whether `apply_rotation_at` keeps its arithmetic within `i32`.
    pub fn rotation_fits_at(&self, adjusted: i32, current: Option<i32>, now: u64) -> (b: bool)
        ensures
            b == rotation_fits(self.model(), self.config_spec(), adjusted, current, now),
    {
        let (min_step, max_step) = self.step_bounds();
        let elapsed = self.since_last_rotation(now);
        let fast: u64 = self.config.acceleration.fast_ms as u64;
        let slow: u64 = self.config.acceleration.slow_ms as u64;
        let range_ok = match elapsed {
            Some(e) => !(fast < e && e < slow) || ((i32::MIN as i64) <= max_step as i64
                - min_step as i64 && max_step as i64 - min_step as i64 <= i32::MAX as i64),
            None => true,
        };
        if !range_ok {
            return false;
        }
        match current {
            None => true,
            Some(c) => {
                let step = step_from_elapsed(elapsed, min_step, max_step, fast, slow);
                let signed: i64 = if adjusted > 0 {
                    step as i64
                } else if adjusted < 0 {
                    -(step as i64)
                } else {
                    0
                };
                let target: i64 = c as i64 + signed;
                i32::MIN as i64 <= signed && signed <= i32::MAX as i64 && i32::MIN as i64
                    <= target && target <= i32::MAX as i64
            },
        }
    }

    fn step_bounds(&self) -> (b: (i32, i32))
        ensures
            b == step_bounds(self.model(), self.config_spec()),
    {
        match self.control_mode {
            ControlMode::Volume => (self.config.volume.step_min, self.config.volume.step_max),
            ControlMode::Microphone => (
                self.config.microphone.step_min,
                self.config.microphone.step_max,
            ),
        }
    }

    fn since_last_rotation(&self, now: u64) -> (e: Option<u64>)
        ensures
            e == since_last_rotation(self.model(), now),
    {
        match self.last_rotation {
            Some(t) => Some(millis_between_exec(now, t)),
            None => None,
        }
    }

    /// Applies a rotation (past the dead zone, scaled by the sensitivity
    /// multiplier) at clock reading `now`, the controlled volume being
    /// `current` (`None`: it could not be read); returns the volume to set.
    pub fn apply_rotation_at(&mut self, adjusted: i32, current: Option<i32>, now: u64) -> (a:
        Option<PlatformAction>)
        requires
            old(self).model().rotation_count < u64::MAX,
            rotation_fits(old(self).model(), old(self).config_spec(), adjusted, current, now),
        ensures
            (final(self).model(), a) == apply_rotation_spec(
                old(self).model(),
                old(self).config_spec(),
                adjusted,
                current,
                now,
            ),
            final(self).config_spec() == old(self).config_spec(),
            final(self).start_time() == old(self).start_time(),
    {
        let mode = self.control_mode;
        if mode == ControlMode::Microphone {
            self.mic_mode_started = Some(now);
        }
        let mut action = None;
        if let Some(c) = current {
            let (min_step, max_step) = self.step_bounds();
            let elapsed = self.since_last_rotation(now);
            let step = step_from_elapsed(
                elapsed,
                min_step,
                max_step,
                self.config.acceleration.fast_ms as u64,
                self.config.acceleration.slow_ms as u64,
            );
            let delta: i32 = if adjusted > 0 {
                step
            } else if adjusted < 0 {
                -step
            } else {
                0
            };
            let sum = c + delta;
            let target = if sum < 0 {
                0
            } else if sum > 100 {
                100
            } else {
                sum
            };
            if target != c {
                action = match mode {
                    ControlMode::Volume => Some(PlatformAction::SetVolume(target)),
                    ControlMode::Microphone => Some(PlatformAction::SetMicVolume(target)),
                };
            }
        }
        self.last_rotation = Some(now);
        self.stats.rotation_count = self.stats.rotation_count + 1;
        action
    }

    /// Replaces the configuration: click timing, dead zone and direction
    /// follow it; the control state and statistics are kept.
    pub fn reload_config(&mut self, new_config: Config)
        ensures
            final(self).config_spec() == new_config,
            final(self).model() == (DaemonModel {
                click_config: click_config_of(new_config.interaction),
                dead_zone: new_config.sensitivity.dead_zone,
                invert: new_config.sensitivity.invert,
                ..old(self).model()
            }),
            final(self).start_time() == old(self).start_time(),
    {
        let click_config = ClickConfig::from_config(&new_config.interaction);
        self.click_detector.update_config(click_config);
        self.rotation.update(new_config.sensitivity.dead_zone, new_config.sensitivity.invert);
        self.config = new_config;
    }
}

/// A rotation never sets a volume outside 0..=100.
pub proof fn lemma_rotation_volume_in_range(
    m: DaemonModel,
    cfg: Config,
    adjusted: i32,
    current: Option<i32>,
    now: u64,
)
    ensures
        match apply_rotation_spec(m, cfg, adjusted, current, now).1 {
            Some(PlatformAction::SetVolume(v)) => 0 <= v <= 100,
            Some(PlatformAction::SetMicVolume(v)) => 0 <= v <= 100,
            None => true,
            Some(_) => false,
        },
{
}

/// Turning clockwise (a positive rotation) never lowers the volume and
/// turning counter-clockwise never raises it, when the step is not negative
/// and the volume read lies in 0..=100; the volume set is the controlled one.
pub proof fn lemma_rotation_direction(
    m: DaemonModel,
    cfg: Config,
    adjusted: i32,
    current: i32,
    now: u64,
)
    requires
        0 <= current <= 100,
        rotation_step(m, cfg, now) >= 0,
    ensures
        match apply_rotation_spec(m, cfg, adjusted, Some(current), now).1 {
            Some(PlatformAction::SetVolume(v)) => {
                &&& m.mode == ControlMode::Volume
                &&& adjusted > 0 ==> v > current
                &&& adjusted < 0 ==> v < current
                &&& adjusted != 0
            },
            Some(PlatformAction::SetMicVolume(v)) => {
                &&& m.mode == ControlMode::Microphone
                &&& adjusted > 0 ==> v > current
                &&& adjusted < 0 ==> v < current
                &&& adjusted != 0
            },
            None => adjusted == 0 || rotation_step(m, cfg, now) == 0 || (adjusted > 0 && current
                == 100) || (adjusted < 0 && current == 0),
            Some(_) => false,
        },
{
}

/// With steps configured `0 <= step_min <= step_max`, one rotation moves a
/// volume in 0..=100 by at least one step of `step_min` (unless a bound of
/// 0..=100 stops it) and never by more than `step_max`.
pub proof fn lemma_rotation_moves_one_step(
    m: DaemonModel,
    cfg: Config,
    adjusted: i32,
    current: i32,
    now: u64,
)
    requires
        0 <= current <= 100,
        0 <= step_bounds(m, cfg).0 <= step_bounds(m, cfg).1,
        adjusted != 0,
    ensures
        match apply_rotation_spec(m, cfg, adjusted, Some(current), now).1 {
            Some(PlatformAction::SetVolume(v)) => {
                &&& -step_bounds(m, cfg).1 <= v - current <= step_bounds(m, cfg).1
                &&& (v == 0 || v == 100 || v - current >= step_bounds(m, cfg).0 || current - v
                    >= step_bounds(m, cfg).0)
            },
            Some(PlatformAction::SetMicVolume(v)) => {
                &&& -step_bounds(m, cfg).1 <= v - current <= step_bounds(m, cfg).1
                &&& (v == 0 || v == 100 || v - current >= step_bounds(m, cfg).0 || current - v
                    >= step_bounds(m, cfg).0)
            },
            _ => true,
        },
{
    crate::input::lemma_step_within_bounds(
        since_last_rotation(m, now),
        step_bounds(m, cfg).0,
        step_bounds(m, cfg).1,
        cfg.acceleration.fast_ms as u64,
        cfg.acceleration.slow_ms as u64,
    );
}

/// The rotation step is the largest one for the first rotation after a fast
/// one (at most `fast_ms` before) and the smallest one for the first
/// rotation ever or after a slow one (at least `slow_ms` before).
pub proof fn lemma_rotation_step_by_speed(m: DaemonModel, cfg: Config, now: u64)
    ensures
        m.last_rotation is None ==> rotation_step(m, cfg, now) == step_bounds(m, cfg).0,
        (m.last_rotation matches Some(t) && millis_between(now, t) <= cfg.acceleration.fast_ms
            as u64) ==> rotation_step(m, cfg, now) == step_bounds(m, cfg).1,
        (m.last_rotation matches Some(t) && millis_between(now, t)
            >= cfg.acceleration.slow_ms as u64 && millis_between(now, t)
            > cfg.acceleration.fast_ms as u64) ==> rotation_step(m, cfg, now) == step_bounds(
            m,
            cfg,
        ).0,
{
    if let Some(t) = m.last_rotation {
        assert(millis_between(now, t) <= u64::MAX) by {
            if now >= t {
                assert((now - t) / (crate::clock::NANOS_PER_MILLI as int) <= now - t);
            }
        }
    }
}

/// Every applied rotation is timed and counted at the moment it is applied
/// (and restarts microphone mode's timer), so the next one is timed from it: a rotation applied at most `fast_ms` after the
/// previous applied rotation (whatever came before that one) moves the
/// controlled volume by the largest step of its mode, in its direction,
/// clamped to 0..=100, and nothing is set when that leaves it unchanged.
pub proof fn lemma_fast_rotation_after_rotation(
    m: DaemonModel,
    cfg: Config,
    first: i32,
    first_volume: Option<i32>,
    t1: u64,
    second: i32,
    volume: i32,
    t2: u64,
)
    requires
        millis_between(t2, t1) <= cfg.acceleration.fast_ms as u64,
        second != 0,
    ensures
        apply_rotation_spec(m, cfg, first, first_volume, t1).0.last_rotation == Some(t1),
        apply_rotation_spec(m, cfg, first, first_volume, t1).0.mode == m.mode,
        m.mode == ControlMode::Microphone ==> apply_rotation_spec(
            m,
            cfg,
            first,
            first_volume,
            t1,
        ).0.mic_mode_started == Some(t1),
        m.rotation_count < u64::MAX ==> apply_rotation_spec(
            m,
            cfg,
            first,
            first_volume,
            t1,
        ).0.rotation_count == m.rotation_count + 1,
        ({
            let m1 = apply_rotation_spec(m, cfg, first, first_volume, t1).0;
            let largest: int = if m.mode == ControlMode::Volume {
                cfg.volume.step_max as int
            } else {
                cfg.microphone.step_max as int
            };
            let target = clamp_spec(
                volume + if second > 0 {
                    largest
                } else {
                    -largest
                },
                0,
                100,
            );
            apply_rotation_spec(m1, cfg, second, Some(volume), t2).1 == if target != volume {
                Some(
                    if m.mode == ControlMode::Volume {
                        PlatformAction::SetVolume(target as i32)
                    } else {
                        PlatformAction::SetMicVolume(target as i32)
                    },
                )
            } else {
                None
            }
        }),
{
    let m1 = apply_rotation_spec(m, cfg, first, first_volume, t1).0;
    lemma_rotation_step_by_speed(m1, cfg, t2);
}

/// A triple click sends, when media control is enabled, the media key its
/// configured action names: previous track for `prev_track`, next track for
/// `next_track`, play/pause for any other action; with media control
/// disabled it sends nothing.
pub proof fn lemma_triple_click_media_key(m: DaemonModel, cfg: Config, now: u64)
    ensures
        ({
            let a = click_spec(m, cfg, ClickResult::TripleClick, now).1;
            let action = cfg.media_control.triple_click_action@;
            &&& !cfg.media_control.enabled ==> a is None
            &&& cfg.media_control.enabled && action == "prev_track"@ ==> a == Some(
                PlatformAction::SendMediaKey(MediaKey::PrevTrack),
            )
            &&& cfg.media_control.enabled && action == "next_track"@ ==> a == Some(
                PlatformAction::SendMediaKey(MediaKey::NextTrack),
            )
            &&& cfg.media_control.enabled && action != "prev_track"@ && action != "next_track"@
                ==> a == Some(PlatformAction::SendMediaKey(MediaKey::PlayPause))
        }),
{
    reveal_strlit("prev_track");
    reveal_strlit("next_track");
    assert("prev_track"@ != "next_track"@) by {
        assert("prev_track"@[0] != "next_track"@[0]);
    }
}

/// A lone click in volume mode (press, release, then a periodic update once
/// the double-click window has passed) toggles the system mute and is
/// counted once; in microphone mode (not expiring at that update) it toggles
/// the microphone mute.
pub proof fn lemma_click_toggles_mute(
    m: DaemonModel,
    cfg: Config,
    t_down: u64,
    t_up: u64,
    t_tick: u64,
)
    requires
        m.clicks == crate::input::idle_click_state(),
        !m.was_button_pressed,
        m.click_config.long_press_ms > 0 || t_up < t_down,
        t_up >= t_down ==> millis_between(t_up, t_down) < m.click_config.long_press_ms,
        millis_between(t_tick, t_up) >= m.click_config.double_click_ms,
        m.click_count < u64::MAX,
    ensures
        ({
            let (m1, a1) = button_spec(m, cfg, true, t_down);
            let (m2, a2) = button_spec(m1, cfg, false, t_up);
            let (m3, a3) = tick_spec(m2, cfg, t_tick);
            &&& a1 is None
            &&& a2 is None
            &&& (m.mode == ControlMode::Volume ==> a3 == Some(PlatformAction::ToggleMute))
            &&& (m.mode == ControlMode::Microphone && !mic_expired(m, cfg, t_tick) ==> a3 == Some(
                PlatformAction::ToggleMicMute,
            ))
            &&& m3.click_count == m.click_count + 1
            &&& m3.clicks == crate::input::idle_click_state()
        }),
{
    crate::input::lemma_lone_click_is_single(m.click_config, t_down, t_up, t_tick);
}

/// A double click always leaves the daemon in microphone mode with its timer
/// started at that moment, and counts one click.
pub proof fn lemma_double_click_enters_mic_mode(m: DaemonModel, cfg: Config, now: u64)
    requires
        m.click_count < u64::MAX,
    ensures
        click_spec(m, cfg, ClickResult::DoubleClick, now).0.mode == ControlMode::Microphone,
        click_spec(m, cfg, ClickResult::DoubleClick, now).0.mic_mode_started == Some(now),
        click_spec(m, cfg, ClickResult::DoubleClick, now).0.click_count == m.click_count + 1,
        click_spec(m, cfg, ClickResult::DoubleClick, now).1 is None,
{
}

/// Microphone mode ends at the first periodic update after its duration:
/// the daemon returns to volume control and the timer is cleared; before
/// that, periodic updates keep it.
pub proof fn lemma_mic_mode_expiry(m: DaemonModel, cfg: Config, now: u64)
    requires
        m.mode == ControlMode::Microphone,
    ensures
        mic_expired(m, cfg, now) ==> tick_spec(m, cfg, now).0.mode == ControlMode::Volume,
        mic_expired(m, cfg, now) ==> tick_spec(m, cfg, now).0.mic_mode_started is None,
        !mic_expired(m, cfg, now) ==> tick_spec(m, cfg, now).0.mode == ControlMode::Microphone,
        !mic_expired(m, cfg, now) ==> tick_spec(m, cfg, now).0.mic_mode_started
            == m.mic_mode_started,
{
}

/// A rotation during a long press changes nothing and yields nothing.
pub proof fn lemma_long_press_rotation_ignored(m: DaemonModel, raw: i8)
    requires
        long_pressing(m.clicks),
    ensures
        rotation_units_spec(m, raw) == (m, None::<i32>),
{
}

/// Switching to a mode twice is switching once.
pub proof fn lemma_switch_mode_idempotent(m: DaemonModel, mode: ControlMode)
    ensures
        switch_spec(switch_spec(m, mode), mode) == switch_spec(m, mode),
        switch_spec(m, m.mode) == m,
{
}

} // verus!
