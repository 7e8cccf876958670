//! Click detection (single, double, triple, long press), rotation dead zone
//! and rotation-speed acceleration.

use crate::clock::{elapsed_millis, millis_between, millis_between_exec, Clock};
use std::time::Instant;
use vstd::prelude::*;

verus! {

/// Timing of click detection, in milliseconds.
#[derive(Debug, Clone, Copy, PartialEq, Eq, Structural)]
pub struct ClickConfig {
    /// Maximum time between clicks for double-click detection (ms)
    pub double_click_ms: u64,
    /// Maximum time between clicks for triple-click detection (ms)
    pub triple_click_ms: u64,
    /// Minimum hold time for long press detection (ms)
    pub long_press_ms: u64,
}

impl Default for ClickConfig {
    fn default() -> (c: Self)
        ensures
            c == (ClickConfig { double_click_ms: 400, triple_click_ms: 600, long_press_ms: 1000 }),
    {
        ClickConfig { double_click_ms: 400, triple_click_ms: 600, long_press_ms: 1000 }
    }
}

impl ClickConfig {
    /// The click timing of the application's interaction settings (each
    /// value converted with `as u64`).
    pub fn from_config(config: &crate::config::InteractionConfig) -> (c: Self)
        ensures
            c.double_click_ms == config.double_click_ms as u64,
            c.triple_click_ms == config.triple_click_ms as u64,
            c.long_press_ms == config.long_press_ms as u64,
    {
        ClickConfig {
            double_click_ms: config.double_click_ms as u64,
            triple_click_ms: config.triple_click_ms as u64,
            long_press_ms: config.long_press_ms as u64,
        }
    }
}

/// Result of click detection.
#[derive(Debug, Clone, Copy, PartialEq, Eq, Structural)]
pub enum ClickResult {
    /// No action to take
    NoAction,
    /// Single click detected (after the double-click window expired)
    SingleClick,
    /// Double click detected
    DoubleClick,
    /// Triple click detected
    TripleClick,
    /// Long press started (button still held)
    LongPressStart,
    /// Long press ended (button released)
    LongPressEnd,
}

/// The state of a click detector; times are clock readings in nanoseconds.
#[derive(Debug, Clone, Copy)]
pub struct ClickState {
    /// Time of the current press
    pub button_press_start: Option<u64>,
    /// Time of the last release that may continue a multi-click sequence
    pub last_release_time: Option<u64>,
    /// Number of clicks in the current sequence
    pub click_count: u8,
    /// Whether a long press has been reported for the current hold
    pub long_press_fired: bool,
    /// Whether the button is held
    pub button_down: bool,
}

/// The state of a fresh (or reset) detector.
pub open spec fn idle_click_state() -> ClickState {
    ClickState {
        button_press_start: None,
        last_release_time: None,
        click_count: 0,
        long_press_fired: false,
        button_down: false,
    }
}

/// A press at time `now`: ignored while the button is already held.
pub open spec fn click_press(s: ClickState, now: u64) -> (ClickState, ClickResult) {
    if s.button_down {
        (s, ClickResult::NoAction)
    } else {
        (
            ClickState {
                button_down: true,
                button_press_start: Some(now),
                long_press_fired: false,
                ..s
            },
            ClickResult::NoAction,
        )
    }
}

/// A release at time `now`.
///
/// Ends a long press when one was reported.  Otherwise the click continues
/// the sequence when the previous release was less than `triple_click_ms`
/// ago.  The second click of a sequence is reported at once as a double
/// click (whenever `double_click_ms` is not zero) and the sequence stays
/// open, so that a third click within `triple_click_ms` of it is reported
/// as a triple click, which ends the sequence.
pub open spec fn click_release(s: ClickState, c: ClickConfig, now: u64) -> (
    ClickState,
    ClickResult,
) {
    if !s.button_down {
        (s, ClickResult::NoAction)
    } else if s.long_press_fired {
        (
            ClickState {
                button_down: false,
                button_press_start: None,
                click_count: 0,
                last_release_time: None,
                ..s
            },
            ClickResult::LongPressEnd,
        )
    } else {
        let continues = match s.last_release_time {
            Some(t) => millis_between(now, t) < c.triple_click_ms,
            None => false,
        };
        let count: int = if continues { s.click_count + 1 } else { 1 };
        if count >= 3 {
            (
                ClickState {
                    button_down: false,
                    button_press_start: None,
                    click_count: 0,
                    last_release_time: None,
                    ..s
                },
                ClickResult::TripleClick,
            )
        } else {
            (
                ClickState {
                    button_down: false,
                    button_press_start: None,
                    click_count: count as u8,
                    last_release_time: Some(now),
                    ..s
                },
                if count == 2 && c.double_click_ms > 0 {
                    ClickResult::DoubleClick
                } else {
                    ClickResult::NoAction
                },
            )
        }
    }
}

/// A periodic check at time `now`: a held button becomes a long press once
/// held `long_press_ms`; a lone click becomes a single click once
/// `double_click_ms` passed without a second one.
pub open spec fn click_tick(s: ClickState, c: ClickConfig, now: u64) -> (ClickState, ClickResult) {
    if s.button_down && s.button_press_start is Some && !s.long_press_fired && millis_between(
        now,
        s.button_press_start->0,
    ) >= c.long_press_ms {
        (ClickState { long_press_fired: true, ..s }, ClickResult::LongPressStart)
    } else if s.click_count == 1 && !s.button_down && s.last_release_time is Some
        && millis_between(now, s.last_release_time->0) >= c.double_click_ms {
        (ClickState { click_count: 0, last_release_time: None, ..s }, ClickResult::SingleClick)
    } else {
        (s, ClickResult::NoAction)
    }
}

/// State machine detecting click patterns.
#[derive(Debug)]
pub struct ClickDetector {
    config: ClickConfig,
    state: ClickState,
    clock: Clock,
}

impl ClickDetector {
    #[verifier::type_invariant]
    spec fn count_bounded(&self) -> bool {
        self.state.click_count <= 2
    }

    /// The timing in use.
    pub closed spec fn config(&self) -> ClickConfig {
        self.config
    }

    /// The detector's state.
    pub closed spec fn state(&self) -> ClickState {
        self.state
    }

    /// A detector with the given timing, idle.
    pub fn new(config: ClickConfig) -> (d: Self)
        ensures
            d.config() == config,
            d.state() == idle_click_state(),
    {
        ClickDetector { config, state: idle_state(), clock: Clock::start() }
    }

    /// The clock reading the detector uses for `button_down`, `button_up` and
    /// `tick`, in nanoseconds.  It depends on the time of the call, so no clause
    /// states it.
    pub fn now(&self) -> u64 {
        self.clock.now()
    }

    /// Replaces the timing; the state is kept.
    pub fn update_config(&mut self, config: ClickConfig)
        ensures
            final(self).config() == config,
            final(self).state() == old(self).state(),
    {
        proof {
            use_type_invariant(&*self);
        }
        self.config = config;
    }

    /// A press at clock reading `now`.
    pub fn button_down_at(&mut self, now: u64) -> (r: ClickResult)
        ensures
            (final(self).state(), r) == click_press(old(self).state(), now),
            final(self).config() == old(self).config(),
    {
        proof {
            use_type_invariant(&*self);
        }
        if self.state.button_down {
            return ClickResult::NoAction;
        }
        self.state = ClickState {
            button_down: true,
            button_press_start: Some(now),
            long_press_fired: false,
            ..self.state
        };
        ClickResult::NoAction
    }

    /// A release at clock reading `now`.
    pub fn button_up_at(&mut self, now: u64) -> (r: ClickResult)
        ensures
            (final(self).state(), r) == click_release(old(self).state(), old(self).config(), now),
            final(self).config() == old(self).config(),
    {
        proof {
            use_type_invariant(&*self);
        }
        let s = self.state;
        if !s.button_down {
            return ClickResult::NoAction;
        }
        if s.long_press_fired {
            self.state = ClickState {
                button_down: false,
                button_press_start: None,
                click_count: 0,
                last_release_time: None,
                ..s
            };
            return ClickResult::LongPressEnd;
        }
        let continues = match s.last_release_time {
            Some(t) => millis_between_exec(now, t) < self.config.triple_click_ms,
            None => false,
        };
        let count: u8 = if continues { s.click_count + 1 } else { 1 };
        if count >= 3 {
            self.state = ClickState {
                button_down: false,
                button_press_start: None,
                click_count: 0,
                last_release_time: None,
                ..s
            };
            return ClickResult::TripleClick;
        }
        self.state = ClickState {
            button_down: false,
            button_press_start: None,
            click_count: count,
            last_release_time: Some(now),
            ..s
        };
        if count == 2 && self.config.double_click_ms > 0 {
            ClickResult::DoubleClick
        } else {
            ClickResult::NoAction
        }
    }

    /// The periodic check at clock reading `now`.
    pub fn tick_at(&mut self, now: u64) -> (r: ClickResult)
        ensures
            (final(self).state(), r) == click_tick(old(self).state(), old(self).config(), now),
            final(self).config() == old(self).config(),
    {
        proof {
            use_type_invariant(&*self);
        }
        let s = self.state;
        if s.button_down && !s.long_press_fired {
            if let Some(start) = s.button_press_start {
                if millis_between_exec(now, start) >= self.config.long_press_ms {
                    self.state = ClickState { long_press_fired: true, ..s };
                    return ClickResult::LongPressStart;
                }
            }
        }
        if s.click_count == 1 && !s.button_down {
            if let Some(last) = s.last_release_time {
                if millis_between_exec(now, last) >= self.config.double_click_ms {
                    self.state = ClickState { click_count: 0, last_release_time: None, ..s };
                    return ClickResult::SingleClick;
                }
            }
        }
        ClickResult::NoAction
    }

    /// A press now.
    pub fn button_down(&mut self) -> (r: ClickResult)
        ensures
            exists|t: u64| (final(self).state(), r) == click_press(old(self).state(), t),
            final(self).config() == old(self).config(),
    {
        let now = self.clock.now();
        self.button_down_at(now)
    }

    /// A release now.
    pub fn button_up(&mut self) -> (r: ClickResult)
        ensures
            exists|t: u64|
                (final(self).state(), r) == click_release(old(self).state(), old(self).config(), t),
            final(self).config() == old(self).config(),
    {
        let now = self.clock.now();
        self.button_up_at(now)
    }

    /// The periodic check, now.
    pub fn tick(&mut self) -> (r: ClickResult)
        ensures
            exists|t: u64|
                (final(self).state(), r) == click_tick(old(self).state(), old(self).config(), t),
            final(self).config() == old(self).config(),
    {
        let now = self.clock.now();
        self.tick_at(now)
    }

    /// Back to the idle state; the timing is kept.
    pub fn reset(&mut self)
        ensures
            final(self).state() == idle_click_state(),
            final(self).config() == old(self).config(),
    {
        proof {
            use_type_invariant(&*self);
        }
        self.state = idle_state();
    }

    /// Whether a long press is in progress: reported and still held.
    pub fn is_long_pressing(&self) -> (b: bool)
        ensures
            b == long_pressing(self.state()),
    {
        self.state.long_press_fired && self.state.button_down
    }
}

/// The idle state: no press, no release, no clicks counted.
fn idle_state() -> (s: ClickState)
    ensures
        s == idle_click_state(),
{
    ClickState {
        button_press_start: None,
        last_release_time: None,
        click_count: 0,
        long_press_fired: false,
        button_down: false,
    }
}

/// A lone click, from the idle state, is reported as a single click once the
/// double-click window has passed, and not before.
pub proof fn lemma_lone_click_is_single(c: ClickConfig, t_down: u64, t_up: u64, t_tick: u64)
    requires
        c.long_press_ms > 0 || t_up < t_down,
        t_up >= t_down ==> millis_between(t_up, t_down) < c.long_press_ms,
    ensures
        ({
            let (s1, r1) = click_press(idle_click_state(), t_down);
            let (s2, r2) = click_release(s1, c, t_up);
            let (s3, r3) = click_tick(s2, c, t_tick);
            &&& r1 == ClickResult::NoAction
            &&& r2 == ClickResult::NoAction
            &&& r3 == if millis_between(t_tick, t_up) >= c.double_click_ms {
                ClickResult::SingleClick
            } else {
                ClickResult::NoAction
            }
            &&& r3 == ClickResult::SingleClick ==> s3 == idle_click_state()
        }),
{
}

/// Two clicks whose releases are less than `triple_click_ms` apart are a
/// double click when `double_click_ms` is not zero; the sequence stays open
/// with two clicks counted from the second release.
pub proof fn lemma_two_clicks_are_double(
    c: ClickConfig,
    t1_down: u64,
    t1_up: u64,
    t2_down: u64,
    t2_up: u64,
)
    requires
        c.double_click_ms > 0,
        millis_between(t2_up, t1_up) < c.triple_click_ms,
    ensures
        ({
            let (s1, _r1) = click_press(idle_click_state(), t1_down);
            let (s2, r2) = click_release(s1, c, t1_up);
            let (s3, _r3) = click_press(s2, t2_down);
            let (s4, r4) = click_release(s3, c, t2_up);
            &&& r2 == ClickResult::NoAction
            &&& r4 == ClickResult::DoubleClick
            &&& s4.click_count == 2
            &&& s4.last_release_time == Some(t2_up)
            &&& !s4.button_down
        }),
{
}

/// A reported long press ends with `LongPressEnd` at the next release, and
/// the detector forgets the click sequence.
pub proof fn lemma_long_press_ends_on_release(s: ClickState, c: ClickConfig, t: u64, u: u64)
    requires
        click_tick(s, c, t).1 == ClickResult::LongPressStart,
    ensures
        click_release(click_tick(s, c, t).0, c, u).1 == ClickResult::LongPressEnd,
        click_release(click_tick(s, c, t).0, c, u).0.click_count == 0,
        click_release(click_tick(s, c, t).0, c, u).0.last_release_time is None,
        !click_release(click_tick(s, c, t).0, c, u).0.button_down,
{
}

/// Three clicks from the idle state, each release less than
/// `triple_click_ms` after the previous one and no long press reported, are
/// a triple click: the second release reports a double click (when
/// `double_click_ms` is not zero), the third a triple click, and the detector
/// is idle again.
pub proof fn lemma_three_clicks_are_triple(
    c: ClickConfig,
    t1_down: u64,
    t1_up: u64,
    t2_down: u64,
    t2_up: u64,
    t3_down: u64,
    t3_up: u64,
)
    requires
        millis_between(t2_up, t1_up) < c.triple_click_ms,
        millis_between(t3_up, t2_up) < c.triple_click_ms,
    ensures
        ({
            let (s1, _r1) = click_press(idle_click_state(), t1_down);
            let (s2, r2) = click_release(s1, c, t1_up);
            let (s3, _r3) = click_press(s2, t2_down);
            let (s4, r4) = click_release(s3, c, t2_up);
            let (s5, _r5) = click_press(s4, t3_down);
            let (s6, r6) = click_release(s5, c, t3_up);
            &&& r2 == ClickResult::NoAction
            &&& r4 == if c.double_click_ms > 0 {
                ClickResult::DoubleClick
            } else {
                ClickResult::NoAction
            }
            &&& r6 == ClickResult::TripleClick
            &&& s6 == idle_click_state()
        }),
{
}

/// Whether a long press is in progress in state `s`: reported and still held.
pub open spec fn long_pressing(s: ClickState) -> bool {
    s.long_press_fired && s.button_down
}

/// A long press is in progress exactly from the check that reports
/// `LongPressStart` until the next release or reset: a fresh or reset
/// detector has none, a press never starts one (nor ends one already
/// running), a check starts one only by reporting `LongPressStart` (and only
/// when none runs) and otherwise keeps what was, and every release ends it.
pub proof fn lemma_long_press_lifetime(s: ClickState, c: ClickConfig, now: u64)
    ensures
        !long_pressing(idle_click_state()),
        long_pressing(click_press(s, now).0) == long_pressing(s),
        long_pressing(click_tick(s, c, now).0) == (long_pressing(s) || click_tick(s, c, now).1
            == ClickResult::LongPressStart),
        click_tick(s, c, now).1 == ClickResult::LongPressStart ==> !long_pressing(s),
        !long_pressing(click_release(s, c, now).0),
{
}

/// The step that `calculate_step` uses after `elapsed` milliseconds: the
/// largest step for fast rotation (at most `fast_ms`), the smallest for slow
/// rotation (at least `slow_ms`), and in between a linear interpolation from
/// `max_step` down to `min_step`, truncated toward `min_step`.
pub open spec fn step_for_elapsed(
    elapsed: Option<u64>,
    min_step: i32,
    max_step: i32,
    fast_ms: u64,
    slow_ms: u64,
) -> int {
    match elapsed {
        None => min_step as int,
        Some(e) => {
            if e <= fast_ms {
                max_step as int
            } else if e >= slow_ms {
                min_step as int
            } else {
                let num = (slow_ms - e) * (max_step - min_step);
                let den = slow_ms - fast_ms;
                min_step + if num >= 0 { num / den } else { -((-num) / den) }
            }
        },
    }
}

/// With `min_step <= max_step`, every step lies between the two.
pub proof fn lemma_step_within_bounds(
    elapsed: Option<u64>,
    min_step: i32,
    max_step: i32,
    fast_ms: u64,
    slow_ms: u64,
)
    requires
        min_step <= max_step,
    ensures
        min_step <= step_for_elapsed(elapsed, min_step, max_step, fast_ms, slow_ms) <= max_step,
{
    if let Some(e) = elapsed {
        if fast_ms < e && e < slow_ms {
            let num = (slow_ms - e) * (max_step - min_step);
            let den = slow_ms - fast_ms;
            assert(0 <= num / den <= max_step - min_step) by (nonlinear_arith)
                requires
                    num == (slow_ms - e) * (max_step - min_step),
                    den == slow_ms - fast_ms,
                    fast_ms < e < slow_ms,
                    min_step <= max_step,
            {
                assert(num <= den * (max_step - min_step));
            }
        }
    }
}

/// With `min_step <= max_step`, the step never grows as the time since the
/// previous rotation grows: slower turning gives smaller steps.
pub proof fn lemma_step_slows_down(
    e1: u64,
    e2: u64,
    min_step: i32,
    max_step: i32,
    fast_ms: u64,
    slow_ms: u64,
)
    requires
        min_step <= max_step,
        e1 <= e2,
    ensures
        step_for_elapsed(Some(e2), min_step, max_step, fast_ms, slow_ms) <= step_for_elapsed(
            Some(e1),
            min_step,
            max_step,
            fast_ms,
            slow_ms,
        ),
{
    lemma_step_within_bounds(Some(e1), min_step, max_step, fast_ms, slow_ms);
    lemma_step_within_bounds(Some(e2), min_step, max_step, fast_ms, slow_ms);
    if fast_ms < e1 && e2 < slow_ms {
        let r: int = max_step - min_step;
        let den: int = slow_ms - fast_ms;
        let n1: int = (slow_ms - e1) * r;
        let n2: int = (slow_ms - e2) * r;
        assert(n2 <= n1 && 0 <= n2) by (nonlinear_arith)
            requires
                n1 == (slow_ms - e1) * r,
                n2 == (slow_ms - e2) * r,
                e1 <= e2 < slow_ms,
                0 <= r,
        ;
        assert(n2 / den <= n1 / den) by (nonlinear_arith)
            requires
                0 <= n2 <= n1,
                0 < den,
        ;
    }
}

/// Whether the interpolation of `step_for_elapsed` is reached and its step
/// range `max_step - min_step` overflows an `i32`.
pub open spec fn step_range_overflows(
    elapsed: Option<u64>,
    min_step: i32,
    max_step: i32,
    fast_ms: u64,
    slow_ms: u64,
) -> bool {
    &&& elapsed matches Some(e)
    &&& fast_ms < e < slow_ms
    &&& !(i32::MIN <= max_step - min_step <= i32::MAX)
}

/// The volume step after `elapsed` milliseconds since the previous rotation
/// (`None`: no previous rotation).
pub fn step_from_elapsed(
    elapsed: Option<u64>,
    min_step: i32,
    max_step: i32,
    fast_ms: u64,
    slow_ms: u64,
) -> (step: i32)
    requires
        !step_range_overflows(elapsed, min_step, max_step, fast_ms, slow_ms),
    ensures
        step == step_for_elapsed(elapsed, min_step, max_step, fast_ms, slow_ms),
{
    match elapsed {
        None => min_step,
        Some(e) => {
            if e <= fast_ms {
                max_step
            } else if e >= slow_ms {
                min_step
            } else {
                let range: u64 = slow_ms - fast_ms;
                let pos: u64 = slow_ms - e;
                let step_range: i64 = max_step as i64 - min_step as i64;
                let ghost num: int = (slow_ms - e) * (max_step - min_step);
                if step_range >= 0 {
                    proof {
                        assert((pos as u128) * (step_range as u128) <= 0xffff_ffff_ffff_ffffu128 * 0x1_0000_0000u128) by (nonlinear_arith)
                            requires
                                pos <= 0xffff_ffff_ffff_ffffu64,
                                0 <= step_range <= 0x1_0000_0000i64,
                        ;
                    }
                    let prod: u128 = (pos as u128) * (step_range as u128);
                    let q: u128 = prod / (range as u128);
                    proof {
                        assert(prod == num);
                        assert(pos < range);
                        assert(q <= step_range) by (nonlinear_arith)
                            requires
                                q == prod / (range as u128),
                                prod == (pos as u128) * (step_range as u128),
                                pos < range,
                                0 <= step_range,
                        ;
                    }
                    (min_step as i64 + q as i64) as i32
                } else {
                    let mag: u64 = (0i64 - step_range) as u64;
                    proof {
                        assert((pos as u128) * (mag as u128) <= 0xffff_ffff_ffff_ffffu128 * 0x1_0000_0000u128) by (nonlinear_arith)
                            requires
                                pos <= 0xffff_ffff_ffff_ffffu64,
                                mag <= 0x1_0000_0000u64,
                        ;
                    }
                    let prod: u128 = (pos as u128) * (mag as u128);
                    let q: u128 = prod / (range as u128);
                    proof {
                        assert(prod == -num) by (nonlinear_arith)
                            requires
                                prod == (pos as int) * (mag as int),
                                mag == -(max_step - min_step),
                                pos == slow_ms - e,
                                num == (slow_ms - e) * (max_step - min_step),
                        ;
                        assert(q <= mag) by (nonlinear_arith)
                            requires
                                q == prod / (range as u128),
                                prod == (pos as u128) * (mag as u128),
                                pos < range,
                        ;
                    }
                    (min_step as i64 - q as i64) as i32
                }
            }
        },
    }
}

/// The volume step for a rotation following the one at `last_rotation`
/// (`None`: no previous rotation), from the time elapsed since it.
pub fn calculate_step(
    last_rotation: Option<Instant>,
    min_step: i32,
    max_step: i32,
    fast_ms: u64,
    slow_ms: u64,
) -> (step: i32)
    requires
        last_rotation is Some ==> i32::MIN <= max_step - min_step <= i32::MAX,
    ensures
        last_rotation is None ==> step == min_step,
        last_rotation is Some ==> exists|e: u64|
            step == step_for_elapsed(Some(e), min_step, max_step, fast_ms, slow_ms),
{
    match last_rotation {
        None => min_step,
        Some(last) => {
            let e = elapsed_millis(&last);
            step_from_elapsed(Some(e), min_step, max_step, fast_ms, slow_ms)
        },
    }
}

/// Rotation units accumulated until they leave the dead zone.
#[derive(Debug, Clone, Copy)]
pub struct RotationAccumulator {
    dead_zone: i32,
    invert: bool,
    accumulated: i32,
}

/// The signed rotation of a raw value, reversed when `invert` is set.
pub open spec fn oriented(raw: i8, invert: bool) -> int {
    if invert {
        -(raw as int)
    } else {
        raw as int
    }
}

/// The absolute value of an integer.
pub open spec fn abs(x: int) -> int {
    if x < 0 {
        -x
    } else {
        x
    }
}

impl RotationAccumulator {
    /// The dead zone: accumulated rotation up to this magnitude is held back.
    pub closed spec fn dead_zone(&self) -> i32 {
        self.dead_zone
    }

    /// Whether rotation is reversed.
    pub closed spec fn invert(&self) -> bool {
        self.invert
    }

    /// Rotation held back so far.
    pub closed spec fn pending(&self) -> i32 {
        self.accumulated
    }

    /// Whether adding `raw` to what is held back stays within `i32` and away
    /// from `i32::MIN`, whose magnitude has no `i32`.
    pub open spec fn accepts(&self, raw: i8) -> bool {
        i32::MIN < self.pending() + oriented(raw, self.invert()) <= i32::MAX
    }

    /// An accumulator holding nothing back.
    pub fn new(dead_zone: i32, invert: bool) -> (a: Self)
        ensures
            a.dead_zone() == dead_zone,
            a.invert() == invert,
            a.pending() == 0,
    {
        RotationAccumulator { dead_zone, invert, accumulated: 0 }
    }

    /// Replaces the dead zone and direction; what is held back is kept.
    pub fn update(&mut self, dead_zone: i32, invert: bool)
        ensures
            final(self).dead_zone() == dead_zone,
            final(self).invert() == invert,
            final(self).pending() == old(self).pending(),
    {
        self.dead_zone = dead_zone;
        self.invert = invert;
    }

    /// Whether rotation is reversed.
    pub fn is_inverted(&self) -> (b: bool)
        ensures
            b == self.invert(),
    {
        self.invert
    }

    /// Rotation held back so far.
    pub fn pending_rotation(&self) -> (p: i32)
        ensures
            p == self.pending(),
    {
        self.accumulated
    }

    /// Adds a raw rotation.  When the total leaves the dead zone (its
    /// magnitude exceeds the dead zone) the total is returned and the
    /// accumulator empties; otherwise `None` and the total is held back.
    pub fn process(&mut self, raw: i8) -> (r: Option<i32>)
        requires
            old(self).accepts(raw),
        ensures
            final(self).dead_zone() == old(self).dead_zone(),
            final(self).invert() == old(self).invert(),
            ({
                let total = old(self).pending() + oriented(raw, old(self).invert());
                if abs(total) > old(self).dead_zone() {
                    r == Some(total as i32) && final(self).pending() == 0
                } else {
                    r is None && final(self).pending() == total
                }
            }),
    {
        let rotation: i32 = if self.invert { -(raw as i32) } else { raw as i32 };
        self.accumulated = self.accumulated + rotation;
        let magnitude = if self.accumulated < 0 { -self.accumulated } else { self.accumulated };
        if magnitude > self.dead_zone {
            let result = self.accumulated;
            self.accumulated = 0;
            Some(result)
        } else {
            None
        }
    }

    /// Forgets what is held back.
    pub fn reset(&mut self)
        ensures
            final(self).pending() == 0,
            final(self).dead_zone() == old(self).dead_zone(),
            final(self).invert() == old(self).invert(),
    {
        self.accumulated = 0;
    }
}

/// With a non-negative dead zone, rotation is never held back beyond it:
/// what the accumulator keeps after `process` has magnitude at most the
/// dead zone.
pub proof fn lemma_pending_within_dead_zone(a: RotationAccumulator, raw: i8, b: RotationAccumulator, r: Option<i32>)
    requires
        a.accepts(raw),
        ({
            let total = a.pending() + oriented(raw, a.invert());
            if abs(total) > a.dead_zone() {
                r == Some(total as i32) && b.pending() == 0
            } else {
                r is None && b.pending() == total
            }
        }),
        a.dead_zone() >= 0,
    ensures
        abs(b.pending() as int) <= a.dead_zone(),
{
}

} // verus!
