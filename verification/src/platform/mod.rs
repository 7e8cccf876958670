//! The operating-system services the daemon drives (volume, mute, key and
//! media-key events, notifications), and the parsing of their output.
//!
//! The `Platform` trait is implemented here by `MockPlatform`, which records
//! every call; the implementations for real systems run system commands and
//! live with the program around the library.

pub mod mock;

use crate::text::{parse_i32_spec, parse_i32, string_from_chars};
use vstd::prelude::*;

verus! {

/// Errors of platform operations.
#[derive(Debug, Clone)]
pub enum PlatformError {
    /// Audio system is not available or not responding
    AudioUnavailable(String),
    /// Operation requires permissions that haven't been granted
    PermissionDenied(String),
    /// Requested device was not found
    DeviceNotFound(String),
    /// General operation failure
    OperationFailed(String),
    /// Feature is not implemented on this platform
    NotImplemented,
    /// Failed to parse output from system command
    ParseError(String),
}

/// Function keys that can be simulated.
#[derive(Debug, Clone, Copy, PartialEq, Eq, Structural)]
pub enum Key {
    F15,
    F16,
    F17,
    F18,
    F19,
}

/// Media keys that can be simulated.
#[derive(Debug, Clone, Copy, PartialEq, Eq, Structural)]
pub enum MediaKey {
    PlayPause,
    NextTrack,
    PrevTrack,
    VolumeUp,
    VolumeDown,
    Mute,
}

/// Type of audio device.
#[derive(Debug, Clone, Copy, PartialEq, Eq, Structural)]
pub enum DeviceType {
    Speakers,
    Headphones,
    Hdmi,
    Usb,
    Bluetooth,
    Unknown,
}

/// Notification urgency level.
#[derive(Debug, Clone, Copy, PartialEq, Eq, Structural)]
pub enum Urgency {
    Low,
    Normal,
    Critical,
}

/// An audio device (input or output).
#[derive(Debug, Clone)]
pub struct AudioDevice {
    /// Unique identifier for the device
    pub id: String,
    /// Human-readable name
    pub name: String,
    /// Type of device (speakers, headphones, etc.)
    pub device_type: DeviceType,
    /// Whether this is the current default device
    pub is_default: bool,
}

/// Information about a running application.
#[derive(Debug, Clone)]
pub struct AppInfo {
    /// Application name
    pub name: String,
    /// Bundle identifier (macOS) or package name
    pub bundle_id: Option<String>,
    /// Process ID
    pub process_id: Option<u32>,
    /// Path to executable
    pub executable: Option<String>,
}

/// The services of an operating system that the daemon uses.
///
/// Volumes are percentages (0-100).  Implementations talk to the system, so
/// nothing is promised of what they return.
pub trait Platform {
    /// Current system volume (0-100).
    fn get_volume(&self) -> Result<i32, PlatformError>;

    /// Sets the system volume (0-100).
    fn set_volume(&mut self, vol: i32) -> Result<(), PlatformError>;

    /// Whether system audio is muted.
    fn is_muted(&self) -> Result<bool, PlatformError>;

    /// Toggles system mute.
    fn toggle_mute(&mut self) -> Result<(), PlatformError>;

    /// Current microphone volume (0-100).
    fn get_mic_volume(&self) -> Result<i32, PlatformError>;

    /// Sets the microphone volume (0-100).
    fn set_mic_volume(&mut self, vol: i32) -> Result<(), PlatformError>;

    /// Whether the microphone is muted.
    fn is_mic_muted(&self) -> Result<bool, PlatformError>;

    /// Toggles microphone mute.
    fn toggle_mic_mute(&mut self) -> Result<(), PlatformError>;

    /// Sends a key-down event.
    fn send_key_down(&mut self, key: Key) -> Result<(), PlatformError>;

    /// Sends a key-up event.
    fn send_key_up(&mut self, key: Key) -> Result<(), PlatformError>;

    /// Sends a media key (play/pause, next, previous, ...).
    fn send_media_key(&mut self, key: MediaKey) -> Result<(), PlatformError>;

    /// All available output devices.
    fn list_output_devices(&self) -> Result<Vec<AudioDevice>, PlatformError>;

    /// The current default output device.
    fn get_default_output(&self) -> Result<AudioDevice, PlatformError>;

    /// Makes the device with the given identifier the default output.
    fn set_default_output(&mut self, device_id: &str) -> Result<(), PlatformError>;

    /// All available input devices.
    fn list_input_devices(&self) -> Result<Vec<AudioDevice>, PlatformError>;

    /// Sends a system notification.
    fn send_notification(&mut self, title: &str, body: &str, urgency: Urgency) -> Result<
        (),
        PlatformError,
    >;

    /// The daemon's process id, where the platform can find it.  Each platform
    /// decides how it looks; by default none is found.  No clause states the
    /// result, since implementations answer from the running system.
    fn get_daemon_pid(&self) -> Option<u32> {
        None
    }

    /// Whether the daemon is installed as a system service.  By default it is
    /// not; implementations answer from the running system, so no clause states
    /// the result.
    fn is_daemon_installed(&self) -> bool {
        false
    }

    /// Installs the daemon as a system service.  By default this is
    /// `NotImplemented`; a platform that supports it may succeed, so no clause
    /// states the result.
    fn install_daemon(&mut self) -> Result<(), PlatformError> {
        Err(PlatformError::NotImplemented)
    }

    /// Removes the daemon from the system services.  By default this is
    /// `NotImplemented`; a platform that supports it may succeed, so no clause
    /// states the result.
    fn uninstall_daemon(&mut self) -> Result<(), PlatformError> {
        Err(PlatformError::NotImplemented)
    }

    /// The currently focused application.
    fn get_foreground_app(&self) -> Result<Option<AppInfo>, PlatformError>;

    /// The volume of one application, where supported.  By default this is
    /// `NotImplemented`; a platform that supports it answers from the running
    /// system, so no clause states the result.
    fn get_app_volume(&self, app: &AppInfo) -> Result<Option<i32>, PlatformError> {
        Err(PlatformError::NotImplemented)
    }

    /// Sets the volume of one application, where supported.  By default this is
    /// `NotImplemented`; a platform that supports it may succeed, so no clause
    /// states the result.
    fn set_app_volume(&mut self, app: &AppInfo, vol: i32) -> Result<(), PlatformError> {
        Err(PlatformError::NotImplemented)
    }
}

/// The microphone volume that an unmute restores when none was remembered.
pub const DEFAULT_MIC_RESTORE: i32 = 50;

/// The volume to set and the volume to remember when toggling the microphone
/// mute (see `mic_mute_toggle`).
pub open spec fn mic_toggle(current: i32, remembered: i32) -> (i32, i32) {
    if current > 0 {
        (0i32, current)
    } else if remembered > 0 {
        (remembered, remembered)
    } else {
        (DEFAULT_MIC_RESTORE, remembered)
    }
}

/// Toggling the microphone mute where muting means setting the input volume
/// to 0.  From the current input volume and the volume remembered at the last
/// mute, gives the volume to set and the volume to remember: a live
/// microphone is set to 0 and its volume remembered; a silent one gets the
/// remembered volume back (`DEFAULT_MIC_RESTORE` when that is not positive).
pub fn mic_mute_toggle(current: i32, remembered: i32) -> (r: (i32, i32))
    ensures
        r == mic_toggle(current, remembered),
{
    if current > 0 {
        (0, current)
    } else if remembered > 0 {
        (remembered, remembered)
    } else {
        (DEFAULT_MIC_RESTORE, remembered)
    }
}

/// Muting a live microphone and then unmuting it gives its volume back: the
/// first toggle sets 0 and remembers the volume, the second sets the
/// remembered volume, whatever was remembered before.
pub proof fn lemma_mic_mute_then_unmute_restores(volume: i32, remembered: i32)
    requires
        volume > 0,
    ensures
        mic_toggle(volume, remembered) == (0i32, volume),
        mic_toggle(mic_toggle(volume, remembered).0, mic_toggle(volume, remembered).1) == (
            volume,
            volume,
        ),
{
}

/// `v` clamped to `lo..=hi`.
pub open spec fn clamp_spec(v: int, lo: int, hi: int) -> int {
    if v < lo {
        lo
    } else if v > hi {
        hi
    } else {
        v
    }
}

/// A volume clamped to 0..=100.
pub fn clamp_percent(v: i32) -> (r: i32)
    ensures
        r == clamp_spec(v as int, 0, 100),
{
    if v < 0 {
        0
    } else if v > 100 {
        100
    } else {
        v
    }
}

/// Whether `c` is white space (Unicode `White_Space`, as `char::is_whitespace`).
pub open spec fn is_space(c: char) -> bool {
    let u = c as u32;
    ||| 0x09 <= u <= 0x0D
    ||| u == 0x20
    ||| u == 0x85
    ||| u == 0xA0
    ||| u == 0x1680
    ||| 0x2000 <= u <= 0x200A
    ||| u == 0x2028
    ||| u == 0x2029
    ||| u == 0x202F
    ||| u == 0x205F
    ||| u == 0x3000
}

/// `char::is_whitespace`.
pub fn is_space_exec(c: char) -> (b: bool)
    ensures
        b == is_space(c),
{
    let u = c as u32;
    (0x09 <= u && u <= 0x0D) || u == 0x20 || u == 0x85 || u == 0xA0 || u == 0x1680 || (0x2000
        <= u && u <= 0x200A) || u == 0x2028 || u == 0x2029 || u == 0x202F || u == 0x205F || u
        == 0x3000
}

/// The words of `s` from position `i` on, as `split_whitespace` gives them,
/// when `cur` holds the characters of the word begun before `i`.
pub open spec fn words_from(s: Seq<char>, i: int, cur: Seq<char>) -> Seq<Seq<char>>
    decreases s.len() - i,
{
    if i >= s.len() {
        if cur.len() > 0 {
            seq![cur]
        } else {
            seq![]
        }
    } else if is_space(s[i]) {
        let rest = words_from(s, i + 1, seq![]);
        if cur.len() > 0 {
            seq![cur] + rest
        } else {
            rest
        }
    } else {
        words_from(s, i + 1, cur.push(s[i]))
    }
}

/// The words of `s` (`str::split_whitespace`).
pub open spec fn words(s: Seq<char>) -> Seq<Seq<char>> {
    words_from(s, 0, seq![])
}

/// `w` without its trailing `%` signs (`trim_end_matches('%')`).
pub open spec fn strip_percent(w: Seq<char>) -> Seq<char>
    decreases w.len(),
{
    if w.len() > 0 && w.last() == '%' {
        strip_percent(w.drop_last())
    } else {
        w
    }
}

/// The volume a word gives: a word ending in `%` whose rest is an `i32`.
pub open spec fn percent_word(w: Seq<char>) -> Option<i32> {
    if w.len() > 0 && w.last() == '%' {
        parse_i32_spec(strip_percent(w))
    } else {
        None
    }
}

/// The first volume that the words give, clamped to 0..=100.
pub open spec fn first_percent(ws: Seq<Seq<char>>) -> Option<int>
    decreases ws.len(),
{
    if ws.len() == 0 {
        None
    } else {
        match percent_word(ws[0]) {
            Some(v) => Some(clamp_spec(v as int, 0, 100)),
            None => first_percent(ws.drop_first()),
        }
    }
}

/// The volume in the output of `pactl get-sink-volume`: the first word that
/// ends in `%` and is an integer before it, clamped to 0..=100.
pub open spec fn pulseaudio_volume(s: Seq<char>) -> Option<int> {
    first_percent(words(s))
}

proof fn lemma_first_percent_cons(w: Seq<char>, ws: Seq<Seq<char>>)
    ensures
        first_percent(seq![w] + ws) == match percent_word(w) {
            Some(v) => Some(clamp_spec(v as int, 0, 100)),
            None => first_percent(ws),
        },
{
    assert((seq![w] + ws).drop_first() =~= ws);
    assert((seq![w] + ws)[0] == w);
}

fn strip_percent_exec(w: &Vec<char>) -> (r: Vec<char>)
    ensures
        r@ == strip_percent(w@),
{
    let mut n: usize = w.len();
    assert(w@.subrange(0, n as int) =~= w@);
    while n > 0 && w[n - 1] == '%'
        invariant
            n <= w.len(),
            strip_percent(w@) == strip_percent(w@.subrange(0, n as int)),
        decreases n,
    {
        assert(w@.subrange(0, n as int).drop_last() =~= w@.subrange(0, n - 1));
        n = n - 1;
    }
    let mut r: Vec<char> = Vec::new();
    let mut i: usize = 0;
    while i < n
        invariant
            i <= n <= w.len(),
            r@ == w@.subrange(0, i as int),
        decreases n - i,
    {
        r.push(w[i]);
        i = i + 1;
    }
    proof {
        let t = w@.subrange(0, n as int);
        assert(r@ =~= t);
        assert(!(t.len() > 0 && t.last() == '%'));
    }
    r
}

fn percent_word_exec(w: &Vec<char>) -> (r: Option<i32>)
    ensures
        r == percent_word(w@),
{
    if w.len() > 0 && w[w.len() - 1] == '%' {
        let stripped = strip_percent_exec(w);
        let s = string_from_chars(&stripped);
        parse_i32(s.as_str())
    } else {
        None
    }
}

/// Reads the volume from `pactl` output: the first whitespace-separated word
/// that ends in `%` and whose part before the `%` signs is an integer,
/// clamped to 0..=100.
pub fn parse_pulseaudio_volume(output: &str) -> (r: Result<i32, PlatformError>)
    ensures
        match pulseaudio_volume(output@) {
            Some(v) => r == Ok::<i32, PlatformError>(v as i32),
            None => r matches Err(PlatformError::ParseError(m)) && m@
                == "Cannot parse pactl output"@,
        },
{
    let len = output.unicode_len();
    let mut i: usize = 0;
    let mut cur: Vec<char> = Vec::new();
    while i < len
        invariant
            len == output@.len(),
            i <= len,
            pulseaudio_volume(output@) == first_percent(words_from(output@, i as int, cur@)),
        decreases len - i,
    {
        let c = output.get_char(i);
        if is_space_exec(c) {
            if cur.len() > 0 {
                proof {
                    lemma_first_percent_cons(cur@, words_from(output@, i + 1, seq![]));
                }
                match percent_word_exec(&cur) {
                    Some(v) => {
                        return Ok(clamp_percent(v));
                    },
                    None => {},
                }
            }
            cur = Vec::new();
        } else {
            cur.push(c);
        }
        i = i + 1;
    }
    if cur.len() > 0 {
        proof {
            lemma_first_percent_cons(cur@, seq![]);
            assert(seq![cur@] + Seq::<Seq<char>>::empty() =~= seq![cur@]);
        }
        match percent_word_exec(&cur) {
            Some(v) => {
                return Ok(clamp_percent(v));
            },
            None => {},
        }
    }
    Err(PlatformError::ParseError("Cannot parse pactl output".to_owned()))
}

proof fn lemma_first_percent_in_range(ws: Seq<Seq<char>>)
    ensures
        first_percent(ws) matches Some(v) ==> 0 <= v <= 100,
    decreases ws.len(),
{
    if ws.len() > 0 {
        lemma_first_percent_in_range(ws.drop_first());
    }
}

/// The volume read from `pactl` output always lies in 0..=100.
pub proof fn lemma_pulseaudio_volume_in_range(s: Seq<char>)
    ensures
        pulseaudio_volume(s) matches Some(v) ==> 0 <= v <= 100,
{
    lemma_first_percent_in_range(words(s));
}

/// The macOS virtual key code of a function key.
pub fn key_to_keycode(key: Key) -> (code: u8)
    ensures
        code == match key {
            Key::F15 => 113u8,
            Key::F16 => 106u8,
            Key::F17 => 64u8,
            Key::F18 => 79u8,
            Key::F19 => 80u8,
        },
{
    match key {
        Key::F15 => 113,
        Key::F16 => 106,
        Key::F17 => 64,
        Key::F18 => 79,
        Key::F19 => 80,
    }
}

} // verus!
