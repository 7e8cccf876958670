//! A platform that changes nothing on the system and records every call.

use super::{
    clamp_percent, clamp_spec, AppInfo, AudioDevice, DeviceType, Key, MediaKey, Platform,
    PlatformError, Urgency,
};
use vstd::prelude::*;

verus! {

/// A notification that was sent.
#[derive(Debug, Clone)]
pub struct NotificationRecord {
    pub title: String,
    pub body: String,
    pub urgency: Urgency,
}

/// A platform that records all calls; every operation fails while errors
/// are forced.
#[derive(Debug)]
pub struct MockPlatform {
    volume: i32,
    muted: bool,
    mic_volume: i32,
    mic_muted: bool,
    notifications: Vec<NotificationRecord>,
    media_keys: Vec<MediaKey>,
    keys_down: Vec<Key>,
    keys_up: Vec<Key>,
    volume_changes: Vec<i32>,
    mic_volume_changes: Vec<i32>,
    mute_toggles: u32,
    mic_mute_toggles: u32,
    force_error: bool,
    foreground_app: Option<AppInfo>,
}

/// The error every operation gives while errors are forced.
pub open spec fn is_simulated_error(e: PlatformError) -> bool {
    e matches PlatformError::OperationFailed(m) && m@ == "Simulated error"@
}

/// Whether two application descriptions hold the same text and numbers.
pub open spec fn same_app(a: AppInfo, b: AppInfo) -> bool {
    &&& a.name@ == b.name@
    &&& a.process_id == b.process_id
    &&& match (a.bundle_id, b.bundle_id) {
        (Some(x), Some(y)) => x@ == y@,
        (None, None) => true,
        _ => false,
    }
    &&& match (a.executable, b.executable) {
        (Some(x), Some(y)) => x@ == y@,
        (None, None) => true,
        _ => false,
    }
}

/// Whether two optional application descriptions agree.
pub open spec fn same_opt_app(a: Option<AppInfo>, b: Option<AppInfo>) -> bool {
    match (a, b) {
        (Some(x), Some(y)) => same_app(x, y),
        (None, None) => true,
        _ => false,
    }
}

/// Whether two notification lists hold the same notifications.
pub open spec fn same_notifications(a: Seq<NotificationRecord>, b: Seq<NotificationRecord>) -> bool {
    &&& a.len() == b.len()
    &&& forall|i: int|
        0 <= i < a.len() ==> {
            &&& #[trigger] a[i].title@ == b[i].title@
            &&& a[i].body@ == b[i].body@
            &&& a[i].urgency == b[i].urgency
        }
}

fn copy_opt_string(s: &Option<String>) -> (r: Option<String>)
    ensures
        match (*s, r) {
            (Some(x), Some(y)) => x@ == y@,
            (None, None) => true,
            _ => false,
        },
{
    match s {
        Some(x) => Some(x.clone()),
        None => None,
    }
}

fn copy_app(a: &AppInfo) -> (r: AppInfo)
    ensures
        same_app(*a, r),
{
    AppInfo {
        name: a.name.clone(),
        bundle_id: copy_opt_string(&a.bundle_id),
        process_id: a.process_id,
        executable: copy_opt_string(&a.executable),
    }
}

fn copy_opt_app(a: &Option<AppInfo>) -> (r: Option<AppInfo>)
    ensures
        same_opt_app(*a, r),
{
    match a {
        Some(x) => Some(copy_app(x)),
        None => None,
    }
}

/// `n + 1`, or zero after `u32::MAX` (`u32::wrapping_add`).
pub open spec fn wrapping_increment(n: u32) -> u32 {
    if n == u32::MAX {
        0
    } else {
        (n + 1) as u32
    }
}

fn increment_wrapping(n: u32) -> (r: u32)
    ensures
        r == wrapping_increment(n),
{
    if n == u32::MAX {
        0
    } else {
        n + 1
    }
}

fn copy_vec<T: Copy>(v: &Vec<T>) -> (r: Vec<T>)
    ensures
        r@ == v@,
{
    let mut r: Vec<T> = Vec::new();
    let mut i: usize = 0;
    while i < v.len()
        invariant
            i <= v.len(),
            r@ == v@.subrange(0, i as int),
        decreases v.len() - i,
    {
        r.push(v[i]);
        i = i + 1;
    }
    assert(r@ =~= v@);
    r
}

fn mock_device(id: &str, name: &str, device_type: DeviceType) -> (d: AudioDevice)
    ensures
        d.id@ == id@,
        d.name@ == name@,
        d.device_type == device_type,
        d.is_default,
{
    AudioDevice { id: id.to_owned(), name: name.to_owned(), device_type, is_default: true }
}

/// The parts of a mock's state.
pub enum MockPart {
    Volume,
    Muted,
    MicVolume,
    MicMuted,
    Notifications,
    MediaKeys,
    KeysDown,
    KeysUp,
    VolumeChanges,
    MicVolumeChanges,
    MuteToggles,
    MicMuteToggles,
    ForceError,
    ForegroundApp,
}

/// The recorded history of a mock.
pub open spec fn history_parts() -> Set<MockPart> {
    set![
        MockPart::Notifications,
        MockPart::MediaKeys,
        MockPart::KeysDown,
        MockPart::KeysUp,
        MockPart::VolumeChanges,
        MockPart::MicVolumeChanges,
        MockPart::MuteToggles,
        MockPart::MicMuteToggles,
    ]
}

impl Default for MockPlatform {
    fn default() -> (p: Self)
        ensures
            p.is_fresh(),
    {
        MockPlatform::new()
    }
}

impl MockPlatform {
    /// System volume.
    pub closed spec fn volume(&self) -> i32 {
        self.volume
    }

    /// System mute.
    pub closed spec fn muted(&self) -> bool {
        self.muted
    }

    /// Microphone volume.
    pub closed spec fn mic_volume(&self) -> i32 {
        self.mic_volume
    }

    /// Microphone mute.
    pub closed spec fn mic_muted(&self) -> bool {
        self.mic_muted
    }

    /// Notifications sent, oldest first.
    pub closed spec fn notifications(&self) -> Seq<NotificationRecord> {
        self.notifications@
    }

    /// Media keys sent, oldest first.
    pub closed spec fn media_keys(&self) -> Seq<MediaKey> {
        self.media_keys@
    }

    /// Keys that received a down event, oldest first.
    pub closed spec fn keys_down(&self) -> Seq<Key> {
        self.keys_down@
    }

    /// Keys that received an up event, oldest first.
    pub closed spec fn keys_up(&self) -> Seq<Key> {
        self.keys_up@
    }

    /// Volumes set, oldest first (after clamping).
    pub closed spec fn volume_changes(&self) -> Seq<i32> {
        self.volume_changes@
    }

    /// Microphone volumes set, oldest first (after clamping).
    pub closed spec fn mic_volume_changes(&self) -> Seq<i32> {
        self.mic_volume_changes@
    }

    /// Mute toggles counted (wrapping at `u32::MAX`).
    pub closed spec fn mute_toggles(&self) -> u32 {
        self.mute_toggles
    }

    /// Microphone mute toggles counted (wrapping at `u32::MAX`).
    pub closed spec fn mic_mute_toggles(&self) -> u32 {
        self.mic_mute_toggles
    }

    /// Whether every operation fails.
    pub closed spec fn force_error(&self) -> bool {
        self.force_error
    }

    /// The simulated focused application.
    pub closed spec fn foreground_app(&self) -> Option<AppInfo> {
        self.foreground_app
    }

    /// Nothing recorded, nothing counted.
    pub open spec fn history_empty(&self) -> bool {
        &&& self.notifications().len() == 0
        &&& self.media_keys().len() == 0
        &&& self.keys_down().len() == 0
        &&& self.keys_up().len() == 0
        &&& self.volume_changes().len() == 0
        &&& self.mic_volume_changes().len() == 0
        &&& self.mute_toggles() == 0
        &&& self.mic_mute_toggles() == 0
    }

    /// The state of a new mock: both volumes at 50, nothing muted, nothing
    /// recorded, errors not forced, no focused application.
    pub open spec fn is_fresh(&self) -> bool {
        &&& self.volume() == 50
        &&& !self.muted()
        &&& self.mic_volume() == 50
        &&& !self.mic_muted()
        &&& self.history_empty()
        &&& !self.force_error()
        &&& self.foreground_app() is None
    }

    /// Whether every part of the state outside `changed` is as in `other`.
    pub open spec fn agrees_except(&self, other: &Self, changed: Set<MockPart>) -> bool {
        &&& (!changed.contains(MockPart::Volume) ==> self.volume() == other.volume())
        &&& (!changed.contains(MockPart::Muted) ==> self.muted() == other.muted())
        &&& (!changed.contains(MockPart::MicVolume) ==> self.mic_volume() == other.mic_volume())
        &&& (!changed.contains(MockPart::MicMuted) ==> self.mic_muted() == other.mic_muted())
        &&& (!changed.contains(MockPart::Notifications) ==> self.notifications()
            == other.notifications())
        &&& (!changed.contains(MockPart::MediaKeys) ==> self.media_keys() == other.media_keys())
        &&& (!changed.contains(MockPart::KeysDown) ==> self.keys_down() == other.keys_down())
        &&& (!changed.contains(MockPart::KeysUp) ==> self.keys_up() == other.keys_up())
        &&& (!changed.contains(MockPart::VolumeChanges) ==> self.volume_changes()
            == other.volume_changes())
        &&& (!changed.contains(MockPart::MicVolumeChanges) ==> self.mic_volume_changes()
            == other.mic_volume_changes())
        &&& (!changed.contains(MockPart::MuteToggles) ==> self.mute_toggles()
            == other.mute_toggles())
        &&& (!changed.contains(MockPart::MicMuteToggles) ==> self.mic_mute_toggles()
            == other.mic_mute_toggles())
        &&& (!changed.contains(MockPart::ForceError) ==> self.force_error() == other.force_error())
        &&& (!changed.contains(MockPart::ForegroundApp) ==> self.foreground_app()
            == other.foreground_app())
    }

    /// A mock in its fresh state.
    pub fn new() -> (p: Self)
        ensures
            p.is_fresh(),
    {
        MockPlatform {
            volume: 50,
            muted: false,
            mic_volume: 50,
            mic_muted: false,
            notifications: Vec::new(),
            media_keys: Vec::new(),
            keys_down: Vec::new(),
            keys_up: Vec::new(),
            volume_changes: Vec::new(),
            mic_volume_changes: Vec::new(),
            mute_toggles: 0,
            mic_mute_toggles: 0,
            force_error: false,
            foreground_app: None,
        }
    }

    /// The same mock with the system volume set to `vol` (not clamped, not
    /// recorded).
    pub fn with_volume(self, vol: i32) -> (p: Self)
        ensures
            p.volume() == vol,
            p.agrees_except(&self, set![MockPart::Volume]),
    {
        MockPlatform { volume: vol, ..self }
    }

    /// The same mock with the microphone volume set to `vol` (not clamped,
    /// not recorded).
    pub fn with_mic_volume(self, vol: i32) -> (p: Self)
        ensures
            p.mic_volume() == vol,
            p.agrees_except(&self, set![MockPart::MicVolume]),
    {
        MockPlatform { mic_volume: vol, ..self }
    }

    /// The same mock with system mute set to `muted`.
    pub fn with_muted(self, muted: bool) -> (p: Self)
        ensures
            p.muted() == muted,
            p.agrees_except(&self, set![MockPart::Muted]),
    {
        MockPlatform { muted, ..self }
    }

    /// Makes every operation fail (`true`) or succeed again (`false`).
    pub fn set_force_error(&mut self, force: bool)
        ensures
            final(self).force_error() == force,
            final(self).agrees_except(old(self), set![MockPart::ForceError]),
    {
        self.force_error = force;
    }

    /// Sets the simulated focused application.
    pub fn set_foreground_app(&mut self, app: Option<AppInfo>)
        ensures
            final(self).foreground_app() == app,
            final(self).agrees_except(old(self), set![MockPart::ForegroundApp]),
    {
        self.foreground_app = app;
    }

    /// The notifications sent, oldest first.
    pub fn notifications_sent(&self) -> (v: Vec<NotificationRecord>)
        ensures
            same_notifications(v@, self.notifications()),
    {
        let mut r: Vec<NotificationRecord> = Vec::new();
        let mut i: usize = 0;
        while i < self.notifications.len()
            invariant
                i <= self.notifications@.len(),
                r@.len() == i,
                forall|j: int|
                    #![trigger r@[j]]
                    0 <= j < i ==> {
                        &&& r@[j].title@ == self.notifications@[j].title@
                        &&& r@[j].body@ == self.notifications@[j].body@
                        &&& r@[j].urgency == self.notifications@[j].urgency
                    },
            decreases self.notifications@.len() - i,
        {
            let n = &self.notifications[i];
            r.push(
                NotificationRecord { title: n.title.clone(), body: n.body.clone(), urgency: n.urgency },
            );
            i = i + 1;
        }
        r
    }

    /// The media keys sent, oldest first.
    pub fn media_keys_sent(&self) -> (v: Vec<MediaKey>)
        ensures
            v@ == self.media_keys(),
    {
        copy_vec(&self.media_keys)
    }

    /// The keys that received a down event, oldest first.
    pub fn keys_pressed(&self) -> (v: Vec<Key>)
        ensures
            v@ == self.keys_down(),
    {
        copy_vec(&self.keys_down)
    }

    /// The keys that received an up event, oldest first.
    pub fn keys_released(&self) -> (v: Vec<Key>)
        ensures
            v@ == self.keys_up(),
    {
        copy_vec(&self.keys_up)
    }

    /// The volumes set, oldest first.
    pub fn volume_history(&self) -> (v: Vec<i32>)
        ensures
            v@ == self.volume_changes(),
    {
        copy_vec(&self.volume_changes)
    }

    /// The microphone volumes set, oldest first.
    pub fn mic_volume_history(&self) -> (v: Vec<i32>)
        ensures
            v@ == self.mic_volume_changes(),
    {
        copy_vec(&self.mic_volume_changes)
    }

    /// The number of mute toggles.
    pub fn mute_toggle_count(&self) -> (n: u32)
        ensures
            n == self.mute_toggles(),
    {
        self.mute_toggles
    }

    /// The number of microphone mute toggles.
    pub fn mic_mute_toggle_count(&self) -> (n: u32)
        ensures
            n == self.mic_mute_toggles(),
    {
        self.mic_mute_toggles
    }

    /// Forgets every recorded call; volumes, mute states, forced errors and
    /// the focused application stay.
    pub fn clear_history(&mut self)
        ensures
            final(self).history_empty(),
            final(self).agrees_except(old(self), history_parts()),
    {
        self.notifications = Vec::new();
        self.media_keys = Vec::new();
        self.keys_down = Vec::new();
        self.keys_up = Vec::new();
        self.volume_changes = Vec::new();
        self.mic_volume_changes = Vec::new();
        self.mute_toggles = 0;
        self.mic_mute_toggles = 0;
    }

    fn check_error(&self) -> (r: Result<(), PlatformError>)
        ensures
            self.force_error() ==> (r matches Err(e) && is_simulated_error(e)),
            !self.force_error() ==> r is Ok,
    {
        if self.force_error {
            Err(PlatformError::OperationFailed("Simulated error".to_owned()))
        } else {
            Ok(())
        }
    }
}

impl Platform for MockPlatform {
    fn get_volume(&self) -> (r: Result<i32, PlatformError>)
        ensures
            self.force_error() ==> (r matches Err(e) && is_simulated_error(e)),
            !self.force_error() ==> r == Ok::<i32, PlatformError>(self.volume()),
    {
        self.check_error()?;
        Ok(self.volume)
    }

    fn set_volume(&mut self, vol: i32) -> (r: Result<(), PlatformError>)
        ensures
            old(self).force_error() ==> (r matches Err(e) && is_simulated_error(e)),
            old(self).force_error() ==> *final(self) == *old(self),
            !old(self).force_error() ==> {
                let c = clamp_spec(vol as int, 0, 100) as i32;
                &&& r is Ok
                &&& final(self).volume() == c
                &&& final(self).volume_changes() == old(self).volume_changes().push(c)
                &&& final(self).agrees_except(
                    old(self),
                    set![MockPart::Volume, MockPart::VolumeChanges],
                )
            },
    {
        self.check_error()?;
        let clamped = clamp_percent(vol);
        self.volume = clamped;
        self.volume_changes.push(clamped);
        Ok(())
    }

    fn is_muted(&self) -> (r: Result<bool, PlatformError>)
        ensures
            self.force_error() ==> (r matches Err(e) && is_simulated_error(e)),
            !self.force_error() ==> r == Ok::<bool, PlatformError>(self.muted()),
    {
        self.check_error()?;
        Ok(self.muted)
    }

    fn toggle_mute(&mut self) -> (r: Result<(), PlatformError>)
        ensures
            old(self).force_error() ==> (r matches Err(e) && is_simulated_error(e)),
            old(self).force_error() ==> *final(self) == *old(self),
            !old(self).force_error() ==> {
                &&& r is Ok
                &&& final(self).muted() == !old(self).muted()
                &&& final(self).mute_toggles() == wrapping_increment(old(self).mute_toggles())
                &&& final(self).agrees_except(
                    old(self),
                    set![MockPart::Muted, MockPart::MuteToggles],
                )
            },
    {
        self.check_error()?;
        self.muted = !self.muted;
        self.mute_toggles = increment_wrapping(self.mute_toggles);
        Ok(())
    }

    fn get_mic_volume(&self) -> (r: Result<i32, PlatformError>)
        ensures
            self.force_error() ==> (r matches Err(e) && is_simulated_error(e)),
            !self.force_error() ==> r == Ok::<i32, PlatformError>(self.mic_volume()),
    {
        self.check_error()?;
        Ok(self.mic_volume)
    }

    fn set_mic_volume(&mut self, vol: i32) -> (r: Result<(), PlatformError>)
        ensures
            old(self).force_error() ==> (r matches Err(e) && is_simulated_error(e)),
            old(self).force_error() ==> *final(self) == *old(self),
            !old(self).force_error() ==> {
                let c = clamp_spec(vol as int, 0, 100) as i32;
                &&& r is Ok
                &&& final(self).mic_volume() == c
                &&& final(self).mic_volume_changes() == old(self).mic_volume_changes().push(c)
                &&& final(self).agrees_except(
                    old(self),
                    set![MockPart::MicVolume, MockPart::MicVolumeChanges],
                )
            },
    {
        self.check_error()?;
        let clamped = clamp_percent(vol);
        self.mic_volume = clamped;
        self.mic_volume_changes.push(clamped);
        Ok(())
    }

    fn is_mic_muted(&self) -> (r: Result<bool, PlatformError>)
        ensures
            self.force_error() ==> (r matches Err(e) && is_simulated_error(e)),
            !self.force_error() ==> r == Ok::<bool, PlatformError>(self.mic_muted()),
    {
        self.check_error()?;
        Ok(self.mic_muted)
    }

    fn toggle_mic_mute(&mut self) -> (r: Result<(), PlatformError>)
        ensures
            old(self).force_error() ==> (r matches Err(e) && is_simulated_error(e)),
            old(self).force_error() ==> *final(self) == *old(self),
            !old(self).force_error() ==> {
                &&& r is Ok
                &&& final(self).mic_muted() == !old(self).mic_muted()
                &&& final(self).mic_mute_toggles() == wrapping_increment(
                    old(self).mic_mute_toggles(),
                )
                &&& final(self).agrees_except(
                    old(self),
                    set![MockPart::MicMuted, MockPart::MicMuteToggles],
                )
            },
    {
        self.check_error()?;
        self.mic_muted = !self.mic_muted;
        self.mic_mute_toggles = increment_wrapping(self.mic_mute_toggles);
        Ok(())
    }

    fn send_key_down(&mut self, key: Key) -> (r: Result<(), PlatformError>)
        ensures
            old(self).force_error() ==> (r matches Err(e) && is_simulated_error(e)),
            old(self).force_error() ==> *final(self) == *old(self),
            !old(self).force_error() ==> {
                &&& r is Ok
                &&& final(self).keys_down() == old(self).keys_down().push(key)
                &&& final(self).agrees_except(old(self), set![MockPart::KeysDown])
            },
    {
        self.check_error()?;
        self.keys_down.push(key);
        Ok(())
    }

    fn send_key_up(&mut self, key: Key) -> (r: Result<(), PlatformError>)
        ensures
            old(self).force_error() ==> (r matches Err(e) && is_simulated_error(e)),
            old(self).force_error() ==> *final(self) == *old(self),
            !old(self).force_error() ==> {
                &&& r is Ok
                &&& final(self).keys_up() == old(self).keys_up().push(key)
                &&& final(self).agrees_except(old(self), set![MockPart::KeysUp])
            },
    {
        self.check_error()?;
        self.keys_up.push(key);
        Ok(())
    }

    fn send_media_key(&mut self, key: MediaKey) -> (r: Result<(), PlatformError>)
        ensures
            old(self).force_error() ==> (r matches Err(e) && is_simulated_error(e)),
            old(self).force_error() ==> *final(self) == *old(self),
            !old(self).force_error() ==> {
                &&& r is Ok
                &&& final(self).media_keys() == old(self).media_keys().push(key)
                &&& final(self).agrees_except(old(self), set![MockPart::MediaKeys])
            },
    {
        self.check_error()?;
        self.media_keys.push(key);
        Ok(())
    }

    fn list_output_devices(&self) -> (r: Result<Vec<AudioDevice>, PlatformError>)
        ensures
            self.force_error() ==> (r matches Err(e) && is_simulated_error(e)),
            !self.force_error() ==> (r matches Ok(v) && v@.len() == 1 && v@[0].id@ == "mock-speakers"@ && v@[0].name@ == "Mock Speakers"@ && v@[0].device_type == DeviceType::Speakers && v@[0].is_default),
    {
        self.check_error()?;
        Ok(vec![mock_device("mock-speakers", "Mock Speakers", DeviceType::Speakers)])
    }

    fn get_default_output(&self) -> (r: Result<AudioDevice, PlatformError>)
        ensures
            self.force_error() ==> (r matches Err(e) && is_simulated_error(e)),
            !self.force_error() ==> (r matches Ok(d) && d.id@ == "mock-speakers"@ && d.name@ == "Mock Speakers"@ && d.device_type == DeviceType::Speakers && d.is_default),
    {
        self.check_error()?;
        Ok(mock_device("mock-speakers", "Mock Speakers", DeviceType::Speakers))
    }

    fn set_default_output(&mut self, device_id: &str) -> (r: Result<(), PlatformError>)
        ensures
            old(self).force_error() ==> (r matches Err(e) && is_simulated_error(e)),
            !old(self).force_error() ==> r is Ok,
            *final(self) == *old(self),
    {
        self.check_error()?;
        Ok(())
    }

    fn list_input_devices(&self) -> (r: Result<Vec<AudioDevice>, PlatformError>)
        ensures
            self.force_error() ==> (r matches Err(e) && is_simulated_error(e)),
            !self.force_error() ==> (r matches Ok(v) && v@.len() == 1 && v@[0].id@ == "mock-mic"@ && v@[0].name@ == "Mock Microphone"@ && v@[0].device_type == DeviceType::Unknown && v@[0].is_default),
    {
        self.check_error()?;
        Ok(vec![mock_device("mock-mic", "Mock Microphone", DeviceType::Unknown)])
    }

    fn send_notification(&mut self, title: &str, body: &str, urgency: Urgency) -> (r: Result<
        (),
        PlatformError,
    >)
        ensures
            old(self).force_error() ==> (r matches Err(e) && is_simulated_error(e)),
            old(self).force_error() ==> *final(self) == *old(self),
            !old(self).force_error() ==> {
                let n = final(self).notifications();
                &&& r is Ok
                &&& n.len() == old(self).notifications().len() + 1
                &&& n.drop_last() == old(self).notifications()
                &&& n.last().title@ == title@
                &&& n.last().body@ == body@
                &&& n.last().urgency == urgency
                &&& final(self).agrees_except(old(self), set![MockPart::Notifications])
            },
    {
        self.check_error()?;
        let record = NotificationRecord {
            title: title.to_owned(),
            body: body.to_owned(),
            urgency,
        };
        self.notifications.push(record);
        Ok(())
    }

    fn get_foreground_app(&self) -> (r: Result<Option<AppInfo>, PlatformError>)
        ensures
            self.force_error() ==> (r matches Err(e) && is_simulated_error(e)),
            !self.force_error() ==> (r matches Ok(a) && same_opt_app(a, self.foreground_app())),
    {
        self.check_error()?;
        Ok(copy_opt_app(&self.foreground_app))
    }
}

/// A call on a mock, as far as its record of media keys goes.
pub enum MediaKeyCall {
    /// `send_media_key` with this key
    Send(MediaKey),
    /// `clear_history`
    ClearHistory,
    /// Any other method
    Other,
}

/// What a call does to the record of media keys, as the contracts of the
/// mock's methods state it: `send_media_key(k)` appends `k` unless errors are
/// forced (then nothing changes), `clear_history` empties the record, and
/// every other method keeps it.
pub open spec fn media_call_step(before: MockPlatform, call: MediaKeyCall, after: MockPlatform) -> bool {
    match call {
        MediaKeyCall::Send(k) => if before.force_error() {
            after.media_keys() == before.media_keys()
        } else {
            after.media_keys() == before.media_keys().push(k)
        },
        MediaKeyCall::ClearHistory => after.media_keys().len() == 0,
        MediaKeyCall::Other => after.media_keys() == before.media_keys(),
    }
}

/// The keys of the successful `send_media_key` calls of a call history since
/// its last `clear_history`, in call order; `states[i]` is the mock before
/// call `i`, so a send succeeds when errors are not forced in it.
pub open spec fn keys_sent_since_clear(states: Seq<MockPlatform>, calls: Seq<MediaKeyCall>) -> Seq<
    MediaKey,
>
    decreases calls.len(),
{
    if calls.len() == 0 {
        Seq::empty()
    } else {
        let n = calls.len() - 1;
        let rest = keys_sent_since_clear(states, calls.drop_last());
        match calls[n] {
            MediaKeyCall::Send(k) => if states[n].force_error() {
                rest
            } else {
                rest.push(k)
            },
            MediaKeyCall::ClearHistory => Seq::empty(),
            MediaKeyCall::Other => rest,
        }
    }
}

/// `media_keys_sent` lists the keys of the successful `send_media_key` calls
/// since `new()` (or a mock with an empty record) or the last
/// `clear_history()`, in call order: over any call history (`states[i]`
/// before call `i`, `states[i + 1]` after it), the record ends as exactly
/// those keys.
pub proof fn lemma_media_keys_in_call_order(states: Seq<MockPlatform>, calls: Seq<MediaKeyCall>)
    requires
        states.len() == calls.len() + 1,
        states[0].media_keys().len() == 0,
        forall|i: int|
            0 <= i < calls.len() ==> media_call_step(#[trigger] states[i], calls[i], states[i + 1]),
    ensures
        states.last().media_keys() == keys_sent_since_clear(states, calls),
    decreases calls.len(),
{
    if calls.len() == 0 {
        assert(states[0].media_keys() =~= Seq::<MediaKey>::empty());
    } else {
        let n = calls.len() - 1;
        let front = states.drop_last();
        assert forall|i: int| 0 <= i < calls.drop_last().len() implies media_call_step(
            #[trigger] front[i],
            calls.drop_last()[i],
            front[i + 1],
        ) by {
            assert(media_call_step(states[i], calls[i], states[i + 1]));
        }
        lemma_media_keys_in_call_order(front, calls.drop_last());
        lemma_keys_sent_prefix(states, front, calls.drop_last());
        assert(media_call_step(states[n], calls[n], states[n + 1]));
        assert(front.last() == states[n]);
        if calls[n] is ClearHistory {
            assert(states.last().media_keys() =~= Seq::<MediaKey>::empty());
        }
    }
}

/// `keys_sent_since_clear` reads only the states before each call.
proof fn lemma_keys_sent_prefix(a: Seq<MockPlatform>, b: Seq<MockPlatform>, calls: Seq<MediaKeyCall>)
    requires
        calls.len() <= a.len(),
        calls.len() <= b.len(),
        forall|i: int| 0 <= i < calls.len() ==> #[trigger] a[i] == b[i],
    ensures
        keys_sent_since_clear(a, calls) == keys_sent_since_clear(b, calls),
    decreases calls.len(),
{
    if calls.len() > 0 {
        lemma_keys_sent_prefix(a, b, calls.drop_last());
        assert(a[calls.len() - 1] == b[calls.len() - 1]);
    }
}

/// A call made while errors are forced: it changes nothing.  Every method of
/// the mock's `Platform` implementation states this of itself, besides
/// answering with the simulated error.
pub open spec fn refused_step(before: MockPlatform, after: MockPlatform) -> bool {
    before.force_error() ==> after == before
}

/// While errors are forced, no run of calls changes the mock: volumes, mute
/// states, recorded calls and counts all stay as they were, and errors stay
/// forced, until `set_force_error(false)` is called.
pub proof fn lemma_forced_errors_change_nothing(states: Seq<MockPlatform>)
    requires
        states.len() >= 1,
        states[0].force_error(),
        forall|i: int| 0 <= i < states.len() - 1 ==> refused_step(#[trigger] states[i], states[i + 1]),
    ensures
        forall|i: int| 0 <= i < states.len() ==> #[trigger] states[i] == states[0],
    decreases states.len(),
{
    if states.len() > 1 {
        let front = states.drop_last();
        assert forall|i: int| 0 <= i < front.len() - 1 implies refused_step(
            #[trigger] front[i],
            front[i + 1],
        ) by {
            assert(refused_step(states[i], states[i + 1]));
        }
        lemma_forced_errors_change_nothing(front);
        let n = states.len() - 1;
        assert(front[n - 1] == states[n - 1]);
        assert(refused_step(states[n - 1], states[n]));
        assert forall|i: int| 0 <= i < states.len() implies #[trigger] states[i] == states[0] by {
            if i < n {
                assert(front[i] == states[i]);
            }
        }
    }
}

} // verus!
