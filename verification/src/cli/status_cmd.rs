//! The `status` subcommand: what is gathered about the daemon, the dial, the
//! current state and the features, and the text report of it.

use crate::cli::exit_codes::{DEVICE_NOT_FOUND, ERROR, SUCCESS};
use crate::config::Config;
use crate::daemon::{SURFACE_DIAL_PRODUCT_ID, SURFACE_DIAL_VENDOR_ID};
use crate::text::{cat, format_hex4, format_i32, format_u64, hex4_text, int_text, nat_text, pad_right, pad_right_exec};
use vstd::prelude::*;

verus! {

/// Options of the status check.
#[derive(Debug, Clone, Copy)]
pub struct StatusCmd {
    /// Show detailed device information
    pub detailed: bool,
    /// Only check if device is connected (exit code only)
    pub check: bool,
    /// Continuous status updates (refreshes every second)
    pub watch: bool,
}

impl Default for StatusCmd {
    fn default() -> (c: Self)
        ensures
            !c.detailed,
            !c.check,
            !c.watch,
    {
        StatusCmd { detailed: false, check: false, watch: false }
    }
}

/// Daemon status information.
#[derive(Debug, Clone)]
pub struct DaemonStatus {
    pub running: bool,
    pub pid: Option<u32>,
    pub uptime_seconds: Option<u64>,
    pub log_level: String,
}

/// Device status information.
#[derive(Debug, Clone)]
pub struct DeviceStatus {
    pub connected: bool,
    pub device_count: usize,
    pub vendor_id: Option<String>,
    pub product_id: Option<String>,
    pub product_name: Option<String>,
    pub interfaces: Vec<DeviceInterface>,
}

/// Device interface details.
#[derive(Debug, Clone)]
pub struct DeviceInterface {
    pub path: String,
    pub interface_number: i32,
}

/// Current control state.
#[derive(Debug, Clone)]
pub struct CurrentState {
    pub mode: String,
    pub volume_percent: Option<i32>,
    pub muted: Option<bool>,
    pub mic_percent: Option<i32>,
    pub mic_muted: Option<bool>,
}

/// Feature status with configuration.
#[derive(Debug, Clone)]
pub struct FeatureStatus {
    pub osd: FeatureInfo,
    pub battery_monitor: FeatureInfo,
    pub system_tray: FeatureInfo,
    pub media_control: FeatureInfo,
    pub audio_feedback: FeatureInfo,
    pub event_hooks: FeatureInfo,
    pub device_switching: FeatureInfo,
}

/// Individual feature information.
#[derive(Debug, Clone)]
pub struct FeatureInfo {
    pub enabled: bool,
    pub detail: Option<String>,
}

/// Audio device information.
#[derive(Debug, Clone)]
pub struct AudioDeviceInfo {
    pub name: String,
    pub device_type: String,
    pub is_default: bool,
}

/// Sensitivity settings, as the report shows them.
#[derive(Debug, Clone)]
pub struct SensitivityStatus {
    pub dead_zone: i32,
    /// The multiplier with one decimal
    pub multiplier: String,
    pub invert: bool,
    pub preset: String,
}

/// Complete status information.
#[derive(Debug, Clone)]
pub struct FullStatus {
    pub daemon: DaemonStatus,
    pub device: DeviceStatus,
    pub state: CurrentState,
    pub features: FeatureStatus,
    pub sensitivity: SensitivityStatus,
    pub audio_devices: Vec<AudioDeviceInfo>,
}

/// What the HID layer reports of one device interface.
#[derive(Debug, Clone)]
pub struct DeviceEntry {
    pub vendor_id: u16,
    pub product_id: u16,
    pub product_name: Option<String>,
    pub path: String,
    pub interface_number: i32,
}

/// The control state shown for the given readings (`None`: unreadable);
/// the mode shown is volume control.
pub fn current_state(
    volume_percent: Option<i32>,
    muted: Option<bool>,
    mic_percent: Option<i32>,
    mic_muted: Option<bool>,
) -> (s: CurrentState)
    ensures
        s.mode@ == "Volume"@,
        s.volume_percent == volume_percent,
        s.muted == muted,
        s.mic_percent == mic_percent,
        s.mic_muted == mic_muted,
{
    CurrentState { mode: "Volume".to_owned(), volume_percent, muted, mic_percent, mic_muted }
}

/// The detail of the OSD feature: position and timeout.
pub open spec fn osd_detail(c: Config) -> Seq<char> {
    c.osd.position@ + ", "@ + int_text(c.osd.timeout_ms as int) + "ms"@
}

/// The detail of the battery monitor: its poll interval.
pub open spec fn battery_detail(c: Config) -> Seq<char> {
    "poll: "@ + int_text(c.battery.poll_interval_seconds as int) + "s"@
}

/// The detail of event hooks: the number of webhooks.
pub open spec fn hooks_detail(c: Config) -> Seq<char> {
    nat_text(c.events.webhooks@.len()) + " webhooks"@
}

/// Whether a feature shows `enabled` and the detail `detail`.
pub open spec fn shows(f: FeatureInfo, enabled: bool, detail: Option<Seq<char>>) -> bool {
    &&& f.enabled == enabled
    &&& match (f.detail, detail) {
        (Some(a), Some(b)) => a@ == b,
        (None, None) => true,
        _ => false,
    }
}

/// The features as the configuration sets them, with their details.
pub fn get_feature_status(config: &Config) -> (f: FeatureStatus)
    ensures
        shows(f.osd, config.osd.enabled, Some(osd_detail(*config))),
        shows(f.battery_monitor, config.battery.enabled, Some(battery_detail(*config))),
        shows(f.system_tray, config.tray.enabled, None),
        shows(
            f.media_control,
            config.media_control.enabled,
            Some(config.media_control.triple_click_action@),
        ),
        shows(f.audio_feedback, config.audio_feedback.enabled, None),
        shows(f.event_hooks, config.events.enabled, Some(hooks_detail(*config))),
        shows(f.device_switching, config.device_switching.enabled, Some(config.device_switching.mode@)),
{
    let osd = cat(
        cat(cat(config.osd.position.clone(), ", "), format_i32(config.osd.timeout_ms).as_str()),
        "ms",
    );
    let battery = cat(
        cat("poll: ".to_owned(), format_i32(config.battery.poll_interval_seconds).as_str()),
        "s",
    );
    let hooks = cat(format_u64(config.events.webhooks.len() as u64), " webhooks");
    FeatureStatus {
        osd: FeatureInfo { enabled: config.osd.enabled, detail: Some(osd) },
        battery_monitor: FeatureInfo { enabled: config.battery.enabled, detail: Some(battery) },
        system_tray: FeatureInfo { enabled: config.tray.enabled, detail: None },
        media_control: FeatureInfo {
            enabled: config.media_control.enabled,
            detail: Some(config.media_control.triple_click_action.clone()),
        },
        audio_feedback: FeatureInfo { enabled: config.audio_feedback.enabled, detail: None },
        event_hooks: FeatureInfo { enabled: config.events.enabled, detail: Some(hooks) },
        device_switching: FeatureInfo {
            enabled: config.device_switching.enabled,
            detail: Some(config.device_switching.mode.clone()),
        },
    }
}

/// Whether an entry is a Surface Dial interface.
pub open spec fn is_dial(e: DeviceEntry) -> bool {
    e.vendor_id == SURFACE_DIAL_VENDOR_ID && e.product_id == SURFACE_DIAL_PRODUCT_ID
}

/// The Surface Dial interfaces among `es`, in order.
pub open spec fn dial_entries(es: Seq<DeviceEntry>) -> Seq<DeviceEntry>
    decreases es.len(),
{
    if es.len() == 0 {
        seq![]
    } else {
        let r = dial_entries(es.drop_last());
        if is_dial(es.last()) {
            r.push(es.last())
        } else {
            r
        }
    }
}

/// The first product name that a Surface Dial interface among `es` gives.
pub open spec fn dial_product_name(es: Seq<DeviceEntry>) -> Option<String>
    decreases es.len(),
{
    if es.len() == 0 {
        None
    } else {
        let r = dial_product_name(es.drop_last());
        if r is Some {
            r
        } else if is_dial(es.last()) {
            es.last().product_name
        } else {
            None
        }
    }
}

/// Whether `i` describes the interface of entry `e`.
pub open spec fn describes(i: DeviceInterface, e: DeviceEntry) -> bool {
    i.path == e.path && i.interface_number == e.interface_number
}

/// What the report says of the dial, from the interfaces found: connected
/// when any Surface Dial interface is present, their number, the USB
/// identifiers in hexadecimal when connected, the first product name, and
/// the interfaces themselves when `detailed`.
pub fn device_status_from(entries: &Vec<DeviceEntry>, detailed: bool) -> (d: DeviceStatus)
    ensures
        d.device_count == dial_entries(entries@).len(),
        d.connected == (d.device_count > 0),
        d.connected ==> (d.vendor_id matches Some(v) && v@ == hex4_text(SURFACE_DIAL_VENDOR_ID)),
        d.connected ==> (d.product_id matches Some(p) && p@ == hex4_text(SURFACE_DIAL_PRODUCT_ID)),
        !d.connected ==> d.vendor_id is None && d.product_id is None,
        d.product_name == dial_product_name(entries@),
        detailed ==> d.interfaces@.len() == dial_entries(entries@).len() && forall|k: int|
            0 <= k < d.interfaces@.len() ==> describes(
                #[trigger] d.interfaces@[k],
                dial_entries(entries@)[k],
            ),
        !detailed ==> d.interfaces@.len() == 0,
{
    let mut interfaces: Vec<DeviceInterface> = Vec::new();
    let mut device_count: usize = 0;
    let mut product_name: Option<String> = None;
    let mut i: usize = 0;
    while i < entries.len()
        invariant
            i <= entries@.len(),
            device_count == dial_entries(entries@.take(i as int)).len(),
            product_name == dial_product_name(entries@.take(i as int)),
            detailed ==> interfaces@.len() == device_count && forall|k: int|
                0 <= k < interfaces@.len() ==> describes(
                    #[trigger] interfaces@[k],
                    dial_entries(entries@.take(i as int))[k],
                ),
            !detailed ==> interfaces@.len() == 0,
        decreases entries@.len() - i,
    {
        proof {
            assert(entries@.take(i + 1).drop_last() =~= entries@.take(i as int));
            assert(entries@.take(i + 1).last() == entries@[i as int]);
            assert(dial_entries(entries@.take(i as int)).len() <= i) by {
                lemma_dial_entries_len(entries@.take(i as int));
            }
        }
        let e = &entries[i];
        if e.vendor_id == SURFACE_DIAL_VENDOR_ID && e.product_id == SURFACE_DIAL_PRODUCT_ID {
            device_count = device_count + 1;
            if product_name.is_none() {
                product_name = match &e.product_name {
                    Some(n) => Some(n.clone()),
                    None => None,
                };
            }
            if detailed {
                interfaces.push(
                    DeviceInterface { path: e.path.clone(), interface_number: e.interface_number },
                );
            }
        }
        i = i + 1;
    }
    assert(entries@.take(entries@.len() as int) =~= entries@);
    let connected = device_count > 0;
    DeviceStatus {
        connected,
        device_count,
        vendor_id: if connected {
            Some(format_hex4(SURFACE_DIAL_VENDOR_ID))
        } else {
            None
        },
        product_id: if connected {
            Some(format_hex4(SURFACE_DIAL_PRODUCT_ID))
        } else {
            None
        },
        product_name,
        interfaces,
    }
}

proof fn lemma_dial_entries_len(es: Seq<DeviceEntry>)
    ensures
        dial_entries(es).len() <= es.len(),
    decreases es.len(),
{
    if es.len() > 0 {
        lemma_dial_entries_len(es.drop_last());
    }
}


/// Terminal color codes used by the report.
pub open spec fn cyan() -> Seq<char> {
    "\x1b[36m"@
}

pub open spec fn green() -> Seq<char> {
    "\x1b[32m"@
}

pub open spec fn red() -> Seq<char> {
    "\x1b[31m"@
}

pub open spec fn bold() -> Seq<char> {
    "\x1b[1m"@
}

pub open spec fn dim() -> Seq<char> {
    "\x1b[2m"@
}

pub open spec fn reset() -> Seq<char> {
    "\x1b[0m"@
}

/// The frame's left edge.
pub open spec fn bar() -> Seq<char> {
    cyan() + "│"@ + reset()
}

/// A section heading.
pub open spec fn heading(title: Seq<char>) -> Seq<char> {
    bar() + "  "@ + bold() + title + reset()
}

/// An item of a section.
pub open spec fn item(text: Seq<char>) -> Seq<char> {
    bar() + "    • "@ + text
}

/// The lines about the dial.
pub open spec fn device_lines(d: DeviceStatus) -> Seq<Seq<char>> {
    if d.connected {
        let count = nat_text(d.device_count as nat);
        let plural = if d.device_count != 1 { "s"@ } else { Seq::<char>::empty() };
        let first = bar() + "    "@ + green() + "✓"@ + reset() + " Surface Dial connected ("@
            + count + " interface"@ + plural + ")"@;
        let ids = match (d.vendor_id, d.product_id) {
            (Some(v), Some(p)) => seq![item("VID:PID "@ + v@ + ":"@ + p@)],
            _ => seq![],
        };
        let name = match d.product_name {
            Some(n) => seq![item("Product: "@ + n@)],
            None => seq![],
        };
        seq![first] + ids + name
    } else {
        seq![
            bar() + "    "@ + red() + "✗"@ + reset() + " Not connected"@,
            bar(),
            bar() + "    Make sure the dial is:"@,
            bar() + "      1. Paired via Bluetooth settings"@,
            bar() + "      2. Powered on (press and hold center button)"@,
            bar() + "      3. Within range of your computer"@,
        ]
    }
}

/// The mark of a muted volume.
pub open spec fn muted_mark(muted: Option<bool>) -> Seq<char> {
    if muted == Some(true) {
        " "@ + red() + "(muted)"@ + reset()
    } else {
        Seq::<char>::empty()
    }
}

/// The lines about the current state.
pub open spec fn state_lines(s: CurrentState) -> Seq<Seq<char>> {
    let vol = match s.volume_percent {
        Some(v) => seq![item("Volume: "@ + int_text(v as int) + "%"@ + muted_mark(s.muted))],
        None => seq![],
    };
    let mic = match s.mic_percent {
        Some(v) => seq![item("Mic: "@ + int_text(v as int) + "%"@ + muted_mark(s.mic_muted))],
        None => seq![],
    };
    seq![heading("Current State"@), item("Mode: "@ + s.mode@)] + vol + mic
}

/// The line of one feature: its state, its name in 14 columns, its detail.
pub open spec fn feature_line(name: Seq<char>, f: FeatureInfo) -> Seq<char> {
    let icon = if f.enabled {
        green() + "✓"@ + reset()
    } else {
        red() + "✗"@ + reset()
    };
    let detail = if !f.enabled {
        " "@ + dim() + "(disabled)"@ + reset()
    } else {
        match f.detail {
            Some(d) => " "@ + dim() + "("@ + d@ + ")"@ + reset(),
            None => Seq::<char>::empty(),
        }
    };
    bar() + "    "@ + icon + " "@ + pad_right(name, 14) + detail
}

/// The lines about the features.
pub open spec fn feature_lines(f: FeatureStatus) -> Seq<Seq<char>> {
    seq![
        heading("Features"@),
        feature_line("OSD"@, f.osd),
        feature_line("Battery Monitor"@, f.battery_monitor),
        feature_line("System Tray"@, f.system_tray),
        feature_line("Media Control"@, f.media_control),
        feature_line("Audio Feedback"@, f.audio_feedback),
        feature_line("Event Hooks"@, f.event_hooks),
        feature_line("Device Switch"@, f.device_switching),
    ]
}

/// The lines about the sensitivity settings.
pub open spec fn sensitivity_lines(s: SensitivityStatus) -> Seq<Seq<char>> {
    seq![
        heading("Sensitivity"@),
        item("Dead zone: "@ + int_text(s.dead_zone as int)),
        item("Multiplier: "@ + s.multiplier@ + "x"@),
        item("Invert: "@ + if s.invert { "Yes"@ } else { "No"@ }),
        item("Preset: "@ + s.preset@),
    ]
}

/// The line of one audio device.
pub open spec fn audio_line(d: AudioDeviceInfo) -> Seq<char> {
    item(d.device_type@ + ": "@ + d.name@ + if d.is_default {
        " "@ + green() + "(default)"@ + reset()
    } else {
        Seq::<char>::empty()
    })
}

/// The line of one device interface.
pub open spec fn interface_line(i: DeviceInterface) -> Seq<char> {
    item("Interface "@ + int_text(i.interface_number as int) + ": "@ + i.path@)
}

/// The audio device lines, shown when detailed and there are devices.
pub open spec fn audio_lines(s: FullStatus, detailed: bool) -> Seq<Seq<char>> {
    if detailed && s.audio_devices@.len() > 0 {
        seq![bar(), heading("Audio Devices"@)] + s.audio_devices@.map_values(
            |d: AudioDeviceInfo| audio_line(d),
        )
    } else {
        seq![]
    }
}

/// The interface lines, shown when detailed and there are interfaces.
pub open spec fn interface_lines(s: FullStatus, detailed: bool) -> Seq<Seq<char>> {
    if detailed && s.device.interfaces@.len() > 0 {
        seq![bar(), heading("Device Interfaces"@)] + s.device.interfaces@.map_values(
            |i: DeviceInterface| interface_line(i),
        )
    } else {
        seq![]
    }
}

/// The framed text report of a status, line by line.
pub open spec fn status_report(s: FullStatus, detailed: bool) -> Seq<Seq<char>> {
    seq![cyan() + "╭─ Surface Dial Status ────────────────────────────────────────╮"@ + reset(), bar(), heading("Device"@)] + device_lines(s.device) + seq![
        bar(),
    ] + state_lines(s.state) + seq![bar()] + feature_lines(s.features) + seq![bar()]
        + sensitivity_lines(s.sensitivity) + audio_lines(s, detailed) + interface_lines(
        s,
        detailed,
    ) + seq![bar(), cyan() + "╰──────────────────────────────────────────────────────────────╯"@ + reset()]
}

/// The text of each line.
pub open spec fn line_texts(v: Seq<String>) -> Seq<Seq<char>> {
    v.map_values(|l: String| l@)
}

fn push_line(lines: &mut Vec<String>, l: String)
    ensures
        line_texts(final(lines)@) == line_texts(old(lines)@).push(l@),
{
    lines.push(l);
    assert(line_texts(lines@) =~= line_texts(old(lines)@).push(l@));
}

fn bar_exec() -> (s: String)
    ensures
        s@ == bar(),
{
    cat(cat("\x1b[36m".to_owned(), "│"), "\x1b[0m")
}

fn heading_exec(title: &str) -> (s: String)
    ensures
        s@ == heading(title@),
{
    cat(cat(cat(cat(bar_exec(), "  "), "\x1b[1m"), title), "\x1b[0m")
}

fn item_exec(text: &str) -> (s: String)
    ensures
        s@ == item(text@),
{
    cat(cat(bar_exec(), "    • "), text)
}

fn device_section(lines: &mut Vec<String>, d: &DeviceStatus)
    ensures
        line_texts(final(lines)@) == line_texts(old(lines)@) + device_lines(*d),
{
    let ghost start = line_texts(lines@);
    if d.connected {
        let count = format_u64(d.device_count as u64);
        let plural = if d.device_count != 1 { "s".to_owned() } else { String::new() };
        let mut first = cat(cat(cat(cat(bar_exec(), "    "), "\x1b[32m"), "✓"), "\x1b[0m");
        first = cat(cat(cat(cat(first, " Surface Dial connected ("), count.as_str()), " interface"), plural.as_str());
        first = cat(first, ")");
        push_line(lines, first);
        let ghost after_first = line_texts(lines@);
        match (&d.vendor_id, &d.product_id) {
            (Some(v), Some(p)) => {
                let t = cat(cat(cat("VID:PID ".to_owned(), v.as_str()), ":"), p.as_str());
                push_line(lines, item_exec(t.as_str()));
            },
            _ => {},
        }
        let ghost after_ids = line_texts(lines@);
        match &d.product_name {
            Some(n) => {
                let t = cat("Product: ".to_owned(), n.as_str());
                push_line(lines, item_exec(t.as_str()));
            },
            None => {},
        }
        proof {
            let dl = device_lines(*d);
            assert(line_texts(lines@) =~= start + dl);
        }
    } else {
        push_line(lines, cat(cat(cat(cat(cat(bar_exec(), "    "), "\x1b[31m"), "✗"), "\x1b[0m"), " Not connected"));
        push_line(lines, bar_exec());
        push_line(lines, cat(bar_exec(), "    Make sure the dial is:"));
        push_line(lines, cat(bar_exec(), "      1. Paired via Bluetooth settings"));
        push_line(lines, cat(bar_exec(), "      2. Powered on (press and hold center button)"));
        push_line(lines, cat(bar_exec(), "      3. Within range of your computer"));
        assert(line_texts(lines@) =~= start + device_lines(*d));
    }
}

fn muted_mark_exec(muted: Option<bool>) -> (s: String)
    ensures
        s@ == muted_mark(muted),
{
    if muted == Some(true) {
        cat(cat(cat(" ".to_owned(), "\x1b[31m"), "(muted)"), "\x1b[0m")
    } else {
        String::new()
    }
}

fn state_section(lines: &mut Vec<String>, s: &CurrentState)
    ensures
        line_texts(final(lines)@) == line_texts(old(lines)@) + state_lines(*s),
{
    let ghost start = line_texts(lines@);
    push_line(lines, heading_exec("Current State"));
    push_line(lines, item_exec(cat("Mode: ".to_owned(), s.mode.as_str()).as_str()));
    if let Some(v) = s.volume_percent {
        let t = cat(cat(cat("Volume: ".to_owned(), format_i32(v).as_str()), "%"), muted_mark_exec(s.muted).as_str());
        push_line(lines, item_exec(t.as_str()));
    }
    if let Some(v) = s.mic_percent {
        let t = cat(cat(cat("Mic: ".to_owned(), format_i32(v).as_str()), "%"), muted_mark_exec(s.mic_muted).as_str());
        push_line(lines, item_exec(t.as_str()));
    }
    assert(line_texts(lines@) =~= start + state_lines(*s));
}

fn feature_line_exec(name: &str, f: &FeatureInfo) -> (s: String)
    ensures
        s@ == feature_line(name@, *f),
{
    let icon = if f.enabled {
        cat(cat("\x1b[32m".to_owned(), "✓"), "\x1b[0m")
    } else {
        cat(cat("\x1b[31m".to_owned(), "✗"), "\x1b[0m")
    };
    let detail = if !f.enabled {
        cat(cat(cat(" ".to_owned(), "\x1b[2m"), "(disabled)"), "\x1b[0m")
    } else {
        match &f.detail {
            Some(d) => cat(cat(cat(cat(cat(" ".to_owned(), "\x1b[2m"), "("), d.as_str()), ")"), "\x1b[0m"),
            None => String::new(),
        }
    };
    let s = cat(cat(cat(cat(cat(bar_exec(), "    "), icon.as_str()), " "), pad_right_exec(name, 14).as_str()), detail.as_str());
    s
}

fn feature_section(lines: &mut Vec<String>, f: &FeatureStatus)
    ensures
        line_texts(final(lines)@) == line_texts(old(lines)@) + feature_lines(*f),
{
    let ghost start = line_texts(lines@);
    push_line(lines, heading_exec("Features"));
    push_line(lines, feature_line_exec("OSD", &f.osd));
    push_line(lines, feature_line_exec("Battery Monitor", &f.battery_monitor));
    push_line(lines, feature_line_exec("System Tray", &f.system_tray));
    push_line(lines, feature_line_exec("Media Control", &f.media_control));
    push_line(lines, feature_line_exec("Audio Feedback", &f.audio_feedback));
    push_line(lines, feature_line_exec("Event Hooks", &f.event_hooks));
    push_line(lines, feature_line_exec("Device Switch", &f.device_switching));
    assert(line_texts(lines@) =~= start + feature_lines(*f));
}

fn sensitivity_section(lines: &mut Vec<String>, s: &SensitivityStatus)
    ensures
        line_texts(final(lines)@) == line_texts(old(lines)@) + sensitivity_lines(*s),
{
    let ghost start = line_texts(lines@);
    push_line(lines, heading_exec("Sensitivity"));
    push_line(lines, item_exec(cat("Dead zone: ".to_owned(), format_i32(s.dead_zone).as_str()).as_str()));
    push_line(lines, item_exec(cat(cat("Multiplier: ".to_owned(), s.multiplier.as_str()), "x").as_str()));
    push_line(lines, item_exec(cat("Invert: ".to_owned(), if s.invert { "Yes" } else { "No" }).as_str()));
    push_line(lines, item_exec(cat("Preset: ".to_owned(), s.preset.as_str()).as_str()));
    assert(line_texts(lines@) =~= start + sensitivity_lines(*s));
}

fn audio_section(lines: &mut Vec<String>, s: &FullStatus, detailed: bool)
    ensures
        line_texts(final(lines)@) == line_texts(old(lines)@) + audio_lines(*s, detailed),
{
    let ghost start = line_texts(lines@);
    if detailed && s.audio_devices.len() > 0 {
        push_line(lines, bar_exec());
        push_line(lines, heading_exec("Audio Devices"));
        let ghost head = line_texts(lines@);
        let mut i: usize = 0;
        while i < s.audio_devices.len()
            invariant
                i <= s.audio_devices@.len(),
                line_texts(lines@) == head + s.audio_devices@.take(i as int).map_values(
                    |d: AudioDeviceInfo| audio_line(d),
                ),
            decreases s.audio_devices@.len() - i,
        {
            let d = &s.audio_devices[i];
            let marker = if d.is_default {
                cat(cat(cat(" ".to_owned(), "\x1b[32m"), "(default)"), "\x1b[0m")
            } else {
                String::new()
            };
            let t = cat(cat(cat(d.device_type.clone(), ": "), d.name.as_str()), marker.as_str());
            push_line(lines, item_exec(t.as_str()));
            assert(s.audio_devices@.take(i + 1).map_values(|d: AudioDeviceInfo| audio_line(d))
                =~= s.audio_devices@.take(i as int).map_values(|d: AudioDeviceInfo| audio_line(d)).push(
                audio_line(s.audio_devices@[i as int]),
            ));
            i = i + 1;
        }
        assert(s.audio_devices@.take(i as int) =~= s.audio_devices@);
        assert(line_texts(lines@) =~= start + audio_lines(*s, detailed));
    } else {
        assert(line_texts(lines@) =~= start + audio_lines(*s, detailed));
    }
}

fn interface_section(lines: &mut Vec<String>, s: &FullStatus, detailed: bool)
    ensures
        line_texts(final(lines)@) == line_texts(old(lines)@) + interface_lines(*s, detailed),
{
    let ghost start = line_texts(lines@);
    if detailed && s.device.interfaces.len() > 0 {
        push_line(lines, bar_exec());
        push_line(lines, heading_exec("Device Interfaces"));
        let ghost head = line_texts(lines@);
        let mut i: usize = 0;
        while i < s.device.interfaces.len()
            invariant
                i <= s.device.interfaces@.len(),
                line_texts(lines@) == head + s.device.interfaces@.take(i as int).map_values(
                    |x: DeviceInterface| interface_line(x),
                ),
            decreases s.device.interfaces@.len() - i,
        {
            let x = &s.device.interfaces[i];
            let t = cat(cat(cat("Interface ".to_owned(), format_i32(x.interface_number).as_str()), ": "), x.path.as_str());
            push_line(lines, item_exec(t.as_str()));
            assert(s.device.interfaces@.take(i + 1).map_values(|x: DeviceInterface| interface_line(x))
                =~= s.device.interfaces@.take(i as int).map_values(|x: DeviceInterface| interface_line(x)).push(
                interface_line(s.device.interfaces@[i as int]),
            ));
            i = i + 1;
        }
        assert(s.device.interfaces@.take(i as int) =~= s.device.interfaces@);
        assert(line_texts(lines@) =~= start + interface_lines(*s, detailed));
    } else {
        assert(line_texts(lines@) =~= start + interface_lines(*s, detailed));
    }
}

/// The framed text report of a status, one string per line, as the status
/// command prints it.
pub fn status_report_lines(s: &FullStatus, detailed: bool) -> (lines: Vec<String>)
    ensures
        line_texts(lines@) == status_report(*s, detailed),
{
    let mut lines: Vec<String> = Vec::new();
    push_line(&mut lines, cat(cat("\x1b[36m".to_owned(), "╭─ Surface Dial Status ────────────────────────────────────────╮"), "\x1b[0m"));
    push_line(&mut lines, bar_exec());
    push_line(&mut lines, heading_exec("Device"));
    device_section(&mut lines, &s.device);
    push_line(&mut lines, bar_exec());
    state_section(&mut lines, &s.state);
    push_line(&mut lines, bar_exec());
    feature_section(&mut lines, &s.features);
    push_line(&mut lines, bar_exec());
    sensitivity_section(&mut lines, &s.sensitivity);
    audio_section(&mut lines, s, detailed);
    interface_section(&mut lines, s, detailed);
    push_line(&mut lines, bar_exec());
    push_line(&mut lines, cat(cat("\x1b[36m".to_owned(), "╰──────────────────────────────────────────────────────────────╯"), "\x1b[0m"));
    assert(line_texts(lines@) =~= status_report(*s, detailed));
    lines
}

/// The exit code of the `status` command when it reports: success when the
/// dial is connected, "device not found" otherwise.
pub fn status_exit_code(connected: bool) -> (code: i32)
    ensures
        code == if connected {
            SUCCESS
        } else {
            DEVICE_NOT_FOUND
        },
{
    if connected {
        SUCCESS
    } else {
        DEVICE_NOT_FOUND
    }
}

/// The exit code of `status --check`: success when the daemon is running,
/// 1 (`ERROR`) when it is not.
pub fn status_check_exit_code(daemon_running: bool) -> (code: i32)
    ensures
        code == if daemon_running {
            SUCCESS
        } else {
            ERROR
        },
        code == 0 || code == 1,
{
    if daemon_running {
        SUCCESS
    } else {
        ERROR
    }
}

/// The status report shows the volume and the microphone level each on a
/// line of its own, marked with a red `(muted)` exactly when that one is
/// muted: for every status and layout, the report holds the line
/// `│    • Volume: V%` (and `│    • Mic: M%`) followed by ` (muted)` in red
/// when the volume (the microphone) is known to be muted, and by nothing
/// otherwise.
pub proof fn lemma_report_marks_muted(s: FullStatus, detailed: bool)
    ensures
        s.state.volume_percent matches Some(v) ==> status_report(s, detailed).contains(
            "\x1b[36m│\x1b[0m    • Volume: "@ + int_text(v as int) + "%"@ + if s.state.muted == Some(
                true,
            ) {
                " \x1b[31m(muted)\x1b[0m"@
            } else {
                ""@
            },
        ),
        s.state.mic_percent matches Some(v) ==> status_report(s, detailed).contains(
            "\x1b[36m│\x1b[0m    • Mic: "@ + int_text(v as int) + "%"@ + if s.state.mic_muted == Some(
                true,
            ) {
                " \x1b[31m(muted)\x1b[0m"@
            } else {
                ""@
            },
        ),
{
    reveal_strlit("\x1b[36m│\x1b[0m    • Volume: ");
    reveal_strlit("\x1b[36m│\x1b[0m    • Mic: ");
    reveal_strlit(" \x1b[31m(muted)\x1b[0m");
    reveal_strlit("");
    reveal_strlit("\x1b[36m");
    reveal_strlit("│");
    reveal_strlit("\x1b[0m");
    reveal_strlit("    • ");
    reveal_strlit("Volume: ");
    reveal_strlit("Mic: ");
    reveal_strlit(" ");
    reveal_strlit("\x1b[31m");
    reveal_strlit("(muted)");
    reveal_strlit("%");
    let st = s.state;
    let head = seq![cyan() + "╭─ Surface Dial Status ────────────────────────────────────────╮"@ + reset(), bar(), heading("Device"@)] + device_lines(s.device) + seq![bar()];
    let vol = match st.volume_percent {
        Some(v) => seq![item("Volume: "@ + int_text(v as int) + "%"@ + muted_mark(st.muted))],
        None => seq![],
    };
    let mic = match st.mic_percent {
        Some(v) => seq![item("Mic: "@ + int_text(v as int) + "%"@ + muted_mark(st.mic_muted))],
        None => seq![],
    };
    let front = seq![heading("Current State"@), item("Mode: "@ + st.mode@)];
    assert(state_lines(st) == front + vol + mic);
    let tail = seq![bar()] + feature_lines(s.features) + seq![bar()] + sensitivity_lines(s.sensitivity)
        + audio_lines(s, detailed) + interface_lines(s, detailed) + seq![bar(), cyan() + "╰──────────────────────────────────────────────────────────────╯"@ + reset()];
    let r = status_report(s, detailed);
    assert(r =~= head + (front + vol + mic) + tail);
    if let Some(v) = st.volume_percent {
        let line = "\x1b[36m│\x1b[0m    • Volume: "@ + int_text(v as int) + "%"@ + if st.muted == Some(true) {
            " \x1b[31m(muted)\x1b[0m"@
        } else {
            ""@
        };
        assert(vol[0] =~= line);
        let idx: int = head.len() as int + 2;
        assert(r[idx] == vol[0]);
    }
    if let Some(v) = st.mic_percent {
        let line = "\x1b[36m│\x1b[0m    • Mic: "@ + int_text(v as int) + "%"@ + if st.mic_muted == Some(true) {
            " \x1b[31m(muted)\x1b[0m"@
        } else {
            ""@
        };
        assert(mic[0] =~= line);
        let idx: int = head.len() as int + 2 + vol.len() as int;
        assert(r[idx] == mic[0]);
    }
}

} // verus!
