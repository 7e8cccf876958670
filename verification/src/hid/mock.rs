//! A simulated Surface Dial that replays queued events, for testing without
//! hardware.

use super::{report_bytes, DialReport, HidDevice, HidError, DIAL_REPORT_ID};
use std::collections::VecDeque;
use std::time::Duration;
use vstd::prelude::*;

verus! {

/// Events that can be queued on a mock HID device.
#[derive(Debug, Clone)]
pub enum MockHidEvent {
    /// Rotation event (negative = counter-clockwise, positive = clockwise)
    Rotation(i8),
    /// Button state change
    Button(bool),
    /// Raw HID report data
    RawReport(Vec<u8>),
}

/// The bytes the device hands out for a queued event.
pub open spec fn event_bytes(e: MockHidEvent) -> Seq<u8> {
    match e {
        MockHidEvent::Rotation(d) => report_bytes(
            DialReport { report_id: DIAL_REPORT_ID, button_pressed: false, rotation: d },
        ),
        MockHidEvent::Button(p) => report_bytes(
            DialReport { report_id: DIAL_REPORT_ID, button_pressed: p, rotation: 0 },
        ),
        MockHidEvent::RawReport(data) => data@,
    }
}

/// The battery report of the simulated dial: report id 5, the level, and
/// "not charging".
pub open spec fn battery_report(level: u8) -> Seq<u8> {
    seq![0x05u8, level, 0x00u8]
}

/// A simulated Surface Dial.
#[derive(Debug)]
pub struct MockHidDevice {
    /// Queue of events to return
    events: VecDeque<MockHidEvent>,
    /// Simulated battery level (0-100)
    battery_level: u8,
    /// Whether the device is "connected"
    connected: bool,
    /// Blocking mode
    blocking: bool,
}

impl MockHidDevice {
    /// The queued events, oldest first.
    pub closed spec fn queue(&self) -> Seq<MockHidEvent> {
        self.events@
    }

    /// The simulated battery level.
    pub closed spec fn battery(&self) -> u8 {
        self.battery_level
    }

    /// Whether the simulated device is connected.
    pub closed spec fn connected(&self) -> bool {
        self.connected
    }

    /// Whether the simulated device is in blocking mode.
    pub closed spec fn blocking(&self) -> bool {
        self.blocking
    }

    /// A connected device with no queued events and a 75% battery.
    pub fn new() -> (d: Self)
        ensures
            d.queue() == Seq::<MockHidEvent>::empty(),
            d.battery() == 75,
            d.connected(),
            !d.blocking(),
    {
        Self { events: VecDeque::new(), battery_level: 75, connected: true, blocking: false }
    }

    /// Queues a rotation event (positive = clockwise).
    pub fn queue_rotation(&mut self, direction: i8)
        ensures
            final(self).queue() == old(self).queue().push(MockHidEvent::Rotation(direction)),
            final(self).battery() == old(self).battery(),
            final(self).connected() == old(self).connected(),
            final(self).blocking() == old(self).blocking(),
    {
        self.events.push_back(MockHidEvent::Rotation(direction));
    }

    /// Queues one rotation event per entry of `directions`, in order.
    pub fn queue_rotations(&mut self, directions: &[i8])
        ensures
            final(self).queue() == old(self).queue() + directions@.map_values(
                |d: i8| MockHidEvent::Rotation(d),
            ),
            final(self).battery() == old(self).battery(),
            final(self).connected() == old(self).connected(),
            final(self).blocking() == old(self).blocking(),
    {
        let ghost start = self.events@;
        let mut i: usize = 0;
        while i < directions.len()
            invariant
                i <= directions@.len(),
                self.events@ == start + directions@.take(i as int).map_values(
                    |d: i8| MockHidEvent::Rotation(d),
                ),
                self.battery_level == old(self).battery_level,
                self.connected == old(self).connected,
                self.blocking == old(self).blocking,
            decreases directions.len() - i,
        {
            self.events.push_back(MockHidEvent::Rotation(directions[i]));
            proof {
                assert(directions@.take(i + 1).map_values(|d: i8| MockHidEvent::Rotation(d))
                    =~= directions@.take(i as int).map_values(|d: i8| MockHidEvent::Rotation(d)).push(
                    MockHidEvent::Rotation(directions@[i as int]),
                ));
            }
            i = i + 1;
        }
        assert(directions@.take(directions@.len() as int) =~= directions@);
    }

    /// Queues a button press (`true`) or release (`false`).
    pub fn queue_button(&mut self, pressed: bool)
        ensures
            final(self).queue() == old(self).queue().push(MockHidEvent::Button(pressed)),
            final(self).battery() == old(self).battery(),
            final(self).connected() == old(self).connected(),
            final(self).blocking() == old(self).blocking(),
    {
        self.events.push_back(MockHidEvent::Button(pressed));
    }

    /// Queues a complete click: a press followed by a release.
    pub fn queue_click(&mut self)
        ensures
            final(self).queue() == old(self).queue().push(MockHidEvent::Button(true)).push(
                MockHidEvent::Button(false),
            ),
            final(self).battery() == old(self).battery(),
            final(self).connected() == old(self).connected(),
            final(self).blocking() == old(self).blocking(),
    {
        self.queue_button(true);
        self.queue_button(false);
    }

    /// Queues two clicks.
    pub fn queue_double_click(&mut self)
        ensures
            final(self).queue() == old(self).queue() + click_events(2),
            final(self).battery() == old(self).battery(),
            final(self).connected() == old(self).connected(),
            final(self).blocking() == old(self).blocking(),
    {
        self.queue_click();
        self.queue_click();
        reveal_with_fuel(click_events, 3);
        assert(old(self).queue() + click_events(2) =~= old(self).queue().push(
            MockHidEvent::Button(true),
        ).push(MockHidEvent::Button(false)).push(MockHidEvent::Button(true)).push(
            MockHidEvent::Button(false),
        ));
    }

    /// Queues three clicks.
    pub fn queue_triple_click(&mut self)
        ensures
            final(self).queue() == old(self).queue() + click_events(3),
            final(self).battery() == old(self).battery(),
            final(self).connected() == old(self).connected(),
            final(self).blocking() == old(self).blocking(),
    {
        self.queue_click();
        self.queue_click();
        self.queue_click();
        reveal_with_fuel(click_events, 4);
        assert(old(self).queue() + click_events(3) =~= old(self).queue().push(
            MockHidEvent::Button(true),
        ).push(MockHidEvent::Button(false)).push(MockHidEvent::Button(true)).push(
            MockHidEvent::Button(false),
        ).push(MockHidEvent::Button(true)).push(MockHidEvent::Button(false)));
    }

    /// Queues the start of a long press (a press with no release).
    pub fn queue_long_press_start(&mut self)
        ensures
            final(self).queue() == old(self).queue().push(MockHidEvent::Button(true)),
            final(self).battery() == old(self).battery(),
            final(self).connected() == old(self).connected(),
            final(self).blocking() == old(self).blocking(),
    {
        self.queue_button(true);
    }

    /// Queues the end of a long press (a release).
    pub fn queue_long_press_end(&mut self)
        ensures
            final(self).queue() == old(self).queue().push(MockHidEvent::Button(false)),
            final(self).battery() == old(self).battery(),
            final(self).connected() == old(self).connected(),
            final(self).blocking() == old(self).blocking(),
    {
        self.queue_button(false);
    }

    /// Queues a raw HID report, handed out as is.
    pub fn queue_raw_report(&mut self, data: Vec<u8>)
        ensures
            final(self).queue() == old(self).queue().push(MockHidEvent::RawReport(data)),
            final(self).battery() == old(self).battery(),
            final(self).connected() == old(self).connected(),
            final(self).blocking() == old(self).blocking(),
    {
        self.events.push_back(MockHidEvent::RawReport(data));
    }

    /// Sets the simulated battery level, capped at 100.
    pub fn set_battery(&mut self, level: u8)
        ensures
            final(self).battery() == if level > 100 { 100 } else { level },
            final(self).queue() == old(self).queue(),
            final(self).connected() == old(self).connected(),
            final(self).blocking() == old(self).blocking(),
    {
        self.battery_level = if level > 100 { 100 } else { level };
    }

    /// The simulated battery level.
    pub fn get_battery(&self) -> (b: u8)
        ensures
            b == self.battery(),
    {
        self.battery_level
    }

    /// Simulates a disconnection; queued events are kept.
    pub fn disconnect(&mut self)
        ensures
            !final(self).connected(),
            final(self).queue() == old(self).queue(),
            final(self).battery() == old(self).battery(),
            final(self).blocking() == old(self).blocking(),
    {
        self.connected = false;
    }

    /// Simulates a reconnection.
    pub fn reconnect(&mut self)
        ensures
            final(self).connected(),
            final(self).queue() == old(self).queue(),
            final(self).battery() == old(self).battery(),
            final(self).blocking() == old(self).blocking(),
    {
        self.connected = true;
    }

    /// Whether the device is connected.
    pub fn is_connected(&self) -> (c: bool)
        ensures
            c == self.connected(),
    {
        self.connected
    }

    /// The number of queued events.
    pub fn pending_events(&self) -> (n: usize)
        ensures
            n == self.queue().len(),
    {
        self.events.len()
    }

    /// Drops all queued events.
    pub fn clear_events(&mut self)
        ensures
            final(self).queue() == Seq::<MockHidEvent>::empty(),
            final(self).battery() == old(self).battery(),
            final(self).connected() == old(self).connected(),
            final(self).blocking() == old(self).blocking(),
    {
        self.events.clear();
    }
}

/// Queued events are read back in the order they were queued.  Each read
/// hands out the first event and drops it, so after `k` reads the queue is
/// its `k`-suffix: a rotation queued behind `q` is read after the events of
/// `q` (the `k`th read handing out `q[k]`), as the three bytes of a standard
/// report with the button up and that rotation.
pub proof fn lemma_queue_rotation_read_in_order(q: Seq<MockHidEvent>, direction: i8)
    ensures
        ({
            let full = q.push(MockHidEvent::Rotation(direction));
            &&& forall|k: int| 0 <= k < q.len() ==> (#[trigger] full.skip(k))[0] == q[k]
            &&& forall|k: int| 0 <= k < q.len() ==> (#[trigger] full.skip(k)).drop_first() == full.skip(k + 1)
            &&& full.skip(q.len() as int) == seq![MockHidEvent::Rotation(direction)]
        }),
        event_bytes(MockHidEvent::Rotation(direction)) == report_bytes(
            DialReport { report_id: DIAL_REPORT_ID, button_pressed: false, rotation: direction },
        ),
        event_bytes(MockHidEvent::Rotation(direction)).len() == 3,
{
    let full = q.push(MockHidEvent::Rotation(direction));
    assert forall|k: int| 0 <= k < q.len() implies (#[trigger] full.skip(k)).drop_first() == full.skip(k + 1) by {
        assert(full.skip(k).drop_first() =~= full.skip(k + 1));
    }
    assert(full.skip(q.len() as int) =~= seq![MockHidEvent::Rotation(direction)]);
}

/// The events of `n` clicks: press, release, repeated.
pub open spec fn click_events(n: nat) -> Seq<MockHidEvent>
    decreases n,
{
    if n == 0 {
        Seq::empty()
    } else {
        click_events((n - 1) as nat).push(MockHidEvent::Button(true)).push(
            MockHidEvent::Button(false),
        )
    }
}

/// Copies `src[..n]` into `buf[..n]`, leaving the rest of `buf` as it was.
fn copy_prefix(buf: &mut [u8], src: &[u8], n: usize)
    requires
        n <= src@.len(),
        n <= old(buf)@.len(),
    ensures
        final(buf)@ == src@.take(n as int) + old(buf)@.skip(n as int),
{
    let mut i: usize = 0;
    while i < n
        invariant
            n <= src@.len(),
            n <= buf@.len(),
            i <= n,
            buf@.len() == old(buf)@.len(),
            buf@ == src@.take(i as int) + old(buf)@.skip(i as int),
        decreases n - i,
    {
        buf[i] = src[i];
        proof {
            assert(buf@ =~= src@.take(i + 1) + old(buf)@.skip(i + 1));
        }
        i = i + 1;
    }
}

impl HidDevice for MockHidDevice {
    /// Hands out the oldest queued event as report bytes, at most
    /// `buf.len()` of them; `Disconnected` when disconnected, `Timeout` when
    /// the queue is empty.
    fn read_timeout(&mut self, buf: &mut [u8], timeout: Duration) -> (r: Result<usize, HidError>)
        ensures
            final(self).battery() == old(self).battery(),
            final(self).connected() == old(self).connected(),
            final(self).blocking() == old(self).blocking(),
            !old(self).connected() ==> r is Err && r->Err_0 is Disconnected && final(self).queue()
                == old(self).queue() && final(buf)@ == old(buf)@,
            old(self).connected() && old(self).queue().len() == 0 ==> r is Err && r->Err_0 is Timeout
                && final(self).queue() == old(self).queue() && final(buf)@ == old(buf)@,
            old(self).connected() && old(self).queue().len() > 0 ==> {
                let bytes = event_bytes(old(self).queue()[0]);
                let n = if bytes.len() < old(buf)@.len() { bytes.len() } else { old(buf)@.len() };
                &&& r == Ok::<usize, HidError>(n as usize)
                &&& final(self).queue() == old(self).queue().drop_first()
                &&& final(buf)@ == bytes.take(n as int) + old(buf)@.skip(n as int)
            },
    {
        if !self.connected {
            return Err(HidError::Disconnected);
        }
        match self.events.pop_front() {
            Some(event) => {
                match event {
                    MockHidEvent::RawReport(data) => {
                        let len = if data.len() < buf.len() { data.len() } else { buf.len() };
                        copy_prefix(buf, data.as_slice(), len);
                        Ok(len)
                    },
                    MockHidEvent::Rotation(dir) => {
                        let bytes = DialReport::new(false, dir).to_bytes();
                        let len = if 3 < buf.len() { 3 } else { buf.len() };
                        copy_prefix(buf, &bytes, len);
                        Ok(len)
                    },
                    MockHidEvent::Button(pressed) => {
                        let bytes = DialReport::new(pressed, 0).to_bytes();
                        let len = if 3 < buf.len() { 3 } else { buf.len() };
                        copy_prefix(buf, &bytes, len);
                        Ok(len)
                    },
                }
            },
            None => Err(HidError::Timeout),
        }
    }

    /// Accepts nothing: `Ok(0)` when connected, `Disconnected` otherwise.
    fn write(&mut self, data: &[u8]) -> (r: Result<usize, HidError>)
        ensures
            *final(self) == *old(self),
            old(self).connected() ==> r == Ok::<usize, HidError>(0),
            !old(self).connected() ==> r is Err && r->Err_0 is Disconnected,
    {
        if !self.connected {
            return Err(HidError::Disconnected);
        }
        Ok(0)
    }

    /// Writes the battery report (id 5, level, not charging) into the first
    /// three bytes of `buf`; a buffer shorter than that is refused with an
    /// I/O error and left as it was.
    fn get_feature_report(&mut self, buf: &mut [u8]) -> (r: Result<usize, HidError>)
        ensures
            *final(self) == *old(self),
            old(self).connected() && old(buf)@.len() >= 3 ==> r == Ok::<usize, HidError>(3)
                && final(buf)@ == battery_report(old(self).battery()) + old(buf)@.skip(3),
            old(self).connected() && old(buf)@.len() < 3 ==> r is Err && r->Err_0 is Io
                && r->Err_0->Io_0@ == "feature report buffer too small"@ && final(buf)@ == old(
                buf,
            )@,
            !old(self).connected() ==> r is Err && r->Err_0 is Disconnected && final(buf)@ == old(
                buf,
            )@,
    {
        if !self.connected {
            return Err(HidError::Disconnected);
        }
        if buf.len() < 3 {
            proof {
                reveal_strlit("feature report buffer too small");
            }
            return Err(HidError::Io("feature report buffer too small".to_string()));
        }
        buf[0] = 0x05;
        buf[1] = self.battery_level;
        buf[2] = 0x00;
        assert(buf@ =~= battery_report(self.battery_level) + old(buf)@.skip(3));
        Ok(3)
    }

    /// Records the blocking mode.
    fn set_blocking_mode(&mut self, blocking: bool) -> (r: Result<(), HidError>)
        ensures
            r is Ok,
            final(self).blocking() == blocking,
            final(self).queue() == old(self).queue(),
            final(self).battery() == old(self).battery(),
            final(self).connected() == old(self).connected(),
    {
        self.blocking = blocking;
        Ok(())
    }
}

} // verus!
