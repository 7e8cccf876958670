# Surface Dial volume controller

A daemon that turns the Microsoft Surface Dial into a volume knob: rotate to
change the volume (faster rotation, larger steps), click to mute, double-click
for microphone control, triple-click for play/pause, hold for F15.

The decisions of the program form a library whose behaviour is stated in
`requires`/`ensures` contracts and proved with Verus:

- `config` — the 52 settings: reading and writing them by dotted key, their
  rules, defaults, validation and section resets.
- `input` — click detection (single, double, triple, long press), the rotation
  dead zone and the speed-dependent volume step.
- `daemon` — the control state and what each dial event does: the next state
  and the platform action (set a volume, toggle a mute, send a key).
- `hid` — the dial's input report, and a mock device.
- `platform` — the interface to the operating system, a mock platform that
  records every call, and the parsing of `pactl` output.
- `cli` — command-line types, the status report, the JSON text form, and the
  reports of the `config` subcommands.
- `logging`, `pidfile`, `text`, `clock` — log levels and lines, log rotation,
  PID file contents, decimal and hexadecimal text, monotonic time.

`app/` holds the program around the library: argument parsing with clap, the
configuration file (TOML), the HID loop, the system commands of each
platform, logging output and the PID file.  Floating-point settings (curve
steepness, sensitivity multiplier, OSD opacity, feedback volume) are kept as
decimal text in the library; the program reads, checks and stores them.

`tests/` exercises the library on concrete values.

## Behaviour worth knowing

- **Volume step.** Between the fast and the slow rotation thresholds the step
  is interpolated linearly from the largest step down to the smallest, in
  exact integer arithmetic and truncated toward the smallest step.  A
  floating-point product such as `(1.0 - 72.0 / 90.0) * 5.0` comes out as
  `0.999…` and would truncate one step lower; the exact quotient gives the
  step the formula means (here 1, so a step of `min + 1`).  The library holds
  no floating point, which is what lets the step be proved to stay between
  the two bounds and never to grow as rotation slows.
- **Clicks.** The second click of a sequence is reported at once as a double
  click, and the sequence stays open: a third click within the triple-click
  window is reported as a triple click.  A triple click therefore also passes
  through microphone mode on its second click.
- **Feature reports.** The mock device refuses a buffer shorter than a
  battery report (three bytes) with an I/O error instead of writing past it.
- **Status check.** `status --check` exits 0 when the daemon is running (its
  PID file names a live process) and 1 when it is not; without `--check`,
  `status` exits 0 when the dial is connected and 3 when it is not.
- **Microphone mute without a mute switch.** Where muting sets the input
  volume to 0, the volume before muting is remembered and restored on
  unmute (50 when none was remembered).
