# corsair-void

A controller for Corsair Void wireless headsets on Windows and Linux: a system tray program and a
command line, with the decisions they make written and proved in [Verus](https://github.com/verus-lang/verus).

- The tray shows the battery level, the position of the microphone and the connection. Its icon is
  grey without the dongle, orange with the dongle but without the headset, and teal with the headset.
- The microphone can be boosted by 0, 5 or 10 dB. The level is kept in the configuration.
- A low battery (20% or less, not charging) is announced once, until the headset is recharged.
- Muting is up to the headset, which mutes its microphone when it is raised; the tray shows it.
- `corsair-void status`, `corsair-void boost 5` and `corsair-void stop` talk to a running tray. Where
  none is running, the first two open the headset directly.

## Layout

`src/` is the verified library. It does no input or output: it is told what happened and says what
follows.

| Module | What it decides |
|---|---|
| `device::protocol` | What a status report of the dongle means |
| `device::hid`, `device::sysfs` | Which device to open, what to write to it, what a reading means |
| `device` | Which of the two ways to the headset is taken |
| `device::polling` | The polling loop: requests, failures, checks on a silent dongle, reconnection |
| `ipc` | The lines between the command line and the tray, written and read |
| `cli` | The steps of the commands, what they print and their exit codes |
| `tray`, `tray::menu`, `tray::icon` | The state of the tray and what is shown of it |
| `config`, `sound`, `autostart` | Settings and their ranges, sounds, starting on login |
| `audio` | Boost levels, the choice of audio devices, the boost engine, its worker and its pipeline |
| `text` | The text operations that the others need |

Public proof functions in these modules state what holds of several functions together, for
instance that a message that is sent is the message that is received.

`app/` is the program around the library: HID, sysfs, PulseAudio and WASAPI access, the socket or
pipe, the tray icon, the configuration file and sound output. On Windows it needs the `windows` crate
besides the dependencies that are listed. `tests/` runs the library on concrete values.

## Platform notes

- Windows: boost takes [VB-CABLE](https://vb-audio.com/Cable/); without it, boost is unavailable and
  the tray menu says so. The pipe is `\\.\pipe\corsair-void`.
- Linux: boost is a PulseAudio source volume above 100%. The socket is
  `$XDG_RUNTIME_DIR/corsair-void.sock`. The `hid-corsair-void` kernel driver is used where it is
  loaded, HID access otherwise.

## Configuration

`~/.config/corsair-void/config.toml` on Linux, `%APPDATA%\corsair-void\config.toml` on Windows:

```toml
[general]
auto_start = false
mic_boost_db = 0

[sound]
enabled = true
volume = 0.5
freq_high_hz = 1000
freq_low_hz = 700
duration_ms = 150
```

Values out of range are brought into range when the file is read. The file is written only when a
setting is changed.
