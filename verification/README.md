# DualSenseTUI

A configurator for Sony DualSense and DualSense Edge controllers on macOS:
lightbar, haptics (including audio-reactive haptics), adaptive triggers,
player LEDs and audio controls, controller remapping, and keyboard and mouse
output driven by the controller. It runs as a terminal interface, as a
per-user LaunchAgent, and as the JSON service of a native desktop shell.

## Layout

- `src/` — the library, verified with Verus. Every public function states
  its result in `ensures` over spec functions and views, and the laws of the
  library are public proof functions.
  - `model`, `profile`: controller and profile types; normalization of
    loaded profiles.
  - `dualsense`, `effects`, `crc`, `output_report`, `input_report`: device
    facts, haptic frames, trigger effects, CRC32, HID output reports byte for
    byte, parsing of input and feature reports.
  - `audio`: capture states and the bookkeeping of audio-reactive haptics
    (when capture ended, which levels are fresh, which frames are sent).
  - `config`: profile file names, named-profile names and identifiers,
    configuration paths, the order of the profile library.
  - `launch_agent`: XML escaping and the LaunchAgent property list.
  - `mapping`: keyboard and mouse output planning and key codes.
  - `app_state`, `editor`, `gui`: the editor state machine of the terminal
    interface, its key table, and the commands of the desktop shell.
  - `status`, `screen`, `text`: status lines, screen readouts, text helpers.
- `tests/` — tests of the library on concrete values.
- `app/` — the program around the library: terminal drawing (ratatui),
  IOKit access, event posting, system-audio capture, profile files,
  launchctl, and the JSON service and its socket. The floating-point parts
  (the haptics envelope, the mouse stick curve) live here.

Verify with Verus on `src/lib.rs`; the tests run with `cargo test`.
