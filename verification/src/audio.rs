//! States of system-audio capture and of the audio-reactive haptics built on it.
use vstd::prelude::*;

use crate::dualsense::HapticOutput;

verus! {

/// The latest low- and high-band levels of captured system audio.
#[derive(Clone, Copy, Debug, PartialEq, Eq, Structural)]
pub struct AudioBands {
    /// Low-frequency RMS amplitude, encoded from `0` to `u16::MAX`.
    pub low: u16,
    /// High-frequency RMS amplitude, encoded from `0` to `u16::MAX`.
    pub high: u16,
    /// Monotonically increasing callback heartbeat.
    pub sequence: u64,
}

impl Default for AudioBands {
    fn default() -> (b: Self)
        ensures
            b == (AudioBands { low: 0, high: 0, sequence: 0 }),
    {
        AudioBands { low: 0, high: 0, sequence: 0 }
    }
}

/// Splits the packed level word of the capture bridge: the low band in bits
/// 16..32, the high band in bits 0..16.
pub fn unpack_levels(packed: u64, sequence: u64) -> (b: AudioBands)
    ensures
        b.low as int == (packed as int / 65536) % 65536,
        b.high as int == packed as int % 65536,
        b.sequence == sequence,
{
    AudioBands { low: ((packed / 65536) % 65536) as u16, high: (packed % 65536) as u16, sequence }
}

/// The state reported by the capture bridge.
#[derive(Clone, Copy, Debug, PartialEq, Eq, Structural)]
pub enum SystemAudioCaptureState {
    Idle,
    Running,
    Unsupported,
    Failed(i32),
}

/// The bridge state for its numeric code: 0 idle, 1 running, 2 unsupported,
/// anything else failed with `last_error`.
pub fn capture_state_from_code(code: i32, last_error: i32) -> (s: SystemAudioCaptureState)
    ensures
        s == if code == 0 {
            SystemAudioCaptureState::Idle
        } else if code == 1 {
            SystemAudioCaptureState::Running
        } else if code == 2 {
            SystemAudioCaptureState::Unsupported
        } else {
            SystemAudioCaptureState::Failed(last_error)
        },
{
    match code {
        0 => SystemAudioCaptureState::Idle,
        1 => SystemAudioCaptureState::Running,
        2 => SystemAudioCaptureState::Unsupported,
        _ => SystemAudioCaptureState::Failed(last_error),
    }
}

/// Whether audio-reactive haptics are running, and why not.
#[derive(Clone, Copy, Debug, PartialEq, Eq, Structural)]
pub enum AudioReactiveState {
    Stopped,
    Running,
    Unsupported,
    Failed(i32),
}

impl AudioReactiveState {
    pub open spec fn spec_label(self) -> Seq<char> {
        match self {
            AudioReactiveState::Stopped => "stopped"@,
            AudioReactiveState::Running => "running"@,
            AudioReactiveState::Unsupported => "requires macOS 14.2+"@,
            AudioReactiveState::Failed(_) => "permission/error"@,
        }
    }

    pub fn label(self) -> (r: &'static str)
        ensures
            r@ == self.spec_label(),
    {
        match self {
            AudioReactiveState::Stopped => "stopped",
            AudioReactiveState::Running => "running",
            AudioReactiveState::Unsupported => "requires macOS 14.2+",
            AudioReactiveState::Failed(_) => "permission/error",
        }
    }

    pub fn is_running(self) -> (r: bool)
        ensures
            r == (self == AudioReactiveState::Running),
    {
        match self {
            AudioReactiveState::Running => true,
            _ => false,
        }
    }

    /// The haptics state for a capture state: idle capture means stopped.
    pub fn from_capture_state(value: SystemAudioCaptureState) -> (s: Self)
        ensures
            s == match value {
                SystemAudioCaptureState::Idle => AudioReactiveState::Stopped,
                SystemAudioCaptureState::Running => AudioReactiveState::Running,
                SystemAudioCaptureState::Unsupported => AudioReactiveState::Unsupported,
                SystemAudioCaptureState::Failed(e) => AudioReactiveState::Failed(e),
            },
    {
        match value {
            SystemAudioCaptureState::Idle => AudioReactiveState::Stopped,
            SystemAudioCaptureState::Running => AudioReactiveState::Running,
            SystemAudioCaptureState::Unsupported => AudioReactiveState::Unsupported,
            SystemAudioCaptureState::Failed(error) => AudioReactiveState::Failed(error),
        }
    }
}

/// The haptics state for a capture state: idle capture means stopped.
pub open spec fn reactive_state_of(value: SystemAudioCaptureState) -> AudioReactiveState {
    match value {
        SystemAudioCaptureState::Idle => AudioReactiveState::Stopped,
        SystemAudioCaptureState::Running => AudioReactiveState::Running,
        SystemAudioCaptureState::Unsupported => AudioReactiveState::Unsupported,
        SystemAudioCaptureState::Failed(e) => AudioReactiveState::Failed(e),
    }
}

/// How long the last new audio levels drive the motors before they count
/// as silence, in milliseconds.
pub const AUDIO_HEARTBEAT_TIMEOUT_MS: u64 = 250;

/// Whether levels that arrived at `last_ms` are still fresh at `now_ms`; a
/// clock that went back counts as no time passed.
pub open spec fn heard_recently(last_ms: u64, now_ms: u64) -> bool {
    now_ms <= last_ms + AUDIO_HEARTBEAT_TIMEOUT_MS
}

/// What one step of audio-reactive haptics asks of the application.
#[derive(Clone, Copy, Debug, PartialEq, Eq, Structural)]
pub enum ReactiveStep {
    /// Capture is not running: send this frame, if any, and reset the
    /// envelope.
    Halted(Option<HapticOutput>),
    /// Capture runs: drive the envelope from these levels, then hand its
    /// output to `ReactiveTracker::emit`.
    Drive(AudioBands),
}

/// The bookkeeping of audio-reactive haptics around the level envelope:
/// whether capture runs, which levels are new, and the last frame sent.
#[derive(Clone, Copy, Debug, PartialEq, Eq, Structural)]
pub struct ReactiveTracker {
    pub state: AudioReactiveState,
    /// The heartbeat of the levels last taken.
    pub last_sequence: u64,
    /// When new levels last arrived, in milliseconds of the caller's clock.
    pub last_audio_ms: Option<u64>,
    /// The last frame handed out to be sent.
    pub last_output: HapticOutput,
    /// The levels last taken, as the meter shows them.
    pub meter: AudioBands,
}

impl ReactiveTracker {
    /// The tracker state with processing restarted from `sequence`: no
    /// levels heard, motors off, meter at zero.
    pub open spec fn spec_reset(state: AudioReactiveState, sequence: u64) -> ReactiveTracker {
        ReactiveTracker {
            state,
            last_sequence: sequence,
            last_audio_ms: None,
            last_output: HapticOutput { heavy: 0, sharp: 0 },
            meter: AudioBands { low: 0, high: 0, sequence: 0 },
        }
    }

    /// Stopped, with nothing heard and nothing sent.
    pub fn new() -> (r: Self)
        ensures
            r == Self::spec_reset(AudioReactiveState::Stopped, 0),
    {
        ReactiveTracker {
            state: AudioReactiveState::Stopped,
            last_sequence: 0,
            last_audio_ms: None,
            last_output: HapticOutput::off(),
            meter: AudioBands::default(),
        }
    }

    /// Capture was started at `now_ms` and reports `capture`; `sequence` is
    /// the heartbeat read just before starting. Returns the new state.
    pub fn start(&mut self, now_ms: u64, sequence: u64, capture: SystemAudioCaptureState) -> (r: AudioReactiveState)
        ensures
            *final(self) == (ReactiveTracker {
                last_audio_ms: Some(now_ms),
                ..Self::spec_reset(reactive_state_of(capture), sequence)
            }),
            r == reactive_state_of(capture),
    {
        let state = AudioReactiveState::from_capture_state(capture);
        *self = ReactiveTracker {
            state,
            last_sequence: sequence,
            last_audio_ms: Some(now_ms),
            last_output: HapticOutput::off(),
            meter: AudioBands::default(),
        };
        state
    }

    /// Capture was stopped; `sequence` is the heartbeat read after stopping.
    /// Tells whether a zero frame must be sent: when capture was running or
    /// the last frame sent moved the motors, so no motor stays active.
    pub fn stop(&mut self, sequence: u64) -> (send_off: bool)
        ensures
            send_off == (old(self).state == AudioReactiveState::Running || old(self).last_output
                != (HapticOutput { heavy: 0, sharp: 0 })),
            *final(self) == Self::spec_reset(AudioReactiveState::Stopped, sequence),
    {
        let was_running = self.state.is_running();
        let had_output = self.last_output != HapticOutput::off();
        *self = ReactiveTracker {
            state: AudioReactiveState::Stopped,
            last_sequence: sequence,
            last_audio_ms: None,
            last_output: HapticOutput::off(),
            meter: AudioBands::default(),
        };
        was_running || had_output
    }

    /// One step, at `now_ms`, with the capture's state and its latest levels.
    ///
    /// When capture no longer runs the state follows it, the meter drops to
    /// zero, and a zero frame is handed out once if haptics were active.
    /// While it runs, levels with a new heartbeat are taken; the envelope is
    /// driven from the levels taken while they are fresh, else from silence.
    pub fn observe(&mut self, now_ms: u64, capture: SystemAudioCaptureState, snapshot: AudioBands) -> (r: ReactiveStep)
        ensures
            ({
                let o = *old(self);
                let source = reactive_state_of(capture);
                let off = HapticOutput { heavy: 0, sharp: 0 };
                if source != AudioReactiveState::Running {
                    let was_active = o.state == AudioReactiveState::Running || o.last_output != off;
                    &&& *final(self) == (ReactiveTracker {
                        state: source,
                        meter: AudioBands { low: 0, high: 0, sequence: 0 },
                        last_output: if was_active { off } else { o.last_output },
                        ..o
                    })
                    &&& r == ReactiveStep::Halted(if was_active { Some(off) } else { None })
                } else {
                    let fresh = snapshot.sequence != o.last_sequence;
                    let n = if fresh {
                        ReactiveTracker {
                            state: AudioReactiveState::Running,
                            last_sequence: snapshot.sequence,
                            last_audio_ms: Some(now_ms),
                            meter: snapshot,
                            ..o
                        }
                    } else {
                        ReactiveTracker { state: AudioReactiveState::Running, ..o }
                    };
                    &&& *final(self) == n
                    &&& r == ReactiveStep::Drive(
                        match n.last_audio_ms {
                            Some(t) => if heard_recently(t, now_ms) { n.meter } else { AudioBands { low: 0, high: 0, sequence: 0 } },
                            None => AudioBands { low: 0, high: 0, sequence: 0 },
                        },
                    )
                }
            }),
    {
        let source = AudioReactiveState::from_capture_state(capture);
        if !source.is_running() {
            let was_active = self.state.is_running() || self.last_output != HapticOutput::off();
            self.state = source;
            self.meter = AudioBands::default();
            if was_active {
                self.last_output = HapticOutput::off();
                return ReactiveStep::Halted(Some(HapticOutput::off()));
            }
            return ReactiveStep::Halted(None);
        }
        self.state = AudioReactiveState::Running;
        if snapshot.sequence != self.last_sequence {
            self.last_sequence = snapshot.sequence;
            self.last_audio_ms = Some(now_ms);
            self.meter = snapshot;
        }
        let bands = match self.last_audio_ms {
            Some(t) => {
                if now_ms <= t || now_ms - t <= AUDIO_HEARTBEAT_TIMEOUT_MS {
                    self.meter
                } else {
                    AudioBands::default()
                }
            },
            None => AudioBands::default(),
        };
        ReactiveStep::Drive(bands)
    }

    /// The envelope gave `output`: it is handed out to be sent only when it
    /// differs from the last frame sent.
    pub fn emit(&mut self, output: HapticOutput) -> (r: Option<HapticOutput>)
        ensures
            output == old(self).last_output ==> r is None && *final(self) == *old(self),
            output != old(self).last_output ==> r == Some(output) && *final(self) == (ReactiveTracker {
                last_output: output,
                ..*old(self)
            }),
    {
        if output == self.last_output {
            None
        } else {
            self.last_output = output;
            Some(output)
        }
    }
}

} // verus!
