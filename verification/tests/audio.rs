use dualsense_tui::audio::{
    AudioBands, AudioReactiveState, ReactiveStep, ReactiveTracker, SystemAudioCaptureState,
};
use dualsense_tui::dualsense::HapticOutput;

fn bands(low: u16, high: u16, sequence: u64) -> AudioBands {
    AudioBands { low, high, sequence }
}

#[test]
fn fresh_levels_drive_the_motors_until_the_heartbeat_times_out() {
    let mut tracker = ReactiveTracker::new();
    assert_eq!(tracker.start(1000, 4, SystemAudioCaptureState::Running), AudioReactiveState::Running);
    let step = tracker.observe(1010, SystemAudioCaptureState::Running, bands(900, 300, 5));
    assert_eq!(step, ReactiveStep::Drive(bands(900, 300, 5)));
    assert_eq!(tracker.meter, bands(900, 300, 5));
    // The same heartbeat 250 ms later still counts; one millisecond more is silence.
    let step = tracker.observe(1260, SystemAudioCaptureState::Running, bands(1, 1, 5));
    assert_eq!(step, ReactiveStep::Drive(bands(900, 300, 5)));
    let step = tracker.observe(1261, SystemAudioCaptureState::Running, bands(1, 1, 5));
    assert_eq!(step, ReactiveStep::Drive(AudioBands::default()));
}

#[test]
fn only_changed_frames_are_sent() {
    let mut tracker = ReactiveTracker::new();
    tracker.start(0, 0, SystemAudioCaptureState::Running);
    assert_eq!(tracker.emit(HapticOutput::off()), None);
    assert_eq!(tracker.emit(HapticOutput::symmetric(40)), Some(HapticOutput::symmetric(40)));
    assert_eq!(tracker.emit(HapticOutput::symmetric(40)), None);
    assert_eq!(tracker.emit(HapticOutput::symmetric(12)), Some(HapticOutput::symmetric(12)));
}

#[test]
fn ended_capture_sends_one_zero_frame() {
    let mut tracker = ReactiveTracker::new();
    tracker.start(0, 0, SystemAudioCaptureState::Running);
    tracker.emit(HapticOutput::symmetric(80));
    let step = tracker.observe(5, SystemAudioCaptureState::Failed(-3), bands(10, 10, 1));
    assert_eq!(step, ReactiveStep::Halted(Some(HapticOutput::off())));
    assert_eq!(tracker.state, AudioReactiveState::Failed(-3));
    assert_eq!(tracker.meter, AudioBands::default());
    let step = tracker.observe(6, SystemAudioCaptureState::Failed(-3), bands(10, 10, 1));
    assert_eq!(step, ReactiveStep::Halted(None));
}

#[test]
fn stopping_leaves_no_motor_active() {
    let mut tracker = ReactiveTracker::new();
    assert!(!tracker.stop(0));
    tracker.start(0, 0, SystemAudioCaptureState::Running);
    tracker.emit(HapticOutput::symmetric(30));
    assert!(tracker.stop(7));
    assert_eq!(tracker.state, AudioReactiveState::Stopped);
    assert_eq!(tracker.last_output, HapticOutput::off());
    assert_eq!(tracker.last_sequence, 7);
    assert_eq!(tracker.start(0, 0, SystemAudioCaptureState::Unsupported), AudioReactiveState::Unsupported);
    assert!(!tracker.stop(0));
}
