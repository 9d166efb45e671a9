use chip8::{Audio, AudioCommand, DeviceAction};

#[test]
fn silent_device_is_never_paused() {
    let mut audio = Audio::default();
    assert_eq!(audio.next_pause, None);
    assert!(!audio.can_pause(0));
    assert!(!audio.try_pause(u64::MAX));
    assert_eq!(audio.run(AudioCommand::TryPause, 5000), None);
    assert_eq!(audio.next_pause, None);
}

#[test]
fn tone_lasts_a_second() {
    let mut audio = Audio::default();
    assert_eq!(audio.run(AudioCommand::Resume, 2500), Some(DeviceAction::Resume));
    assert_eq!(audio.next_pause, Some(3500));
    assert_eq!(audio.run(AudioCommand::TryPause, 2500), None);
    assert_eq!(audio.run(AudioCommand::TryPause, 3499), None);
    assert_eq!(audio.next_pause, Some(3500));
    assert_eq!(audio.run(AudioCommand::TryPause, 3500), Some(DeviceAction::Pause));
    assert_eq!(audio.next_pause, None);
    assert_eq!(audio.run(AudioCommand::TryPause, 3501), None);
}

#[test]
fn resume_moves_the_pause_on() {
    let mut audio = Audio::default();
    audio.resume(100);
    audio.resume(700);
    assert_eq!(audio.next_pause, Some(1700));
    assert!(!audio.can_pause(1100));
    assert!(audio.can_pause(1700));
    assert!(audio.try_pause(1800));
    assert!(!audio.can_pause(1800));
}

#[test]
fn pause_time_does_not_overflow() {
    let mut audio = Audio::default();
    audio.resume(u64::MAX - 10);
    assert_eq!(audio.next_pause, Some(u64::MAX));
    assert!(!audio.can_pause(u64::MAX - 1));
    assert!(audio.can_pause(u64::MAX));
}

#[test]
fn frame_carries_out_its_command() {
    let mut audio = Audio::default();
    assert_eq!(audio.frame(Some(AudioCommand::Resume), 100), Some(DeviceAction::Resume));
    assert_eq!(audio.next_pause, Some(1100));
    assert_eq!(audio.frame(Some(AudioCommand::TryPause), 1099), None);
    assert_eq!(audio.next_pause, Some(1100));
    assert_eq!(audio.frame(Some(AudioCommand::TryPause), 1100), Some(DeviceAction::Pause));
    assert_eq!(audio.next_pause, None);
}

#[test]
fn stop_that_came_too_early_is_made_up_for_by_time() {
    let mut audio = Audio::default();
    // The tone plays for three frames, then the stop comes.
    assert_eq!(audio.frame(Some(AudioCommand::Resume), 0), Some(DeviceAction::Resume));
    assert_eq!(audio.frame(Some(AudioCommand::Resume), 16), Some(DeviceAction::Resume));
    assert_eq!(audio.frame(Some(AudioCommand::Resume), 33), Some(DeviceAction::Resume));
    assert_eq!(audio.frame(Some(AudioCommand::TryPause), 50), None);
    // Frames without a command follow; the device is paused once, when due.
    assert_eq!(audio.frame(None, 66), None);
    assert_eq!(audio.frame(None, 1032), None);
    assert_eq!(audio.next_pause, Some(1033));
    assert_eq!(audio.frame(None, 1033), Some(DeviceAction::Pause));
    assert_eq!(audio.next_pause, None);
    assert_eq!(audio.frame(None, 1050), None);
    assert_eq!(audio.frame(None, 5000), None);
}

#[test]
fn frame_without_a_command_leaves_a_silent_device_alone() {
    let mut audio = Audio::default();
    for now in [0, 16, 1000, 2000, u64::MAX] {
        assert_eq!(audio.frame(None, now), None);
        assert_eq!(audio.next_pause, None);
    }
}
