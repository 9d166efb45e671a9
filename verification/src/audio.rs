//! When the tone generator is switched on and off.

use vstd::prelude::*;

verus! {

/// What the machine asks of the tone generator.
#[derive(Clone, Copy, Debug, PartialEq, Eq, Structural)]
pub enum AudioCommand {
    /// Play the tone.
    Resume,
    /// Stop the tone, unless it has to go on for a while yet.
    TryPause,
}

/// What is to be done with the audio device.
#[derive(Clone, Copy, Debug, PartialEq, Eq, Structural)]
pub enum DeviceAction {
    /// Let the device play.
    Resume,
    /// Pause the device.
    Pause,
}

/// Milliseconds that a tone lasts at least once it was started.
pub const TONE_MILLIS: u64 = 1000;

/// The schedule of the tone: the time, in milliseconds, from which the
/// device may be paused, if it plays.
#[derive(Clone, Copy, Debug, PartialEq, Eq, Structural)]
pub struct Audio {
    pub next_pause: Option<u64>,
}

/// The time `TONE_MILLIS` after `now`, or the latest time there is.
pub open spec fn pause_time(now: u64) -> u64 {
    if now + TONE_MILLIS <= u64::MAX {
        (now + TONE_MILLIS) as u64
    } else {
        u64::MAX
    }
}

/// The device plays and the time to pause it has come.
pub open spec fn pause_due(audio: Audio, now: u64) -> bool {
    audio.next_pause matches Some(at) && now >= at
}

/// The schedule after `command` is given at time `now`.
pub open spec fn scheduled(audio: Audio, command: AudioCommand, now: u64) -> Audio {
    match command {
        AudioCommand::Resume => Audio { next_pause: Some(pause_time(now)) },
        AudioCommand::TryPause => if pause_due(audio, now) {
            Audio { next_pause: None }
        } else {
            audio
        },
    }
}

/// What `command`, given at time `now`, has the device do.
pub open spec fn device_action(audio: Audio, command: AudioCommand, now: u64) -> Option<
    DeviceAction,
> {
    match command {
        AudioCommand::Resume => Some(DeviceAction::Resume),
        AudioCommand::TryPause => if pause_due(audio, now) {
            Some(DeviceAction::Pause)
        } else {
            None
        },
    }
}

/// What a frame asks of the schedule: its command, or, where it has none,
/// to pause if the time for that has come.
pub open spec fn asked(command: Option<AudioCommand>) -> AudioCommand {
    match command {
        Some(given) => given,
        None => AudioCommand::TryPause,
    }
}

impl Default for Audio {
    fn default() -> (audio: Audio)
        ensures
            audio.next_pause is None,
    {
        Audio { next_pause: None }
    }
}

impl Audio {
    /// Carries out `command` at time `now`, in milliseconds: returns what the
    /// device has to do and keeps the schedule.
    pub fn run(&mut self, command: AudioCommand, now: u64) -> (action: Option<DeviceAction>)
        ensures
            *final(self) == scheduled(*old(self), command, now),
            action == device_action(*old(self), command, now),
    {
        match command {
            AudioCommand::Resume => {
                self.resume(now);
                Some(DeviceAction::Resume)
            },
            AudioCommand::TryPause => {
                if self.try_pause(now) {
                    Some(DeviceAction::Pause)
                } else {
                    None
                }
            },
        }
    }

    /// The schedule's part of a frame at time `now`, in milliseconds: carries
    /// out the command of the frame; in a frame without a command the device
    /// is paused if that is due, so that a stop that came too early is made
    /// up for by time alone.
    pub fn frame(&mut self, command: Option<AudioCommand>, now: u64) -> (action: Option<
        DeviceAction,
    >)
        ensures
            *final(self) == scheduled(*old(self), asked(command), now),
            action == device_action(*old(self), asked(command), now),
    {
        match command {
            Some(given) => self.run(given, now),
            None => self.run(AudioCommand::TryPause, now),
        }
    }

    /// Starts the tone at time `now`: it may be paused `TONE_MILLIS` later.
    pub fn resume(&mut self, now: u64)
        ensures
            *final(self) == scheduled(*old(self), AudioCommand::Resume, now),
    {
        self.next_pause = Some(now.saturating_add(TONE_MILLIS));
    }

    /// Pauses the tone at time `now` if that is due; says whether it did.
    pub fn try_pause(&mut self, now: u64) -> (paused: bool)
        ensures
            paused == pause_due(*old(self), now),
            *final(self) == scheduled(*old(self), AudioCommand::TryPause, now),
    {
        if self.can_pause(now) {
            self.next_pause = None;
            true
        } else {
            false
        }
    }

    /// Whether the device plays and may be paused at time `now`.
    pub fn can_pause(&self, now: u64) -> (due: bool)
        ensures
            due == pause_due(*self, now),
    {
        match self.next_pause {
            Some(next_stop) => now >= next_stop,
            None => false,
        }
    }
}

} // verus!
