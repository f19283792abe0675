//! The buzzer and what it asks of the host's audio device.

use vstd::prelude::*;

verus! {

/// What the host's audio device is doing.
#[derive(Debug, Clone, Copy, PartialEq, Eq)]
pub enum AudioStatus {
    Stopped,
    Playing,
    Paused,
}

/// What the host is to do with its audio device.
#[derive(Debug, Clone, Copy, PartialEq, Eq)]
pub enum AudioAction {
    /// Leave it as it is.
    Keep,
    /// Let it play on.
    Resume,
    /// Make it pause.
    Pause,
}

/// The buzzer: a flag that the machine sets, and the rule that turns the flag
/// into what the audio device is to do.
#[derive(Debug)]
pub struct AudioEngine {
    beep: bool,
}

impl View for AudioEngine {
    type V = bool;

    closed spec fn view(&self) -> bool {
        self.beep
    }
}

impl AudioEngine {
    /// What is to be done with a device in the state `status` for the flag
    /// `beep`: a paused device plays on while the buzzer sounds, a playing one
    /// pauses while it does not, and nothing else changes anything.
    pub open spec fn spec_action(beep: bool, status: AudioStatus) -> AudioAction {
        if beep && status == AudioStatus::Paused {
            AudioAction::Resume
        } else if !beep && status == AudioStatus::Playing {
            AudioAction::Pause
        } else {
            AudioAction::Keep
        }
    }

    /// A buzzer that is silent.
    pub fn new() -> (audio: AudioEngine)
        ensures
            audio@ == false,
    {
        AudioEngine { beep: false }
    }

    /// What the host is to do with its device, which is in the state `status`.
    pub fn render(&self, status: AudioStatus) -> (action: AudioAction)
        ensures
            action == AudioEngine::spec_action(self@, status),
    {
        if self.beep {
            match status {
                AudioStatus::Paused => AudioAction::Resume,
                _ => AudioAction::Keep,
            }
        } else {
            match status {
                AudioStatus::Playing => AudioAction::Pause,
                _ => AudioAction::Keep,
            }
        }
    }

    /// The flag, for the machine to set.
    pub fn get_memory(&mut self) -> (flag: &mut bool)
        ensures
            *flag == old(self)@,
            final(self)@ == *final(flag),
    {
        &mut self.beep
    }
}

} // verus!
