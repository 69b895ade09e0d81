//! The sound events of the PipeWire monitor: their two-byte wire form, the
//! state that turns them into volume-and-mute events, and the commands the
//! bar sends back.
use vstd::prelude::*;

verus! {

/// An event of the PipeWire monitor.
#[derive(Debug, Clone, Copy, PartialEq, Eq, Structural)]
pub enum PWEvent {
    Volume(u8),
    Mute(bool),
}

/// The event that two bytes encode: kind 1 carries a volume, kind 2 a mute
/// flag that must be 0 or 1; anything else is refused.
pub open spec fn spec_pw_event(b: Seq<u8>) -> Option<PWEvent> {
    if b[0] == 1 {
        Some(PWEvent::Volume(b[1]))
    } else if b[0] == 2 {
        if b[1] == 0 {
            Some(PWEvent::Mute(false))
        } else if b[1] == 1 {
            Some(PWEvent::Mute(true))
        } else {
            None
        }
    } else {
        None
    }
}

impl PWEvent {
    /// Decodes an event, as `spec_pw_event` says.
    pub fn deserialize(buf: [u8; 2]) -> (r: Result<PWEvent, ()>)
        ensures
            match r {
                Ok(e) => spec_pw_event(buf@) == Some(e),
                Err(()) => spec_pw_event(buf@) is None,
            },
    {
        if buf[0] == 1 {
            Ok(PWEvent::Volume(buf[1]))
        } else if buf[0] == 2 {
            if buf[1] == 0 {
                Ok(PWEvent::Mute(false))
            } else if buf[1] == 1 {
                Ok(PWEvent::Mute(true))
            } else {
                Err(())
            }
        } else {
            Err(())
        }
    }
}

/// The sound state that the bar is shown.
#[derive(Debug, Clone, Copy, PartialEq, Eq, Structural)]
pub struct SoundEvent {
    pub volume: u8,
    pub muted: bool,
}

/// The last volume and mute flag, and how many complete states are still to
/// be held back (the first one describes the state at start, not a change).
#[derive(Debug, Clone, Copy, PartialEq, Eq, Structural)]
pub struct PWState {
    pub volume: Option<u8>,
    pub muted: Option<bool>,
    pub events_left_to_drop: u8,
}

/// The state and the event to show after an event of the monitor: once both
/// a volume and a mute flag are known, each event gives the pair, except the
/// ones still to be held back.
pub open spec fn spec_pw_on_event(s: PWState, e: PWEvent) -> (PWState, Option<SoundEvent>) {
    let s1 = match e {
        PWEvent::Volume(v) => PWState { volume: Some(v), ..s },
        PWEvent::Mute(m) => PWState { muted: Some(m), ..s },
    };
    match (s1.volume, s1.muted) {
        (Some(volume), Some(muted)) => (
            PWState {
                events_left_to_drop: if s1.events_left_to_drop == 0 { 0 } else { (s1.events_left_to_drop - 1) as u8 },
                ..s1
            },
            if s1.events_left_to_drop == 0 {
                Some(SoundEvent { volume, muted })
            } else {
                None
            },
        ),
        _ => (s1, None),
    }
}

impl PWState {
    /// Nothing known yet; the first complete state is held back.
    pub fn new() -> (s: PWState)
        ensures
            s == (PWState { volume: None, muted: None, events_left_to_drop: 1 }),
    {
        PWState { volume: None, muted: None, events_left_to_drop: 1 }
    }

    /// Records an event, as `spec_pw_on_event` says.
    pub fn on_event(&mut self, event: PWEvent) -> (r: Option<SoundEvent>)
        ensures
            (*final(self), r) == spec_pw_on_event(*old(self), event),
    {
        match event {
            PWEvent::Volume(volume) => self.volume = Some(volume),
            PWEvent::Mute(muted) => self.muted = Some(muted),
        }
        match (self.volume, self.muted) {
            (Some(volume), Some(muted)) => {
                let r = if self.events_left_to_drop == 0 {
                    Some(SoundEvent { volume, muted })
                } else {
                    None
                };
                self.events_left_to_drop = self.events_left_to_drop.saturating_sub(1);
                r
            },
            _ => None,
        }
    }
}

/// A command for the audio server. The volume is the bit pattern of the
/// `f32` fraction to set.
#[derive(Debug, Clone, Copy, PartialEq, Eq, Structural)]
pub enum InternalCommand {
    SetVolume(u32),
    SetMuted(bool),
}

/// The command that mutes or unmutes the default output.
pub fn set_muted(muted: bool) -> (c: InternalCommand)
    ensures
        c == InternalCommand::SetMuted(muted),
{
    InternalCommand::SetMuted(muted)
}

/// The command that sets the volume of the default output; `volume_bits` is
/// the bit pattern of the `f32` fraction.
pub fn set_volume(volume_bits: u32) -> (c: InternalCommand)
    ensures
        c == InternalCommand::SetVolume(volume_bits),
{
    InternalCommand::SetVolume(volume_bits)
}

impl InternalCommand {
    /// The volume and mute flag to change: a command changes exactly one.
    pub fn try_exec(self) -> (r: (Option<u32>, Option<bool>))
        ensures
            r == (match self {
                InternalCommand::SetVolume(v) => (Some(v), None::<bool>),
                InternalCommand::SetMuted(m) => (None::<u32>, Some(m)),
            }),
    {
        match self {
            InternalCommand::SetVolume(v) => (Some(v), None),
            InternalCommand::SetMuted(m) => (None, Some(m)),
        }
    }
}

} // verus!
