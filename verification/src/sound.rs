//! The volume and mute state of the default audio output as the PipeWire
//! bridge on the session bus reports it.
use vstd::prelude::*;
use crate::dbus::{DBusError, HeaderField, IncomingValue};
use crate::text::str_eq;

verus! {

/// The volume and mute state that the bar is shown.
#[derive(Debug, Clone, Copy, PartialEq, Eq, Structural)]
pub struct SoundEvent {
    pub volume: u32,
    pub muted: bool,
}

/// What is known of the volume and mute flag: until both are, the latest of
/// each; then both.
#[derive(Debug, Clone, Copy, PartialEq, Eq, Structural)]
pub enum State {
    Partial(Option<u32>, Option<bool>),
    Full(u32, bool),
}

/// The first of `a` and `b` that is there.
pub open spec fn or_else<T>(a: Option<T>, b: Option<T>) -> Option<T> {
    match a {
        Some(x) => Some(x),
        None => b,
    }
}

/// The state and event after new values arrive. Until both are known nothing
/// is shown; afterwards a change of either shows both.
pub open spec fn spec_got(s: State, new_volume: Option<u32>, new_muted: Option<bool>) -> (State, Option<SoundEvent>) {
    match s {
        State::Partial(pv, pm) => {
            let v = or_else(new_volume, pv);
            let m = or_else(new_muted, pm);
            match (v, m) {
                (Some(v), Some(m)) => (State::Full(v, m), None),
                _ => (State::Partial(v, m), None),
            }
        },
        State::Full(v, m) => {
            let nv = or_else(new_volume, Some(v)).unwrap();
            let nm = or_else(new_muted, Some(m)).unwrap();
            if nv != v || nm != m {
                (State::Full(nv, nm), Some(SoundEvent { volume: nv, muted: nm }))
            } else {
                (State::Full(v, m), None)
            }
        },
    }
}

impl State {
    /// Nothing known yet.
    pub fn new() -> (s: State)
        ensures
            s == State::Partial(None, None),
    {
        State::Partial(None, None)
    }

    /// Records new values, as `spec_got` says.
    pub fn got(&mut self, new_volume: Option<u32>, new_muted: Option<bool>) -> (e: Option<SoundEvent>)
        ensures
            (*final(self), e) == spec_got(*old(self), new_volume, new_muted),
    {
        match *self {
            State::Partial(prev_volume, prev_muted) => {
                let volume = match new_volume {
                    Some(v) => Some(v),
                    None => prev_volume,
                };
                let muted = match new_muted {
                    Some(m) => Some(m),
                    None => prev_muted,
                };
                match (volume, muted) {
                    (Some(v), Some(m)) => *self = State::Full(v, m),
                    _ => *self = State::Partial(volume, muted),
                }
                None
            },
            State::Full(volume, muted) => {
                let mut volume = volume;
                let mut muted = muted;
                let mut changed = false;
                if let Some(nv) = new_volume {
                    if nv != volume {
                        volume = nv;
                        changed = true;
                    }
                }
                if let Some(nm) = new_muted {
                    if nm != muted {
                        muted = nm;
                        changed = true;
                    }
                }
                *self = State::Full(volume, muted);
                if changed {
                    Some(SoundEvent { volume, muted })
                } else {
                    None
                }
            },
        }
    }
}

/// A property of the bridge that the bar follows.
#[derive(Debug, Clone, Copy, PartialEq, Eq, Structural)]
pub enum SoundProperty {
    Volume,
    Muted,
}

/// The volume that a `Volume` value stands for: 99 is shown as 100.
pub open spec fn spec_volume(v: IncomingValue) -> Result<u32, DBusError> {
    match v {
        IncomingValue::UInt32(n) => Ok(if n == 99 { 100 } else { n }),
        _ => Err(DBusError::UnexpectedValue),
    }
}

/// The `Volume` property of the bridge.
pub struct Volume;

impl Volume {
    /// Reads a `Volume` value, as `spec_volume` says.
    pub fn map(value: &IncomingValue) -> (r: Result<u32, DBusError>)
        ensures
            r == spec_volume(*value),
    {
        match value {
            IncomingValue::UInt32(n) => {
                let mut v = *n;
                if v == 99 {
                    v = 100;
                }
                Ok(v)
            },
            _ => Err(DBusError::UnexpectedValue),
        }
    }
}

/// The `Muted` property of the bridge.
pub struct Muted;

impl Muted {
    /// Reads a `Muted` value: a boolean.
    pub fn map(value: &IncomingValue) -> (r: Result<bool, DBusError>)
        ensures
            r == (match *value {
                IncomingValue::Bool(b) => Ok::<bool, DBusError>(b),
                _ => Err(DBusError::UnexpectedValue),
            }),
    {
        match value {
            IncomingValue::Bool(b) => Ok(*b),
            _ => Err(DBusError::UnexpectedValue),
        }
    }
}

/// The sound state that the bar follows, and whether following it works.
#[derive(Debug, Clone, Copy, PartialEq, Eq, Structural)]
pub struct Sound {
    pub state: State,
    pub healthy: bool,
}

impl Sound {
    /// Nothing known yet, following not broken.
    pub fn new() -> (s: Sound)
        ensures
            s == (Sound { state: State::Partial(None, None), healthy: true }),
    {
        Sound { state: State::new(), healthy: true }
    }

    /// The properties to ask for and follow: the volume, then the mute flag.
    pub fn start(&mut self) -> (props: Vec<SoundProperty>)
        ensures
            *final(self) == *old(self),
            props@ == seq![SoundProperty::Volume, SoundProperty::Muted],
    {
        let mut props: Vec<SoundProperty> = Vec::new();
        props.push(SoundProperty::Volume);
        props.push(SoundProperty::Muted);
        props
    }

    /// Records the values that a message brought, as `State::got` says.
    pub fn handle(&mut self, volume: Option<u32>, muted: Option<bool>) -> (e: Option<SoundEvent>)
        ensures
            (final(self).state, e) == spec_got(old(self).state, volume, muted),
            final(self).healthy == old(self).healthy,
    {
        self.state.got(volume, muted)
    }

    /// On every even tick after following broke, starts following again.
    pub fn tick(&mut self, tick: u64) -> (props: Vec<SoundProperty>)
        ensures
            if !old(self).healthy && tick % 2 == 0 {
                &&& *final(self) == (Sound { healthy: true, ..*old(self) })
                &&& props@ == seq![SoundProperty::Volume, SoundProperty::Muted]
            } else {
                &&& *final(self) == *old(self)
                &&& props@.len() == 0
            },
    {
        if !self.healthy && tick % 2 == 0 {
            self.healthy = true;
            self.start()
        } else {
            Vec::new()
        }
    }
}

/// A `PropertiesChanged` signal: the object, the interface and the changed
/// properties with their values.
#[derive(Debug)]
pub struct PropertiesChanged {
    pub path: String,
    pub interface: String,
    pub changes: Vec<(String, IncomingValue)>,
}

/// The value of the first change to the property `name`.
pub open spec fn spec_lookup(changes: Seq<(String, IncomingValue)>, name: Seq<char>) -> Option<IncomingValue>
    decreases changes.len(),
{
    if changes.len() == 0 {
        None
    } else if changes[0].0@ == name {
        Some(changes[0].1)
    } else {
        spec_lookup(changes.drop_first(), name)
    }
}

/// Finds the value of the first change to the property `name`.
fn lookup<'a>(changes: &'a Vec<(String, IncomingValue)>, name: &str) -> (r: Option<&'a IncomingValue>)
    ensures
        match r {
            Some(v) => spec_lookup(changes@, name@) == Some(*v),
            None => spec_lookup(changes@, name@) is None,
        },
{
    let mut i: usize = 0;
    assert(changes@.subrange(0, changes@.len() as int) =~= changes@);
    while i < changes.len()
        invariant
            i <= changes@.len(),
            spec_lookup(changes@, name@) == spec_lookup(changes@.subrange(i as int, changes@.len() as int), name@),
        decreases changes@.len() - i,
    {
        let ghost rest = changes@.subrange(i as int, changes@.len() as int);
        assert(rest.drop_first() =~= changes@.subrange(i + 1, changes@.len() as int));
        if str_eq(changes[i].0.as_str(), name) {
            return Some(&changes[i].1);
        }
        i += 1;
    }
    None
}

/// What a signal of the bridge says of the property `name`: the signal must
/// come from the bridge's object and interface and change that property.
pub open spec fn spec_changed(p: PropertiesChanged, name: Seq<char>) -> Result<IncomingValue, DBusError> {
    if p.path@ != "/org/local/PipewireDBus"@ {
        Err(DBusError::UnexpectedHeader(HeaderField::Path))
    } else if p.interface@ != "org.local.PipewireDBus"@ {
        Err(DBusError::UnexpectedHeader(HeaderField::Interface))
    } else {
        match spec_lookup(p.changes@, name) {
            Some(v) => Ok(v),
            None => Err(DBusError::MissingProperty),
        }
    }
}

/// Finds the change to `name` in a signal of the bridge, as `spec_changed` says.
fn changed<'a>(p: &'a PropertiesChanged, name: &str) -> (r: Result<&'a IncomingValue, DBusError>)
    ensures
        match r {
            Ok(v) => spec_changed(*p, name@) == Ok::<IncomingValue, DBusError>(*v),
            Err(e) => spec_changed(*p, name@) == Err::<IncomingValue, DBusError>(e),
        },
{
    if !str_eq(p.path.as_str(), "/org/local/PipewireDBus") {
        return Err(DBusError::UnexpectedHeader(HeaderField::Path));
    }
    if !str_eq(p.interface.as_str(), "org.local.PipewireDBus") {
        return Err(DBusError::UnexpectedHeader(HeaderField::Interface));
    }
    match lookup(&p.changes, name) {
        Some(v) => Ok(v),
        None => Err(DBusError::MissingProperty),
    }
}

/// A change of the mute flag.
#[derive(Debug, Clone, Copy, PartialEq, Eq, Structural)]
pub struct MuteChanged {
    pub muted: bool,
}

impl MuteChanged {
    /// Reads a change of the mute flag: `Muted` must be a boolean.
    pub fn try_from(p: &PropertiesChanged) -> (r: Result<MuteChanged, DBusError>)
        ensures
            r == (match spec_changed(*p, "Muted"@) {
                Ok(IncomingValue::Bool(b)) => Ok::<MuteChanged, DBusError>(MuteChanged { muted: b }),
                Ok(_) => Err(DBusError::UnexpectedValue),
                Err(e) => Err(e),
            }),
    {
        match changed(p, "Muted") {
            Ok(IncomingValue::Bool(b)) => Ok(MuteChanged { muted: *b }),
            Ok(_) => Err(DBusError::UnexpectedValue),
            Err(e) => Err(e),
        }
    }
}

/// A change of the volume.
#[derive(Debug, Clone, Copy, PartialEq, Eq, Structural)]
pub struct VolumeChanged {
    pub volume: u32,
}

impl VolumeChanged {
    /// Reads a change of the volume: `Volume` must be a `u32`.
    pub fn try_from(p: &PropertiesChanged) -> (r: Result<VolumeChanged, DBusError>)
        ensures
            r == (match spec_changed(*p, "Volume"@) {
                Ok(IncomingValue::UInt32(n)) => Ok::<VolumeChanged, DBusError>(VolumeChanged { volume: n }),
                Ok(_) => Err(DBusError::UnexpectedValue),
                Err(e) => Err(e),
            }),
    {
        match changed(p, "Volume") {
            Ok(IncomingValue::UInt32(n)) => Ok(VolumeChanged { volume: *n }),
            Ok(_) => Err(DBusError::UnexpectedValue),
            Err(e) => Err(e),
        }
    }
}

} // verus!
