//! Network throughput: turning the running byte counters of an interface
//! into per-tick speeds, and writing a speed for display.
use vstd::prelude::*;
use vstd::string::StringExecFns;
use crate::text::{contains, decimal, str_contains, str_eq, u64_to_decimal};

verus! {

/// Speeds below this many bytes per tick are shown as zero.
pub const THREASHOLD: u64 = 5_000;

/// The last counter value seen in one direction, once there is one.
#[derive(Debug, Clone, Copy, PartialEq, Eq, Structural)]
pub enum OneWaySpeed {
    Uninitialized,
    Initialized(u64),
}

/// The speed that a new counter value gives after `prev`: the growth of the
/// counter, or zero when there was no earlier value or the growth is below
/// the threshold.
pub open spec fn spec_speed(prev: OneWaySpeed, current: u64) -> u64 {
    match prev {
        OneWaySpeed::Uninitialized => 0,
        OneWaySpeed::Initialized(p) => {
            if current - p < THREASHOLD {
                0
            } else {
                (current - p) as u64
            }
        },
    }
}

/// Whether `current` may follow `prev`: counters only grow.
pub open spec fn counter_may_follow(prev: OneWaySpeed, current: u64) -> bool {
    match prev {
        OneWaySpeed::Uninitialized => true,
        OneWaySpeed::Initialized(p) => p <= current,
    }
}

impl OneWaySpeed {
    /// Records `current` and returns the speed since the previous value.
    pub fn update(&mut self, current: u64) -> (speed: u64)
        requires
            counter_may_follow(*old(self), current),
        ensures
            *final(self) == OneWaySpeed::Initialized(current),
            speed == spec_speed(*old(self), current),
    {
        match *self {
            OneWaySpeed::Uninitialized => {
                *self = OneWaySpeed::Initialized(current);
                0
            },
            OneWaySpeed::Initialized(prev) => {
                let mut d = current - prev;
                *self = OneWaySpeed::Initialized(current);
                if d < THREASHOLD {
                    d = 0;
                }
                d
            },
        }
    }
}

/// The display form of a speed in bytes per tick: whole mebibytes when there is
/// at least one, else whole kibibytes when there is at least one, else bytes.
pub open spec fn spec_fmt(speed: u64) -> Seq<char> {
    if speed / 1024 > 0 {
        let kb = speed / 1024;
        if kb / 1024 > 0 {
            decimal((kb / 1024) as nat) + "MB/s"@
        } else {
            decimal(kb as nat) + "KB/s"@
        }
    } else {
        decimal(speed as nat) + "B/s"@
    }
}

/// Writes a speed with its unit, as `spec_fmt` says.
pub fn fmt(speed: u64) -> (s: String)
    ensures
        s@ == spec_fmt(speed),
{
    let mut speed = speed;
    if speed / 1024 > 0 {
        speed = speed / 1024;
        if speed / 1024 > 0 {
            speed = speed / 1024;
            u64_to_decimal(speed).concat("MB/s")
        } else {
            u64_to_decimal(speed).concat("KB/s")
        }
    } else {
        u64_to_decimal(speed).concat("B/s")
    }
}

/// Upload and download speeds, each with its own last counter value.
#[derive(Debug, Clone, Copy, PartialEq, Eq, Structural)]
pub struct NetworkSpeed {
    pub tx: OneWaySpeed,
    pub rx: OneWaySpeed,
}

/// The speeds of one tick, written for display.
#[derive(Debug)]
pub struct NetworkSpeedEvent {
    pub upload_speed: String,
    pub download_speed: String,
}

impl NetworkSpeed {
    /// Speeds with no counter value seen yet.
    pub fn new() -> (s: Self)
        ensures
            s.tx == OneWaySpeed::Uninitialized,
            s.rx == OneWaySpeed::Uninitialized,
    {
        NetworkSpeed { tx: OneWaySpeed::Uninitialized, rx: OneWaySpeed::Uninitialized }
    }

    /// Forgets the counter values, as when the interface changes.
    pub fn reset(&mut self)
        ensures
            final(self).tx == OneWaySpeed::Uninitialized,
            final(self).rx == OneWaySpeed::Uninitialized,
    {
        self.tx = OneWaySpeed::Uninitialized;
        self.rx = OneWaySpeed::Uninitialized;
    }

    /// Records the transmitted and received counters of this tick and returns
    /// both speeds written for display.
    pub fn update(&mut self, tx: u64, rx: u64) -> (e: NetworkSpeedEvent)
        requires
            counter_may_follow(old(self).tx, tx),
            counter_may_follow(old(self).rx, rx),
        ensures
            final(self).tx == OneWaySpeed::Initialized(tx),
            final(self).rx == OneWaySpeed::Initialized(rx),
            e.upload_speed@ == spec_fmt(spec_speed(old(self).tx, tx)),
            e.download_speed@ == spec_fmt(spec_speed(old(self).rx, rx)),
    {
        let upload_speed = self.tx.update(tx);
        let download_speed = self.rx.update(rx);
        NetworkSpeedEvent { upload_speed: fmt(upload_speed), download_speed: fmt(download_speed) }
    }
}

/// What a NetworkManager object path property says: the path `/` means
/// that there is no such object.
#[derive(Debug)]
pub enum ConnectionEvent {
    Connected(String),
    Disconnected,
}

/// The primary connection of NetworkManager changed.
pub type PrimaryConnectionEvent = ConnectionEvent;

/// The primary device changed.
pub type PrimaryDeviceEvent = ConnectionEvent;

/// The active access point changed.
pub type ActiveAccessPointEvent = ConnectionEvent;

/// The model of a path event: the path, or `None` for no object.
pub open spec fn connection_model(e: ConnectionEvent) -> Option<Seq<char>> {
    match e {
        ConnectionEvent::Connected(p) => Some(p@),
        ConnectionEvent::Disconnected => None,
    }
}

impl ConnectionEvent {
    /// Reads an object path: `/` is no object.
    pub fn from_path(path: &str) -> (e: ConnectionEvent)
        ensures
            connection_model(e) == (if path@ == "/"@ { None } else { Some(path@) }),
    {
        if str_eq(path, "/") {
            ConnectionEvent::Disconnected
        } else {
            ConnectionEvent::Connected(String::from_str(path))
        }
    }
}

/// How far the tracking of the wireless connection got.
#[derive(Debug, Clone, Copy, PartialEq, Eq, Structural)]
pub enum WirelessState {
    Disconnected,
    ConnectedAndHavePath,
    ConnectedAndHavePathAndType,
}

/// What the network module asks NetworkManager to report, or stops asking.
#[derive(Debug)]
pub enum NetworkRequest {
    WatchPrimaryConnection,
    WatchActiveConnectionType(String),
    UnwatchActiveConnectionType,
    WatchPrimaryDevice(String),
    UnwatchPrimaryDevice,
    WatchActiveAccessPoint(String),
    UnwatchActiveAccessPoint,
    WatchTxRx(String),
    UnwatchTxRx,
    WatchSsidAndStrength(String),
    UnwatchSsidAndStrength,
}

/// Whether the primary connection is wireless, and which one it is.
#[derive(Debug)]
pub enum WirelessConnectionEvent {
    Connected(String),
    Disconnected,
}

/// The tracking of the primary connection and of whether it is wireless.
#[derive(Debug)]
pub struct WirelessConnection {
    pub state: WirelessState,
    /// The connection whose type is asked for.
    pub path: Option<String>,
}

impl WirelessConnection {
    /// Nothing known yet.
    pub fn new() -> (w: WirelessConnection)
        ensures
            w.state == WirelessState::Disconnected,
            w.path is None,
    {
        WirelessConnection { state: WirelessState::Disconnected, path: None }
    }

    /// Starts following the primary connection.
    pub fn start(&mut self) -> (reqs: Vec<NetworkRequest>)
        ensures
            reqs@.len() == 1,
            reqs@[0] matches NetworkRequest::WatchPrimaryConnection,
            *final(self) == *old(self),
    {
        let mut reqs: Vec<NetworkRequest> = Vec::new();
        reqs.push(NetworkRequest::WatchPrimaryConnection);
        reqs
    }

    /// A new primary connection: its type is asked for; no connection means
    /// disconnected.
    pub fn on_primary_connection_event(&mut self, e: ConnectionEvent) -> (r: (Option<WirelessConnectionEvent>, NetworkRequest))
        ensures
            match connection_model(e) {
                Some(path) => {
                    &&& r.0 is None
                    &&& r.1 matches NetworkRequest::WatchActiveConnectionType(p) && p@ == path
                    &&& final(self).state == WirelessState::ConnectedAndHavePath
                    &&& final(self).path matches Some(p) && p@ == path
                },
                None => {
                    &&& r.0 matches Some(WirelessConnectionEvent::Disconnected)
                    &&& r.1 matches NetworkRequest::UnwatchActiveConnectionType
                    &&& final(self).state == WirelessState::Disconnected
                    &&& final(self).path is None
                },
            },
    {
        match e {
            ConnectionEvent::Connected(path) => {
                let req = NetworkRequest::WatchActiveConnectionType(path.clone());
                self.path = Some(path);
                self.state = WirelessState::ConnectedAndHavePath;
                (None, req)
            },
            ConnectionEvent::Disconnected => {
                self.path = None;
                self.state = WirelessState::Disconnected;
                (Some(WirelessConnectionEvent::Disconnected), NetworkRequest::UnwatchActiveConnectionType)
            },
        }
    }

    /// The type of the primary connection arrived: a type that mentions
    /// `wireless` makes it the wireless connection; any other disconnects.
    /// Nothing happens while no connection is known.
    pub fn on_active_connection_type_received(&mut self, type_: &str) -> (r: Option<WirelessConnectionEvent>)
        ensures
            match old(self).path {
                None => r is None && final(self).state == old(self).state && final(self).path is None,
                Some(p) => if contains(type_@, "wireless"@) {
                    &&& r matches Some(WirelessConnectionEvent::Connected(q)) && q@ == p@
                    &&& final(self).state == WirelessState::ConnectedAndHavePathAndType
                    &&& final(self).path == old(self).path
                } else {
                    &&& r matches Some(WirelessConnectionEvent::Disconnected)
                    &&& final(self).state == WirelessState::Disconnected
                    &&& final(self).path == old(self).path
                },
            },
    {
        let is_wireless = str_contains(type_, "wireless");
        let path = match &self.path {
            Some(p) => p.clone(),
            None => return None,
        };
        if is_wireless {
            self.state = WirelessState::ConnectedAndHavePathAndType;
            Some(WirelessConnectionEvent::Connected(path))
        } else {
            self.state = WirelessState::Disconnected;
            Some(WirelessConnectionEvent::Disconnected)
        }
    }
}

/// The model of the connection tracking: how far it got and the path of
/// the connection.
pub open spec fn wireless_model(w: WirelessConnection) -> (WirelessState, Option<Seq<char>>) {
    (
        w.state,
        match w.path {
            Some(p) => Some(p@),
            None => None,
        },
    )
}

/// The tracking after a new primary connection (`None` for no connection).
pub open spec fn spec_wireless_on_connection(path: Option<Seq<char>>) -> (WirelessState, Option<Seq<char>>) {
    match path {
        Some(p) => (WirelessState::ConnectedAndHavePath, Some(p)),
        None => (WirelessState::Disconnected, None),
    }
}

/// The tracking after the type `t` of the known connection arrived: a type
/// that mentions `wireless` makes it the wireless connection, any other
/// disconnects; nothing changes while no connection is known.
pub open spec fn spec_wireless_on_type(w: (WirelessState, Option<Seq<char>>), t: Seq<char>) -> (WirelessState, Option<Seq<char>>) {
    match w.1 {
        None => w,
        Some(p) => if contains(t, "wireless"@) {
            (WirelessState::ConnectedAndHavePathAndType, Some(p))
        } else {
            (WirelessState::Disconnected, Some(p))
        },
    }
}

/// The network name and signal strength that the bar was last told.
#[derive(Debug)]
pub struct SsidAndStrengthState {
    pub last_ssid: Option<String>,
    pub last_strength: Option<u8>,
}

/// The model of the last name and strength.
pub open spec fn ssid_state_model(s: SsidAndStrengthState) -> (Option<Seq<char>>, Option<u8>) {
    (
        match s.last_ssid {
            Some(x) => Some(x@),
            None => None,
        },
        s.last_strength,
    )
}

/// The last name and strength after new values, and what the bar is told:
/// both, when either changed and both are known.
pub open spec fn spec_on_ssid_and_strength(
    last: (Option<Seq<char>>, Option<u8>),
    ssid: Option<Seq<char>>,
    strength: Option<u8>,
) -> ((Option<Seq<char>>, Option<u8>), Option<(Seq<char>, u8)>) {
    let ssid_diff = ssid is Some && last.0 != ssid;
    let strength_diff = strength is Some && last.1 != strength;
    let next = (if ssid_diff { ssid } else { last.0 }, if strength_diff { strength } else { last.1 });
    (
        next,
        if (ssid_diff || strength_diff) && next.0 is Some && next.1 is Some {
            Some((next.0.unwrap(), next.1.unwrap()))
        } else {
            None
        },
    )
}

impl SsidAndStrengthState {
    /// Nothing told yet.
    pub fn new() -> (s: SsidAndStrengthState)
        ensures
            s.last_ssid is None,
            s.last_strength is None,
    {
        SsidAndStrengthState { last_ssid: None, last_strength: None }
    }

    /// Records new values, as `spec_on_ssid_and_strength` says.
    pub fn on_ssid_and_strength_event(&mut self, ssid: Option<String>, strength: Option<u8>) -> (r: Option<(String, u8)>)
        ensures
            ({
                let (next, told) = spec_on_ssid_and_strength(
                    ssid_state_model(*old(self)),
                    match ssid {
                        Some(x) => Some(x@),
                        None => None,
                    },
                    strength,
                );
                &&& ssid_state_model(*final(self)) == next
                &&& match r {
                    Some((s, n)) => told == Some((s@, n)),
                    None => told is None,
                }
            }),
    {
        let mut got_diff = false;
        if let Some(s) = ssid {
            let same = match &self.last_ssid {
                Some(l) => str_eq(l.as_str(), s.as_str()),
                None => false,
            };
            if !same {
                self.last_ssid = Some(s);
                got_diff = true;
            }
        }
        if let Some(n) = strength {
            let same = match self.last_strength {
                Some(l) => l == n,
                None => false,
            };
            if !same {
                self.last_strength = Some(n);
                got_diff = true;
            }
        }
        if got_diff {
            match (&self.last_ssid, self.last_strength) {
                (Some(s), Some(n)) => Some((s.clone(), n)),
                _ => None,
            }
        } else {
            None
        }
    }
}

/// What NetworkManager reported in one message, as the property watches
/// recognised it.
#[derive(Debug)]
pub enum NetworkInput {
    PrimaryConnection(String),
    ActiveConnectionType(String),
    PrimaryDevice(String),
    ActiveAccessPoint(String),
    SsidAndStrength { ssid: Option<String>, strength: Option<u8> },
}

/// The network module: the wireless connection, its device's speeds and its
/// access point's name and strength.
#[derive(Debug)]
pub struct Network {
    pub wireless_connection: WirelessConnection,
    pub speed: NetworkSpeed,
    pub ssid_and_strength: SsidAndStrengthState,
}

/// A request to NetworkManager as plain values: what to watch (by kind)
/// and the object path, if any.
pub open spec fn net_request_model(r: NetworkRequest) -> (int, Option<Seq<char>>) {
    match r {
        NetworkRequest::WatchPrimaryConnection => (0, None),
        NetworkRequest::WatchActiveConnectionType(p) => (1, Some(p@)),
        NetworkRequest::UnwatchActiveConnectionType => (2, None),
        NetworkRequest::WatchPrimaryDevice(p) => (3, Some(p@)),
        NetworkRequest::UnwatchPrimaryDevice => (4, None),
        NetworkRequest::WatchActiveAccessPoint(p) => (5, Some(p@)),
        NetworkRequest::UnwatchActiveAccessPoint => (6, None),
        NetworkRequest::WatchTxRx(p) => (7, Some(p@)),
        NetworkRequest::UnwatchTxRx => (8, None),
        NetworkRequest::WatchSsidAndStrength(p) => (9, Some(p@)),
        NetworkRequest::UnwatchSsidAndStrength => (10, None),
    }
}

/// The models of a list of requests, in order.
pub open spec fn net_requests_model(s: Seq<NetworkRequest>) -> Seq<(int, Option<Seq<char>>)> {
    s.map_values(|r: NetworkRequest| net_request_model(r))
}

/// The requests that a report leads to: a new primary connection has its
/// type asked for, and no primary connection stops following the type and
/// the device; a type of the known connection that mentions `wireless`
/// follows its device, any other stops following it; a new device has its
/// access point and counters followed, or no longer; a new access point has
/// its name and strength followed, or no longer. A name or strength asks
/// nothing.
pub open spec fn spec_handle_requests(known_path: Option<Seq<char>>, input: NetworkInput) -> Seq<(int, Option<Seq<char>>)> {
    match input {
        NetworkInput::PrimaryConnection(p) => if p@ == "/"@ {
            seq![(2, None), (4, None)]
        } else {
            seq![(1, Some(p@))]
        },
        NetworkInput::ActiveConnectionType(t) => match known_path {
            None => Seq::empty(),
            Some(p) => if contains(t@, "wireless"@) {
                seq![(3, Some(p))]
            } else {
                seq![(4, None)]
            },
        },
        NetworkInput::PrimaryDevice(p) => if p@ == "/"@ {
            seq![(6, None), (8, None)]
        } else {
            seq![(5, Some(p@)), (7, Some(p@))]
        },
        NetworkInput::ActiveAccessPoint(p) => if p@ == "/"@ {
            seq![(10, None)]
        } else {
            seq![(9, Some(p@))]
        },
        NetworkInput::SsidAndStrength { .. } => Seq::empty(),
    }
}

impl Network {
    /// Nothing known yet; the requests that start following the primary
    /// connection.
    pub fn new() -> (r: (Network, Vec<NetworkRequest>))
        ensures
            r.0.wireless_connection.state == WirelessState::Disconnected,
            r.0.wireless_connection.path is None,
            ssid_state_model(r.0.ssid_and_strength) == (None::<Seq<char>>, None::<u8>),
            r.0.speed.tx == OneWaySpeed::Uninitialized,
            r.0.speed.rx == OneWaySpeed::Uninitialized,
            r.1@.len() == 1,
            r.1@[0] matches NetworkRequest::WatchPrimaryConnection,
    {
        let mut this = Network {
            wireless_connection: WirelessConnection::new(),
            speed: NetworkSpeed::new(),
            ssid_and_strength: SsidAndStrengthState::new(),
        };
        let reqs = this.init();
        (this, reqs)
    }

    /// The requests that start following the primary connection.
    pub fn init(&mut self) -> (reqs: Vec<NetworkRequest>)
        ensures
            reqs@.len() == 1,
            reqs@[0] matches NetworkRequest::WatchPrimaryConnection,
            final(self).wireless_connection == old(self).wireless_connection,
            final(self).speed == old(self).speed,
            final(self).ssid_and_strength == old(self).ssid_and_strength,
    {
        self.wireless_connection.start()
    }

    /// A wireless connection appeared or went: its device is followed, or no
    /// longer.
    pub fn on_wireless_connection_event(&mut self, e: WirelessConnectionEvent) -> (req: NetworkRequest)
        ensures
            match e {
                WirelessConnectionEvent::Connected(p) => req matches NetworkRequest::WatchPrimaryDevice(q) && q@ == p@,
                WirelessConnectionEvent::Disconnected => req matches NetworkRequest::UnwatchPrimaryDevice,
            },
            *final(self) == *old(self),
    {
        match e {
            WirelessConnectionEvent::Connected(path) => NetworkRequest::WatchPrimaryDevice(path),
            WirelessConnectionEvent::Disconnected => NetworkRequest::UnwatchPrimaryDevice,
        }
    }

    /// The device changed: its access point and counters are followed, or no
    /// longer, and the speeds start over.
    pub fn on_primary_device_event(&mut self, e: ConnectionEvent) -> (reqs: Vec<NetworkRequest>)
        ensures
            final(self).speed.tx == OneWaySpeed::Uninitialized,
            final(self).speed.rx == OneWaySpeed::Uninitialized,
            reqs@.len() == 2,
            match connection_model(e) {
                Some(p) => (reqs@[0] matches NetworkRequest::WatchActiveAccessPoint(q) && q@ == p)
                    && (reqs@[1] matches NetworkRequest::WatchTxRx(q) && q@ == p),
                None => (reqs@[0] matches NetworkRequest::UnwatchActiveAccessPoint) && (reqs@[1] matches NetworkRequest::UnwatchTxRx),
            },
            final(self).wireless_connection == old(self).wireless_connection,
            final(self).ssid_and_strength == old(self).ssid_and_strength,
    {
        let mut reqs: Vec<NetworkRequest> = Vec::new();
        match e {
            ConnectionEvent::Connected(path) => {
                reqs.push(NetworkRequest::WatchActiveAccessPoint(path.clone()));
                self.speed.reset();
                reqs.push(NetworkRequest::WatchTxRx(path));
            },
            ConnectionEvent::Disconnected => {
                reqs.push(NetworkRequest::UnwatchActiveAccessPoint);
                self.speed.reset();
                reqs.push(NetworkRequest::UnwatchTxRx);
            },
        }
        reqs
    }

    /// The access point changed: its name and strength are followed, or no
    /// longer.
    pub fn on_active_access_point_event(&mut self, e: ConnectionEvent) -> (req: NetworkRequest)
        ensures
            match connection_model(e) {
                Some(p) => req matches NetworkRequest::WatchSsidAndStrength(q) && q@ == p,
                None => req matches NetworkRequest::UnwatchSsidAndStrength,
            },
            *final(self) == *old(self),
    {
        match e {
            ConnectionEvent::Connected(path) => NetworkRequest::WatchSsidAndStrength(path),
            ConnectionEvent::Disconnected => NetworkRequest::UnwatchSsidAndStrength,
        }
    }

    /// What one report of NetworkManager leads to: the requests to send and,
    /// for a new name or strength, the pair to show.
    pub fn handle(&mut self, input: NetworkInput) -> (r: (Vec<NetworkRequest>, Option<(String, u8)>))
        ensures
            net_requests_model(r.0@) == spec_handle_requests(
                match old(self).wireless_connection.path {
                    Some(p) => Some(p@),
                    None => None,
                },
                input,
            ),
            match input {
                NetworkInput::SsidAndStrength { ssid, strength } => {
                    let (next, told) = spec_on_ssid_and_strength(
                        ssid_state_model(old(self).ssid_and_strength),
                        match ssid {
                            Some(x) => Some(x@),
                            None => None,
                        },
                        strength,
                    );
                    &&& ssid_state_model(final(self).ssid_and_strength) == next
                    &&& match r.1 {
                        Some((s, n)) => told == Some((s@, n)),
                        None => told is None,
                    }
                },
                _ => {
                    &&& r.1 is None
                    &&& final(self).ssid_and_strength == old(self).ssid_and_strength
                },
            },
            wireless_model(final(self).wireless_connection) == match input {
                NetworkInput::PrimaryConnection(p) => spec_wireless_on_connection(
                    if p@ == "/"@ {
                        None
                    } else {
                        Some(p@)
                    },
                ),
                NetworkInput::ActiveConnectionType(t) => spec_wireless_on_type(wireless_model(old(self).wireless_connection), t@),
                _ => wireless_model(old(self).wireless_connection),
            },
            match input {
                NetworkInput::PrimaryDevice(_) => {
                    &&& final(self).speed.tx == OneWaySpeed::Uninitialized
                    &&& final(self).speed.rx == OneWaySpeed::Uninitialized
                },
                _ => final(self).speed == old(self).speed,
            },
    {
        let mut reqs: Vec<NetworkRequest> = Vec::new();
        match input {
            NetworkInput::PrimaryConnection(path) => {
                let e = ConnectionEvent::from_path(path.as_str());
                let (w, req) = self.wireless_connection.on_primary_connection_event(e);
                reqs.push(req);
                if let Some(w) = w {
                    reqs.push(self.on_wireless_connection_event(w));
                }
                assert(net_requests_model(reqs@) =~= seq![net_request_model(reqs@[0])] + (if reqs@.len() == 2 { seq![net_request_model(reqs@[1])] } else { Seq::empty() }));
                (reqs, None)
            },
            NetworkInput::ActiveConnectionType(type_) => {
                if let Some(w) = self.wireless_connection.on_active_connection_type_received(type_.as_str()) {
                    reqs.push(self.on_wireless_connection_event(w));
                }
                assert(net_requests_model(reqs@) =~= (if reqs@.len() == 1 { seq![net_request_model(reqs@[0])] } else { Seq::empty() }));
                (reqs, None)
            },
            NetworkInput::PrimaryDevice(path) => {
                let e = ConnectionEvent::from_path(path.as_str());
                let reqs = self.on_primary_device_event(e);
                assert(net_requests_model(reqs@) =~= seq![net_request_model(reqs@[0]), net_request_model(reqs@[1])]);
                (reqs, None)
            },
            NetworkInput::ActiveAccessPoint(path) => {
                let e = ConnectionEvent::from_path(path.as_str());
                reqs.push(self.on_active_access_point_event(e));
                assert(net_requests_model(reqs@) =~= seq![net_request_model(reqs@[0])]);
                (reqs, None)
            },
            NetworkInput::SsidAndStrength { ssid, strength } => {
                let told = self.ssid_and_strength.on_ssid_and_strength_event(ssid, strength);
                assert(net_requests_model(reqs@) =~= Seq::<(int, Option<Seq<char>>)>::empty());
                (reqs, told)
            },
        }
    }
}

} // verus!
