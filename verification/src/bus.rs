//! Where the session and system buses listen: the socket path read from a
//! bus address such as `unix:path=/run/user/1000/bus`.
use vstd::prelude::*;

verus! {

/// The place of the first `=` in `s` at or after `i`, if any.
pub open spec fn find_eq_from(s: Seq<u8>, i: int) -> Option<int>
    decreases s.len() - i,
{
    if i < 0 || i >= s.len() {
        None
    } else if s[i] == 61 {
        Some(i)
    } else {
        find_eq_from(s, i + 1)
    }
}

/// The second of the `=`-separated pieces of an address: what lies between
/// its first `=` and the next one (or the end); `None` when there is no `=`.
pub open spec fn spec_address_path(s: Seq<u8>) -> Option<Seq<u8>> {
    match find_eq_from(s, 0) {
        None => None,
        Some(k) => match find_eq_from(s, k + 1) {
            None => Some(s.subrange(k + 1, s.len() as int)),
            Some(j) => Some(s.subrange(k + 1, j)),
        },
    }
}

/// Finds the first `=` at or after `i`.
fn find_eq(s: &[u8], i: usize) -> (r: Option<usize>)
    requires
        i <= s@.len(),
    ensures
        match r {
            Some(k) => find_eq_from(s@, i as int) == Some(k as int) && i <= k < s.len(),
            None => find_eq_from(s@, i as int) is None,
        },
{
    let mut j = i;
    while j < s.len()
        invariant
            i <= j <= s@.len(),
            find_eq_from(s@, i as int) == find_eq_from(s@, j as int),
        decreases s@.len() - j,
    {
        if s[j] == 61 {
            return Some(j);
        }
        j += 1;
    }
    None
}

/// The socket path of a bus address, as `spec_address_path` says.
pub fn address_path(address: &[u8]) -> (r: Option<&[u8]>)
    ensures
        match r {
            Some(p) => spec_address_path(address@) == Some(p@),
            None => spec_address_path(address@) is None,
        },
{
    let k = match find_eq(address, 0) {
        Some(k) => k,
        None => return None,
    };
    match find_eq(address, k + 1) {
        None => Some(vstd::slice::slice_subrange(address, k + 1, address.len())),
        Some(j) => Some(vstd::slice::slice_subrange(address, k + 1, j)),
    }
}

/// The stage of a connection to a bus. A fresh connection has yet to open
/// its socket.
#[derive(Debug, Clone, Copy, PartialEq, Eq, Structural)]
pub enum DBusState {
    CanSocket,
}

/// The session bus.
#[derive(Debug, Clone, Copy)]
pub struct SessionDBus {
    pub state: DBusState,
}

impl SessionDBus {
    /// A connection that has yet to open its socket.
    pub fn new() -> (b: SessionDBus)
        ensures
            b.state == DBusState::CanSocket,
    {
        SessionDBus { state: DBusState::CanSocket }
    }

    /// The socket path of the session bus, read from the value of
    /// `$DBUS_SESSION_BUS_ADDRESS`; a value without `=` is malformed.
    pub fn address(value: &[u8]) -> (r: Option<&[u8]>)
        ensures
            match r {
                Some(p) => spec_address_path(value@) == Some(p@),
                None => spec_address_path(value@) is None,
            },
    {
        address_path(value)
    }
}

/// Where the system bus listens when `$DBUS_SYSTEM_BUS_ADDRESS` is not set.
pub open spec fn default_system_bus_path() -> Seq<u8> {
    seq![
        47u8, 118, 97, 114, 47, 114, 117, 110, 47, 100, 98, 117, 115, 47, 115, 121, 115, 116, 101, 109, 95, 98,
        117, 115, 95, 115, 111, 99, 107, 101, 116,
    ]
}

/// The system bus.
#[derive(Debug, Clone, Copy)]
pub struct SystemDBus {
    pub state: DBusState,
}

impl SystemDBus {
    /// A connection that has yet to open its socket.
    pub fn new() -> (b: SystemDBus)
        ensures
            b.state == DBusState::CanSocket,
    {
        SystemDBus { state: DBusState::CanSocket }
    }

    /// The socket path of the system bus: read from the value of
    /// `$DBUS_SYSTEM_BUS_ADDRESS` when it is set (a value without `=` is
    /// malformed), else `/var/run/dbus/system_bus_socket`.
    pub fn address(value: Option<&[u8]>) -> (r: Option<&[u8]>)
        ensures
            match value {
                Some(v) => match r {
                    Some(p) => spec_address_path(v@) == Some(p@),
                    None => spec_address_path(v@) is None,
                },
                None => r matches Some(p) && p@ == default_system_bus_path(),
            },
    {
        match value {
            Some(v) => address_path(v),
            None => {
                let p: &'static [u8] = &[
                    47u8, 118, 97, 114, 47, 114, 117, 110, 47, 100, 98, 117, 115, 47, 115, 121, 115, 116, 101,
                    109, 95, 98, 117, 115, 95, 115, 111, 99, 107, 101, 116,
                ];
                assert(p@ =~= default_system_bus_path());
                Some(p)
            },
        }
    }
}

} // verus!
