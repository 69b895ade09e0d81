//! What the bar keeps of the PipeWire graph to find the default output
//! device and its route, and the readings of the graph's properties that
//! feed it.
use vstd::prelude::*;
use std::collections::HashMap;
use vstd::string::StringExecFns;
use crate::text::str_eq;

verus! {

broadcast use vstd::std_specs::hash::group_hash_axioms;

/// The objects of the PipeWire graph that the bar holds on to, and how the
/// default output leads to a device and its route. `N`, `M`, `D` and `L`
/// are the node, metadata, device and listener handles of the PipeWire
/// client, which the store only holds.
pub struct Store<N, M, D, L> {
    pub default_sink_name: Option<String>,
    pub nodes: HashMap<u32, N>,
    pub meta: HashMap<u32, M>,
    pub devices: HashMap<u32, D>,
    pub listeners: HashMap<u32, Vec<L>>,
    /// The sinks by name; the last registration of a name counts.
    pub sink_name_to_sink_id: Vec<(String, u32)>,
    pub sink_id_to_device_id: HashMap<u32, u32>,
    pub device_id_to_route: HashMap<u32, (i32, i32)>,
}

/// The sink registered last under `name`, searching `s` from its end.
pub open spec fn sink_id_of(s: Seq<(String, u32)>, name: Seq<char>) -> Option<u32>
    decreases s.len(),
{
    if s.len() == 0 {
        None
    } else if s.last().0@ == name {
        Some(s.last().1)
    } else {
        sink_id_of(s.drop_last(), name)
    }
}

impl<N, M, D, L> Store<N, M, D, L> {
    /// The default device and its route: the default sink's name leads to
    /// the sink, the sink to its device, and the device to its route; all
    /// must be known.
    pub open spec fn spec_default_device(&self) -> Option<(D, (i32, i32))> {
        match self.default_sink_name {
            None => None,
            Some(name) => match sink_id_of(self.sink_name_to_sink_id@, name@) {
                None => None,
                Some(sink_id) => if !self.sink_id_to_device_id@.contains_key(sink_id) {
                    None
                } else {
                    let device_id = self.sink_id_to_device_id@[sink_id];
                    if !self.devices@.contains_key(device_id) || !self.device_id_to_route@.contains_key(device_id) {
                        None
                    } else {
                        Some((self.devices@[device_id], self.device_id_to_route@[device_id]))
                    }
                },
            },
        }
    }

    /// An empty store.
    pub fn new() -> (s: Self)
        ensures
            s.default_sink_name is None,
            s.nodes@ == Map::<u32, N>::empty(),
            s.meta@ == Map::<u32, M>::empty(),
            s.devices@ == Map::<u32, D>::empty(),
            s.listeners@ == Map::<u32, Vec<L>>::empty(),
            s.sink_name_to_sink_id@.len() == 0,
            s.sink_id_to_device_id@ == Map::<u32, u32>::empty(),
            s.device_id_to_route@ == Map::<u32, (i32, i32)>::empty(),
    {
        Store {
            default_sink_name: None,
            nodes: HashMap::new(),
            meta: HashMap::new(),
            devices: HashMap::new(),
            listeners: HashMap::new(),
            sink_name_to_sink_id: Vec::new(),
            sink_id_to_device_id: HashMap::new(),
            device_id_to_route: HashMap::new(),
        }
    }

    /// Keeps a metadata object.
    pub fn register_meta(&mut self, id: u32, meta: M)
        ensures
            final(self).meta@ == old(self).meta@.insert(id, meta),
            final(self).default_sink_name == old(self).default_sink_name,
            final(self).nodes@ == old(self).nodes@,
            final(self).devices@ == old(self).devices@,
            final(self).listeners@ == old(self).listeners@,
            final(self).sink_name_to_sink_id@ == old(self).sink_name_to_sink_id@,
            final(self).sink_id_to_device_id@ == old(self).sink_id_to_device_id@,
            final(self).device_id_to_route@ == old(self).device_id_to_route@,
    {
        self.meta.insert(id, meta);
    }

    /// Keeps a device.
    pub fn register_device(&mut self, id: u32, device: D)
        ensures
            final(self).devices@ == old(self).devices@.insert(id, device),
            final(self).default_sink_name == old(self).default_sink_name,
            final(self).nodes@ == old(self).nodes@,
            final(self).meta@ == old(self).meta@,
            final(self).listeners@ == old(self).listeners@,
            final(self).sink_name_to_sink_id@ == old(self).sink_name_to_sink_id@,
            final(self).sink_id_to_device_id@ == old(self).sink_id_to_device_id@,
            final(self).device_id_to_route@ == old(self).device_id_to_route@,
    {
        self.devices.insert(id, device);
    }

    /// Keeps a listener of the object `id`, after the ones it has.
    pub fn register_listener(&mut self, id: u32, listener: L)
        ensures
            final(self).listeners@.contains_key(id),
            final(self).listeners@[id]@ == (if old(self).listeners@.contains_key(id) {
                old(self).listeners@[id]@
            } else {
                Seq::<L>::empty()
            }).push(listener),
            forall|k: u32| k != id ==> #[trigger] final(self).listeners@.contains_key(k) == old(self).listeners@.contains_key(k),
            forall|k: u32| k != id && old(self).listeners@.contains_key(k) ==> #[trigger] final(self).listeners@[k] == old(self).listeners@[k],
            final(self).default_sink_name == old(self).default_sink_name,
            final(self).nodes@ == old(self).nodes@,
            final(self).meta@ == old(self).meta@,
            final(self).devices@ == old(self).devices@,
            final(self).sink_name_to_sink_id@ == old(self).sink_name_to_sink_id@,
            final(self).sink_id_to_device_id@ == old(self).sink_id_to_device_id@,
            final(self).device_id_to_route@ == old(self).device_id_to_route@,
    {
        let mut list = match self.listeners.remove(&id) {
            Some(l) => l,
            None => Vec::new(),
        };
        list.push(listener);
        self.listeners.insert(id, list);
    }

    /// Keeps a sink: the node, its name and its device.
    pub fn register_sink(&mut self, sink_id: u32, name: &str, device_id: u32, sink: N)
        ensures
            final(self).nodes@ == old(self).nodes@.insert(sink_id, sink),
            sink_id_of(final(self).sink_name_to_sink_id@, name@) == Some(sink_id),
            forall|other: Seq<char>| other != name@ ==> #[trigger] sink_id_of(final(self).sink_name_to_sink_id@, other)
                == sink_id_of(old(self).sink_name_to_sink_id@, other),
            final(self).sink_id_to_device_id@ == old(self).sink_id_to_device_id@.insert(sink_id, device_id),
            final(self).default_sink_name == old(self).default_sink_name,
            final(self).meta@ == old(self).meta@,
            final(self).devices@ == old(self).devices@,
            final(self).listeners@ == old(self).listeners@,
            final(self).device_id_to_route@ == old(self).device_id_to_route@,
    {
        self.nodes.insert(sink_id, sink);
        let ghost before = self.sink_name_to_sink_id@;
        self.sink_name_to_sink_id.push((String::from_str(name), sink_id));
        proof {
            assert(self.sink_name_to_sink_id@.drop_last() =~= before);
        }
        self.sink_id_to_device_id.insert(sink_id, device_id);
    }

    /// Records the name of the default sink.
    pub fn register_default_sink_name(&mut self, name: String)
        ensures
            final(self).default_sink_name == Some(name),
            final(self).nodes@ == old(self).nodes@,
            final(self).meta@ == old(self).meta@,
            final(self).devices@ == old(self).devices@,
            final(self).listeners@ == old(self).listeners@,
            final(self).sink_name_to_sink_id@ == old(self).sink_name_to_sink_id@,
            final(self).sink_id_to_device_id@ == old(self).sink_id_to_device_id@,
            final(self).device_id_to_route@ == old(self).device_id_to_route@,
    {
        self.default_sink_name = Some(name);
    }

    /// Records the route of a device.
    pub fn register_route(&mut self, device_id: u32, route: (i32, i32))
        ensures
            final(self).device_id_to_route@ == old(self).device_id_to_route@.insert(device_id, route),
            final(self).default_sink_name == old(self).default_sink_name,
            final(self).nodes@ == old(self).nodes@,
            final(self).meta@ == old(self).meta@,
            final(self).devices@ == old(self).devices@,
            final(self).listeners@ == old(self).listeners@,
            final(self).sink_name_to_sink_id@ == old(self).sink_name_to_sink_id@,
            final(self).sink_id_to_device_id@ == old(self).sink_id_to_device_id@,
    {
        self.device_id_to_route.insert(device_id, route);
    }

    /// The default device and its route, as `spec_default_device` says.
    pub fn default_device(&self) -> (r: Option<(&D, (i32, i32))>)
        ensures
            match r {
                Some((d, route)) => self.spec_default_device() == Some((*d, route)),
                None => self.spec_default_device() is None,
            },
    {
        let name = match &self.default_sink_name {
            Some(n) => n,
            None => return None,
        };
        let mut i = self.sink_name_to_sink_id.len();
        let ghost s = self.sink_name_to_sink_id@;
        assert(s.subrange(0, s.len() as int) =~= s);
        while i > 0
            invariant
                i <= s.len(),
                self.default_sink_name == Some(*name),
                s == self.sink_name_to_sink_id@,
                sink_id_of(s, name@) == sink_id_of(s.subrange(0, i as int), name@),
            decreases i,
        {
            let ghost pre = s.subrange(0, i as int);
            assert(pre.drop_last() =~= s.subrange(0, i - 1));
            if str_eq(self.sink_name_to_sink_id[i - 1].0.as_str(), name.as_str()) {
                let sink_id = self.sink_name_to_sink_id[i - 1].1;
                let device_id = match self.sink_id_to_device_id.get(&sink_id) {
                    Some(d) => *d,
                    None => return None,
                };
                let device = match self.devices.get(&device_id) {
                    Some(d) => d,
                    None => return None,
                };
                let route = match self.device_id_to_route.get(&device_id) {
                    Some(r) => *r,
                    None => return None,
                };
                return Some((device, route));
            }
            i -= 1;
        }
        assert(s.subrange(0, 0) =~= Seq::<(String, u32)>::empty());
        None
    }

    /// Forgets the object `id`.
    pub fn remove(&mut self, id: u32)
        ensures
            final(self).devices@ == old(self).devices@.remove(id),
            final(self).meta@ == old(self).meta@.remove(id),
            final(self).nodes@ == old(self).nodes@.remove(id),
            final(self).listeners@ == old(self).listeners@.remove(id),
            final(self).default_sink_name == old(self).default_sink_name,
            final(self).sink_name_to_sink_id@ == old(self).sink_name_to_sink_id@,
            final(self).sink_id_to_device_id@ == old(self).sink_id_to_device_id@,
            final(self).device_id_to_route@ == old(self).device_id_to_route@,
    {
        self.devices.remove(&id);
        self.meta.remove(&id);
        self.nodes.remove(&id);
        self.listeners.remove(&id);
    }
}

/// A property value of a PipeWire object that the bar reads: an integer, a
/// flag, or anything else.
#[derive(Debug, Clone, Copy, PartialEq, Eq, Structural)]
pub enum PodValue {
    Int(i32),
    Bool(bool),
    Other,
}

/// The key of the index of a route.
pub const SPA_PARAM_ROUTE_INDEX: u32 = 1;

/// The key of the device of a route.
pub const SPA_PARAM_ROUTE_DEVICE: u32 = 3;

/// Why a route could not be read.
#[derive(Debug, Clone, Copy, PartialEq, Eq, Structural)]
pub enum RouteError {
    /// The index or the device is not an integer.
    NotAnInt,
    /// The route has no index.
    NoIndex,
    /// The route has no device.
    NoDevice,
}

/// The route that a `Route` object's properties describe: the last index
/// and the last device among them, both integers.
pub open spec fn spec_route_from(props: Seq<(u32, PodValue)>, i: int, index: Option<i32>, device: Option<i32>) -> Result<(i32, i32), RouteError>
    decreases props.len() - i,
{
    if i < 0 || i >= props.len() {
        match (index, device) {
            (None, _) => Err(RouteError::NoIndex),
            (_, None) => Err(RouteError::NoDevice),
            (Some(x), Some(d)) => Ok((x, d)),
        }
    } else {
        let (key, value) = props[i];
        if key == SPA_PARAM_ROUTE_INDEX && !(value is Int) {
            Err(RouteError::NotAnInt)
        } else {
            let index2 = if key == SPA_PARAM_ROUTE_INDEX { Some(value->Int_0) } else { index };
            if key == SPA_PARAM_ROUTE_DEVICE && !(value is Int) {
                Err(RouteError::NotAnInt)
            } else {
                let device2 = if key == SPA_PARAM_ROUTE_DEVICE { Some(value->Int_0) } else { device };
                spec_route_from(props, i + 1, index2, device2)
            }
        }
    }
}

/// Reads a route from the properties of a `Route` object, as
/// `spec_route_from` says.
pub fn route_changed(props: &Vec<(u32, PodValue)>) -> (r: Result<(i32, i32), RouteError>)
    ensures
        r == spec_route_from(props@, 0, None, None),
{
    let mut index: Option<i32> = None;
    let mut device: Option<i32> = None;
    let mut i: usize = 0;
    while i < props.len()
        invariant
            i <= props@.len(),
            spec_route_from(props@, 0, None, None) == spec_route_from(props@, i as int, index, device),
        decreases props@.len() - i,
    {
        let (key, value) = props[i];
        if key == SPA_PARAM_ROUTE_INDEX {
            match value {
                PodValue::Int(n) => index = Some(n),
                _ => return Err(RouteError::NotAnInt),
            }
        }
        if key == SPA_PARAM_ROUTE_DEVICE {
            match value {
                PodValue::Int(n) => device = Some(n),
                _ => return Err(RouteError::NotAnInt),
            }
        }
        i += 1;
    }
    match (index, device) {
        (None, _) => Err(RouteError::NoIndex),
        (_, None) => Err(RouteError::NoDevice),
        (Some(x), Some(d)) => Ok((x, d)),
    }
}

/// Whether a metadata object is the default one: its `metadata.name`
/// property is `default`.
pub fn is_default(metadata_name: Option<&str>) -> (r: bool)
    ensures
        r == (metadata_name matches Some(n) && n@ == "default"@),
{
    match metadata_name {
        Some(n) => str_eq(n, "default"),
        None => false,
    }
}

/// The member `key` of the JSON object `text`, when `text` is such an
/// object and the member is a string; what `serde_json` reads.
pub uninterp spec fn json_string_member(text: Seq<char>, key: Seq<char>) -> Option<Seq<char>>;

/// Reads the string member `key` of a JSON object (`serde_json::from_str`
/// into a `serde_json::Value`, then `get(key)` and `as_str`). The result is
/// named, not stated: it is whatever `serde_json` finds in the text.
#[verifier::external_body]
fn json_string(text: &str, key: &str) -> (r: Option<String>)
    ensures
        match r {
            Some(s) => json_string_member(text@, key@) == Some(s@),
            None => json_string_member(text@, key@) is None,
        },
{
    serde_json::from_str::<serde_json::Value>(text).ok()?.get(key)?.as_str().map(String::from)
}

/// The name of the new default output that a metadata change gives: the key
/// must be `default.audio.sink` and the value a JSON object with a string
/// `name`.
pub fn parse_audio_sink_changed(key: Option<&str>, value: Option<&str>) -> (r: Option<String>)
    ensures
        match (key, value) {
            (Some(k), Some(v)) => if k@ == "default.audio.sink"@ {
                match r {
                    Some(n) => json_string_member(v@, "name"@) == Some(n@),
                    None => json_string_member(v@, "name"@) is None,
                }
            } else {
                r is None
            },
            _ => r is None,
        },
{
    match (key, value) {
        (Some(k), Some(v)) => {
            if str_eq(k, "default.audio.sink") {
                json_string(v, "name")
            } else {
                None
            }
        },
        _ => None,
    }
}

/// A change of a metadata property: a new default output is recorded in the
/// store.
pub fn on_metadata_change<N, M, D, L>(store: &mut Store<N, M, D, L>, key: &str, value: &str) -> (r: i32)
    ensures
        r == 0,
        final(store).devices@ == old(store).devices@,
        final(store).nodes@ == old(store).nodes@,
        final(store).meta@ == old(store).meta@,
        final(store).listeners@ == old(store).listeners@,
        final(store).sink_name_to_sink_id@ == old(store).sink_name_to_sink_id@,
        final(store).sink_id_to_device_id@ == old(store).sink_id_to_device_id@,
        final(store).device_id_to_route@ == old(store).device_id_to_route@,
        key@ == "default.audio.sink"@ && json_string_member(value@, "name"@) is Some ==> (final(store).default_sink_name matches Some(n)
            && Some(n@) == json_string_member(value@, "name"@)),
        !(key@ == "default.audio.sink"@ && json_string_member(value@, "name"@) is Some) ==> final(store).default_sink_name
            == old(store).default_sink_name,
{
    if let Some(name) = parse_audio_sink_changed(Some(key), Some(value)) {
        store.register_default_sink_name(name);
    }
    0
}

} // verus!
