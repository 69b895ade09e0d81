//! The tray host: the applications it knows, what it learns of them from
//! the bus, and the events it gives the bar.
use vstd::prelude::*;
use vstd::string::StringExecFns;
use crate::dbus::{parse_name_owner_changed, signal_match_rule, spec_name_owner_changed, spec_signal_match_rule, DBusError, IncomingMessage};
use crate::dbusmenu::{items_model, spec_uuid_decode, TrayItem, TrayItemModel, UUID};
use crate::ksni::{icon_model, TrayIcon, TrayIconModel};
use crate::sni_app::{
    app_model, event_model, request_model, items_updated_rule, EncodeError, layout_updated_rule, new_icon_rule, property_model, requests_model,
    handle_safe, spec_handle, App, AppModel, AppRequest, AppRequestModel, PropertyModel, PropertyValue, Service, StateModel,
    TrayEvent, TrayEventModel,
};
use crate::text::str_eq;
use crate::watcher::{
    introspection_model, is_answer, spec_introspection_answer, spec_ksni_request, IntrospectionRequest,
    IntrospectionRequestModel, KSNIRequest, KSNIRequestModel, OutgoingMessage, StatusNotifierWatcher,
    StatusNotifierWatcherIntrospection,
};

verus! {

/// A tray entry as the bar lists it, known by its identifier.
#[derive(Debug)]
pub struct Item {
    pub id: String,
}

/// The tray entries the bar lists, each with what it shows of it. No two
/// entries share an identifier.
pub struct State<A> {
    entries: Vec<(Item, A)>,
}

/// Whether no two entries of `s` share an identifier.
pub open spec fn ids_unique<A>(s: Seq<(Seq<char>, A)>) -> bool {
    forall|i: int, j: int| 0 <= i < j < s.len() ==> #[trigger] s[i].0 != #[trigger] s[j].0
}

/// The entries after adding `app` under `id`: in place of the entry with
/// that identifier, or appended.
pub open spec fn spec_app_added<A>(s: Seq<(Seq<char>, A)>, id: Seq<char>, app: A) -> Seq<(Seq<char>, A)> {
    if has_id(s, id) {
        let k = choose|k: int| 0 <= k < s.len() && s[k].0 == id;
        s.update(k, (id, app))
    } else {
        s.push((id, app))
    }
}

/// The entries after removing the one with the identifier `id`, if any.
pub open spec fn spec_app_removed<A>(s: Seq<(Seq<char>, A)>, id: Seq<char>) -> Seq<(Seq<char>, A)> {
    if has_id(s, id) {
        let k = choose|k: int| 0 <= k < s.len() && s[k].0 == id;
        s.remove(k)
    } else {
        s
    }
}

/// An added entry is found by its identifier afterwards, and what it shows
/// is what was added.
pub proof fn lemma_added_is_found<A>(s: Seq<(Seq<char>, A)>, id: Seq<char>, app: A)
    requires
        ids_unique(s),
    ensures
        has_id(spec_app_added(s, id, app), id),
        ids_unique(spec_app_added(s, id, app)),
        forall|i: int| 0 <= i < spec_app_added(s, id, app).len() && #[trigger] spec_app_added(s, id, app)[i].0 == id
            ==> spec_app_added(s, id, app)[i].1 == app,
{
    let t = spec_app_added(s, id, app);
    if has_id(s, id) {
        let k = choose|k: int| 0 <= k < s.len() && s[k].0 == id;
        assert(t[k].0 == id);
        assert forall|i: int, j: int| 0 <= i < j < t.len() implies #[trigger] t[i].0 != #[trigger] t[j].0 by {
            assert(t[i].0 == s[i].0 && t[j].0 == s[j].0);
        }
        assert forall|i: int| 0 <= i < t.len() && #[trigger] t[i].0 == id implies t[i].1 == app by {
            if i != k {
                assert(s[i].0 == id);
            }
        }
    } else {
        assert(t[s.len() as int].0 == id);
        assert forall|i: int, j: int| 0 <= i < j < t.len() implies #[trigger] t[i].0 != #[trigger] t[j].0 by {
            if j < s.len() {
                assert(t[i].0 == s[i].0 && t[j].0 == s[j].0);
            } else {
                assert(t[i].0 == s[i].0);
            }
        }
    }
}

/// A removed entry is not found afterwards, and the others stay.
pub proof fn lemma_removed_is_gone<A>(s: Seq<(Seq<char>, A)>, id: Seq<char>, other: Seq<char>)
    requires
        ids_unique(s),
        other != id,
    ensures
        !has_id(spec_app_removed(s, id), id),
        has_id(spec_app_removed(s, id), other) == has_id(s, other),
{
    let t = spec_app_removed(s, id);
    if has_id(s, id) {
        let k = choose|k: int| 0 <= k < s.len() && s[k].0 == id;
        if has_id(t, id) {
            let i = choose|i: int| 0 <= i < t.len() && t[i].0 == id;
            if i < k {
                assert(s[i].0 == id);
            } else {
                assert(s[i + 1].0 == id);
            }
        }
        if has_id(s, other) {
            let i = choose|i: int| 0 <= i < s.len() && s[i].0 == other;
            if i < k {
                assert(t[i].0 == other);
            } else {
                assert(i != k);
                assert(t[i - 1].0 == other);
            }
        }
        if has_id(t, other) {
            let i = choose|i: int| 0 <= i < t.len() && t[i].0 == other;
            if i < k {
                assert(s[i].0 == other);
            } else {
                assert(s[i + 1].0 == other);
            }
        }
    }
}

/// The entries with the identifier `id`.
pub open spec fn has_id<A>(s: Seq<(Seq<char>, A)>, id: Seq<char>) -> bool {
    exists|i: int| 0 <= i < s.len() && #[trigger] s[i].0 == id
}

impl<A> View for State<A> {
    type V = Seq<(Seq<char>, A)>;

    closed spec fn view(&self) -> Seq<(Seq<char>, A)> {
        self.entries@.map_values(|e: (Item, A)| (e.0.id@, e.1))
    }
}

impl<A> State<A> {
    #[verifier::type_invariant]
    spec fn inv(&self) -> bool {
        ids_unique(self@)
    }
}

impl<A: Clone> State<A> {
    /// No entry.
    pub fn new() -> (s: Self)
        ensures
            s@.len() == 0,
    {
        let s = State { entries: Vec::new() };
        assert(s@ =~= Seq::<(Seq<char>, A)>::empty());
        s
    }

    /// Adds `app` under `item`, in place of the entry with the same
    /// identifier if there is one, and returns the list the bar shows.
    pub fn app_added(&mut self, item: Item, app: A) -> (list: Vec<A>)
        ensures
            final(self)@ == spec_app_added(old(self)@, item.id@, app),
            list@.len() == final(self)@.len(),
            forall|i: int| 0 <= i < list@.len() ==> cloned(final(self)@[i].1, #[trigger] list@[i]),
    {
        proof {
            use_type_invariant(&*self);
        }
        let mut entries: Vec<(Item, A)> = Vec::new();
        core::mem::swap(&mut entries, &mut self.entries);
        let ghost start = entries@.map_values(|e: (Item, A)| (e.0.id@, e.1));
        assert(start == old(self)@);
        let mut i: usize = 0;
        let mut found = false;
        while i < entries.len()
            invariant_except_break
                !found,
            invariant
                i <= entries@.len(),
                entries@.map_values(|e: (Item, A)| (e.0.id@, e.1)) == start,
                ids_unique(start),
                forall|j: int| 0 <= j < i ==> start[j].0 != item.id@,
            ensures
                found ==> i < entries@.len() && start[i as int].0 == item.id@,
                !found ==> i == entries@.len(),
            decreases entries@.len() - i,
        {
            if str_eq(entries[i].0.id.as_str(), item.id.as_str()) {
                found = true;
                break;
            }
            i += 1;
        }
        let ghost key = item.id@;
        if found {
            let _old_entry = entries.remove(i);
            entries.insert(i, (item, app));
            proof {
                assert(entries@.map_values(|e: (Item, A)| (e.0.id@, e.1)) =~= start.update(i as int, (key, app)));
                let c = choose|c: int| 0 <= c < start.len() && start[c].0 == key;
                assert(c == i);
            }
        } else {
            entries.push((item, app));
            proof {
                assert(!has_id(start, key));
                assert(entries@.map_values(|e: (Item, A)| (e.0.id@, e.1)) =~= start.push((key, app)));
            }
        }
        self.entries = entries;
        self.as_event()
    }

    /// Removes the entry with the identifier `id`, if there is one, and
    /// returns the list the bar shows.
    pub fn app_removed(&mut self, id: String) -> (list: Vec<A>)
        ensures
            final(self)@ == spec_app_removed(old(self)@, id@),
            list@.len() == final(self)@.len(),
            forall|i: int| 0 <= i < list@.len() ==> cloned(final(self)@[i].1, #[trigger] list@[i]),
    {
        proof {
            use_type_invariant(&*self);
        }
        let mut entries: Vec<(Item, A)> = Vec::new();
        core::mem::swap(&mut entries, &mut self.entries);
        let ghost start = entries@.map_values(|e: (Item, A)| (e.0.id@, e.1));
        assert(start == old(self)@);
        let mut i: usize = 0;
        let mut found = false;
        while i < entries.len()
            invariant_except_break
                !found,
            invariant
                i <= entries@.len(),
                entries@.map_values(|e: (Item, A)| (e.0.id@, e.1)) == start,
                ids_unique(start),
                forall|j: int| 0 <= j < i ==> start[j].0 != id@,
            ensures
                found ==> i < entries@.len() && start[i as int].0 == id@,
                !found ==> i == entries@.len(),
            decreases entries@.len() - i,
        {
            if str_eq(entries[i].0.id.as_str(), id.as_str()) {
                found = true;
                break;
            }
            i += 1;
        }
        if found {
            let _gone = entries.remove(i);
            proof {
                assert(entries@.map_values(|e: (Item, A)| (e.0.id@, e.1)) =~= start.remove(i as int));
                let c = choose|c: int| 0 <= c < start.len() && start[c].0 == id@;
                assert(c == i);
            }
        }
        self.entries = entries;
        self.as_event()
    }

    /// The list the bar shows: what each entry shows, in order.
    pub fn as_event(&self) -> (list: Vec<A>)
        ensures
            list@.len() == self@.len(),
            forall|i: int| 0 <= i < list@.len() ==> cloned(self@[i].1, #[trigger] list@[i]),
    {
        let mut list: Vec<A> = Vec::new();
        let mut i: usize = 0;
        while i < self.entries.len()
            invariant
                i <= self.entries@.len(),
                list@.len() == i,
                forall|j: int| 0 <= j < i ==> cloned(self@[j].1, #[trigger] list@[j]),
            decreases self.entries@.len() - i,
        {
            list.push(self.entries[i].1.clone());
            i += 1;
        }
        list
    }

    /// The entry with the identifier `id`, if any.
    pub fn find(&self, id: &str) -> (r: Option<&Item>)
        ensures
            match r {
                Some(item) => item.id@ == id@ && has_id(self@, id@),
                None => !has_id(self@, id@),
            },
    {
        let mut i: usize = 0;
        while i < self.entries.len()
            invariant
                i <= self.entries@.len(),
                forall|j: int| 0 <= j < i ==> self@[j].0 != id@,
            decreases self.entries@.len() - i,
        {
            if str_eq(self.entries[i].0.id.as_str(), id) {
                assert(self@[i as int].0 == id@);
                return Some(&self.entries[i].0);
            }
            i += 1;
        }
        None
    }
}

/// Whether `m` is the empty answer to the call `serial` of `sender`.
pub open spec fn is_ack(m: OutgoingMessage, serial: u32, sender: Seq<char>) -> bool {
    m matches OutgoingMessage::MethodReturn { reply_serial, destination, body } && reply_serial == serial
        && destination@ == sender && body@.len() == 0
}

/// What the watcher does with a message: a standard request about its
/// objects is answered; a method call to it is acknowledged and, when it
/// registers an item, gives the application (its sender's address and the
/// item's name); anything else is left alone.
pub open spec fn watcher_outcome(
    m: IncomingMessage,
    introspection: Option<(u32, Seq<char>, IntrospectionRequestModel)>,
    r: (Option<(Seq<char>, Seq<char>)>, Option<OutgoingMessage>),
) -> bool {
    match introspection {
        Some((serial, sender, req)) => r.0 is None && r.1 is Some && is_answer(
            r.1.unwrap(),
            serial,
            sender,
            spec_introspection_answer(req),
        ),
        None => match spec_ksni_request(m) {
            Ok((serial, sender, KSNIRequestModel::NewItem { address })) => r.0 == Some((sender, address))
                && r.1 is Some && is_ack(r.1.unwrap(), serial, sender),
            Ok((serial, sender, KSNIRequestModel::Other)) => r.0 is None && r.1 is Some && is_ack(
                r.1.unwrap(),
                serial,
                sender,
            ),
            Err(_) => r.0 is None && r.1 is None,
        },
    }
}

/// The model of the standard request that accompanies a message.
pub open spec fn intro_model(i: Option<(u32, String, IntrospectionRequest)>) -> Option<(u32, Seq<char>, IntrospectionRequestModel)> {
    match i {
        Some((serial, sender, req)) => Some((serial, sender@, introspection_model(req))),
        None => None,
    }
}

/// The addresses of a service.
pub open spec fn service_model(s: Option<Service>) -> Option<(Seq<char>, Seq<char>)> {
    match s {
        Some(s) => Some((s.spec_raw_address(), s.spec_name())),
        None => None,
    }
}

/// Handles a message to the watcher, as `watcher_outcome` says.
/// `introspection` is the standard request that the message makes, if any.
pub fn handle_incoming_request(message: &IncomingMessage, introspection: Option<(u32, String, IntrospectionRequest)>) -> (r: (
    Option<Service>,
    Option<OutgoingMessage>,
))
    ensures
        watcher_outcome(*message, intro_model(introspection), (service_model(r.0), r.1)),
{
    if introspection.is_some() {
        let mut answerer = StatusNotifierWatcherIntrospection::new();
        let reply = answerer.process_message(introspection);
        return (None, reply);
    }
    match KSNIRequest::parse(message) {
        Ok((serial, sender, KSNIRequest::NewItem { address })) => {
            let reply = StatusNotifierWatcher::reply_ok(serial, sender.as_str());
            (Some(Service::new(sender, address)), Some(reply))
        },
        Ok((serial, sender, KSNIRequest::Other)) => {
            let reply = StatusNotifierWatcher::reply_ok(serial, sender.as_str());
            (None, Some(reply))
        },
        Err(_) => (None, None),
    }
}

/// What the host tells the bar.
#[derive(Debug)]
pub enum HostEvent {
    TrayAppAdded { service: String, items: Vec<TrayItem>, icon: TrayIcon },
    TrayAppIconUpdated { service: String, icon: TrayIcon },
    TrayAppMenuUpdated { service: String, items: Vec<TrayItem> },
    TrayAppRemoved { service: String },
}

/// The model of what the host tells the bar.
pub enum HostEventModel {
    TrayAppAdded { service: Seq<char>, items: Seq<TrayItemModel>, icon: TrayIconModel },
    TrayAppIconUpdated { service: Seq<char>, icon: TrayIconModel },
    TrayAppMenuUpdated { service: Seq<char>, items: Seq<TrayItemModel> },
    TrayAppRemoved { service: Seq<char> },
}

/// The model of what the host tells the bar.
pub open spec fn host_event_model(e: HostEvent) -> HostEventModel {
    match e {
        HostEvent::TrayAppAdded { service, items, icon } => HostEventModel::TrayAppAdded {
            service: service@,
            items: items_model(items@),
            icon: icon_model(icon),
        },
        HostEvent::TrayAppIconUpdated { service, icon } => HostEventModel::TrayAppIconUpdated {
            service: service@,
            icon: icon_model(icon),
        },
        HostEvent::TrayAppMenuUpdated { service, items } => HostEventModel::TrayAppMenuUpdated {
            service: service@,
            items: items_model(items@),
        },
        HostEvent::TrayAppRemoved { service } => HostEventModel::TrayAppRemoved { service: service@ },
    }
}

/// The models of a list of events, in order.
pub open spec fn host_events_model(s: Seq<HostEvent>) -> Seq<HostEventModel> {
    s.map_values(|e: HostEvent| host_event_model(e))
}

/// What the bar is told of an application event of the application named `name`.
pub open spec fn spec_host_event(name: Seq<char>, e: Option<TrayEventModel>) -> Seq<HostEventModel> {
    match e {
        None => Seq::empty(),
        Some(TrayEventModel::Initialized(icon, items)) => seq![HostEventModel::TrayAppAdded { service: name, items, icon }],
        Some(TrayEventModel::IconUpdated(icon)) => seq![HostEventModel::TrayAppIconUpdated { service: name, icon }],
        Some(TrayEventModel::MenuUpdated(items)) => seq![HostEventModel::TrayAppMenuUpdated { service: name, items }],
    }
}

/// Requests on behalf of the application at `raw_address` named `name`.
#[derive(Debug)]
pub struct AppRequests {
    pub raw_address: String,
    pub name: String,
    pub requests: Vec<AppRequest>,
}

/// The model of requests on behalf of an application.
pub open spec fn app_requests_model(r: AppRequests) -> (Seq<char>, Seq<char>, Seq<AppRequestModel>) {
    (r.raw_address@, r.name@, requests_model(r.requests@))
}

/// The models of a list of requests on behalf of applications, in order.
pub open spec fn app_requests_seq_model(s: Seq<AppRequests>) -> Seq<(Seq<char>, Seq<char>, Seq<AppRequestModel>)> {
    s.map_values(|r: AppRequests| app_requests_model(r))
}

/// The applications and what the bar is told once every application has
/// handled a message, front to back; an application that fails stops the
/// handling, leaving it and the ones after it unchanged.
pub open spec fn spec_dispatch(apps: Seq<AppModel>, m: IncomingMessage, p: Option<PropertyModel>) -> (
    Seq<AppModel>,
    Seq<HostEventModel>,
    Seq<(Seq<char>, Seq<char>, Seq<AppRequestModel>)>,
    Option<DBusError>,
)
    decreases apps.len(),
{
    if apps.len() == 0 {
        (Seq::empty(), Seq::empty(), Seq::empty(), None)
    } else {
        match spec_handle(apps[0], m, p) {
            Err(e) => (apps, Seq::empty(), Seq::empty(), Some(e)),
            Ok((a, ev, reqs)) => {
                let (rest, evs, outs, err) = spec_dispatch(apps.drop_first(), m, p);
                (
                    seq![a] + rest,
                    spec_host_event(a.name, ev) + evs,
                    seq![(a.raw_address, a.name, reqs)] + outs,
                    err,
                )
            },
        }
    }
}

/// The application first in `apps` whose name or address is `alias`.
pub open spec fn first_known_as(apps: Seq<AppModel>, alias: Seq<char>, i: int) -> Option<int>
    decreases apps.len() - i,
{
    if i < 0 || i >= apps.len() {
        None
    } else if apps[i].name == alias || apps[i].raw_address == alias {
        Some(i)
    } else {
        first_known_as(apps, alias, i + 1)
    }
}

/// An application that nothing has been learnt of yet.
pub open spec fn fresh_app(raw_address: Seq<char>, name: Seq<char>) -> AppModel {
    AppModel { raw_address, name, menu: ""@, state: StateModel::Nothing, get_layout_serial: None }
}

/// The applications after `(raw_address, name)` registers: a fresh record in
/// place of the one of the same service, or appended.
pub open spec fn spec_register(apps: Seq<AppModel>, raw_address: Seq<char>, name: Seq<char>) -> Seq<AppModel> {
    if exists|k: int| 0 <= k < apps.len() && apps[k].raw_address == raw_address && apps[k].name == name {
        let k = choose|k: int| 0 <= k < apps.len() && apps[k].raw_address == raw_address && apps[k].name == name;
        apps.update(k, fresh_app(raw_address, name))
    } else {
        apps.push(fresh_app(raw_address, name))
    }
}

/// Whether no two applications are the same service.
pub open spec fn registry_ok(apps: Seq<AppModel>) -> bool {
    forall|i: int, j: int|
        0 <= i < j < apps.len() ==> !(#[trigger] apps[i].raw_address == #[trigger] apps[j].raw_address && apps[i].name
            == apps[j].name)
}

/// Whether handing `m` to the applications in turn ends normally: each one
/// reached must handle it normally; the handing stops at the first error.
pub open spec fn dispatch_safe(apps: Seq<AppModel>, m: IncomingMessage, p: Option<PropertyModel>) -> bool
    decreases apps.len(),
{
    if apps.len() == 0 {
        true
    } else {
        handle_safe(apps[0], m, p) && (spec_handle(apps[0], m, p) is Ok ==> dispatch_safe(apps.drop_first(), m, p))
    }
}

/// Whether every application handles `m` normally.
pub open spec fn all_apps_safe(apps: Seq<AppModel>, m: IncomingMessage, p: Option<PropertyModel>) -> bool {
    forall|k: int| 0 <= k < apps.len() ==> handle_safe(#[trigger] apps[k], m, p)
}

/// When every application handles a message normally, so does handing it
/// to them in turn.
proof fn lemma_all_apps_safe(apps: Seq<AppModel>, m: IncomingMessage, p: Option<PropertyModel>)
    requires
        all_apps_safe(apps, m, p),
    ensures
        dispatch_safe(apps, m, p),
    decreases apps.len(),
{
    if apps.len() > 0 {
        assert(handle_safe(apps[0], m, p));
        assert forall|k: int| 0 <= k < apps.drop_first().len() implies handle_safe(#[trigger] apps.drop_first()[k], m, p) by {
            assert(apps.drop_first()[k] == apps[k + 1]);
        }
        lemma_all_apps_safe(apps.drop_first(), m, p);
    }
}

/// The match rule for the bus's `NameOwnerChanged` signals.
pub open spec fn name_owner_changed_rule() -> Seq<char> {
    spec_signal_match_rule("org.freedesktop.DBus"@, "org.freedesktop.DBus"@, "NameOwnerChanged"@, "/org/freedesktop/DBus"@)
}

/// The tray host: the applications it follows, one per service.
pub struct Tray {
    registry: Vec<App>,
}

impl View for Tray {
    type V = Seq<AppModel>;

    closed spec fn view(&self) -> Seq<AppModel> {
        self.registry@.map_values(|a: App| app_model(a))
    }
}

/// The application that a message registers, if any: its sender's address
/// and the name of the item.
pub open spec fn spec_new_service(m: IncomingMessage, intro: Option<(u32, Seq<char>, IntrospectionRequestModel)>) -> Option<(Seq<char>, Seq<char>)> {
    match intro {
        Some(_) => None,
        None => match spec_ksni_request(m) {
            Ok((_, sender, KSNIRequestModel::NewItem { address })) => Some((sender, address)),
            _ => None,
        },
    }
}

/// The requests that start following the application named `name`.
pub open spec fn init_requests(name: Seq<char>) -> Seq<AppRequestModel> {
    seq![
        AppRequestModel::AddMatch { rule: new_icon_rule(name) },
        AppRequestModel::GetAndSubscribeProps { destination: name },
    ]
}

/// The requests that stop following the application `a`.
pub open spec fn reset_requests(a: AppModel) -> Seq<AppRequestModel> {
    seq![
        AppRequestModel::RemoveMatch { rule: new_icon_rule(a.name) },
        AppRequestModel::UnsubscribeProps { destination: a.name },
        AppRequestModel::RemoveMatch { rule: layout_updated_rule(a.name, a.menu) },
        AppRequestModel::RemoveMatch { rule: items_updated_rule(a.name, a.menu) },
    ]
}

/// The applications, the events and the requests after a `NameOwnerChanged`
/// signal: the first application known by the alias that left is dropped
/// and stops being followed, and the bar is told.
pub open spec fn spec_removal(apps: Seq<AppModel>, m: IncomingMessage) -> (
    Seq<AppModel>,
    Seq<HostEventModel>,
    Seq<(Seq<char>, Seq<char>, Seq<AppRequestModel>)>,
) {
    match spec_name_owner_changed(m) {
        Ok(alias) => match first_known_as(apps, alias, 0) {
            Some(k) => (
                apps.remove(k),
                seq![HostEventModel::TrayAppRemoved { service: alias }],
                seq![(apps[k].raw_address, apps[k].name, reset_requests(apps[k]))],
            ),
            None => (apps, Seq::empty(), Seq::empty()),
        },
        Err(_) => (apps, Seq::empty(), Seq::empty()),
    }
}

/// Handling a message keeps an application's addresses.
proof fn lemma_handle_keeps_service(a: AppModel, m: IncomingMessage, p: Option<PropertyModel>)
    ensures
        spec_handle(a, m, p) matches Ok((b, _, _)) ==> b.raw_address == a.raw_address && b.name == a.name,
{
}

/// Searching from `i` finds an application known by `alias` when there is
/// one at or after `i`.
proof fn lemma_first_known_as(apps: Seq<AppModel>, alias: Seq<char>, i: int)
    requires
        0 <= i,
    ensures
        match first_known_as(apps, alias, i) {
            Some(k) => i <= k < apps.len() && (apps[k].name == alias || apps[k].raw_address == alias) && forall|j: int|
                i <= j < k ==> !(apps[j].name == alias || apps[j].raw_address == alias),
            None => forall|j: int| i <= j < apps.len() ==> !(apps[j].name == alias || apps[j].raw_address == alias),
        },
    decreases apps.len() - i,
{
    if i < apps.len() {
        lemma_first_known_as(apps, alias, i + 1);
    }
}

/// The event the bar is told of an application event.
fn to_host_event(name: String, e: TrayEvent) -> (h: HostEvent)
    ensures
        seq![host_event_model(h)] == spec_host_event(name@, Some(event_model(e))),
{
    match e {
        TrayEvent::Initialized(icon, items) => HostEvent::TrayAppAdded { service: name, items, icon },
        TrayEvent::IconUpdated(icon) => HostEvent::TrayAppIconUpdated { service: name, icon },
        TrayEvent::MenuUpdated(items) => HostEvent::TrayAppMenuUpdated { service: name, items },
    }
}

/// The request that a click on the menu entry with identifier `uuid` at the
/// Unix time `now` leads to: none when the identifier cannot be read or
/// names no application (by name or address); else the click event for the
/// first application so known, when the time fits.
pub open spec fn spec_trigger(apps: Seq<AppModel>, uuid: Seq<char>, now: i64) -> Result<Option<AppRequestModel>, EncodeError> {
    match spec_uuid_decode(uuid) {
        Err(_) => Ok(None),
        Ok((service, id)) => match first_known_as(apps, service, 0) {
            None => Ok(None),
            Some(k) => {
                if 0 <= now <= u32::MAX {
                    Ok(Some(AppRequestModel::Event { id, timestamp: now as u32, destination: apps[k].name, path: apps[k].menu }))
                } else {
                    Err(EncodeError::ValueTooLong)
                }
            },
        },
    }
}

/// The applications once the layout request with serial `serial` of the
/// application at `raw_address` named `name` is sent.
pub open spec fn spec_layout_requested(apps: Seq<AppModel>, raw_address: Seq<char>, name: Seq<char>, serial: u32) -> Seq<AppModel> {
    if exists|k: int| 0 <= k < apps.len() && apps[k].raw_address == raw_address && apps[k].name == name {
        let k = choose|k: int| 0 <= k < apps.len() && apps[k].raw_address == raw_address && apps[k].name == name;
        apps.update(k, AppModel { get_layout_serial: Some(serial), ..apps[k] })
    } else {
        apps
    }
}

/// The models of a list of applications, in order.
pub open spec fn apps_model(s: Seq<App>) -> Seq<AppModel> {
    s.map_values(|a: App| app_model(a))
}

impl Tray {
    #[verifier::type_invariant]
    spec fn inv(&self) -> bool {
        registry_ok(self@)
    }

    /// A host that follows no application yet, and the messages that start
    /// it: the request for the watcher's name and the subscription to the
    /// bus's `NameOwnerChanged` signals.
    pub fn new() -> (r: (Tray, Vec<OutgoingMessage>))
        ensures
            r.0@.len() == 0,
            r.1@.len() == 2,
            r.1@[0] matches OutgoingMessage::RequestName { name } && name@ == "org.kde.StatusNotifierWatcher"@,
            r.1@[1] matches OutgoingMessage::AddMatch { rule } && rule@ == name_owner_changed_rule(),
    {
        let tray = Tray { registry: Vec::new() };
        proof {
            assert(tray@ =~= Seq::<AppModel>::empty());
        }
        let mut out: Vec<OutgoingMessage> = Vec::new();
        out.push(StatusNotifierWatcher::request_ksni_name());
        out.push(
            OutgoingMessage::AddMatch {
                rule: signal_match_rule("org.freedesktop.DBus", "org.freedesktop.DBus", "NameOwnerChanged", "/org/freedesktop/DBus"),
            },
        );
        (tray, out)
    }

    /// Handles a message from the bus. `introspection` is the standard
    /// request that it makes, if any, and `property` the property value of
    /// an application that it brings, if any. A registration adds the
    /// application and ends the handling; otherwise a departure removes one,
    /// then every application handles the message in turn. Returns the
    /// events for the bar, the watcher's reply, the requests of the
    /// applications, and the error that stopped the handling, if any.
    pub fn try_handle(
        &mut self,
        message: &IncomingMessage,
        introspection: Option<(u32, String, IntrospectionRequest)>,
        property: Option<PropertyValue>,
    ) -> (r: (Vec<HostEvent>, Option<OutgoingMessage>, Vec<AppRequests>, Option<DBusError>))
        requires
            spec_new_service(*message, intro_model(introspection)) is None ==> dispatch_safe(
                spec_removal(old(self)@, *message).0,
                *message,
                property_model(property),
            ),
        ensures
            watcher_outcome(*message, intro_model(introspection), (spec_new_service(*message, intro_model(introspection)), r.1)),
            match spec_new_service(*message, intro_model(introspection)) {
                Some((raw, name)) => {
                    &&& final(self)@ == spec_register(old(self)@, raw, name)
                    &&& r.0@.len() == 0
                    &&& app_requests_seq_model(r.2@) == seq![(raw, name, init_requests(name))]
                    &&& r.3 is None
                },
                None => {
                    let (apps1, ev1, rq1) = spec_removal(old(self)@, *message);
                    let (apps2, ev2, rq2, err) = spec_dispatch(apps1, *message, property_model(property));
                    &&& final(self)@ == apps2
                    &&& host_events_model(r.0@) == ev1 + ev2
                    &&& app_requests_seq_model(r.2@) == rq1 + rq2
                    &&& r.3 == err
                },
            },
    {
        proof {
            use_type_invariant(&*self);
        }
        let (new_service, reply) = handle_incoming_request(message, introspection);
        let mut events: Vec<HostEvent> = Vec::new();
        let mut requests: Vec<AppRequests> = Vec::new();
        let mut registry: Vec<App> = Vec::new();
        core::mem::swap(&mut registry, &mut self.registry);
        let ghost start = apps_model(registry@);
        assert(start == old(self)@);
        if let Some(service) = new_service {
            let mut app = App::new(service);
            let reqs = app.init();
            let raw = app.service.raw_address();
            let name = app.service.name();
            let mut k: usize = 0;
            let mut found = false;
            while k < registry.len()
                invariant_except_break
                    !found,
                invariant
                    k <= registry@.len(),
                    apps_model(registry@) == start,
                    registry_ok(start),
                    forall|j: int| 0 <= j < k ==> !(start[j].raw_address == raw@ && start[j].name == name@),
                ensures
                    found ==> k < registry@.len() && start[k as int].raw_address == raw@ && start[k as int].name == name@,
                    !found ==> k == registry@.len(),
                decreases registry@.len() - k,
            {
                if str_eq(registry[k].service.raw_address_str(), raw.as_str()) && str_eq(
                    registry[k].service.name_str(),
                    name.as_str(),
                ) {
                    found = true;
                    break;
                }
                k += 1;
            }
            let ghost fresh = app_model(app);
            if found {
                let _old_app = registry.remove(k);
                registry.insert(k, app);
                proof {
                    assert(apps_model(registry@) =~= start.update(k as int, fresh));
                    let c = choose|c: int|
                        0 <= c < start.len() && start[c].raw_address == raw@ && start[c].name == name@;
                    assert(c == k);
                }
            } else {
                registry.push(app);
                proof {
                    assert(apps_model(registry@) =~= start.push(fresh));
                }
            }
            requests.push(AppRequests { raw_address: raw, name, requests: reqs });
            proof {
                assert(app_requests_seq_model(requests@) =~= seq![app_requests_model(requests@[0])]);
                assert forall|i: int, j: int|
                    0 <= i < j < apps_model(registry@).len() implies !(#[trigger] apps_model(registry@)[i].raw_address
                    == #[trigger] apps_model(registry@)[j].raw_address && apps_model(registry@)[i].name
                    == apps_model(registry@)[j].name) by {
                    if found {
                    } else {
                    }
                }
            }
            self.registry = registry;
            return (events, reply, requests, None);
        }
        match parse_name_owner_changed(message) {
            Ok(alias) => {
                let mut k: usize = 0;
                let mut found = false;
                while k < registry.len()
                    invariant_except_break
                        !found,
                    invariant
                        k <= registry@.len(),
                        apps_model(registry@) == start,
                        first_known_as(start, alias@, 0) == first_known_as(start, alias@, k as int),
                    ensures
                        found ==> k < registry@.len() && first_known_as(start, alias@, 0) == Some(k as int),
                        !found ==> k == registry@.len() && first_known_as(start, alias@, 0) is None,
                    decreases registry@.len() - k,
                {
                    if str_eq(registry[k].service.name_str(), alias.as_str()) || str_eq(
                        registry[k].service.raw_address_str(),
                        alias.as_str(),
                    ) {
                        found = true;
                        break;
                    }
                    k += 1;
                }
                if found {
                    let mut app = registry.remove(k);
                    let reqs = app.reset();
                    requests.push(
                        AppRequests { raw_address: app.service.raw_address(), name: app.service.name(), requests: reqs },
                    );
                    events.push(HostEvent::TrayAppRemoved { service: alias.clone() });
                    proof {
                        assert(apps_model(registry@) =~= start.remove(k as int));
                    }
                }
                proof {
                    if found {
                        assert(host_events_model(events@) =~= seq![HostEventModel::TrayAppRemoved { service: alias@ }]);
                    } else {
                        assert(host_events_model(events@) =~= Seq::<HostEventModel>::empty());
                        assert(app_requests_seq_model(requests@) =~= Seq::<(Seq<char>, Seq<char>, Seq<AppRequestModel>)>::empty());
                    }
                    assert((apps_model(registry@), host_events_model(events@), app_requests_seq_model(requests@))
                        == spec_removal(start, *message));
                }
            },
            Err(_) => {
                proof {
                    assert(host_events_model(events@) =~= Seq::<HostEventModel>::empty());
                    assert(app_requests_seq_model(requests@) =~= Seq::<(Seq<char>, Seq<char>, Seq<AppRequestModel>)>::empty());
                    assert((apps_model(registry@), host_events_model(events@), app_requests_seq_model(requests@))
                        == spec_removal(start, *message));
                }
            },
        }
        let ghost apps1 = apps_model(registry@);
        let ghost ev1 = host_events_model(events@);
        let ghost rq1 = app_requests_seq_model(requests@);
        let ghost p = property_model(property);
        let ghost mut evd: Seq<HostEventModel> = Seq::empty();
        let ghost mut rqd: Seq<(Seq<char>, Seq<char>, Seq<AppRequestModel>)> = Seq::empty();
        let mut done: Vec<App> = Vec::new();
        let mut rest = registry;
        proof {
            assert(apps_model(done@) + apps_model(rest@) =~= apps1);
            assert(ev1 + evd =~= ev1);
            assert(rq1 + rqd =~= rq1);
            assert(apps_model(done@) =~= Seq::<AppModel>::empty());
        }
        while rest.len() > 0
            invariant
                registry_ok(apps_model(done@) + apps_model(rest@)),
                watcher_outcome(*message, intro_model(introspection), (spec_new_service(*message, intro_model(introspection)), reply)),
                spec_new_service(*message, intro_model(introspection)) is None,
                (apps1, ev1, rq1) == spec_removal(old(self)@, *message),
                dispatch_safe(apps_model(rest@), *message, p),
                p == property_model(property),
                host_events_model(events@) == ev1 + evd,
                app_requests_seq_model(requests@) == rq1 + rqd,
                ({
                    let tail = spec_dispatch(apps_model(rest@), *message, p);
                    spec_dispatch(apps1, *message, p) == (apps_model(done@) + tail.0, evd + tail.1, rqd + tail.2, tail.3)
                }),
            decreases rest@.len(),
        {
            let ghost before_done = apps_model(done@);
            let ghost before_rest = apps_model(rest@);
            let mut app = rest.remove(0);
            proof {
                assert(before_rest =~= seq![app_model(app)] + apps_model(rest@));
                assert(before_rest.drop_first() =~= apps_model(rest@));
                assert(before_rest[0] == app_model(app));
                lemma_handle_keeps_service(app_model(app), *message, p);
            }
            let prop = match &property {
                Some(v) => Some(v.duplicate()),
                None => None,
            };
            match app.handle(message, prop) {
                Ok((e, reqs)) => {
                    let ghost a2 = app_model(app);
                    let ghost evm = crate::sni_app::opt_event_model(e);
                    let ghost events_before = host_events_model(events@);
                    let ghost requests_before = app_requests_seq_model(requests@);
                    let ghost reqs_m = requests_model(reqs@);
                    match e {
                        Some(ev) => {
                            let h = to_host_event(app.service.name(), ev);
                            events.push(h);
                            proof {
                                assert(host_events_model(events@) =~= events_before + spec_host_event(a2.name, evm));
                            }
                        },
                        None => {
                            proof {
                                assert(host_events_model(events@) =~= events_before + spec_host_event(a2.name, evm));
                            }
                        },
                    }
                    requests.push(AppRequests { raw_address: app.service.raw_address(), name: app.service.name(), requests: reqs });
                    done.push(app);
                    proof {
                        assert(app_requests_seq_model(requests@) =~= requests_before.push((a2.raw_address, a2.name, reqs_m)));
                        assert(apps_model(done@) =~= before_done.push(a2));
                        let tail = spec_dispatch(apps_model(rest@), *message, p);
                        let tail0 = spec_dispatch(before_rest, *message, p);
                        assert(tail0.0 == seq![a2] + tail.0);
                        assert(apps_model(done@) + tail.0 =~= before_done + tail0.0);
                        assert((evd + spec_host_event(a2.name, evm)) + tail.1 =~= evd + tail0.1);
                        assert(rqd.push((a2.raw_address, a2.name, reqs_m)) + tail.2 =~= rqd + tail0.2);
                        evd = evd + spec_host_event(a2.name, evm);
                        rqd = rqd.push((a2.raw_address, a2.name, reqs_m));
                        assert(ev1 + evd =~= (ev1 + (evd.subrange(0, evd.len() - spec_host_event(a2.name, evm).len()))) + spec_host_event(a2.name, evm));
                        let all_before = before_done + before_rest;
                        let all_after = apps_model(done@) + apps_model(rest@);
                        assert(all_after =~= all_before.update(before_done.len() as int, a2));
                        assert forall|i: int| 0 <= i < all_after.len() implies #[trigger] all_after[i].raw_address
                            == all_before[i].raw_address && all_after[i].name == all_before[i].name by {}
                        assert forall|i: int, j: int|
                            0 <= i < j < all_after.len() implies !(#[trigger] all_after[i].raw_address
                            == #[trigger] all_after[j].raw_address && all_after[i].name == all_after[j].name) by {
                            assert(all_after[i].raw_address == all_before[i].raw_address);
                            assert(all_after[j].raw_address == all_before[j].raw_address);
                            assert(!(all_before[i].raw_address == all_before[j].raw_address && all_before[i].name
                                == all_before[j].name));
                        }
                    }
                },
                Err(err) => {
                    done.push(app);
                    done.append(&mut rest);
                    proof {
                        assert(apps_model(done@) =~= before_done + before_rest);
                    }
                    self.registry = done;
                    proof {
                        assert(evd + Seq::<HostEventModel>::empty() =~= evd);
                        assert(rqd + Seq::<(Seq<char>, Seq<char>, Seq<AppRequestModel>)>::empty() =~= rqd);
                        let tail0 = spec_dispatch(before_rest, *message, p);
                        assert(tail0 == (before_rest, Seq::<HostEventModel>::empty(), Seq::<(Seq<char>, Seq<char>, Seq<AppRequestModel>)>::empty(), Some(err)));
                    }
                    return (events, reply, requests, Some(err));
                },
            }
        }
        proof {
            assert(apps_model(rest@) =~= Seq::<AppModel>::empty());
            assert(apps_model(done@) + Seq::<AppModel>::empty() =~= apps_model(done@));
            assert(evd + Seq::<HostEventModel>::empty() =~= evd);
            assert(rqd + Seq::<(Seq<char>, Seq<char>, Seq<AppRequestModel>)>::empty() =~= rqd);
            assert(apps_model(done@) + apps_model(rest@) =~= apps_model(done@));
        }
        self.registry = done;
        (events, reply, requests, None)
    }

    /// Whether every application handles `message` with `property` normally
    /// (`all_apps_safe`); when so, `try_handle` may be given the message.
    pub fn handle_is_safe(&self, message: &IncomingMessage, property: &Option<PropertyValue>) -> (r: bool)
        ensures
            r == all_apps_safe(self@, *message, property_model(*property)),
            r ==> dispatch_safe(spec_removal(self@, *message).0, *message, property_model(*property)),
    {
        let ghost apps = self@;
        let ghost p = property_model(*property);
        assert(apps == apps_model(self.registry@));
        let mut k: usize = 0;
        while k < self.registry.len()
            invariant
                k <= self.registry@.len(),
                apps == self@,
                apps == apps_model(self.registry@),
                p == property_model(*property),
                forall|j: int| 0 <= j < k ==> handle_safe(#[trigger] apps[j], *message, p),
            decreases self.registry@.len() - k,
        {
            assert(apps[k as int] == app_model(self.registry@[k as int]));
            if !self.registry[k].handle_is_safe(message, property) {
                assert(!handle_safe(apps[k as int], *message, p));
                return false;
            }
            k += 1;
        }
        proof {
            let removed = spec_removal(apps, *message).0;
            assert(all_apps_safe(removed, *message, p)) by {
                match spec_name_owner_changed(*message) {
                    Ok(alias) => match first_known_as(apps, alias, 0) {
                        Some(i) => {
                            lemma_first_known_as(apps, alias, 0);
                            assert forall|j: int| 0 <= j < removed.len() implies handle_safe(#[trigger] removed[j], *message, p) by {
                                if j < i {
                                    assert(removed[j] == apps[j]);
                                } else {
                                    assert(removed[j] == apps[j + 1]);
                                }
                            }
                        },
                        None => {},
                    },
                    Err(_) => {},
                }
            }
            lemma_all_apps_safe(removed, *message, p);
        }
        true
    }

    /// The request that a click on the menu entry with identifier `uuid` at
    /// the Unix time `now` leads to, as `spec_trigger` says.
    pub fn try_trigger(&self, uuid: &str, now: i64) -> (r: Result<Option<AppRequest>, EncodeError>)
        ensures
            match r {
                Ok(Some(req)) => spec_trigger(self@, uuid@, now) == Ok::<Option<AppRequestModel>, EncodeError>(Some(request_model(req))),
                Ok(None) => spec_trigger(self@, uuid@, now) == Ok::<Option<AppRequestModel>, EncodeError>(None),
                Err(e) => spec_trigger(self@, uuid@, now) == Err::<Option<AppRequestModel>, EncodeError>(e),
            },
    {
        let (service, id) = match UUID::decode(uuid) {
            Ok(d) => d,
            Err(_) => return Ok(None),
        };
        let ghost apps = self@;
        let mut k: usize = 0;
        while k < self.registry.len()
            invariant
                k <= self.registry@.len(),
                apps == self@,
                apps == apps_model(self.registry@),
                first_known_as(apps, service@, 0) == first_known_as(apps, service@, k as int),
                spec_uuid_decode(uuid@) == Ok::<(Seq<char>, i32), crate::dbusmenu::UuidError>((service@, id)),
            decreases self.registry@.len() - k,
        {
            let app = &self.registry[k];
            if str_eq(app.service.name_str(), service.as_str()) || str_eq(app.service.raw_address_str(), service.as_str()) {
                assert(apps[k as int] == app_model(*app));
                return match app.trigger(id, now) {
                    Ok(req) => Ok(Some(req)),
                    Err(e) => Err(e),
                };
            }
            k += 1;
        }
        Ok(None)
    }

    /// Records that the layout request with serial `serial` of the
    /// application at `raw_address` named `name` was sent.
    pub fn layout_requested(&mut self, raw_address: &str, name: &str, serial: u32)
        ensures
            final(self)@ == spec_layout_requested(old(self)@, raw_address@, name@, serial),
    {
        proof {
            use_type_invariant(&*self);
        }
        let mut registry: Vec<App> = Vec::new();
        core::mem::swap(&mut registry, &mut self.registry);
        let ghost start = apps_model(registry@);
        let mut k: usize = 0;
        let mut found = false;
        while k < registry.len()
            invariant_except_break
                !found,
            invariant
                k <= registry@.len(),
                apps_model(registry@) == start,
                forall|j: int| 0 <= j < k ==> !(start[j].raw_address == raw_address@ && start[j].name == name@),
            ensures
                found ==> k < registry@.len() && start[k as int].raw_address == raw_address@ && start[k as int].name == name@,
                !found ==> k == registry@.len(),
            decreases registry@.len() - k,
        {
            if str_eq(registry[k].service.raw_address_str(), raw_address) && str_eq(registry[k].service.name_str(), name) {
                found = true;
                break;
            }
            k += 1;
        }
        if found {
            let mut app = registry.remove(k);
            app.layout_requested(serial);
            let ghost a2 = app_model(app);
            registry.insert(k, app);
            proof {
                assert(apps_model(registry@) =~= start.update(k as int, a2));
                let c = choose|c: int| 0 <= c < start.len() && start[c].raw_address == raw_address@ && start[c].name == name@;
                assert(c == k);
                let after = apps_model(registry@);
                assert forall|i: int, j: int|
                    0 <= i < j < after.len() implies !(#[trigger] after[i].raw_address == #[trigger] after[j].raw_address
                    && after[i].name == after[j].name) by {
                    assert(after[i].raw_address == start[i].raw_address && after[i].name == start[i].name);
                    assert(after[j].raw_address == start[j].raw_address && after[j].name == start[j].name);
                }
            }
        }
        self.registry = registry;
    }
}

} // verus!
