//! One tray application as the tray follows it: which of its icon and menu
//! layout have arrived, and the requests and events that its messages lead to.
use vstd::prelude::*;
use vstd::string::StringExecFns;
use crate::dbus::{opt_text, spec_check_signal, spec_signal_match_rule, DBusError, IncomingMessage, MessageType};
use crate::dbusmenu::{
    items_model, items_properties_updated_match_rule, layout_reply_is_safe, layout_reply_safe,
    layout_updated_match_rule, parse_get_layout_reply, parse_items_properties_updated_signal,
    parse_layout_updated_signal, spec_get_layout_reply, TrayItem, TrayItemModel,
};
use crate::ksni::{
    icon_model, new_icon_match_rule, parse_new_icon_signal, spec_detect_name_or_path, TrayIcon, TrayIconModel,
    TrayIconPixmap,
};

verus! {

/// What the tray learns of an application from one message.
#[derive(Debug)]
pub enum TrayEvent {
    /// Both the icon and the menu layout are known for the first time.
    Initialized(TrayIcon, Vec<TrayItem>),
    /// A new icon after the first.
    IconUpdated(TrayIcon),
    /// A new menu layout after the first.
    MenuUpdated(Vec<TrayItem>),
}

/// The model of an event.
pub enum TrayEventModel {
    Initialized(TrayIconModel, Seq<TrayItemModel>),
    IconUpdated(TrayIconModel),
    MenuUpdated(Seq<TrayItemModel>),
}

/// The model of an event.
pub open spec fn event_model(e: TrayEvent) -> TrayEventModel {
    match e {
        TrayEvent::Initialized(icon, layout) => TrayEventModel::Initialized(icon_model(icon), items_model(layout@)),
        TrayEvent::IconUpdated(icon) => TrayEventModel::IconUpdated(icon_model(icon)),
        TrayEvent::MenuUpdated(layout) => TrayEventModel::MenuUpdated(items_model(layout@)),
    }
}

/// The model of an optional event.
pub open spec fn opt_event_model(e: Option<TrayEvent>) -> Option<TrayEventModel> {
    match e {
        Some(e) => Some(event_model(e)),
        None => None,
    }
}

/// Which of the icon and the menu layout of an application have arrived.
/// Until both have, the latest of each is kept.
#[derive(Debug)]
pub enum State {
    Nothing,
    OnlyIcon(TrayIcon),
    OnlyLayout(Vec<TrayItem>),
    All,
}

/// The model of a state.
pub enum StateModel {
    Nothing,
    OnlyIcon(TrayIconModel),
    OnlyLayout(Seq<TrayItemModel>),
    All,
}

/// The model of a state.
pub open spec fn state_model(s: State) -> StateModel {
    match s {
        State::Nothing => StateModel::Nothing,
        State::OnlyIcon(i) => StateModel::OnlyIcon(icon_model(i)),
        State::OnlyLayout(l) => StateModel::OnlyLayout(items_model(l@)),
        State::All => StateModel::All,
    }
}

/// The state and event after an icon arrives.
pub open spec fn spec_on_icon(s: StateModel, icon: TrayIconModel) -> (StateModel, Option<TrayEventModel>) {
    match s {
        StateModel::Nothing => (StateModel::OnlyIcon(icon), None),
        StateModel::OnlyIcon(_) => (StateModel::OnlyIcon(icon), None),
        StateModel::OnlyLayout(layout) => (StateModel::All, Some(TrayEventModel::Initialized(icon, layout))),
        StateModel::All => (StateModel::All, Some(TrayEventModel::IconUpdated(icon))),
    }
}

/// The state and event after a menu layout arrives.
pub open spec fn spec_on_layout(s: StateModel, layout: Seq<TrayItemModel>) -> (StateModel, Option<TrayEventModel>) {
    match s {
        StateModel::Nothing => (StateModel::OnlyLayout(layout), None),
        StateModel::OnlyIcon(icon) => (StateModel::All, Some(TrayEventModel::Initialized(icon, layout))),
        StateModel::OnlyLayout(_) => (StateModel::OnlyLayout(layout), None),
        StateModel::All => (StateModel::All, Some(TrayEventModel::MenuUpdated(layout))),
    }
}

impl State {
    /// Records a new icon, as `spec_on_icon` says.
    pub fn on_icon_received(&mut self, new_icon: TrayIcon) -> (e: Option<TrayEvent>)
        ensures
            (state_model(*final(self)), opt_event_model(e)) == spec_on_icon(state_model(*old(self)), icon_model(new_icon)),
    {
        let mut old_state = State::All;
        core::mem::swap(self, &mut old_state);
        match old_state {
            State::Nothing => {
                *self = State::OnlyIcon(new_icon);
                None
            },
            State::OnlyIcon(_) => {
                *self = State::OnlyIcon(new_icon);
                None
            },
            State::OnlyLayout(layout) => Some(TrayEvent::Initialized(new_icon, layout)),
            State::All => Some(TrayEvent::IconUpdated(new_icon)),
        }
    }

    /// Records a new menu layout, as `spec_on_layout` says.
    pub fn on_layout_receieved(&mut self, new_layout: Vec<TrayItem>) -> (e: Option<TrayEvent>)
        ensures
            (state_model(*final(self)), opt_event_model(e)) == spec_on_layout(
                state_model(*old(self)),
                items_model(new_layout@),
            ),
    {
        let mut old_state = State::All;
        core::mem::swap(self, &mut old_state);
        match old_state {
            State::Nothing => {
                *self = State::OnlyLayout(new_layout);
                None
            },
            State::OnlyIcon(icon) => Some(TrayEvent::Initialized(icon, new_layout)),
            State::OnlyLayout(_) => {
                *self = State::OnlyLayout(new_layout);
                None
            },
            State::All => Some(TrayEvent::MenuUpdated(new_layout)),
        }
    }
}

/// What an application sends the tray: an icon or a menu layout.
pub enum Arrival {
    Icon(TrayIconModel),
    Layout(Seq<TrayItemModel>),
}

/// The state and the events after the arrivals `xs`, in order, from `s`.
pub open spec fn spec_run(s: StateModel, xs: Seq<Arrival>) -> (StateModel, Seq<TrayEventModel>)
    decreases xs.len(),
{
    if xs.len() == 0 {
        (s, Seq::empty())
    } else {
        let (s1, e) = match xs[0] {
            Arrival::Icon(i) => spec_on_icon(s, i),
            Arrival::Layout(l) => spec_on_layout(s, l),
        };
        let (s2, es) = spec_run(s1, xs.drop_first());
        (s2, (if e is Some { seq![e.unwrap()] } else { Seq::empty() }) + es)
    }
}

/// Whether some arrival of `xs` is an icon.
pub open spec fn has_icon(xs: Seq<Arrival>) -> bool {
    exists|i: int| 0 <= i < xs.len() && xs[i] is Icon
}

/// Whether some arrival of `xs` is a layout.
pub open spec fn has_layout(xs: Seq<Arrival>) -> bool {
    exists|i: int| 0 <= i < xs.len() && xs[i] is Layout
}

/// How many of `es` are `Initialized`.
pub open spec fn count_initialized(es: Seq<TrayEventModel>) -> nat
    decreases es.len(),
{
    if es.len() == 0 {
        0
    } else {
        (if es[0] is Initialized { 1nat } else { 0nat }) + count_initialized(es.drop_first())
    }
}

/// Counting the `Initialized` events of two runs one after the other.
proof fn lemma_count_initialized_concat(a: Seq<TrayEventModel>, b: Seq<TrayEventModel>)
    ensures
        count_initialized(a + b) == count_initialized(a) + count_initialized(b),
    decreases a.len(),
{
    if a.len() == 0 {
        assert(a + b =~= b);
    } else {
        assert((a + b).drop_first() =~= a.drop_first() + b);
        lemma_count_initialized_concat(a.drop_first(), b);
    }
}

/// Counting the `Initialized` events among none or one event.
proof fn lemma_count_initialized_small(e: Option<TrayEventModel>)
    ensures
        count_initialized(if e is Some { seq![e.unwrap()] } else { Seq::<TrayEventModel>::empty() }) == (if e matches Some(
            x,
        ) && x is Initialized {
            1nat
        } else {
            0nat
        }),
{
    if e is Some {
        let es = seq![e.unwrap()];
        assert(es.drop_first() =~= Seq::<TrayEventModel>::empty());
        assert(count_initialized(es.drop_first()) == 0);
    }
}

/// After the tray knows both the icon and the layout of an application,
/// every arrival gives an update and never a second `Initialized`.
proof fn lemma_run_from_all(xs: Seq<Arrival>)
    ensures
        spec_run(StateModel::All, xs).0 == StateModel::All,
        count_initialized(spec_run(StateModel::All, xs).1) == 0,
    decreases xs.len(),
{
    if xs.len() > 0 {
        lemma_run_from_all(xs.drop_first());
        let (s1, e) = match xs[0] {
            Arrival::Icon(i) => spec_on_icon(StateModel::All, i),
            Arrival::Layout(l) => spec_on_layout(StateModel::All, l),
        };
        let es = (if e is Some { seq![e.unwrap()] } else { Seq::<TrayEventModel>::empty() });
        lemma_count_initialized_concat(es, spec_run(s1, xs.drop_first()).1);
        lemma_count_initialized_small(e);
    }
}

/// Whether the state remembers an icon or a layout as `xs` would leave it
/// from `s`: the kinds seen so far in the state, and in `xs`.
pub open spec fn seen_icon(s: StateModel) -> bool {
    s is OnlyIcon || s is All
}

/// Whether the state has seen a layout.
pub open spec fn seen_layout(s: StateModel) -> bool {
    s is OnlyLayout || s is All
}

/// An application is announced to the bar exactly once, when both its icon
/// and its layout have arrived, whatever the order and the repetitions of
/// the arrivals; before that nothing is announced.
pub proof fn lemma_initialized_once(s: StateModel, xs: Seq<Arrival>)
    requires
        !(s is All),
    ensures
        count_initialized(spec_run(s, xs).1) == (if (seen_icon(s) || has_icon(xs)) && (seen_layout(s) || has_layout(xs)) {
            1nat
        } else {
            0nat
        }),
        spec_run(s, xs).0 is All <==> ((seen_icon(s) || has_icon(xs)) && (seen_layout(s) || has_layout(xs))),
    decreases xs.len(),
{
    if xs.len() == 0 {
    } else {
        let rest = xs.drop_first();
        let (s1, e) = match xs[0] {
            Arrival::Icon(i) => spec_on_icon(s, i),
            Arrival::Layout(l) => spec_on_layout(s, l),
        };
        let es = (if e is Some { seq![e.unwrap()] } else { Seq::<TrayEventModel>::empty() });
        lemma_count_initialized_concat(es, spec_run(s1, rest).1);
        lemma_count_initialized_small(e);
        assert(has_icon(xs) <==> (xs[0] is Icon || has_icon(rest))) by {
            if has_icon(xs) {
                let i = choose|i: int| 0 <= i < xs.len() && xs[i] is Icon;
                if i > 0 {
                    assert(rest[i - 1] == xs[i]);
                }
            }
            if has_icon(rest) {
                let i = choose|i: int| 0 <= i < rest.len() && rest[i] is Icon;
                assert(xs[i + 1] == rest[i]);
            }
        }
        assert(has_layout(xs) <==> (xs[0] is Layout || has_layout(rest))) by {
            if has_layout(xs) {
                let i = choose|i: int| 0 <= i < xs.len() && xs[i] is Layout;
                if i > 0 {
                    assert(rest[i - 1] == xs[i]);
                }
            }
            if has_layout(rest) {
                let i = choose|i: int| 0 <= i < rest.len() && rest[i] is Layout;
                assert(xs[i + 1] == rest[i]);
            }
        }
        if s1 is All {
            lemma_run_from_all(rest);
        } else {
            lemma_initialized_once(s1, rest);
        }
    }
}

/// The state and event after one arrival.
pub open spec fn spec_step(s: StateModel, x: Arrival) -> (StateModel, Option<TrayEventModel>) {
    match x {
        Arrival::Icon(i) => spec_on_icon(s, i),
        Arrival::Layout(l) => spec_on_layout(s, l),
    }
}

/// None or one event, as a sequence.
pub open spec fn opt_events(e: Option<TrayEventModel>) -> Seq<TrayEventModel> {
    if e is Some {
        seq![e.unwrap()]
    } else {
        Seq::empty()
    }
}

/// One more arrival at the end: one more step from where the run got to.
proof fn lemma_run_push(s: StateModel, xs: Seq<Arrival>, x: Arrival)
    ensures
        spec_run(s, xs.push(x)) == (
            spec_step(spec_run(s, xs).0, x).0,
            spec_run(s, xs).1 + opt_events(spec_step(spec_run(s, xs).0, x).1),
        ),
    decreases xs.len(),
{
    if xs.len() == 0 {
        assert(xs.push(x).drop_first() =~= Seq::<Arrival>::empty());
        assert(xs.push(x)[0] == x);
        let (s1, e) = spec_step(s, x);
        assert(spec_run(s1, Seq::<Arrival>::empty()) == (s1, Seq::<TrayEventModel>::empty()));
        assert(opt_events(e) + Seq::<TrayEventModel>::empty() =~= opt_events(e));
        assert(Seq::<TrayEventModel>::empty() + opt_events(e) =~= opt_events(e));
        assert(spec_run(s, xs.push(x)).1 =~= opt_events(e));
    } else {
        assert(xs.push(x).drop_first() =~= xs.drop_first().push(x));
        assert(xs.push(x)[0] == xs[0]);
        let (s1, e) = spec_step(s, xs[0]);
        lemma_run_push(s1, xs.drop_first(), x);
        let r = spec_run(s1, xs.drop_first());
        let e2 = spec_step(r.0, x).1;
        assert(spec_run(s, xs).1 == opt_events(e) + r.1);
        assert(spec_run(s, xs.push(x)).1 == opt_events(e) + spec_run(s1, xs.drop_first().push(x)).1);
        assert(opt_events(e) + (r.1 + opt_events(e2)) =~= (opt_events(e) + r.1) + opt_events(e2));
    }
}

/// The latest icon among the arrivals, if any.
pub open spec fn last_icon(xs: Seq<Arrival>) -> Option<TrayIconModel>
    decreases xs.len(),
{
    if xs.len() == 0 {
        None
    } else {
        match xs.last() {
            Arrival::Icon(i) => Some(i),
            Arrival::Layout(_) => last_icon(xs.drop_last()),
        }
    }
}

/// The latest layout among the arrivals, if any.
pub open spec fn last_layout(xs: Seq<Arrival>) -> Option<Seq<TrayItemModel>>
    decreases xs.len(),
{
    if xs.len() == 0 {
        None
    } else {
        match xs.last() {
            Arrival::Layout(l) => Some(l),
            Arrival::Icon(_) => last_layout(xs.drop_last()),
        }
    }
}

/// Until an application has sent both an icon and a layout, the tray
/// announces nothing and holds the latest icon, or else the latest layout,
/// that arrived; the arrival that completes the pair is announced together
/// with the latest of the other kind.
pub proof fn lemma_latest_kept(xs: Seq<Arrival>, x: Arrival)
    requires
        !(spec_run(StateModel::Nothing, xs).0 is All),
    ensures
        spec_run(StateModel::Nothing, xs).1.len() == 0,
        !(last_icon(xs) is Some && last_layout(xs) is Some),
        spec_run(StateModel::Nothing, xs).0 == (match (last_icon(xs), last_layout(xs)) {
            (Some(i), _) => StateModel::OnlyIcon(i),
            (None, Some(l)) => StateModel::OnlyLayout(l),
            (None, None) => StateModel::Nothing,
        }),
        match (x, last_icon(xs), last_layout(xs)) {
            (Arrival::Layout(l), Some(i), _) => spec_run(StateModel::Nothing, xs.push(x)) == (
                StateModel::All,
                seq![TrayEventModel::Initialized(i, l)],
            ),
            (Arrival::Icon(i), _, Some(l)) => spec_run(StateModel::Nothing, xs.push(x)) == (
                StateModel::All,
                seq![TrayEventModel::Initialized(i, l)],
            ),
            _ => !(spec_run(StateModel::Nothing, xs.push(x)).0 is All),
        },
    decreases xs.len(),
{
    if xs.len() > 0 {
        let ys = xs.drop_last();
        let y = xs.last();
        assert(xs =~= ys.push(y));
        lemma_run_push(StateModel::Nothing, ys, y);
        if spec_run(StateModel::Nothing, ys).0 is All {
            assert(spec_step(StateModel::All, y).0 is All);
        }
        lemma_latest_kept(ys, y);
        assert(Seq::<TrayEventModel>::empty() + opt_events(spec_step(spec_run(StateModel::Nothing, ys).0, y).1)
            =~= Seq::<TrayEventModel>::empty());
    }
    lemma_run_push(StateModel::Nothing, xs, x);
    assert(Seq::<TrayEventModel>::empty() + opt_events(spec_step(spec_run(StateModel::Nothing, xs).0, x).1)
        =~= opt_events(spec_step(spec_run(StateModel::Nothing, xs).0, x).1));
}

/// The update that an arrival gives once the application is announced.
pub open spec fn update_of(x: Arrival) -> TrayEventModel {
    match x {
        Arrival::Icon(i) => TrayEventModel::IconUpdated(i),
        Arrival::Layout(l) => TrayEventModel::MenuUpdated(l),
    }
}

/// Once an application is announced, it stays so, and every arrival gives
/// its update, in order.
pub proof fn lemma_all_updates(xs: Seq<Arrival>)
    ensures
        spec_run(StateModel::All, xs) == (StateModel::All, xs.map_values(|x: Arrival| update_of(x))),
    decreases xs.len(),
{
    if xs.len() > 0 {
        lemma_all_updates(xs.drop_first());
        assert(xs.map_values(|x: Arrival| update_of(x)) =~= seq![update_of(xs[0])] + xs.drop_first().map_values(
            |x: Arrival| update_of(x),
        ));
    } else {
        assert(xs.map_values(|x: Arrival| update_of(x)) =~= Seq::<TrayEventModel>::empty());
    }
}

/// A `LayoutUpdated` or `ItemsPropertiesUpdated` signal that an application
/// sends about its menu makes the tray ask for that menu's layout again,
/// once, and changes nothing else.
pub proof fn lemma_menu_signals_ask_for_layout(a: AppModel, m: IncomingMessage)
    requires
        m.message_type == MessageType::Signal,
        opt_text(m.sender) == Some(a.raw_address),
        opt_text(m.path) == Some(a.menu),
        opt_text(m.interface) == Some("com.canonical.dbusmenu"@),
        opt_text(m.member) == Some("LayoutUpdated"@) || opt_text(m.member) == Some("ItemsPropertiesUpdated"@),
    ensures
        spec_handle(a, m, None) == Ok::<(AppModel, Option<TrayEventModel>, Seq<AppRequestModel>), DBusError>(
            (a, None, seq![AppRequestModel::GetLayout { destination: a.name, path: a.menu }]),
        ),
{
    reveal_strlit("com.canonical.dbusmenu");
    reveal_strlit("org.kde.StatusNotifierItem");
    reveal_strlit("LayoutUpdated");
    reveal_strlit("ItemsPropertiesUpdated");
    reveal_strlit("NewIcon");
    assert("com.canonical.dbusmenu"@ != "org.kde.StatusNotifierItem"@) by {
        assert("com.canonical.dbusmenu"@[0] != "org.kde.StatusNotifierItem"@[0]);
    }
}

/// A tray application: the unique bus address that its messages come from
/// and the well-known name that requests go to.
#[derive(Debug)]
pub struct Service {
    raw_address: String,
    name: String,
}

impl Service {
    /// The application at `raw_address` known as `name`.
    pub fn new(raw_address: String, name: String) -> (s: Service)
        ensures
            s.spec_raw_address() == raw_address@,
            s.spec_name() == name@,
    {
        Service { raw_address, name }
    }

    /// The unique bus address.
    pub closed spec fn spec_raw_address(&self) -> Seq<char> {
        self.raw_address@
    }

    /// The well-known name.
    pub closed spec fn spec_name(&self) -> Seq<char> {
        self.name@
    }

    /// The unique bus address.
    pub fn raw_address(&self) -> (r: String)
        ensures
            r@ == self.spec_raw_address(),
    {
        self.raw_address.clone()
    }

    /// The well-known name.
    pub fn name(&self) -> (r: String)
        ensures
            r@ == self.spec_name(),
    {
        self.name.clone()
    }

    /// The unique bus address, borrowed.
    pub fn raw_address_str(&self) -> (r: &str)
        ensures
            r@ == self.spec_raw_address(),
    {
        self.raw_address.as_str()
    }

    /// The well-known name, borrowed.
    pub fn name_str(&self) -> (r: &str)
        ensures
            r@ == self.spec_name(),
    {
        self.name.as_str()
    }
}

/// What the tray sends on behalf of an application.
#[derive(Debug)]
pub enum AppRequest {
    /// Ask once for the menu path, the icon name and the icon pixmap.
    RequestProps { destination: String },
    /// Ask for them and follow their changes.
    GetAndSubscribeProps { destination: String },
    /// Stop following their changes.
    UnsubscribeProps { destination: String },
    /// Receive the signals that `rule` selects.
    AddMatch { rule: String },
    /// Stop receiving them.
    RemoveMatch { rule: String },
    /// Ask for the menu layout at `path`.
    GetLayout { destination: String, path: String },
    /// Tell the application that entry `id` of its menu was clicked.
    Event { id: i32, timestamp: u32, destination: String, path: String },
}

/// The model of a request.
pub enum AppRequestModel {
    RequestProps { destination: Seq<char> },
    GetAndSubscribeProps { destination: Seq<char> },
    UnsubscribeProps { destination: Seq<char> },
    AddMatch { rule: Seq<char> },
    RemoveMatch { rule: Seq<char> },
    GetLayout { destination: Seq<char>, path: Seq<char> },
    Event { id: i32, timestamp: u32, destination: Seq<char>, path: Seq<char> },
}

/// The model of a request.
pub open spec fn request_model(r: AppRequest) -> AppRequestModel {
    match r {
        AppRequest::RequestProps { destination } => AppRequestModel::RequestProps { destination: destination@ },
        AppRequest::GetAndSubscribeProps { destination } => AppRequestModel::GetAndSubscribeProps {
            destination: destination@,
        },
        AppRequest::UnsubscribeProps { destination } => AppRequestModel::UnsubscribeProps {
            destination: destination@,
        },
        AppRequest::AddMatch { rule } => AppRequestModel::AddMatch { rule: rule@ },
        AppRequest::RemoveMatch { rule } => AppRequestModel::RemoveMatch { rule: rule@ },
        AppRequest::GetLayout { destination, path } => AppRequestModel::GetLayout {
            destination: destination@,
            path: path@,
        },
        AppRequest::Event { id, timestamp, destination, path } => AppRequestModel::Event {
            id,
            timestamp,
            destination: destination@,
            path: path@,
        },
    }
}

/// The models of a list of requests, in order.
pub open spec fn requests_model(s: Seq<AppRequest>) -> Seq<AppRequestModel> {
    s.map_values(|r: AppRequest| request_model(r))
}

/// The match rule for the `NewIcon` signals of the application named `name`.
pub open spec fn new_icon_rule(name: Seq<char>) -> Seq<char> {
    spec_signal_match_rule(name, "org.kde.StatusNotifierItem"@, "NewIcon"@, "/StatusNotifierItem"@)
}

/// The match rule for the `LayoutUpdated` signals of the menu at `menu`.
pub open spec fn layout_updated_rule(name: Seq<char>, menu: Seq<char>) -> Seq<char> {
    spec_signal_match_rule(name, "com.canonical.dbusmenu"@, "LayoutUpdated"@, menu)
}

/// The match rule for the `ItemsPropertiesUpdated` signals of the menu at `menu`.
pub open spec fn items_updated_rule(name: Seq<char>, menu: Seq<char>) -> Seq<char> {
    spec_signal_match_rule(name, "com.canonical.dbusmenu"@, "ItemsPropertiesUpdated"@, menu)
}

/// A property value of an application that a message brought: the reply to a
/// request for it, or a signal that it changed.
#[derive(Debug)]
pub enum PropertyValue {
    Menu(String),
    IconName(String),
    IconPixmap(TrayIconPixmap),
}

impl PropertyValue {
    /// A copy of the value.
    pub fn duplicate(&self) -> (r: PropertyValue)
        ensures
            property_model(Some(r)) == property_model(Some(*self)),
    {
        match self {
            PropertyValue::Menu(m) => PropertyValue::Menu(m.clone()),
            PropertyValue::IconName(n) => PropertyValue::IconName(n.clone()),
            PropertyValue::IconPixmap(p) => PropertyValue::IconPixmap(
                TrayIconPixmap { width: p.width, height: p.height, bytes: p.bytes.clone() },
            ),
        }
    }
}

/// The model of a property value.
pub enum PropertyModel {
    Menu(Seq<char>),
    IconName(Seq<char>),
    IconPixmap(TrayIconModel),
}

/// The model of an optional property value.
pub open spec fn property_model(p: Option<PropertyValue>) -> Option<PropertyModel> {
    match p {
        Some(PropertyValue::Menu(m)) => Some(PropertyModel::Menu(m@)),
        Some(PropertyValue::IconName(n)) => Some(PropertyModel::IconName(n@)),
        Some(PropertyValue::IconPixmap(p)) => Some(
            PropertyModel::IconPixmap(TrayIconModel::Pixmap { width: p.width, height: p.height, bytes: p.bytes@ }),
        ),
        None => None,
    }
}

/// The part of an application's state that decides what its messages lead to.
pub struct AppModel {
    pub raw_address: Seq<char>,
    pub name: Seq<char>,
    pub menu: Seq<char>,
    pub state: StateModel,
    pub get_layout_serial: Option<u32>,
}

/// Why a click could not be passed on.
#[derive(Debug, Clone, Copy, PartialEq, Eq, Structural)]
pub enum EncodeError {
    /// The time does not fit the field of the request.
    ValueTooLong,
}

/// A tray application as the tray follows it.
#[derive(Debug)]
pub struct App {
    pub service: Service,
    pub menu: String,
    pub state: State,
    pub get_layout_serial: Option<u32>,
}

/// The model of an application.
pub open spec fn app_model(a: App) -> AppModel {
    AppModel {
        raw_address: a.service.spec_raw_address(),
        name: a.service.spec_name(),
        menu: a.menu@,
        state: state_model(a.state),
        get_layout_serial: a.get_layout_serial,
    }
}

/// What the arrival of the menu path `menu` leads to: nothing once a menu is
/// known; else the menu is kept, its layout is asked for and its changes are
/// followed.
pub open spec fn spec_on_menu(a: AppModel, menu: Seq<char>) -> (AppModel, Seq<AppRequestModel>) {
    if a.menu.len() != 0 {
        (a, Seq::empty())
    } else {
        (
            AppModel { menu, ..a },
            seq![
                AppRequestModel::GetLayout { destination: a.name, path: menu },
                AppRequestModel::AddMatch { rule: layout_updated_rule(a.name, menu) },
                AppRequestModel::AddMatch { rule: items_updated_rule(a.name, menu) },
            ],
        )
    }
}

/// Whether `m` answers the last layout request of `a`.
pub open spec fn is_layout_reply(a: AppModel, m: IncomingMessage) -> bool {
    &&& a.get_layout_serial is Some
    &&& m.message_type == MessageType::MethodReturn
    &&& m.reply_serial == a.get_layout_serial
}

/// What a message from an application leads to, given the property value
/// that it brought if any: the new state, an event for the tray and the
/// requests to send. Messages from other senders change nothing.
pub open spec fn spec_handle(a: AppModel, m: IncomingMessage, p: Option<PropertyModel>) -> Result<
    (AppModel, Option<TrayEventModel>, Seq<AppRequestModel>),
    DBusError,
> {
    if opt_text(m.sender) != Some(a.raw_address) {
        Ok((a, None, Seq::empty()))
    } else {
        match p {
            Some(PropertyModel::Menu(menu)) => {
                let (next, reqs) = spec_on_menu(a, menu);
                Ok((next, None, reqs))
            },
            Some(PropertyModel::IconName(name)) => {
                if name.len() == 0 {
                    Ok((a, None, Seq::empty()))
                } else {
                    let (s, e) = spec_on_icon(a.state, spec_detect_name_or_path(name));
                    Ok((AppModel { state: s, ..a }, e, Seq::empty()))
                }
            },
            Some(PropertyModel::IconPixmap(pixmap)) => {
                let (s, e) = spec_on_icon(a.state, pixmap);
                Ok((AppModel { state: s, ..a }, e, Seq::empty()))
            },
            None => {
                if is_layout_reply(a, m) {
                    match m.body {
                        None => Err(DBusError::MissingBody),
                        Some(body) => match spec_get_layout_reply(a.name, body@) {
                            Err(e) => Err(e),
                            Ok(layout) => {
                                let (s, e) = spec_on_layout(a.state, layout);
                                Ok((AppModel { state: s, ..a }, e, Seq::empty()))
                            },
                        },
                    }
                } else if spec_check_signal(m, "org.kde.StatusNotifierItem"@, "/StatusNotifierItem"@, "NewIcon"@, a.raw_address) is Ok {
                    Ok((a, None, seq![AppRequestModel::RequestProps { destination: a.name }]))
                } else if spec_check_signal(m, "com.canonical.dbusmenu"@, a.menu, "LayoutUpdated"@, a.raw_address) is Ok
                    || spec_check_signal(m, "com.canonical.dbusmenu"@, a.menu, "ItemsPropertiesUpdated"@, a.raw_address) is Ok {
                    Ok((a, None, seq![AppRequestModel::GetLayout { destination: a.name, path: a.menu }]))
                } else {
                    Ok((a, None, Seq::empty()))
                }
            },
        }
    }
}

/// Whether handling `m` ends normally: only a layout reply of the
/// application itself is read, and reading it must end normally.
pub open spec fn handle_safe(a: AppModel, m: IncomingMessage, p: Option<PropertyModel>) -> bool {
    (opt_text(m.sender) == Some(a.raw_address) && p is None && is_layout_reply(a, m) && m.body is Some)
        ==> layout_reply_safe(a.name, m.body.unwrap()@)
}

impl App {
    /// An application that nothing has been learnt of yet.
    pub fn new(service: Service) -> (app: App)
        ensures
            app_model(app) == (AppModel {
                raw_address: service.spec_raw_address(),
                name: service.spec_name(),
                menu: ""@,
                state: StateModel::Nothing,
                get_layout_serial: None,
            }),
    {
        App { service, menu: String::from_str(""), state: State::Nothing, get_layout_serial: None }
    }

    /// The requests that start following the application: its `NewIcon`
    /// signals and its properties.
    pub fn init(&mut self) -> (reqs: Vec<AppRequest>)
        ensures
            app_model(*final(self)) == app_model(*old(self)),
            requests_model(reqs@) == seq![
                AppRequestModel::AddMatch { rule: new_icon_rule(old(self).service.spec_name()) },
                AppRequestModel::GetAndSubscribeProps { destination: old(self).service.spec_name() },
            ],
    {
        let mut reqs: Vec<AppRequest> = Vec::new();
        reqs.push(AppRequest::AddMatch { rule: new_icon_match_rule(self.service.name_str()) });
        reqs.push(AppRequest::GetAndSubscribeProps { destination: self.service.name() });
        assert(requests_model(reqs@) =~= seq![
            AppRequestModel::AddMatch { rule: new_icon_rule(old(self).service.spec_name()) },
            AppRequestModel::GetAndSubscribeProps { destination: old(self).service.spec_name() },
        ]);
        reqs
    }

    /// The requests that stop following the application when it leaves.
    pub fn reset(&mut self) -> (reqs: Vec<AppRequest>)
        ensures
            app_model(*final(self)) == app_model(*old(self)),
            requests_model(reqs@) == seq![
                AppRequestModel::RemoveMatch { rule: new_icon_rule(old(self).service.spec_name()) },
                AppRequestModel::UnsubscribeProps { destination: old(self).service.spec_name() },
                AppRequestModel::RemoveMatch { rule: layout_updated_rule(old(self).service.spec_name(), old(self).menu@) },
                AppRequestModel::RemoveMatch { rule: items_updated_rule(old(self).service.spec_name(), old(self).menu@) },
            ],
    {
        let mut reqs: Vec<AppRequest> = Vec::new();
        let name = self.service.name_str();
        reqs.push(AppRequest::RemoveMatch { rule: new_icon_match_rule(name) });
        reqs.push(AppRequest::UnsubscribeProps { destination: self.service.name() });
        reqs.push(AppRequest::RemoveMatch { rule: layout_updated_match_rule(name, self.menu.as_str()) });
        reqs.push(AppRequest::RemoveMatch { rule: items_properties_updated_match_rule(name, self.menu.as_str()) });
        assert(requests_model(reqs@) =~= seq![
            AppRequestModel::RemoveMatch { rule: new_icon_rule(old(self).service.spec_name()) },
            AppRequestModel::UnsubscribeProps { destination: old(self).service.spec_name() },
            AppRequestModel::RemoveMatch { rule: layout_updated_rule(old(self).service.spec_name(), old(self).menu@) },
            AppRequestModel::RemoveMatch { rule: items_updated_rule(old(self).service.spec_name(), old(self).menu@) },
        ]);
        reqs
    }

    /// Records the serial of the layout request that was sent, so that its
    /// reply is recognised.
    pub fn layout_requested(&mut self, serial: u32)
        ensures
            app_model(*final(self)) == (AppModel { get_layout_serial: Some(serial), ..app_model(*old(self)) }),
    {
        self.get_layout_serial = Some(serial);
    }

    /// Whether handling `message` with `property` ends normally, as
    /// `handle_safe` says.
    pub fn handle_is_safe(&self, message: &IncomingMessage, property: &Option<PropertyValue>) -> (r: bool)
        ensures
            r == handle_safe(app_model(*self), *message, property_model(*property)),
    {
        let from_app = match &message.sender {
            Some(s) => crate::text::str_eq(s.as_str(), self.service.raw_address_str()),
            None => false,
        };
        let is_reply = match self.get_layout_serial {
            Some(serial) => message.message_type == MessageType::MethodReturn && match message.reply_serial {
                Some(r) => r == serial,
                None => false,
            },
            None => false,
        };
        if from_app && property.is_none() && is_reply {
            match &message.body {
                Some(b) => layout_reply_is_safe(self.service.name_str(), b),
                None => true,
            }
        } else {
            true
        }
    }

    /// What a message from the bus leads to, as `spec_handle` says. `property`
    /// is the property value of this application that the message brought.
    pub fn handle(&mut self, message: &IncomingMessage, property: Option<PropertyValue>) -> (r: Result<
        (Option<TrayEvent>, Vec<AppRequest>),
        DBusError,
    >)
        requires
            handle_safe(app_model(*old(self)), *message, property_model(property)),
        ensures
            match r {
                Ok((e, reqs)) => spec_handle(app_model(*old(self)), *message, property_model(property)) == Ok::<
                    (AppModel, Option<TrayEventModel>, Seq<AppRequestModel>),
                    DBusError,
                >((app_model(*final(self)), opt_event_model(e), requests_model(reqs@))),
                Err(err) => spec_handle(app_model(*old(self)), *message, property_model(property)) == Err::<
                    (AppModel, Option<TrayEventModel>, Seq<AppRequestModel>),
                    DBusError,
                >(err) && app_model(*final(self)) == app_model(*old(self)),
            },
    {
        let mut reqs: Vec<AppRequest> = Vec::new();
        let from_app = match &message.sender {
            Some(s) => crate::text::str_eq(s.as_str(), self.service.raw_address_str()),
            None => false,
        };
        if !from_app {
            assert(requests_model(reqs@) =~= Seq::<AppRequestModel>::empty());
            return Ok((None, reqs));
        }
        match property {
            Some(PropertyValue::Menu(menu)) => {
                if self.menu.as_str().is_empty() {
                    let name = self.service.name_str();
                    reqs.push(AppRequest::GetLayout { destination: self.service.name(), path: menu.clone() });
                    reqs.push(AppRequest::AddMatch { rule: layout_updated_match_rule(name, menu.as_str()) });
                    reqs.push(
                        AppRequest::AddMatch { rule: items_properties_updated_match_rule(name, menu.as_str()) },
                    );
                    self.menu = menu;
                }
                proof {
                    let (_, expected) = spec_on_menu(app_model(*old(self)), property_model(property)->0->Menu_0);
                    assert(requests_model(reqs@) =~= expected);
                }
                Ok((None, reqs))
            },
            Some(PropertyValue::IconName(name)) => {
                assert(requests_model(reqs@) =~= Seq::<AppRequestModel>::empty());
                if name.as_str().is_empty() {
                    Ok((None, reqs))
                } else {
                    let icon = TrayIcon::detect_name_or_path(name.as_str());
                    let e = self.state.on_icon_received(icon);
                    Ok((e, reqs))
                }
            },
            Some(PropertyValue::IconPixmap(pixmap)) => {
                assert(requests_model(reqs@) =~= Seq::<AppRequestModel>::empty());
                let e = self.state.on_icon_received(TrayIcon::Pixmap(pixmap));
                Ok((e, reqs))
            },
            None => {
                let is_reply = match self.get_layout_serial {
                    Some(serial) => message.message_type == MessageType::MethodReturn && match message.reply_serial {
                        Some(r) => r == serial,
                        None => false,
                    },
                    None => false,
                };
                if is_reply {
                    let body = match &message.body {
                        Some(b) => b,
                        None => return Err(DBusError::MissingBody),
                    };
                    let layout = match parse_get_layout_reply(self.service.name_str(), body) {
                        Ok(l) => l,
                        Err(e) => return Err(e),
                    };
                    assert(requests_model(reqs@) =~= Seq::<AppRequestModel>::empty());
                    let e = self.state.on_layout_receieved(layout);
                    Ok((e, reqs))
                } else if parse_new_icon_signal(message, self.service.raw_address_str()).is_ok() {
                    reqs.push(AppRequest::RequestProps { destination: self.service.name() });
                    assert(requests_model(reqs@) =~= seq![AppRequestModel::RequestProps { destination: old(self).service.spec_name() }]);
                    Ok((None, reqs))
                } else if parse_layout_updated_signal(message, self.service.raw_address_str(), self.menu.as_str()).is_ok()
                    || parse_items_properties_updated_signal(
                    message,
                    self.service.raw_address_str(),
                    self.menu.as_str(),
                ).is_ok() {
                    reqs.push(AppRequest::GetLayout { destination: self.service.name(), path: self.menu.clone() });
                    assert(requests_model(reqs@) =~= seq![AppRequestModel::GetLayout { destination: old(self).service.spec_name(), path: old(self).menu@ }]);
                    Ok((None, reqs))
                } else {
                    assert(requests_model(reqs@) =~= Seq::<AppRequestModel>::empty());
                    Ok((None, reqs))
                }
            },
        }
    }

    /// The request that tells the application that entry `id` of its menu was
    /// clicked at the Unix time `now`; times that do not fit a `u32` are refused.
    pub fn trigger(&self, id: i32, now: i64) -> (r: Result<AppRequest, EncodeError>)
        ensures
            match r {
                Ok(req) => 0 <= now <= u32::MAX && request_model(req) == (AppRequestModel::Event {
                    id,
                    timestamp: now as u32,
                    destination: self.service.spec_name(),
                    path: self.menu@,
                }),
                Err(e) => (now < 0 || now > u32::MAX) && e == EncodeError::ValueTooLong,
            },
    {
        if now < 0 || now > 0xffff_ffff {
            return Err(EncodeError::ValueTooLong);
        }
        Ok(AppRequest::Event { id, timestamp: now as u32, destination: self.service.name(), path: self.menu.clone() })
    }
}

} // verus!
