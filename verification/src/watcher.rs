//! The `org.kde.StatusNotifierWatcher` service that the tray offers: the
//! requests that applications send it, its introspection data and its
//! answers.
use vstd::prelude::*;
use vstd::string::StringExecFns;
use crate::dbus::{CompleteType, DBusError, HeaderField, IncomingMessage, IncomingValue, MessageType};
use crate::text::str_eq;

verus! {

/// A request sent to the watcher.
#[derive(Debug)]
pub enum KSNIRequest {
    /// An application registers the item at `address`.
    NewItem { address: String },
    /// Any other method of the watcher.
    Other,
}

/// The model of a request.
pub enum KSNIRequestModel {
    NewItem { address: Seq<char> },
    Other,
}

/// The serial, sender and request that a method call to the watcher carries,
/// or why `m` is not one: the header fields must be there (path, member,
/// interface, destination, sender, body, in that order) and name the watcher
/// (path, interface, destination, in that order); a registration carries the
/// item's address first in its body.
pub open spec fn spec_ksni_request(m: IncomingMessage) -> Result<(u32, Seq<char>, KSNIRequestModel), DBusError> {
    if m.message_type != MessageType::MethodCall {
        Err(DBusError::UnexpectedMessageType)
    } else if m.path is None {
        Err(DBusError::MissingHeader(HeaderField::Path))
    } else if m.member is None {
        Err(DBusError::MissingHeader(HeaderField::Member))
    } else if m.interface is None {
        Err(DBusError::MissingHeader(HeaderField::Interface))
    } else if m.destination is None {
        Err(DBusError::MissingHeader(HeaderField::Destination))
    } else if m.sender is None {
        Err(DBusError::MissingHeader(HeaderField::Sender))
    } else if m.body is None {
        Err(DBusError::MissingBody)
    } else if m.path.unwrap()@ != "/StatusNotifierWatcher"@ {
        Err(DBusError::UnexpectedHeader(HeaderField::Path))
    } else if m.interface.unwrap()@ != "org.kde.StatusNotifierWatcher"@ {
        Err(DBusError::UnexpectedHeader(HeaderField::Interface))
    } else if m.destination.unwrap()@ != "org.kde.StatusNotifierWatcher"@ {
        Err(DBusError::UnexpectedHeader(HeaderField::Destination))
    } else if m.member.unwrap()@ == "RegisterStatusNotifierItem"@ {
        let body = m.body.unwrap()@;
        if body.len() < 1 {
            Err(DBusError::MissingValue)
        } else {
            match body[0] {
                IncomingValue::String(address) => Ok(
                    (m.serial, m.sender.unwrap()@, KSNIRequestModel::NewItem { address: address@ }),
                ),
                _ => Err(DBusError::UnexpectedValue),
            }
        }
    } else {
        Ok((m.serial, m.sender.unwrap()@, KSNIRequestModel::Other))
    }
}

impl KSNIRequest {
    /// Reads a method call to the watcher, as `spec_ksni_request` says.
    pub fn parse(message: &IncomingMessage) -> (r: Result<(u32, String, KSNIRequest), DBusError>)
        ensures
            match r {
                Ok((serial, sender, KSNIRequest::NewItem { address })) => spec_ksni_request(*message) == Ok::<
                    (u32, Seq<char>, KSNIRequestModel),
                    DBusError,
                >((serial, sender@, KSNIRequestModel::NewItem { address: address@ })),
                Ok((serial, sender, KSNIRequest::Other)) => spec_ksni_request(*message) == Ok::<
                    (u32, Seq<char>, KSNIRequestModel),
                    DBusError,
                >((serial, sender@, KSNIRequestModel::Other)),
                Err(e) => spec_ksni_request(*message) == Err::<(u32, Seq<char>, KSNIRequestModel), DBusError>(e),
            },
    {
        if message.message_type != MessageType::MethodCall {
            return Err(DBusError::UnexpectedMessageType);
        }
        let serial = message.serial;
        let path = match &message.path {
            Some(p) => p,
            None => return Err(DBusError::MissingHeader(HeaderField::Path)),
        };
        let member = match &message.member {
            Some(p) => p,
            None => return Err(DBusError::MissingHeader(HeaderField::Member)),
        };
        let interface = match &message.interface {
            Some(p) => p,
            None => return Err(DBusError::MissingHeader(HeaderField::Interface)),
        };
        let destination = match &message.destination {
            Some(p) => p,
            None => return Err(DBusError::MissingHeader(HeaderField::Destination)),
        };
        let sender = match &message.sender {
            Some(p) => p,
            None => return Err(DBusError::MissingHeader(HeaderField::Sender)),
        };
        let body = match &message.body {
            Some(b) => b,
            None => return Err(DBusError::MissingBody),
        };
        if !str_eq(path.as_str(), "/StatusNotifierWatcher") {
            return Err(DBusError::UnexpectedHeader(HeaderField::Path));
        }
        if !str_eq(interface.as_str(), "org.kde.StatusNotifierWatcher") {
            return Err(DBusError::UnexpectedHeader(HeaderField::Interface));
        }
        if !str_eq(destination.as_str(), "org.kde.StatusNotifierWatcher") {
            return Err(DBusError::UnexpectedHeader(HeaderField::Destination));
        }
        let req = if str_eq(member.as_str(), "RegisterStatusNotifierItem") {
            if body.len() < 1 {
                return Err(DBusError::MissingValue);
            }
            match &body[0] {
                IncomingValue::String(address) => KSNIRequest::NewItem { address: address.clone() },
                _ => return Err(DBusError::UnexpectedValue),
            }
        } else {
            KSNIRequest::Other
        };
        Ok((serial, sender.clone(), req))
    }
}

/// A value of a message that the watcher sends.
#[derive(Debug)]
pub enum OutgoingValue {
    String(String),
    Int32(i32),
    Bool(bool),
    Variant(Box<OutgoingValue>),
    DictEntry(Box<OutgoingValue>, Box<OutgoingValue>),
    Array(CompleteType, Vec<OutgoingValue>),
}

/// A message that the watcher sends.
#[derive(Debug)]
pub enum OutgoingMessage {
    /// A request for the name `name` on the bus.
    RequestName { name: String },
    /// A request to receive the signals that `rule` selects.
    AddMatch { rule: String },
    /// The answer to the call `reply_serial` of `destination`.
    MethodReturn { reply_serial: u32, destination: String, body: Vec<OutgoingValue> },
    /// The error answer that no such method exists.
    NoSuchMethod { reply_serial: u32, destination: String },
}

/// The request for the watcher's well-known name.
pub struct StatusNotifierWatcher;

impl StatusNotifierWatcher {
    /// Asks the bus for the name `org.kde.StatusNotifierWatcher`.
    pub fn request_ksni_name() -> (m: OutgoingMessage)
        ensures
            m matches OutgoingMessage::RequestName { name } && name@ == "org.kde.StatusNotifierWatcher"@,
    {
        OutgoingMessage::RequestName { name: String::from_str("org.kde.StatusNotifierWatcher") }
    }

    /// The empty answer to the call `serial` of `destination`.
    pub fn reply_ok(serial: u32, destination: &str) -> (m: OutgoingMessage)
        ensures
            m matches OutgoingMessage::MethodReturn { reply_serial, destination: d, body } && reply_serial == serial
                && d@ == destination@ && body@.len() == 0,
    {
        OutgoingMessage::MethodReturn {
            reply_serial: serial,
            destination: String::from_str(destination),
            body: Vec::new(),
        }
    }
}

/// A standard request about the objects of the watcher.
#[derive(Debug)]
pub enum IntrospectionRequest {
    /// `Introspect` of the object at `path`.
    Introspect { path: String },
    /// `GetAll` of the properties of `interface` at `path`.
    GetAllProperties { path: String, interface: String },
    /// `Get` of the property `property_name` of `interface` at `path`.
    GetProperty { path: String, interface: String, property_name: String },
    /// Another standard method.
    Other,
}

/// The standard interfaces that every object of the watcher offers.
pub const BUILTIN_INTERFACES: &'static str = r#"
<interface name="org.freedesktop.DBus.Introspectable">
    <method name="Introspect">
        <arg type="s" direction="out"/>
    </method>
</interface>

<interface name="org.freedesktop.DBus.Properties">
    <method name="Get">
        <arg name="interface_name" type="s" direction="in"/>
        <arg name="property_name" type="s" direction="in"/>
        <arg type="v" direction="out"/>
    </method>
    <method name="Set">
        <arg name="interface_name" type="s" direction="in"/>
        <arg name="property_name" type="s" direction="in"/>
        <arg name="value" type="v" direction="in"/>
    </method>
    <method name="GetAll">
        <arg name="interface_name" type="s" direction="in"/>
        <arg type="a{sv}" direction="out"/>
    </method>
    <signal name="PropertiesChanged">
        <arg name="interface_name" type="s"/>
        <arg name="changed_properties" type="a{sv}"/>
        <arg name="invalidated_properties" type="as"/>
    </signal>
</interface>

<interface name="org.freedesktop.DBus.Peer">
    <method name="Ping">
    </method>
    <method name="GetMachineId">
        <arg type="s" direction="out"/>
    </method>
</interface>
"#;

/// The watcher's own interface.
pub const KSNI_INTERFACE: &'static str = r#"
<interface name="org.kde.StatusNotifierWatcher">
    <method name="RegisterStatusNotifierItem">
        <arg name="service" type="s" direction="in" />
    </method>

    <method name="RegisterStatusNotifierHost">
        <arg name="service" type="s" direction="in" />
    </method>

    <property name="RegisteredStatusNotifierItems" type="as" access="read" />
    <property name="IsStatusNotifierHostRegistered" type="b" access="read" />
    <property name="ProtocolVersion" type="i" access="read" />

    <signal name="StatusNotifierItemRegistered">
        <arg type="s" />
    </signal>
    <signal name="StatusNotifierItemUnregistered">
        <arg type="s" />
    </signal>
    <signal name="StatusNotifierHostRegistered" />
    <signal name="StatusNotifierHostUnregistered" />

</interface>
"#;

/// The document type line of introspection data.
pub const XML_HEADER: &'static str = r#"
<!DOCTYPE node PUBLIC "-//freedesktop//DTD D-BUS Object Introspection 1.0//EN" "http://www.freedesktop.org/standards/dbus/1.0/introspect.dtd">
"#;

/// The introspection data of the watcher object.
pub open spec fn spec_ksni_xml() -> Seq<char> {
    "\n"@ + XML_HEADER@ + "\n<node>\n    "@ + KSNI_INTERFACE@ + "\n    "@ + BUILTIN_INTERFACES@ + "\n</node>\n"@
}

/// The introspection data of the root object, which holds the watcher object.
pub open spec fn spec_root_xml() -> Seq<char> {
    "\n"@ + XML_HEADER@ + "\n<node>\n    "@ + BUILTIN_INTERFACES@ + "\n    <node name=\"StatusNotifierWatcher\">\n        "@
        + KSNI_INTERFACE@ + "\n        "@ + BUILTIN_INTERFACES@ + "\n    </node>\n</node>\n"@
}

/// Writes the introspection data of the watcher object.
pub fn ksni_introspection_xml() -> (s: String)
    ensures
        s@ == spec_ksni_xml(),
{
    String::from_str("\n").concat(XML_HEADER).concat("\n<node>\n    ").concat(KSNI_INTERFACE).concat("\n    ").concat(
        BUILTIN_INTERFACES,
    ).concat("\n</node>\n")
}

/// Writes the introspection data of the root object.
pub fn root_introspection_xml() -> (s: String)
    ensures
        s@ == spec_root_xml(),
{
    String::from_str("\n").concat(XML_HEADER).concat("\n<node>\n    ").concat(BUILTIN_INTERFACES).concat(
        "\n    <node name=\"StatusNotifierWatcher\">\n        ",
    ).concat(KSNI_INTERFACE).concat("\n        ").concat(BUILTIN_INTERFACES).concat("\n    </node>\n</node>\n")
}

/// A sent value with its texts as characters and its elements as a sequence.
pub enum OutValueModel {
    String(Seq<char>),
    Int32(i32),
    Bool(bool),
    Variant(Box<OutValueModel>),
    DictEntry(Box<OutValueModel>, Box<OutValueModel>),
    Array(CompleteType, Seq<OutValueModel>),
}

/// The model of a sent value.
pub open spec fn out_model(v: OutgoingValue) -> OutValueModel
    decreases v,
{
    match v {
        OutgoingValue::String(s) => OutValueModel::String(s@),
        OutgoingValue::Int32(n) => OutValueModel::Int32(n),
        OutgoingValue::Bool(b) => OutValueModel::Bool(b),
        OutgoingValue::Variant(b) => OutValueModel::Variant(Box::new(out_model(*b))),
        OutgoingValue::DictEntry(k, v) => OutValueModel::DictEntry(Box::new(out_model(*k)), Box::new(out_model(*v))),
        OutgoingValue::Array(t, xs) => OutValueModel::Array(t, outs_model(xs@)),
    }
}

/// The models of a sequence of sent values, in order.
pub open spec fn outs_model(s: Seq<OutgoingValue>) -> Seq<OutValueModel>
    decreases s,
{
    if s.len() == 0 {
        Seq::empty()
    } else {
        seq![out_model(s[0])] + outs_model(s.drop_first())
    }
}

/// The model of a standard request.
pub enum IntrospectionRequestModel {
    Introspect { path: Seq<char> },
    GetAllProperties { path: Seq<char>, interface: Seq<char> },
    GetProperty { path: Seq<char>, interface: Seq<char>, property_name: Seq<char> },
    Other,
}

/// The model of a standard request.
pub open spec fn introspection_model(r: IntrospectionRequest) -> IntrospectionRequestModel {
    match r {
        IntrospectionRequest::Introspect { path } => IntrospectionRequestModel::Introspect { path: path@ },
        IntrospectionRequest::GetAllProperties { path, interface } => IntrospectionRequestModel::GetAllProperties {
            path: path@,
            interface: interface@,
        },
        IntrospectionRequest::GetProperty { path, interface, property_name } => IntrospectionRequestModel::GetProperty {
            path: path@,
            interface: interface@,
            property_name: property_name@,
        },
        IntrospectionRequest::Other => IntrospectionRequestModel::Other,
    }
}

/// The type `{sv}` of a property entry.
pub open spec fn entry_type() -> CompleteType {
    CompleteType::DictEntry(Box::new(CompleteType::String), Box::new(CompleteType::Variant))
}

/// The value of the watcher property `name`: protocol version 42, a host is
/// registered, no item is listed.
pub open spec fn spec_property_value(name: Seq<char>) -> Option<OutValueModel> {
    if name == "ProtocolVersion"@ {
        Some(OutValueModel::Variant(Box::new(OutValueModel::Int32(42))))
    } else if name == "IsStatusNotifierHostRegistered"@ {
        Some(OutValueModel::Variant(Box::new(OutValueModel::Bool(true))))
    } else if name == "RegisteredStatusNotifierItems"@ {
        Some(OutValueModel::Variant(Box::new(OutValueModel::Array(CompleteType::String, Seq::empty()))))
    } else {
        None
    }
}

/// The entry `name` to the value of that property.
pub open spec fn spec_property_entry(name: Seq<char>) -> OutValueModel {
    OutValueModel::DictEntry(Box::new(OutValueModel::String(name)), Box::new(spec_property_value(name).unwrap()))
}

/// The body of the answer to a standard request, or `None` when the answer
/// is that no such method exists.
pub open spec fn spec_introspection_answer(r: IntrospectionRequestModel) -> Option<Seq<OutValueModel>> {
    match r {
        IntrospectionRequestModel::Introspect { path } => {
            if path == "/"@ {
                Some(seq![OutValueModel::String(spec_root_xml())])
            } else if path == "/StatusNotifierWatcher"@ {
                Some(seq![OutValueModel::String(spec_ksni_xml())])
            } else {
                None
            }
        },
        IntrospectionRequestModel::GetAllProperties { path, interface } => {
            if path == "/StatusNotifierWatcher"@ && interface == "org.kde.StatusNotifierWatcher"@ {
                Some(
                    seq![
                        OutValueModel::Array(
                            entry_type(),
                            seq![
                                spec_property_entry("ProtocolVersion"@),
                                spec_property_entry("IsStatusNotifierHostRegistered"@),
                                spec_property_entry("RegisteredStatusNotifierItems"@),
                            ],
                        ),
                    ],
                )
            } else {
                None
            }
        },
        IntrospectionRequestModel::GetProperty { path, interface, property_name } => {
            if path == "/StatusNotifierWatcher"@ && interface == "org.kde.StatusNotifierWatcher"@ {
                match spec_property_value(property_name) {
                    Some(v) => Some(seq![v]),
                    None => None,
                }
            } else {
                None
            }
        },
        IntrospectionRequestModel::Other => None,
    }
}

/// Whether `m` answers the call `serial` of `sender` with the body `body`, or
/// with the error that no such method exists when `body` is `None`.
pub open spec fn is_answer(m: OutgoingMessage, serial: u32, sender: Seq<char>, body: Option<Seq<OutValueModel>>) -> bool {
    match body {
        Some(b) => m matches OutgoingMessage::MethodReturn { reply_serial, destination, body: mb } && reply_serial
            == serial && destination@ == sender && outs_model(mb@) == b,
        None => m matches OutgoingMessage::NoSuchMethod { reply_serial, destination } && reply_serial == serial
            && destination@ == sender,
    }
}

/// One sent value holds one model.
proof fn lemma_outs_model_one(v: OutgoingValue)
    ensures
        outs_model(seq![v]) == seq![out_model(v)],
{
    assert(seq![v].drop_first() =~= Seq::<OutgoingValue>::empty());
    assert(outs_model(Seq::<OutgoingValue>::empty()) =~= Seq::<OutValueModel>::empty());
    assert(seq![v][0] == v);
    assert(outs_model(seq![v]) =~= seq![out_model(v)]);
}

/// Three sent values hold three models.
proof fn lemma_outs_model_three(a: OutgoingValue, b: OutgoingValue, c: OutgoingValue)
    ensures
        outs_model(seq![a, b, c]) == seq![out_model(a), out_model(b), out_model(c)],
{
    assert(seq![a, b, c].drop_first() =~= seq![b, c]);
    assert(seq![b, c].drop_first() =~= seq![c]);
    lemma_outs_model_one(c);
    assert(outs_model(seq![b, c]) =~= seq![out_model(b), out_model(c)]);
    assert(outs_model(seq![a, b, c]) =~= seq![out_model(a), out_model(b), out_model(c)]);
}

/// The value of the watcher property `name`, when there is one.
fn property_value(name: &str) -> (r: Option<OutgoingValue>)
    ensures
        match r {
            Some(v) => spec_property_value(name@) == Some(out_model(v)),
            None => spec_property_value(name@) is None,
        },
{
    proof {
        reveal_with_fuel(out_model, 3);
        assert(outs_model(Seq::<OutgoingValue>::empty()) =~= Seq::<OutValueModel>::empty());
    }
    if str_eq(name, "ProtocolVersion") {
        Some(OutgoingValue::Variant(Box::new(OutgoingValue::Int32(42))))
    } else if str_eq(name, "IsStatusNotifierHostRegistered") {
        Some(OutgoingValue::Variant(Box::new(OutgoingValue::Bool(true))))
    } else if str_eq(name, "RegisteredStatusNotifierItems") {
        let v = OutgoingValue::Variant(Box::new(OutgoingValue::Array(CompleteType::String, Vec::new())));
        proof {
            assert(outs_model(Seq::<OutgoingValue>::empty()) =~= Seq::<OutValueModel>::empty());
        }
        Some(v)
    } else {
        None
    }
}

/// The entry from the property `name` to its value.
fn property_entry(name: &str) -> (r: OutgoingValue)
    requires
        spec_property_value(name@) is Some,
    ensures
        out_model(r) == spec_property_entry(name@),
{
    let v = property_value(name);
    proof {
        reveal_with_fuel(out_model, 2);
    }
    match v {
        Some(v) => OutgoingValue::DictEntry(Box::new(OutgoingValue::String(String::from_str(name))), Box::new(v)),
        None => OutgoingValue::Bool(false),
    }
}

/// The watcher's answers to the standard requests about its objects.
pub struct StatusNotifierWatcherIntrospection;

impl StatusNotifierWatcherIntrospection {
    /// The answerer.
    pub fn new() -> (s: Self) {
        StatusNotifierWatcherIntrospection
    }

    /// The answer to the call `serial` of `destination` with `body`.
    pub fn reply_ok(&self, serial: u32, destination: &str, body: Vec<OutgoingValue>) -> (m: OutgoingMessage)
        ensures
            m matches OutgoingMessage::MethodReturn { reply_serial, destination: d, body: b } && reply_serial == serial
                && d@ == destination@ && b == body,
    {
        OutgoingMessage::MethodReturn { reply_serial: serial, destination: String::from_str(destination), body }
    }

    /// The answer to the call `serial` of `destination` that no such method exists.
    pub fn reply_err(&self, serial: u32, destination: &str) -> (m: OutgoingMessage)
        ensures
            m matches OutgoingMessage::NoSuchMethod { reply_serial, destination: d } && reply_serial == serial
                && d@ == destination@,
    {
        OutgoingMessage::NoSuchMethod { reply_serial: serial, destination: String::from_str(destination) }
    }

    /// Answers a standard request (its serial, its sender and what it asks),
    /// as `spec_introspection_answer` says; `None` when the message is no such
    /// request.
    pub fn process_message(&mut self, request: Option<(u32, String, IntrospectionRequest)>) -> (r: Option<OutgoingMessage>)
        ensures
            match request {
                None => r is None,
                Some((serial, sender, req)) => r is Some && is_answer(
                    r.unwrap(),
                    serial,
                    sender@,
                    spec_introspection_answer(introspection_model(req)),
                ),
            },
    {
        let (serial, sender, req) = match request {
            Some(r) => r,
            None => return None,
        };
        let sender = sender.as_str();
        let reply = match req {
            IntrospectionRequest::Introspect { path } => {
                if str_eq(path.as_str(), "/") {
                    let mut body: Vec<OutgoingValue> = Vec::new();
                    body.push(OutgoingValue::String(root_introspection_xml()));
                    proof {
                        lemma_outs_model_one(body@[0]);
                        assert(body@ =~= seq![body@[0]]);
                    }
                    self.reply_ok(serial, sender, body)
                } else if str_eq(path.as_str(), "/StatusNotifierWatcher") {
                    let mut body: Vec<OutgoingValue> = Vec::new();
                    body.push(OutgoingValue::String(ksni_introspection_xml()));
                    proof {
                        lemma_outs_model_one(body@[0]);
                        assert(body@ =~= seq![body@[0]]);
                    }
                    self.reply_ok(serial, sender, body)
                } else {
                    self.reply_err(serial, sender)
                }
            },
            IntrospectionRequest::GetAllProperties { path, interface } => {
                if str_eq(path.as_str(), "/StatusNotifierWatcher") && str_eq(
                    interface.as_str(),
                    "org.kde.StatusNotifierWatcher",
                ) {
                    proof {
                        reveal_strlit("ProtocolVersion");
                        reveal_strlit("IsStatusNotifierHostRegistered");
                        reveal_strlit("RegisteredStatusNotifierItems");
                    }
                    let mut entries: Vec<OutgoingValue> = Vec::new();
                    entries.push(property_entry("ProtocolVersion"));
                    entries.push(property_entry("IsStatusNotifierHostRegistered"));
                    entries.push(property_entry("RegisteredStatusNotifierItems"));
                    proof {
                        assert(entries@ =~= seq![entries@[0], entries@[1], entries@[2]]);
                        lemma_outs_model_three(entries@[0], entries@[1], entries@[2]);
                    }
                    let t = CompleteType::DictEntry(Box::new(CompleteType::String), Box::new(CompleteType::Variant));
                    let mut body: Vec<OutgoingValue> = Vec::new();
                    body.push(OutgoingValue::Array(t, entries));
                    proof {
                        lemma_outs_model_one(body@[0]);
                        assert(body@ =~= seq![body@[0]]);
                    }
                    self.reply_ok(serial, sender, body)
                } else {
                    self.reply_err(serial, sender)
                }
            },
            IntrospectionRequest::GetProperty { path, interface, property_name } => {
                if str_eq(path.as_str(), "/StatusNotifierWatcher") && str_eq(
                    interface.as_str(),
                    "org.kde.StatusNotifierWatcher",
                ) {
                    match property_value(property_name.as_str()) {
                        Some(v) => {
                            let mut body: Vec<OutgoingValue> = Vec::new();
                            body.push(v);
                            proof {
                                lemma_outs_model_one(body@[0]);
                                assert(body@ =~= seq![body@[0]]);
                            }
                            self.reply_ok(serial, sender, body)
                        },
                        None => self.reply_err(serial, sender),
                    }
                } else {
                    self.reply_err(serial, sender)
                }
            },
            IntrospectionRequest::Other => self.reply_err(serial, sender),
        };
        Some(reply)
    }
}

/// The watcher's record of the last item that registered.
pub struct Watcher {
    pub new_item: Option<String>,
}

impl Watcher {
    /// No item registered yet.
    pub fn new() -> (w: Watcher)
        ensures
            w.new_item is None,
    {
        Watcher { new_item: None }
    }

    /// Takes the last item that registered, if any.
    pub fn pop_new_item(&mut self) -> (r: Option<String>)
        ensures
            r == old(self).new_item,
            final(self).new_item is None,
    {
        let mut taken: Option<String> = None;
        core::mem::swap(&mut taken, &mut self.new_item);
        taken
    }

    /// An item registers at `path`.
    pub fn register_status_notifier_item(&mut self, path: String)
        ensures
            final(self).new_item == Some(path),
    {
        self.new_item = Some(path);
    }

    /// A host registers; nothing to keep.
    pub fn register_status_notifier_host(&mut self, _service: String)
        ensures
            final(self).new_item == old(self).new_item,
    {
    }

    /// The registered items the watcher lists: none.
    pub fn registered_status_notifier_items(&self) -> (r: Vec<String>)
        ensures
            r@.len() == 0,
    {
        Vec::new()
    }

    /// Whether a host is registered: always, the tray being one.
    pub fn is_status_notifier_host_registered(&self) -> (r: bool)
        ensures
            r,
    {
        true
    }

    /// The protocol version the watcher speaks.
    pub fn protocol_version(&self) -> (r: i32)
        ensures
            r == 42,
    {
        42
    }
}

} // verus!
