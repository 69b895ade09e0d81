//! The D-Bus messages that the modules read, decoded into plain values, and
//! the header checks that recognise the signals and calls they answer to.
use vstd::prelude::*;
use vstd::string::StringExecFns;
use crate::text::str_eq;

verus! {

/// The kind of a D-Bus message.
#[derive(Debug, Clone, Copy, PartialEq, Eq, Structural)]
pub enum MessageType {
    MethodCall,
    MethodReturn,
    Error,
    Signal,
}

/// The type of a D-Bus value, as a signature spells it. Types that no module
/// reads are `Other`.
#[derive(Debug)]
pub enum CompleteType {
    Byte,
    Bool,
    Int32,
    UInt32,
    String,
    ObjectPath,
    Array(Box<CompleteType>),
    Struct(Vec<CompleteType>),
    DictEntry(Box<CompleteType>, Box<CompleteType>),
    Variant,
    Other,
}

/// A decoded D-Bus value; an array carries the type of its elements. Values of
/// the types that no module reads are `Other`.
#[derive(Debug)]
pub enum IncomingValue {
    Byte(u8),
    Bool(bool),
    Int32(i32),
    UInt32(u32),
    String(String),
    ObjectPath(String),
    Array(CompleteType, Vec<IncomingValue>),
    Struct(Vec<IncomingValue>),
    DictEntry(Box<IncomingValue>, Box<IncomingValue>),
    Variant(Box<IncomingValue>),
    Other,
}

/// A decoded incoming D-Bus message: its header fields and its body.
#[derive(Debug)]
pub struct IncomingMessage {
    pub message_type: MessageType,
    pub serial: u32,
    pub reply_serial: Option<u32>,
    pub path: Option<String>,
    pub interface: Option<String>,
    pub member: Option<String>,
    pub destination: Option<String>,
    pub sender: Option<String>,
    pub body: Option<Vec<IncomingValue>>,
}

/// A header field of a message.
#[derive(Debug, Clone, Copy, PartialEq, Eq, Structural)]
pub enum HeaderField {
    Path,
    Interface,
    Member,
    Destination,
    Sender,
}

/// Why a message is not the one that was looked for.
#[derive(Debug, Clone, Copy, PartialEq, Eq, Structural)]
pub enum DBusError {
    /// The message is of another kind (a call where a signal was expected, ...).
    UnexpectedMessageType,
    /// A header field that the message must carry is absent.
    MissingHeader(HeaderField),
    /// A header field holds another value than the expected one.
    UnexpectedHeader(HeaderField),
    /// The message has no body.
    MissingBody,
    /// The body, a struct or an array ends before a value that must be there.
    MissingValue,
    /// A value is of another type, or holds another value, than expected.
    UnexpectedValue,
    /// A reply lacks a property that it must carry.
    MissingProperty,
}

/// The bus match rule that selects the signals `member` of `interface` at
/// `path` sent by `sender`.
pub open spec fn spec_signal_match_rule(sender: Seq<char>, interface: Seq<char>, member: Seq<char>, path: Seq<char>) -> Seq<char> {
    "type='signal',sender='"@ + sender + "',interface='"@ + interface + "',member='"@ + member + "',path='"@
        + path + "'"@
}

/// Writes the match rule that `spec_signal_match_rule` describes.
pub fn signal_match_rule(sender: &str, interface: &str, member: &str, path: &str) -> (r: String)
    ensures
        r@ == spec_signal_match_rule(sender@, interface@, member@, path@),
{
    String::from_str("type='signal',sender='").concat(sender).concat("',interface='").concat(interface).concat(
        "',member='",
    ).concat(member).concat("',path='").concat(path).concat("'")
}

/// The text of an optional header field, when it is there.
pub open spec fn opt_text(o: Option<String>) -> Option<Seq<char>> {
    match o {
        Some(s) => Some(s@),
        None => None,
    }
}

/// What checking `m` for the signal `member` of `interface` at `path`, sent by
/// `sender`, finds: the first absent field (path, interface, member, sender,
/// in that order), else the first field that differs (interface, path, member,
/// sender, in that order), else nothing.
pub open spec fn spec_check_signal(
    m: IncomingMessage,
    interface: Seq<char>,
    path: Seq<char>,
    member: Seq<char>,
    sender: Seq<char>,
) -> Result<(), DBusError> {
    if m.message_type != MessageType::Signal {
        Err(DBusError::UnexpectedMessageType)
    } else if m.path is None {
        Err(DBusError::MissingHeader(HeaderField::Path))
    } else if m.interface is None {
        Err(DBusError::MissingHeader(HeaderField::Interface))
    } else if m.member is None {
        Err(DBusError::MissingHeader(HeaderField::Member))
    } else if m.sender is None {
        Err(DBusError::MissingHeader(HeaderField::Sender))
    } else if m.interface.unwrap()@ != interface {
        Err(DBusError::UnexpectedHeader(HeaderField::Interface))
    } else if m.path.unwrap()@ != path {
        Err(DBusError::UnexpectedHeader(HeaderField::Path))
    } else if m.member.unwrap()@ != member {
        Err(DBusError::UnexpectedHeader(HeaderField::Member))
    } else if m.sender.unwrap()@ != sender {
        Err(DBusError::UnexpectedHeader(HeaderField::Sender))
    } else {
        Ok(())
    }
}

/// Checks that `m` is the signal `member` of `interface` at `path` from
/// `sender`, as `spec_check_signal` says.
pub fn check_signal(m: &IncomingMessage, interface: &str, path: &str, member: &str, sender: &str) -> (r:
    Result<(), DBusError>)
    ensures
        r == spec_check_signal(*m, interface@, path@, member@, sender@),
{
    if m.message_type != MessageType::Signal {
        return Err(DBusError::UnexpectedMessageType);
    }
    let m_path = match &m.path {
        Some(p) => p,
        None => return Err(DBusError::MissingHeader(HeaderField::Path)),
    };
    let m_interface = match &m.interface {
        Some(i) => i,
        None => return Err(DBusError::MissingHeader(HeaderField::Interface)),
    };
    let m_member = match &m.member {
        Some(i) => i,
        None => return Err(DBusError::MissingHeader(HeaderField::Member)),
    };
    let m_sender = match &m.sender {
        Some(i) => i,
        None => return Err(DBusError::MissingHeader(HeaderField::Sender)),
    };
    if !str_eq(m_interface.as_str(), interface) {
        return Err(DBusError::UnexpectedHeader(HeaderField::Interface));
    }
    if !str_eq(m_path.as_str(), path) {
        return Err(DBusError::UnexpectedHeader(HeaderField::Path));
    }
    if !str_eq(m_member.as_str(), member) {
        return Err(DBusError::UnexpectedHeader(HeaderField::Member));
    }
    if !str_eq(m_sender.as_str(), sender) {
        return Err(DBusError::UnexpectedHeader(HeaderField::Sender));
    }
    Ok(())
}

/// The alias that a `NameOwnerChanged` signal of the bus reports as gone (its
/// new owner is empty), or why `m` is not such a signal.
pub open spec fn spec_name_owner_changed(m: IncomingMessage) -> Result<Seq<char>, DBusError> {
    if m.message_type != MessageType::Signal {
        Err(DBusError::UnexpectedMessageType)
    } else if m.path is None {
        Err(DBusError::MissingHeader(HeaderField::Path))
    } else if m.interface is None {
        Err(DBusError::MissingHeader(HeaderField::Interface))
    } else if m.member is None {
        Err(DBusError::MissingHeader(HeaderField::Member))
    } else if m.body is None {
        Err(DBusError::MissingBody)
    } else if m.path.unwrap()@ != "/org/freedesktop/DBus"@ {
        Err(DBusError::UnexpectedHeader(HeaderField::Path))
    } else if m.interface.unwrap()@ != "org.freedesktop.DBus"@ {
        Err(DBusError::UnexpectedHeader(HeaderField::Interface))
    } else if m.member.unwrap()@ != "NameOwnerChanged"@ {
        Err(DBusError::UnexpectedHeader(HeaderField::Member))
    } else {
        let body = m.body.unwrap()@;
        if body.len() < 3 {
            Err(DBusError::MissingValue)
        } else {
            match (body[0], body[1], body[2]) {
                (IncomingValue::String(alias), IncomingValue::String(_), IncomingValue::String(to)) => {
                    if to@.len() == 0 {
                        Ok(alias@)
                    } else {
                        Err(DBusError::UnexpectedValue)
                    }
                },
                _ => Err(DBusError::UnexpectedValue),
            }
        }
    }
}

/// Reads the alias that a `NameOwnerChanged` signal reports as gone, as
/// `spec_name_owner_changed` says.
pub fn parse_name_owner_changed(m: &IncomingMessage) -> (r: Result<&String, DBusError>)
    ensures
        r is Ok ==> spec_name_owner_changed(*m) == Ok::<Seq<char>, DBusError>(r->Ok_0@),
        r is Err ==> spec_name_owner_changed(*m) == Err::<Seq<char>, DBusError>(r->Err_0),
{
    if m.message_type != MessageType::Signal {
        return Err(DBusError::UnexpectedMessageType);
    }
    let path = match &m.path {
        Some(p) => p,
        None => return Err(DBusError::MissingHeader(HeaderField::Path)),
    };
    let interface = match &m.interface {
        Some(p) => p,
        None => return Err(DBusError::MissingHeader(HeaderField::Interface)),
    };
    let member = match &m.member {
        Some(p) => p,
        None => return Err(DBusError::MissingHeader(HeaderField::Member)),
    };
    let body = match &m.body {
        Some(b) => b,
        None => return Err(DBusError::MissingBody),
    };
    if !str_eq(path.as_str(), "/org/freedesktop/DBus") {
        return Err(DBusError::UnexpectedHeader(HeaderField::Path));
    }
    if !str_eq(interface.as_str(), "org.freedesktop.DBus") {
        return Err(DBusError::UnexpectedHeader(HeaderField::Interface));
    }
    if !str_eq(member.as_str(), "NameOwnerChanged") {
        return Err(DBusError::UnexpectedHeader(HeaderField::Member));
    }
    if body.len() < 3 {
        return Err(DBusError::MissingValue);
    }
    match (&body[0], &body[1], &body[2]) {
        (IncomingValue::String(alias), IncomingValue::String(_), IncomingValue::String(to)) => {
            if to.as_str().is_empty() {
                Ok(alias)
            } else {
                Err(DBusError::UnexpectedValue)
            }
        },
        _ => Err(DBusError::UnexpectedValue),
    }
}

} // verus!
