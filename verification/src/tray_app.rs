//! A one-shot reading of all the properties of a status notifier item: the
//! request, and the checks on the types and values of its reply.
use vstd::prelude::*;
use vstd::string::StringExecFns;
use crate::dbus::{CompleteType, DBusError, IncomingValue};
use crate::ksni::{spec_byte_values, TrayIconModel};
use crate::text::str_eq;

verus! {

/// A `GetAll` request of the properties of `interface` of the object at
/// `path` of `destination`.
#[derive(Debug)]
pub struct GetAllPropertiesRequest {
    pub destination: String,
    pub path: String,
    pub interface: String,
}

/// Raw pixels of an icon.
#[derive(Debug)]
pub struct IconPixmap {
    pub w: i32,
    pub h: i32,
    pub bytes: Vec<u8>,
}

/// The properties of a status notifier item that the reply gives.
#[derive(Debug)]
pub struct GetAllPropsOutput {
    pub menu: Option<String>,
    pub icon_name: Option<String>,
    pub icon_pixmap: Option<IconPixmap>,
}

/// The model of the properties read: texts as characters, the pixmap as
/// its width, height and bytes.
pub struct PropsModel {
    pub menu: Option<Seq<char>>,
    pub icon_name: Option<Seq<char>>,
    pub icon_pixmap: Option<TrayIconModel>,
}

/// The model of the output.
pub open spec fn output_model(o: GetAllPropsOutput) -> PropsModel {
    PropsModel {
        menu: match o.menu {
            Some(m) => Some(m@),
            None => None,
        },
        icon_name: match o.icon_name {
            Some(m) => Some(m@),
            None => None,
        },
        icon_pixmap: match o.icon_pixmap {
            Some(p) => Some(TrayIconModel::Pixmap { width: p.w, height: p.h, bytes: p.bytes@ }),
            None => None,
        },
    }
}

/// Whether `t` is the type `{sv}` of the entries of a property list.
pub open spec fn is_string_variant_entry(t: CompleteType) -> bool {
    match t {
        CompleteType::DictEntry(k, v) => (*k matches CompleteType::String) && (*v matches CompleteType::Variant),
        _ => false,
    }
}

/// Whether `t` is the type `(iiay)` of a pixmap: width, height and bytes.
pub open spec fn is_pixmap_type(t: CompleteType) -> bool {
    match t {
        CompleteType::Struct(fields) => {
            let f = fields@;
            &&& f.len() == 3
            &&& f[0] matches CompleteType::Int32
            &&& f[1] matches CompleteType::Int32
            &&& match f[2] {
                CompleteType::Array(b) => *b matches CompleteType::Byte,
                _ => false,
            }
        },
        _ => false,
    }
}

/// What the value of an `IconPixmap` property gives: an array of pixmaps of
/// the right type; when it holds exactly one, that one, which must be a
/// struct of width, height and bytes; `None` otherwise.
pub open spec fn spec_icon_pixmap(v: IncomingValue) -> Result<Option<TrayIconModel>, DBusError> {
    match v {
        IncomingValue::Array(t, list) => {
            if !is_pixmap_type(t) {
                Err(DBusError::UnexpectedValue)
            } else if list@.len() != 1 {
                Ok(None)
            } else {
                match list@[0] {
                    IncomingValue::Struct(f) => {
                        let f = f@;
                        if f.len() != 3 {
                            Err(DBusError::UnexpectedValue)
                        } else {
                            match (f[0], f[1], f[2]) {
                                (IncomingValue::Int32(w), IncomingValue::Int32(h), IncomingValue::Array(CompleteType::Byte, bytes)) => {
                                    match spec_byte_values(bytes@) {
                                        Some(b) => Ok(Some(TrayIconModel::Pixmap { width: w, height: h, bytes: b })),
                                        None => Err(DBusError::UnexpectedValue),
                                    }
                                },
                                _ => Err(DBusError::UnexpectedValue),
                            }
                        }
                    },
                    _ => Err(DBusError::UnexpectedValue),
                }
            }
        },
        _ => Err(DBusError::UnexpectedValue),
    }
}

/// The properties after reading the entry `entry`; names other than `Menu`,
/// `IconName` and `IconPixmap` are passed over.
pub open spec fn spec_apply_entry(st: PropsModel, entry: IncomingValue) -> Result<PropsModel, DBusError> {
    match entry {
        IncomingValue::DictEntry(k, v) => match (*k, *v) {
            (IncomingValue::String(key), IncomingValue::Variant(inner)) => {
                let key = key@;
                if key == "Menu"@ {
                    match *inner {
                        IncomingValue::ObjectPath(p) => Ok(PropsModel { menu: Some(p@), ..st }),
                        _ => Err(DBusError::UnexpectedValue),
                    }
                } else if key == "IconName"@ {
                    match *inner {
                        IncomingValue::String(n) => Ok(PropsModel { icon_name: Some(n@), ..st }),
                        _ => Err(DBusError::UnexpectedValue),
                    }
                } else if key == "IconPixmap"@ {
                    match spec_icon_pixmap(*inner) {
                        Ok(Some(p)) => Ok(PropsModel { icon_pixmap: Some(p), ..st }),
                        Ok(None) => Ok(st),
                        Err(e) => Err(e),
                    }
                } else {
                    Ok(st)
                }
            },
            _ => Err(DBusError::UnexpectedValue),
        },
        _ => Err(DBusError::UnexpectedValue),
    }
}

/// The properties after reading `items` from place `i` on, or the first error.
pub open spec fn spec_entries_from(st: PropsModel, items: Seq<IncomingValue>, i: int) -> Result<PropsModel, DBusError>
    decreases items.len() - i,
{
    if i < 0 || i >= items.len() {
        Ok(st)
    } else {
        match spec_apply_entry(st, items[i]) {
            Ok(next) => spec_entries_from(next, items, i + 1),
            Err(e) => Err(e),
        }
    }
}

/// What the reply to `GetAll` gives: its body must be exactly one array of
/// `{sv}` entries.
pub open spec fn spec_get_all_props(body: Seq<IncomingValue>) -> Result<PropsModel, DBusError> {
    if body.len() != 1 {
        Err(DBusError::UnexpectedValue)
    } else {
        match body[0] {
            IncomingValue::Array(t, items) => {
                if !is_string_variant_entry(t) {
                    Err(DBusError::UnexpectedValue)
                } else {
                    spec_entries_from(PropsModel { menu: None, icon_name: None, icon_pixmap: None }, items@, 0)
                }
            },
            _ => Err(DBusError::UnexpectedValue),
        }
    }
}

/// Whether `t` is the type `{sv}`.
fn check_string_variant_entry(t: &CompleteType) -> (r: bool)
    ensures
        r == is_string_variant_entry(*t),
{
    match t {
        CompleteType::DictEntry(k, v) => {
            (match &**k {
                CompleteType::String => true,
                _ => false,
            }) && (match &**v {
                CompleteType::Variant => true,
                _ => false,
            })
        },
        _ => false,
    }
}

/// Whether `t` is the type `(iiay)`.
fn check_pixmap_type(t: &CompleteType) -> (r: bool)
    ensures
        r == is_pixmap_type(*t),
{
    match t {
        CompleteType::Struct(fields) => {
            if fields.len() != 3 {
                return false;
            }
            let a = match &fields[0] {
                CompleteType::Int32 => true,
                _ => false,
            };
            let b = match &fields[1] {
                CompleteType::Int32 => true,
                _ => false,
            };
            let c = match &fields[2] {
                CompleteType::Array(e) => match &**e {
                    CompleteType::Byte => true,
                    _ => false,
                },
                _ => false,
            };
            a && b && c
        },
        _ => false,
    }
}

/// Collects the bytes of a list of values that are all bytes.
fn collect_bytes(vals: &Vec<IncomingValue>) -> (r: Option<Vec<u8>>)
    ensures
        match r {
            Some(v) => spec_byte_values(vals@) == Some(v@),
            None => spec_byte_values(vals@) is None,
        },
{
    let mut out: Vec<u8> = Vec::new();
    let mut i: usize = 0;
    while i < vals.len()
        invariant
            i <= vals@.len(),
            spec_byte_values(vals@.subrange(0, i as int)) == Some(out@),
        decreases vals@.len() - i,
    {
        assert(vals@.subrange(0, i + 1).drop_last() =~= vals@.subrange(0, i as int));
        match &vals[i] {
            IncomingValue::Byte(b) => out.push(*b),
            _ => {
                proof {
                    lemma_no_bytes_prefix(vals@, i + 1);
                }
                return None;
            },
        }
        i += 1;
    }
    assert(vals@.subrange(0, vals@.len() as int) =~= vals@);
    Some(out)
}

/// A list with a value that is not a byte among its first `k` is not all bytes.
proof fn lemma_no_bytes_prefix(vals: Seq<IncomingValue>, k: int)
    requires
        0 <= k <= vals.len(),
        spec_byte_values(vals.subrange(0, k)) is None,
    ensures
        spec_byte_values(vals) is None,
    decreases vals.len() - k,
{
    if k < vals.len() {
        assert(vals.subrange(0, k + 1).drop_last() =~= vals.subrange(0, k));
        lemma_no_bytes_prefix(vals, k + 1);
    } else {
        assert(vals.subrange(0, k) =~= vals);
    }
}

/// Reads the value of an `IconPixmap` property, as `spec_icon_pixmap` says.
fn read_icon_pixmap(v: &IncomingValue) -> (r: Result<Option<IconPixmap>, DBusError>)
    ensures
        match r {
            Ok(Some(p)) => spec_icon_pixmap(*v) == Ok::<Option<TrayIconModel>, DBusError>(
                Some(TrayIconModel::Pixmap { width: p.w, height: p.h, bytes: p.bytes@ }),
            ),
            Ok(None) => spec_icon_pixmap(*v) == Ok::<Option<TrayIconModel>, DBusError>(None),
            Err(e) => spec_icon_pixmap(*v) == Err::<Option<TrayIconModel>, DBusError>(e),
        },
{
    let (t, list) = match v {
        IncomingValue::Array(t, list) => (t, list),
        _ => return Err(DBusError::UnexpectedValue),
    };
    if !check_pixmap_type(t) {
        return Err(DBusError::UnexpectedValue);
    }
    if list.len() != 1 {
        return Ok(None);
    }
    let f = match &list[0] {
        IncomingValue::Struct(f) => f,
        _ => return Err(DBusError::UnexpectedValue),
    };
    if f.len() != 3 {
        return Err(DBusError::UnexpectedValue);
    }
    match (&f[0], &f[1], &f[2]) {
        (IncomingValue::Int32(w), IncomingValue::Int32(h), IncomingValue::Array(CompleteType::Byte, bytes)) => {
            match collect_bytes(bytes) {
                Some(b) => Ok(Some(IconPixmap { w: *w, h: *h, bytes: b })),
                None => Err(DBusError::UnexpectedValue),
            }
        },
        _ => Err(DBusError::UnexpectedValue),
    }
}

/// Reads one entry into `st`, as `spec_apply_entry` says.
fn apply_entry(st: &mut GetAllPropsOutput, entry: &IncomingValue) -> (r: Result<(), DBusError>)
    ensures
        match r {
            Ok(()) => spec_apply_entry(output_model(*old(st)), *entry) == Ok::<PropsModel, DBusError>(output_model(*final(st))),
            Err(e) => spec_apply_entry(output_model(*old(st)), *entry) == Err::<PropsModel, DBusError>(e),
        },
{
    let (k, v) = match entry {
        IncomingValue::DictEntry(k, v) => (k, v),
        _ => return Err(DBusError::UnexpectedValue),
    };
    let (key, inner) = match (&**k, &**v) {
        (IncomingValue::String(key), IncomingValue::Variant(inner)) => (key, inner),
        _ => return Err(DBusError::UnexpectedValue),
    };
    let key = key.as_str();
    if str_eq(key, "Menu") {
        match &**inner {
            IncomingValue::ObjectPath(p) => st.menu = Some(String::from_str(p.as_str())),
            _ => return Err(DBusError::UnexpectedValue),
        }
    } else if str_eq(key, "IconName") {
        match &**inner {
            IncomingValue::String(n) => st.icon_name = Some(String::from_str(n.as_str())),
            _ => return Err(DBusError::UnexpectedValue),
        }
    } else if str_eq(key, "IconPixmap") {
        match read_icon_pixmap(&**inner) {
            Ok(Some(p)) => st.icon_pixmap = Some(p),
            Ok(None) => {},
            Err(e) => return Err(e),
        }
    }
    Ok(())
}

/// The one-shot reading of all the properties of a status notifier item.
pub struct GetAllProps;

impl GetAllProps {
    /// The request for the properties of the item at `input`.
    pub fn make_request(&self, input: String) -> (r: GetAllPropertiesRequest)
        ensures
            r.destination@ == input@,
            r.path@ == "/StatusNotifierItem"@,
            r.interface@ == "org.kde.StatusNotifierItem"@,
    {
        GetAllPropertiesRequest {
            destination: input,
            path: String::from_str("/StatusNotifierItem"),
            interface: String::from_str("org.kde.StatusNotifierItem"),
        }
    }

    /// Reads the reply, as `spec_get_all_props` says.
    pub fn try_process(&self, body: &Vec<IncomingValue>) -> (r: Result<GetAllPropsOutput, DBusError>)
        ensures
            match r {
                Ok(o) => spec_get_all_props(body@) == Ok::<PropsModel, DBusError>(output_model(o)),
                Err(e) => spec_get_all_props(body@) == Err::<PropsModel, DBusError>(e),
            },
    {
        if body.len() != 1 {
            return Err(DBusError::UnexpectedValue);
        }
        let (t, items) = match &body[0] {
            IncomingValue::Array(t, items) => (t, items),
            _ => return Err(DBusError::UnexpectedValue),
        };
        if !check_string_variant_entry(t) {
            return Err(DBusError::UnexpectedValue);
        }
        let mut out = GetAllPropsOutput { menu: None, icon_name: None, icon_pixmap: None };
        let mut i: usize = 0;
        while i < items.len()
            invariant
                i <= items@.len(),
                spec_get_all_props(body@) == spec_entries_from(output_model(out), items@, i as int),
            decreases items@.len() - i,
        {
            match apply_entry(&mut out, &items[i]) {
                Ok(()) => {},
                Err(e) => return Err(e),
            }
            i += 1;
        }
        Ok(out)
    }
}

/// The tray application at a D-Bus address whose properties are read once.
pub struct TrayApp {
    pub address: String,
    pub started: bool,
}

impl TrayApp {
    /// An application at `name` whose properties are not asked for yet.
    pub fn new(name: String) -> (app: TrayApp)
        ensures
            app.address@ == name@,
            !app.started,
    {
        TrayApp { address: name, started: false }
    }

    /// Starts reading the properties: the request to send.
    pub fn init(&mut self) -> (r: GetAllPropertiesRequest)
        ensures
            final(self).address@ == old(self).address@,
            final(self).started,
            r.destination@ == old(self).address@,
            r.path@ == "/StatusNotifierItem"@,
            r.interface@ == "org.kde.StatusNotifierItem"@,
    {
        self.started = true;
        GetAllProps.make_request(self.address.clone())
    }
}

} // verus!
