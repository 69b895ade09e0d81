//! The `org.kde.StatusNotifierItem` side of a tray application: its icon,
//! the path of its menu, and the reading of its properties.
use vstd::prelude::*;
use vstd::string::StringExecFns;
use crate::dbus::{
    check_signal, signal_match_rule, spec_check_signal, spec_signal_match_rule, CompleteType, DBusError,
    HeaderField, IncomingMessage, IncomingValue,
};
use crate::text::{starts_with_char, str_eq};

verus! {

/// An icon drawn from raw pixels: its size and its bytes.
#[derive(Debug)]
pub struct TrayIconPixmap {
    pub width: i32,
    pub height: i32,
    pub bytes: Vec<u8>,
}

/// The icon of a tray application.
#[derive(Debug)]
pub enum TrayIcon {
    Path { path: String },
    Name { name: String },
    Pixmap(TrayIconPixmap),
    Unset,
}

/// An icon with its texts as characters and its bytes as a sequence.
pub enum TrayIconModel {
    Path(Seq<char>),
    Name(Seq<char>),
    Pixmap { width: i32, height: i32, bytes: Seq<u8> },
    Unset,
}

/// The model of an icon.
pub open spec fn icon_model(icon: TrayIcon) -> TrayIconModel {
    match icon {
        TrayIcon::Path { path } => TrayIconModel::Path(path@),
        TrayIcon::Name { name } => TrayIconModel::Name(name@),
        TrayIcon::Pixmap(p) => TrayIconModel::Pixmap { width: p.width, height: p.height, bytes: p.bytes@ },
        TrayIcon::Unset => TrayIconModel::Unset,
    }
}

/// The model of an optional icon.
pub open spec fn opt_icon_model(icon: Option<TrayIcon>) -> Option<TrayIconModel> {
    match icon {
        Some(i) => Some(icon_model(i)),
        None => None,
    }
}

/// An icon given by name: a file path when the text starts with `/`, else
/// the name of an icon of the theme.
pub open spec fn spec_detect_name_or_path(s: Seq<char>) -> TrayIconModel {
    if s.len() > 0 && s[0] == '/' {
        TrayIconModel::Path(s)
    } else {
        TrayIconModel::Name(s)
    }
}

impl TrayIcon {
    /// Tells a file path from an icon name, as `spec_detect_name_or_path` says.
    pub fn detect_name_or_path(name_or_path: &str) -> (icon: TrayIcon)
        ensures
            icon_model(icon) == spec_detect_name_or_path(name_or_path@),
    {
        if starts_with_char(name_or_path, '/') {
            TrayIcon::Path { path: String::from_str(name_or_path) }
        } else {
            TrayIcon::Name { name: String::from_str(name_or_path) }
        }
    }

    /// No icon yet.
    pub fn unset() -> (icon: TrayIcon)
        ensures
            icon == TrayIcon::Unset,
    {
        TrayIcon::Unset
    }
}

/// The bytes of a list of values that are all bytes, or `None`.
pub open spec fn spec_byte_values(vals: Seq<IncomingValue>) -> Option<Seq<u8>>
    decreases vals.len(),
{
    if vals.len() == 0 {
        Some(Seq::empty())
    } else {
        match (vals.last(), spec_byte_values(vals.drop_last())) {
            (IncomingValue::Byte(b), Some(front)) => Some(front.push(b)),
            _ => None,
        }
    }
}

/// Collects the bytes of a list of values that are all bytes.
fn byte_values(vals: &Vec<IncomingValue>) -> (r: Option<Vec<u8>>)
    ensures
        match r {
            Some(v) => spec_byte_values(vals@) == Some(v@),
            None => spec_byte_values(vals@) is None,
        },
{
    let mut out: Vec<u8> = Vec::new();
    let mut i: usize = 0;
    while i < vals.len()
        invariant
            i <= vals@.len(),
            spec_byte_values(vals@.subrange(0, i as int)) == Some(out@),
        decreases vals@.len() - i,
    {
        let ghost front = vals@.subrange(0, i as int);
        let ghost next = vals@.subrange(0, i + 1);
        assert(next.drop_last() =~= front);
        match &vals[i] {
            IncomingValue::Byte(b) => out.push(*b),
            _ => {
                proof {
                    lemma_byte_values_prefix(vals@, i + 1);
                }
                return None;
            },
        }
        i += 1;
    }
    assert(vals@.subrange(0, vals@.len() as int) =~= vals@);
    Some(out)
}

/// A list with a value that is not a byte among its first `k` is not all bytes.
proof fn lemma_byte_values_prefix(vals: Seq<IncomingValue>, k: int)
    requires
        0 <= k <= vals.len(),
        spec_byte_values(vals.subrange(0, k)) is None,
    ensures
        spec_byte_values(vals) is None,
    decreases vals.len() - k,
{
    if k < vals.len() {
        assert(vals.subrange(0, k + 1).drop_last() =~= vals.subrange(0, k));
        lemma_byte_values_prefix(vals, k + 1);
    } else {
        assert(vals.subrange(0, k) =~= vals);
    }
}

/// What the value of an `IconPixmap` property gives: the first of its
/// pixmaps, a struct of width, height and bytes; `None` when the list or the
/// struct is empty.
pub open spec fn spec_pixmap(v: IncomingValue) -> Result<Option<TrayIconModel>, DBusError> {
    match v {
        IncomingValue::Array(_, list) => {
            if list@.len() == 0 {
                Ok(None)
            } else {
                match list@[0] {
                    IncomingValue::Struct(f) => {
                        let f = f@;
                        if f.len() == 0 {
                            Ok(None)
                        } else {
                            match f[0] {
                                IncomingValue::Int32(width) => {
                                    if f.len() < 2 {
                                        Err(DBusError::MissingValue)
                                    } else {
                                        match f[1] {
                                            IncomingValue::Int32(height) => {
                                                if f.len() < 3 {
                                                    Err(DBusError::MissingValue)
                                                } else {
                                                    match f[2] {
                                                        IncomingValue::Array(_, bytes) => match spec_byte_values(bytes@) {
                                                            Some(b) => Ok(Some(TrayIconModel::Pixmap { width, height, bytes: b })),
                                                            None => Err(DBusError::UnexpectedValue),
                                                        },
                                                        _ => Err(DBusError::UnexpectedValue),
                                                    }
                                                }
                                            },
                                            _ => Err(DBusError::UnexpectedValue),
                                        }
                                    }
                                },
                                _ => Err(DBusError::UnexpectedValue),
                            }
                        }
                    },
                    _ => Err(DBusError::UnexpectedValue),
                }
            }
        },
        _ => Err(DBusError::UnexpectedValue),
    }
}

/// Reads the value of an `IconPixmap` property, as `spec_pixmap` says.
fn read_pixmap(v: &IncomingValue) -> (r: Result<Option<TrayIconPixmap>, DBusError>)
    ensures
        match r {
            Ok(Some(p)) => spec_pixmap(*v) == Ok::<Option<TrayIconModel>, DBusError>(
                Some(TrayIconModel::Pixmap { width: p.width, height: p.height, bytes: p.bytes@ }),
            ),
            Ok(None) => spec_pixmap(*v) == Ok::<Option<TrayIconModel>, DBusError>(None),
            Err(e) => spec_pixmap(*v) == Err::<Option<TrayIconModel>, DBusError>(e),
        },
{
    let list = match v {
        IncomingValue::Array(_, list) => list,
        _ => return Err(DBusError::UnexpectedValue),
    };
    if list.len() == 0 {
        return Ok(None);
    }
    let f = match &list[0] {
        IncomingValue::Struct(f) => f,
        _ => return Err(DBusError::UnexpectedValue),
    };
    if f.len() == 0 {
        return Ok(None);
    }
    let width = match &f[0] {
        IncomingValue::Int32(w) => *w,
        _ => return Err(DBusError::UnexpectedValue),
    };
    if f.len() < 2 {
        return Err(DBusError::MissingValue);
    }
    let height = match &f[1] {
        IncomingValue::Int32(h) => *h,
        _ => return Err(DBusError::UnexpectedValue),
    };
    if f.len() < 3 {
        return Err(DBusError::MissingValue);
    }
    let bytes = match &f[2] {
        IncomingValue::Array(_, bytes) => bytes,
        _ => return Err(DBusError::UnexpectedValue),
    };
    match byte_values(bytes) {
        Some(b) => Ok(Some(TrayIconPixmap { width, height, bytes: b })),
        None => Err(DBusError::UnexpectedValue),
    }
}

/// The properties of a status notifier item read so far.
pub struct SniProps {
    pub menu: Option<Seq<char>>,
    pub icon_name: Option<Seq<char>>,
    pub pixmap: Option<TrayIconModel>,
}

/// The properties after reading the entry `entry` (a dictionary entry from a
/// name to a variant). `Menu`, `IconName` and `IconPixmap` are read; other
/// names are passed over; a known name with a value of the wrong type is an
/// error. An empty pixmap list leaves the properties as they were.
pub open spec fn spec_apply_sni_prop(st: SniProps, entry: IncomingValue) -> Result<SniProps, DBusError> {
    match entry {
        IncomingValue::DictEntry(k, v) => match (*k, *v) {
            (IncomingValue::String(key), IncomingValue::Variant(inner)) => {
                let key = key@;
                if key == "Menu"@ {
                    match *inner {
                        IncomingValue::ObjectPath(p) => Ok(SniProps { menu: Some(p@), ..st }),
                        _ => Err(DBusError::UnexpectedValue),
                    }
                } else if key == "IconName"@ {
                    match *inner {
                        IncomingValue::String(n) => Ok(SniProps { icon_name: Some(n@), ..st }),
                        _ => Err(DBusError::UnexpectedValue),
                    }
                } else if key == "IconPixmap"@ {
                    match spec_pixmap(*inner) {
                        Ok(Some(p)) => Ok(SniProps { pixmap: Some(p), ..st }),
                        Ok(None) => Ok(st),
                        Err(e) => Err(e),
                    }
                } else {
                    Ok(st)
                }
            },
            _ => Err(DBusError::UnexpectedValue),
        },
        _ => Err(DBusError::UnexpectedValue),
    }
}

/// The properties after reading `items` from place `i` on, or the first error.
pub open spec fn spec_sni_props_from(st: SniProps, items: Seq<IncomingValue>, i: int) -> Result<SniProps, DBusError>
    decreases items.len() - i,
{
    if i < 0 || i >= items.len() {
        Ok(st)
    } else {
        match spec_apply_sni_prop(st, items[i]) {
            Ok(next) => spec_sni_props_from(next, items, i + 1),
            Err(e) => Err(e),
        }
    }
}

/// The menu path and the icon that a list of properties gives: the icon
/// name when it is not empty, else the last pixmap read.
pub open spec fn spec_parse(items: Seq<IncomingValue>) -> Result<(Option<Seq<char>>, Option<TrayIconModel>), DBusError> {
    match spec_sni_props_from(SniProps { menu: None, icon_name: None, pixmap: None }, items, 0) {
        Err(e) => Err(e),
        Ok(st) => {
            let icon = match st.icon_name {
                Some(n) => if n.len() == 0 {
                    st.pixmap
                } else {
                    Some(spec_detect_name_or_path(n))
                },
                None => st.pixmap,
            };
            Ok((st.menu, icon))
        },
    }
}

/// The menu path and icon of a tray application, either of which may be
/// missing from an update.
#[derive(Debug)]
pub struct AllPropsUpdate {
    pub menu: Option<String>,
    pub icon: Option<TrayIcon>,
}

/// The model of an update.
pub open spec fn update_model(u: AllPropsUpdate) -> (Option<Seq<char>>, Option<TrayIconModel>) {
    (
        match u.menu {
            Some(m) => Some(m@),
            None => None,
        },
        opt_icon_model(u.icon),
    )
}

/// The properties read so far, borrowing from the message.
struct SniPropsRef<'a> {
    menu: Option<&'a String>,
    icon_name: Option<&'a String>,
    pixmap: Option<TrayIconPixmap>,
}

impl<'a> SniPropsRef<'a> {
    spec fn model(&self) -> SniProps {
        SniProps {
            menu: match self.menu {
                Some(m) => Some(m@),
                None => None,
            },
            icon_name: match self.icon_name {
                Some(m) => Some(m@),
                None => None,
            },
            pixmap: match self.pixmap {
                Some(p) => Some(TrayIconModel::Pixmap { width: p.width, height: p.height, bytes: p.bytes@ }),
                None => None,
            },
        }
    }
}

/// Reads one property entry into `st`, as `spec_apply_sni_prop` says.
fn apply_sni_prop<'a>(st: &mut SniPropsRef<'a>, entry: &'a IncomingValue) -> (r: Result<(), DBusError>)
    ensures
        match r {
            Ok(()) => spec_apply_sni_prop(old(st).model(), *entry) == Ok::<SniProps, DBusError>(final(st).model()),
            Err(e) => spec_apply_sni_prop(old(st).model(), *entry) == Err::<SniProps, DBusError>(e),
        },
{
    let (k, v) = match entry {
        IncomingValue::DictEntry(k, v) => (k, v),
        _ => return Err(DBusError::UnexpectedValue),
    };
    let (key, inner) = match (&**k, &**v) {
        (IncomingValue::String(key), IncomingValue::Variant(inner)) => (key, inner),
        _ => return Err(DBusError::UnexpectedValue),
    };
    let key = key.as_str();
    if str_eq(key, "Menu") {
        match &**inner {
            IncomingValue::ObjectPath(p) => st.menu = Some(p),
            _ => return Err(DBusError::UnexpectedValue),
        }
    } else if str_eq(key, "IconName") {
        match &**inner {
            IncomingValue::String(n) => st.icon_name = Some(n),
            _ => return Err(DBusError::UnexpectedValue),
        }
    } else if str_eq(key, "IconPixmap") {
        match read_pixmap(&**inner) {
            Ok(Some(p)) => st.pixmap = Some(p),
            Ok(None) => {},
            Err(e) => return Err(e),
        }
    }
    Ok(())
}

/// Reads the properties of a status notifier item, as `spec_parse` says.
pub fn parse(attributes: &Vec<IncomingValue>) -> (r: Result<AllPropsUpdate, DBusError>)
    ensures
        match r {
            Ok(u) => spec_parse(attributes@) == Ok::<(Option<Seq<char>>, Option<TrayIconModel>), DBusError>(update_model(u)),
            Err(e) => spec_parse(attributes@) == Err::<(Option<Seq<char>>, Option<TrayIconModel>), DBusError>(e),
        },
{
    let mut st = SniPropsRef { menu: None, icon_name: None, pixmap: None };
    let mut i: usize = 0;
    while i < attributes.len()
        invariant
            i <= attributes@.len(),
            spec_sni_props_from(SniProps { menu: None, icon_name: None, pixmap: None }, attributes@, 0)
                == spec_sni_props_from(st.model(), attributes@, i as int),
        decreases attributes@.len() - i,
    {
        match apply_sni_prop(&mut st, &attributes[i]) {
            Ok(()) => {},
            Err(e) => return Err(e),
        }
        i += 1;
    }
    let icon = match st.icon_name {
        Some(n) => {
            if n.as_str().is_empty() {
                match st.pixmap {
                    Some(p) => Some(TrayIcon::Pixmap(p)),
                    None => None,
                }
            } else {
                Some(TrayIcon::detect_name_or_path(n.as_str()))
            }
        },
        None => match st.pixmap {
            Some(p) => Some(TrayIcon::Pixmap(p)),
            None => None,
        },
    };
    let menu = match st.menu {
        Some(m) => Some(String::from_str(m.as_str())),
        None => None,
    };
    Ok(AllPropsUpdate { menu, icon })
}

/// The properties that a `PropertiesChanged` signal of a status notifier
/// item at `path` carries: its body names the interface, then lists the
/// changed properties.
pub open spec fn spec_props_changed(path: Seq<char>, body: Seq<IncomingValue>) -> Result<(Option<Seq<char>>, Option<TrayIconModel>), DBusError> {
    if path != "/StatusNotifierItem"@ {
        Err(DBusError::UnexpectedHeader(HeaderField::Path))
    } else if body.len() < 1 {
        Err(DBusError::MissingValue)
    } else {
        match body[0] {
            IncomingValue::String(interface) => {
                if interface@ != "org.kde.StatusNotifierItem"@ {
                    Err(DBusError::UnexpectedValue)
                } else if body.len() < 2 {
                    Err(DBusError::MissingValue)
                } else {
                    match body[1] {
                        IncomingValue::Array(_, items) => spec_parse(items@),
                        _ => Err(DBusError::UnexpectedValue),
                    }
                }
            },
            _ => Err(DBusError::UnexpectedValue),
        }
    }
}

/// The subscription to the property changes of a status notifier item.
pub struct AllPropsSubscription;

impl AllPropsSubscription {
    /// The path is fixed by the protocol; a new one changes nothing.
    pub fn set_path(&mut self, _path: String)
        ensures
            *final(self) == *old(self),
    {
    }

    /// Reads a `PropertiesChanged` signal, as `spec_props_changed` says.
    pub fn try_process(&self, path: &str, body: &Vec<IncomingValue>) -> (r: Result<AllPropsUpdate, DBusError>)
        ensures
            match r {
                Ok(u) => spec_props_changed(path@, body@) == Ok::<(Option<Seq<char>>, Option<TrayIconModel>), DBusError>(update_model(u)),
                Err(e) => spec_props_changed(path@, body@) == Err::<(Option<Seq<char>>, Option<TrayIconModel>), DBusError>(e),
            },
    {
        if !str_eq(path, "/StatusNotifierItem") {
            return Err(DBusError::UnexpectedHeader(HeaderField::Path));
        }
        if body.len() < 1 {
            return Err(DBusError::MissingValue);
        }
        let interface = match &body[0] {
            IncomingValue::String(i) => i,
            _ => return Err(DBusError::UnexpectedValue),
        };
        if !str_eq(interface.as_str(), "org.kde.StatusNotifierItem") {
            return Err(DBusError::UnexpectedValue);
        }
        if body.len() < 2 {
            return Err(DBusError::MissingValue);
        }
        match &body[1] {
            IncomingValue::Array(_, items) => parse(items),
            _ => Err(DBusError::UnexpectedValue),
        }
    }
}

/// The menu path and icon that the reply to the first `GetAll` request of a
/// tray application gives; both must be there.
pub open spec fn spec_menu_and_icon(body: Seq<IncomingValue>) -> Result<(Seq<char>, TrayIconModel), DBusError> {
    if body.len() < 1 {
        Err(DBusError::MissingValue)
    } else {
        match body[0] {
            IncomingValue::Array(_, items) => match spec_parse(items@) {
                Err(e) => Err(e),
                Ok((Some(menu), Some(icon))) => Ok((menu, icon)),
                Ok(_) => Err(DBusError::MissingProperty),
            },
            _ => Err(DBusError::UnexpectedValue),
        }
    }
}

/// Reads the reply to the first `GetAll` request of a tray application, as
/// `spec_menu_and_icon` says.
pub fn parse_menu_and_icon(body: &Vec<IncomingValue>) -> (r: Result<(String, TrayIcon), DBusError>)
    ensures
        match r {
            Ok((menu, icon)) => spec_menu_and_icon(body@) == Ok::<(Seq<char>, TrayIconModel), DBusError>((menu@, icon_model(icon))),
            Err(e) => spec_menu_and_icon(body@) == Err::<(Seq<char>, TrayIconModel), DBusError>(e),
        },
{
    if body.len() < 1 {
        return Err(DBusError::MissingValue);
    }
    let items = match &body[0] {
        IncomingValue::Array(_, items) => items,
        _ => return Err(DBusError::UnexpectedValue),
    };
    match parse(items) {
        Err(e) => Err(e),
        Ok(AllPropsUpdate { menu: Some(menu), icon: Some(icon) }) => Ok((menu, icon)),
        Ok(_) => Err(DBusError::MissingProperty),
    }
}

/// The match rule for the `NewIcon` signals of the item at `address`.
pub fn new_icon_match_rule(address: &str) -> (r: String)
    ensures
        r@ == spec_signal_match_rule(address@, "org.kde.StatusNotifierItem"@, "NewIcon"@, "/StatusNotifierItem"@),
{
    signal_match_rule(address, "org.kde.StatusNotifierItem", "NewIcon", "/StatusNotifierItem")
}

/// Checks that `message` is a `NewIcon` signal of the item at `address`.
pub fn parse_new_icon_signal(message: &IncomingMessage, address: &str) -> (r: Result<(), DBusError>)
    ensures
        r == spec_check_signal(*message, "org.kde.StatusNotifierItem"@, "/StatusNotifierItem"@, "NewIcon"@, address@),
{
    check_signal(message, "org.kde.StatusNotifierItem", "/StatusNotifierItem", "NewIcon", address)
}

} // verus!
