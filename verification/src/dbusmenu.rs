//! The menu of a tray application as the `com.canonical.dbusmenu` interface
//! describes it: the items, the identifiers that name them, and the reading
//! of a `GetLayout` reply into items.
use vstd::prelude::*;
use vstd::string::StringExecFns;
use vstd::string::StrSliceExecFns;
use vstd::string::StringSliceAdditionalSpecFns;
use vstd::utf8::{decode_utf8, encode_utf8, is_char_boundary};
use crate::dbus::{
    check_signal, signal_match_rule, spec_check_signal, spec_signal_match_rule, DBusError,
    IncomingMessage, IncomingValue,
};
use crate::text::{decimal_i32, i32_to_decimal, parse_i32, spec_parse_i32, str_eq};

verus! {

/// An entry of a tray application's menu.
#[derive(Debug)]
pub enum TrayItem {
    Regular { id: i32, uuid: String, label: String },
    Disabled { id: i32, uuid: String, label: String },
    Checkbox { id: i32, uuid: String, label: String, checked: bool },
    Radio { id: i32, uuid: String, label: String, selected: bool },
    Nested { id: i32, uuid: String, label: String, children: Vec<TrayItem> },
    Section { children: Vec<TrayItem> },
}

/// A menu entry with its texts as characters and its children as a sequence.
pub enum TrayItemModel {
    Regular { id: i32, uuid: Seq<char>, label: Seq<char> },
    Disabled { id: i32, uuid: Seq<char>, label: Seq<char> },
    Checkbox { id: i32, uuid: Seq<char>, label: Seq<char>, checked: bool },
    Radio { id: i32, uuid: Seq<char>, label: Seq<char>, selected: bool },
    Nested { id: i32, uuid: Seq<char>, label: Seq<char>, children: Seq<TrayItemModel> },
    Section { children: Seq<TrayItemModel> },
}

/// The model of a menu entry.
pub open spec fn item_model(t: TrayItem) -> TrayItemModel
    decreases t,
{
    match t {
        TrayItem::Regular { id, uuid, label } => TrayItemModel::Regular { id, uuid: uuid@, label: label@ },
        TrayItem::Disabled { id, uuid, label } => TrayItemModel::Disabled { id, uuid: uuid@, label: label@ },
        TrayItem::Checkbox { id, uuid, label, checked } => TrayItemModel::Checkbox {
            id,
            uuid: uuid@,
            label: label@,
            checked,
        },
        TrayItem::Radio { id, uuid, label, selected } => TrayItemModel::Radio {
            id,
            uuid: uuid@,
            label: label@,
            selected,
        },
        TrayItem::Nested { id, uuid, label, children } => TrayItemModel::Nested {
            id,
            uuid: uuid@,
            label: label@,
            children: items_model(children@),
        },
        TrayItem::Section { children } => TrayItemModel::Section { children: items_model(children@) },
    }
}

/// The models of a sequence of menu entries, in order.
pub open spec fn items_model(s: Seq<TrayItem>) -> Seq<TrayItemModel>
    decreases s,
{
    if s.len() == 0 {
        Seq::empty()
    } else {
        seq![item_model(s[0])] + items_model(s.drop_first())
    }
}

/// The models of the entries of `s` stand at the same places.
pub proof fn lemma_items_model_index(s: Seq<TrayItem>)
    ensures
        items_model(s).len() == s.len(),
        forall|i: int| 0 <= i < s.len() ==> #[trigger] items_model(s)[i] == item_model(s[i]),
    decreases s.len(),
{
    if s.len() > 0 {
        lemma_items_model_index(s.drop_first());
        assert forall|i: int| 0 <= i < s.len() implies #[trigger] items_model(s)[i] == item_model(
            s[i],
        ) by {
            if i > 0 {
                assert(s.drop_first()[i - 1] == s[i]);
            }
        }
    }
}

/// Appending an entry appends its model.
pub proof fn lemma_items_model_push(s: Seq<TrayItem>, t: TrayItem)
    ensures
        items_model(s.push(t)) == items_model(s).push(item_model(t)),
{
    lemma_items_model_index(s);
    lemma_items_model_index(s.push(t));
    assert(items_model(s.push(t)) =~= items_model(s).push(item_model(t)));
}

/// The identifier of menu entry `id` of the application named `service`:
/// the name, two stars, and the number in decimal.
pub open spec fn spec_uuid(service: Seq<char>, id: i32) -> Seq<char> {
    service + "**"@ + decimal_i32(id)
}

/// The place of the first two consecutive stars in `s` at or after `i`.
pub open spec fn first_double_star_from(s: Seq<char>, i: int) -> Option<int>
    decreases s.len() - i,
{
    if i < 0 || i + 1 >= s.len() {
        None
    } else if s[i] == '*' && s[i + 1] == '*' {
        Some(i)
    } else {
        first_double_star_from(s, i + 1)
    }
}

/// Whether `s` holds no two consecutive stars.
pub open spec fn no_double_star(s: Seq<char>) -> bool {
    forall|i: int| 0 <= i < s.len() - 1 ==> !(#[trigger] s[i] == '*' && s[i + 1] == '*')
}

/// Searching from `i` finds the first place at or after `i` where two stars stand.
proof fn lemma_first_double_star(s: Seq<char>, i: int, k: int)
    requires
        0 <= i <= k,
        k + 1 < s.len(),
        s[k] == '*' && s[k + 1] == '*',
        forall|j: int| i <= j < k ==> !(#[trigger] s[j] == '*' && s[j + 1] == '*'),
    ensures
        first_double_star_from(s, i) == Some(k),
    decreases k - i,
{
    if i < k {
        lemma_first_double_star(s, i + 1, k);
    }
}

/// Reading back the identifier of an entry gives the application name and the
/// entry number it was made of, when the name holds no two consecutive stars
/// and does not end in a star.
pub proof fn lemma_uuid_round_trip(service: Seq<char>, id: i32)
    requires
        no_double_star(service),
        service.len() == 0 || service.last() != '*',
    ensures
        spec_uuid_decode(spec_uuid(service, id)) == Ok::<(Seq<char>, i32), UuidError>((service, id)),
{
    reveal_strlit("**");
    let u = spec_uuid(service, id);
    let k = service.len() as int;
    crate::text::lemma_decimal_spells(0);
    assert(u[k] == '*' && u[k + 1] == '*');
    assert forall|j: int| 0 <= j < k implies !(#[trigger] u[j] == '*' && u[j + 1] == '*') by {
        assert(u[j] == service[j]);
        if j + 1 < k {
            assert(u[j + 1] == service[j + 1]);
            assert(!(service[j] == '*' && service[j + 1] == '*'));
        } else {
            assert(service.last() == service[j]);
        }
    }
    assert(decimal_i32(id).len() >= 1) by {
        if id < 0 {
        } else {
            crate::text::lemma_decimal_spells(id as nat);
        }
    }
    lemma_first_double_star(u, 0, k);
    assert(u.subrange(k + 2, u.len() as int) =~= decimal_i32(id));
    assert(u.subrange(0, k) =~= service);
    crate::text::lemma_parse_decimal_i32(id);
}

/// Why an identifier could not be read back.
#[derive(Debug, Clone, Copy, PartialEq, Eq, Structural)]
pub enum UuidError {
    /// There are no two consecutive stars in it.
    NoSeparator,
    /// What follows the first two stars is not an `i32`.
    BadId,
}

/// What reading `s` back as an identifier gives: the text before its first
/// two consecutive stars, and the number after them.
pub open spec fn spec_uuid_decode(s: Seq<char>) -> Result<(Seq<char>, i32), UuidError> {
    match first_double_star_from(s, 0) {
        None => Err(UuidError::NoSeparator),
        Some(k) => match spec_parse_i32(s.subrange(k + 2, s.len() as int)) {
            Some(id) => Ok((s.subrange(0, k), id)),
            None => Err(UuidError::BadId),
        },
    }
}

/// The identifiers of menu entries.
pub struct UUID;

impl UUID {
    /// The identifier of entry `id` of `service`, as `spec_uuid` says. It must
    /// fit in a kibibyte.
    pub fn encode(service: &str, id: i32) -> (s: String)
        requires
            service.spec_bytes().len() + 2 + decimal_i32(id).len() <= 1024,
        ensures
            s@ == spec_uuid(service@, id),
    {
        proof { reveal_strlit("**"); }
        let s = String::from_str(service).concat("**");
        let digits = i32_to_decimal(id);
        s.concat(digits.as_str())
    }

    /// Reads an identifier back into its application name and entry number, as
    /// `spec_uuid_decode` says.
    pub fn decode(uuid: &str) -> (r: Result<(String, i32), UuidError>)
        ensures
            match r {
                Ok((service, id)) => spec_uuid_decode(uuid@) == Ok::<(Seq<char>, i32), UuidError>(
                    (service@, id),
                ),
                Err(e) => spec_uuid_decode(uuid@) == Err::<(Seq<char>, i32), UuidError>(e),
            },
    {
        let n = uuid.unicode_len();
        let mut i: usize = 0;
        while n > 0 && i < n - 1
            invariant
                n == uuid@.len(),
                i <= n,
                first_double_star_from(uuid@, 0) == first_double_star_from(uuid@, i as int),
            decreases n - i,
        {
            if uuid.get_char(i) == '*' && uuid.get_char(i + 1) == '*' {
                let service = String::from_str(uuid.substring_char(0, i));
                let rest = uuid.substring_char(i + 2, n);
                return match parse_i32(rest) {
                    Some(id) => Ok((service, id)),
                    None => Err(UuidError::BadId),
                };
            }
            i += 1;
        }
        Err(UuidError::NoSeparator)
    }
}

/// What one entry of a menu layout turns into.
#[derive(Debug)]
pub enum ItemOrSeparator {
    Item(TrayItem),
    Separator,
    Skip,
}

/// The model of what one entry of a layout turns into.
pub enum ItemOrSeparatorModel {
    Item(TrayItemModel),
    Separator,
    Skip,
}

/// The model of an `ItemOrSeparator`.
pub open spec fn ios_model(x: ItemOrSeparator) -> ItemOrSeparatorModel {
    match x {
        ItemOrSeparator::Item(t) => ItemOrSeparatorModel::Item(item_model(t)),
        ItemOrSeparator::Separator => ItemOrSeparatorModel::Separator,
        ItemOrSeparator::Skip => ItemOrSeparatorModel::Skip,
    }
}

/// The properties of a layout entry that the menu reads.
pub struct MenuProps {
    pub type_: Seq<char>,
    pub label: Seq<char>,
    pub enabled: bool,
    pub visible: bool,
    pub toggle_type: Seq<char>,
    pub toggle_state: i32,
    pub children_display: Seq<char>,
}

/// The properties of an entry that sets none: a visible, enabled, standard
/// entry with an empty label and no toggle.
pub open spec fn default_props() -> MenuProps {
    MenuProps {
        type_: "standard"@,
        label: ""@,
        enabled: true,
        visible: true,
        toggle_type: ""@,
        toggle_state: -1i32,
        children_display: ""@,
    }
}

/// The properties after reading the property `entry` (a dictionary entry from
/// a name to a variant). Unknown names leave them as they were; a known name
/// with a value of the wrong type is an error.
pub open spec fn spec_apply_prop(p: MenuProps, entry: IncomingValue) -> Result<MenuProps, DBusError> {
    match entry {
        IncomingValue::DictEntry(k, v) => match (*k, *v) {
            (IncomingValue::String(key), IncomingValue::Variant(inner)) => {
                let key = key@;
                if key == "type"@ {
                    match *inner {
                        IncomingValue::String(s) => Ok(MenuProps { type_: s@, ..p }),
                        _ => Err(DBusError::UnexpectedValue),
                    }
                } else if key == "label"@ {
                    match *inner {
                        IncomingValue::String(s) => Ok(MenuProps { label: s@, ..p }),
                        _ => Err(DBusError::UnexpectedValue),
                    }
                } else if key == "enabled"@ {
                    match *inner {
                        IncomingValue::Bool(b) => Ok(MenuProps { enabled: b, ..p }),
                        _ => Err(DBusError::UnexpectedValue),
                    }
                } else if key == "visible"@ {
                    match *inner {
                        IncomingValue::Bool(b) => Ok(MenuProps { visible: b, ..p }),
                        _ => Err(DBusError::UnexpectedValue),
                    }
                } else if key == "toggle-type"@ {
                    match *inner {
                        IncomingValue::String(s) => Ok(MenuProps { toggle_type: s@, ..p }),
                        _ => Err(DBusError::UnexpectedValue),
                    }
                } else if key == "toggle-state"@ {
                    match *inner {
                        IncomingValue::Int32(n) => Ok(MenuProps { toggle_state: n, ..p }),
                        _ => Err(DBusError::UnexpectedValue),
                    }
                } else if key == "children-display"@ {
                    match *inner {
                        IncomingValue::String(s) => Ok(MenuProps { children_display: s@, ..p }),
                        _ => Err(DBusError::UnexpectedValue),
                    }
                } else {
                    Ok(p)
                }
            },
            _ => Err(DBusError::UnexpectedValue),
        },
        _ => Err(DBusError::UnexpectedValue),
    }
}

/// The properties after reading `props` from place `i` on, or the first error.
pub open spec fn spec_props_from(p: MenuProps, props: Seq<IncomingValue>, i: int) -> Result<
    MenuProps,
    DBusError,
>
    decreases props.len() - i,
{
    if i < 0 || i >= props.len() {
        Ok(p)
    } else {
        match spec_apply_prop(p, props[i]) {
            Ok(q) => spec_props_from(q, props, i + 1),
            Err(e) => Err(e),
        }
    }
}

/// A label cut to its first hundred bytes when it is longer.
pub open spec fn spec_truncate(label: Seq<char>) -> Seq<char> {
    if encode_utf8(label).len() > 100 {
        decode_utf8(encode_utf8(label).subrange(0, 100))
    } else {
        label
    }
}

/// A label shown in a menu takes at most a hundred bytes, and a label that
/// fits is shown whole.
pub proof fn lemma_truncated_label_fits(label: Seq<char>)
    requires
        label_cuts_cleanly(label),
    ensures
        encode_utf8(spec_truncate(label)).len() <= 100,
        encode_utf8(label).len() <= 100 ==> spec_truncate(label) == label,
{
    let bytes = encode_utf8(label);
    if bytes.len() > 100 {
        vstd::utf8::encode_utf8_valid_utf8(label);
        vstd::utf8::valid_utf8_split(bytes, 100);
        vstd::utf8::decode_utf8_encode_utf8(bytes.subrange(0, 100));
    }
}

/// Whether cutting `label` to a hundred bytes leaves whole characters.
pub open spec fn label_cuts_cleanly(label: Seq<char>) -> bool {
    encode_utf8(label).len() > 100 ==> is_char_boundary(encode_utf8(label), 100)
}

/// What an entry with properties `p`, number `id` and children `children`
/// turns into: hidden entries are skipped; then a submenu, a separator, a
/// disabled entry, a checkbox, a radio button or a regular entry, checked in
/// that order.
pub open spec fn spec_decide(service: Seq<char>, id: i32, p: MenuProps, children: Seq<TrayItemModel>) -> ItemOrSeparatorModel {
    let uuid = spec_uuid(service, id);
    let label = spec_truncate(p.label);
    if !p.visible {
        ItemOrSeparatorModel::Skip
    } else if p.children_display == "submenu"@ {
        ItemOrSeparatorModel::Item(TrayItemModel::Nested { id, uuid, label, children })
    } else if p.type_ == "separator"@ {
        ItemOrSeparatorModel::Separator
    } else if !p.enabled {
        ItemOrSeparatorModel::Item(TrayItemModel::Disabled { id, uuid, label })
    } else if p.toggle_type == "checkmark"@ {
        ItemOrSeparatorModel::Item(TrayItemModel::Checkbox { id, uuid, label, checked: p.toggle_state == 1 })
    } else if p.toggle_type == "radio"@ {
        ItemOrSeparatorModel::Item(TrayItemModel::Radio { id, uuid, label, selected: p.toggle_state == 1 })
    } else {
        ItemOrSeparatorModel::Item(TrayItemModel::Regular { id, uuid, label })
    }
}

/// What one layout entry (a struct of the number, the properties and the
/// children) turns into, or the first error met reading it.
pub open spec fn spec_parse_item(service: Seq<char>, v: IncomingValue) -> Result<ItemOrSeparatorModel, DBusError>
    decreases v, 0int,
{
    match v {
        IncomingValue::Struct(fields) => {
            let f = fields@;
            if f.len() < 1 {
                Err(DBusError::MissingValue)
            } else {
                match f[0] {
                    IncomingValue::Int32(id) => {
                        if f.len() < 2 {
                            Err(DBusError::MissingValue)
                        } else {
                            match f[1] {
                                IncomingValue::Array(_, props) => {
                                    match spec_props_from(default_props(), props@, 0) {
                                        Err(e) => Err(e),
                                        Ok(p) => {
                                            if f.len() < 3 {
                                                Err(DBusError::MissingValue)
                                            } else {
                                                match f[2] {
                                                    IncomingValue::Array(_, cv) => {
                                                        match spec_parse_items(service, cv@) {
                                                            Err(e) => Err(e),
                                                            Ok(children) => Ok(
                                                                spec_decide(service, id, p, children),
                                                            ),
                                                        }
                                                    },
                                                    _ => Err(DBusError::UnexpectedValue),
                                                }
                                            }
                                        },
                                    }
                                },
                                _ => Err(DBusError::UnexpectedValue),
                            }
                        }
                    },
                    _ => Err(DBusError::UnexpectedValue),
                }
            }
        },
        _ => Err(DBusError::UnexpectedValue),
    }
}

/// A visible, enabled entry that is neither a submenu nor a separator and
/// whose toggle type is `checkmark` or `radio` becomes a checkbox or a radio
/// button with the entry's number, set exactly when its toggle state is 1.
pub proof fn lemma_toggles_follow_state(service: Seq<char>, item: IncomingValue)
    ensures
        match item {
            IncomingValue::Struct(f) => (f@.len() >= 3) ==> match (f@[0], f@[1], f@[2]) {
                (IncomingValue::Int32(id), IncomingValue::Array(_, props), IncomingValue::Array(_, cv)) => match spec_props_from(
                    default_props(),
                    props@,
                    0,
                ) {
                    Ok(p) => (spec_parse_items(service, cv@) is Ok && p.visible && p.children_display != "submenu"@
                        && p.type_ != "separator"@ && p.enabled) ==> {
                        &&& p.toggle_type == "checkmark"@ ==> (spec_parse_item(service, item) matches Ok(
                            ItemOrSeparatorModel::Item(TrayItemModel::Checkbox { id: i, checked, .. }),
                        ) && i == id && checked == (p.toggle_state == 1))
                        &&& p.toggle_type == "radio"@ ==> (spec_parse_item(service, item) matches Ok(
                            ItemOrSeparatorModel::Item(TrayItemModel::Radio { id: i, selected, .. }),
                        ) && i == id && selected == (p.toggle_state == 1))
                    },
                    Err(_) => true,
                },
                _ => true,
            },
            _ => true,
        },
{
    reveal_strlit("checkmark");
    reveal_strlit("radio");
    assert("checkmark"@ != "radio"@) by {
        assert("checkmark"@[0] != "radio"@[0]);
    }
}

/// The entries that a list of layout entries gives: runs of entries between
/// separators become sections; when there is no separator the entries stand
/// on their own.
pub open spec fn spec_parse_items(service: Seq<char>, items: Seq<IncomingValue>) -> Result<Seq<TrayItemModel>, DBusError>
    decreases items, items.len() + 1,
{
    spec_parse_items_from(service, items, 0, Seq::empty(), Seq::empty())
}

/// The sections and entries gathered so far (`out`, `batch`) once the rest of
/// `items`, from place `i` on, is read.
pub open spec fn spec_parse_items_from(
    service: Seq<char>,
    items: Seq<IncomingValue>,
    i: int,
    out: Seq<TrayItemModel>,
    batch: Seq<TrayItemModel>,
) -> Result<Seq<TrayItemModel>, DBusError>
    decreases items, items.len() - i,
{
    if i < 0 || i >= items.len() {
        Ok(spec_finish(out, batch))
    } else {
        match items[i] {
            IncomingValue::Variant(inner) => match spec_parse_item(service, *inner) {
                Err(e) => Err(e),
                Ok(ItemOrSeparatorModel::Skip) => spec_parse_items_from(service, items, i + 1, out, batch),
                Ok(ItemOrSeparatorModel::Item(t)) => spec_parse_items_from(service, items, i + 1, out, batch.push(t)),
                Ok(ItemOrSeparatorModel::Separator) => spec_parse_items_from(
                    service,
                    items,
                    i + 1,
                    out.push(TrayItemModel::Section { children: batch }),
                    Seq::empty(),
                ),
            },
            _ => Err(DBusError::UnexpectedValue),
        }
    }
}

/// The entries once the last run is added: as a section after earlier
/// sections, or alone when there are none.
pub open spec fn spec_finish(out: Seq<TrayItemModel>, batch: Seq<TrayItemModel>) -> Seq<TrayItemModel> {
    if batch.len() != 0 {
        if out.len() == 0 {
            batch
        } else {
            out.push(TrayItemModel::Section { children: batch })
        }
    } else {
        out
    }
}

/// Cuts a label to its first hundred bytes when it is longer.
fn truncate_label(label: &str) -> (r: &str)
    requires
        label_cuts_cleanly(label@),
    ensures
        r@ == spec_truncate(label@),
{
    if label.as_bytes().len() > 100 {
        let (head, _tail) = label.split_at(100);
        proof {
            vstd::utf8::encode_utf8_decode_utf8(head@);
            assert(head.spec_bytes() == encode_utf8(head@));
            assert(head.spec_bytes() =~= encode_utf8(label@).subrange(0, 100));
            assert(encode_utf8(label@).len() > 100);
            assert(head@ == decode_utf8(encode_utf8(label@).subrange(0, 100)));
        }
        head
    } else {
        assert(encode_utf8(label@).len() <= 100);
        label
    }
}

/// Whether the identifier of entry `id` of `service` fits in a kibibyte; a
/// longer one ends the program.
pub open spec fn uuid_fits(service: Seq<char>, id: i32) -> bool {
    encode_utf8(service).len() + 2 + decimal_i32(id).len() <= 1024
}

/// Whether reading the layout entry `v` of `service` ends normally: every
/// identifier it makes fits, and the label it cuts, once its children are
/// read, cuts between characters. Only what the reading reaches counts.
pub open spec fn item_safe(service: Seq<char>, v: IncomingValue) -> bool
    decreases v, 0int,
{
    match v {
        IncomingValue::Struct(fields) => {
            let f = fields@;
            if f.len() < 1 {
                true
            } else {
                match f[0] {
                    IncomingValue::Int32(id) => uuid_fits(service, id) && (f.len() < 2 || match f[1] {
                        IncomingValue::Array(_, props) => match spec_props_from(default_props(), props@, 0) {
                            Err(_) => true,
                            Ok(p) => f.len() < 3 || match f[2] {
                                IncomingValue::Array(_, cv) => items_safe_from(service, cv@, 0) && (spec_parse_items(
                                    service,
                                    cv@,
                                ) is Ok ==> label_cuts_cleanly(p.label)),
                                _ => true,
                            },
                        },
                        _ => true,
                    }),
                    _ => true,
                }
            }
        },
        _ => true,
    }
}

/// Whether reading the layout entries of `items` from place `i` on ends
/// normally; the reading stops at the first entry that is an error.
pub open spec fn items_safe_from(service: Seq<char>, items: Seq<IncomingValue>, i: int) -> bool
    decreases items, items.len() - i,
{
    if i < 0 || i >= items.len() {
        true
    } else {
        match items[i] {
            IncomingValue::Variant(inner) => item_safe(service, *inner) && (spec_parse_item(service, *inner) is Ok
                ==> items_safe_from(service, items, i + 1)),
            _ => true,
        }
    }
}

/// Whether reading a `GetLayout` reply ends normally.
pub open spec fn layout_reply_safe(service: Seq<char>, body: Seq<IncomingValue>) -> bool {
    if body.len() < 2 {
        true
    } else {
        match body[1] {
            IncomingValue::Struct(root) => {
                if root@.len() < 3 {
                    true
                } else {
                    match root@[2] {
                        IncomingValue::Array(_, top) => items_safe_from(service, top@, 0),
                        _ => true,
                    }
                }
            },
            _ => true,
        }
    }
}

/// Whether the identifier of entry `id` of `service` fits, as `uuid_fits`
/// says.
fn uuid_fits_check(service: &str, id: i32) -> (r: bool)
    ensures
        r == uuid_fits(service@, id),
{
    let n = service.as_bytes().len();
    let digits = i32_to_decimal(id);
    let d = digits.as_str().unicode_len();
    proof {
        crate::text::lemma_decimal_i32_len(id);
    }
    n <= 1022 && d <= 1022 - n
}

/// Whether `label` cuts cleanly at a hundred bytes, as `label_cuts_cleanly`
/// says.
fn label_cuts_cleanly_check(label: &str) -> (r: bool)
    ensures
        r == label_cuts_cleanly(label@),
{
    label.as_bytes().len() <= 100 || label.is_char_boundary(100)
}

/// The properties of a layout entry as read so far, borrowing their texts.
#[derive(Clone, Copy)]
struct PropsRef<'a> {
    type_: &'a str,
    label: &'a str,
    enabled: bool,
    visible: bool,
    toggle_type: &'a str,
    toggle_state: i32,
    children_display: &'a str,
}

impl<'a> PropsRef<'a> {
    spec fn model(self) -> MenuProps {
        MenuProps {
            type_: self.type_@,
            label: self.label@,
            enabled: self.enabled,
            visible: self.visible,
            toggle_type: self.toggle_type@,
            toggle_state: self.toggle_state,
            children_display: self.children_display@,
        }
    }
}

/// Reads one property entry into `p`, as `spec_apply_prop` says.
fn apply_prop<'a>(p: PropsRef<'a>, entry: &'a IncomingValue) -> (r: Result<PropsRef<'a>, DBusError>)
    ensures
        match r {
            Ok(q) => spec_apply_prop(p.model(), *entry) == Ok::<MenuProps, DBusError>(q.model()),
            Err(e) => spec_apply_prop(p.model(), *entry) == Err::<MenuProps, DBusError>(e),
        },
{
    let (k, v) = match entry {
        IncomingValue::DictEntry(k, v) => (k, v),
        _ => return Err(DBusError::UnexpectedValue),
    };
    let (key, inner) = match (&**k, &**v) {
        (IncomingValue::String(key), IncomingValue::Variant(inner)) => (key, inner),
        _ => return Err(DBusError::UnexpectedValue),
    };
    let key = key.as_str();
    let mut q = p;
    if str_eq(key, "type") {
        match &**inner {
            IncomingValue::String(s) => q.type_ = s.as_str(),
            _ => return Err(DBusError::UnexpectedValue),
        }
    } else if str_eq(key, "label") {
        match &**inner {
            IncomingValue::String(s) => q.label = s.as_str(),
            _ => return Err(DBusError::UnexpectedValue),
        }
    } else if str_eq(key, "enabled") {
        match &**inner {
            IncomingValue::Bool(b) => q.enabled = *b,
            _ => return Err(DBusError::UnexpectedValue),
        }
    } else if str_eq(key, "visible") {
        match &**inner {
            IncomingValue::Bool(b) => q.visible = *b,
            _ => return Err(DBusError::UnexpectedValue),
        }
    } else if str_eq(key, "toggle-type") {
        match &**inner {
            IncomingValue::String(s) => q.toggle_type = s.as_str(),
            _ => return Err(DBusError::UnexpectedValue),
        }
    } else if str_eq(key, "toggle-state") {
        match &**inner {
            IncomingValue::Int32(n) => q.toggle_state = *n,
            _ => return Err(DBusError::UnexpectedValue),
        }
    } else if str_eq(key, "children-display") {
        match &**inner {
            IncomingValue::String(s) => q.children_display = s.as_str(),
            _ => return Err(DBusError::UnexpectedValue),
        }
    }
    Ok(q)
}

/// Reads the property entries of a layout entry, as `spec_props_from` says.
fn read_props(props: &Vec<IncomingValue>) -> (r: Result<PropsRef<'_>, DBusError>)
    ensures
        match r {
            Ok(q) => spec_props_from(default_props(), props@, 0) == Ok::<MenuProps, DBusError>(q.model()),
            Err(e) => spec_props_from(default_props(), props@, 0) == Err::<MenuProps, DBusError>(e),
        },
{
    proof {
        reveal_strlit("");
    }
    let mut props_now = PropsRef {
        type_: "standard",
        label: "",
        enabled: true,
        visible: true,
        toggle_type: "",
        toggle_state: -1,
        children_display: "",
    };
    let mut i: usize = 0;
    while i < props.len()
        invariant
            i <= props@.len(),
            spec_props_from(default_props(), props@, 0) == spec_props_from(props_now.model(), props@, i as int),
        decreases props@.len() - i,
    {
        match apply_prop(props_now, &props[i]) {
            Ok(next) => props_now = next,
            Err(e) => return Err(e),
        }
        i += 1;
    }
    Ok(props_now)
}

/// Reads one layout entry, as `spec_parse_item` says; `None` where the
/// reading would not end normally (`item_safe` fails).
fn try_parse_item(service: &str, item: &IncomingValue) -> (r: Option<Result<ItemOrSeparator, DBusError>>)
    ensures
        match r {
            None => !item_safe(service@, *item),
            Some(Ok(x)) => item_safe(service@, *item) && spec_parse_item(service@, *item) == Ok::<
                ItemOrSeparatorModel,
                DBusError,
            >(ios_model(x)),
            Some(Err(e)) => item_safe(service@, *item) && spec_parse_item(service@, *item) == Err::<
                ItemOrSeparatorModel,
                DBusError,
            >(e),
        },
    decreases item,
{
    let fields = match item {
        IncomingValue::Struct(fields) => fields,
        _ => return Some(Err(DBusError::UnexpectedValue)),
    };
    if fields.len() < 1 {
        return Some(Err(DBusError::MissingValue));
    }
    let id = match &fields[0] {
        IncomingValue::Int32(id) => *id,
        _ => return Some(Err(DBusError::UnexpectedValue)),
    };
    if !uuid_fits_check(service, id) {
        return None;
    }
    let uuid = UUID::encode(service, id);
    if fields.len() < 2 {
        return Some(Err(DBusError::MissingValue));
    }
    let props = match &fields[1] {
        IncomingValue::Array(_, props) => props,
        _ => return Some(Err(DBusError::UnexpectedValue)),
    };
    let props_now = match read_props(props) {
        Ok(p) => p,
        Err(e) => return Some(Err(e)),
    };
    let type_ = props_now.type_;
    let label = props_now.label;
    let enabled = props_now.enabled;
    let visible = props_now.visible;
    let toggle_type = props_now.toggle_type;
    let toggle_state = props_now.toggle_state;
    let children_display = props_now.children_display;
    if fields.len() < 3 {
        return Some(Err(DBusError::MissingValue));
    }
    let children_values = match &fields[2] {
        IncomingValue::Array(_, cv) => cv,
        _ => return Some(Err(DBusError::UnexpectedValue)),
    };
    proof {
        assert(decreases_to!(*item => item->Struct_0));
        assert(decreases_to!(*fields => fields@));
        assert(decreases_to!(fields@ => fields@[2]));
        assert(decreases_to!(fields@[2] => fields@[2]->Array_1));
    }
    let children = match try_parse_items(service, children_values) {
        None => return None,
        Some(Err(e)) => return Some(Err(e)),
        Some(Ok(children)) => children,
    };
    if !label_cuts_cleanly_check(label) {
        return None;
    }
    let label = truncate_label(label);
    let r = if !visible {
        ItemOrSeparator::Skip
    } else if str_eq(children_display, "submenu") {
        ItemOrSeparator::Item(TrayItem::Nested { id, uuid, label: String::from_str(label), children })
    } else if str_eq(type_, "separator") {
        ItemOrSeparator::Separator
    } else if !enabled {
        ItemOrSeparator::Item(TrayItem::Disabled { id, uuid, label: String::from_str(label) })
    } else if str_eq(toggle_type, "checkmark") {
        ItemOrSeparator::Item(
            TrayItem::Checkbox { id, uuid, label: String::from_str(label), checked: toggle_state == 1 },
        )
    } else if str_eq(toggle_type, "radio") {
        ItemOrSeparator::Item(
            TrayItem::Radio { id, uuid, label: String::from_str(label), selected: toggle_state == 1 },
        )
    } else {
        ItemOrSeparator::Item(TrayItem::Regular { id, uuid, label: String::from_str(label) })
    };
    Some(Ok(r))
}

/// Reads one layout entry, as `spec_parse_item` says. An identifier that
/// does not fit, or a label that cannot be cut between characters, ends the
/// program, so such entries are left out.
pub fn parse_item(service: &str, item: &IncomingValue) -> (r: Result<ItemOrSeparator, DBusError>)
    requires
        item_safe(service@, *item),
    ensures
        match r {
            Ok(x) => spec_parse_item(service@, *item) == Ok::<ItemOrSeparatorModel, DBusError>(ios_model(x)),
            Err(e) => spec_parse_item(service@, *item) == Err::<ItemOrSeparatorModel, DBusError>(e),
        },
{
    match try_parse_item(service, item) {
        Some(r) => r,
        None => {
            assert(false);
            Err(DBusError::UnexpectedValue)
        },
    }
}

/// Reads a list of layout entries, as `spec_parse_items` says; `None` where
/// the reading would not end normally (`items_safe_from` fails).
fn try_parse_items(service: &str, items: &Vec<IncomingValue>) -> (r: Option<Result<Vec<TrayItem>, DBusError>>)
    ensures
        match r {
            None => !items_safe_from(service@, items@, 0),
            Some(Ok(v)) => items_safe_from(service@, items@, 0) && spec_parse_items(service@, items@) == Ok::<
                Seq<TrayItemModel>,
                DBusError,
            >(items_model(v@)),
            Some(Err(e)) => items_safe_from(service@, items@, 0) && spec_parse_items(service@, items@) == Err::<
                Seq<TrayItemModel>,
                DBusError,
            >(e),
        },
    decreases items,
{
    let mut out: Vec<TrayItem> = Vec::new();
    let mut batch: Vec<TrayItem> = Vec::new();
    let mut i: usize = 0;
    while i < items.len()
        invariant
            i <= items@.len(),
            items_safe_from(service@, items@, 0) == items_safe_from(service@, items@, i as int),
            spec_parse_items(service@, items@) == spec_parse_items_from(
                service@,
                items@,
                i as int,
                items_model(out@),
                items_model(batch@),
            ),
        decreases items@.len() - i,
    {
        match &items[i] {
            IncomingValue::Variant(inner) => {
                proof {
                    assert(decreases_to!(*items => items@));
                    assert(decreases_to!(items@ => items@[i as int]));
                    assert(decreases_to!(items@[i as int] => items@[i as int]->Variant_0));
                }
                match try_parse_item(service, &**inner) {
                    None => return None,
                    Some(Err(e)) => return Some(Err(e)),
                    Some(Ok(ItemOrSeparator::Skip)) => {},
                    Some(Ok(ItemOrSeparator::Item(t))) => {
                        proof {
                            lemma_items_model_push(batch@, t);
                        }
                        batch.push(t);
                    },
                    Some(Ok(ItemOrSeparator::Separator)) => {
                        let section = TrayItem::Section { children: batch };
                        proof {
                            lemma_items_model_push(out@, section);
                        }
                        out.push(section);
                        batch = Vec::new();
                        proof {
                            assert(items_model(batch@) =~= Seq::<TrayItemModel>::empty());
                        }
                    },
                }
            },
            _ => return Some(Err(DBusError::UnexpectedValue)),
        }
        i += 1;
    }
    proof {
        lemma_items_model_index(batch@);
        lemma_items_model_index(out@);
    }
    if batch.len() != 0 {
        if out.len() == 0 {
            out = batch;
        } else {
            let section = TrayItem::Section { children: batch };
            proof {
                lemma_items_model_push(out@, section);
            }
            out.push(section);
        }
    }
    Some(Ok(out))
}

/// Reads a list of layout entries, as `spec_parse_items` says; lists whose
/// reading would end the program (`items_safe_from`) are left out.
pub fn parse_items(service: &str, items: &Vec<IncomingValue>) -> (r: Result<Vec<TrayItem>, DBusError>)
    requires
        items_safe_from(service@, items@, 0),
    ensures
        match r {
            Ok(v) => spec_parse_items(service@, items@) == Ok::<Seq<TrayItemModel>, DBusError>(items_model(v@)),
            Err(e) => spec_parse_items(service@, items@) == Err::<Seq<TrayItemModel>, DBusError>(e),
        },
{
    match try_parse_items(service, items) {
        Some(r) => r,
        None => {
            assert(false);
            Err(DBusError::UnexpectedValue)
        },
    }
}

/// The match rule for the `LayoutUpdated` signals of the menu at `path` of
/// the application at `address`.
pub fn layout_updated_match_rule(address: &str, path: &str) -> (r: String)
    ensures
        r@ == spec_signal_match_rule(address@, "com.canonical.dbusmenu"@, "LayoutUpdated"@, path@),
{
    signal_match_rule(address, "com.canonical.dbusmenu", "LayoutUpdated", path)
}

/// Checks that `message` is a `LayoutUpdated` signal of the menu at
/// `expected_path` sent by `address`.
pub fn parse_layout_updated_signal(message: &IncomingMessage, address: &str, expected_path: &str) -> (r:
    Result<(), DBusError>)
    ensures
        r == spec_check_signal(*message, "com.canonical.dbusmenu"@, expected_path@, "LayoutUpdated"@, address@),
{
    check_signal(message, "com.canonical.dbusmenu", expected_path, "LayoutUpdated", address)
}

/// The match rule for the `ItemsPropertiesUpdated` signals of the menu at
/// `path` of the application at `address`.
pub fn items_properties_updated_match_rule(address: &str, path: &str) -> (r: String)
    ensures
        r@ == spec_signal_match_rule(address@, "com.canonical.dbusmenu"@, "ItemsPropertiesUpdated"@, path@),
{
    signal_match_rule(address, "com.canonical.dbusmenu", "ItemsPropertiesUpdated", path)
}

/// Checks that `message` is an `ItemsPropertiesUpdated` signal of the menu at
/// `expected_path` sent by `address`.
pub fn parse_items_properties_updated_signal(message: &IncomingMessage, address: &str, expected_path: &str) -> (r:
    Result<(), DBusError>)
    ensures
        r == spec_check_signal(
            *message,
            "com.canonical.dbusmenu"@,
            expected_path@,
            "ItemsPropertiesUpdated"@,
            address@,
        ),
{
    check_signal(message, "com.canonical.dbusmenu", expected_path, "ItemsPropertiesUpdated", address)
}

/// The entries that a `GetLayout` reply describes: its body holds the
/// revision and the root entry, whose third field lists the top-level entries.
pub open spec fn spec_get_layout_reply(service: Seq<char>, body: Seq<IncomingValue>) -> Result<Seq<TrayItemModel>, DBusError> {
    if body.len() < 2 {
        Err(DBusError::MissingValue)
    } else {
        match body[1] {
            IncomingValue::Struct(root) => {
                if root@.len() < 3 {
                    Err(DBusError::MissingValue)
                } else {
                    match root@[2] {
                        IncomingValue::Array(_, top) => spec_parse_items(service, top@),
                        _ => Err(DBusError::UnexpectedValue),
                    }
                }
            },
            _ => Err(DBusError::UnexpectedValue),
        }
    }
}

/// Reads the entries of a `GetLayout` reply, as `spec_get_layout_reply`
/// says; `None` where the reading would not end normally
/// (`layout_reply_safe` fails).
fn try_parse_get_layout_reply(service: &str, body: &Vec<IncomingValue>) -> (r: Option<Result<Vec<TrayItem>, DBusError>>)
    ensures
        match r {
            None => !layout_reply_safe(service@, body@),
            Some(Ok(v)) => layout_reply_safe(service@, body@) && spec_get_layout_reply(service@, body@) == Ok::<
                Seq<TrayItemModel>,
                DBusError,
            >(items_model(v@)),
            Some(Err(e)) => layout_reply_safe(service@, body@) && spec_get_layout_reply(service@, body@) == Err::<
                Seq<TrayItemModel>,
                DBusError,
            >(e),
        },
{
    if body.len() < 2 {
        return Some(Err(DBusError::MissingValue));
    }
    let root = match &body[1] {
        IncomingValue::Struct(root) => root,
        _ => return Some(Err(DBusError::UnexpectedValue)),
    };
    if root.len() < 3 {
        return Some(Err(DBusError::MissingValue));
    }
    match &root[2] {
        IncomingValue::Array(_, top) => try_parse_items(service, top),
        _ => Some(Err(DBusError::UnexpectedValue)),
    }
}

/// Whether reading the `GetLayout` reply `body` of the application named
/// `service` ends normally, as `layout_reply_safe` says.
pub fn layout_reply_is_safe(service: &str, body: &Vec<IncomingValue>) -> (r: bool)
    ensures
        r == layout_reply_safe(service@, body@),
{
    try_parse_get_layout_reply(service, body).is_some()
}

/// Reads the entries of a `GetLayout` reply of the application named
/// `service`, as `spec_get_layout_reply` says; replies whose reading would
/// end the program (`layout_reply_safe`) are left out.
pub fn parse_get_layout_reply(service: &str, body: &Vec<IncomingValue>) -> (r: Result<Vec<TrayItem>, DBusError>)
    requires
        layout_reply_safe(service@, body@),
    ensures
        match r {
            Ok(v) => spec_get_layout_reply(service@, body@) == Ok::<Seq<TrayItemModel>, DBusError>(items_model(v@)),
            Err(e) => spec_get_layout_reply(service@, body@) == Err::<Seq<TrayItemModel>, DBusError>(e),
        },
{
    match try_parse_get_layout_reply(service, body) {
        Some(r) => r,
        None => {
            assert(false);
            Err(DBusError::UnexpectedValue)
        },
    }
}

/// A list of menu entries being built.
pub struct VecOfTrayItems(pub Vec<TrayItem>);

impl VecOfTrayItems {
    /// An empty list.
    pub fn new() -> (v: Self)
        ensures
            v.0@.len() == 0,
    {
        VecOfTrayItems(Vec::new())
    }

    /// Appends an entry.
    pub fn push(&mut self, item: TrayItem)
        ensures
            final(self).0@ == old(self).0@.push(item),
    {
        self.0.push(item);
    }

    /// Whether the list has no entry.
    pub fn is_empty(&self) -> (r: bool)
        ensures
            r == (self.0@.len() == 0),
    {
        self.0.len() == 0
    }
}

impl TrayItem {
    /// A section holding `children`.
    pub fn new_section(children: VecOfTrayItems) -> (t: TrayItem)
        ensures
            t == (TrayItem::Section { children: children.0 }),
    {
        TrayItem::Section { children: children.0 }
    }

    /// A submenu entry.
    pub fn new_nested(id: i32, service: &str, label: &str, children: VecOfTrayItems) -> (t: TrayItem)
        requires
            uuid_fits(service@, id),
        ensures
            item_model(t) == (TrayItemModel::Nested {
                id,
                uuid: spec_uuid(service@, id),
                label: label@,
                children: items_model(children.0@),
            }),
    {
        TrayItem::Nested {
            id,
            uuid: UUID::encode(service, id),
            label: String::from_str(label),
            children: children.0,
        }
    }

    /// An entry that cannot be chosen.
    pub fn new_disabled(id: i32, service: &str, label: &str) -> (t: TrayItem)
        requires
            uuid_fits(service@, id),
        ensures
            item_model(t) == (TrayItemModel::Disabled { id, uuid: spec_uuid(service@, id), label: label@ }),
    {
        TrayItem::Disabled { id, uuid: UUID::encode(service, id), label: String::from_str(label) }
    }

    /// An entry with a check mark, set or not.
    pub fn new_checkbox(id: i32, service: &str, label: &str, checked: bool) -> (t: TrayItem)
        requires
            uuid_fits(service@, id),
        ensures
            item_model(t) == (TrayItemModel::Checkbox {
                id,
                uuid: spec_uuid(service@, id),
                label: label@,
                checked,
            }),
    {
        TrayItem::Checkbox { id, uuid: UUID::encode(service, id), label: String::from_str(label), checked }
    }

    /// An entry of a group of which one is selected.
    pub fn new_radio(id: i32, service: &str, label: &str, selected: bool) -> (t: TrayItem)
        requires
            uuid_fits(service@, id),
        ensures
            item_model(t) == (TrayItemModel::Radio {
                id,
                uuid: spec_uuid(service@, id),
                label: label@,
                selected,
            }),
    {
        TrayItem::Radio { id, uuid: UUID::encode(service, id), label: String::from_str(label), selected }
    }

    /// A plain entry.
    pub fn new_regular(id: i32, service: &str, label: &str) -> (t: TrayItem)
        requires
            uuid_fits(service@, id),
        ensures
            item_model(t) == (TrayItemModel::Regular { id, uuid: spec_uuid(service@, id), label: label@ }),
    {
        TrayItem::Regular { id, uuid: UUID::encode(service, id), label: String::from_str(label) }
    }
}

} // verus!
