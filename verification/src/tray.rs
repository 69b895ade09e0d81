//! The fixed-size binary frames that the tray monitor sends over its socket,
//! and the eight-byte request that triggers a menu item.
use vstd::prelude::*;
use vstd::string::StringSliceAdditionalSpecFns;
use vstd::utf8::{decode_utf8, valid_utf8};
use vstd::string::StringExecFns;
use crate::wire::{be_i32, be_u32, be_u64, be_i32_at, be_u32_at, be_u64_at, be_bytes_u32, be_bytes_i32, put_be_u32, utf8_str};

verus! {

/// Most menu entries a frame carries.
pub const TRAY_MENU_ITEMS_COUNT: usize = 20;

/// Bytes reserved for the text of a menu label.
pub const TRAY_LABEL_BYTESIZE: usize = 50;

/// Bytes of a serialized label: its length, then its bytes.
pub const TRAY_LABEL_SERIALIZED_BYTESIZE: usize = 54;

/// Bytes reserved for the text of an icon name or path.
pub const TRAY_STRING_BYTESIZE: usize = 256;

/// Bytes of a serialized icon string: its length, then its bytes.
pub const TRAY_STRING_SERIALIZED_BYTESIZE: usize = 260;

/// Bytes of a serialized menu element: tag, id, root flag, one flag byte's
/// room, a label and two child indices.
pub const TRAY_ELEMENT_SERIALIZED_BYTESIZE: usize = 76;

/// Bytes of a serialized menu: every element slot, used or not.
pub const TRAY_MENU_SERIALIZED_BYTESIZE: usize = 1520;

/// Bytes of a serialized event frame: tag, service, icon string and menu.
pub const TRAY_EVENT_SERIALIZED_BYTESIZE: usize = 1785;

/// A menu label: a byte buffer and how much of it is used.
#[derive(Clone, Copy)]
pub struct TrayLabel {
    pub buf: [u8; 50],
    pub len: u32,
}

/// What a label holds, as plain values.
pub struct TrayLabelView {
    pub bytes: Seq<u8>,
    pub len: u32,
}

impl View for TrayLabel {
    type V = TrayLabelView;

    open spec fn view(&self) -> TrayLabelView {
        TrayLabelView { bytes: self.buf@, len: self.len }
    }
}

/// An icon name or path: a byte buffer and how much of it is used.
#[derive(Clone, Copy)]
pub struct TrayFixedSizeString {
    pub buf: [u8; 256],
    pub len: u32,
}

/// What an icon string holds, as plain values.
pub struct TrayStringView {
    pub bytes: Seq<u8>,
    pub len: u32,
}

impl View for TrayFixedSizeString {
    type V = TrayStringView;

    open spec fn view(&self) -> TrayStringView {
        TrayStringView { bytes: self.buf@, len: self.len }
    }
}

/// Why the used part of a fixed-size string could not be read as text.
#[derive(Debug, Clone, Copy, PartialEq, Eq, Structural)]
pub enum TrayStringError {
    /// The recorded length is larger than the buffer.
    Malformed,
    /// The used bytes are not UTF-8.
    NotUtf8,
}

/// One entry of a tray menu.
#[derive(Clone, Copy)]
pub enum TrayElement {
    Regular { id: i32, label: TrayLabel },
    Disabled { id: i32, label: TrayLabel },
    Checkbox { id: i32, label: TrayLabel, checked: bool },
    Radio { id: i32, label: TrayLabel, selected: bool },
    Nested { id: i32, label: TrayLabel, child_start_idx: u64, child_end_idx: u64 },
    Section { child_start_idx: u64, child_end_idx: u64 },
    Empty,
}

/// A menu entry as plain values.
pub enum TrayElementView {
    Regular { id: i32, label: TrayLabelView },
    Disabled { id: i32, label: TrayLabelView },
    Checkbox { id: i32, label: TrayLabelView, checked: bool },
    Radio { id: i32, label: TrayLabelView, selected: bool },
    Nested { id: i32, label: TrayLabelView, child_start_idx: u64, child_end_idx: u64 },
    Section { child_start_idx: u64, child_end_idx: u64 },
    Empty,
}

impl View for TrayElement {
    type V = TrayElementView;

    open spec fn view(&self) -> TrayElementView {
        match *self {
            TrayElement::Regular { id, label } => TrayElementView::Regular { id, label: label@ },
            TrayElement::Disabled { id, label } => TrayElementView::Disabled { id, label: label@ },
            TrayElement::Checkbox { id, label, checked } => TrayElementView::Checkbox {
                id,
                label: label@,
                checked,
            },
            TrayElement::Radio { id, label, selected } => TrayElementView::Radio {
                id,
                label: label@,
                selected,
            },
            TrayElement::Nested { id, label, child_start_idx, child_end_idx } =>
                TrayElementView::Nested { id, label: label@, child_start_idx, child_end_idx },
            TrayElement::Section { child_start_idx, child_end_idx } => TrayElementView::Section {
                child_start_idx,
                child_end_idx,
            },
            TrayElement::Empty => TrayElementView::Empty,
        }
    }
}

/// A menu entry together with whether it sits at the top level of the menu.
#[derive(Clone, Copy)]
pub struct MaybeRootTrayElement {
    pub root: bool,
    pub element: TrayElement,
}

/// A top-level flag and a menu entry, as plain values.
pub struct MaybeRootView {
    pub root: bool,
    pub element: TrayElementView,
}

impl View for MaybeRootTrayElement {
    type V = MaybeRootView;

    open spec fn view(&self) -> MaybeRootView {
        MaybeRootView { root: self.root, element: self.element@ }
    }
}

/// The entries of a tray menu, in the order they were sent.
pub struct TrayMenu(pub Vec<MaybeRootTrayElement>);

impl View for TrayMenu {
    type V = Seq<MaybeRootView>;

    open spec fn view(&self) -> Seq<MaybeRootView> {
        self.0@.map_values(|e: MaybeRootTrayElement| e@)
    }
}

/// A frame sent by the tray monitor.
pub enum TrayEvent {
    AppAdded { service: u32, icon: TrayFixedSizeString, menu: TrayMenu },
    AppRemoved { service: u32 },
    MenuUpdated { service: u32, menu: TrayMenu },
    IconUpdated { service: u32, icon: TrayFixedSizeString },
}

/// A frame as plain values.
pub enum TrayEventView {
    AppAdded { service: u32, icon: TrayStringView, menu: Seq<MaybeRootView> },
    AppRemoved { service: u32 },
    MenuUpdated { service: u32, menu: Seq<MaybeRootView> },
    IconUpdated { service: u32, icon: TrayStringView },
}

impl View for TrayEvent {
    type V = TrayEventView;

    open spec fn view(&self) -> TrayEventView {
        match self {
            TrayEvent::AppAdded { service, icon, menu } => TrayEventView::AppAdded {
                service: *service,
                icon: icon@,
                menu: menu@,
            },
            TrayEvent::AppRemoved { service } => TrayEventView::AppRemoved { service: *service },
            TrayEvent::MenuUpdated { service, menu } => TrayEventView::MenuUpdated {
                service: *service,
                menu: menu@,
            },
            TrayEvent::IconUpdated { service, icon } => TrayEventView::IconUpdated {
                service: *service,
                icon: icon@,
            },
        }
    }
}

// ---------------------------------------------------------------------------
// The wire format, stated over byte sequences.
// ---------------------------------------------------------------------------

/// The label that the 54 bytes at the start of `b` encode.
pub open spec fn spec_label(b: Seq<u8>) -> TrayLabelView {
    TrayLabelView { bytes: b.subrange(4, 54), len: be_u32(b) }
}

/// The icon string that the 260 bytes at the start of `b` encode.
pub open spec fn spec_fixed_string(b: Seq<u8>) -> TrayStringView {
    TrayStringView { bytes: b.subrange(4, 260), len: be_u32(b) }
}

/// The element and top-level flag that the 76 bytes at the start of `b`
/// encode, or `None` for an unknown tag.
pub open spec fn spec_element(b: Seq<u8>) -> Option<(TrayElementView, bool)> {
    let tag = b[0];
    if tag == 0 {
        Some((TrayElementView::Empty, false))
    } else if tag == 1 {
        Some((TrayElementView::Regular { id: be_i32(b.skip(1)), label: spec_label(b.skip(6)) }, b[5] == 1))
    } else if tag == 2 {
        Some((TrayElementView::Disabled { id: be_i32(b.skip(1)), label: spec_label(b.skip(6)) }, b[5] == 1))
    } else if tag == 3 {
        Some((TrayElementView::Checkbox {
            id: be_i32(b.skip(1)),
            label: spec_label(b.skip(7)),
            checked: b[6] == 1,
        }, b[5] == 1))
    } else if tag == 4 {
        Some((TrayElementView::Radio {
            id: be_i32(b.skip(1)),
            label: spec_label(b.skip(7)),
            selected: b[6] == 1,
        }, b[5] == 1))
    } else if tag == 5 {
        Some((TrayElementView::Nested {
            id: be_i32(b.skip(1)),
            label: spec_label(b.skip(22)),
            child_start_idx: be_u64(b.skip(6)),
            child_end_idx: be_u64(b.skip(14)),
        }, b[5] == 1))
    } else if tag == 6 {
        Some((TrayElementView::Section {
            child_start_idx: be_u64(b.skip(2)),
            child_end_idx: be_u64(b.skip(10)),
        }, b[1] == 1))
    } else {
        None
    }
}

/// Reading a menu from `s`, with `i` element slots already read: the entries
/// read (or `None` when a slot is missing or carries an unknown tag), and how
/// many slots were consumed in either case.
pub open spec fn spec_menu_from(s: Seq<u8>, i: nat) -> (Option<Seq<MaybeRootView>>, nat)
    decreases 20 - i,
{
    if i >= 20 {
        (Some(Seq::empty()), 0)
    } else if s.len() < 76 {
        (None, 0)
    } else {
        match spec_element(s.take(76)) {
            None => (None, 0),
            Some((e, root)) => if e is Empty {
                (Some(Seq::empty()), 1)
            } else {
                let (rest, k) = spec_menu_from(s.skip(76), i + 1);
                (
                    match rest {
                        Some(r) => Some(seq![MaybeRootView { root, element: e }] + r),
                        None => None,
                    },
                    k + 1,
                )
            },
        }
    }
}

/// The menu that `s` starts with, if it is well formed.
pub open spec fn spec_menu(s: Seq<u8>) -> Option<Seq<MaybeRootView>> {
    spec_menu_from(s, 0).0
}

/// How many bytes reading a menu from `s` consumes, whether it succeeds or not.
pub open spec fn spec_menu_consumed(s: Seq<u8>) -> nat {
    76 * spec_menu_from(s, 0).1
}

/// The event that a full frame encodes, or `None` when its tag is unknown or
/// its menu is malformed.
pub open spec fn spec_event(b: Seq<u8>) -> Option<TrayEventView> {
    let tag = b[0];
    let service = be_u32(b.skip(1));
    if tag == 1 {
        match spec_menu(b.skip(265)) {
            Some(menu) => Some(TrayEventView::AppAdded {
                service,
                icon: spec_fixed_string(b.skip(5)),
                menu,
            }),
            None => None,
        }
    } else if tag == 2 {
        Some(TrayEventView::AppRemoved { service })
    } else if tag == 3 {
        match spec_menu(b.skip(5)) {
            Some(menu) => Some(TrayEventView::MenuUpdated { service, menu }),
            None => None,
        }
    } else if tag == 4 {
        Some(TrayEventView::IconUpdated { service, icon: spec_fixed_string(b.skip(5)) })
    } else {
        None
    }
}


// ---------------------------------------------------------------------------
// Decoding.
// ---------------------------------------------------------------------------

/// Copies the `N` bytes that start at `off`.
fn copy_array<const N: usize>(src: &[u8], off: usize) -> (out: [u8; N])
    requires
        off + N <= src.len(),
    ensures
        out@ == src@.subrange(off as int, off + N),
{
    let mut out = [0u8; N];
    let mut i: usize = 0;
    while i < N
        invariant
            i <= N,
            off + N <= src.len(),
            out@.len() == N,
            forall|j: int| 0 <= j < i ==> out@[j] == src@[off + j],
        decreases N - i,
    {
        out[i] = src[off + i];
        i = i + 1;
    }
    assert(out@ =~= src@.subrange(off as int, off + N));
    out
}

impl TrayLabel {
    /// Decodes a label: a big-endian length, then the label's buffer.
    pub fn deserialize(buf: [u8; 54]) -> (label: TrayLabel)
        ensures
            label@ == spec_label(buf@),
    {
        let len = be_u32_at(buf.as_slice(), 0);
        let bytes: [u8; 50] = copy_array(buf.as_slice(), 4);
        TrayLabel { len, buf: bytes }
    }

    /// The used part of the buffer; fails when the length exceeds the buffer.
    pub fn as_bytes(&self) -> (r: Result<&[u8], TrayStringError>)
        ensures
            self.len <= 50 ==> (r matches Ok(b) && b@ == self.buf@.take(self.len as int)),
            self.len > 50 ==> r == Err::<&[u8], _>(TrayStringError::Malformed),
    {
        if self.len <= 50 {
            Ok(vstd::slice::slice_subrange(self.buf.as_slice(), 0, self.len as usize))
        } else {
            Err(TrayStringError::Malformed)
        }
    }

    /// The used part of the buffer as text.
    pub fn as_str(&self) -> (r: Result<&str, TrayStringError>)
        ensures
            self.len > 50 ==> r == Err::<&str, _>(TrayStringError::Malformed),
            self.len <= 50 && !valid_utf8(self.buf@.take(self.len as int)) ==> r == Err::<
                &str,
                _,
            >(TrayStringError::NotUtf8),
            self.len <= 50 && valid_utf8(self.buf@.take(self.len as int)) ==> (r matches Ok(s)
                && s.spec_bytes() == self.buf@.take(self.len as int)),
    {
        let bytes = self.as_bytes()?;
        match utf8_str(bytes) {
            Some(s) => Ok(s),
            None => Err(TrayStringError::NotUtf8),
        }
    }
}

impl TrayFixedSizeString {
    /// Decodes an icon string: a big-endian length, then the string's buffer.
    pub fn deserialize(buf: &[u8; 260]) -> (s: TrayFixedSizeString)
        ensures
            s@ == spec_fixed_string(buf@),
    {
        let len = be_u32_at(buf.as_slice(), 0);
        let bytes: [u8; 256] = copy_array(buf.as_slice(), 4);
        TrayFixedSizeString { len, buf: bytes }
    }

    /// The used part of the buffer; fails when the length exceeds the buffer.
    pub fn as_bytes(&self) -> (r: Result<&[u8], TrayStringError>)
        ensures
            self.len <= 256 ==> (r matches Ok(b) && b@ == self.buf@.take(self.len as int)),
            self.len > 256 ==> r == Err::<&[u8], _>(TrayStringError::Malformed),
    {
        if self.len <= 256 {
            Ok(vstd::slice::slice_subrange(self.buf.as_slice(), 0, self.len as usize))
        } else {
            Err(TrayStringError::Malformed)
        }
    }

    /// The used part of the buffer as text.
    pub fn as_str(&self) -> (r: Result<&str, TrayStringError>)
        ensures
            self.len > 256 ==> r == Err::<&str, _>(TrayStringError::Malformed),
            self.len <= 256 && !valid_utf8(self.buf@.take(self.len as int)) ==> r == Err::<
                &str,
                _,
            >(TrayStringError::NotUtf8),
            self.len <= 256 && valid_utf8(self.buf@.take(self.len as int)) ==> (r matches Ok(s)
                && s.spec_bytes() == self.buf@.take(self.len as int)),
    {
        let bytes = self.as_bytes()?;
        match utf8_str(bytes) {
            Some(s) => Ok(s),
            None => Err(TrayStringError::NotUtf8),
        }
    }
}

/// Takes one byte off the front of `buf`; leaves `buf` alone when it is empty.
pub fn read_u8(buf: &mut &[u8]) -> (r: Option<u8>)
    ensures
        old(buf)@.len() >= 1 ==> r == Some(old(buf)@[0]) && final(buf)@ == old(buf)@.skip(1),
        old(buf)@.len() < 1 ==> r is None && final(buf)@ == old(buf)@,
{
    if buf.len() < 1 {
        return None;
    }
    let n = buf[0];
    *buf = vstd::slice::slice_subrange(*buf, 1, buf.len());
    Some(n)
}

/// Takes a big-endian `i32` off the front of `buf`; leaves `buf` alone when
/// fewer than four bytes are left.
pub fn read_i32(buf: &mut &[u8]) -> (r: Option<i32>)
    ensures
        old(buf)@.len() >= 4 ==> r == Some(be_i32(old(buf)@)) && final(buf)@ == old(buf)@.skip(4),
        old(buf)@.len() < 4 ==> r is None && final(buf)@ == old(buf)@,
{
    if buf.len() < 4 {
        return None;
    }
    let n = be_i32_at(*buf, 0);
    assert(buf@.subrange(0, 4) =~= buf@.take(4));
    *buf = vstd::slice::slice_subrange(*buf, 4, buf.len());
    Some(n)
}

/// Takes a big-endian `u32` off the front of `buf`; leaves `buf` alone when
/// fewer than four bytes are left.
pub fn read_u32(buf: &mut &[u8]) -> (r: Option<u32>)
    ensures
        old(buf)@.len() >= 4 ==> r == Some(be_u32(old(buf)@)) && final(buf)@ == old(buf)@.skip(4),
        old(buf)@.len() < 4 ==> r is None && final(buf)@ == old(buf)@,
{
    if buf.len() < 4 {
        return None;
    }
    let n = be_u32_at(*buf, 0);
    *buf = vstd::slice::slice_subrange(*buf, 4, buf.len());
    Some(n)
}

/// Takes a big-endian `u64` off the front of `buf`; leaves `buf` alone when
/// fewer than eight bytes are left.
pub fn read_u64(buf: &mut &[u8]) -> (r: Option<u64>)
    ensures
        old(buf)@.len() >= 8 ==> r == Some(be_u64(old(buf)@)) && final(buf)@ == old(buf)@.skip(8),
        old(buf)@.len() < 8 ==> r is None && final(buf)@ == old(buf)@,
{
    if buf.len() < 8 {
        return None;
    }
    let n = be_u64_at(*buf, 0);
    *buf = vstd::slice::slice_subrange(*buf, 8, buf.len());
    Some(n)
}

/// Takes a serialized label off the front of `buf`; leaves `buf` alone when
/// it is too short.
pub fn read_label(buf: &mut &[u8]) -> (r: Option<TrayLabel>)
    ensures
        old(buf)@.len() >= 54 ==> (r matches Some(l) && l@ == spec_label(old(buf)@)
            && final(buf)@ == old(buf)@.skip(54)),
        old(buf)@.len() < 54 ==> r is None && final(buf)@ == old(buf)@,
{
    if buf.len() < 54 {
        return None;
    }
    let textbuf: [u8; 54] = copy_array(*buf, 0);
    let text = TrayLabel::deserialize(textbuf);
    assert(textbuf@.subrange(4, 54) =~= buf@.subrange(4, 54));
    *buf = vstd::slice::slice_subrange(*buf, 54, buf.len());
    Some(text)
}

/// Takes a serialized icon string off the front of `buf`; leaves `buf` alone
/// when it is too short.
pub fn read_fixed_size_string(buf: &mut &[u8]) -> (r: Option<TrayFixedSizeString>)
    ensures
        old(buf)@.len() >= 260 ==> (r matches Some(t) && t@ == spec_fixed_string(old(buf)@)
            && final(buf)@ == old(buf)@.skip(260)),
        old(buf)@.len() < 260 ==> r is None && final(buf)@ == old(buf)@,
{
    if buf.len() < 260 {
        return None;
    }
    let textbuf: [u8; 260] = copy_array(*buf, 0);
    let text = TrayFixedSizeString::deserialize(&textbuf);
    assert(textbuf@.subrange(4, 260) =~= buf@.subrange(4, 260));
    *buf = vstd::slice::slice_subrange(*buf, 260, buf.len());
    Some(text)
}


impl TrayElement {
    /// Decodes one element slot; `None` when the tag is unknown.
    pub fn deserialize(buf: [u8; 76]) -> (r: Option<(TrayElement, bool)>)
        ensures
            r is Some <==> spec_element(buf@) is Some,
            r matches Some((e, root)) ==> spec_element(buf@) == Some((e@, root)),
    {
        let ghost b = buf@;
        let mut cur: &[u8] = buf.as_slice();
        let tag = read_u8(&mut cur)?;
        assert(cur@ =~= b.skip(1));
        if tag == 0 {
            Some((TrayElement::Empty, false))
        } else if tag == 1 || tag == 2 {
            let id = read_i32(&mut cur)?;
            assert(cur@ =~= b.skip(5));
            let root = read_u8(&mut cur)? == 1;
            assert(cur@ =~= b.skip(6));
            let label = read_label(&mut cur)?;
            if tag == 1 {
                Some((TrayElement::Regular { id, label }, root))
            } else {
                Some((TrayElement::Disabled { id, label }, root))
            }
        } else if tag == 3 || tag == 4 {
            let id = read_i32(&mut cur)?;
            assert(cur@ =~= b.skip(5));
            let root = read_u8(&mut cur)? == 1;
            assert(cur@ =~= b.skip(6));
            let flag = read_u8(&mut cur)?;
            assert(cur@ =~= b.skip(7));
            let label = read_label(&mut cur)?;
            if tag == 3 {
                Some((TrayElement::Checkbox { id, label, checked: flag == 1 }, root))
            } else {
                Some((TrayElement::Radio { id, label, selected: flag == 1 }, root))
            }
        } else if tag == 5 {
            let id = read_i32(&mut cur)?;
            assert(cur@ =~= b.skip(5));
            let root = read_u8(&mut cur)? == 1;
            assert(cur@ =~= b.skip(6));
            let child_start_idx = read_u64(&mut cur)?;
            assert(cur@ =~= b.skip(14));
            let child_end_idx = read_u64(&mut cur)?;
            assert(cur@ =~= b.skip(22));
            let label = read_label(&mut cur)?;
            Some((TrayElement::Nested { id, label, child_start_idx, child_end_idx }, root))
        } else if tag == 6 {
            let root = read_u8(&mut cur)? == 1;
            assert(cur@ =~= b.skip(2));
            let child_start_idx = read_u64(&mut cur)?;
            assert(cur@ =~= b.skip(10));
            let child_end_idx = read_u64(&mut cur)?;
            Some((TrayElement::Section { child_start_idx, child_end_idx }, root))
        } else {
            None
        }
    }
}

/// Takes one element slot off the front of `buf`; leaves `buf` alone when it
/// is too short or its tag is unknown.
pub fn read_element(buf: &mut &[u8]) -> (r: Option<(TrayElement, bool)>)
    ensures
        r is Some <==> (old(buf)@.len() >= 76 && spec_element(old(buf)@.take(76)) is Some),
        r matches Some((e, root)) ==> spec_element(old(buf)@.take(76)) == Some((e@, root))
            && final(buf)@ == old(buf)@.skip(76),
        r is None ==> final(buf)@ == old(buf)@,
{
    if buf.len() < 76 {
        return None;
    }
    let elementbuf: [u8; 76] = copy_array(*buf, 0);
    assert(elementbuf@ =~= buf@.take(76));
    let (element, root) = TrayElement::deserialize(elementbuf)?;
    *buf = vstd::slice::slice_subrange(*buf, 76, buf.len());
    Some((element, root))
}


/// Puts the entries already read, and the number of slots already consumed,
/// in front of the outcome of reading the rest.
pub open spec fn spec_menu_prefix(
    items: Seq<MaybeRootView>,
    n: nat,
    rest: (Option<Seq<MaybeRootView>>, nat),
) -> (Option<Seq<MaybeRootView>>, nat) {
    (
        match rest.0 {
            Some(r) => Some(items + r),
            None => None,
        },
        n + rest.1,
    )
}

/// Takes a menu off the front of `buf`: element slots up to the first empty
/// one, or all twenty. Fails on a missing slot or an unknown tag; the slots
/// read before that stay consumed.
pub fn read_menu(buf: &mut &[u8]) -> (r: Option<TrayMenu>)
    ensures
        r is Some <==> spec_menu(old(buf)@) is Some,
        r matches Some(m) ==> spec_menu(old(buf)@) == Some(m@),
        final(buf)@ == old(buf)@.skip(spec_menu_consumed(old(buf)@) as int),
{
    let ghost s0 = buf@;
    let mut items: Vec<MaybeRootTrayElement> = Vec::new();
    let mut i: usize = 0;
    let mut done = false;
    assert(s0.skip(0) =~= s0);
    assert(items@.map_values(|e: MaybeRootTrayElement| e@) =~= Seq::<MaybeRootView>::empty());
    assert(Seq::<MaybeRootView>::empty() + Seq::<MaybeRootView>::empty() =~= Seq::<
        MaybeRootView,
    >::empty());
    while i < TRAY_MENU_ITEMS_COUNT && !done
        invariant
            s0 == old(buf)@,
            76 * i <= s0.len(),
            i <= 20,
            items@.len() <= i,
            buf@ == s0.skip(76 * i),
            !done ==> spec_menu_from(s0, 0) == spec_menu_prefix(
                items@.map_values(|e: MaybeRootTrayElement| e@),
                i as nat,
                spec_menu_from(buf@, i as nat),
            ),
            done ==> spec_menu_from(s0, 0) == (
                Some(items@.map_values(|e: MaybeRootTrayElement| e@)),
                i as nat,
            ),
        decreases 20 - i + (if done { 0int } else { 1int }),
    {
        let ghost before = buf@;
        let ghost prev_items = items@.map_values(|e: MaybeRootTrayElement| e@);
        match read_element(buf) {
            None => {
                assert(spec_menu_from(before, i as nat) == (
                    None::<Seq<MaybeRootView>>,
                    0nat,
                ));
                return None;
            },
            Some((element, root)) => {
                assert(before.len() >= 76);
                assert(s0.len() >= 76 * i + 76);
                assert(buf@ =~= s0.skip(76 * i + 76));
                if let TrayElement::Empty = element {
                    i = i + 1;
                    done = true;
                    assert(prev_items + Seq::<MaybeRootView>::empty() =~= prev_items);
                } else {
                    items.push(MaybeRootTrayElement { root, element });
                    let ghost new_items = items@.map_values(|e: MaybeRootTrayElement| e@);
                    assert(new_items =~= prev_items.push(MaybeRootView { root, element: element@ }));
                    proof {
                        let rest = spec_menu_from(buf@, (i + 1) as nat);
                        if let Some(r) = rest.0 {
                            assert(prev_items + (seq![MaybeRootView { root, element: element@ }] + r)
                                =~= new_items + r);
                        }
                    }
                    i = i + 1;
                }
            },
        }
    }
    if !done {
        assert(spec_menu_from(buf@, 20) == (Some(Seq::<MaybeRootView>::empty()), 0nat));
        let ghost its = items@.map_values(|e: MaybeRootTrayElement| e@);
        assert(its + Seq::<MaybeRootView>::empty() =~= its);
    }
    Some(TrayMenu(items))
}


impl TrayEvent {
    /// Decodes a full frame; `None` when its tag is unknown or its menu is
    /// malformed.
    pub fn deserialize(buf: &[u8; 1785]) -> (r: Option<TrayEvent>)
        ensures
            r is Some <==> spec_event(buf@) is Some,
            r matches Some(e) ==> spec_event(buf@) == Some(e@),
    {
        let ghost b = buf@;
        let mut cur: &[u8] = buf.as_slice();
        let tag = read_u8(&mut cur)?;
        assert(cur@ =~= b.skip(1));
        if tag == 1 {
            let service = read_u32(&mut cur)?;
            assert(cur@ =~= b.skip(5));
            let icon = read_fixed_size_string(&mut cur)?;
            assert(cur@ =~= b.skip(265));
            let menu = read_menu(&mut cur)?;
            Some(TrayEvent::AppAdded { service, icon, menu })
        } else if tag == 2 {
            let service = read_u32(&mut cur)?;
            Some(TrayEvent::AppRemoved { service })
        } else if tag == 3 {
            let service = read_u32(&mut cur)?;
            assert(cur@ =~= b.skip(5));
            let menu = read_menu(&mut cur)?;
            Some(TrayEvent::MenuUpdated { service, menu })
        } else if tag == 4 {
            let service = read_u32(&mut cur)?;
            assert(cur@ =~= b.skip(5));
            let icon = read_fixed_size_string(&mut cur)?;
            Some(TrayEvent::IconUpdated { service, icon })
        } else {
            None
        }
    }
}

/// The eight bytes that ask the tray monitor to click entry `id` of the
/// application numbered `service`: both numbers big-endian.
pub fn trigger_request(service: u32, id: i32) -> (buf: [u8; 8])
    ensures
        buf@ == be_bytes_u32(service) + be_bytes_i32(id),
{
    let mut buf = [0u8; 8];
    put_be_u32(&mut buf, 0, service);
    let bits: u32 = if id >= 0 {
        id as u32
    } else {
        ((id as i64) + 0x1_0000_0000i64) as u32
    };
    put_be_u32(&mut buf, 4, bits);
    assert(buf@ =~= be_bytes_u32(service) + be_bytes_i32(id));
    buf
}

/// The tray monitor reads back from a click request the application and the
/// entry it was made for.
pub proof fn lemma_trigger_request_round_trip(service: u32, id: i32)
    ensures
        be_u32((be_bytes_u32(service) + be_bytes_i32(id)).subrange(0, 4)) == service,
        be_i32((be_bytes_u32(service) + be_bytes_i32(id)).subrange(4, 8)) == id,
{
    let b = be_bytes_u32(service) + be_bytes_i32(id);
    assert(b.subrange(0, 4) =~= be_bytes_u32(service));
    assert(b.subrange(4, 8) =~= be_bytes_i32(id));
    crate::wire::lemma_be_u32_roundtrip(service);
    crate::wire::lemma_be_i32_roundtrip(id);
}

/// What the bar is told of a frame of the tray monitor; icons as text.
pub enum TrayIoEvent {
    TrayAppAdded { service: u32, menu: TrayMenu, icon: String },
    TrayAppRemoved { service: u32 },
    TrayAppMenuUpdated { service: u32, menu: TrayMenu },
    TrayAppIconUpdated { service: u32, icon: String },
}

/// The text of an icon string, when its length fits and its bytes are UTF-8.
pub open spec fn icon_text(icon: TrayStringView) -> Option<Seq<char>> {
    if icon.len <= 256 && valid_utf8(icon.bytes.take(icon.len as int)) {
        Some(decode_utf8(icon.bytes.take(icon.len as int)))
    } else {
        None
    }
}

/// Whether `e` tells the bar what the frame `f` says: the same application
/// and menu, and the icon as text.
pub open spec fn io_event_matches(f: TrayEventView, e: TrayIoEvent) -> bool {
    match (f, e) {
        (TrayEventView::AppAdded { service, icon, menu }, TrayIoEvent::TrayAppAdded { service: s, menu: m, icon: i }) =>
            s == service && m@ == menu && icon_text(icon) == Some(i@),
        (TrayEventView::AppRemoved { service }, TrayIoEvent::TrayAppRemoved { service: s }) => s == service,
        (TrayEventView::MenuUpdated { service, menu }, TrayIoEvent::TrayAppMenuUpdated { service: s, menu: m }) =>
            s == service && m@ == menu,
        (TrayEventView::IconUpdated { service, icon }, TrayIoEvent::TrayAppIconUpdated { service: s, icon: i }) =>
            s == service && icon_text(icon) == Some(i@),
        _ => false,
    }
}

/// Why a frame of the tray monitor could not be passed on.
#[derive(Debug, Clone, Copy, PartialEq, Eq, Structural)]
pub enum TrayFrameError {
    /// The frame is not well-formed.
    Malformed,
    /// The icon of the frame is not text.
    BadIcon(TrayStringError),
}

/// The text of an icon string.
fn icon_string(icon: &TrayFixedSizeString) -> (r: Result<String, TrayStringError>)
    ensures
        match r {
            Ok(s) => icon_text(icon@) == Some(s@),
            Err(_) => icon_text(icon@) is None,
        },
{
    let s = icon.as_str()?;
    proof {
        vstd::utf8::encode_utf8_decode_utf8(s@);
    }
    Ok(String::from_str(s))
}

/// The reader of the tray monitor's frames.
pub struct Tray;

impl Tray {
    /// The size of a frame.
    pub const BUFFER_SIZE: usize = 1785;

    /// What a complete frame tells the bar: the frame must be well-formed and
    /// its icon, if any, text.
    pub fn satisfy(&self, buf: &[u8; 1785]) -> (r: Result<TrayIoEvent, TrayFrameError>)
        ensures
            match r {
                Ok(e) => spec_event(buf@) is Some && io_event_matches(spec_event(buf@).unwrap(), e),
                Err(TrayFrameError::Malformed) => spec_event(buf@) is None,
                Err(TrayFrameError::BadIcon(_)) => spec_event(buf@) matches Some(f) && match f {
                    TrayEventView::AppAdded { icon, .. } => icon_text(icon) is None,
                    TrayEventView::IconUpdated { icon, .. } => icon_text(icon) is None,
                    _ => false,
                },
            },
    {
        let event = match TrayEvent::deserialize(buf) {
            Some(e) => e,
            None => return Err(TrayFrameError::Malformed),
        };
        match event {
            TrayEvent::AppAdded { service, icon, menu } => match icon_string(&icon) {
                Ok(icon) => Ok(TrayIoEvent::TrayAppAdded { service, menu, icon }),
                Err(e) => Err(TrayFrameError::BadIcon(e)),
            },
            TrayEvent::AppRemoved { service } => Ok(TrayIoEvent::TrayAppRemoved { service }),
            TrayEvent::MenuUpdated { service, menu } => Ok(TrayIoEvent::TrayAppMenuUpdated { service, menu }),
            TrayEvent::IconUpdated { service, icon } => match icon_string(&icon) {
                Ok(icon) => Ok(TrayIoEvent::TrayAppIconUpdated { service, icon }),
                Err(e) => Err(TrayFrameError::BadIcon(e)),
            },
        }
    }

    /// The request that clicks entry `id` of the application numbered
    /// `service`, as `trigger_request` says.
    pub fn wants_trigger(&self, service: u32, id: i32) -> (buf: [u8; 8])
        ensures
            buf@ == be_bytes_u32(service) + be_bytes_i32(id),
    {
        trigger_request(service, id)
    }
}

} // verus!
