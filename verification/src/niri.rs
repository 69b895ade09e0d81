//! The keyboard layout that the Niri compositor reports on its event stream:
//! splitting the stream into lines, reading the layout events out of their
//! JSON, and naming the current layout.
//!
//! A JSON value is held as its text. `jzon` reads the texts; what it finds is
//! named by the `jzon_*` spec functions below, and the events are stated
//! exactly over those names.
use vstd::prelude::*;
use vstd::string::StringExecFns;
use vstd::utf8::{decode_utf8, valid_utf8};
use crate::text::str_eq;
use crate::wire::utf8_str;

verus! {

/// What `jzon` reads as the member `key` of the JSON text `text`: `Err` when
/// the text is not JSON, `None` when it is not an object with that member,
/// else the member's value written out again as JSON text.
pub uninterp spec fn jzon_member(text: Seq<char>, key: Seq<char>) -> Result<Option<Seq<char>>, ()>;

/// What `jzon` reads as a string from the JSON text `text`: `Err` when the
/// text is not JSON, `None` when it is not a string, else the string with its
/// escapes resolved.
pub uninterp spec fn jzon_string(text: Seq<char>) -> Result<Option<Seq<char>>, ()>;

/// What `jzon` reads as an unsigned integer from the JSON text `text`: `Err`
/// when the text is not JSON, `None` when it is not a non-negative whole
/// number that fits.
pub uninterp spec fn jzon_usize(text: Seq<char>) -> Result<Option<usize>, ()>;

/// What `jzon` reads as the length of the JSON array `text`: `Err` when the
/// text is not JSON, `None` when it is not an array.
pub uninterp spec fn jzon_array_len(text: Seq<char>) -> Result<Option<usize>, ()>;

/// What `jzon` reads as the element `i` of the JSON array `text`, written out
/// again as JSON text: `Err` when the text is not JSON, `None` when it is not
/// an array with such an element.
pub uninterp spec fn jzon_array_item(text: Seq<char>, i: usize) -> Result<Option<Seq<char>>, ()>;

/// The member `key` of the JSON text `text` (`jzon::parse`, then
/// `JsonValue::get` and `JsonValue::dump`), as `jzon_member` names it. `jzon`
/// reports malformed text as an error and limits nesting, so the call returns
/// on every text.
#[verifier::external_body]
fn json_member(text: &str, key: &str) -> (r: Result<Option<String>, ()>)
    ensures
        match r {
            Ok(Some(m)) => jzon_member(text@, key@) == Ok::<Option<Seq<char>>, ()>(Some(m@)),
            Ok(None) => jzon_member(text@, key@) == Ok::<Option<Seq<char>>, ()>(None),
            Err(()) => jzon_member(text@, key@) == Err::<Option<Seq<char>>, ()>(()),
        },
{
    match jzon::parse(text) {
        Ok(v) => match v.get(key) {
            Some(m) => Ok(Some(m.dump())),
            None => Ok(None),
        },
        Err(_) => Err(()),
    }
}

/// The string of the JSON text `text` (`jzon::parse`, then
/// `JsonValue::as_str`), as `jzon_string` names it.
#[verifier::external_body]
fn json_string(text: &str) -> (r: Result<Option<String>, ()>)
    ensures
        match r {
            Ok(Some(m)) => jzon_string(text@) == Ok::<Option<Seq<char>>, ()>(Some(m@)),
            Ok(None) => jzon_string(text@) == Ok::<Option<Seq<char>>, ()>(None),
            Err(()) => jzon_string(text@) == Err::<Option<Seq<char>>, ()>(()),
        },
{
    match jzon::parse(text) {
        Ok(v) => match v.as_str() {
            Some(m) => Ok(Some(String::from(m))),
            None => Ok(None),
        },
        Err(_) => Err(()),
    }
}

/// The unsigned integer of the JSON text `text` (`jzon::parse`, then
/// `JsonValue::as_usize`), as `jzon_usize` names it.
#[verifier::external_body]
fn json_usize(text: &str) -> (r: Result<Option<usize>, ()>)
    ensures
        r == jzon_usize(text@),
{
    match jzon::parse(text) {
        Ok(v) => Ok(v.as_usize()),
        Err(_) => Err(()),
    }
}

/// The length of the JSON array `text` (`jzon::parse`, then
/// `JsonValue::as_array` and `Vec::len`), as `jzon_array_len` names it.
#[verifier::external_body]
fn json_array_len(text: &str) -> (r: Result<Option<usize>, ()>)
    ensures
        r == jzon_array_len(text@),
{
    match jzon::parse(text) {
        Ok(v) => match v.as_array() {
            Some(a) => Ok(Some(a.len())),
            None => Ok(None),
        },
        Err(_) => Err(()),
    }
}

/// The element `i` of the JSON array `text` (`jzon::parse`, then
/// `JsonValue::as_array`, `slice::get` and `JsonValue::dump`), as
/// `jzon_array_item` names it.
#[verifier::external_body]
fn json_array_item(text: &str, i: usize) -> (r: Result<Option<String>, ()>)
    ensures
        match r {
            Ok(Some(m)) => jzon_array_item(text@, i) == Ok::<Option<Seq<char>>, ()>(Some(m@)),
            Ok(None) => jzon_array_item(text@, i) == Ok::<Option<Seq<char>>, ()>(None),
            Err(()) => jzon_array_item(text@, i) == Err::<Option<Seq<char>>, ()>(()),
        },
{
    match jzon::parse(text) {
        Ok(v) => match v.as_array().and_then(|a| a.get(i)) {
            Some(m) => Ok(Some(m.dump())),
            None => Ok(None),
        },
        Err(_) => Err(()),
    }
}

/// A keyboard layout event of Niri.
#[derive(Debug)]
pub enum NiriEvent {
    /// The layouts, by name, and which one is on.
    KeyboardLayoutsChanged { layout_names: Vec<String>, current_idx: usize },
    /// Another layout of the same list is on.
    KeyboardLayoutSwitched { idx: usize },
}

/// A keyboard layout event as plain values.
pub enum NiriEventModel {
    LayoutsChanged { names: Seq<Seq<char>>, current_idx: usize },
    LayoutSwitched { idx: usize },
}

/// The model of an event.
pub open spec fn event_model(e: NiriEvent) -> NiriEventModel {
    match e {
        NiriEvent::KeyboardLayoutsChanged { layout_names, current_idx } => NiriEventModel::LayoutsChanged {
            names: layout_names@.map_values(|s: String| s@),
            current_idx,
        },
        NiriEvent::KeyboardLayoutSwitched { idx } => NiriEventModel::LayoutSwitched { idx },
    }
}

/// The layout index held in the JSON text `text`: a non-negative whole number.
pub open spec fn spec_index(text: Seq<char>) -> Result<usize, ()> {
    match jzon_usize(text) {
        Ok(Some(n)) => Ok(n),
        _ => Err(()),
    }
}

/// The names of the first `k` elements of the JSON array `arr`: each must be
/// a string.
pub open spec fn spec_names(arr: Seq<char>, k: nat) -> Result<Seq<Seq<char>>, ()>
    decreases k,
{
    if k == 0 {
        Ok(Seq::empty())
    } else {
        match spec_names(arr, (k - 1) as nat) {
            Err(()) => Err(()),
            Ok(ns) => match jzon_array_item(arr, (k - 1) as usize) {
                Ok(Some(t)) => match jzon_string(t) {
                    Ok(Some(name)) => Ok(ns.push(name)),
                    _ => Err(()),
                },
                _ => Err(()),
            },
        }
    }
}

/// Once the names of a prefix cannot be read, no longer prefix can be.
proof fn lemma_names_err(arr: Seq<char>, k: nat, m: nat)
    requires
        k <= m,
        spec_names(arr, k) is Err,
    ensures
        spec_names(arr, m) is Err,
    decreases m - k,
{
    if k < m {
        lemma_names_err(arr, (k + 1) as nat, m);
    }
}

/// The event of a `KeyboardLayoutsChanged` member `text`: the member
/// `keyboard_layouts` holds the array `names` of strings and the index
/// `current_idx`; anything missing or of another kind is an error.
pub open spec fn spec_layouts_changed(text: Seq<char>) -> Result<NiriEventModel, ()> {
    match jzon_member(text, "keyboard_layouts"@) {
        Ok(Some(kl)) => match jzon_member(kl, "names"@) {
            Ok(Some(arr)) => match jzon_array_len(arr) {
                Ok(Some(n)) => match spec_names(arr, n as nat) {
                    Ok(names) => match jzon_member(kl, "current_idx"@) {
                        Ok(Some(c)) => match spec_index(c) {
                            Ok(current_idx) => Ok(NiriEventModel::LayoutsChanged { names, current_idx }),
                            Err(()) => Err(()),
                        },
                        _ => Err(()),
                    },
                    Err(()) => Err(()),
                },
                _ => Err(()),
            },
            _ => Err(()),
        },
        _ => Err(()),
    }
}

/// The event of a `KeyboardLayoutSwitched` member `text`: its index `idx`.
pub open spec fn spec_layout_switched(text: Seq<char>) -> Result<NiriEventModel, ()> {
    match jzon_member(text, "idx"@) {
        Ok(Some(c)) => match spec_index(c) {
            Ok(idx) => Ok(NiriEventModel::LayoutSwitched { idx }),
            Err(()) => Err(()),
        },
        _ => Err(()),
    }
}

/// The event of a line of JSON text: a `KeyboardLayoutsChanged` member is
/// read first, else a `KeyboardLayoutSwitched` member; a line with neither is
/// no event; text that is not JSON is an error.
pub open spec fn spec_line_text(text: Seq<char>) -> Result<Option<NiriEventModel>, ()> {
    match jzon_member(text, "KeyboardLayoutsChanged"@) {
        Err(()) => Err(()),
        Ok(Some(v)) => match spec_layouts_changed(v) {
            Ok(e) => Ok(Some(e)),
            Err(()) => Err(()),
        },
        Ok(None) => match jzon_member(text, "KeyboardLayoutSwitched"@) {
            Err(()) => Err(()),
            Ok(Some(v)) => match spec_layout_switched(v) {
                Ok(e) => Ok(Some(e)),
                Err(()) => Err(()),
            },
            Ok(None) => Ok(None),
        },
    }
}

/// The event of a line of bytes: they must be UTF-8 text, read as
/// `spec_line_text` says.
pub open spec fn spec_line(bytes: Seq<u8>) -> Result<Option<NiriEventModel>, ()> {
    if valid_utf8(bytes) {
        spec_line_text(decode_utf8(bytes))
    } else {
        Err(())
    }
}

/// The model of a read line's result.
pub open spec fn line_result_model(r: Result<Option<NiriEvent>, ()>) -> Result<Option<NiriEventModel>, ()> {
    match r {
        Ok(Some(e)) => Ok(Some(event_model(e))),
        Ok(None) => Ok(None),
        Err(()) => Err(()),
    }
}

/// The model of a parsed member's result.
pub open spec fn event_result_model(r: Result<NiriEvent, ()>) -> Result<NiriEventModel, ()> {
    match r {
        Ok(e) => Ok(event_model(e)),
        Err(()) => Err(()),
    }
}

impl NiriEvent {
    /// Reads an event line, as `spec_line` says.
    pub fn from_json(bytes: &[u8]) -> (r: Result<Option<NiriEvent>, ()>)
        ensures
            line_result_model(r) == spec_line(bytes@),
    {
        let s = match utf8_str(bytes) {
            Some(s) => s,
            None => return Err(()),
        };
        proof {
            vstd::utf8::encode_utf8_decode_utf8(s@);
            assert(s@ == decode_utf8(bytes@));
        }
        match json_member(s, "KeyboardLayoutsChanged") {
            Err(()) => return Err(()),
            Ok(Some(v)) => {
                return match NiriEvent::parse_keyboard_layouts_changed(v.as_str()) {
                    Ok(e) => Ok(Some(e)),
                    Err(()) => Err(()),
                };
            },
            Ok(None) => {},
        }
        match json_member(s, "KeyboardLayoutSwitched") {
            Err(()) => Err(()),
            Ok(Some(v)) => match NiriEvent::parse_keyword_layout_switched(v.as_str()) {
                Ok(e) => Ok(Some(e)),
                Err(()) => Err(()),
            },
            Ok(None) => Ok(None),
        }
    }

    /// Reads the JSON text of a `KeyboardLayoutsChanged` member, as
    /// `spec_layouts_changed` says.
    pub fn parse_keyboard_layouts_changed(json: &str) -> (r: Result<NiriEvent, ()>)
        ensures
            event_result_model(r) == spec_layouts_changed(json@),
            r matches Ok(e) ==> e is KeyboardLayoutsChanged,
    {
        let keyboard_layouts = match json_member(json, "keyboard_layouts") {
            Ok(Some(v)) => v,
            _ => return Err(()),
        };
        let arr = match json_member(keyboard_layouts.as_str(), "names") {
            Ok(Some(v)) => v,
            _ => return Err(()),
        };
        let n = match json_array_len(arr.as_str()) {
            Ok(Some(n)) => n,
            _ => return Err(()),
        };
        let mut layout_names: Vec<String> = Vec::new();
        assert(layout_names@.map_values(|s: String| s@) =~= Seq::<Seq<char>>::empty());
        let mut i: usize = 0;
        while i < n
            invariant
                i <= n,
                jzon_member(json@, "keyboard_layouts"@) == Ok::<Option<Seq<char>>, ()>(Some(keyboard_layouts@)),
                jzon_member(keyboard_layouts@, "names"@) == Ok::<Option<Seq<char>>, ()>(Some(arr@)),
                jzon_array_len(arr@) == Ok::<Option<usize>, ()>(Some(n)),
                spec_names(arr@, i as nat) == Ok::<Seq<Seq<char>>, ()>(layout_names@.map_values(|s: String| s@)),
            decreases n - i,
        {
            let item = match json_array_item(arr.as_str(), i) {
                Ok(Some(t)) => t,
                _ => {
                    proof { lemma_names_err(arr@, (i + 1) as nat, n as nat); }
                    return Err(());
                },
            };
            let name = match json_string(item.as_str()) {
                Ok(Some(s)) => s,
                _ => {
                    proof { lemma_names_err(arr@, (i + 1) as nat, n as nat); }
                    return Err(());
                },
            };
            let ghost before = layout_names@;
            layout_names.push(name);
            assert(layout_names@.map_values(|s: String| s@) =~= before.map_values(|s: String| s@).push(layout_names@[before.len() as int]@));
            i += 1;
        }
        let current = match json_member(keyboard_layouts.as_str(), "current_idx") {
            Ok(Some(v)) => v,
            _ => return Err(()),
        };
        let current_idx = match json_usize(current.as_str()) {
            Ok(Some(c)) => c,
            _ => return Err(()),
        };
        Ok(NiriEvent::KeyboardLayoutsChanged { layout_names, current_idx })
    }

    /// Reads the JSON text of a `KeyboardLayoutSwitched` member, as
    /// `spec_layout_switched` says.
    pub fn parse_keyword_layout_switched(json: &str) -> (r: Result<NiriEvent, ()>)
        ensures
            event_result_model(r) == spec_layout_switched(json@),
            r matches Ok(e) ==> e is KeyboardLayoutSwitched,
    {
        let idx = match json_member(json, "idx") {
            Ok(Some(v)) => v,
            _ => return Err(()),
        };
        match json_usize(idx.as_str()) {
            Ok(Some(idx)) => Ok(NiriEvent::KeyboardLayoutSwitched { idx }),
            _ => Err(()),
        }
    }
}

/// The place just after the last newline of `s`, or 0 when there is none.
pub open spec fn last_nl_end(s: Seq<u8>) -> int
    decreases s.len(),
{
    if s.len() == 0 {
        0
    } else if s.last() == 10 {
        s.len() as int
    } else {
        last_nl_end(s.drop_last())
    }
}

/// A place that follows a newline, or the start, with no newline after it,
/// is just after the last newline.
proof fn lemma_last_nl_end(s: Seq<u8>, pos: int)
    requires
        0 <= pos <= s.len(),
        pos == 0 || s[pos - 1] == 10,
        forall|j: int| pos <= j < s.len() ==> s[j] != 10,
    ensures
        last_nl_end(s) == pos,
    decreases s.len(),
{
    if s.len() > pos {
        assert(s.last() != 10);
        lemma_last_nl_end(s.drop_last(), pos);
    } else if s.len() > 0 {
        assert(s.last() == 10);
    }
}

/// The unfinished last line of `s`: what follows its last newline.
pub open spec fn unfinished(s: Seq<u8>) -> Seq<u8> {
    s.subrange(last_nl_end(s), s.len() as int)
}

/// The place just after the last newline lies within the text.
proof fn lemma_last_nl_end_bounds(s: Seq<u8>)
    ensures
        0 <= last_nl_end(s) <= s.len(),
        forall|j: int| last_nl_end(s) <= j < s.len() ==> s[j] != 10,
        last_nl_end(s) > 0 ==> s[last_nl_end(s) - 1] == 10,
    decreases s.len(),
{
    if s.len() > 0 && s.last() != 10 {
        lemma_last_nl_end_bounds(s.drop_last());
        assert forall|j: int| last_nl_end(s) <= j < s.len() implies s[j] != 10 by {
            if j < s.len() - 1 {
                assert(s.drop_last()[j] == s[j]);
            }
        }
    }
}

/// The last newline of a joined text is in its second part when that part
/// has one, else in the first part.
proof fn lemma_last_nl_end_concat(x: Seq<u8>, y: Seq<u8>)
    ensures
        last_nl_end(x + y) == (if last_nl_end(y) > 0 { x.len() + last_nl_end(y) } else { last_nl_end(x) }),
    decreases y.len(),
{
    if y.len() == 0 {
        assert(x + y =~= x);
    } else {
        assert((x + y).last() == y.last());
        if y.last() != 10 {
            assert((x + y).drop_last() =~= x + y.drop_last());
            lemma_last_nl_end_concat(x, y.drop_last());
        }
    }
}

/// Bytes pushed in two parts leave the same unfinished line as when pushed
/// at once.
pub proof fn lemma_push_in_parts(q: Seq<u8>, a: Seq<u8>, b: Seq<u8>)
    ensures
        unfinished(unfinished(q + a) + b) == unfinished(q + a + b),
{
    let qa = q + a;
    let t = unfinished(qa);
    lemma_last_nl_end_bounds(qa);
    lemma_last_nl_end_bounds(b);
    lemma_last_nl_end_concat(t, b);
    lemma_last_nl_end_concat(qa, b);
    assert(last_nl_end(t) == 0) by {
        lemma_last_nl_end_bounds(t);
        if last_nl_end(t) > 0 {
            assert(t[last_nl_end(t) - 1] == qa[last_nl_end(qa) + last_nl_end(t) - 1]);
        }
    }
    if last_nl_end(b) > 0 {
        assert(unfinished(t + b) =~= b.subrange(last_nl_end(b), b.len() as int));
        assert(unfinished(qa + b) =~= b.subrange(last_nl_end(b), b.len() as int));
    } else {
        assert(unfinished(t + b) =~= t + b);
        assert(unfinished(qa + b) =~= t + b);
    }
}

/// The place of the first newline of `s` at or after `i`, if any.
pub open spec fn find_nl_from(s: Seq<u8>, i: int) -> Option<int>
    decreases s.len() - i,
{
    if i < 0 || i >= s.len() {
        None
    } else if s[i] == 10 {
        Some(i)
    } else {
        find_nl_from(s, i + 1)
    }
}

/// A newline with none before it from `i` on is the first one found.
proof fn lemma_find_nl(s: Seq<u8>, i: int, p: int)
    requires
        0 <= i <= p < s.len(),
        s[p] == 10,
        forall|j: int| i <= j < p ==> s[j] != 10,
    ensures
        find_nl_from(s, i) == Some(p),
    decreases p - i,
{
    if i < p {
        lemma_find_nl(s, i + 1, p);
    }
}

/// With no newline from `i` on, none is found and no complete line is left.
proof fn lemma_no_nl(s: Seq<u8>, i: int)
    requires
        0 <= i,
        forall|j: int| i <= j < s.len() ==> s[j] != 10,
    ensures
        find_nl_from(s, i) is None,
        i == 0 ==> spec_lines(s) == Ok::<Seq<NiriEventModel>, ()>(Seq::empty()),
    decreases s.len() - i,
{
    if i < s.len() {
        lemma_no_nl(s, i + 1);
    }
}

/// The events of the complete (newline-terminated) lines of `s`, in order:
/// each line is read as `spec_line` says and lines with no event are
/// skipped; a line that cannot be read makes the whole an error. What
/// follows the last newline is not read.
pub open spec fn spec_lines(s: Seq<u8>) -> Result<Seq<NiriEventModel>, ()>
    decreases s.len(),
{
    match find_nl_from(s, 0) {
        None => Ok(Seq::empty()),
        Some(p) => if 0 <= p < s.len() {
            match spec_line(s.subrange(0, p)) {
                Err(()) => Err(()),
                Ok(first) => match spec_lines(s.subrange(p + 1, s.len() as int)) {
                    Err(()) => Err(()),
                    Ok(rest) => Ok(
                        match first {
                            Some(e) => seq![e] + rest,
                            None => rest,
                        },
                    ),
                },
            }
        } else {
            Ok(Seq::empty())
        },
    }
}

/// The models of events, in order.
pub open spec fn events_model(es: Seq<NiriEvent>) -> Seq<NiriEventModel> {
    es.map_values(|e: NiriEvent| event_model(e))
}

/// Events already read, followed by those of what is left.
pub open spec fn prefix_events(es: Seq<NiriEventModel>, rest: Result<Seq<NiriEventModel>, ()>) -> Result<Seq<NiriEventModel>, ()> {
    match rest {
        Ok(rs) => Ok(es + rs),
        Err(()) => Err(()),
    }
}

/// The bytes of the event stream not yet split into lines.
pub struct Buffer {
    pub queue: Vec<u8>,
}

impl Buffer {
    /// No bytes yet.
    pub fn new() -> (b: Buffer)
        ensures
            b.queue@.len() == 0,
    {
        Buffer { queue: Vec::new() }
    }

    /// Appends `buf` and reads every complete line as an event, as
    /// `spec_lines` says, keeping the unfinished last line. A line that cannot
    /// be read stops the reading and keeps everything.
    pub fn push(&mut self, buf: &[u8]) -> (r: Result<Vec<NiriEvent>, ()>)
        ensures
            match r {
                Ok(events) => {
                    &&& final(self).queue@ == unfinished(old(self).queue@ + buf@)
                    &&& spec_lines(old(self).queue@ + buf@) == Ok::<Seq<NiriEventModel>, ()>(events_model(events@))
                },
                Err(()) => {
                    &&& final(self).queue@ == old(self).queue@ + buf@
                    &&& spec_lines(old(self).queue@ + buf@) is Err
                },
            },
    {
        let ghost all = old(self).queue@ + buf@;
        self.queue.extend_from_slice(buf);
        assert(self.queue@ =~= all);
        let mut events: Vec<NiriEvent> = Vec::new();
        assert(events_model(events@) =~= Seq::<NiriEventModel>::empty());
        assert(all.subrange(0, all.len() as int) =~= all);
        let mut pos: usize = 0;
        let n = self.queue.len();
        loop
            invariant
                n == self.queue@.len(),
                self.queue@ == all,
                all == old(self).queue@ + buf@,
                pos <= n,
                pos == 0 || all[pos - 1] == 10,
                spec_lines(all) == prefix_events(events_model(events@), spec_lines(all.subrange(pos as int, n as int))),
            ensures
                pos <= n,
                pos == 0 || all[pos - 1] == 10,
                forall|j: int| pos <= j < n ==> all[j] != 10,
                spec_lines(all) == prefix_events(events_model(events@), spec_lines(all.subrange(pos as int, n as int))),
            decreases n - pos,
        {
            let mut i = pos;
            while i < n && self.queue[i] != 10
                invariant
                    n == self.queue@.len(),
                    pos <= i <= n,
                    forall|j: int| pos <= j < i ==> self.queue@[j] != 10,
                decreases n - i,
            {
                i += 1;
            }
            if i == n {
                break;
            }
            let ghost t = all.subrange(pos as int, n as int);
            proof {
                lemma_find_nl(t, 0, i - pos);
                assert(t.subrange(0, i - pos) =~= all.subrange(pos as int, i as int));
                assert(t.subrange(i - pos + 1, t.len() as int) =~= all.subrange(i + 1, n as int));
            }
            let line = vstd::slice::slice_subrange(self.queue.as_slice(), pos, i);
            let ghost es = events_model(events@);
            match NiriEvent::from_json(line) {
                Err(()) => return Err(()),
                Ok(Some(e)) => {
                    let ghost em = event_model(e);
                    events.push(e);
                    proof {
                        assert(events_model(events@) =~= es.push(em));
                        let rest = spec_lines(all.subrange(i + 1, n as int));
                        if let Ok(rs) = rest {
                            assert(es.push(em) + rs =~= es + (seq![em] + rs));
                        }
                    }
                },
                Ok(None) => {},
            }
            pos = i + 1;
        }
        proof {
            lemma_last_nl_end(all, pos as int);
            lemma_no_nl(all.subrange(pos as int, n as int), 0);
            assert(events_model(events@) + Seq::<NiriEventModel>::empty() =~= events_model(events@));
        }
        let rest = self.queue.split_off(pos);
        self.queue = rest;
        Ok(events)
    }
}

/// The name the bar shows for a layout: `EN` for English (US), `PL` for
/// Polish, `??` for any other.
pub open spec fn spec_lang(name: Seq<char>) -> Seq<char> {
    if name == "English (US)"@ {
        "EN"@
    } else if name == "Polish"@ {
        "PL"@
    } else {
        "??"@
    }
}

/// The last list of layouts and the last index that `es` bring, if any.
pub open spec fn spec_fold(es: Seq<NiriEventModel>) -> (Option<Seq<Seq<char>>>, Option<usize>)
    decreases es.len(),
{
    if es.len() == 0 {
        (None, None)
    } else {
        let (ls, idx) = spec_fold(es.drop_last());
        match es.last() {
            NiriEventModel::LayoutsChanged { names, current_idx } => (Some(names), Some(current_idx)),
            NiriEventModel::LayoutSwitched { idx: i } => (ls, Some(i)),
        }
    }
}

/// The layouts and what the bar is told after the events `es`: the last
/// list of layouts replaces the known one; when an index came, the name of
/// the layout at the last index is shown, and no layout there is an error.
pub open spec fn spec_after(layouts: Seq<Seq<char>>, es: Seq<NiriEventModel>) -> (Seq<Seq<char>>, Result<Option<Seq<char>>, ()>) {
    let (new_layouts, idx) = spec_fold(es);
    let ls = match new_layouts {
        Some(n) => n,
        None => layouts,
    };
    (
        ls,
        match idx {
            None => Ok(None),
            Some(i) => if i < ls.len() {
                Ok(Some(spec_lang(ls[i as int])))
            } else {
                Err(())
            },
        },
    )
}

/// The keyboard layouts that Niri reported, and the stream not yet read.
pub struct Niri {
    pub buffer: Buffer,
    pub layouts: Vec<String>,
}

impl Niri {
    /// Nothing read yet.
    pub fn new() -> (n: Niri)
        ensures
            n.buffer.queue@.len() == 0,
            n.layouts@.len() == 0,
    {
        Niri { buffer: Buffer::new(), layouts: Vec::new() }
    }

    /// The request that starts the event stream.
    pub fn request() -> (r: &'static [u8])
        ensures
            r@ == seq![34u8, 69, 118, 101, 110, 116, 83, 116, 114, 101, 97, 109, 34, 10],
    {
        let r: &'static [u8] = &[34u8, 69, 118, 101, 110, 116, 83, 116, 114, 101, 97, 109, 34, 10];
        r
    }

    /// Reads the bytes `buf` of the event stream and returns the name of the
    /// layout to show, if an event chose one, as `spec_after` says. A line
    /// that cannot be read is an error and changes nothing but the stream.
    pub fn process(&mut self, buf: &[u8]) -> (r: Result<Option<String>, ()>)
        ensures
            match spec_lines(old(self).buffer.queue@ + buf@) {
                Err(()) => {
                    &&& r is Err
                    &&& final(self).buffer.queue@ == old(self).buffer.queue@ + buf@
                    &&& final(self).layouts@ == old(self).layouts@
                },
                Ok(es) => {
                    let (ls, shown) = spec_after(old(self).layouts@.map_values(|s: String| s@), es);
                    &&& final(self).buffer.queue@ == unfinished(old(self).buffer.queue@ + buf@)
                    &&& final(self).layouts@.map_values(|s: String| s@) == ls
                    &&& match r {
                        Ok(Some(l)) => shown == Ok::<Option<Seq<char>>, ()>(Some(l@)),
                        Ok(None) => shown == Ok::<Option<Seq<char>>, ()>(None),
                        Err(()) => shown is Err,
                    }
                },
            },
    {
        let events = match self.buffer.push(buf) {
            Ok(es) => es,
            Err(()) => return Err(()),
        };
        let ghost es = events_model(events@);
        let mut new_layouts: Option<Vec<String>> = None;
        let mut idx: Option<usize> = None;
        let mut events = events;
        let ghost total = es;
        assert(total.subrange(0, total.len() as int) =~= total);
        let mut k: usize = 0;
        let n = events.len();
        while events.len() > 0
            invariant
                k + events@.len() == n,
                n == total.len(),
                events_model(events@) == total.subrange(k as int, n as int),
                (match new_layouts {
                    Some(v) => Some(v@.map_values(|s: String| s@)),
                    None => None,
                }, idx) == spec_fold(total.take(k as int)),
            decreases events@.len(),
        {
            let ghost before = events_model(events@);
            let e = events.remove(0);
            proof {
                assert(before[0] == event_model(e));
                assert(before.drop_first() =~= events_model(events@));
                assert(total.take(k + 1).drop_last() =~= total.take(k as int));
                assert(total.take(k + 1).last() == total[k as int]);
                assert(total[k as int] == before[0]);
                assert(events_model(events@) =~= total.subrange(k + 1, n as int));
            }
            match e {
                NiriEvent::KeyboardLayoutsChanged { layout_names, current_idx } => {
                    new_layouts = Some(layout_names);
                    idx = Some(current_idx);
                },
                NiriEvent::KeyboardLayoutSwitched { idx: i } => {
                    idx = Some(i);
                },
            }
            k += 1;
        }
        assert(total.take(n as int) =~= total);
        if let Some(ls) = new_layouts {
            self.layouts = ls;
        }
        match idx {
            None => Ok(None),
            Some(i) => {
                if i >= self.layouts.len() {
                    return Err(());
                }
                let name = self.layouts[i].as_str();
                assert(self.layouts@.map_values(|s: String| s@)[i as int] == name@);
                let lang = if str_eq(name, "English (US)") {
                    String::from_str("EN")
                } else if str_eq(name, "Polish") {
                    String::from_str("PL")
                } else {
                    String::from_str("??")
                };
                Ok(Some(lang))
            },
        }
    }
}

} // verus!
