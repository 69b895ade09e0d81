//! How the tray monitor writes an element slot, and the law that every
//! element it writes is read back as sent.
use vstd::prelude::*;
use crate::tray::{spec_element, spec_label, TrayElementView, TrayLabelView};
use crate::wire::{
    be_bytes_i32, be_bytes_u32, be_bytes_u64, be_i32, be_u32, be_u64, lemma_be_i32_roundtrip, lemma_be_prefix,
    lemma_be_u32_roundtrip, lemma_be_u64_roundtrip,
};

verus! {

/// The byte of a flag: 1 when set.
pub open spec fn flag_byte(b: bool) -> u8 {
    if b {
        1
    } else {
        0
    }
}

/// `n` zero bytes.
pub open spec fn zero_bytes(n: nat) -> Seq<u8> {
    Seq::new(n, |i: int| 0u8)
}

/// The 54 bytes of a label: its length, then its fifty bytes.
pub open spec fn encode_label(l: TrayLabelView) -> Seq<u8> {
    be_bytes_u32(l.len) + l.bytes
}

/// The 76 bytes with which the tray monitor sends an element and whether it
/// stands at the top of the menu: a kind tag (0 empty, 1 regular, 2
/// disabled, 3 checkbox, 4 radio button, 5 submenu, 6 section), then the
/// entry number, the top-level flag, the check flag, the child range and the
/// label as each kind has them, padded with zeros.
pub open spec fn encode_element(e: TrayElementView, root: bool) -> Seq<u8> {
    match e {
        TrayElementView::Empty => seq![0u8] + zero_bytes(75),
        TrayElementView::Regular { id, label } => seq![1u8] + be_bytes_i32(id) + seq![flag_byte(root)] + encode_label(label)
            + zero_bytes(16),
        TrayElementView::Disabled { id, label } => seq![2u8] + be_bytes_i32(id) + seq![flag_byte(root)] + encode_label(
            label,
        ) + zero_bytes(16),
        TrayElementView::Checkbox { id, label, checked } => seq![3u8] + be_bytes_i32(id) + seq![
            flag_byte(root),
            flag_byte(checked),
        ] + encode_label(label) + zero_bytes(15),
        TrayElementView::Radio { id, label, selected } => seq![4u8] + be_bytes_i32(id) + seq![
            flag_byte(root),
            flag_byte(selected),
        ] + encode_label(label) + zero_bytes(15),
        TrayElementView::Nested { id, label, child_start_idx, child_end_idx } => seq![5u8] + be_bytes_i32(id) + seq![
            flag_byte(root),
        ] + be_bytes_u64(child_start_idx) + be_bytes_u64(child_end_idx) + encode_label(label),
        TrayElementView::Section { child_start_idx, child_end_idx } => seq![6u8, flag_byte(root)] + be_bytes_u64(
            child_start_idx,
        ) + be_bytes_u64(child_end_idx) + zero_bytes(58),
    }
}

/// Whether an element can be sent: its label has its fifty bytes, and an
/// empty slot is never at the top.
pub open spec fn sendable(e: TrayElementView, root: bool) -> bool {
    match e {
        TrayElementView::Empty => !root,
        TrayElementView::Regular { label, .. } => label.bytes.len() == 50,
        TrayElementView::Disabled { label, .. } => label.bytes.len() == 50,
        TrayElementView::Checkbox { label, .. } => label.bytes.len() == 50,
        TrayElementView::Radio { label, .. } => label.bytes.len() == 50,
        TrayElementView::Nested { label, .. } => label.bytes.len() == 50,
        TrayElementView::Section { .. } => true,
    }
}

/// A label written at the start of `b` is read back.
proof fn lemma_label_at(b: Seq<u8>, l: TrayLabelView)
    requires
        l.bytes.len() == 50,
        b.len() >= 54,
        b.subrange(0, 54) == encode_label(l),
    ensures
        spec_label(b) == l,
{
    let e = encode_label(l);
    assert(b.subrange(0, 4) =~= be_bytes_u32(l.len)) by {
        assert forall|i: int| 0 <= i < 4 implies b.subrange(0, 4)[i] == be_bytes_u32(l.len)[i] by {
            assert(b[i] == b.subrange(0, 54)[i]);
        }
    }
    assert(be_bytes_u32(l.len).subrange(0, 4) =~= be_bytes_u32(l.len));
    lemma_be_prefix(b, be_bytes_u32(l.len), 4);
    lemma_be_u32_roundtrip(l.len);
    assert(b.subrange(4, 54) =~= l.bytes) by {
        assert forall|i: int| 0 <= i < 50 implies b.subrange(4, 54)[i] == l.bytes[i] by {
            assert(b[i + 4] == b.subrange(0, 54)[i + 4]);
        }
    }
}

/// The number written at place `k` of `b` is read back.
proof fn lemma_i32_at(b: Seq<u8>, k: int, id: i32)
    requires
        0 <= k,
        k + 4 <= b.len(),
        b.subrange(k, k + 4) == be_bytes_i32(id),
    ensures
        be_i32(b.skip(k)) == id,
{
    assert(b.skip(k).subrange(0, 4) =~= b.subrange(k, k + 4));
    assert(be_bytes_i32(id).subrange(0, 4) =~= be_bytes_i32(id));
    lemma_be_prefix(b.skip(k), be_bytes_i32(id), 4);
    lemma_be_i32_roundtrip(id);
}

/// The eight-byte number written at place `k` of `b` is read back.
proof fn lemma_u64_at(b: Seq<u8>, k: int, v: u64)
    requires
        0 <= k,
        k + 8 <= b.len(),
        b.subrange(k, k + 8) == be_bytes_u64(v),
    ensures
        be_u64(b.skip(k)) == v,
{
    assert(b.skip(k).subrange(0, 8) =~= b.subrange(k, k + 8));
    assert(be_bytes_u64(v).subrange(0, 8) =~= be_bytes_u64(v));
    lemma_be_prefix(b.skip(k), be_bytes_u64(v), 8);
    lemma_be_u64_roundtrip(v);
}

/// A regular entry is read back.
#[verifier::spinoff_prover]
proof fn lemma_regular_round_trip(id: i32, label: TrayLabelView, root: bool)
    requires
        label.bytes.len() == 50,
    ensures
        encode_element(TrayElementView::Regular { id, label }, root).len() == 76,
        spec_element(encode_element(TrayElementView::Regular { id, label }, root)) == Some((TrayElementView::Regular { id, label }, root)),
{
    let b = encode_element(TrayElementView::Regular { id, label }, root);
    assert(b[0] == 1u8);
    assert(b[5] == flag_byte(root));
    assert(b.subrange(1, 5) =~= be_bytes_i32(id));
    lemma_i32_at(b, 1, id);
    assert(b.skip(6).subrange(0, 54) =~= encode_label(label));
    lemma_label_at(b.skip(6), label);
}

/// A disabled entry is read back.
#[verifier::spinoff_prover]
proof fn lemma_disabled_round_trip(id: i32, label: TrayLabelView, root: bool)
    requires
        label.bytes.len() == 50,
    ensures
        encode_element(TrayElementView::Disabled { id, label }, root).len() == 76,
        spec_element(encode_element(TrayElementView::Disabled { id, label }, root)) == Some((TrayElementView::Disabled { id, label }, root)),
{
    let b = encode_element(TrayElementView::Disabled { id, label }, root);
    assert(b[0] == 2u8);
    assert(b[5] == flag_byte(root));
    assert(b.subrange(1, 5) =~= be_bytes_i32(id));
    lemma_i32_at(b, 1, id);
    assert(b.skip(6).subrange(0, 54) =~= encode_label(label));
    lemma_label_at(b.skip(6), label);
}

/// A checkbox entry is read back.
#[verifier::spinoff_prover]
proof fn lemma_checkbox_round_trip(id: i32, label: TrayLabelView, on: bool, root: bool)
    requires
        label.bytes.len() == 50,
    ensures
        encode_element(TrayElementView::Checkbox { id, label, checked: on }, root).len() == 76,
        spec_element(encode_element(TrayElementView::Checkbox { id, label, checked: on }, root)) == Some((TrayElementView::Checkbox { id, label, checked: on }, root)),
{
    let b = encode_element(TrayElementView::Checkbox { id, label, checked: on }, root);
    assert(b[0] == 3u8);
    assert(b[5] == flag_byte(root));
    assert(b[6] == flag_byte(on));
    assert(b.subrange(1, 5) =~= be_bytes_i32(id));
    lemma_i32_at(b, 1, id);
    assert(b.skip(7).subrange(0, 54) =~= encode_label(label));
    lemma_label_at(b.skip(7), label);
}

/// A radio entry is read back.
#[verifier::spinoff_prover]
proof fn lemma_radio_round_trip(id: i32, label: TrayLabelView, on: bool, root: bool)
    requires
        label.bytes.len() == 50,
    ensures
        encode_element(TrayElementView::Radio { id, label, selected: on }, root).len() == 76,
        spec_element(encode_element(TrayElementView::Radio { id, label, selected: on }, root)) == Some((TrayElementView::Radio { id, label, selected: on }, root)),
{
    let b = encode_element(TrayElementView::Radio { id, label, selected: on }, root);
    assert(b[0] == 4u8);
    assert(b[5] == flag_byte(root));
    assert(b[6] == flag_byte(on));
    assert(b.subrange(1, 5) =~= be_bytes_i32(id));
    lemma_i32_at(b, 1, id);
    assert(b.skip(7).subrange(0, 54) =~= encode_label(label));
    lemma_label_at(b.skip(7), label);
}

/// A submenu entry is read back.
#[verifier::spinoff_prover]
#[verifier::rlimit(40)]
proof fn lemma_nested_round_trip(id: i32, label: TrayLabelView, start: u64, end: u64, root: bool)
    requires
        label.bytes.len() == 50,
    ensures
        encode_element(
            TrayElementView::Nested { id, label, child_start_idx: start, child_end_idx: end },
            root,
        ).len() == 76,
        spec_element(encode_element(TrayElementView::Nested { id, label, child_start_idx: start, child_end_idx: end }, root))
            == Some((TrayElementView::Nested { id, label, child_start_idx: start, child_end_idx: end }, root)),
{
    let b = encode_element(TrayElementView::Nested { id, label, child_start_idx: start, child_end_idx: end }, root);
    assert(b[0] == 5u8);
    assert(b[5] == flag_byte(root));
    assert(b.subrange(1, 5) =~= be_bytes_i32(id));
    lemma_i32_at(b, 1, id);
    assert(b.subrange(6, 14) =~= be_bytes_u64(start));
    lemma_u64_at(b, 6, start);
    assert(b.subrange(14, 22) =~= be_bytes_u64(end));
    lemma_u64_at(b, 14, end);
    assert(b.skip(22).subrange(0, 54) =~= encode_label(label));
    lemma_label_at(b.skip(22), label);
}

/// A section is read back.
#[verifier::spinoff_prover]
proof fn lemma_section_round_trip(e: TrayElementView, root: bool)
    requires
        e is Section,
    ensures
        encode_element(e, root).len() == 76,
        spec_element(encode_element(e, root)) == Some((e, root)),
{
    let b = encode_element(e, root);
    let (start, end) = match e {
        TrayElementView::Section { child_start_idx, child_end_idx } => (child_start_idx, child_end_idx),
        _ => arbitrary(),
    };
    assert(b[0] == 6u8);
    assert(b[1] == flag_byte(root));
    assert(b.subrange(2, 10) =~= be_bytes_u64(start));
    lemma_u64_at(b, 2, start);
    assert(b.subrange(10, 18) =~= be_bytes_u64(end));
    lemma_u64_at(b, 10, end);
}

/// Every element the tray monitor sends is read back as that element, at
/// the same level: each kind has its own tag, and the number, flags, child
/// range and label are read from where they were written.
pub proof fn lemma_element_round_trip(e: TrayElementView, root: bool)
    requires
        sendable(e, root),
    ensures
        encode_element(e, root).len() == 76,
        spec_element(encode_element(e, root)) == Some((e, root)),
{
    match e {
        TrayElementView::Empty => {
            assert(encode_element(e, root)[0] == 0u8);
        },
        TrayElementView::Regular { id, label } => lemma_regular_round_trip(id, label, root),
        TrayElementView::Disabled { id, label } => lemma_disabled_round_trip(id, label, root),
        TrayElementView::Checkbox { id, label, checked } => lemma_checkbox_round_trip(id, label, checked, root),
        TrayElementView::Radio { id, label, selected } => lemma_radio_round_trip(id, label, selected, root),
        TrayElementView::Nested { id, label, child_start_idx, child_end_idx } => lemma_nested_round_trip(
            id,
            label,
            child_start_idx,
            child_end_idx,
            root,
        ),
        TrayElementView::Section { .. } => lemma_section_round_trip(e, root),
    }
}

} // verus!
