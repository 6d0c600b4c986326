use crate::error::ErrV;
use crate::model::{DocV, EntryV, NodeV, ScalarV};
use crate::reader::{lemma_parse_pairs, spec_node_elems, spec_parse_document, spec_parse_entry,
    spec_parse_node};
use crate::value::{spec_value_span, ValueV};
use crate::writer::{lemma_build_entries_inv, lemma_build_nodes_inv, spec_build_document,
    spec_build_entries, spec_build_entry, spec_build_node, spec_build_nodes,
    spec_scalar_of_value};
use crate::Span;
use vstd::prelude::*;

verus! {

/// The value with every span forgotten. Two values are structurally equal
/// when their stripped forms are equal.
pub open spec fn strip_spans(v: ValueV) -> ValueV
    decreases v,
{
    match v {
        ValueV::Nothing { .. } => ValueV::Nothing { span: Span::Unknown },
        ValueV::Bool { val, .. } => ValueV::Bool { val, span: Span::Unknown },
        ValueV::Int { val, .. } => ValueV::Int { val, span: Span::Unknown },
        ValueV::Float { val, .. } => ValueV::Float { val, span: Span::Unknown },
        ValueV::Text { val, .. } => ValueV::Text { val, span: Span::Unknown },
        ValueV::List { elems, .. } => ValueV::List {
            elems: strip_spans_all(elems),
            span: Span::Unknown,
        },
        ValueV::Record { pairs, .. } => ValueV::Record {
            pairs: strip_spans_pairs(pairs),
            span: Span::Unknown,
        },
    }
}

pub open spec fn strip_spans_all(vs: Seq<ValueV>) -> Seq<ValueV>
    decreases vs,
{
    if vs.len() == 0 {
        Seq::empty()
    } else {
        seq![strip_spans(vs[0])] + strip_spans_all(vs.subrange(1, vs.len() as int))
    }
}

pub open spec fn strip_spans_pairs(ps: Seq<(Seq<char>, ValueV)>) -> Seq<(Seq<char>, ValueV)>
    decreases ps,
{
    if ps.len() == 0 {
        Seq::empty()
    } else {
        seq![(ps[0].0, strip_spans(ps[0].1))] + strip_spans_pairs(ps.subrange(1, ps.len() as int))
    }
}

/// `strip_spans_all` strips element by element.
pub proof fn lemma_strip_spans_all(vs: Seq<ValueV>)
    ensures
        strip_spans_all(vs).len() == vs.len(),
        forall|i: int| 0 <= i < vs.len() ==> strip_spans_all(vs)[i] == strip_spans(vs[i]),
    decreases vs.len(),
{
    if vs.len() > 0 {
        lemma_strip_spans_all(vs.subrange(1, vs.len() as int));
    }
}

/// `strip_spans_pairs` keeps keys and strips values, pair by pair.
pub proof fn lemma_strip_spans_pairs(ps: Seq<(Seq<char>, ValueV)>)
    ensures
        strip_spans_pairs(ps).len() == ps.len(),
        forall|i: int|
            0 <= i < ps.len() ==> strip_spans_pairs(ps)[i] == (ps[i].0, strip_spans(ps[i].1)),
    decreases ps.len(),
{
    if ps.len() > 0 {
        lemma_strip_spans_pairs(ps.subrange(1, ps.len() as int));
    }
}

/// Order preservation, read direction: a document reads to a record with
/// one pair per node, in document order, keyed by the node's name and
/// valued by the node's reading, spanned to the document.
pub proof fn lemma_order_preservation(d: DocV)
    ensures
        spec_parse_document(d) matches ValueV::Record { pairs, span } && span == d.span
            && pairs.len() == d.nodes.len() && forall|i: int|
            0 <= i < d.nodes.len() ==> pairs[i] == (d.nodes[i].name, spec_parse_node(d.nodes[i])),
{
    lemma_parse_pairs(d.nodes);
}

/// Order preservation, entry direction: the elements a node collapses over
/// hold one value per entry, in entry order, with the children's value
/// last when children are present.
pub proof fn lemma_node_elems_order(n: NodeV)
    ensures
        n.children is None ==> spec_node_elems(n).len() == n.entries.len(),
        n.children is Some ==> spec_node_elems(n).len() == n.entries.len() + 1,
        forall|i: int|
            0 <= i < n.entries.len() ==> spec_node_elems(n)[i] == spec_parse_entry(n.entries[i]),
        n.children matches Some(c) ==> spec_node_elems(n)[n.entries.len() as int]
            == spec_parse_document(c),
{
}

/// Collapse correctness: a node with no entries and no children reads to
/// nothing, spanned to the node; a node with exactly one element reads to
/// that element unchanged; a node with two or more elements reads to the
/// list of all of them, spanned to the node.
pub proof fn lemma_collapse(n: NodeV)
    ensures
        (n.entries.len() == 0 && n.children is None) ==> spec_parse_node(n) == (ValueV::Nothing {
            span: n.span,
        }),
        spec_node_elems(n).len() == 1 ==> spec_parse_node(n) == spec_node_elems(n)[0],
        spec_node_elems(n).len() >= 2 ==> spec_parse_node(n) == (ValueV::List {
            elems: spec_node_elems(n),
            span: n.span,
        }),
{
}

/// Property wrapping, read direction: an entry with a name reads to a
/// record with exactly that key, spanned to the entry, whose one value
/// carries exactly the entry's scalar.
pub proof fn lemma_property_wraps(e: EntryV)
    requires
        e.name is Some,
    ensures
        spec_parse_entry(e) matches ValueV::Record { pairs, span } && span == e.span
            && pairs.len() == 1 && pairs[0].0 == e.name->Some_0 && spec_scalar_of_value(pairs[0].1)
            == Some(e.value),
{
}

/// Property wrapping, write direction: a record with exactly one key whose
/// value has a scalar shape writes to exactly one property entry with that
/// name and scalar.
pub proof fn lemma_property_unwraps(pairs: Seq<(Seq<char>, ValueV)>, span: Span)
    requires
        pairs.len() == 1,
        spec_scalar_of_value(pairs[0].1) is Some,
    ensures
        spec_build_entry(ValueV::Record { pairs, span }) == Ok::<EntryV, ErrV>(
            EntryV {
                name: Some(pairs[0].0),
                value: spec_scalar_of_value(pairs[0].1)->Some_0,
                span,
            },
        ),
{
}

/// Scalar fidelity for null: a positional null entry reads to nothing,
/// and nothing at entry position writes back to a positional null entry.
pub proof fn lemma_null_nothing(e: EntryV, span: Span)
    ensures
        (e.name is None && e.value == ScalarV::Null) ==> spec_parse_entry(e) == (ValueV::Nothing {
            span: e.span,
        }),
        spec_build_entry(ValueV::Nothing { span }) == Ok::<EntryV, ErrV>(
            EntryV { name: None, value: ScalarV::Null, span },
        ),
{
}

/// An entry-position failure is an invalid-entry or unsupported-shape
/// error, nothing else.
proof fn lemma_build_entry_err_kind(v: ValueV)
    ensures
        spec_build_entry(v) is Err ==> (spec_build_entry(v)->Err_0 is InvalidEntry
            || spec_build_entry(v)->Err_0 is UnsupportedShape),
{
}

/// A failure over a sequence of entry values keeps the entry error kinds.
proof fn lemma_build_entries_err_kind(elems: Seq<ValueV>)
    requires
        spec_build_entries(elems) is Err,
    ensures
        spec_build_entries(elems)->Err_0 is InvalidEntry || spec_build_entries(
            elems,
        )->Err_0 is UnsupportedShape,
    decreases elems.len(),
{
    lemma_build_entry_err_kind(elems[0]);
    if spec_build_entry(elems[0]) is Ok {
        lemma_build_entries_err_kind(elems.subrange(1, elems.len() as int));
    }
}

/// A node-position failure is an invalid-entry or unsupported-shape
/// error, nothing else.
proof fn lemma_build_node_err_kind(name: Seq<char>, v: ValueV)
    ensures
        spec_build_node(name, v) is Err ==> (spec_build_node(name, v)->Err_0 is InvalidEntry
            || spec_build_node(name, v)->Err_0 is UnsupportedShape),
{
    if spec_build_node(name, v) is Err {
        match v {
            ValueV::List { elems, .. } => {
                lemma_build_entries_err_kind(elems);
            },
            _ => {
                lemma_build_entry_err_kind(v);
            },
        }
    }
}

/// A failure over a sequence of pairs keeps the node error kinds.
proof fn lemma_build_nodes_err_kind(pairs: Seq<(Seq<char>, ValueV)>)
    requires
        spec_build_nodes(pairs) is Err,
    ensures
        spec_build_nodes(pairs)->Err_0 is InvalidEntry || spec_build_nodes(
            pairs,
        )->Err_0 is UnsupportedShape,
    decreases pairs.len(),
{
    lemma_build_node_err_kind(pairs[0].0, pairs[0].1);
    if spec_build_node(pairs[0].0, pairs[0].1) is Ok {
        lemma_build_nodes_err_kind(pairs.subrange(1, pairs.len() as int));
    }
}

/// Error surfacing: a record with other than one key at entry position
/// fails as an invalid entry; the writing path fails as an input-type
/// error exactly when its top level is not a record; and the writer never
/// fails with a parse error.
pub proof fn lemma_error_surfacing(v: ValueV)
    ensures
        (v matches ValueV::Record { pairs, span } && pairs.len() != 1) ==> spec_build_entry(v)
            == Err::<EntryV, ErrV>(ErrV::InvalidEntry { span: spec_value_span(v) }),
        !(v is Record) ==> spec_build_document(v) == Err::<DocV, ErrV>(
            ErrV::InputType { span: spec_value_span(v) },
        ),
        (spec_build_document(v) is Err && spec_build_document(v)->Err_0 is InputType) ==> !(
        v is Record),
        spec_build_document(v) is Err ==> !(spec_build_document(v)->Err_0 is Parse),
{
    match v {
        ValueV::Record { pairs, .. } => {
            if spec_build_nodes(pairs) is Err {
                lemma_build_nodes_err_kind(pairs);
            }
        },
        _ => {},
    }
}

/// No pair of a record holds a list of fewer than two elements. These are
/// exactly the node shapes the collapse rule never produces, so they are
/// the one thing the writer can accept that a re-reading would not give
/// back.
pub open spec fn no_short_list_at(p: (Seq<char>, ValueV)) -> bool {
    !(p.1 matches ValueV::List { elems, .. } && elems.len() < 2)
}

pub open spec fn writable_without_short_lists(v: ValueV) -> bool {
    match v {
        ValueV::Record { pairs, .. } => forall|i: int|
            0 <= i < pairs.len() ==> no_short_list_at(#[trigger] pairs[i]),
        _ => true,
    }
}

/// An entry written from a value reads back to the same value, up to
/// spans.
proof fn lemma_write_read_entry(w: ValueV, en: EntryV)
    requires
        spec_build_entry(w) == Ok::<EntryV, ErrV>(en),
    ensures
        strip_spans(spec_parse_entry(en)) == strip_spans(w),
{
    match w {
        ValueV::Record { pairs, span } => {
            lemma_strip_spans_pairs(pairs);
            let back = spec_parse_entry(en);
            assert(back matches ValueV::Record { pairs: bp, .. } && strip_spans_pairs(bp)
                =~= strip_spans_pairs(pairs)) by {
                lemma_strip_spans_pairs(back->Record_pairs);
            }
        },
        _ => {},
    }
}

/// A node written from a value reads back to the same value, up to spans,
/// as long as the value is not a list of fewer than two elements.
proof fn lemma_write_read_node(name: Seq<char>, w: ValueV, n: NodeV)
    requires
        spec_build_node(name, w) == Ok::<NodeV, ErrV>(n),
        no_short_list_at((name, w)),
    ensures
        n.name == name,
        strip_spans(spec_parse_node(n)) == strip_spans(w),
{
    match w {
        ValueV::Nothing { span } => {
            assert(spec_node_elems(n).len() == 0);
        },
        ValueV::List { elems, span } => {
            let ens = spec_build_entries(elems)->Ok_0;
            lemma_build_entries_inv(elems);
            lemma_node_elems_order(n);
            let back_elems = spec_node_elems(n);
            assert forall|i: int| 0 <= i < elems.len() implies strip_spans(back_elems[i])
                == strip_spans(elems[i]) by {
                lemma_write_read_entry(elems[i], ens[i]);
            }
            lemma_strip_spans_all(back_elems);
            lemma_strip_spans_all(elems);
            assert(strip_spans_all(back_elems) =~= strip_spans_all(elems));
        },
        ValueV::Record { pairs, span } => {
            let en = spec_build_entry(w)->Ok_0;
            lemma_node_elems_order(n);
            assert(spec_node_elems(n).len() == 1);
            assert(spec_parse_node(n) == spec_parse_entry(en));
            lemma_write_read_entry(w, en);
        },
        _ => {
            let en = spec_build_entry(w)->Ok_0;
            lemma_node_elems_order(n);
            assert(spec_node_elems(n).len() == 1);
            assert(spec_parse_node(n) == spec_parse_entry(en));
            lemma_write_read_entry(w, en);
        },
    }
}

/// Idempotence of the pure collapse, write-then-read direction: a value
/// the writer accepts, none of whose node values is a list of fewer than
/// two elements, reads back from the document it writes to as the same
/// value, up to spans.
pub proof fn lemma_write_read_idempotent(v: ValueV, d: DocV)
    requires
        spec_build_document(v) == Ok::<DocV, ErrV>(d),
        writable_without_short_lists(v),
    ensures
        strip_spans(spec_parse_document(d)) == strip_spans(v),
{
    let pairs = v->Record_pairs;
    lemma_build_nodes_inv(pairs);
    lemma_parse_pairs(d.nodes);
    let back = spec_parse_document(d)->Record_pairs;
    assert forall|i: int| 0 <= i < pairs.len() implies back[i].0 == pairs[i].0 && strip_spans(
        back[i].1,
    ) == strip_spans(pairs[i].1) by {
        lemma_write_read_node(pairs[i].0, pairs[i].1, d.nodes[i]);
    }
    lemma_strip_spans_pairs(back);
    lemma_strip_spans_pairs(pairs);
    assert(strip_spans_pairs(back) =~= strip_spans_pairs(pairs));
}

/// A node never reads to a list of fewer than two elements: zero elements
/// collapse to nothing, and a single element is an entry's or a children
/// document's value, which is never a list.
proof fn lemma_parse_node_shape(n: NodeV)
    ensures
        !(spec_parse_node(n) matches ValueV::List { elems, .. } && elems.len() < 2),
{
    let elems = spec_node_elems(n);
    if elems.len() == 1 {
        if n.entries.len() == 1 && n.children is None {
            assert(elems[0] == spec_parse_entry(n.entries[0]));
        } else {
            assert(n.entries.len() == 0 && n.children is Some);
            assert(elems[0] == spec_parse_document(n.children->Some_0));
        }
    }
}

/// What a document reads to, the writer can only be stopped from taking
/// back by shapes that are not there: a read value has no short lists at
/// its node positions.
pub proof fn lemma_read_value_has_no_short_lists(d: DocV)
    ensures
        writable_without_short_lists(spec_parse_document(d)),
{
    lemma_parse_pairs(d.nodes);
    let pairs = spec_parse_document(d)->Record_pairs;
    assert forall|i: int| 0 <= i < pairs.len() implies no_short_list_at(#[trigger] pairs[i]) by {
        lemma_parse_node_shape(d.nodes[i]);
    }
}

/// Idempotence of the pure collapse: when the writer accepts what a
/// document read to, the document it writes reads back to the same value,
/// up to spans. The text leg in between, rendering and re-parsing, is the
/// serializer's and the parser's agreement, outside these proofs.
pub proof fn lemma_roundtrip_idempotent(d0: DocV, d1: DocV)
    requires
        spec_build_document(spec_parse_document(d0)) == Ok::<DocV, ErrV>(d1),
    ensures
        strip_spans(spec_parse_document(d1)) == strip_spans(spec_parse_document(d0)),
{
    lemma_read_value_has_no_short_lists(d0);
    lemma_write_read_idempotent(spec_parse_document(d0), d1);
}

} // verus!
