use crate::error::{ErrV, Error};
use crate::model::{lemma_nodes_view, nodes_view, DocV, Document, Entry, EntryV, Node, NodeV, Scalar,
    ScalarV};
use crate::value::{lemma_pairs_view, lemma_values_view, pairs_view, spec_value_span, values_view,
    Value, ValueV};
use vstd::prelude::*;

verus! {

/// The scalar a value writes to at entry position, if it is a scalar shape.
pub open spec fn spec_scalar_of_value(v: ValueV) -> Option<ScalarV> {
    match v {
        ValueV::Nothing { .. } => Some(ScalarV::Null),
        ValueV::Bool { val, .. } => Some(ScalarV::Bool(val)),
        ValueV::Int { val, .. } => Some(ScalarV::Int(val)),
        ValueV::Float { val, .. } => Some(ScalarV::Float(val)),
        ValueV::Text { val, .. } => Some(ScalarV::Text(val)),
        ValueV::List { .. } => None,
        ValueV::Record { .. } => None,
    }
}

/// The entry a value writes to. A record with exactly one key becomes a
/// property entry named by that key, a scalar becomes a positional entry,
/// and every other shape is rejected.
pub open spec fn spec_build_entry(v: ValueV) -> Result<EntryV, ErrV> {
    match v {
        ValueV::Record { pairs, span } => {
            if pairs.len() != 1 {
                Err(ErrV::InvalidEntry { span })
            } else {
                match spec_scalar_of_value(pairs[0].1) {
                    Some(s) => Ok(EntryV { name: Some(pairs[0].0), value: s, span }),
                    None => Err(ErrV::UnsupportedShape { span: spec_value_span(pairs[0].1) }),
                }
            }
        },
        ValueV::List { span, .. } => Err(ErrV::UnsupportedShape { span }),
        ValueV::Nothing { span } => Ok(EntryV { name: None, value: ScalarV::Null, span }),
        ValueV::Bool { val, span } => Ok(EntryV { name: None, value: ScalarV::Bool(val), span }),
        ValueV::Int { val, span } => Ok(EntryV { name: None, value: ScalarV::Int(val), span }),
        ValueV::Float { val, span } => Ok(
            EntryV { name: None, value: ScalarV::Float(val), span },
        ),
        ValueV::Text { val, span } => Ok(EntryV { name: None, value: ScalarV::Text(val), span }),
    }
}

/// The entries a sequence of values writes to, in order; the first failure
/// is the result.
pub open spec fn spec_build_entries(elems: Seq<ValueV>) -> Result<Seq<EntryV>, ErrV>
    decreases elems.len(),
{
    if elems.len() == 0 {
        Ok(Seq::empty())
    } else {
        match spec_build_entry(elems[0]) {
            Err(e) => Err(e),
            Ok(en) => match spec_build_entries(elems.subrange(1, elems.len() as int)) {
                Err(e) => Err(e),
                Ok(rest) => Ok(seq![en] + rest),
            },
        }
    }
}

/// The node a named value writes to, spanned to the value. Nothing gives a
/// node without entries, a scalar gives one positional entry, a one-key
/// record gives one property entry, a list gives one entry per element in
/// list order, and every other record shape is rejected.
pub open spec fn spec_build_node(name: Seq<char>, v: ValueV) -> Result<NodeV, ErrV> {
    match v {
        ValueV::Nothing { span } => Ok(
            NodeV { name, entries: Seq::empty(), children: None, span },
        ),
        ValueV::List { elems, span } => match spec_build_entries(elems) {
            Ok(ens) => Ok(NodeV { name, entries: ens, children: None, span }),
            Err(e) => Err(e),
        },
        ValueV::Record { pairs, span } => {
            if pairs.len() == 1 {
                match spec_build_entry(v) {
                    Ok(en) => Ok(NodeV { name, entries: seq![en], children: None, span }),
                    Err(e) => Err(e),
                }
            } else {
                Err(ErrV::UnsupportedShape { span })
            }
        },
        _ => match spec_build_entry(v) {
            Ok(en) => Ok(
                NodeV { name, entries: seq![en], children: None, span: spec_value_span(v) },
            ),
            Err(e) => Err(e),
        },
    }
}

/// The nodes a sequence of key/value pairs writes to, in order; the first
/// failure is the result.
pub open spec fn spec_build_nodes(pairs: Seq<(Seq<char>, ValueV)>) -> Result<Seq<NodeV>, ErrV>
    decreases pairs.len(),
{
    if pairs.len() == 0 {
        Ok(Seq::empty())
    } else {
        match spec_build_node(pairs[0].0, pairs[0].1) {
            Err(e) => Err(e),
            Ok(n) => match spec_build_nodes(pairs.subrange(1, pairs.len() as int)) {
                Err(e) => Err(e),
                Ok(rest) => Ok(seq![n] + rest),
            },
        }
    }
}

/// The document a value writes to: the value must be a record, whose keys
/// name the nodes in record order; anything else is an input-type error.
pub open spec fn spec_build_document(v: ValueV) -> Result<DocV, ErrV> {
    match v {
        ValueV::Record { pairs, span } => match spec_build_nodes(pairs) {
            Ok(ns) => Ok(DocV { nodes: ns, span }),
            Err(e) => Err(e),
        },
        _ => Err(ErrV::InputType { span: spec_value_span(v) }),
    }
}

/// When every element writes to an entry, the sequence does, element by
/// element in order.
pub proof fn lemma_build_entries_ok(elems: Seq<ValueV>)
    requires
        forall|j: int| 0 <= j < elems.len() ==> (#[trigger] spec_build_entry(elems[j])) is Ok,
    ensures
        spec_build_entries(elems) is Ok,
        spec_build_entries(elems)->Ok_0.len() == elems.len(),
        forall|j: int|
            0 <= j < elems.len() ==> spec_build_entries(elems)->Ok_0[j] == spec_build_entry(
                elems[j],
            )->Ok_0,
    decreases elems.len(),
{
    if elems.len() > 0 {
        lemma_build_entries_ok(elems.subrange(1, elems.len() as int));
    }
}

/// When the elements before position `i` write to entries and the element
/// at `i` does not, the sequence fails with that element's error.
pub proof fn lemma_build_entries_err(elems: Seq<ValueV>, i: int)
    requires
        0 <= i < elems.len(),
        forall|j: int| 0 <= j < i ==> (#[trigger] spec_build_entry(elems[j])) is Ok,
        spec_build_entry(elems[i]) is Err,
    ensures
        spec_build_entries(elems) == Err::<Seq<EntryV>, ErrV>(spec_build_entry(elems[i])->Err_0),
    decreases i,
{
    if i > 0 {
        lemma_build_entries_err(elems.subrange(1, elems.len() as int), i - 1);
    }
}

/// When every pair writes to a node, the sequence does, pair by pair in
/// order.
pub proof fn lemma_build_nodes_ok(pairs: Seq<(Seq<char>, ValueV)>)
    requires
        forall|j: int|
            0 <= j < pairs.len() ==> (#[trigger] spec_build_node(pairs[j].0, pairs[j].1)) is Ok,
    ensures
        spec_build_nodes(pairs) is Ok,
        spec_build_nodes(pairs)->Ok_0.len() == pairs.len(),
        forall|j: int|
            0 <= j < pairs.len() ==> spec_build_nodes(pairs)->Ok_0[j] == spec_build_node(
                pairs[j].0,
                pairs[j].1,
            )->Ok_0,
    decreases pairs.len(),
{
    if pairs.len() > 0 {
        lemma_build_nodes_ok(pairs.subrange(1, pairs.len() as int));
    }
}

/// When a sequence of elements writes to entries, every element does, and
/// the entries stand in element order.
pub proof fn lemma_build_entries_inv(elems: Seq<ValueV>)
    requires
        spec_build_entries(elems) is Ok,
    ensures
        spec_build_entries(elems)->Ok_0.len() == elems.len(),
        forall|j: int| 0 <= j < elems.len() ==> (#[trigger] spec_build_entry(elems[j])) is Ok,
        forall|j: int|
            0 <= j < elems.len() ==> spec_build_entries(elems)->Ok_0[j] == spec_build_entry(
                elems[j],
            )->Ok_0,
    decreases elems.len(),
{
    if elems.len() > 0 {
        let sub = elems.subrange(1, elems.len() as int);
        lemma_build_entries_inv(sub);
        assert forall|j: int| 0 <= j < elems.len() implies (#[trigger] spec_build_entry(
            elems[j],
        )) is Ok by {
            if j > 0 {
                assert(elems[j] == sub[j - 1]);
                assert(spec_build_entry(sub[j - 1]) is Ok);
            }
        }
    }
}

/// When a sequence of pairs writes to nodes, every pair does, and the
/// nodes stand in pair order.
pub proof fn lemma_build_nodes_inv(pairs: Seq<(Seq<char>, ValueV)>)
    requires
        spec_build_nodes(pairs) is Ok,
    ensures
        spec_build_nodes(pairs)->Ok_0.len() == pairs.len(),
        forall|j: int|
            0 <= j < pairs.len() ==> (#[trigger] spec_build_node(pairs[j].0, pairs[j].1)) is Ok,
        forall|j: int|
            0 <= j < pairs.len() ==> spec_build_nodes(pairs)->Ok_0[j] == spec_build_node(
                pairs[j].0,
                pairs[j].1,
            )->Ok_0,
    decreases pairs.len(),
{
    if pairs.len() > 0 {
        let sub = pairs.subrange(1, pairs.len() as int);
        lemma_build_nodes_inv(sub);
        assert forall|j: int| 0 <= j < pairs.len() implies (#[trigger] spec_build_node(
            pairs[j].0,
            pairs[j].1,
        )) is Ok by {
            if j > 0 {
                assert(pairs[j] == sub[j - 1]);
                assert(spec_build_node(sub[j - 1].0, sub[j - 1].1) is Ok);
            }
        }
    }
}

/// When the pairs before position `i` write to nodes and the pair at `i`
/// does not, the sequence fails with that pair's error.
pub proof fn lemma_build_nodes_err(pairs: Seq<(Seq<char>, ValueV)>, i: int)
    requires
        0 <= i < pairs.len(),
        forall|j: int|
            0 <= j < i ==> (#[trigger] spec_build_node(pairs[j].0, pairs[j].1)) is Ok,
        spec_build_node(pairs[i].0, pairs[i].1) is Err,
    ensures
        spec_build_nodes(pairs) == Err::<Seq<NodeV>, ErrV>(
            spec_build_node(pairs[i].0, pairs[i].1)->Err_0,
        ),
    decreases i,
{
    if i > 0 {
        lemma_build_nodes_err(pairs.subrange(1, pairs.len() as int), i - 1);
    }
}

/// Writes a value to the scalar it stands for at entry position, when it
/// has a scalar shape.
fn scalar_of_value(v: &Value) -> (r: Option<Scalar>)
    ensures
        match spec_scalar_of_value(v@) {
            Some(s) => r matches Some(sc) && sc@ == s,
            None => r is None,
        },
{
    match v {
        Value::Nothing { .. } => Some(Scalar::Null),
        Value::Bool { val, .. } => Some(Scalar::Bool(*val)),
        Value::Int { val, .. } => Some(Scalar::Int(*val)),
        Value::Float { val, .. } => Some(Scalar::Float { raw: val.clone() }),
        Value::Text { val, .. } => Some(Scalar::Text(val.clone())),
        Value::List { .. } => None,
        Value::Record { .. } => None,
    }
}

/// Writes one value to an entry.
pub fn build_entry(v: &Value) -> (r: Result<Entry, Error>)
    ensures
        match spec_build_entry(v@) {
            Ok(ev) => r matches Ok(en) && en@ == ev,
            Err(e) => r matches Err(err) && err@ == e,
        },
{
    match v {
        Value::Record { pairs, span } => {
            proof {
                lemma_pairs_view(pairs@);
            }
            if pairs.len() != 1 {
                Err(Error::InvalidEntry { span: *span })
            } else {
                let inner = &pairs[0].1;
                match scalar_of_value(inner) {
                    Some(s) => Ok(
                        Entry { name: Some(pairs[0].0.clone()), value: s, span: *span },
                    ),
                    None => Err(Error::UnsupportedShape { span: inner.span() }),
                }
            }
        },
        Value::List { span, .. } => Err(Error::UnsupportedShape { span: *span }),
        Value::Nothing { span } => Ok(Entry { name: None, value: Scalar::Null, span: *span }),
        Value::Bool { val, span } => Ok(
            Entry { name: None, value: Scalar::Bool(*val), span: *span },
        ),
        Value::Int { val, span } => Ok(Entry { name: None, value: Scalar::Int(*val), span: *span }),
        Value::Float { val, span } => Ok(
            Entry { name: None, value: Scalar::Float { raw: val.clone() }, span: *span },
        ),
        Value::Text { val, span } => Ok(
            Entry { name: None, value: Scalar::Text(val.clone()), span: *span },
        ),
    }
}

/// Writes one named value to a node.
#[verifier::loop_isolation(false)]
pub fn build_node(name: &str, v: &Value) -> (r: Result<Node, Error>)
    ensures
        match spec_build_node(name@, v@) {
            Ok(nv) => r matches Ok(n) && n@ == nv,
            Err(e) => r matches Err(err) && err@ == e,
        },
{
    match v {
        Value::Nothing { span } => {
            let n = Node { name: name.to_owned(), entries: Vec::new(), children: None, span: *span };
            proof {
                assert(n@.entries =~= Seq::<EntryV>::empty());
            }
            Ok(n)
        },
        Value::List { vals, span } => {
            let ghost elems = values_view(vals@);
            proof {
                lemma_values_view(vals@);
            }
            let mut entries: Vec<Entry> = Vec::new();
            let mut i: usize = 0;
            while i < vals.len()
                invariant
                    i <= vals.len(),
                    entries@.len() == i,
                    elems == values_view(vals@),
                    elems.len() == vals@.len(),
                    forall|j: int| 0 <= j < vals@.len() ==> elems[j] == vals@[j]@,
                    forall|j: int|
                        0 <= j < i ==> (#[trigger] spec_build_entry(elems[j])) is Ok,
                    forall|j: int|
                        0 <= j < i ==> entries@[j]@ == spec_build_entry(elems[j])->Ok_0,
                decreases vals.len() - i,
            {
                match build_entry(&vals[i]) {
                    Ok(en) => {
                        entries.push(en);
                    },
                    Err(err) => {
                        proof {
                            lemma_build_entries_err(elems, i as int);
                        }
                        return Err(err);
                    },
                }
                i += 1;
            }
            proof {
                lemma_build_entries_ok(elems);
            }
            let n = Node { name: name.to_owned(), entries, children: None, span: *span };
            proof {
                assert(n@.entries =~= spec_build_entries(elems)->Ok_0);
            }
            Ok(n)
        },
        Value::Record { pairs, span } => {
            proof {
                lemma_pairs_view(pairs@);
            }
            if pairs.len() == 1 {
                match build_entry(v) {
                    Ok(en) => {
                        let mut entries: Vec<Entry> = Vec::new();
                        entries.push(en);
                        let n = Node {
                            name: name.to_owned(),
                            entries,
                            children: None,
                            span: *span,
                        };
                        proof {
                            assert(n@.entries =~= seq![spec_build_entry(v@)->Ok_0]);
                        }
                        Ok(n)
                    },
                    Err(err) => Err(err),
                }
            } else {
                Err(Error::UnsupportedShape { span: *span })
            }
        },
        _ => {
            let span = v.span();
            match build_entry(v) {
                Ok(en) => {
                    let mut entries: Vec<Entry> = Vec::new();
                    entries.push(en);
                    let n = Node { name: name.to_owned(), entries, children: None, span };
                    proof {
                        assert(n@.entries =~= seq![spec_build_entry(v@)->Ok_0]);
                    }
                    Ok(n)
                },
                Err(err) => Err(err),
            }
        },
    }
}

/// Writes a value to a document. The value must be a record; its keys name
/// the document's nodes, in record order.
#[verifier::loop_isolation(false)]
pub fn build_document(v: &Value) -> (r: Result<Document, Error>)
    ensures
        match spec_build_document(v@) {
            Ok(dv) => r matches Ok(d) && d@ == dv,
            Err(e) => r matches Err(err) && err@ == e,
        },
{
    match v {
        Value::Record { pairs, span } => {
            let ghost pv = pairs_view(pairs@);
            proof {
                lemma_pairs_view(pairs@);
            }
            let mut nodes: Vec<Node> = Vec::new();
            let mut i: usize = 0;
            while i < pairs.len()
                invariant
                    i <= pairs.len(),
                    nodes@.len() == i,
                    pv == pairs_view(pairs@),
                    pv.len() == pairs@.len(),
                    forall|j: int|
                        0 <= j < pairs@.len() ==> pv[j] == (pairs@[j].0@, pairs@[j].1@),
                    forall|j: int|
                        0 <= j < i ==> (#[trigger] spec_build_node(pv[j].0, pv[j].1)) is Ok,
                    forall|j: int|
                        0 <= j < i ==> nodes@[j]@ == spec_build_node(pv[j].0, pv[j].1)->Ok_0,
                decreases pairs.len() - i,
            {
                let pair = &pairs[i];
                match build_node(pair.0.as_str(), &pair.1) {
                    Ok(n) => {
                        nodes.push(n);
                    },
                    Err(err) => {
                        proof {
                            lemma_build_nodes_err(pv, i as int);
                        }
                        return Err(err);
                    },
                }
                i += 1;
            }
            proof {
                lemma_build_nodes_ok(pv);
                lemma_nodes_view(nodes@);
                assert(nodes_view(nodes@) =~= spec_build_nodes(pv)->Ok_0);
            }
            Ok(Document { nodes, span: *span })
        },
        _ => Err(Error::InputType { span: v.span() }),
    }
}

} // verus!
