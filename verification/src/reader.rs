use crate::model::{lemma_nodes_view, DocV, Document, Entry, EntryV, Node, NodeV, Scalar, ScalarV};
use crate::value::{lemma_pairs_view, pairs_view, values_view, Value, ValueV};
use crate::Span;
use vstd::prelude::*;

verus! {

/// The value an entry reads to: its scalar, tagged with the entry's span,
/// and wrapped as a single-key record when the entry is a property.
pub open spec fn spec_parse_entry(e: EntryV) -> ValueV {
    let scalar = match e.value {
        ScalarV::Text(s) => ValueV::Text { val: s, span: e.span },
        ScalarV::Int(i) => ValueV::Int { val: i, span: e.span },
        ScalarV::Float(raw) => ValueV::Float { val: raw, span: e.span },
        ScalarV::Bool(b) => ValueV::Bool { val: b, span: e.span },
        ScalarV::Null => ValueV::Nothing { span: e.span },
    };
    match e.name {
        Some(name) => ValueV::Record { pairs: seq![(name, scalar)], span: e.span },
        None => scalar,
    }
}

/// The elements a node collapses over: one value per entry, in entry order,
/// then the children document's value, if there are children.
pub open spec fn spec_node_elems(n: NodeV) -> Seq<ValueV>
    decreases n, 0int,
{
    let entry_vals = n.entries.map_values(|e: EntryV| spec_parse_entry(e));
    match n.children {
        Some(c) => entry_vals.push(spec_parse_document(c)),
        None => entry_vals,
    }
}

/// The value a node reads to: its elements collapsed by count.
/// Zero elements read to nothing, one element stands unchanged with its own
/// span, and two or more become a list spanned to the node.
pub open spec fn spec_parse_node(n: NodeV) -> ValueV
    decreases n, 1int,
{
    let elems = spec_node_elems(n);
    if elems.len() == 0 {
        ValueV::Nothing { span: n.span }
    } else if elems.len() == 1 {
        elems[0]
    } else {
        ValueV::List { elems, span: n.span }
    }
}

/// The record pairs a sequence of nodes reads to: one pair per node, in
/// node order, keyed by the node's name.
pub open spec fn spec_parse_pairs(ns: Seq<NodeV>) -> Seq<(Seq<char>, ValueV)>
    decreases ns,
{
    if ns.len() == 0 {
        Seq::empty()
    } else {
        seq![(ns[0].name, spec_parse_node(ns[0]))] + spec_parse_pairs(
            ns.subrange(1, ns.len() as int),
        )
    }
}

/// The value a document reads to: a record whose keys are the nodes' names
/// in document order, spanned to the document. Reading never fails.
pub open spec fn spec_parse_document(d: DocV) -> ValueV
    decreases d,
{
    ValueV::Record { pairs: spec_parse_pairs(d.nodes), span: d.span }
}

/// `spec_parse_pairs` maps each node to its name and parsed value,
/// element by element.
pub proof fn lemma_parse_pairs(ns: Seq<NodeV>)
    ensures
        spec_parse_pairs(ns).len() == ns.len(),
        forall|i: int|
            0 <= i < ns.len() ==> spec_parse_pairs(ns)[i] == (ns[i].name, spec_parse_node(ns[i])),
    decreases ns.len(),
{
    if ns.len() > 0 {
        lemma_parse_pairs(ns.subrange(1, ns.len() as int));
    }
}

/// Reads one entry into a value.
pub fn parse_entry(e: &Entry) -> (r: Value)
    ensures
        r@ == spec_parse_entry(e@),
{
    let scalar = match &e.value {
        Scalar::Text(s) => Value::Text { val: s.clone(), span: e.span },
        Scalar::Int(i) => Value::Int { val: *i, span: e.span },
        Scalar::Float { raw } => Value::Float { val: raw.clone(), span: e.span },
        Scalar::Bool(b) => Value::Bool { val: *b, span: e.span },
        Scalar::Null => Value::Nothing { span: e.span },
    };
    match &e.name {
        Some(name) => {
            let ghost sv = scalar@;
            let mut pairs: Vec<(String, Value)> = Vec::new();
            pairs.push((name.clone(), scalar));
            proof {
                lemma_pairs_view(pairs@);
                assert(pairs_view(pairs@) =~= seq![(name@, sv)]);
            }
            Value::Record { pairs, span: e.span }
        },
        None => scalar,
    }
}

/// Reads one node into a value, applying the collapse rule.
pub fn parse_node(n: &Node) -> (r: Value)
    ensures
        r@ == spec_parse_node(n@),
    decreases *n, 1int,
{
    let ghost elems_spec = spec_node_elems(n@);
    let mut elems: Vec<Value> = Vec::new();
    let mut i: usize = 0;
    while i < n.entries.len()
        invariant
            i <= n.entries.len(),
            elems@.len() == i,
            forall|j: int| 0 <= j < i ==> elems@[j]@ == spec_parse_entry(n.entries@[j]@),
        decreases n.entries.len() - i,
    {
        elems.push(parse_entry(&n.entries[i]));
        i += 1;
    }
    match &n.children {
        Some(c) => {
            elems.push(parse_document(c));
        },
        None => {},
    }
    proof {
        assert(elems@.len() == elems_spec.len());
        assert(forall|j: int|
            0 <= j < elems@.len() ==> elems@[j]@ == #[trigger] elems_spec[j]);
    }
    if elems.len() == 0 {
        Value::Nothing { span: n.span }
    } else if elems.len() == 1 {
        let v = elems.pop().unwrap();
        assert(v@ == elems_spec[0]);
        v
    } else {
        proof {
            crate::value::lemma_values_view(elems@);
            assert(values_view(elems@) =~= elems_spec);
        }
        Value::List { vals: elems, span: n.span }
    }
}

/// Reads a document into a record of its nodes. This is a pure structural
/// transform: it never fails.
pub fn parse_document(d: &Document) -> (r: Value)
    ensures
        r@ == spec_parse_document(d@),
    decreases *d, 0int,
{
    let mut pairs: Vec<(String, Value)> = Vec::new();
    let mut i: usize = 0;
    while i < d.nodes.len()
        invariant
            i <= d.nodes.len(),
            pairs@.len() == i,
            forall|j: int|
                0 <= j < i ==> (pairs@[j].0@, pairs@[j].1@) == (
                    d.nodes@[j]@.name,
                    spec_parse_node(d.nodes@[j]@),
                ),
        decreases d.nodes.len() - i,
    {
        let node = &d.nodes[i];
        let val = parse_node(node);
        pairs.push((node.name.clone(), val));
        i += 1;
    }
    proof {
        lemma_pairs_view(pairs@);
        lemma_parse_pairs(d@.nodes);
        lemma_nodes_view(d.nodes@);
        assert(pairs_view(pairs@) =~= spec_parse_pairs(d@.nodes));
    }
    Value::Record { pairs, span: d.span }
}

} // verus!
