use crate::Span;
use vstd::prelude::*;

verus! {

/// The generic structured value model shared by the Reader and the Writer.
///
/// A `Record` is an ordered sequence of key/value pairs: key order is
/// significant and preserved, and duplicate keys are representable, so a
/// document whose nodes share a name loses nothing when read. Every value
/// carries the byte span it was derived from, or `Span::Unknown` when no
/// position is derivable.
#[derive(Debug)]
pub enum Value {
    Nothing { span: Span },
    Bool { val: bool, span: Span },
    Int { val: i64, span: Span },
    /// A 64-bit float, carried opaquely as the kdl scalar it came from.
    /// The conversion engine never computes with floats; it only passes
    /// them through unchanged.
    Float { val: kdl::KdlValue, span: Span },
    Text { val: String, span: Span },
    List { vals: Vec<Value>, span: Span },
    Record { pairs: Vec<(String, Value)>, span: Span },
}

/// The mathematical model of a `Value`: strings become sequences of
/// characters and vectors become sequences.
#[verifier::ext_equal]
pub enum ValueV {
    Nothing { span: Span },
    Bool { val: bool, span: Span },
    Int { val: i64, span: Span },
    Float { val: kdl::KdlValue, span: Span },
    Text { val: Seq<char>, span: Span },
    List { elems: Seq<ValueV>, span: Span },
    Record { pairs: Seq<(Seq<char>, ValueV)>, span: Span },
}

pub open spec fn value_view(v: Value) -> ValueV
    decreases v,
{
    match v {
        Value::Nothing { span } => ValueV::Nothing { span },
        Value::Bool { val, span } => ValueV::Bool { val, span },
        Value::Int { val, span } => ValueV::Int { val, span },
        Value::Float { val, span } => ValueV::Float { val, span },
        Value::Text { val, span } => ValueV::Text { val: val@, span },
        Value::List { vals, span } => ValueV::List { elems: values_view(vals@), span },
        Value::Record { pairs, span } => ValueV::Record { pairs: pairs_view(pairs@), span },
    }
}

pub open spec fn values_view(vs: Seq<Value>) -> Seq<ValueV>
    decreases vs,
{
    if vs.len() == 0 {
        Seq::empty()
    } else {
        seq![value_view(vs[0])] + values_view(vs.subrange(1, vs.len() as int))
    }
}

pub open spec fn pairs_view(ps: Seq<(String, Value)>) -> Seq<(Seq<char>, ValueV)>
    decreases ps,
{
    if ps.len() == 0 {
        Seq::empty()
    } else {
        seq![(ps[0].0@, value_view(ps[0].1))] + pairs_view(ps.subrange(1, ps.len() as int))
    }
}

impl View for Value {
    type V = ValueV;

    open spec fn view(&self) -> ValueV {
        value_view(*self)
    }
}

/// The span carried by a value.
pub open spec fn spec_value_span(v: ValueV) -> Span {
    match v {
        ValueV::Nothing { span } => span,
        ValueV::Bool { span, .. } => span,
        ValueV::Int { span, .. } => span,
        ValueV::Float { span, .. } => span,
        ValueV::Text { span, .. } => span,
        ValueV::List { span, .. } => span,
        ValueV::Record { span, .. } => span,
    }
}

impl Value {
    /// The span carried by this value.
    pub fn span(&self) -> (r: Span)
        ensures
            r == spec_value_span(self@),
    {
        match self {
            Value::Nothing { span } => *span,
            Value::Bool { span, .. } => *span,
            Value::Int { span, .. } => *span,
            Value::Float { span, .. } => *span,
            Value::Text { span, .. } => *span,
            Value::List { span, .. } => *span,
            Value::Record { span, .. } => *span,
        }
    }
}

/// `values_view` maps `value_view` over the sequence, element by element.
pub proof fn lemma_values_view(vs: Seq<Value>)
    ensures
        values_view(vs).len() == vs.len(),
        forall|i: int| 0 <= i < vs.len() ==> values_view(vs)[i] == value_view(vs[i]),
    decreases vs.len(),
{
    if vs.len() > 0 {
        lemma_values_view(vs.subrange(1, vs.len() as int));
    }
}

/// `pairs_view` maps the pair views over the sequence, element by element.
pub proof fn lemma_pairs_view(ps: Seq<(String, Value)>)
    ensures
        pairs_view(ps).len() == ps.len(),
        forall|i: int|
            0 <= i < ps.len() ==> pairs_view(ps)[i] == (ps[i].0@, value_view(ps[i].1)),
    decreases ps.len(),
{
    if ps.len() > 0 {
        lemma_pairs_view(ps.subrange(1, ps.len() as int));
    }
}

} // verus!
