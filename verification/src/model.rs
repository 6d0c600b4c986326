use crate::Span;
use vstd::prelude::*;

verus! {

/// A scalar literal carried by an entry.
///
/// Integer literals of every notation (binary, octal, decimal, hexadecimal)
/// are normalized to one `Int` representation; no distinction between
/// notations is retained. A float is carried opaquely, as the kdl scalar
/// it came from: the conversion engine never computes with floats, it only
/// passes them through unchanged.
#[derive(Debug, PartialEq)]
pub enum Scalar {
    Text(String),
    Int(i64),
    Float { raw: kdl::KdlValue },
    Bool(bool),
    Null,
}

/// One entry of a node: a *property* when it has a name, else a
/// *positional* entry.
#[derive(Debug, PartialEq)]
pub struct Entry {
    pub name: Option<String>,
    pub value: Scalar,
    pub span: Span,
}

/// A node of a document: a name, an ordered sequence of entries, and an
/// optional nested document of children.
#[derive(Debug)]
pub struct Node {
    pub name: String,
    pub entries: Vec<Entry>,
    pub children: Option<Document>,
    pub span: Span,
}

/// An ordered sequence of nodes with the byte span of its full extent.
#[derive(Debug)]
pub struct Document {
    pub nodes: Vec<Node>,
    pub span: Span,
}

/// The mathematical model of a `Scalar`. A float stays the opaque kdl
/// scalar it came from.
pub enum ScalarV {
    Text(Seq<char>),
    Int(i64),
    Float(kdl::KdlValue),
    Bool(bool),
    Null,
}

/// The mathematical model of an `Entry`.
#[verifier::ext_equal]
pub struct EntryV {
    pub name: Option<Seq<char>>,
    pub value: ScalarV,
    pub span: Span,
}

/// The mathematical model of a `Node`.
#[verifier::ext_equal]
pub struct NodeV {
    pub name: Seq<char>,
    pub entries: Seq<EntryV>,
    pub children: Option<DocV>,
    pub span: Span,
}

/// The mathematical model of a `Document`.
#[verifier::ext_equal]
pub struct DocV {
    pub nodes: Seq<NodeV>,
    pub span: Span,
}

impl View for Scalar {
    type V = ScalarV;

    open spec fn view(&self) -> ScalarV {
        match self {
            Scalar::Text(s) => ScalarV::Text(s@),
            Scalar::Int(i) => ScalarV::Int(*i),
            Scalar::Float { raw } => ScalarV::Float(*raw),
            Scalar::Bool(b) => ScalarV::Bool(*b),
            Scalar::Null => ScalarV::Null,
        }
    }
}

impl View for Entry {
    type V = EntryV;

    open spec fn view(&self) -> EntryV {
        EntryV {
            name: match self.name {
                Option::Some(n) => Some(n@),
                Option::None => None,
            },
            value: self.value@,
            span: self.span,
        }
    }
}

pub open spec fn node_view(n: Node) -> NodeV
    decreases n,
{
    NodeV {
        name: n.name@,
        entries: n.entries@.map_values(|e: Entry| e@),
        children: match n.children {
            Option::Some(c) => Some(doc_view(c)),
            Option::None => None,
        },
        span: n.span,
    }
}

pub open spec fn nodes_view(ns: Seq<Node>) -> Seq<NodeV>
    decreases ns,
{
    if ns.len() == 0 {
        Seq::empty()
    } else {
        seq![node_view(ns[0])] + nodes_view(ns.subrange(1, ns.len() as int))
    }
}

pub open spec fn doc_view(d: Document) -> DocV
    decreases d,
{
    DocV { nodes: nodes_view(d.nodes@), span: d.span }
}

impl View for Node {
    type V = NodeV;

    open spec fn view(&self) -> NodeV {
        node_view(*self)
    }
}

impl View for Document {
    type V = DocV;

    open spec fn view(&self) -> DocV {
        doc_view(*self)
    }
}

/// `nodes_view` maps `node_view` over the sequence, element by element.
pub proof fn lemma_nodes_view(ns: Seq<Node>)
    ensures
        nodes_view(ns).len() == ns.len(),
        forall|i: int| 0 <= i < ns.len() ==> nodes_view(ns)[i] == node_view(ns[i]),
    decreases ns.len(),
{
    if ns.len() > 0 {
        lemma_nodes_view(ns.subrange(1, ns.len() as int));
    }
}

} // verus!
