use crate::error::Error;
use crate::model::{DocV, Document, Entry, Node, Scalar};
use crate::Span;
use vstd::prelude::*;

verus! {

#[verifier::external_type_specification]
#[verifier::external_body]
pub struct ExKdlDocument(kdl::KdlDocument);

#[verifier::external_type_specification]
#[verifier::external_body]
pub struct ExKdlNode(kdl::KdlNode);

#[verifier::external_type_specification]
#[verifier::external_body]
pub struct ExKdlEntry(kdl::KdlEntry);

#[verifier::external_type_specification]
#[verifier::external_body]
pub struct ExKdlValue(kdl::KdlValue);

/// What the kdl parser yields on a given text: the document tree when the
/// text is well-formed KDL, and nothing when it is not. Parsing is a pure
/// function of the text, so its result has a name here rather than a
/// statement of the KDL grammar.
pub uninterp spec fn parsed_document(text: Seq<char>) -> Option<DocV>;

/// What the kdl serializer prints for a given document tree. Rendering is
/// a pure function of the tree.
pub uninterp spec fn rendered(doc: DocV) -> Seq<char>;

/// Trusted converter. Relies on `kdl::KdlDocument::nodes`, `span` and
/// `len`: copies a parsed kdl document into the library's document tree,
/// node by node, keeping order.
#[verifier::external_body]
fn document_of_kdl(d: &kdl::KdlDocument) -> Document {
    Document {
        nodes: d.nodes().iter().map(node_of_kdl).collect(),
        span: Span::Known { offset: d.span().offset(), len: d.len() },
    }
}

/// Trusted converter. Relies on `kdl::KdlNode::name`, `entries`,
/// `children`, `span` and `len`: copies one parsed kdl node, keeping entry
/// order and the optional children document.
#[verifier::external_body]
fn node_of_kdl(n: &kdl::KdlNode) -> Node {
    Node {
        name: n.name().value().to_string(),
        entries: n.entries().iter().map(entry_of_kdl).collect(),
        children: n.children().map(document_of_kdl),
        span: Span::Known { offset: n.span().offset(), len: n.len() },
    }
}

/// Trusted converter. Relies on `kdl::KdlEntry::name`, `value`, `span` and
/// `len`: copies one parsed kdl entry, a property when it has a name.
#[verifier::external_body]
fn entry_of_kdl(e: &kdl::KdlEntry) -> Entry {
    Entry {
        name: e.name().map(|id| id.value().to_string()),
        value: scalar_of_kdl(e.value()),
        span: Span::Known { offset: e.span().offset(), len: e.len() },
    }
}

/// Relies on `kdl::KdlValue`'s derived `Clone`, a field-by-field copy:
/// the clone is the same value.
pub assume_specification[ <kdl::KdlValue as Clone>::clone ](v: &kdl::KdlValue) -> (r:
    kdl::KdlValue)
    ensures
        r == *v,
;

/// Trusted converter. Tells `kdl::KdlValue`'s variants apart: the four
/// integer notations all become one integer, both string forms become
/// text, and a float is kept opaquely as the kdl scalar itself.
#[verifier::external_body]
fn scalar_of_kdl(v: &kdl::KdlValue) -> Scalar {
    match v {
        kdl::KdlValue::RawString(s) => Scalar::Text(s.clone()),
        kdl::KdlValue::String(s) => Scalar::Text(s.clone()),
        kdl::KdlValue::Base2(i) => Scalar::Int(*i),
        kdl::KdlValue::Base8(i) => Scalar::Int(*i),
        kdl::KdlValue::Base10(i) => Scalar::Int(*i),
        kdl::KdlValue::Base16(i) => Scalar::Int(*i),
        kdl::KdlValue::Base10Float(_) => Scalar::Float { raw: v.clone() },
        kdl::KdlValue::Bool(b) => Scalar::Bool(*b),
        kdl::KdlValue::Null => Scalar::Null,
    }
}

/// Trusted converter. Relies on `kdl::KdlDocument::new`, `nodes_mut` and
/// `set_span`: assembles a kdl document from the library's tree.
#[verifier::external_body]
fn kdl_of_document(d: &Document) -> kdl::KdlDocument {
    let mut doc = kdl::KdlDocument::new();
    *doc.nodes_mut() = d.nodes.iter().map(kdl_of_node).collect();
    let (offset, len) = match d.span {
        Span::Known { offset, len } => (offset, len),
        Span::Unknown => (0, 0),
    };
    doc.set_span((offset, len));
    doc
}

/// Trusted converter. Relies on `kdl::KdlNode::new`, `entries_mut`,
/// `set_children` and `set_span`: assembles one kdl node, keeping entry
/// order.
#[verifier::external_body]
fn kdl_of_node(n: &Node) -> kdl::KdlNode {
    let mut node = kdl::KdlNode::new(n.name.as_str());
    *node.entries_mut() = n.entries.iter().map(kdl_of_entry).collect();
    if let Some(c) = &n.children {
        node.set_children(kdl_of_document(c));
    }
    let (offset, len) = match n.span {
        Span::Known { offset, len } => (offset, len),
        Span::Unknown => (0, 0),
    };
    node.set_span((offset, len));
    node
}

/// Trusted converter. Relies on `kdl::KdlEntry::new_prop`, `new` and
/// `set_span`: assembles one kdl entry, a property when it has a name.
#[verifier::external_body]
fn kdl_of_entry(e: &Entry) -> kdl::KdlEntry {
    let mut entry = match &e.name {
        Some(name) => kdl::KdlEntry::new_prop(name.as_str(), kdl_of_scalar(&e.value)),
        None => kdl::KdlEntry::new(kdl_of_scalar(&e.value)),
    };
    let (offset, len) = match e.span {
        Span::Known { offset, len } => (offset, len),
        Span::Unknown => (0, 0),
    };
    entry.set_span((offset, len));
    entry
}

/// Trusted converter. Builds the `kdl::KdlValue` a scalar stands for; an
/// integer is written in decimal, a float is handed back unchanged.
#[verifier::external_body]
fn kdl_of_scalar(s: &Scalar) -> kdl::KdlValue {
    match s {
        Scalar::Text(t) => kdl::KdlValue::String(t.clone()),
        Scalar::Int(i) => kdl::KdlValue::Base10(*i),
        Scalar::Float { raw } => raw.clone(),
        Scalar::Bool(b) => kdl::KdlValue::Bool(*b),
        Scalar::Null => kdl::KdlValue::Null,
    }
}

/// Relies on `kdl::KdlDocument`'s `FromStr` impl, the KDL text parser:
/// parsing either yields a document tree or fails with a message and a
/// span, and the outcome depends on the text alone.
#[verifier::external_body]
pub(crate) fn parse_text(text: &str) -> (r: Result<Document, Error>)
    ensures
        r matches Ok(d) ==> parsed_document(text@) == Some(d@),
        r matches Err(e) ==> (parsed_document(text@) is None && e@ is Parse),
{
    match text.parse::<kdl::KdlDocument>() {
        Ok(doc) => Ok(document_of_kdl(&doc)),
        Err(e) => Err(Error::Parse {
            msg: e.to_string(),
            span: Span::Known { offset: e.span.offset(), len: e.span.len() },
        }),
    }
}

/// Relies on `kdl::KdlDocument`'s `Display` impl, the KDL text serializer:
/// what it prints depends on the document tree alone.
#[verifier::external_body]
pub(crate) fn render_document(d: &Document) -> (r: String)
    ensures
        r@ == rendered(d@),
{
    kdl_of_document(d).to_string()
}

} // verus!
