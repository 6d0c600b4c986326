pub mod error;
pub mod laws;
pub mod model;
pub mod reader;
pub mod text;
pub mod value;
pub mod writer;

use crate::error::Error;
use crate::reader::spec_parse_document;
use crate::text::{parse_text, parsed_document, render_document, rendered};
use crate::value::Value;
use crate::writer::{build_document, spec_build_document};
use vstd::prelude::*;

verus! {

/// A byte range in source text, or the explicit absence of one.
///
/// Offsets are byte positions; `len` is the extent in bytes. `Unknown`
/// records that no position information is derivable, which callers can
/// distinguish from a real range starting at offset 0.
#[derive(Clone, Copy, Debug, PartialEq, Eq, Structural)]
pub enum Span {
    Known { offset: usize, len: usize },
    Unknown,
}

/// The conversion engine between KDL text and the generic value model.
///
/// `from` reads text into a value; `to` writes a value back to text. The
/// two directions share the value model and nothing else.
pub struct KDL;

impl KDL {
    /// Reads KDL text into a value: a record keyed by the nodes' names in
    /// document order. Fails exactly when the text is not well-formed KDL,
    /// and then with a parse error; a malformed text never yields a
    /// partial value.
    pub fn from(&self, text: &str) -> (r: Result<Value, Error>)
        ensures
            parsed_document(text@) matches Some(dv) ==> (r matches Ok(v) && v@
                == spec_parse_document(dv)),
            parsed_document(text@) is None ==> (r matches Err(e) && e@ is Parse),
    {
        match parse_text(text) {
            Ok(d) => Ok(crate::reader::parse_document(&d)),
            Err(e) => Err(e),
        }
    }

    /// Writes a value to KDL text. Succeeds exactly when the value is a
    /// record of writable node shapes, and then renders the document the
    /// value writes to; fails with the writer's error otherwise.
    pub fn to(&self, value: &Value) -> (r: Result<String, Error>)
        ensures
            spec_build_document(value@) matches Ok(dv) ==> (r matches Ok(s) && s@ == rendered(
                dv,
            )),
            spec_build_document(value@) matches Err(ev) ==> (r matches Err(e) && e@ == ev),
    {
        match build_document(value) {
            Ok(d) => Ok(render_document(&d)),
            Err(e) => Err(e),
        }
    }
}

} // verus!
