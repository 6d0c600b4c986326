use crate::Span;
use vstd::prelude::*;

verus! {

/// An error returned by the Reader or the Writer.
///
/// Errors are detected at the point of structural mismatch and returned
/// immediately; no partial output is produced.
#[derive(Debug, PartialEq)]
pub enum Error {
    /// The input text is not well-formed; carries the parser's message.
    Parse { msg: String, span: Span },
    /// A value other than a record stood at the top level of the writing
    /// path, where node names must be enumerated as keys.
    InputType { span: Span },
    /// A value variant appeared in a position where the mapping has no
    /// rule for it.
    UnsupportedShape { span: Span },
    /// A record at entry position did not have exactly one key.
    InvalidEntry { span: Span },
}

/// The mathematical model of an `Error`.
#[verifier::ext_equal]
pub enum ErrV {
    Parse { msg: Seq<char>, span: Span },
    InputType { span: Span },
    UnsupportedShape { span: Span },
    InvalidEntry { span: Span },
}

impl View for Error {
    type V = ErrV;

    open spec fn view(&self) -> ErrV {
        match self {
            Error::Parse { msg, span } => ErrV::Parse { msg: msg@, span: *span },
            Error::InputType { span } => ErrV::InputType { span: *span },
            Error::UnsupportedShape { span } => ErrV::UnsupportedShape { span: *span },
            Error::InvalidEntry { span } => ErrV::InvalidEntry { span: *span },
        }
    }
}

} // verus!
