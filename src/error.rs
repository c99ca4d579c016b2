//! Errors of resolution and of attribute extraction.
use vstd::prelude::*;

verus! {

/// What went wrong.
#[derive(PartialEq, Eq, Structural, Clone, Copy, Debug)]
pub enum ErrorKind {
    /// The node is not a reference; resolution falls back to a literal.
    NotAReference,
    /// A variable or record type is not declared.
    LookupFailure,
    /// An expected kind and a found kind differ.
    KindMismatch,
    /// The text does not parse as the expected primitive.
    InvalidLiteral,
    /// A literal was given with no expected kind.
    MissingExpectedKind,
    /// A record field needs exactly one matching header; `found` were given.
    AmbiguousOrMissingField { found: usize },
    /// `submit` and `link` are both set.
    ConflictingAttributes,
    /// The node's shape and the expected kind have no resolution rule.
    UnsupportedKindCombination,
    /// Nesting goes deeper than the context allows.
    DepthExceeded,
    /// An attribute holds a value of the wrong type or outside its choices.
    InvalidAttribute,
}

/// A failure, with the document and the source line it concerns.
#[derive(Clone, Debug)]
pub struct Error {
    pub kind: ErrorKind,
    /// The text, name or field the failure is about.
    pub subject: String,
    pub doc_id: String,
    pub line_number: usize,
}

pub struct ErrorModel {
    pub kind: ErrorKind,
    pub subject: Seq<char>,
    pub doc_id: Seq<char>,
    pub line: usize,
}

impl View for Error {
    type V = ErrorModel;

    open spec fn view(&self) -> ErrorModel {
        ErrorModel {
            kind: self.kind,
            subject: self.subject@,
            doc_id: self.doc_id@,
            line: self.line_number,
        }
    }
}

impl ErrorModel {
    pub open spec fn new(kind: ErrorKind, subject: Seq<char>, doc_id: Seq<char>, line: usize) -> ErrorModel {
        ErrorModel { kind, subject, doc_id, line }
    }
}

/// The model of a result.
pub open spec fn result_model<T: View>(r: Result<T, Error>) -> Result<T::V, ErrorModel> {
    match r {
        Ok(v) => Ok(v@),
        Err(e) => Err(e@),
    }
}

impl Error {
    pub fn new(kind: ErrorKind, subject: &str, doc_id: &str, line_number: usize) -> (r: Error)
        ensures
            r@ == ErrorModel::new(kind, subject@, doc_id@, line_number),
    {
        Error {
            kind,
            subject: String::from_str(subject),
            doc_id: String::from_str(doc_id),
            line_number,
        }
    }

    /// A one-line description: the document, what went wrong, and the
    /// subject.
    pub fn message(&self) -> (r: String)
        ensures
            r@ == self.doc_id@ + ": "@ + self.kind.description() + ": "@ + self.subject@,
    {
        let what = self.kind.describe();
        let mut r = crate::text::join2(self.doc_id.as_str(), ": ", what);
        r.append(": ");
        r.append(self.subject.as_str());
        r
    }
}

impl ErrorKind {
    pub open spec fn description(self) -> Seq<char> {
        match self {
            ErrorKind::NotAReference => "not a reference"@,
            ErrorKind::LookupFailure => "not found"@,
            ErrorKind::KindMismatch => "kind mismatch"@,
            ErrorKind::InvalidLiteral => "invalid literal"@,
            ErrorKind::MissingExpectedKind => "need expected kind"@,
            ErrorKind::AmbiguousOrMissingField { .. } => "expected exactly one header"@,
            ErrorKind::ConflictingAttributes => "conflicting attributes"@,
            ErrorKind::UnsupportedKindCombination => "unsupported kind for this value"@,
            ErrorKind::DepthExceeded => "nesting too deep"@,
            ErrorKind::InvalidAttribute => "invalid attribute"@,
        }
    }

    /// A short description of this kind of failure.
    pub fn describe(&self) -> (r: &'static str)
        ensures
            r@ == self.description(),
    {
        match self {
            ErrorKind::NotAReference => "not a reference",
            ErrorKind::LookupFailure => "not found",
            ErrorKind::KindMismatch => "kind mismatch",
            ErrorKind::InvalidLiteral => "invalid literal",
            ErrorKind::MissingExpectedKind => "need expected kind",
            ErrorKind::AmbiguousOrMissingField { .. } => "expected exactly one header",
            ErrorKind::ConflictingAttributes => "conflicting attributes",
            ErrorKind::UnsupportedKindCombination => "unsupported kind for this value",
            ErrorKind::DepthExceeded => "nesting too deep",
            ErrorKind::InvalidAttribute => "invalid attribute",
        }
    }
}

} // verus!
