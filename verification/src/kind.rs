//! The closed set of reasons for which loading a configuration fails, and the
//! fixed one-line message of each.

use vstd::prelude::*;
use vstd::std_specs::cmp::PartialEqSpecImpl;

verus! {

/// Why loading the configuration failed.
#[derive(Debug)]
pub enum ErrorKind {
    /// The contents of the configuration file could not be parsed: where
    /// (empty when unknown), and what the parser said.
    ParseError(String, String),
    /// An operation on the configuration file failed for a reason other than
    /// the file being absent.
    FileIOError { path: String },
    /// No configuration file exists at this path.
    FileNotFoundError(String),
    /// The configuration values could not be serialized.
    SerializationError(String),
}

/// The mathematical value of an [`ErrorKind`]: the same variants over
/// sequences of characters.
pub enum ErrorKindView {
    ParseError(Seq<char>, Seq<char>),
    FileIOError { path: Seq<char> },
    FileNotFoundError(Seq<char>),
    SerializationError(Seq<char>),
}

impl ErrorKindView {
    /// The one-line message of a kind.
    pub open spec fn message(self) -> Seq<char> {
        match self {
            ErrorKindView::ParseError(location, detail) => {
                "Error parsing configuration file at "@ + location + " - "@ + detail
            },
            ErrorKindView::FileIOError { path } => "Error loading config file at "@ + path,
            ErrorKindView::FileNotFoundError(path) => "Configuration file not found: "@ + path,
            ErrorKindView::SerializationError(detail) => {
                "Error serializing configuration: "@ + detail
            },
        }
    }

    /// Whether two kinds are the same variant, whatever they carry.
    pub open spec fn same_variant(self, other: ErrorKindView) -> bool {
        match (self, other) {
            (ErrorKindView::ParseError(..), ErrorKindView::ParseError(..)) => true,
            (ErrorKindView::FileIOError { .. }, ErrorKindView::FileIOError { .. }) => true,
            (ErrorKindView::FileNotFoundError(..), ErrorKindView::FileNotFoundError(..)) => true,
            (ErrorKindView::SerializationError(..), ErrorKindView::SerializationError(..)) => true,
            _ => false,
        }
    }
}

impl View for ErrorKind {
    type V = ErrorKindView;

    open spec fn view(&self) -> ErrorKindView {
        match *self {
            ErrorKind::ParseError(location, detail) => ErrorKindView::ParseError(
                location@,
                detail@,
            ),
            ErrorKind::FileIOError { path } => ErrorKindView::FileIOError { path: path@ },
            ErrorKind::FileNotFoundError(path) => ErrorKindView::FileNotFoundError(path@),
            ErrorKind::SerializationError(detail) => ErrorKindView::SerializationError(detail@),
        }
    }
}

impl Clone for ErrorKind {
    /// A copy that carries the same variant and the same texts.
    fn clone(&self) -> (copy: Self)
        ensures
            copy == *self,
    {
        match self {
            ErrorKind::ParseError(location, detail) => ErrorKind::ParseError(
                location.clone(),
                detail.clone(),
            ),
            ErrorKind::FileIOError { path } => ErrorKind::FileIOError { path: path.clone() },
            ErrorKind::FileNotFoundError(path) => ErrorKind::FileNotFoundError(path.clone()),
            ErrorKind::SerializationError(detail) => ErrorKind::SerializationError(detail.clone()),
        }
    }
}

impl PartialEq for ErrorKind {
    /// Two kinds are equal when they are the same variant and carry the same
    /// texts.
    fn eq(&self, other: &ErrorKind) -> (equal: bool) {
        match (self, other) {
            (ErrorKind::ParseError(l1, d1), ErrorKind::ParseError(l2, d2)) => *l1 == *l2 && *d1
                == *d2,
            (ErrorKind::FileIOError { path: p1 }, ErrorKind::FileIOError { path: p2 }) => *p1
                == *p2,
            (ErrorKind::FileNotFoundError(p1), ErrorKind::FileNotFoundError(p2)) => *p1 == *p2,
            (ErrorKind::SerializationError(d1), ErrorKind::SerializationError(d2)) => *d1 == *d2,
            _ => false,
        }
    }
}

impl PartialEqSpecImpl for ErrorKind {
    open spec fn obeys_eq_spec() -> bool {
        true
    }

    open spec fn eq_spec(&self, other: &ErrorKind) -> bool {
        self@ == other@
    }
}

impl Eq for ErrorKind {

}

impl ErrorKind {
    /// The one-line message of this kind.
    pub fn to_string(&self) -> (text: String)
        ensures
            text@ == self@.message(),
    {
        match self {
            ErrorKind::ParseError(location, detail) => {
                let mut text = String::from_str("Error parsing configuration file at ");
                text.append(location.as_str());
                text.append(" - ");
                text.append(detail.as_str());
                text
            },
            ErrorKind::FileIOError { path } => {
                String::from_str("Error loading config file at ").concat(path.as_str())
            },
            ErrorKind::FileNotFoundError(path) => {
                String::from_str("Configuration file not found: ").concat(path.as_str())
            },
            ErrorKind::SerializationError(detail) => {
                String::from_str("Error serializing configuration: ").concat(detail.as_str())
            },
        }
    }
}

/// What `==` decides on two kinds: the same variant with the same texts is
/// equal, and two different variants are never equal, whatever they carry.
pub proof fn lemma_eq_compares_variant_and_texts(a: ErrorKind, b: ErrorKind, equal: bool)
    requires
        call_ensures(<ErrorKind as PartialEq>::eq, (&a, &b), equal),
    ensures
        equal <==> a@ == b@,
        !a@.same_variant(b@) ==> !equal,
{
}

} // verus!
