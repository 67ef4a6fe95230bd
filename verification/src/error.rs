//! The error value that a configuration loader returns, and the ways to make
//! one: from a kind, from a kind and the message of its cause, and from the
//! failures of the parser and of the file system.

use crate::kind::{ErrorKind, ErrorKindView};
use vstd::prelude::*;
use vstd::std_specs::cmp::PartialEqSpec;
use vstd::std_specs::convert::FromSpecImpl;
use vstd::string::to_string_from_display_ensures;

verus! {

/// The failure that the TOML deserializer reports. Nothing inside it is read
/// here but its text.
#[verifier::external_type_specification]
#[verifier::external_body]
pub struct ExTomlDeError(toml::de::Error);

/// The failure that an operation on a file reports. Nothing inside it is read
/// here but its text.
#[verifier::external_type_specification]
#[verifier::external_body]
pub struct ExIoError(std::io::Error);

/// The text that a `toml::de::Error` renders of itself through `Display`.
pub uninterp spec fn toml_error_text(error: toml::de::Error) -> Seq<char>;

/// Calls `Display::fmt` of `toml::de::Error`, through `to_string`. The
/// rendering reads nothing but the fields of the error, so one error always
/// gives one text. That the result is this text is believed, not proved;
/// nothing is claimed of what the text holds.
#[verifier::external_body]
fn render_toml_error(error: &toml::de::Error) -> (text: String)
    ensures
        text@ == toml_error_text(*error),
{
    error.to_string()
}

/// A configuration error: one kind, and the message of the innermost failure
/// that led to it where one was kept.
#[derive(Debug)]
pub struct ConfigError {
    kind: ErrorKind,
    cause: Option<String>,
}

/// The mathematical value of a [`ConfigError`].
pub struct ConfigErrorView {
    pub kind: ErrorKindView,
    pub cause: Option<Seq<char>>,
}

impl ConfigErrorView {
    /// The error that carries `kind` and no cause.
    pub open spec fn bare(kind: ErrorKindView) -> ConfigErrorView {
        ConfigErrorView { kind, cause: None }
    }

    /// The error that stands for a parser failure with the text `detail`: a
    /// parse error at an unknown place.
    pub open spec fn parse_failure(detail: Seq<char>) -> ConfigErrorView {
        ConfigErrorView::bare(ErrorKindView::ParseError(Seq::empty(), detail))
    }

    /// The error that stands for a file failure described by `description`.
    pub open spec fn io_failure(description: Seq<char>) -> ConfigErrorView {
        ConfigErrorView::bare(
            ErrorKindView::FileIOError { path: "!!!Error loading config file: "@ + description },
        )
    }

    /// The one-line message of an error: that of its cause where it has one,
    /// else that of its kind.
    pub open spec fn message(self) -> Seq<char> {
        match self.cause {
            Some(text) => text,
            None => self.kind.message(),
        }
    }
}

impl View for ConfigError {
    type V = ConfigErrorView;

    closed spec fn view(&self) -> ConfigErrorView {
        ConfigErrorView {
            kind: self.kind@,
            cause: match self.cause {
                Some(text) => Some(text@),
                None => None,
            },
        }
    }
}

impl ConfigError {
    /// The kind of this error, as a copy.
    pub fn kind(&self) -> (kind: ErrorKind)
        ensures
            kind@ == self@.kind,
    {
        self.kind.clone()
    }

    /// The message of the innermost failure behind this error, where one was
    /// kept.
    pub fn cause(&self) -> (cause: Option<String>)
        ensures
            cause is Some <==> self@.cause is Some,
            cause matches Some(text) ==> self@.cause == Some(text@),
    {
        match &self.cause {
            Some(text) => Some(text.clone()),
            None => None,
        }
    }

    /// An error of the given kind that keeps the message of the failure
    /// behind it.
    pub fn with_cause(kind: ErrorKind, cause: String) -> (error: ConfigError)
        ensures
            error@ == (ConfigErrorView { kind: kind@, cause: Some(cause@) }),
    {
        ConfigError { kind, cause: Some(cause) }
    }

    /// The error for a parser failure whose text is `detail`: a parse error
    /// at an unknown place, with no cause kept.
    pub fn from_parse_failure(detail: String) -> (error: ConfigError)
        ensures
            error@ == ConfigErrorView::parse_failure(detail@),
    {
        ConfigError { kind: ErrorKind::ParseError(String::new(), detail), cause: None }
    }

    /// The error for a file failure described by `description`. It is never
    /// a `FileNotFoundError`: only a caller that has found the file absent
    /// makes that one.
    pub fn from_io_failure(description: String) -> (error: ConfigError)
        ensures
            error@ == ConfigErrorView::io_failure(description@),
    {
        let path = String::from_str("!!!Error loading config file: ").concat(description.as_str());
        ConfigError { kind: ErrorKind::FileIOError { path }, cause: None }
    }

    /// The one-line message of this error.
    pub fn to_string(&self) -> (text: String)
        ensures
            text@ == self@.message(),
    {
        match &self.cause {
            Some(text) => text.clone(),
            None => self.kind.to_string(),
        }
    }
}

impl From<ErrorKind> for ConfigError {
    /// Wraps a kind, with no cause.
    fn from(kind: ErrorKind) -> (error: ConfigError)
        ensures
            error@ == ConfigErrorView::bare(kind@),
    {
        ConfigError { kind, cause: None }
    }
}

/// In specifications, the error made from a kind is the one that holds that
/// kind and no cause.
impl FromSpecImpl<ErrorKind> for ConfigError {
    open spec fn obeys_from_spec() -> bool {
        true
    }

    closed spec fn from_spec(kind: ErrorKind) -> ConfigError {
        ConfigError { kind, cause: None }
    }
}

impl From<toml::de::Error> for ConfigError {
    /// A parser failure is always a parse error, at an unknown place, whose
    /// detail is the parser's own text.
    fn from(error: toml::de::Error) -> (converted: ConfigError)
        ensures
            converted@ == ConfigErrorView::parse_failure(toml_error_text(error)),
    {
        ConfigError::from_parse_failure(render_toml_error(&error))
    }
}

/// The conversion is specified by the `ensures` of `from`, over the view: the
/// texts of its result are known by their characters only, so no value can be
/// singled out for it here.
impl FromSpecImpl<toml::de::Error> for ConfigError {
    open spec fn obeys_from_spec() -> bool {
        false
    }

    open spec fn from_spec(error: toml::de::Error) -> ConfigError {
        arbitrary()
    }
}

impl From<std::io::Error> for ConfigError {
    /// A file failure is always a `FileIOError`, a missing file included,
    /// whose path holds the text that the failure renders of itself. That
    /// text may come from the operating system and differ from one machine
    /// to another, so the contract speaks of whatever `to_string` returned.
    fn from(error: std::io::Error) -> (converted: ConfigError)
        ensures
            exists|text: String|
                #![auto]
                to_string_from_display_ensures::<std::io::Error>(&error, text) && converted@
                    == ConfigErrorView::io_failure(text@),
    {
        ConfigError::from_io_failure(error.to_string())
    }
}

/// The conversion is specified by the `ensures` of `from`, over the view: the
/// texts of its result are known by their characters only, so no value can be
/// singled out for it here.
impl FromSpecImpl<std::io::Error> for ConfigError {
    open spec fn obeys_from_spec() -> bool {
        false
    }

    open spec fn from_spec(error: std::io::Error) -> ConfigError {
        arbitrary()
    }
}

/// Reading the kind of an error that was made from a kind gives that kind
/// back, whichever of the four variants it is.
pub proof fn lemma_kind_of_wrapped_kind(kind: ErrorKind, error: ConfigError, read: ErrorKind)
    requires
        call_ensures(<ConfigError as From<ErrorKind>>::from, (kind,), error),
        call_ensures(ConfigError::kind, (&error,), read),
    ensures
        read@ == kind@,
        read.eq_spec(&kind),
{
}

/// Reading the kind of one error twice gives equal kinds: reading changes
/// nothing.
pub proof fn lemma_kind_is_stable(error: ConfigError, first: ErrorKind, second: ErrorKind)
    requires
        call_ensures(ConfigError::kind, (&error,), first),
        call_ensures(ConfigError::kind, (&error,), second),
    ensures
        first@ == second@,
        first.eq_spec(&second),
{
}

} // verus!
