//! Error model of a configuration loader: a closed classification of what
//! went wrong, and the error value that carries one classification together
//! with the message of an optional underlying cause.

pub mod error;
pub mod kind;

pub use error::{ConfigError, ConfigErrorView};
pub use kind::{ErrorKind, ErrorKindView};
