//! The build- and compose-time error taxonomy. Every error here aborts the
//! one-shot build or compose step that raised it; none has a runtime
//! analogue, because a schema that was emitted is valid by construction.
use vstd::prelude::*;

verus! {

/// An identifier handed to the composer is not a bare name.
#[derive(Debug)]
pub struct InvalidIdentifierError(pub String);

/// The composer input is not an identifier, a comma, and a bracketed
/// comma-separated list of identifiers; `err` carries the structural-parse
/// error text.
#[derive(Debug)]
pub struct InvalidIdentifierListError {
    pub message: &'static str,
    pub err: String,
}

/// The command signature could not be recognized as a function-like shape at
/// all; `err` carries the underlying parse error text.
#[derive(Debug)]
pub struct InvalidSubcommandFunctionError {
    pub message: &'static str,
    pub err: String,
}

/// A parameter uses a binding form other than a simple name:type pair; the
/// message echoes the offending parameter's source text.
#[derive(Debug)]
pub struct InvalidCliArgumentError(pub String);

/// Why building one command's schema failed.
#[derive(Debug)]
pub enum BuildError {
    /// The signature is not function-like.
    InvalidSignature(InvalidSubcommandFunctionError),
    /// A parameter is not a simple name:type binding.
    InvalidArgument(InvalidCliArgumentError),
}

/// Why composing a group failed.
#[derive(Debug)]
pub enum ComposeError {
    /// The group identifier is not a bare name.
    InvalidIdentifier(InvalidIdentifierError),
    /// The composition input has the wrong shape.
    InvalidIdentifierList(InvalidIdentifierListError),
    /// Two children derive the same display label, so dispatch would be
    /// ambiguous; the duplicated label is carried.
    DuplicateVariant { label: String },
}

} // verus!
