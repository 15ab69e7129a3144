//! The two ways in which assembling a definitions tree can fail.

use vstd::prelude::*;

verus! {

/// A slot of the item builder that must be set before an item can be built.
#[derive(Debug, Clone, Copy, PartialEq, Eq, Hash, Structural)]
pub enum RequiredField {
    /// The category of the item.
    Kind,
    /// The name of the item.
    Name,
}

impl RequiredField {
    /// The characters of the field's name.
    pub open spec fn spec_name(self) -> Seq<char> {
        match self {
            RequiredField::Kind => "kind"@,
            RequiredField::Name => "name"@,
        }
    }

    /// The field's name: `kind` or `name`.
    pub fn name(self) -> (name: &'static str)
        ensures
            name@ == self.spec_name(),
    {
        match self {
            RequiredField::Kind => "kind",
            RequiredField::Name => "name",
        }
    }
}

/// Why an item could not be built.
#[derive(Debug, Clone, Copy, PartialEq, Eq, Hash, Structural)]
pub enum BuildError {
    /// A required slot of the builder was never set.
    MissingField(RequiredField),
}

impl BuildError {
    /// The required field that was not set.
    pub fn field(self) -> (field: RequiredField)
        ensures
            self == BuildError::MissingField(field),
    {
        match self {
            BuildError::MissingField(field) => field,
        }
    }
}

/// The failure of the parser that was asked for the top-level declarations
/// of a source text.
///
/// It carries the parser's own failure unchanged, in `cause`, and names the
/// operation that failed.
#[derive(Debug, PartialEq, Eq)]
pub struct ParseError<E> {
    /// What the parser reported.
    pub cause: E,
}

/// The characters of the context that every `ParseError` carries.
pub open spec fn parse_context() -> Seq<char> {
    "failed to parse type definitions"@
}

impl<E> ParseError<E> {
    /// The operation that failed, in words.
    pub fn context(&self) -> (context: &'static str)
        ensures
            context@ == parse_context(),
    {
        "failed to parse type definitions"
    }

    /// Gives up the wrapper and hands out the parser's own failure.
    pub fn into_cause(self) -> (cause: E)
        ensures
            cause == self.cause,
    {
        self.cause
    }
}

} // verus!
