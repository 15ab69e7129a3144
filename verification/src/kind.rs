//! The closed set of categories that an item of a definitions tree can have.

use vstd::prelude::*;

verus! {

/// The category of one item in a definitions tree.
///
/// The set is closed: consumers are expected to match on it exhaustively.
/// `Root` is reserved for the synthetic item at the top of a tree and is never
/// the category of a declaration that was read from a source text.
#[derive(Debug, Clone, Copy, PartialEq, Eq, Hash, Structural)]
pub enum DefinitionsItemKind {
    /// The synthetic item at the top of a tree.
    Root,
    /// A named type declaration.
    Type,
    /// A table of further declarations, such as a namespace or a class.
    Table,
    /// A constant or a field of a table.
    Property,
    /// A callable signature.
    Function,
    /// Free text that documents the item it belongs to.
    Description,
    /// A marker attached to the item it belongs to.
    Tag,
}

impl DefinitionsItemKind {
    /// Whether this is the category reserved for the top of a tree.
    pub fn is_root(self) -> (r: bool)
        ensures
            r == (self == DefinitionsItemKind::Root),
    {
        self == DefinitionsItemKind::Root
    }
}

} // verus!
