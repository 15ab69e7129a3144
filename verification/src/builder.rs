//! The staged constructor of items.

use vstd::prelude::*;
use vstd::std_specs::cmp::PartialEqSpec;

use crate::error::{BuildError, RequiredField};
use crate::item::{item_models, DefinitionsItem, ItemModel};
use crate::kind::DefinitionsItemKind;

verus! {

/// What a builder holds, as a mathematical value: one slot each for the
/// category and the name, which may be empty, and the children that were
/// handed in last (none, if none ever were).
pub struct BuilderModel {
    pub kind: Option<DefinitionsItemKind>,
    pub name: Option<Seq<char>>,
    pub children: Seq<ItemModel>,
}

impl BuilderModel {
    /// What finalizing a builder in this state gives: the item made of the
    /// three slots, or the first required slot that is empty, the category
    /// before the name.
    pub open spec fn outcome(self) -> Result<ItemModel, BuildError> {
        match (self.kind, self.name) {
            (None, _) => Err(BuildError::MissingField(RequiredField::Kind)),
            (Some(_), None) => Err(BuildError::MissingField(RequiredField::Name)),
            (Some(kind), Some(name)) => Ok(ItemModel { kind, name, children: self.children }),
        }
    }

    /// Whether `result` is what finalizing a builder in this state gives.
    pub open spec fn builds(self, result: Result<DefinitionsItem, BuildError>) -> bool {
        match result {
            Ok(item) => self.outcome() == Ok::<ItemModel, BuildError>(item@),
            Err(error) => self.outcome() == Err::<ItemModel, BuildError>(error),
        }
    }
}

/// Collects the parts of an item and makes the item once the required parts
/// are there.
///
/// Each setter replaces what an earlier call of the same setter left. Nothing
/// is validated before `build`.
#[derive(Debug)]
pub struct DefinitionsItemBuilder {
    kind: Option<DefinitionsItemKind>,
    name: Option<String>,
    children: Vec<DefinitionsItem>,
}

/// A deep copy of `items`, in the same order.
fn copy_items(items: &[DefinitionsItem]) -> (copies: Vec<DefinitionsItem>)
    ensures
        item_models(copies@) == item_models(items@),
{
    let mut copies: Vec<DefinitionsItem> = Vec::with_capacity(items.len());
    let mut i: usize = 0;
    while i < items.len()
        invariant
            i <= items.len(),
            copies@.len() == i,
            forall|j: int| 0 <= j < i ==> copies@[j]@ == items@[j]@,
        decreases items.len() - i,
    {
        copies.push(items[i].clone());
        i += 1;
    }
    assert(item_models(copies@) =~= item_models(items@));
    copies
}

impl View for DefinitionsItemBuilder {
    type V = BuilderModel;

    closed spec fn view(&self) -> BuilderModel {
        BuilderModel {
            kind: self.kind,
            name: match self.name {
                Some(name) => Some(name@),
                None => None,
            },
            children: item_models(self.children@),
        }
    }
}

impl DefinitionsItemBuilder {
    /// A builder with every slot empty.
    pub fn new() -> (builder: Self)
        ensures
            builder@ == (BuilderModel { kind: None, name: None, children: Seq::empty() }),
    {
        let builder = DefinitionsItemBuilder { kind: None, name: None, children: Vec::new() };
        assert(builder@.children =~= Seq::empty());
        builder
    }

    /// Sets the category, replacing one that was set before.
    pub fn with_kind(self, kind: DefinitionsItemKind) -> (builder: Self)
        ensures
            builder@ == (BuilderModel { kind: Some(kind), ..self@ }),
    {
        DefinitionsItemBuilder { kind: Some(kind), name: self.name, children: self.children }
    }

    /// Sets the name, replacing one that was set before.
    pub fn with_name(self, name: &str) -> (builder: Self)
        ensures
            builder@ == (BuilderModel { name: Some(name@), ..self@ }),
    {
        DefinitionsItemBuilder {
            kind: self.kind,
            name: Some(name.to_owned()),
            children: self.children,
        }
    }

    /// Sets the children to copies of `children`, in the same order,
    /// replacing those that were set before.
    pub fn with_children(self, children: &[DefinitionsItem]) -> (builder: Self)
        ensures
            builder@ == (BuilderModel { children: item_models(children@), ..self@ }),
    {
        DefinitionsItemBuilder { kind: self.kind, name: self.name, children: copy_items(children) }
    }

    /// Makes the item that the slots describe.
    ///
    /// Fails if the category was never set, and otherwise if the name was
    /// never set. The builder is left as it was, so that a second call gives
    /// an equal result.
    pub fn build(&self) -> (result: Result<DefinitionsItem, BuildError>)
        ensures
            self@.builds(result),
    {
        let kind = match self.kind {
            Some(kind) => kind,
            None => {
                return Err(BuildError::MissingField(RequiredField::Kind));
            },
        };
        let name = match &self.name {
            Some(name) => name.clone(),
            None => {
                return Err(BuildError::MissingField(RequiredField::Name));
            },
        };
        let children = copy_items(self.children.as_slice());
        Ok(DefinitionsItem::from_parts(kind, name, children))
    }
}

impl Default for DefinitionsItemBuilder {
    fn default() -> (builder: Self)
        ensures
            builder@ == (BuilderModel { kind: None, name: None, children: Seq::empty() }),
    {
        DefinitionsItemBuilder::new()
    }
}

/// Finalizing is repeatable: two results of `build` on a builder in one state
/// are either two structurally equal items or twice the same error.
pub proof fn build_is_repeatable(
    builder: DefinitionsItemBuilder,
    first: Result<DefinitionsItem, BuildError>,
    second: Result<DefinitionsItem, BuildError>,
)
    requires
        builder@.builds(first),
        builder@.builds(second),
    ensures
        match (first, second) {
            (Ok(a), Ok(b)) => a.eq_spec(&b),
            (Err(a), Err(b)) => a == b,
            _ => false,
        },
{
}

/// Finalizing fails exactly when a required slot is empty, and then names
/// the category if that is missing, and the name otherwise.
pub proof fn build_fails_on_missing_field(
    builder: DefinitionsItemBuilder,
    result: Result<DefinitionsItem, BuildError>,
)
    requires
        builder@.builds(result),
    ensures
        builder@.kind is None ==> result == Err::<DefinitionsItem, BuildError>(
            BuildError::MissingField(RequiredField::Kind),
        ),
        builder@.kind is Some && builder@.name is None ==> result == Err::<
            DefinitionsItem,
            BuildError,
        >(BuildError::MissingField(RequiredField::Name)),
        builder@.kind is Some && builder@.name is Some ==> result is Ok,
{
}

} // verus!
