//! The tree itself: an item that is known to be a well-formed root.

use core::ops::Deref;
use vstd::pervasive::unreached;
use vstd::prelude::*;
use vstd::std_specs::cmp::PartialEqSpec;

use crate::builder::DefinitionsItemBuilder;
use crate::error::ParseError;
use crate::item::{item_models, DefinitionsItem, ItemModel};
use crate::kind::DefinitionsItemKind;

verus! {

/// The characters of the name that the root of every tree carries.
pub open spec fn root_name() -> Seq<char> {
    "<<<ROOT>>>"@
}

/// The model of the root item that has the given children.
pub open spec fn root_over(children: Seq<ItemModel>) -> ItemModel {
    ItemModel { kind: DefinitionsItemKind::Root, name: root_name(), children }
}

/// Whether an item is fit to stand at the top of a tree: it has the reserved
/// category and the reserved name.
pub open spec fn is_root_model(item: ItemModel) -> bool {
    item.kind == DefinitionsItemKind::Root && item.name == root_name()
}

/// Whether a tree upholds the rules on what stands where: the item on top is
/// a root, and every item below it is fit to stand below a root.
pub open spec fn is_well_formed(tree: ItemModel) -> bool {
    &&& is_root_model(tree)
    &&& forall|i: int|
        0 <= i < tree.children.len() ==> (#[trigger] tree.children[i]).is_declaration()
}

/// Whether `tree` is what wrapping the item `root` gives: the tree with that
/// item on top if the item is fit to stand there, and nothing otherwise.
pub open spec fn wraps(root: ItemModel, tree: Option<DefinitionsTree>) -> bool {
    match tree {
        Some(tree) => is_root_model(root) && tree@ == root,
        None => !is_root_model(root),
    }
}

/// Whether `tree` is what the outcome `parsed` of a parser is assembled into:
/// on success the root over the parsed items, in the parser's order, and on
/// failure the parser's failure, wrapped and otherwise unchanged.
pub open spec fn assembles<E>(
    parsed: Result<Vec<DefinitionsItem>, E>,
    tree: Result<DefinitionsTree, ParseError<E>>,
) -> bool {
    match parsed {
        Ok(items) => tree is Ok && tree->Ok_0@ == root_over(item_models(items@)),
        Err(cause) => tree == Err::<DefinitionsTree, ParseError<E>>(ParseError { cause }),
    }
}

/// A definitions tree: the synthetic root item over the top-level
/// declarations of one source text.
///
/// Every value of this type is a root. That is settled when the value is
/// made and cannot be undone afterwards, since a tree gives read access only.
#[derive(Debug)]
pub struct DefinitionsTree(DefinitionsItem);

impl View for DefinitionsTree {
    type V = ItemModel;

    closed spec fn view(&self) -> ItemModel {
        self.0@
    }
}

impl DefinitionsTree {
    #[verifier::type_invariant]
    spec fn has_root_on_top(&self) -> bool {
        is_root_model(self.0@)
    }

    /// Asks `parse` for the top-level declarations of
    /// `type_definitions_contents` and assembles them into a tree.
    ///
    /// Whatever `parse` returns, the result is assembled from it as
    /// `from_parse_result` says: there is no outcome in between.
    pub fn from_type_definitions<E, F>(type_definitions_contents: &str, parse: F) -> (tree: Result<
        DefinitionsTree,
        ParseError<E>,
    >) where F: FnOnce(&str) -> Result<Vec<DefinitionsItem>, E>
        requires
            parse.requires((type_definitions_contents,)),
        ensures
            exists|parsed: Result<Vec<DefinitionsItem>, E>|
                parse.ensures((type_definitions_contents,), parsed) && #[trigger] assembles(
                    parsed,
                    tree,
                ),
    {
        let parsed = parse(type_definitions_contents);
        DefinitionsTree::from_parse_result(parsed)
    }

    /// Assembles the outcome of a parser into a tree.
    ///
    /// If the parser succeeded, the tree is the root over copies of the
    /// parsed items, in the parser's order. If it failed, so does this, with
    /// the parser's failure as the cause.
    pub fn from_parse_result<E>(parsed: Result<Vec<DefinitionsItem>, E>) -> (tree: Result<
        DefinitionsTree,
        ParseError<E>,
    >)
        ensures
            assembles(parsed, tree),
    {
        let top_level_items = match parsed {
            Ok(items) => items,
            Err(cause) => {
                return Err(ParseError { cause });
            },
        };
        let built = DefinitionsItemBuilder::new().with_kind(DefinitionsItemKind::Root).with_name(
            "<<<ROOT>>>",
        ).with_children(top_level_items.as_slice()).build();
        match built {
            Ok(root) => Ok(DefinitionsTree(root)),
            Err(_) => unreached(),
        }
    }

    /// Wraps an item that is fit to stand at the top of a tree: one with
    /// the reserved category and the reserved name. Any other item is
    /// refused.
    pub fn from_root(root: DefinitionsItem) -> (tree: Option<DefinitionsTree>)
        ensures
            wraps(root@, tree),
    {
        if root.kind().is_root() && root.has_name("<<<ROOT>>>") {
            Some(DefinitionsTree(root))
        } else {
            None
        }
    }

    /// Whether every item below the root is fit to stand there.
    ///
    /// Assembling a tree does not ask this of the parsed items. A caller
    /// that wants the rule upheld asks here.
    pub fn is_well_formed(&self) -> (sound: bool)
        ensures
            sound == is_well_formed(self@),
    {
        proof {
            use_type_invariant(self);
        }
        let children = self.0.children();
        let mut i: usize = 0;
        while i < children.len()
            invariant
                i <= children.len(),
                item_models(children@) == self@.children,
                forall|j: int| 0 <= j < i ==> (#[trigger] self@.children[j]).is_declaration(),
            decreases children.len() - i,
        {
            if !children[i].is_declaration() {
                assert(!self@.children[i as int].is_declaration());
                return false;
            }
            i += 1;
        }
        true
    }

    /// Whether this tree is a root, which it always is.
    pub fn is_root(&self) -> (root: bool)
        ensures
            root,
            is_root_model(self@),
    {
        proof {
            use_type_invariant(self);
        }
        true
    }

    /// Gives up the wrapper and hands out the root item.
    pub fn into_inner(self) -> (root: DefinitionsItem)
        ensures
            root@ == self@,
    {
        self.0
    }
}

impl Deref for DefinitionsTree {
    type Target = DefinitionsItem;

    /// The root item, for reading.
    fn deref(&self) -> (root: &DefinitionsItem)
        ensures
            root@ == self@,
    {
        &self.0
    }
}

impl Clone for DefinitionsTree {
    /// A deep copy: a new tree with the same model.
    fn clone(&self) -> (copy: Self)
        ensures
            copy@ == self@,
    {
        proof {
            use_type_invariant(self);
        }
        DefinitionsTree(self.0.clone())
    }
}

impl PartialEq for DefinitionsTree {
    /// Two trees are equal when their roots are structurally equal.
    fn eq(&self, other: &Self) -> (equal: bool) {
        self.0 == other.0
    }
}

impl Eq for DefinitionsTree {

}

impl vstd::std_specs::cmp::PartialEqSpecImpl for DefinitionsTree {
    open spec fn obeys_eq_spec() -> bool {
        true
    }

    open spec fn eq_spec(&self, other: &DefinitionsTree) -> bool {
        self@ == other@
    }
}

/// A tree that is assembled from parsed items has the reserved category and
/// name on top, and below it the parsed items: as many as were parsed, each
/// at the place where the parser put it.
pub proof fn assembled_tree_keeps_order<E>(
    items: Vec<DefinitionsItem>,
    tree: Result<DefinitionsTree, ParseError<E>>,
)
    requires
        assembles(Ok::<Vec<DefinitionsItem>, E>(items), tree),
    ensures
        tree is Ok,
        is_root_model(tree->Ok_0@),
        tree->Ok_0@.children.len() == items@.len(),
        forall|i: int| 0 <= i < items@.len() ==> tree->Ok_0@.children[i] == items@[i]@,
{
}

/// A tree that is assembled from parsed items upholds the rules on what
/// stands where, provided that each parsed item is fit to stand below a root.
pub proof fn assembled_tree_is_well_formed<E>(
    items: Vec<DefinitionsItem>,
    tree: Result<DefinitionsTree, ParseError<E>>,
)
    requires
        assembles(Ok::<Vec<DefinitionsItem>, E>(items), tree),
        forall|i: int| 0 <= i < items@.len() ==> (#[trigger] items@[i])@.is_declaration(),
    ensures
        tree is Ok,
        is_well_formed(tree->Ok_0@),
{
}

/// A tree that is assembled from a parser's failure does not exist: the
/// result is the failure, with the parser's own cause in it.
pub proof fn failed_parse_gives_no_tree<E>(cause: E, tree: Result<DefinitionsTree, ParseError<E>>)
    requires
        assembles(Err::<Vec<DefinitionsItem>, E>(cause), tree),
    ensures
        tree is Err,
        tree->Err_0.cause == cause,
{
}

/// Handing out the root of a tree and wrapping it again gives an equal
/// tree: `root` stands for what `into_inner` gave, `again` for what
/// `from_root` made of it.
pub proof fn root_round_trip(
    tree: DefinitionsTree,
    root: DefinitionsItem,
    again: Option<DefinitionsTree>,
)
    requires
        is_root_model(tree@),
        root@ == tree@,
        wraps(root@, again),
    ensures
        again is Some,
        again->Some_0.eq_spec(&tree),
{
}

} // verus!
