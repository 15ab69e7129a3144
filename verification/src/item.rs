//! The node of a definitions tree, and its mathematical model.

use vstd::prelude::*;
use vstd::std_specs::cmp::PartialEqSpec;

use crate::kind::DefinitionsItemKind;

verus! {

/// What an item is, as a mathematical value: its category, the characters of
/// its name, and the models of its children in declaration order.
///
/// Two items are structurally equal exactly when their models are equal.
pub struct ItemModel {
    pub kind: DefinitionsItemKind,
    pub name: Seq<char>,
    pub children: Seq<ItemModel>,
}

impl ItemModel {
    /// Whether this item, with all that stands below it, is fit to stand
    /// below a root: none of them has the reserved category, and each has a
    /// name that is not empty.
    pub open spec fn is_declaration(self) -> bool
        decreases self,
    {
        &&& self.kind != DefinitionsItemKind::Root
        &&& self.name.len() > 0
        &&& forall|i: int|
            0 <= i < self.children.len() ==> (#[trigger] self.children[i]).is_declaration()
    }
}

/// One definition, or the synthetic root of a tree.
///
/// An item owns its children and keeps them in declaration order. It holds no
/// reference to its parent. Once built, an item is never changed: it offers
/// read access only.
#[derive(Debug)]
pub struct DefinitionsItem {
    kind: DefinitionsItemKind,
    name: String,
    children: Vec<DefinitionsItem>,
}

/// The models of a sequence of items, in the same order.
pub open spec fn item_models(items: Seq<DefinitionsItem>) -> Seq<ItemModel> {
    Seq::new(items.len(), |i: int| items[i]@)
}

/// The models of the first `n` of `items`, in order.
spec fn models_of_first(items: Vec<DefinitionsItem>, n: nat) -> Seq<ItemModel>
    decreases items, n,
{
    if n == 0 || n > items.len() {
        Seq::empty()
    } else {
        models_of_first(items, (n - 1) as nat).push(items[n - 1]@)
    }
}

impl View for DefinitionsItem {
    type V = ItemModel;

    closed spec fn view(&self) -> ItemModel
        decreases self, 0nat,
    {
        ItemModel {
            kind: self.kind,
            name: self.name@,
            children: models_of_first(self.children, self.children.len() as nat),
        }
    }
}

/// `models_of_first` gives the models of a prefix, item by item.
proof fn lemma_models_of_first(items: Vec<DefinitionsItem>, n: nat)
    requires
        n <= items.len(),
    ensures
        models_of_first(items, n).len() == n,
        forall|i: int| 0 <= i < n ==> (#[trigger] models_of_first(items, n)[i]) == items[i]@,
    decreases n,
{
    if n > 0 {
        lemma_models_of_first(items, (n - 1) as nat);
        assert(models_of_first(items, n) == models_of_first(items, (n - 1) as nat).push(
            items[n - 1]@,
        ));
    } else {
        assert(models_of_first(items, n) == Seq::<ItemModel>::empty());
    }
}

impl DefinitionsItem {
    /// The children of an item are modelled one by one, in order.
    proof fn lemma_children_models(&self)
        ensures
            self@.children == item_models(self.children@),
    {
        lemma_models_of_first(self.children, self.children.len() as nat);
        assert(self@.children =~= item_models(self.children@));
    }

    /// Makes an item from its three parts, taking the children as they are.
    pub(crate) fn from_parts(
        kind: DefinitionsItemKind,
        name: String,
        children: Vec<DefinitionsItem>,
    ) -> (item: DefinitionsItem)
        ensures
            item@.kind == kind,
            item@.name == name@,
            item@.children == item_models(children@),
    {
        let item = DefinitionsItem { kind, name, children };
        proof {
            item.lemma_children_models();
        }
        item
    }

    /// The category of this item.
    pub fn kind(&self) -> (kind: DefinitionsItemKind)
        ensures
            kind == self@.kind,
    {
        self.kind
    }

    /// The name of this item.
    pub fn name(&self) -> (name: &str)
        ensures
            name@ == self@.name,
    {
        self.name.as_str()
    }

    /// Whether this item has exactly the given name.
    pub fn has_name(&self, name: &str) -> (same: bool)
        ensures
            same == (self@.name == name@),
    {
        self.name == name.to_owned()
    }

    /// Whether this item, with all that stands below it, is fit to stand
    /// below a root.
    ///
    /// Building an item does not ask this. A caller that wants the rule
    /// upheld asks here.
    pub fn is_declaration(&self) -> (fit: bool)
        ensures
            fit == self@.is_declaration(),
        decreases self,
    {
        proof {
            self.lemma_children_models();
        }
        if self.kind.is_root() || self.name.as_str().is_empty() {
            return false;
        }
        let mut i: usize = 0;
        while i < self.children.len()
            invariant
                i <= self.children.len(),
                self@.children == item_models(self.children@),
                forall|j: int| 0 <= j < i ==> (#[trigger] self@.children[j]).is_declaration(),
            decreases self.children.len() - i,
        {
            if !self.children[i].is_declaration() {
                assert(!self@.children[i as int].is_declaration());
                return false;
            }
            i += 1;
        }
        true
    }

    /// The children of this item, in declaration order.
    pub fn children(&self) -> (children: &[DefinitionsItem])
        ensures
            item_models(children@) == self@.children,
    {
        proof {
            self.lemma_children_models();
        }
        self.children.as_slice()
    }
}

impl Clone for DefinitionsItem {
    /// A deep copy: a new item with the same model.
    fn clone(&self) -> (copy: Self)
        ensures
            copy@ == self@,
        decreases self,
    {
        proof {
            self.lemma_children_models();
        }
        let mut children: Vec<DefinitionsItem> = Vec::with_capacity(self.children.len());
        let mut i: usize = 0;
        while i < self.children.len()
            invariant
                i <= self.children.len(),
                children@.len() == i,
                forall|j: int| 0 <= j < i ==> children@[j]@ == self.children@[j]@,
            decreases self.children.len() - i,
        {
            let child = self.children[i].clone();
            children.push(child);
            i += 1;
        }
        assert(item_models(children@) =~= item_models(self.children@));
        DefinitionsItem::from_parts(self.kind, self.name.clone(), children)
    }
}

impl PartialEq for DefinitionsItem {
    /// Structural equality: the same category, the same name, and equal
    /// children in the same order.
    fn eq(&self, other: &Self) -> (equal: bool)
        decreases self,
    {
        proof {
            self.lemma_children_models();
            other.lemma_children_models();
        }
        let same_head = self.kind == other.kind && self.name == other.name;
        if !same_head || self.children.len() != other.children.len() {
            assert(self@.kind != other@.kind || self@.name != other@.name
                || self@.children.len() != other@.children.len());
            return false;
        }
        let mut i: usize = 0;
        while i < self.children.len()
            invariant
                i <= self.children.len(),
                self.children.len() == other.children.len(),
                self@.children == item_models(self.children@),
                other@.children == item_models(other.children@),
                forall|j: int| 0 <= j < i ==> self.children@[j]@ == other.children@[j]@,
            decreases self.children.len() - i,
        {
            if !self.children[i].eq(&other.children[i]) {
                assert(self@.children[i as int] != other@.children[i as int]);
                return false;
            }
            i += 1;
        }
        assert(self@.children =~= other@.children);
        true
    }
}

impl Eq for DefinitionsItem {

}

impl vstd::std_specs::cmp::PartialEqSpecImpl for DefinitionsItem {
    open spec fn obeys_eq_spec() -> bool {
        true
    }

    open spec fn eq_spec(&self, other: &DefinitionsItem) -> bool {
        self@ == other@
    }
}

/// Two items are structurally equal exactly when they have the same
/// category, the same name and the same number of children, and their
/// children are structurally equal one by one, in order.
pub proof fn eq_is_fieldwise(a: DefinitionsItem, b: DefinitionsItem)
    ensures
        a.eq_spec(&b) <==> {
            &&& a@.kind == b@.kind
            &&& a@.name == b@.name
            &&& a@.children.len() == b@.children.len()
            &&& forall|i: int| 0 <= i < a@.children.len() ==> a@.children[i] == b@.children[i]
        },
{
    if a@.kind == b@.kind && a@.name == b@.name && a@.children.len() == b@.children.len()
        && forall|i: int| 0 <= i < a@.children.len() ==> a@.children[i] == b@.children[i] {
        assert(a@.children =~= b@.children);
    }
}

/// Every item is structurally equal to itself.
pub proof fn eq_is_reflexive(a: DefinitionsItem)
    ensures
        a.eq_spec(&a),
{
}

/// Structural equality does not depend on the side an item stands on.
pub proof fn eq_is_symmetric(a: DefinitionsItem, b: DefinitionsItem)
    ensures
        a.eq_spec(&b) == b.eq_spec(&a),
{
}

/// Two items that are structurally equal to a third are structurally equal
/// to each other.
pub proof fn eq_is_transitive(a: DefinitionsItem, b: DefinitionsItem, c: DefinitionsItem)
    requires
        a.eq_spec(&b),
        b.eq_spec(&c),
    ensures
        a.eq_spec(&c),
{
}

} // verus!
