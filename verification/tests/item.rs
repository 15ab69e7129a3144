use definitions_tree::builder::DefinitionsItemBuilder;
use definitions_tree::item::DefinitionsItem;
use definitions_tree::kind::DefinitionsItemKind;

fn item(kind: DefinitionsItemKind, name: &str, children: &[DefinitionsItem]) -> DefinitionsItem {
    DefinitionsItemBuilder::new()
        .with_kind(kind)
        .with_name(name)
        .with_children(children)
        .build()
        .unwrap()
}

fn sample_table() -> DefinitionsItem {
    let get = item(DefinitionsItemKind::Function, "get", &[]);
    let size = item(DefinitionsItemKind::Property, "size", &[]);
    item(DefinitionsItemKind::Table, "Store", &[get, size])
}

#[test]
fn accessors_give_back_what_was_built() {
    let table = sample_table();
    assert_eq!(table.kind(), DefinitionsItemKind::Table);
    assert_eq!(table.name(), "Store");
    assert_eq!(table.children().len(), 2);
    assert_eq!(table.children()[0].kind(), DefinitionsItemKind::Function);
    assert_eq!(table.children()[0].name(), "get");
    assert_eq!(table.children()[1].kind(), DefinitionsItemKind::Property);
    assert_eq!(table.children()[1].name(), "size");
    assert_eq!(table.children()[0].children().len(), 0);
}

#[test]
fn has_name_compares_the_whole_name() {
    let table = sample_table();
    assert!(table.has_name("Store"));
    assert!(!table.has_name("Stor"));
    assert!(!table.has_name("Store "));
    assert!(!table.has_name(""));
}

#[test]
fn equality_is_reflexive() {
    let table = sample_table();
    assert!(table == table);
    let leaf = item(DefinitionsItemKind::Tag, "deprecated", &[]);
    assert!(leaf == leaf);
}

#[test]
fn equality_is_symmetric() {
    let a = sample_table();
    let b = sample_table();
    assert!(a == b);
    assert!(b == a);
    let c = item(DefinitionsItemKind::Table, "Other", &[]);
    assert!(a != c);
    assert!(c != a);
}

#[test]
fn equality_is_transitive() {
    let a = sample_table();
    let b = a.clone();
    let c = sample_table();
    assert!(a == b);
    assert!(b == c);
    assert!(a == c);
}

#[test]
fn items_that_differ_in_kind_are_not_equal() {
    let a = item(DefinitionsItemKind::Type, "x", &[]);
    let b = item(DefinitionsItemKind::Property, "x", &[]);
    assert!(a != b);
}

#[test]
fn items_that_differ_in_name_are_not_equal() {
    let a = item(DefinitionsItemKind::Type, "x", &[]);
    let b = item(DefinitionsItemKind::Type, "y", &[]);
    assert!(a != b);
}

#[test]
fn items_that_differ_in_shape_are_not_equal() {
    let leaf = item(DefinitionsItemKind::Function, "f", &[]);
    let none = item(DefinitionsItemKind::Table, "t", &[]);
    let one = item(DefinitionsItemKind::Table, "t", &[leaf.clone()]);
    let two = item(DefinitionsItemKind::Table, "t", &[leaf.clone(), leaf.clone()]);
    assert!(none != one);
    assert!(one != two);
    assert!(two != none);
}

#[test]
fn the_order_of_children_counts() {
    let f = item(DefinitionsItemKind::Function, "f", &[]);
    let g = item(DefinitionsItemKind::Function, "g", &[]);
    let fg = item(DefinitionsItemKind::Table, "t", &[f.clone(), g.clone()]);
    let gf = item(DefinitionsItemKind::Table, "t", &[g, f]);
    assert!(fg != gf);
}

#[test]
fn a_difference_deep_down_is_found() {
    let deep_a = item(DefinitionsItemKind::Description, "first text", &[]);
    let deep_b = item(DefinitionsItemKind::Description, "second text", &[]);
    let mid_a = item(DefinitionsItemKind::Function, "f", &[deep_a]);
    let mid_b = item(DefinitionsItemKind::Function, "f", &[deep_b]);
    let top_a = item(DefinitionsItemKind::Table, "t", &[mid_a]);
    let top_b = item(DefinitionsItemKind::Table, "t", &[mid_b]);
    assert!(top_a != top_b);
    assert!(top_a == top_a.clone());
}

#[test]
fn a_clone_is_equal_and_deep() {
    let table = sample_table();
    let copy = table.clone();
    assert_eq!(copy, table);
    assert_eq!(copy.children().len(), 2);
    assert_eq!(copy.children()[1].name(), "size");
    drop(table);
    assert_eq!(copy.name(), "Store");
    assert_eq!(copy.children()[0].name(), "get");
}

#[test]
fn a_deep_chain_is_copied_and_compared() {
    let mut chain = item(DefinitionsItemKind::Property, "level", &[]);
    let mut depth = 0;
    while depth < 200 {
        chain = item(DefinitionsItemKind::Table, "level", &[chain]);
        depth += 1;
    }
    let copy = chain.clone();
    assert!(copy == chain);
    let mut node = &copy;
    let mut seen = 0;
    while node.children().len() == 1 {
        node = &node.children()[0];
        seen += 1;
    }
    assert_eq!(seen, 200);
    assert_eq!(node.kind(), DefinitionsItemKind::Property);
}

#[test]
fn a_wide_item_keeps_every_child_in_place() {
    let mut children = Vec::new();
    let mut i = 0;
    while i < 300 {
        children.push(item(DefinitionsItemKind::Property, &format!("field_{}", i), &[]));
        i += 1;
    }
    let wide = item(DefinitionsItemKind::Table, "wide", &children);
    assert_eq!(wide.children().len(), 300);
    assert_eq!(wide.children()[0].name(), "field_0");
    assert_eq!(wide.children()[17].name(), "field_17");
    assert_eq!(wide.children()[299].name(), "field_299");
}

#[test]
fn a_declaration_has_a_name_and_is_no_root() {
    assert!(sample_table().is_declaration());
    assert!(item(DefinitionsItemKind::Type, "T", &[]).is_declaration());
}

#[test]
fn an_item_without_a_name_is_no_declaration() {
    assert!(!item(DefinitionsItemKind::Type, "", &[]).is_declaration());
}

#[test]
fn a_root_is_no_declaration() {
    assert!(!item(DefinitionsItemKind::Root, "top", &[]).is_declaration());
}

#[test]
fn a_fault_below_spoils_the_declaration() {
    let nameless = item(DefinitionsItemKind::Property, "", &[]);
    let inner_root = item(DefinitionsItemKind::Root, "inner", &[]);
    let good = item(DefinitionsItemKind::Property, "p", &[]);
    let a = item(DefinitionsItemKind::Table, "a", &[good.clone(), nameless]);
    let b = item(DefinitionsItemKind::Table, "b", &[inner_root, good.clone()]);
    let c = item(DefinitionsItemKind::Table, "c", &[good.clone(), a.clone()]);
    assert!(!a.is_declaration());
    assert!(!b.is_declaration());
    assert!(!c.is_declaration());
    assert!(item(DefinitionsItemKind::Table, "d", &[good]).is_declaration());
}

#[test]
fn only_the_reserved_kind_is_root() {
    assert!(DefinitionsItemKind::Root.is_root());
    assert!(!DefinitionsItemKind::Type.is_root());
    assert!(!DefinitionsItemKind::Table.is_root());
    assert!(!DefinitionsItemKind::Property.is_root());
    assert!(!DefinitionsItemKind::Function.is_root());
    assert!(!DefinitionsItemKind::Description.is_root());
    assert!(!DefinitionsItemKind::Tag.is_root());
}

#[test]
fn kinds_are_equal_by_value() {
    assert_eq!(DefinitionsItemKind::Table, DefinitionsItemKind::Table);
    assert_ne!(DefinitionsItemKind::Table, DefinitionsItemKind::Type);
    let kind = DefinitionsItemKind::Function;
    let copy = kind;
    assert_eq!(kind, copy);
}
