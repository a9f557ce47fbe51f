use gobject_core::items::{FieldsKind, ImplBlock, Item, StructItem};
use gobject_core::model::Visibility;
use gobject_core::resolve::{find_first, select, Pick};

fn a_struct(ident: &str, tagged: bool) -> Item {
    Item::Struct(StructItem {
        ident: ident.to_string(),
        tagged,
        vis: Visibility::Inherited,
        generics: String::new(),
        kind: FieldsKind::Named,
        header: false,
        fields: Vec::new(),
    })
}

fn an_impl(self_ident: Option<&str>, tagged: bool) -> Item {
    Item::Impl(ImplBlock {
        self_ident: self_ident.map(|s| s.to_string()),
        trait_path: None,
        tagged,
        wrapper_tagged: false,
        generics: String::new(),
        methods: Vec::new(),
    })
}

#[test]
fn single_struct_gives_the_name() {
    let items = vec![Item::Other, a_struct("Widget", false), Item::Other];
    let sel = select(&items, None);
    assert_eq!(sel.struct_index, Some(1));
    assert_eq!(sel.impl_index, None);
    assert_eq!(sel.name, Some("Widget".to_string()));
}

#[test]
fn tagged_struct_wins_over_first_struct() {
    let items = vec![a_struct("Helper", false), a_struct("Widget", true)];
    let sel = select(&items, None);
    assert_eq!(sel.struct_index, Some(1));
    assert_eq!(sel.name, Some("Widget".to_string()));
}

#[test]
fn first_of_two_tagged_structs_wins() {
    let items = vec![a_struct("A", false), a_struct("B", true), a_struct("C", true)];
    let sel = select(&items, None);
    assert_eq!(sel.struct_index, Some(1));
    assert_eq!(sel.name, Some("B".to_string()));
}

#[test]
fn explicit_name_selects_matching_struct() {
    let items = vec![a_struct("A", true), a_struct("B", false), a_struct("B", true)];
    let sel = select(&items, Some("B".to_string()));
    assert_eq!(sel.struct_index, Some(1));
    assert_eq!(sel.name, Some("B".to_string()));
}

#[test]
fn explicit_name_without_struct_is_kept() {
    let items = vec![a_struct("A", true), an_impl(Some("B"), false)];
    let sel = select(&items, Some("B".to_string()));
    assert_eq!(sel.struct_index, None);
    assert_eq!(sel.impl_index, Some(1));
    assert_eq!(sel.name, Some("B".to_string()));
}

#[test]
fn impl_for_the_name_is_selected() {
    let items = vec![
        an_impl(Some("Other"), true),
        a_struct("Widget", false),
        an_impl(Some("Widget"), false),
    ];
    let sel = select(&items, None);
    assert_eq!(sel.struct_index, Some(1));
    assert_eq!(sel.impl_index, Some(2));
}

#[test]
fn tagged_impl_is_preferred_for_a_known_name() {
    let items = vec![
        a_struct("Widget", false),
        an_impl(Some("Widget"), false),
        an_impl(Some("Widget"), true),
    ];
    let sel = select(&items, None);
    assert_eq!(sel.impl_index, Some(2));
}

#[test]
fn name_is_taken_from_tagged_impl_without_struct() {
    let items = vec![an_impl(Some("First"), false), an_impl(Some("Second"), true)];
    let sel = select(&items, None);
    assert_eq!(sel.struct_index, None);
    assert_eq!(sel.impl_index, Some(1));
    assert_eq!(sel.name, Some("Second".to_string()));
}

#[test]
fn name_is_taken_from_first_impl_when_none_is_tagged() {
    let items = vec![Item::Other, an_impl(Some("First"), false), an_impl(Some("Second"), false)];
    let sel = select(&items, None);
    assert_eq!(sel.impl_index, Some(1));
    assert_eq!(sel.name, Some("First".to_string()));
}

#[test]
fn trait_impls_are_never_selected() {
    let mut block = match an_impl(Some("Widget"), true) {
        Item::Impl(b) => b,
        _ => unreachable!(),
    };
    block.trait_path = Some(gobject_core::model::Path {
        leading_colon: false,
        segments: vec![gobject_core::model::Segment { ident: "Clone".to_string(), has_args: false }],
    });
    let items = vec![Item::Impl(block)];
    let sel = select(&items, None);
    assert_eq!(sel.impl_index, None);
    assert_eq!(sel.name, None);
}

#[test]
fn empty_body_resolves_nothing() {
    let items: Vec<Item> = Vec::new();
    let sel = select(&items, None);
    assert_eq!(sel.struct_index, None);
    assert_eq!(sel.impl_index, None);
    assert_eq!(sel.name, None);
}

#[test]
fn find_first_goes_by_declaration_order() {
    let items = vec![an_impl(Some("A"), false), a_struct("A", false), a_struct("A", true)];
    assert_eq!(find_first(&items, &Pick::AnyStruct), Some(1));
    assert_eq!(find_first(&items, &Pick::TaggedStruct), Some(2));
    assert_eq!(find_first(&items, &Pick::StructNamed("B".to_string())), None);
    assert_eq!(find_first(&items, &Pick::ImplFor("A".to_string())), Some(0));
    assert_eq!(find_first(&items, &Pick::TaggedInherent), None);
}
