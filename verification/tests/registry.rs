use gobject_core::diag::Errors;
use gobject_core::items::{Access, Field, FieldsKind, ImplBlock, Item, Method, Role, StructItem};
use gobject_core::members::Property;
use gobject_core::model::{TypeBase, Visibility};
use gobject_core::registry::{
    names_of_properties, property_dispatch, set_property_dispatch, InvalidPropertyId, PropertyAction,
};
use gobject_core::type_definition::{Module, TypeDefinition};

fn property(name: &str, custom_get: bool, custom_set: bool) -> Property {
    Property {
        name: name.to_string(),
        field: 0,
        ty: "u32".to_string(),
        access: Access { readable: true, writable: true, construct: false, construct_only: false },
        custom_get,
        custom_set,
    }
}

fn field(ident: &str) -> Field {
    Field {
        ident: ident.to_string(),
        annotated: true,
        explicit_name: None,
        ty: "u32".to_string(),
        access: Access { readable: true, writable: true, construct: false, construct_only: false },
        custom_get: false,
        custom_set: false,
    }
}

fn method(ident: &str, role: Role) -> Method {
    Method {
        ident: ident.to_string(),
        role,
        has_body: true,
        inherited: false,
        constructor: false,
        constructor_tokens: false,
        inline: false,
        has_receiver: true,
        has_return: false,
        args: Vec::new(),
    }
}

fn definition(base: TypeBase, fields: Vec<Field>, methods: Vec<Method>) -> TypeDefinition {
    let items = vec![
        Item::Struct(StructItem {
            ident: "Widget".to_string(),
            tagged: false,
            vis: Visibility::Public,
            generics: String::new(),
            kind: FieldsKind::Named,
            header: false,
            fields,
        }),
        Item::Impl(ImplBlock {
            self_ident: Some("Widget".to_string()),
            trait_path: None,
            tagged: false,
            wrapper_tagged: false,
            generics: String::new(),
            methods,
        }),
    ];
    let module = Module { ident: "imp".to_string(), vis: Visibility::Public, content: Some(items) };
    let mut errors = Errors::new();
    let def = TypeDefinition::parse(module, base, None, "go".to_string(), &mut errors);
    assert_eq!(errors.len(), 0);
    def
}

#[test]
fn identifiers_one_to_n_reach_the_properties_in_order() {
    let props = vec![property("a", false, false), property("b", false, true), property("c", true, false)];
    assert_eq!(set_property_dispatch(&props, 0, 1), Ok(PropertyAction::Field(0)));
    assert_eq!(set_property_dispatch(&props, 0, 2), Ok(PropertyAction::Custom(1)));
    assert_eq!(set_property_dispatch(&props, 0, 3), Ok(PropertyAction::Field(2)));
    assert_eq!(property_dispatch(&props, 0, 1), Ok(PropertyAction::Field(0)));
    assert_eq!(property_dispatch(&props, 0, 2), Ok(PropertyAction::Field(1)));
    assert_eq!(property_dispatch(&props, 0, 3), Ok(PropertyAction::Custom(2)));
}

#[test]
fn identifier_zero_and_n_plus_one_fault() {
    let props = vec![property("a", false, false), property("b", false, false)];
    assert_eq!(set_property_dispatch(&props, 0, 0), Err(InvalidPropertyId { id: 0 }));
    assert_eq!(set_property_dispatch(&props, 0, 3), Err(InvalidPropertyId { id: 3 }));
    assert_eq!(property_dispatch(&props, 0, 0), Err(InvalidPropertyId { id: 0 }));
    assert_eq!(property_dispatch(&props, 0, 3), Err(InvalidPropertyId { id: 3 }));
    assert_eq!(
        property_dispatch(&props, 0, usize::MAX),
        Err(InvalidPropertyId { id: usize::MAX })
    );
}

#[test]
fn no_properties_means_every_identifier_faults() {
    let props: Vec<Property> = Vec::new();
    assert!(set_property_dispatch(&props, 0, 0).is_err());
    assert!(set_property_dispatch(&props, 0, 1).is_err());
    assert!(property_dispatch(&props, 0, 1).is_err());
}

#[test]
fn contributed_entries_move_the_range_up() {
    let props = vec![property("a", false, false), property("b", false, false)];
    assert!(set_property_dispatch(&props, 3, 3).is_err());
    assert_eq!(set_property_dispatch(&props, 3, 4), Ok(PropertyAction::Field(0)));
    assert_eq!(set_property_dispatch(&props, 3, 5), Ok(PropertyAction::Field(1)));
    assert!(set_property_dispatch(&props, 3, 6).is_err());
    assert!(set_property_dispatch(&props, 3, 1).is_err());
    assert!(property_dispatch(&props, usize::MAX, usize::MAX).is_err());
}

#[test]
fn table_has_one_entry_per_property() {
    let props = vec![property("a", false, false), property("b", false, false), property("c", false, false)];
    assert_eq!(names_of_properties(&props), vec!["a", "b", "c"]);
    let def = definition(TypeBase::Class, vec![field("x"), field("y_z")], vec![]);
    let table = def.properties_method().expect("a table");
    assert_eq!(table.entries, vec!["x", "y-z"]);
    assert!(!table.inherits);
    assert!(table.custom.is_none());
    assert!(!table.sets_base_index);
}

#[test]
fn no_table_without_entries() {
    let def = definition(TypeBase::Class, vec![], vec![]);
    assert!(def.properties_method().is_none());
    assert!(def.signals_method().is_none());
}

#[test]
fn user_method_and_spliced_statements_come_first() {
    let mut def =
        definition(TypeBase::Class, vec![field("x")], vec![method("properties", Role::Plain)]);
    def.add_custom_stmt("properties", "first();".to_string());
    def.add_custom_stmt("properties", "second();".to_string());
    let table = def.properties_method().expect("a table");
    assert!(table.inherits);
    assert!(table.sets_base_index);
    assert_eq!(table.custom, Some(vec!["first();".to_string(), "second();".to_string()]));
    assert_eq!(table.entries, vec!["x"]);

    let iface =
        definition(TypeBase::Interface, vec![field("x")], vec![method("properties", Role::Plain)]);
    let table = iface.properties_method().expect("a table");
    assert!(table.inherits);
    assert!(!table.sets_base_index);
}

#[test]
fn a_table_of_contributed_entries_alone() {
    let def = definition(TypeBase::Class, vec![], vec![method("properties", Role::Plain)]);
    let table = def.properties_method().expect("a table");
    assert!(table.inherits);
    assert!(!table.sets_base_index);
    assert!(table.entries.is_empty());

    let mut def = definition(TypeBase::Class, vec![], vec![]);
    def.add_custom_stmt("signals", "more();".to_string());
    assert!(def.properties_method().is_none());
    let table = def.signals_method().expect("a table");
    assert_eq!(table.custom, Some(vec!["more();".to_string()]));
    assert!(table.entries.is_empty());
}

#[test]
fn signals_table_lists_signals_in_order() {
    let def = definition(
        TypeBase::Class,
        vec![],
        vec![method("b_signal", Role::Signal), method("run", Role::Virtual), method("a", Role::Signal)],
    );
    let table = def.signals_method().expect("a table");
    assert_eq!(table.entries, vec!["b-signal", "a"]);
    assert!(!table.sets_base_index);
}

#[test]
fn accessors_follow_the_access_mode() {
    let mut p = property("a", false, false);
    assert!(p.has_getter());
    assert!(p.has_setter());
    p.access.construct_only = true;
    assert!(p.has_getter());
    assert!(!p.has_setter());
    p.access.construct_only = false;
    p.access.writable = false;
    assert!(!p.has_setter());
    p.access.readable = false;
    assert!(!p.has_getter());
}
