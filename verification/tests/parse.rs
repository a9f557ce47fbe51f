use gobject_core::diag::{Diagnostic, Errors, Problem, Site};
use gobject_core::items::{Access, Field, FieldsKind, ImplBlock, Item, Method, Role, StructItem};
use gobject_core::model::{Concurrency, Path, Segment, TypeBase, Visibility};
use gobject_core::type_definition::{Module, TypeDefinition};

fn access() -> Access {
    Access { readable: true, writable: true, construct: false, construct_only: false }
}

fn field(ident: &str, annotated: bool, explicit_name: Option<&str>) -> Field {
    Field {
        ident: ident.to_string(),
        annotated,
        explicit_name: explicit_name.map(|s| s.to_string()),
        ty: "u32".to_string(),
        access: access(),
        custom_get: false,
        custom_set: false,
    }
}

fn method(ident: &str, role: Role, has_body: bool) -> Method {
    Method {
        ident: ident.to_string(),
        role,
        has_body,
        inherited: false,
        constructor: false,
        constructor_tokens: false,
        inline: false,
        has_receiver: true,
        has_return: false,
        args: Vec::new(),
    }
}

fn a_struct(ident: &str, tagged: bool, kind: FieldsKind, fields: Vec<Field>) -> Item {
    Item::Struct(StructItem {
        ident: ident.to_string(),
        tagged,
        vis: Visibility::Inherited,
        generics: "<T>".to_string(),
        kind,
        header: false,
        fields,
    })
}

fn an_impl(ty: &str, tagged: bool, wrapper_tagged: bool, methods: Vec<Method>) -> Item {
    Item::Impl(ImplBlock {
        self_ident: Some(ty.to_string()),
        trait_path: None,
        tagged,
        wrapper_tagged,
        generics: "<U>".to_string(),
        methods,
    })
}

fn marker(ty: &str, word: &str) -> Item {
    Item::Impl(ImplBlock {
        self_ident: Some(ty.to_string()),
        trait_path: Some(Path {
            leading_colon: false,
            segments: vec![Segment { ident: word.to_string(), has_args: false }],
        }),
        tagged: false,
        wrapper_tagged: false,
        generics: String::new(),
        methods: Vec::new(),
    })
}

fn module(items: Option<Vec<Item>>) -> Module {
    Module { ident: "imp".to_string(), vis: Visibility::Public, content: items }
}

fn collected(errors: Errors) -> Vec<Diagnostic> {
    errors.into_compile_errors().unwrap_or_default()
}

#[test]
fn module_without_body_is_reported_once() {
    let mut errors = Errors::new();
    let def = TypeDefinition::parse(
        module(None),
        TypeBase::Class,
        Some("Widget".to_string()),
        "go".to_string(),
        &mut errors,
    );
    assert_eq!(def.name, Some("Widget".to_string()));
    assert!(def.module.content.is_none());
    assert!(def.properties.is_empty());
    assert_eq!(def.properties_item_index, None);
    assert_eq!(def.methods_item_index, None);
    assert_eq!(
        collected(errors),
        vec![Diagnostic { site: Site::Module, problem: Problem::ModuleWithoutBody }]
    );
}

#[test]
fn empty_body_gives_an_unnamed_definition_without_errors() {
    let mut errors = Errors::new();
    let def =
        TypeDefinition::parse(module(Some(vec![])), TypeBase::Class, None, "go".to_string(), &mut errors);
    assert_eq!(def.name, None);
    assert_eq!(def.generics, None);
    assert!(matches!(def.vis, Visibility::Public));
    assert!(matches!(def.inner_vis, Visibility::Public));
    assert_eq!(errors.len(), 0);
    assert!(errors.into_compile_errors().is_none());
}

#[test]
fn properties_follow_declaration_order() {
    let items = vec![a_struct(
        "Widget",
        true,
        FieldsKind::Named,
        vec![
            field("first_value", true, None),
            field("helper", false, None),
            field("_second", true, None),
            field("third", true, Some("custom-name")),
        ],
    )];
    let mut errors = Errors::new();
    let def =
        TypeDefinition::parse(module(Some(items)), TypeBase::Class, None, "go".to_string(), &mut errors);
    let names: Vec<&str> = def.properties.iter().map(|p| p.name.as_str()).collect();
    assert_eq!(names, vec!["first-value", "second", "custom-name"]);
    let fields: Vec<usize> = def.properties.iter().map(|p| p.field).collect();
    assert_eq!(fields, vec![0, 2, 3]);
    assert_eq!(def.name, Some("Widget".to_string()));
    assert_eq!(def.generics, Some("<T>".to_string()));
    assert_eq!(def.properties_item_index, Some(0));
    assert_eq!(errors.len(), 0);
}

#[test]
fn invalid_and_duplicate_properties_are_reported_and_left_out() {
    let items = vec![
        Item::Other,
        a_struct(
            "Widget",
            false,
            FieldsKind::Named,
            vec![
                field("value", true, None),
                field("other", true, Some("9bad")),
                field("_value", true, None),
                field("fine", true, None),
                field("x", true, Some("")),
            ],
        ),
    ];
    let mut errors = Errors::new();
    let def =
        TypeDefinition::parse(module(Some(items)), TypeBase::Class, None, "go".to_string(), &mut errors);
    let names: Vec<&str> = def.properties.iter().map(|p| p.name.as_str()).collect();
    assert_eq!(names, vec!["value", "fine"]);
    assert_eq!(
        collected(errors),
        vec![
            Diagnostic { site: Site::Member { item: 1, member: 1 }, problem: Problem::InvalidName },
            Diagnostic { site: Site::Member { item: 1, member: 2 }, problem: Problem::DuplicateName },
            Diagnostic { site: Site::Member { item: 1, member: 4 }, problem: Problem::InvalidName },
        ]
    );
}

#[test]
fn extraction_consumes_annotations() {
    let items = vec![
        a_struct("Widget", true, FieldsKind::Named, vec![field("value", true, None)]),
        an_impl("Widget", true, false, vec![method("changed", Role::Signal, true)]),
    ];
    let mut errors = Errors::new();
    let def =
        TypeDefinition::parse(module(Some(items)), TypeBase::Class, None, "go".to_string(), &mut errors);
    let body = def.module.content.as_ref().unwrap();
    match &body[0] {
        Item::Struct(s) => {
            assert!(!s.tagged);
            assert!(!s.fields[0].annotated);
            assert!(!s.header);
            assert!(matches!(s.vis, Visibility::Restricted { .. }));
        }
        _ => panic!("the struct is gone"),
    }
    match &body[1] {
        Item::Impl(b) => {
            assert!(!b.tagged);
            assert_eq!(b.methods[0].role, Role::Plain);
        }
        _ => panic!("the block is gone"),
    }
    assert_eq!(def.signals.len(), 1);
    assert_eq!(def.signals[0].name, "changed");
    assert!(def.signals[0].has_default);
}

#[test]
fn interface_struct_gets_the_hidden_header() {
    let items = vec![
        a_struct("Iface", false, FieldsKind::Named, vec![]),
        a_struct("Unit", false, FieldsKind::Unit, vec![]),
    ];
    let mut errors = Errors::new();
    let def = TypeDefinition::parse(
        module(Some(items)),
        TypeBase::Interface,
        None,
        "go".to_string(),
        &mut errors,
    );
    let body = def.module.content.as_ref().unwrap();
    match &body[0] {
        Item::Struct(s) => assert!(s.header),
        _ => panic!("the struct is gone"),
    }
    match &body[1] {
        Item::Struct(s) => assert!(!s.header),
        _ => panic!("the struct is gone"),
    }

    let unit = vec![a_struct("Iface", false, FieldsKind::Unit, vec![])];
    let def = TypeDefinition::parse(
        module(Some(unit)),
        TypeBase::Interface,
        None,
        "go".to_string(),
        &mut errors,
    );
    match &def.module.content.as_ref().unwrap()[0] {
        Item::Struct(s) => assert!(!s.header),
        _ => panic!("the struct is gone"),
    }
}

#[test]
fn members_are_sorted_by_kind() {
    let items = vec![an_impl(
        "Widget",
        false,
        false,
        vec![
            method("plain", Role::Plain, true),
            method("clicked", Role::Signal, false),
            method("run", Role::Virtual, true),
            method("show_all", Role::Public, true),
            method("_value_changed", Role::Signal, true),
            method("stop", Role::Virtual, false),
        ],
    )];
    let mut errors = Errors::new();
    let def =
        TypeDefinition::parse(module(Some(items)), TypeBase::Class, None, "go".to_string(), &mut errors);
    assert_eq!(def.name, Some("Widget".to_string()));
    assert_eq!(def.generics, Some("<U>".to_string()));
    assert_eq!(def.methods_item_index, Some(0));
    let signals: Vec<(&str, usize, bool)> =
        def.signals.iter().map(|m| (m.name.as_str(), m.method, m.has_default)).collect();
    assert_eq!(signals, vec![("clicked", 1, false), ("value-changed", 4, true)]);
    let public: Vec<&str> = def.public_methods.iter().map(|m| m.name.as_str()).collect();
    assert_eq!(public, vec!["show_all"]);
    let virtuals: Vec<(&str, bool)> =
        def.virtual_methods.iter().map(|m| (m.name.as_str(), m.has_default)).collect();
    assert_eq!(virtuals, vec![("run", true), ("stop", false)]);
    assert_eq!(errors.len(), 0);
}

#[test]
fn duplicate_members_are_reported_per_kind() {
    let items = vec![an_impl(
        "Widget",
        false,
        false,
        vec![
            method("run", Role::Virtual, true),
            method("run", Role::Public, true),
            method("run", Role::Virtual, false),
            method("r\u{fc}n", Role::Public, false),
        ],
    )];
    let mut errors = Errors::new();
    let def =
        TypeDefinition::parse(module(Some(items)), TypeBase::Class, None, "go".to_string(), &mut errors);
    assert_eq!(def.virtual_methods.len(), 1);
    assert_eq!(def.public_methods.len(), 1);
    assert_eq!(
        collected(errors),
        vec![
            Diagnostic { site: Site::Member { item: 0, member: 3 }, problem: Problem::InvalidName },
            Diagnostic { site: Site::Member { item: 0, member: 2 }, problem: Problem::DuplicateName },
        ]
    );
}

#[test]
fn parse_detects_thread_safety() {
    let items = vec![
        a_struct("Widget", false, FieldsKind::Named, vec![]),
        marker("Widget", "Send"),
        marker("Widget", "Sync"),
    ];
    let mut errors = Errors::new();
    let def =
        TypeDefinition::parse(module(Some(items)), TypeBase::Class, None, "go".to_string(), &mut errors);
    assert_eq!(def.concurrency, Concurrency::SendSync);

    let items = vec![a_struct("Widget", false, FieldsKind::Named, vec![]), marker("Widget", "Send")];
    let def =
        TypeDefinition::parse(module(Some(items)), TypeBase::Class, None, "go".to_string(), &mut errors);
    assert_eq!(def.concurrency, Concurrency::Unset);

    let items = vec![marker("Widget", "Send"), marker("Widget", "Sync")];
    let def = TypeDefinition::parse(
        module(Some(items)),
        TypeBase::Class,
        Some("Widget".to_string()),
        "go".to_string(),
        &mut errors,
    );
    assert_eq!(def.concurrency, Concurrency::Unset);
}

#[test]
fn interfaces_are_elevated_like_classes() {
    let items = vec![
        a_struct("Iface", false, FieldsKind::Named, vec![]),
        marker("Iface", "Sync"),
        marker("Iface", "Send"),
    ];
    let mut errors = Errors::new();
    let def = TypeDefinition::parse(
        module(Some(items)),
        TypeBase::Interface,
        None,
        "go".to_string(),
        &mut errors,
    );
    assert_eq!(def.concurrency, Concurrency::SendSync);

    let items = vec![a_struct("Iface", false, FieldsKind::Named, vec![]), marker("Iface", "Sync")];
    let def = TypeDefinition::parse(
        module(Some(items)),
        TypeBase::Interface,
        None,
        "go".to_string(),
        &mut errors,
    );
    assert_eq!(def.concurrency, Concurrency::Unset);
}

#[test]
fn wrapper_methods_are_recorded_and_constructors_checked() {
    let mut good = method("new", Role::Plain, false);
    good.constructor = true;
    good.has_receiver = false;
    good.has_return = true;
    good.args = vec![Some("my_value".to_string())];
    let mut bad = method("broken", Role::Plain, true);
    bad.constructor = true;
    bad.constructor_tokens = true;
    bad.has_receiver = true;
    bad.has_return = false;
    bad.args = vec![None, Some("ok".to_string()), None];
    let items = vec![
        a_struct("Widget", false, FieldsKind::Named, vec![]),
        an_impl("Widget", false, true, vec![good, method("helper", Role::Plain, true), bad]),
    ];
    let mut errors = Errors::new();
    let def =
        TypeDefinition::parse(module(Some(items)), TypeBase::Class, None, "go".to_string(), &mut errors);
    assert_eq!(def.wrapper_methods, vec!["new", "helper", "broken"]);
    let site = Site::Member { item: 1, member: 2 };
    assert_eq!(
        collected(errors),
        vec![
            Diagnostic { site, problem: Problem::ConstructorTokens },
            Diagnostic { site, problem: Problem::ConstructorReceiver },
            Diagnostic { site, problem: Problem::ConstructorReturn },
            Diagnostic { site, problem: Problem::ConstructorArgument },
            Diagnostic { site, problem: Problem::ConstructorArgument },
        ]
    );
    match &def.module.content.as_ref().unwrap()[1] {
        Item::Impl(b) => {
            assert!(!b.wrapper_tagged);
            assert!(!b.methods[0].constructor);
            assert!(b.methods[0].inline);
            assert!(b.methods[0].has_body);
            assert!(!b.methods[1].inline);
            assert!(!b.methods[2].constructor);
            assert!(!b.methods[2].inline);
        }
        _ => panic!("the block is gone"),
    }
}

#[test]
fn constructors_of_interfaces_are_left_alone() {
    let mut ctor = method("new", Role::Plain, false);
    ctor.constructor = true;
    let items = vec![an_impl("Iface", false, true, vec![ctor])];
    let mut errors = Errors::new();
    let def = TypeDefinition::parse(
        module(Some(items)),
        TypeBase::Interface,
        None,
        "go".to_string(),
        &mut errors,
    );
    assert_eq!(def.wrapper_methods, vec!["new"]);
    assert_eq!(errors.len(), 0);
    match &def.module.content.as_ref().unwrap()[0] {
        Item::Impl(b) => {
            assert!(b.methods[0].constructor);
            assert!(!b.methods[0].has_body);
        }
        _ => panic!("the block is gone"),
    }
}

#[test]
fn parsing_twice_gives_the_same_definition() {
    let make = || {
        vec![
            a_struct("Widget", true, FieldsKind::Named, vec![field("value", true, None)]),
            an_impl("Widget", true, false, vec![method("run", Role::Virtual, true)]),
        ]
    };
    let mut e1 = Errors::new();
    let mut e2 = Errors::new();
    let a = TypeDefinition::parse(module(Some(make())), TypeBase::Class, None, "go".to_string(), &mut e1);
    let b = TypeDefinition::parse(module(Some(make())), TypeBase::Class, None, "go".to_string(), &mut e2);
    assert_eq!(format!("{:?}", a), format!("{:?}", b));
}
