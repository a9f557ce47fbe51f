use gobject_core::derive::derived_class_properties;
use gobject_core::diag::{Diagnostic, Errors, Problem, Site};
use gobject_core::items::{Access, Field, FieldsKind, ImplBlock, Item, Method, Role, StructItem};
use gobject_core::lookup::Input;
use gobject_core::model::TypeContext::{External, Internal};
use gobject_core::model::TypeMode::{Subclass, Wrapper};
use gobject_core::model::{TypeBase, TypeContext, TypeMode, Visibility};
use gobject_core::type_definition::{Module, TypeDefinition};
use gobject_core::wrapper::{constructor_arguments, fill_in_constructor};

fn method(ident: &str, has_body: bool) -> Method {
    Method {
        ident: ident.to_string(),
        role: Role::Plain,
        has_body,
        inherited: false,
        constructor: false,
        constructor_tokens: false,
        inline: false,
        has_receiver: true,
        has_return: false,
        args: Vec::new(),
    }
}

fn field(ident: &str, annotated: bool) -> Field {
    Field {
        ident: ident.to_string(),
        annotated,
        explicit_name: None,
        ty: "u32".to_string(),
        access: Access { readable: true, writable: false, construct: false, construct_only: false },
        custom_get: false,
        custom_set: false,
    }
}

fn a_struct(fields: Vec<Field>) -> StructItem {
    StructItem {
        ident: "Widget".to_string(),
        tagged: false,
        vis: Visibility::Public,
        generics: "<T>".to_string(),
        kind: FieldsKind::Named,
        header: false,
        fields,
    }
}

fn definition(base: TypeBase, named: bool, methods: Vec<Method>) -> TypeDefinition {
    let mut items = Vec::new();
    if named {
        items.push(Item::Other);
        items.push(Item::Struct(a_struct(vec![])));
        items.push(Item::Impl(ImplBlock {
            self_ident: Some("Widget".to_string()),
            trait_path: None,
            tagged: false,
            wrapper_tagged: false,
            generics: String::new(),
            methods,
        }));
    }
    let module = Module { ident: "imp".to_string(), vis: Visibility::Public, content: Some(items) };
    let mut errors = Errors::new();
    TypeDefinition::parse(module, base, None, "go".to_string(), &mut errors)
}

#[test]
fn type_expressions_of_a_class() {
    let def = definition(TypeBase::Class, true, vec![]);
    assert_eq!(def.glib(), "go::glib");
    assert_eq!(def.type_(Subclass, Subclass, Internal), Some("Self".to_string()));
    assert_eq!(def.type_(Wrapper, Wrapper, External), Some("Widget<T>".to_string()));
    assert_eq!(
        def.type_(Subclass, Wrapper, External),
        Some("<Widget<T> as go::glib::subclass::types::ObjectSubclass>::Type".to_string())
    );
    assert_eq!(
        def.type_(Subclass, Wrapper, Internal),
        Some("<Self as go::glib::subclass::types::ObjectSubclass>::Type".to_string())
    );
    assert_eq!(
        def.type_(Wrapper, Subclass, External),
        Some("<Widget<T> as go::glib::object::ObjectSubclassIs>::Subclass".to_string())
    );
    assert_eq!(
        def.method_path("properties", Subclass),
        Some("<Widget<T> as go::glib::subclass::object::ObjectImpl>::properties".to_string())
    );
}

#[test]
fn type_expressions_of_an_interface() {
    let def = definition(TypeBase::Interface, true, vec![]);
    assert_eq!(def.type_(Subclass, Wrapper, Internal), Some("super::Widget<T>".to_string()));
    assert_eq!(def.type_(Subclass, Wrapper, External), Some("super::Widget<T>".to_string()));
    assert_eq!(
        def.type_(Wrapper, Subclass, Internal),
        Some("<Self as go::glib::object::ObjectType>::GlibClassType".to_string())
    );
    assert_eq!(
        def.method_path("signals", Subclass),
        Some("<Widget<T> as go::glib::subclass::prelude::ObjectInterface>::signals".to_string())
    );
}

#[test]
fn unnamed_type_has_no_type_expression() {
    let def = definition(TypeBase::Class, false, vec![]);
    assert_eq!(def.type_(TypeMode::Subclass, TypeMode::Subclass, TypeContext::Internal), None);
    assert_eq!(def.method_path("properties", TypeMode::Subclass), None);
    assert!(def.type_struct_fields().is_empty());
    assert!(def.child_type_init_body().is_none());
    assert!(def.default_vtable_assignments().is_none());
    assert!(def.properties_item().is_none());
    assert!(def.methods_item().is_none());
}

#[test]
fn defining_items_are_found() {
    let mut def = definition(TypeBase::Class, true, vec![method("dispose", true)]);
    assert_eq!(def.properties_item().map(|s| s.ident.clone()), Some("Widget".to_string()));
    assert_eq!(def.methods_item().map(|b| b.methods.len()), Some(1));
    assert!(def.has_method("dispose"));
    assert!(!def.has_method("constructed"));
    assert_eq!(def.find_method("dispose").map(|m| m.has_body), Some(true));
    assert!(def.find_method("other").is_none());
    def.properties_item_mut().expect("the struct").generics = "<X>".to_string();
    assert_eq!(def.properties_item().map(|s| s.generics.clone()), Some("<X>".to_string()));
    def.methods_item_mut().expect("the block").methods.push(method("constructed", false));
    assert!(def.has_method("constructed"));
    def.properties_item_index = Some(0);
    assert!(def.properties_item().is_none());
    assert!(def.properties_item_mut().is_none());
    def.methods_item_index = Some(17);
    assert!(def.methods_item().is_none());
    assert!(def.methods_item_mut().is_none());
    assert!(!def.has_method("dispose"));
}

#[test]
fn first_method_with_the_name_is_found() {
    let def = definition(TypeBase::Class, true, vec![method("a", false), method("a", true)]);
    assert_eq!(def.find_method("a").map(|m| m.has_body), Some(false));
}

#[test]
fn ensure_items_gives_a_body() {
    let module = Module { ident: "imp".to_string(), vis: Visibility::Public, content: None };
    let mut errors = Errors::new();
    let mut def = TypeDefinition::parse(module, TypeBase::Class, None, "go".to_string(), &mut errors);
    assert!(def.module.content.is_none());
    assert!(def.ensure_items().is_empty());
    def.ensure_items().push(Item::Other);
    assert_eq!(def.module.content.as_ref().map(|v| v.len()), Some(1));
    assert_eq!(def.ensure_items().len(), 1);
}

#[test]
fn method_wrapper_calls_the_user_method_after_the_statements() {
    let mut def = definition(TypeBase::Class, true, vec![method("dispose", true)]);
    let inputs = vec![Input::Receiver, Input::Ident("obj".to_string())];
    let w = def.method_wrapper("dispose", &inputs).expect("a wrapper");
    assert_eq!(w.custom, None);
    assert_eq!(w.call, Some(vec!["self".to_string(), "obj".to_string()]));
    assert!(def.method_wrapper("constructed", &inputs).is_none());
    def.add_custom_stmt("constructed", "init();".to_string());
    let w = def.method_wrapper("constructed", &vec![Input::Pattern]).expect("a wrapper");
    assert_eq!(w.custom, Some(vec!["init();".to_string()]));
    assert_eq!(w.call, None);
    def.add_custom_stmt("dispose", "bye();".to_string());
    let w = def.method_wrapper("dispose", &inputs).expect("a wrapper");
    assert_eq!(w.custom, Some(vec!["bye();".to_string()]));
    assert_eq!(w.call, Some(vec!["self".to_string(), "obj".to_string()]));
    assert!(def.has_custom_stmts("dispose"));
    assert!(!def.has_custom_stmts("property"));
    assert_eq!(def.custom_stmts_for("dispose"), Some(vec!["bye();".to_string()]));
}

#[test]
fn constructor_arguments_go_by_kebab_name() {
    let mut ctor = method("new", false);
    ctor.args = vec![Some("my_value".to_string()), None, Some("label".to_string())];
    assert_eq!(
        constructor_arguments(&ctor),
        vec![
            ("my-value".to_string(), "my_value".to_string()),
            ("label".to_string(), "label".to_string())
        ]
    );
}

#[test]
fn empty_constructor_is_filled_in() {
    let mut ctor = method("new", false);
    ctor.has_receiver = false;
    ctor.has_return = true;
    ctor.args = vec![Some("my_value".to_string()), Some("label".to_string())];
    let pairs = fill_in_constructor(&mut ctor);
    assert_eq!(
        pairs,
        Some(vec![
            ("my-value".to_string(), "my_value".to_string()),
            ("label".to_string(), "label".to_string())
        ])
    );
    assert!(ctor.inline);
    assert!(ctor.has_body);
    assert_eq!(ctor.ident, "new");
    assert_eq!(ctor.args, vec![Some("my_value".to_string()), Some("label".to_string())]);
    assert!(!ctor.has_receiver);
    assert!(ctor.has_return);
    // A second call finds a body and leaves it.
    assert_eq!(fill_in_constructor(&mut ctor), None);
    assert!(ctor.inline);
}

#[test]
fn constructor_with_statements_is_left_alone() {
    let mut ctor = method("new", true);
    ctor.args = vec![Some("x".to_string())];
    assert_eq!(fill_in_constructor(&mut ctor), None);
    assert!(!ctor.inline);
    assert!(ctor.has_body);
    assert_eq!(ctor.args, vec![Some("x".to_string())]);
}

#[test]
fn empty_constructor_without_arguments_gets_an_empty_list() {
    let mut ctor = method("new", false);
    assert_eq!(fill_in_constructor(&mut ctor), Some(Vec::new()));
    assert!(ctor.inline);
    assert!(ctor.has_body);
}

#[test]
fn roles_and_access_follow_the_annotations() {
    assert_eq!(Role::from_annotations(false, false, false), Role::Plain);
    assert_eq!(Role::from_annotations(true, true, true), Role::Signal);
    assert_eq!(Role::from_annotations(false, true, true), Role::Public);
    assert_eq!(Role::from_annotations(false, false, true), Role::Virtual);
    let both = Access::from_flags(false, false, false, false);
    assert!(both.readable && both.writable && !both.construct && !both.construct_only);
    let read = Access::from_flags(true, false, true, false);
    assert!(read.readable && !read.writable && read.construct);
    let write = Access::from_flags(false, true, false, true);
    assert!(!write.readable && write.writable && write.construct_only);
    let all = Access::from_flags(true, true, false, false);
    assert!(all.readable && all.writable);
}

#[test]
fn derived_properties_of_a_struct() {
    let input = a_struct(vec![field("first", true), field("skipped", false), field("_second_one", true)]);
    let mut errors = Errors::new();
    let d = derived_class_properties(&input, None, "go", &mut errors);
    assert_eq!(errors.len(), 0);
    assert_eq!(d.ty, "Widget<T>");
    assert_eq!(d.wrapper_ty, "<Widget<T> as go::glib::subclass::types::ObjectSubclass>::Type");
    assert_eq!(d.properties_path, "Widget<T>::derived_properties");
    assert_eq!(d.trait_name, Some("WidgetPropertiesExt".to_string()));
    assert_eq!(d.final_type, None);
    assert_eq!(d.table, vec!["first", "second-one"]);
    assert_eq!(d.properties.len(), 2);
    assert_eq!(d.properties[1].field, 2);
}

#[test]
fn derived_properties_with_a_final_type() {
    let input = a_struct(vec![field("a", true), field("a", true)]);
    let mut errors = Errors::new();
    let d = derived_class_properties(&input, Some("super::Widget".to_string()), "go", &mut errors);
    assert_eq!(d.trait_name, None);
    assert_eq!(d.final_type, Some("super::Widget".to_string()));
    assert_eq!(d.table, vec!["a"]);
    assert_eq!(
        errors.into_compile_errors(),
        Some(vec![Diagnostic {
            site: Site::Member { item: 0, member: 1 },
            problem: Problem::DuplicateName
        }])
    );
}
