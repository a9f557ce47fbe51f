use gobject_core::class::{ClassDefinition, ClassOptions};
use gobject_core::diag::{Diagnostic, Errors, Problem, Site};
use gobject_core::emit::{ApiEntry, MemberKind};
use gobject_core::items::{Access, Field, FieldsKind, ImplBlock, Item, Method, Role, StructItem};
use gobject_core::model::{TypeBase, Visibility};
use gobject_core::type_definition::{Module, TypeDefinition};
use gobject_core::vtable::Slot;

fn field(ident: &str) -> Field {
    Field {
        ident: ident.to_string(),
        annotated: true,
        explicit_name: None,
        ty: "u32".to_string(),
        access: Access { readable: true, writable: true, construct: false, construct_only: false },
        custom_get: false,
        custom_set: false,
    }
}

fn method(ident: &str, role: Role, has_body: bool) -> Method {
    Method {
        ident: ident.to_string(),
        role,
        has_body,
        inherited: false,
        constructor: false,
        constructor_tokens: false,
        inline: false,
        has_receiver: true,
        has_return: false,
        args: Vec::new(),
    }
}

fn definition(struct_name: Option<&str>, fields: Vec<Field>, methods: Vec<Method>) -> TypeDefinition {
    let mut items = Vec::new();
    if let Some(n) = struct_name {
        items.push(Item::Struct(StructItem {
            ident: n.to_string(),
            tagged: false,
            vis: Visibility::Public,
            generics: String::new(),
            kind: FieldsKind::Named,
            header: false,
            fields,
        }));
        items.push(Item::Impl(ImplBlock {
            self_ident: Some(n.to_string()),
            trait_path: None,
            tagged: false,
            wrapper_tagged: false,
            generics: String::new(),
            methods,
        }));
    }
    let module = Module { ident: "imp".to_string(), vis: Visibility::Public, content: Some(items) };
    let mut errors = Errors::new();
    TypeDefinition::parse(module, TypeBase::Class, None, "go".to_string(), &mut errors)
}

fn class(def: TypeDefinition, opts: ClassOptions) -> (ClassDefinition, Vec<Diagnostic>) {
    let mut errors = Errors::new();
    let class = ClassDefinition::from_type(def, opts, "go".to_string(), &mut errors);
    (class, errors.into_compile_errors().unwrap_or_default())
}

#[test]
fn abstract_and_final_give_exactly_one_error() {
    let mut opts = ClassOptions::new();
    opts.abstract_ = true;
    opts.final_ = true;
    let (_, errors) = class(definition(Some("Widget"), vec![], vec![]), opts);
    assert_eq!(
        errors,
        vec![Diagnostic { site: Site::Options, problem: Problem::ConflictingModifiers }]
    );
}

#[test]
fn one_modifier_alone_is_fine() {
    let mut opts = ClassOptions::new();
    opts.abstract_ = true;
    let (c, errors) = class(definition(Some("Widget"), vec![], vec![]), opts);
    assert!(errors.is_empty());
    assert!(c.abstract_);
    assert!(!c.final_);
    let mut opts = ClassOptions::new();
    opts.final_ = true;
    let (_, errors) = class(definition(Some("Widget"), vec![], vec![]), opts);
    assert!(errors.is_empty());
}

#[test]
fn missing_name_is_reported_and_does_not_hide_the_conflict() {
    let mut opts = ClassOptions::new();
    opts.abstract_ = true;
    opts.final_ = true;
    let (c, errors) = class(definition(None, vec![], vec![]), opts);
    assert_eq!(
        errors,
        vec![
            Diagnostic { site: Site::Options, problem: Problem::MissingName },
            Diagnostic { site: Site::Options, problem: Problem::ConflictingModifiers },
        ]
    );
    assert!(c.object_subclass_impl().is_none());
    assert!(c.object_impl_impl().is_none());
    assert!(c.wrapper().is_none());
    assert!(c.ext_trait().is_none());
    let out = c.to_tokens();
    assert!(out.wrapper.is_none());
    assert!(out.public_methods.is_none());
    assert!(out.subclassable.is_none());
    assert!(out.virtual_traits.is_none());
}

#[test]
fn name_from_options_overrides_the_module() {
    let mut opts = ClassOptions::new();
    opts.name = Some("Renamed".to_string());
    let (c, errors) = class(definition(Some("Widget"), vec![], vec![]), opts);
    assert!(errors.is_empty());
    assert_eq!(c.inner.name, Some("Renamed".to_string()));
    let mut opts = ClassOptions::new();
    opts.name = Some("Given".to_string());
    let (c, errors) = class(definition(None, vec![], vec![]), opts);
    assert!(errors.is_empty());
    assert_eq!(c.inner.name, Some("Given".to_string()));
}

#[test]
fn registered_name_is_namespace_then_name_in_upper_camel_case() {
    let mut opts = ClassOptions::new();
    opts.ns = Some("my".to_string());
    let (c, _) = class(definition(Some("Foo"), vec![], vec![]), opts);
    assert_eq!(c.gtype_name(), Some("myFoo".to_string()));
    let mut opts = ClassOptions::new();
    opts.ns = Some("my_app".to_string());
    let (c, _) = class(definition(Some("fancy_widget"), vec![], vec![]), opts);
    assert_eq!(c.gtype_name(), Some("my_appFancyWidget".to_string()));
    let mut opts = ClassOptions::new();
    opts.ns = Some("Gtk".to_string());
    let (c, _) = class(definition(Some("Button"), vec![], vec![]), opts);
    assert_eq!(c.gtype_name(), Some("GtkButton".to_string()));
    let (c, _) = class(definition(Some("Widget"), vec![], vec![]), ClassOptions::new());
    assert_eq!(c.gtype_name(), Some("Widget".to_string()));
    let (c, _) = class(definition(Some("http_server"), vec![], vec![]), ClassOptions::new());
    assert_eq!(c.gtype_name(), Some("HttpServer".to_string()));
}

#[test]
fn parent_type_is_first_ancestor_or_root() {
    let (c, _) = class(definition(Some("Widget"), vec![], vec![]), ClassOptions::new());
    assert_eq!(c.parent_type(), "go::glib::Object");
    let mut opts = ClassOptions::new();
    opts.extends = vec!["gtk::Button".to_string(), "gtk::Widget".to_string()];
    let (c, _) = class(definition(Some("Widget"), vec![], vec![]), opts);
    assert_eq!(c.parent_type(), "gtk::Button");
}

#[test]
fn wrapper_lists_ancestors_and_interfaces() {
    let mut opts = ClassOptions::new();
    opts.extends = vec!["A".to_string(), "B".to_string()];
    opts.implements = vec!["I".to_string()];
    let (c, _) = class(definition(Some("Widget"), vec![], vec![]), opts);
    assert_eq!(
        c.wrapper(),
        Some(vec![
            "@extends".to_string(),
            "A".to_string(),
            "B".to_string(),
            "@implements".to_string(),
            "I".to_string()
        ])
    );
    let (c, _) = class(definition(Some("Widget"), vec![], vec![]), ClassOptions::new());
    assert_eq!(c.wrapper(), Some(Vec::new()));
    let mut opts = ClassOptions::new();
    opts.implements = vec!["I".to_string()];
    let (c, _) = class(definition(Some("Widget"), vec![], vec![]), opts);
    assert_eq!(c.wrapper(), Some(vec!["@implements".to_string(), "I".to_string()]));
    let mut opts = ClassOptions::new();
    opts.wrapper = Some(false);
    let (c, _) = class(definition(Some("Widget"), vec![], vec![]), opts);
    assert_eq!(c.wrapper(), None);
}

#[test]
fn extension_trait_is_suppressed_for_final_classes() {
    let (c, _) = class(definition(Some("Widget"), vec![], vec![]), ClassOptions::new());
    assert_eq!(c.ext_trait(), Some("WidgetExt".to_string()));
    let mut opts = ClassOptions::new();
    opts.ext_trait = Some("WidgetApi".to_string());
    let (c, _) = class(definition(Some("Widget"), vec![], vec![]), opts);
    assert_eq!(c.ext_trait(), Some("WidgetApi".to_string()));
    let mut opts = ClassOptions::new();
    opts.final_ = true;
    opts.ext_trait = Some("WidgetApi".to_string());
    let (c, _) = class(definition(Some("Widget"), vec![field("x")], vec![]), opts);
    assert_eq!(c.ext_trait(), None);
    let api = c.to_tokens().public_methods.expect("an API");
    assert_eq!(api.trait_name, None);
}

#[test]
fn public_api_covers_members_by_kind_in_order() {
    let def = definition(
        Some("Widget"),
        vec![field("x"), field("y")],
        vec![
            method("run", Role::Virtual, true),
            method("clicked", Role::Signal, false),
            method("show", Role::Public, true),
        ],
    );
    let (c, _) = class(def, ClassOptions::new());
    let api = c.to_tokens().public_methods.expect("an API");
    assert_eq!(api.trait_name, Some("WidgetExt".to_string()));
    assert_eq!(
        api.entries,
        vec![
            ApiEntry { kind: MemberKind::Property, index: 0 },
            ApiEntry { kind: MemberKind::Property, index: 1 },
            ApiEntry { kind: MemberKind::Signal, index: 0 },
            ApiEntry { kind: MemberKind::PublicMethod, index: 0 },
            ApiEntry { kind: MemberKind::VirtualMethod, index: 0 },
        ]
    );
}

#[test]
fn no_public_api_without_members() {
    let (c, _) = class(definition(Some("Widget"), vec![], vec![]), ClassOptions::new());
    assert!(c.to_tokens().public_methods.is_none());
}

#[test]
fn subclassable_only_with_virtual_methods() {
    let (c, _) = class(
        definition(Some("Widget"), vec![field("x")], vec![method("show", Role::Public, true)]),
        ClassOptions::new(),
    );
    assert!(c.is_subclassable_impl().is_none());
    assert!(c.class_struct_definition().is_none());
    let (c, _) = class(
        definition(
            Some("Widget"),
            vec![],
            vec![method("run", Role::Virtual, true), method("stop", Role::Virtual, false)],
        ),
        ClassOptions::new(),
    );
    let s = c.is_subclassable_impl().expect("subclassable");
    assert_eq!(s.trait_name, "WidgetImpl");
    assert_eq!(s.methods, vec!["run", "stop"]);
    let cs = c.class_struct_definition().expect("a class struct");
    assert_eq!(cs.class_name, "WidgetClass");
    assert_eq!(cs.parent_type, "go::glib::Object");
    assert_eq!(cs.fields, vec!["run", "stop"]);
    let init = c.class_init_method().expect("a class init hook");
    let body = init.body.expect("a body");
    assert_eq!(body.set_vtable, Some(vec![Slot::Default, Slot::Stub]));
    assert!(body.overrides.is_empty());
    assert!(!body.deref_class);
    let traits = c.to_tokens().virtual_traits.expect("traits");
    assert_eq!(traits.trait_name, "WidgetImpl");
    assert_eq!(traits.ext_trait_name, "WidgetImplExt");
    assert_eq!(traits.parent_trait, "go::glib::subclass::object::ObjectImpl");
    assert!(traits.with_parent_accessors);
}

#[test]
fn registration_descriptor_holds_the_hierarchy() {
    let mut opts = ClassOptions::new();
    opts.abstract_ = true;
    opts.ns = Some("App".to_string());
    opts.extends = vec!["Base".to_string()];
    opts.implements = vec!["I1".to_string(), "I2".to_string()];
    let (mut c, _) =
        class(definition(Some("Widget"), vec![], vec![method("run", Role::Virtual, true)]), opts);
    c.extra_instance_init_stmts.push("setup();".to_string());
    let d = c.object_subclass_impl().expect("a descriptor");
    assert_eq!(d.gtype_name, "AppWidget");
    assert!(d.abstract_);
    assert_eq!(d.parent_type, "Base");
    assert_eq!(d.interfaces, vec!["I1", "I2"]);
    assert_eq!(d.class_struct, Some("WidgetClass".to_string()));
    assert!(d.class_init.is_some());
    assert_eq!(d.instance_init, Some(vec!["setup();".to_string()]));
}

#[test]
fn hooks_are_left_out_when_empty() {
    let (mut c, _) = class(definition(Some("Widget"), vec![], vec![]), ClassOptions::new());
    assert!(c.class_init_method().is_none());
    assert!(c.instance_init_method().is_none());
    c.extra_class_init_stmts.push("hello();".to_string());
    let init = c.class_init_method().expect("a hook");
    assert!(init.body.is_none());
    assert_eq!(init.extra, vec!["hello();"]);
}

#[test]
fn inherited_signals_replace_class_handlers() {
    let mut overriding = method("clicked", Role::Signal, true);
    overriding.inherited = true;
    let def = definition(Some("Widget"), vec![], vec![method("own", Role::Signal, true), overriding]);
    let (c, _) = class(def, ClassOptions::new());
    let init = c.inner.type_init_body().expect("a body");
    assert_eq!(init.set_vtable, None);
    assert_eq!(init.overrides, vec![1]);
    assert!(init.deref_class);
    let private = c.inner.extra_private_items();
    assert_eq!(private.signal_cells, vec!["own", "clicked"]);
    assert_eq!(private.chains, vec![0, 1]);
}

#[test]
fn property_dispatch_is_generated_only_with_properties() {
    let (c, _) = class(definition(Some("Widget"), vec![], vec![]), ClassOptions::new());
    assert!(c.set_property_method().is_none());
    assert!(c.property_method().is_none());
    let (c, _) = class(definition(Some("Widget"), vec![field("a"), field("b")], vec![]), ClassOptions::new());
    let d = c.set_property_method().expect("dispatch");
    assert_eq!(d.count, 2);
    assert!(!d.from_base_index);
    assert_eq!(
        d.properties_path,
        "<Widget as go::glib::subclass::object::ObjectImpl>::properties"
    );
    let o = c.object_impl_impl().expect("an object implementation");
    assert_eq!(o.properties.expect("a table").entries, vec!["a", "b"]);
    assert!(o.signals.is_none());
    assert!(o.dispatch.is_some());
}

#[test]
fn emission_is_repeatable() {
    let make = || {
        let mut opts = ClassOptions::new();
        opts.extends = vec!["Base".to_string()];
        class(
            definition(
                Some("Widget"),
                vec![field("x")],
                vec![method("run", Role::Virtual, true), method("hit", Role::Signal, true)],
            ),
            opts,
        )
        .0
    };
    let a = make();
    let first = format!("{:?}", a.to_tokens());
    let again = format!("{:?}", a.to_tokens());
    let other = format!("{:?}", make().to_tokens());
    assert_eq!(first, again);
    assert_eq!(first, other);
    assert_eq!(
        format!("{:?}", a.object_subclass_impl()),
        format!("{:?}", make().object_subclass_impl())
    );
}

#[test]
fn custom_method_names_are_fixed() {
    assert_eq!(
        ClassDefinition::type_parser(),
        vec![
            "properties",
            "signals",
            "set_property",
            "property",
            "constructed",
            "dispose",
            "type_init",
            "new",
            "with_class",
            "class_init",
            "instance_init"
        ]
    );
}

#[test]
fn module_items_come_in_a_fixed_order() {
    let def = definition(
        Some("Widget"),
        vec![field("x")],
        vec![
            method("run", Role::Virtual, true),
            method("hit", Role::Signal, true),
            method("miss", Role::Signal, false),
        ],
    );
    let (c, _) = class(def, ClassOptions::new());
    assert_eq!(c.private_methods(), vec![0]);
    let items = c.extra_private_items();
    assert_eq!(items.private.signal_cells, vec!["hit", "miss"]);
    assert_eq!(items.private.chains, vec![0]);
    assert_eq!(items.object_subclass.expect("a descriptor").gtype_name, "Widget");
    assert_eq!(items.object_impl.expect("an implementation").dispatch.expect("dispatch").count, 1);
    assert_eq!(items.class_struct.expect("a class struct").fields, vec!["run"]);
}

#[test]
fn unnamed_class_adds_nothing_to_its_module() {
    let (c, _) = class(definition(None, vec![], vec![]), ClassOptions::new());
    assert!(c.private_methods().is_empty());
    let items = c.extra_private_items();
    assert!(items.private.signal_cells.is_empty());
    assert!(items.private.chains.is_empty());
    assert!(items.object_subclass.is_none());
    assert!(items.object_impl.is_none());
    assert!(items.class_struct.is_none());
}

#[test]
fn dispatch_starts_after_the_base_index_where_the_table_records_one() {
    let def = definition(Some("Widget"), vec![field("a")], vec![method("properties", Role::Plain, true)]);
    let (c, _) = class(def, ClassOptions::new());
    let d = c.property_method().expect("dispatch");
    assert!(d.from_base_index);
    let table = c.inner.properties_method().expect("a table");
    assert!(table.sets_base_index);
    assert_eq!(table.entries.len(), d.count);
}
