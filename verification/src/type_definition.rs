//! The type-definition builder: from a module body to the normalized
//! description of the type that the module defines.

use crate::access::{
    concurrency_of, declares_marker, detect_concurrency, levels_of_module, levels_of_struct,
    module_levels, struct_levels, Levels, LevelsView,
};
use crate::custom::CustomStmts;
use crate::diag::{Diagnostic, Errors, Problem, Site};
use crate::items::{text_of, views, Item, ItemView, Role};
use crate::members::{
    distinct, extract_members, extract_properties, field_entries, lemma_members_unique,
    lemma_properties_unique, member_names, members_of, method_entries, properties_of,
    property_names, Member, MemberView, Property, PropertyView,
};
use crate::model::{Concurrency, TypeBase, Visibility, VisibilityView};
use crate::resolve::{chosen_impl, chosen_struct, position, resolved_name, select};
use crate::rewrite::{rewrite_item, rewritten_item};
use crate::screen::reported;
use crate::wrapper::{collect_wrapper_methods, texts, wrapper_idents, wrapper_reports};
use vstd::prelude::*;

verus! {

/// A module: its name, its visibility and, where it has one, its body.
#[derive(Debug)]
pub struct Module {
    pub ident: String,
    pub vis: Visibility,
    pub content: Option<Vec<Item>>,
}

pub struct ModuleView {
    pub ident: Seq<char>,
    pub vis: VisibilityView,
    pub content: Option<Seq<ItemView>>,
}

impl View for Module {
    type V = ModuleView;

    open spec fn view(&self) -> ModuleView {
        ModuleView {
            ident: self.ident@,
            vis: self.vis@,
            content: match self.content {
                Some(items) => Some(views(items@)),
                None => None,
            },
        }
    }
}

/// The normalized description of a class or an interface.
#[derive(Debug)]
pub struct TypeDefinition {
    /// The module, with the annotations that extraction consumed removed.
    pub module: Module,
    pub base: TypeBase,
    /// Visibility of the type from outside.
    pub vis: Visibility,
    /// Visibility of the type for generated sibling code.
    pub inner_vis: Visibility,
    pub concurrency: Concurrency,
    pub name: Option<String>,
    /// Identifier of the crate under which the runtime is reached.
    pub crate_ident: String,
    pub generics: Option<String>,
    /// Position of the struct that defines the type.
    pub properties_item_index: Option<usize>,
    /// Position of the block that holds the members.
    pub methods_item_index: Option<usize>,
    pub properties: Vec<Property>,
    pub signals: Vec<Member>,
    pub public_methods: Vec<Member>,
    pub virtual_methods: Vec<Member>,
    /// Identifiers of the methods declared for the wrapper.
    pub wrapper_methods: Vec<String>,
    pub custom_stmts: CustomStmts,
}

pub struct TypeDefinitionView {
    pub module: ModuleView,
    pub base: TypeBase,
    pub vis: VisibilityView,
    pub inner_vis: VisibilityView,
    pub concurrency: Concurrency,
    pub name: Option<Seq<char>>,
    pub crate_ident: Seq<char>,
    pub generics: Option<Seq<char>>,
    pub properties_item_index: Option<int>,
    pub methods_item_index: Option<int>,
    pub properties: Seq<PropertyView>,
    pub signals: Seq<MemberView>,
    pub public_methods: Seq<MemberView>,
    pub virtual_methods: Seq<MemberView>,
    pub wrapper_methods: Seq<Seq<char>>,
    pub custom_stmts: Map<Seq<char>, Seq<Seq<char>>>,
}

impl View for TypeDefinition {
    type V = TypeDefinitionView;

    open spec fn view(&self) -> TypeDefinitionView {
        TypeDefinitionView {
            module: self.module@,
            base: self.base,
            vis: self.vis@,
            inner_vis: self.inner_vis@,
            concurrency: self.concurrency,
            name: text_of(self.name),
            crate_ident: self.crate_ident@,
            generics: text_of(self.generics),
            properties_item_index: position(self.properties_item_index),
            methods_item_index: position(self.methods_item_index),
            properties: views(self.properties@),
            signals: views(self.signals@),
            public_methods: views(self.public_methods@),
            virtual_methods: views(self.virtual_methods@),
            wrapper_methods: texts(self.wrapper_methods@),
            custom_stmts: self.custom_stmts@,
        }
    }
}

impl TypeDefinitionView {
    /// Within each of the four kinds no two members have the same name, and
    /// the two positions, where set, point at a struct and at an
    /// implementation block of the module body.
    pub open spec fn wf(self) -> bool {
        &&& distinct(property_names(self.properties))
        &&& distinct(member_names(self.signals))
        &&& distinct(member_names(self.public_methods))
        &&& distinct(member_names(self.virtual_methods))
        &&& self.properties_item_index matches Some(at) ==> self.module.content matches Some(items)
            && 0 <= at < items.len() && items[at] is Struct
        &&& self.methods_item_index matches Some(at) ==> self.module.content matches Some(items)
            && 0 <= at < items.len() && items[at] is Impl
    }
}

impl TypeDefinition {
    /// The definition is well formed.
    pub open spec fn wf(&self) -> bool {
        self@.wf() && self.custom_stmts.wf()
    }
}

/// The module body after extraction.
pub open spec fn rewritten_items(items: Seq<ItemView>, base: TypeBase, name: Option<Seq<char>>) -> Seq<
    ItemView,
> {
    Seq::new(
        items.len(),
        |i: int|
            rewritten_item(
                items[i],
                chosen_struct(items, name) == Some(i),
                chosen_impl(items, name) == Some(i),
                base,
            ),
    )
}

/// The access levels of the type whose struct stands at `s`.
pub open spec fn levels_at(module_vis: VisibilityView, items: Seq<ItemView>, s: Option<int>) -> LevelsView {
    match s {
        Some(at) => levels_of_struct(items[at]->Struct_0.vis),
        None => levels_of_module(module_vis),
    }
}

/// The properties of the struct at `s`.
pub open spec fn properties_at(items: Seq<ItemView>, s: Option<int>) -> Seq<PropertyView> {
    match s {
        Some(at) => properties_of(items[at]->Struct_0.fields),
        None => Seq::empty(),
    }
}

/// The thread safety of the type whose struct stands at `s`, whatever its
/// base. A type without a struct has none.
pub open spec fn concurrency_at(items: Seq<ItemView>, s: Option<int>) -> Concurrency {
    match s {
        Some(at) => concurrency_of(items, items[at]->Struct_0.ident),
        None => Concurrency::Unset,
    }
}

/// The generic parameters of the type: those of the struct at `s`, or else
/// those of the block at `b`.
pub open spec fn generics_at(items: Seq<ItemView>, s: Option<int>, b: Option<int>) -> Option<Seq<char>> {
    match s {
        Some(at) => Some(items[at]->Struct_0.generics),
        None => match b {
            Some(at) => Some(items[at]->Impl_0.generics),
            None => None,
        },
    }
}

/// The diagnostics about the fields of the struct at `s`.
pub open spec fn struct_reports_at(items: Seq<ItemView>, s: Option<int>) -> Seq<Diagnostic> {
    match s {
        Some(at) => {
            let fs = items[at]->Struct_0.fields;
            reported(field_entries(fs), at as usize, fs.len() as int)
        },
        None => Seq::empty(),
    }
}

/// The members of kind `role` of the block at `b`.
pub open spec fn members_at(items: Seq<ItemView>, b: Option<int>, role: Role) -> Seq<MemberView> {
    match b {
        Some(at) => members_of(items[at]->Impl_0.methods, role),
        None => Seq::empty(),
    }
}

/// The diagnostics about the members of kind `role` of the block at `b`.
pub open spec fn member_reports_at(items: Seq<ItemView>, b: Option<int>, role: Role) -> Seq<Diagnostic> {
    match b {
        Some(at) => {
            let ms = items[at]->Impl_0.methods;
            reported(method_entries(ms, role), at as usize, ms.len() as int)
        },
        None => Seq::empty(),
    }
}

/// The diagnostics about the members of all three kinds of the block at
/// `b`: signals, then public methods, then virtual methods.
pub open spec fn block_reports_at(items: Seq<ItemView>, b: Option<int>) -> Seq<Diagnostic> {
    member_reports_at(items, b, Role::Signal) + member_reports_at(items, b, Role::Public)
        + member_reports_at(items, b, Role::Virtual)
}

/// The definition that a module with the body `items` yields.
pub open spec fn parsed_body(
    module: ModuleView,
    items: Seq<ItemView>,
    base: TypeBase,
    name: Option<Seq<char>>,
    crate_ident: Seq<char>,
) -> TypeDefinitionView {
    let s = chosen_struct(items, name);
    let b = chosen_impl(items, name);
    TypeDefinitionView {
        module: ModuleView { content: Some(rewritten_items(items, base, name)), ..module },
        base,
        vis: levels_at(module.vis, items, s).vis,
        inner_vis: levels_at(module.vis, items, s).inner_vis,
        concurrency: concurrency_at(items, s),
        name: resolved_name(items, name),
        crate_ident,
        generics: generics_at(items, s, b),
        properties_item_index: s,
        methods_item_index: b,
        properties: properties_at(items, s),
        signals: members_at(items, b, Role::Signal),
        public_methods: members_at(items, b, Role::Public),
        virtual_methods: members_at(items, b, Role::Virtual),
        wrapper_methods: wrapper_idents(items, items.len() as int),
        custom_stmts: Map::empty(),
    }
}

/// The definition that `module` yields. A module without a body yields a
/// definition that holds what was given and nothing else.
pub open spec fn parsed(
    module: ModuleView,
    base: TypeBase,
    name: Option<Seq<char>>,
    crate_ident: Seq<char>,
) -> TypeDefinitionView {
    match module.content {
        Some(items) => parsed_body(module, items, base, name, crate_ident),
        None => TypeDefinitionView {
            module,
            base,
            vis: VisibilityView::Inherited,
            inner_vis: VisibilityView::sibling(),
            concurrency: Concurrency::Unset,
            name,
            crate_ident,
            generics: None,
            properties_item_index: None,
            methods_item_index: None,
            properties: Seq::empty(),
            signals: Seq::empty(),
            public_methods: Seq::empty(),
            virtual_methods: Seq::empty(),
            wrapper_methods: Seq::empty(),
            custom_stmts: Map::empty(),
        },
    }
}

/// What building the definition reports, in order: a module without a body
/// and nothing else; or the properties left out, then the signals, the
/// public methods and the virtual methods left out, then what is wrong
/// with the constructors of the wrapper.
pub open spec fn parse_reports(module: ModuleView, base: TypeBase, name: Option<Seq<char>>) -> Seq<
    Diagnostic,
> {
    match module.content {
        None => seq![Diagnostic { site: Site::Module, problem: Problem::ModuleWithoutBody }],
        Some(items) => struct_reports_at(items, chosen_struct(items, name)) + block_reports_at(
            items,
            chosen_impl(items, name),
        ) + wrapper_reports(items, base, items.len() as int),
    }
}

/// Applies to every item what extraction changes in it.
fn rewrite_items(
    items: &mut Vec<Item>,
    base: TypeBase,
    struct_index: Option<usize>,
    impl_index: Option<usize>,
    Ghost(name): Ghost<Option<Seq<char>>>,
)
    requires
        position(struct_index) == chosen_struct(views(old(items)@), name),
        position(impl_index) == chosen_impl(views(old(items)@), name),
    ensures
        views(final(items)@) == rewritten_items(views(old(items)@), base, name),
{
    let ghost body = views(items@);
    let mut i: usize = 0;
    while i < items.len()
        invariant
            i <= items@.len(),
            items@.len() == body.len(),
            position(struct_index) == chosen_struct(body, name),
            position(impl_index) == chosen_impl(body, name),
            forall|j: int| i <= j < body.len() ==> (#[trigger] items@[j])@ == body[j],
            forall|j: int|
                0 <= j < i ==> (#[trigger] items@[j])@ == rewritten_items(body, base, name)[j],
        decreases items@.len() - i,
    {
        let defining = match struct_index {
            Some(at) => at == i,
            None => false,
        };
        let members = match impl_index {
            Some(at) => at == i,
            None => false,
        };
        assert(defining == (chosen_struct(body, name) == Some(i as int)));
        assert(members == (chosen_impl(body, name) == Some(i as int)));
        let ghost before = items@;
        match rewrite_item(&items[i], defining, members, base) {
            Some(new) => {
                items.set(i, new);
                assert forall|j: int| i < j < body.len() implies (#[trigger] items@[j])@
                    == body[j] by {
                    assert(items@[j] == before[j]);
                }
                assert forall|j: int| 0 <= j < i implies (#[trigger] items@[j])@
                    == rewritten_items(body, base, name)[j] by {
                    assert(items@[j] == before[j]);
                }
            },
            None => {},
        }
        i += 1;
    }
    assert(views(items@) =~= rewritten_items(body, base, name));
}

/// What the struct that defines the type contributes.
struct StructPart {
    levels: Levels,
    generics: Option<String>,
    properties: Vec<Property>,
    concurrency: Concurrency,
}

/// Reads the struct at `at`: access levels, generics, properties and
/// thread safety.
fn read_struct(
    items: &Vec<Item>,
    at: Option<usize>,
    module_vis: &Visibility,
    errors: &mut Errors,
) -> (out: StructPart)
    requires
        at matches Some(i) ==> i < items@.len() && items@[i as int] is Struct,
    ensures
        out.levels@ == levels_at(module_vis@, views(items@), position(at)),
        text_of(out.generics) == generics_at(views(items@), position(at), None),
        views(out.properties@) == properties_at(views(items@), position(at)),
        out.concurrency == concurrency_at(views(items@), position(at)),
        final(errors)@ == old(errors)@ + struct_reports_at(views(items@), position(at)),
{
    match at {
        Some(i) => {
            assert(views(items@)[i as int] == items@[i as int]@);
            match &items[i] {
                Item::Struct(s) => {
                    let properties = extract_properties(&s.fields, i, errors);
                    StructPart {
                        levels: struct_levels(&s.vis),
                        generics: Some(s.generics.clone()),
                        properties,
                        concurrency: detect_concurrency(items, s.ident.as_str()),
                    }
                },
                _ => {
                    let out = StructPart {
                        levels: module_levels(module_vis),
                        generics: None,
                        properties: Vec::new(),
                        concurrency: Concurrency::Unset,
                    };
                    out
                },
            }
        },
        None => {
            let out = StructPart {
                levels: module_levels(module_vis),
                generics: None,
                properties: Vec::new(),
                concurrency: Concurrency::Unset,
            };
            assert(views(out.properties@) =~= Seq::<PropertyView>::empty());
            assert(errors@ =~= old(errors)@ + Seq::<Diagnostic>::empty());
            out
        },
    }
}

/// What the block that holds the members contributes.
struct BlockPart {
    generics: Option<String>,
    signals: Vec<Member>,
    public_methods: Vec<Member>,
    virtual_methods: Vec<Member>,
}

/// Reads the block at `at`: generics and the members of the three kinds.
fn read_block(items: &Vec<Item>, at: Option<usize>, errors: &mut Errors) -> (out: BlockPart)
    requires
        at matches Some(i) ==> i < items@.len() && items@[i as int] is Impl,
    ensures
        text_of(out.generics) == generics_at(views(items@), None, position(at)),
        views(out.signals@) == members_at(views(items@), position(at), Role::Signal),
        views(out.public_methods@) == members_at(views(items@), position(at), Role::Public),
        views(out.virtual_methods@) == members_at(views(items@), position(at), Role::Virtual),
        final(errors)@ == old(errors)@ + block_reports_at(views(items@), position(at)),
{
    match at {
        Some(i) => {
            assert(views(items@)[i as int] == items@[i as int]@);
            match &items[i] {
                Item::Impl(b) => {
                    let signals = extract_members(&b.methods, Role::Signal, i, errors);
                    let public_methods = extract_members(&b.methods, Role::Public, i, errors);
                    let virtual_methods = extract_members(&b.methods, Role::Virtual, i, errors);
                    assert(errors@ =~= old(errors)@ + block_reports_at(
                        views(items@),
                        position(at),
                    ));
                    BlockPart {
                        generics: Some(b.generics.clone()),
                        signals,
                        public_methods,
                        virtual_methods,
                    }
                },
                _ => BlockPart {
                    generics: None,
                    signals: Vec::new(),
                    public_methods: Vec::new(),
                    virtual_methods: Vec::new(),
                },
            }
        },
        None => {
            let out = BlockPart {
                generics: None,
                signals: Vec::new(),
                public_methods: Vec::new(),
                virtual_methods: Vec::new(),
            };
            assert(views(out.signals@) =~= Seq::<MemberView>::empty());
            assert(views(out.public_methods@) =~= Seq::<MemberView>::empty());
            assert(views(out.virtual_methods@) =~= Seq::<MemberView>::empty());
            assert(errors@ =~= old(errors)@ + block_reports_at(views(items@), position(at)));
            out
        },
    }
}

/// The extracted members of a body are well formed: no name occurs twice
/// within a kind.
proof fn lemma_members_distinct(items: Seq<ItemView>, s: Option<int>, b: Option<int>)
    ensures
        distinct(property_names(properties_at(items, s))),
        distinct(member_names(members_at(items, b, Role::Signal))),
        distinct(member_names(members_at(items, b, Role::Public))),
        distinct(member_names(members_at(items, b, Role::Virtual))),
{
    if s is Some {
        lemma_properties_unique(items[s->0]->Struct_0.fields);
    }
    if b is Some {
        lemma_members_unique(items[b->0]->Impl_0.methods, Role::Signal);
        lemma_members_unique(items[b->0]->Impl_0.methods, Role::Public);
        lemma_members_unique(items[b->0]->Impl_0.methods, Role::Virtual);
    }
}

/// A definition for a module without a body.
fn without_body(
    ident: String,
    vis: Visibility,
    base: TypeBase,
    name: Option<String>,
    crate_ident: String,
) -> (def: TypeDefinition)
    ensures
        def@ == parsed(
            ModuleView { ident: ident@, vis: vis@, content: None },
            base,
            text_of(name),
            crate_ident@,
        ),
        def.wf(),
{
    let def = TypeDefinition {
        module: Module { ident, vis, content: None },
        base,
        vis: Visibility::Inherited,
        inner_vis: Visibility::sibling(),
        concurrency: Concurrency::Unset,
        name,
        crate_ident,
        generics: None,
        properties_item_index: None,
        methods_item_index: None,
        properties: Vec::new(),
        signals: Vec::new(),
        public_methods: Vec::new(),
        virtual_methods: Vec::new(),
        wrapper_methods: Vec::new(),
        custom_stmts: CustomStmts::new(),
    };
    assert(def@.properties =~= Seq::empty());
    assert(def@.signals =~= Seq::empty());
    assert(def@.public_methods =~= Seq::empty());
    assert(def@.virtual_methods =~= Seq::empty());
    assert(def@.wrapper_methods =~= Seq::empty());
    def
}

impl TypeDefinition {
    /// Builds the definition of the type that `module` defines: finds the
    /// struct and the implementation block, infers the name where none is
    /// given, extracts the members, and removes from the module body what
    /// extraction consumed. Whatever is wrong is reported to `errors`;
    /// building goes on.
    pub fn parse(
        module: Module,
        base: TypeBase,
        name: Option<String>,
        crate_ident: String,
        errors: &mut Errors,
    ) -> (def: TypeDefinition)
        ensures
            def@ == parsed(module@, base, text_of(name), crate_ident@),
            def.wf(),
            final(errors)@ == old(errors)@ + parse_reports(module@, base, text_of(name)),
    {
        let ghost given = text_of(name);
        let ghost whole = module@;
        let Module { ident, vis: module_vis, content } = module;
        let mut items = match content {
            Some(items) => items,
            None => {
                errors.push(Site::Module, Problem::ModuleWithoutBody);
                assert(errors@ =~= old(errors)@ + parse_reports(whole, base, given));
                return without_body(ident, module_vis, base, name, crate_ident);
            },
        };
        let ghost body = views(items@);
        let sel = select(&items, name);
        let ghost s = position(sel.struct_index);
        let ghost b = position(sel.impl_index);
        let from_struct = read_struct(&items, sel.struct_index, &module_vis, errors);
        let from_block = read_block(&items, sel.impl_index, errors);
        let wrapper_methods = collect_wrapper_methods(&items, base, errors);
        assert(errors@ =~= old(errors)@ + parse_reports(whole, base, given));
        let generics = if from_struct.generics.is_some() {
            from_struct.generics
        } else {
            from_block.generics
        };
        assert(text_of(generics) == generics_at(body, s, b));
        proof {
            lemma_members_distinct(body, s, b);
        }
        rewrite_items(&mut items, base, sel.struct_index, sel.impl_index, Ghost(given));
        assert(views(items@).len() == body.len());
        let def = TypeDefinition {
            module: Module { ident, vis: module_vis, content: Some(items) },
            base,
            vis: from_struct.levels.vis,
            inner_vis: from_struct.levels.inner_vis,
            concurrency: from_struct.concurrency,
            name: sel.name,
            crate_ident,
            generics,
            properties_item_index: sel.struct_index,
            methods_item_index: sel.impl_index,
            properties: from_struct.properties,
            signals: from_block.signals,
            public_methods: from_block.public_methods,
            virtual_methods: from_block.virtual_methods,
            wrapper_methods,
            custom_stmts: CustomStmts::new(),
        };
        assert(def@ == parsed(whole, base, given, crate_ident@));
        def
    }
}

/// A definition, of a class or of an interface, is thread safe exactly when
/// it has a struct for which the module declares both `Send` and `Sync`;
/// with one of the two markers alone, or none, it is not.
pub proof fn law_thread_safety_needs_both_markers(
    module: ModuleView,
    items: Seq<ItemView>,
    base: TypeBase,
    name: Option<Seq<char>>,
    crate_ident: Seq<char>,
)
    ensures
        parsed_body(module, items, base, name, crate_ident).concurrency == Concurrency::SendSync
            <==> (chosen_struct(items, name) matches Some(at) && declares_marker(
            items,
            items[at]->Struct_0.ident,
            "Send"@,
        ) && declares_marker(items, items[at]->Struct_0.ident, "Sync"@)),
{
}

/// Building a definition from the same input gives the same definition and
/// the same diagnostics.
pub proof fn law_parse_is_a_function(
    a: ModuleView,
    b: ModuleView,
    base: TypeBase,
    name: Option<Seq<char>>,
    crate_ident: Seq<char>,
)
    requires
        a == b,
    ensures
        parsed(a, base, name, crate_ident) == parsed(b, base, name, crate_ident),
        parse_reports(a, base, name) == parse_reports(b, base, name),
{
}

} // verus!
