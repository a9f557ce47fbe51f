//! What is generated for a class, as plans.

use crate::class::{ClassDefinition, ClassDefinitionView};
use crate::emit::{
    child_type_init, private_items, public_api, type_init, type_struct_fields, virtual_traits,
    PrivateItems, PrivateItemsView, PublicApi, PublicApiView, TypeInit, TypeInitView,
    VirtualTraits, VirtualTraitsView,
};
use crate::items::{opt_texts, opt_view, text_of};
use crate::model::{TypeBase, TypeMode};
use crate::names::{to_upper_camel, upper_camel_case};
use crate::paths::{join2, optional, optional_text};
use crate::screen::positions;
use crate::registry::{
    properties_table, registration_of, signals_table, Registration, RegistrationView,
};
use crate::wrapper::texts;
use vstd::prelude::*;

verus! {

/// `items`, after `word` where there are any; nothing where there are none.
pub open spec fn marked_list(word: Seq<char>, items: Seq<Seq<char>>) -> Seq<Seq<char>> {
    if items.len() == 0 {
        Seq::empty()
    } else {
        seq![word] + items
    }
}

impl ClassDefinitionView {
    /// The parent type: the first ancestor, or the root object type of the
    /// runtime for a class without ancestors.
    pub open spec fn parent_type(self) -> Seq<char> {
        if self.extends.len() > 0 {
            self.extends[0]
        } else {
            self.inner.glib() + "::Object"@
        }
    }

    /// What the wrapper inherits: the ancestors after `@extends`, then the
    /// interfaces after `@implements`. Nothing for a class that has its
    /// wrapper switched off, or no name.
    pub open spec fn wrapper(self) -> Option<Seq<Seq<char>>> {
        if !self.wrapper || self.inner.name is None {
            None
        } else {
            Some(
                marked_list("@extends"@, self.extends) + marked_list(
                    "@implements"@,
                    self.implements,
                ),
            )
        }
    }

    /// The name of the extension trait: the one given, or the type's name
    /// followed by `Ext`. A final class has none, nor has an unnamed one.
    pub open spec fn ext_trait(self) -> Option<Seq<char>> {
        if self.final_ {
            None
        } else {
            match self.inner.name {
                Some(n) => Some(
                    match self.ext_trait {
                        Some(e) => e,
                        None => n + "Ext"@,
                    },
                ),
                None => None,
            }
        }
    }

    /// The name under which the type is registered: the namespace, as it
    /// is given, followed by the type's name in upper camel case.
    pub open spec fn gtype_name(self) -> Option<Seq<char>> {
        match self.inner.name {
            Some(n) => Some(optional(self.ns) + upper_camel_case(n)),
            None => None,
        }
    }

    /// The class-initialization hook: what the definition installs, then
    /// the extra statements. Nothing where there is neither.
    pub open spec fn class_init(self) -> Option<ClassInitView> {
        if type_init(self.inner) is None && self.extra_class_init_stmts.len() == 0 {
            None
        } else {
            Some(ClassInitView { body: type_init(self.inner), extra: self.extra_class_init_stmts })
        }
    }

    /// The instance-initialization hook: the extra statements, where there
    /// are any.
    pub open spec fn instance_init(self) -> Option<Seq<Seq<char>>> {
        if self.extra_instance_init_stmts.len() == 0 {
            None
        } else {
            Some(self.extra_instance_init_stmts)
        }
    }

    /// The class struct: needed only where there are virtual methods.
    pub open spec fn class_struct(self) -> Option<ClassStructView> {
        match (self.inner.name, self.inner.generics) {
            (Some(n), Some(g)) => if type_struct_fields(self.inner).len() == 0 {
                None
            } else {
                Some(
                    ClassStructView {
                        class_name: n + "Class"@,
                        parent_type: self.parent_type(),
                        fields: type_struct_fields(self.inner),
                    },
                )
            },
            _ => None,
        }
    }

    /// The registration descriptor; an unnamed class has none.
    pub open spec fn object_subclass(self) -> Option<ObjectSubclassView> {
        match self.gtype_name() {
            Some(g) => Some(
                ObjectSubclassView {
                    gtype_name: g,
                    abstract_: self.abstract_,
                    parent_type: self.parent_type(),
                    interfaces: self.implements,
                    class_struct: match self.class_struct() {
                        Some(c) => Some(c.class_name),
                        None => None,
                    },
                    class_init: self.class_init(),
                    instance_init: self.instance_init(),
                },
            ),
            None => None,
        }
    }

    /// Dispatch of property access by identifier: generated for a named
    /// class with at least one property. Where the table of properties
    /// records a base index, the identifiers of the declared properties
    /// start after it.
    pub open spec fn property_dispatch(self) -> Option<DispatchView> {
        match self.inner.method_path("properties"@, TypeMode::Subclass) {
            Some(p) => if self.inner.properties.len() == 0 {
                None
            } else {
                Some(
                    DispatchView {
                        properties_path: p,
                        count: self.inner.properties.len(),
                        from_base_index: self.inner.base == TypeBase::Class
                            && self.inner.has_method("properties"@),
                    },
                )
            },
            None => None,
        }
    }

    /// The object implementation; an unnamed class has none.
    pub open spec fn object_impl(self) -> Option<ObjectImplView> {
        if self.inner.name is None {
            None
        } else {
            Some(
                ObjectImplView {
                    properties: properties_table(self.inner),
                    signals: signals_table(self.inner),
                    dispatch: self.property_dispatch(),
                },
            )
        }
    }

    /// What makes the class subclassable: generated only where there is a
    /// virtual method.
    pub open spec fn subclassable(self) -> Option<SubclassableView> {
        match (self.inner.name, child_type_init(self.inner)) {
            (Some(n), Some(ms)) => Some(SubclassableView { trait_name: n + "Impl"@, methods: ms }),
            _ => None,
        }
    }

    /// Everything that is generated for the class beside its module, in
    /// the order in which it is written out after the module.
    pub open spec fn emitted(self) -> ClassOutputView {
        ClassOutputView {
            wrapper: self.wrapper(),
            public_methods: public_api(self.inner, self.ext_trait()),
            subclassable: self.subclassable(),
            virtual_traits: virtual_traits(
                self.inner,
                match self.inner.name {
                    Some(n) => Some(n + "Impl"@),
                    None => None,
                },
                match self.inner.name {
                    Some(n) => Some(n + "ImplExt"@),
                    None => None,
                },
                self.parent_trait,
            ),
        }
    }
}

/// The class-initialization hook.
#[derive(Debug)]
pub struct ClassInit {
    pub body: Option<TypeInit>,
    pub extra: Vec<String>,
}

pub struct ClassInitView {
    pub body: Option<TypeInitView>,
    pub extra: Seq<Seq<char>>,
}

impl View for ClassInit {
    type V = ClassInitView;

    open spec fn view(&self) -> ClassInitView {
        ClassInitView {
            body: match self.body {
                Some(b) => Some(b@),
                None => None,
            },
            extra: texts(self.extra@),
        }
    }
}

/// The class struct.
#[derive(Debug)]
pub struct ClassStruct {
    pub class_name: String,
    pub parent_type: String,
    /// One slot per virtual method, by name.
    pub fields: Vec<String>,
}

pub struct ClassStructView {
    pub class_name: Seq<char>,
    pub parent_type: Seq<char>,
    pub fields: Seq<Seq<char>>,
}

impl View for ClassStruct {
    type V = ClassStructView;

    open spec fn view(&self) -> ClassStructView {
        ClassStructView {
            class_name: self.class_name@,
            parent_type: self.parent_type@,
            fields: texts(self.fields@),
        }
    }
}

/// The descriptor with which the class is registered with the runtime.
#[derive(Debug)]
pub struct ObjectSubclass {
    pub gtype_name: String,
    pub abstract_: bool,
    pub parent_type: String,
    pub interfaces: Vec<String>,
    /// Name of the class struct, where the class has one.
    pub class_struct: Option<String>,
    pub class_init: Option<ClassInit>,
    pub instance_init: Option<Vec<String>>,
}

pub struct ObjectSubclassView {
    pub gtype_name: Seq<char>,
    pub abstract_: bool,
    pub parent_type: Seq<char>,
    pub interfaces: Seq<Seq<char>>,
    pub class_struct: Option<Seq<char>>,
    pub class_init: Option<ClassInitView>,
    pub instance_init: Option<Seq<Seq<char>>>,
}

impl View for ObjectSubclass {
    type V = ObjectSubclassView;

    open spec fn view(&self) -> ObjectSubclassView {
        ObjectSubclassView {
            gtype_name: self.gtype_name@,
            abstract_: self.abstract_,
            parent_type: self.parent_type@,
            interfaces: texts(self.interfaces@),
            class_struct: text_of(self.class_struct),
            class_init: match self.class_init {
                Some(c) => Some(c@),
                None => None,
            },
            instance_init: match self.instance_init {
                Some(v) => Some(texts(v@)),
                None => None,
            },
        }
    }
}

/// Dispatch of property access by identifier.
#[derive(Debug)]
pub struct Dispatch {
    /// The path of the function that gives the table of properties.
    pub properties_path: String,
    /// The number of declared properties.
    pub count: usize,
    /// Whether the identifiers of the declared properties start after the
    /// recorded base index, not after zero.
    pub from_base_index: bool,
}

pub struct DispatchView {
    pub properties_path: Seq<char>,
    pub count: nat,
    pub from_base_index: bool,
}

impl View for Dispatch {
    type V = DispatchView;

    open spec fn view(&self) -> DispatchView {
        DispatchView {
            properties_path: self.properties_path@,
            count: self.count as nat,
            from_base_index: self.from_base_index,
        }
    }
}

/// The object implementation of a class.
#[derive(Debug)]
pub struct ObjectImpl {
    pub properties: Option<Registration>,
    pub signals: Option<Registration>,
    /// Dispatch of property writes and reads.
    pub dispatch: Option<Dispatch>,
}

pub struct ObjectImplView {
    pub properties: Option<RegistrationView>,
    pub signals: Option<RegistrationView>,
    pub dispatch: Option<DispatchView>,
}

impl View for ObjectImpl {
    type V = ObjectImplView;

    open spec fn view(&self) -> ObjectImplView {
        ObjectImplView {
            properties: registration_of(self.properties),
            signals: registration_of(self.signals),
            dispatch: match self.dispatch {
                Some(d) => Some(d@),
                None => None,
            },
        }
    }
}

/// What makes a class subclassable.
#[derive(Debug)]
pub struct Subclassable {
    /// The trait that a subclass implements.
    pub trait_name: String,
    /// The virtual methods whose slot a subclass may replace.
    pub methods: Vec<String>,
}

pub struct SubclassableView {
    pub trait_name: Seq<char>,
    pub methods: Seq<Seq<char>>,
}

impl View for Subclassable {
    type V = SubclassableView;

    open spec fn view(&self) -> SubclassableView {
        SubclassableView { trait_name: self.trait_name@, methods: texts(self.methods@) }
    }
}

/// Everything that is generated for a class.
#[derive(Debug)]
pub struct ClassOutput {
    pub wrapper: Option<Vec<String>>,
    pub public_methods: Option<PublicApi>,
    pub subclassable: Option<Subclassable>,
    pub virtual_traits: Option<VirtualTraits>,
}

pub struct ClassOutputView {
    pub wrapper: Option<Seq<Seq<char>>>,
    pub public_methods: Option<PublicApiView>,
    pub subclassable: Option<SubclassableView>,
    pub virtual_traits: Option<VirtualTraitsView>,
}

impl View for ClassOutput {
    type V = ClassOutputView;

    open spec fn view(&self) -> ClassOutputView {
        ClassOutputView {
            wrapper: opt_texts(self.wrapper),
            public_methods: opt_view(self.public_methods),
            subclassable: opt_view(self.subclassable),
            virtual_traits: opt_view(self.virtual_traits),
        }
    }
}

/// A copy of the texts.
pub fn copy_texts(v: &Vec<String>) -> (out: Vec<String>)
    ensures
        texts(out@) == texts(v@),
{
    let mut out: Vec<String> = Vec::new();
    let mut i: usize = 0;
    while i < v.len()
        invariant
            i <= v@.len(),
            out@.len() == i,
            forall|j: int| 0 <= j < i ==> (#[trigger] out@[j])@ == v@[j]@,
        decreases v@.len() - i,
    {
        out.push(v[i].clone());
        i += 1;
    }
    assert(texts(out@) =~= texts(v@));
    out
}

fn push_marked(out: &mut Vec<String>, word: &str, items: &Vec<String>)
    ensures
        texts(final(out)@) == texts(old(out)@) + marked_list(word@, texts(items@)),
{
    if items.len() == 0 {
        assert(texts(out@) =~= texts(old(out)@) + marked_list(word@, texts(items@)));
        return ;
    }
    out.push(String::from_str(word));
    let mut i: usize = 0;
    assert(texts(out@) =~= texts(old(out)@) + seq![word@] + texts(items@).subrange(0, 0));
    while i < items.len()
        invariant
            i <= items@.len(),
            texts(out@) == texts(old(out)@) + seq![word@] + texts(items@).subrange(0, i as int),
        decreases items@.len() - i,
    {
        let ghost before = texts(out@);
        out.push(items[i].clone());
        assert(texts(out@) =~= before.push(items@[i as int]@));
        assert(texts(items@).subrange(0, i as int + 1) =~= texts(items@).subrange(0, i as int).push(
            items@[i as int]@,
        ));
        assert(texts(out@) =~= texts(old(out)@) + seq![word@] + texts(items@).subrange(
            0,
            i as int + 1,
        ));
        i += 1;
    }
    assert(texts(items@).subrange(0, i as int) =~= texts(items@));
    assert(texts(out@) =~= texts(old(out)@) + (seq![word@] + texts(items@)));
}

impl ClassDefinition {
    /// The parent type of the class.
    pub fn parent_type(&self) -> (out: String)
        ensures
            out@ == self@.parent_type(),
    {
        if self.extends.len() > 0 {
            self.extends[0].clone()
        } else {
            join2(self.inner.glib().as_str(), "::Object")
        }
    }

    /// What the declaration of the wrapper type lists after the type.
    pub fn wrapper(&self) -> (out: Option<Vec<String>>)
        ensures
            opt_texts(out) == self@.wrapper(),
    {
        if !self.wrapper || self.inner.name.is_none() {
            return None;
        }
        let mut inherits: Vec<String> = Vec::new();
        assert(texts(inherits@) =~= Seq::<Seq<char>>::empty());
        push_marked(&mut inherits, "@extends", &self.extends);
        push_marked(&mut inherits, "@implements", &self.implements);
        assert(texts(inherits@) =~= marked_list("@extends"@, self@.extends) + marked_list(
            "@implements"@,
            self@.implements,
        ));
        Some(inherits)
    }

    /// The name of the extension trait that carries the public API.
    pub fn ext_trait(&self) -> (out: Option<String>)
        ensures
            text_of(out) == self@.ext_trait(),
    {
        if self.final_ {
            return None;
        }
        match &self.inner.name {
            Some(n) => match &self.ext_trait {
                Some(e) => Some(e.clone()),
                None => Some(join2(n.as_str(), "Ext")),
            },
            None => None,
        }
    }

    /// The name under which the class is registered with the runtime.
    pub fn gtype_name(&self) -> (out: Option<String>)
        ensures
            text_of(out) == self@.gtype_name(),
    {
        match &self.inner.name {
            Some(n) => {
                let cased = to_upper_camel(n.as_str());
                Some(join2(optional_text(&self.ns), cased.as_str()))
            },
            None => None,
        }
    }

    /// The class-initialization hook.
    pub fn class_init_method(&self) -> (out: Option<ClassInit>)
        ensures
            opt_view(out) == self@.class_init(),
    {
        let body = self.inner.type_init_body();
        if body.is_none() && self.extra_class_init_stmts.len() == 0 {
            return None;
        }
        Some(ClassInit { body, extra: copy_texts(&self.extra_class_init_stmts) })
    }

    /// The instance-initialization hook.
    pub fn instance_init_method(&self) -> (out: Option<Vec<String>>)
        ensures
            opt_texts(out) == self@.instance_init(),
    {
        if self.extra_instance_init_stmts.len() == 0 {
            None
        } else {
            Some(copy_texts(&self.extra_instance_init_stmts))
        }
    }

    /// The class struct that holds the vtable.
    pub fn class_struct_definition(&self) -> (out: Option<ClassStruct>)
        ensures
            opt_view(out) == self@.class_struct(),
    {
        let fields = self.inner.type_struct_fields();
        assert(fields@.len() == texts(fields@).len());
        if fields.len() == 0 || self.inner.generics.is_none() {
            return None;
        }
        match &self.inner.name {
            Some(n) => Some(
                ClassStruct {
                    class_name: join2(n.as_str(), "Class"),
                    parent_type: self.parent_type(),
                    fields,
                },
            ),
            None => None,
        }
    }

    /// The descriptor with which the class is registered.
    pub fn object_subclass_impl(&self) -> (out: Option<ObjectSubclass>)
        ensures
            opt_view(out) == self@.object_subclass(),
    {
        let gtype_name = match self.gtype_name() {
            Some(g) => g,
            None => {
                return None;
            },
        };
        let class_struct = match self.class_struct_definition() {
            Some(c) => Some(c.class_name),
            None => None,
        };
        Some(
            ObjectSubclass {
                gtype_name,
                abstract_: self.abstract_,
                parent_type: self.parent_type(),
                interfaces: copy_texts(&self.implements),
                class_struct,
                class_init: self.class_init_method(),
                instance_init: self.instance_init_method(),
            },
        )
    }

    /// Dispatch of property writes by identifier.
    pub fn set_property_method(&self) -> (out: Option<Dispatch>)
        ensures
            opt_view(out) == self@.property_dispatch(),
    {
        if self.inner.properties.len() == 0 {
            return None;
        }
        let class = match self.inner.base {
            TypeBase::Class => true,
            TypeBase::Interface => false,
        };
        match self.inner.method_path("properties", TypeMode::Subclass) {
            Some(p) => Some(
                Dispatch {
                    properties_path: p,
                    count: self.inner.properties.len(),
                    from_base_index: class && self.inner.has_method("properties"),
                },
            ),
            None => None,
        }
    }

    /// Dispatch of property reads by identifier.
    pub fn property_method(&self) -> (out: Option<Dispatch>)
        ensures
            opt_view(out) == self@.property_dispatch(),
    {
        self.set_property_method()
    }

    /// The object implementation of the class.
    pub fn object_impl_impl(&self) -> (out: Option<ObjectImpl>)
        requires
            self.wf(),
        ensures
            opt_view(out) == self@.object_impl(),
    {
        if self.inner.name.is_none() {
            return None;
        }
        Some(
            ObjectImpl {
                properties: self.inner.properties_method(),
                signals: self.inner.signals_method(),
                dispatch: self.set_property_method(),
            },
        )
    }

    /// What makes the class subclassable.
    pub fn is_subclassable_impl(&self) -> (out: Option<Subclassable>)
        ensures
            opt_view(out) == self@.subclassable(),
    {
        let methods = match self.inner.child_type_init_body() {
            Some(m) => m,
            None => {
                return None;
            },
        };
        match &self.inner.name {
            Some(n) => Some(Subclassable { trait_name: join2(n.as_str(), "Impl"), methods }),
            None => None,
        }
    }

    /// Everything that is generated for the class beside its module.
    /// The output is a function of the class: the same class gives the
    /// same output.
    pub fn to_tokens(&self) -> (out: ClassOutput)
        ensures
            out@ == self@.emitted(),
    {
        let trait_name = match &self.inner.name {
            Some(n) => Some(join2(n.as_str(), "Impl")),
            None => None,
        };
        let ext_name = match &self.inner.name {
            Some(n) => Some(join2(n.as_str(), "ImplExt")),
            None => None,
        };
        let parent_trait = match &self.parent_trait {
            Some(p) => Some(p.clone()),
            None => None,
        };
        ClassOutput {
            wrapper: self.wrapper(),
            public_methods: self.inner.public_methods(self.ext_trait()),
            subclassable: self.is_subclassable_impl(),
            virtual_traits: self.inner.virtual_traits(trait_name, ext_name, parent_trait),
        }
    }
}

/// Emission is a function of the class: two classes with the same contents
/// give the same output, artifact by artifact, so that emitting again
/// changes nothing.
pub proof fn law_emission_is_repeatable(a: ClassDefinition, b: ClassDefinition)
    requires
        a@ == b@,
    ensures
        a@.emitted() == b@.emitted(),
        a@.object_subclass() == b@.object_subclass(),
        a@.object_impl() == b@.object_impl(),
        a@.class_struct() == b@.class_struct(),
{
}

/// The items that a class adds to its own module, in the order in which
/// they are appended.
#[derive(Debug)]
pub struct ClassItems {
    /// The private items of the type definition.
    pub private: PrivateItems,
    pub object_subclass: Option<ObjectSubclass>,
    pub object_impl: Option<ObjectImpl>,
    pub class_struct: Option<ClassStruct>,
}

pub struct ClassItemsView {
    pub private: PrivateItemsView,
    pub object_subclass: Option<ObjectSubclassView>,
    pub object_impl: Option<ObjectImplView>,
    pub class_struct: Option<ClassStructView>,
}

impl View for ClassItems {
    type V = ClassItemsView;

    open spec fn view(&self) -> ClassItemsView {
        ClassItemsView {
            private: self.private@,
            object_subclass: opt_view(self.object_subclass),
            object_impl: opt_view(self.object_impl),
            class_struct: opt_view(self.class_struct),
        }
    }
}

impl ClassItemsView {
    /// How many items are appended to the module: one cell per signal, one
    /// block for the chain accessors where there are any, and one for each
    /// of the three artifacts that is there.
    pub open spec fn count(self) -> nat {
        self.private.signal_cells.len() + if self.private.chains.len() > 0 {
            1nat
        } else {
            0nat
        } + if self.object_subclass is Some {
            1nat
        } else {
            0nat
        } + if self.object_impl is Some {
            1nat
        } else {
            0nat
        } + if self.class_struct is Some {
            1nat
        } else {
            0nat
        }
    }
}

impl ClassDefinitionView {
    /// The items that the class adds to its module: the private items of
    /// the definition, then the registration descriptor, the object
    /// implementation and the class struct, each where it is needed.
    pub open spec fn module_items(self) -> ClassItemsView {
        ClassItemsView {
            private: private_items(self.inner),
            object_subclass: self.object_subclass(),
            object_impl: self.object_impl(),
            class_struct: self.class_struct(),
        }
    }
}

/// An unnamed class adds nothing to its module.
pub proof fn law_unnamed_class_adds_nothing(class: ClassDefinitionView)
    requires
        class.inner.name is None,
    ensures
        class.module_items().count() == 0,
        class.emitted().wrapper is None,
        class.emitted().public_methods is None,
        class.emitted().subclassable is None,
        class.emitted().virtual_traits is None,
{
}

impl ClassDefinition {
    /// The signals that get an accessor chaining to the parent's handler,
    /// by position.
    pub fn private_methods(&self) -> (out: Vec<usize>)
        ensures
            positions(out@) == private_items(self@.inner).chains,
    {
        self.inner.extra_private_items().chains
    }

    /// The items that the class adds to its own module.
    pub fn extra_private_items(&self) -> (out: ClassItems)
        requires
            self.wf(),
        ensures
            out@ == self@.module_items(),
    {
        ClassItems {
            private: self.inner.extra_private_items(),
            object_subclass: self.object_subclass_impl(),
            object_impl: self.object_impl_impl(),
            class_struct: self.class_struct_definition(),
        }
    }
}

/// The dispatch functions and the table of properties agree: where
/// dispatch is generated there is a table, it lists as many declared
/// properties as dispatch covers, and dispatch starts after the base index
/// exactly where the table records one.
pub proof fn law_dispatch_agrees_with_table(class: ClassDefinitionView)
    ensures
        class.property_dispatch() matches Some(d) ==> (properties_table(class.inner) matches Some(
            t,
        ) && t.entries.len() == d.count && t.sets_base_index == d.from_base_index),
{
}

} // verus!
