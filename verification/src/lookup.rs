//! Looking things up in a type definition: the defining items, the methods
//! that the user wrote, the spliced statements and the type expressions.

use crate::custom::stmts_under;
use crate::items::{
    opt_texts, opt_view, text_of, ImplBlock, ImplView, Item, Method, MethodView, StructItem,
    StructView,
};
use crate::model::{TypeBase, TypeContext, TypeMode};
use crate::names::same_text;
use crate::paths::{
    glib_path, impl_trait_path, join2, projection, type_expr, write_projection, write_type_expr,
};
use crate::registry::spliced;
use crate::type_definition::{TypeDefinition, TypeDefinitionView};
use crate::wrapper::texts;
use vstd::prelude::*;

verus! {

/// The position of the first method at or after `from` with the identifier
/// `ident`.
pub open spec fn first_method(methods: Seq<MethodView>, ident: Seq<char>, from: int) -> Option<int>
    decreases methods.len() - from,
{
    if from < 0 || from >= methods.len() {
        None
    } else if methods[from].ident == ident {
        Some(from)
    } else {
        first_method(methods, ident, from + 1)
    }
}

/// The first method with the identifier is the one before which none has
/// it.
proof fn lemma_first_method_is(methods: Seq<MethodView>, ident: Seq<char>, from: int, at: int)
    requires
        0 <= from <= at <= methods.len(),
        forall|j: int| from <= j < at ==> (#[trigger] methods[j]).ident != ident,
        at < methods.len() ==> methods[at].ident == ident,
    ensures
        first_method(methods, ident, from) == if at < methods.len() {
            Some(at)
        } else {
            None
        },
    decreases at - from,
{
    if from < at {
        lemma_first_method_is(methods, ident, from + 1, at);
    }
}

impl TypeDefinitionView {
    /// The struct that defines the type, where the definition has one.
    pub open spec fn properties_item(self) -> Option<StructView> {
        match (self.properties_item_index, self.module.content) {
            (Some(at), Some(items)) => if 0 <= at < items.len() && items[at] is Struct {
                Some(items[at]->Struct_0)
            } else {
                None
            },
            _ => None,
        }
    }

    /// The block that holds the members, where the definition has one.
    pub open spec fn methods_item(self) -> Option<ImplView> {
        match (self.methods_item_index, self.module.content) {
            (Some(at), Some(items)) => if 0 <= at < items.len() && items[at] is Impl {
                Some(items[at]->Impl_0)
            } else {
                None
            },
            _ => None,
        }
    }

    /// The first method of the members block with the identifier `ident`.
    pub open spec fn find_method(self, ident: Seq<char>) -> Option<MethodView> {
        match self.methods_item() {
            Some(b) => match first_method(b.methods, ident, 0) {
                Some(at) => Some(b.methods[at]),
                None => None,
            },
            None => None,
        }
    }

    /// Whether the user wrote a method `ident` in the members block.
    pub open spec fn has_method(self, ident: Seq<char>) -> bool {
        self.find_method(ident) is Some
    }

    /// The path of the runtime.
    pub open spec fn glib(self) -> Seq<char> {
        glib_path(self.crate_ident)
    }

    /// The type expression from mode `from` to mode `to`; none while the
    /// type has no name.
    pub open spec fn type_(self, from: TypeMode, to: TypeMode, ctx: TypeContext) -> Option<Seq<char>> {
        match self.name {
            Some(n) => Some(type_expr(n, self.generics, self.glib(), self.base, from, to, ctx)),
            None => None,
        }
    }

    /// The path of the method `method` of the implementation, reached from
    /// the type in mode `from`.
    pub open spec fn method_path(self, method: Seq<char>, from: TypeMode) -> Option<Seq<char>> {
        match self.type_(from, TypeMode::Subclass, TypeContext::External) {
            Some(ty) => Some(projection(ty, self.glib(), impl_trait_path(self.base), method)),
            None => None,
        }
    }
}

impl TypeDefinition {
    /// The path of the runtime under the crate identifier.
    pub fn glib(&self) -> (out: String)
        ensures
            out@ == self@.glib(),
    {
        join2(self.crate_ident.as_str(), "::glib")
    }

    /// The type expression that leads from this type in mode `from` to this
    /// type in mode `to`, written for the context `ctx`.
    pub fn type_(&self, from: TypeMode, to: TypeMode, ctx: TypeContext) -> (out: Option<String>)
        ensures
            text_of(out) == self@.type_(from, to, ctx),
    {
        match &self.name {
            Some(n) => {
                let glib = self.glib();
                Some(
                    write_type_expr(
                        n.as_str(),
                        &self.generics,
                        glib.as_str(),
                        self.base,
                        from,
                        to,
                        ctx,
                    ),
                )
            },
            None => None,
        }
    }

    /// The path under which generated code calls the method `method` of the
    /// implementation.
    pub fn method_path(&self, method: &str, from: TypeMode) -> (out: Option<String>)
        ensures
            text_of(out) == self@.method_path(method@, from),
    {
        match self.type_(from, TypeMode::Subclass, TypeContext::External) {
            Some(ty) => {
                let glib = self.glib();
                let tr = match self.base {
                    TypeBase::Class => "::subclass::object::ObjectImpl",
                    TypeBase::Interface => "::subclass::prelude::ObjectInterface",
                };
                Some(write_projection(ty.as_str(), glib.as_str(), tr, method))
            },
            None => None,
        }
    }

    /// The struct that defines the type.
    pub fn properties_item(&self) -> (out: Option<&StructItem>)
        ensures
            match out {
                Some(s) => self@.properties_item() == Some(s@),
                None => self@.properties_item() is None,
            },
    {
        let at = match self.properties_item_index {
            Some(at) => at,
            None => {
                return None;
            },
        };
        let items = match &self.module.content {
            Some(items) => items,
            None => {
                return None;
            },
        };
        if at >= items.len() {
            return None;
        }
        match &items[at] {
            Item::Struct(s) => Some(s),
            _ => None,
        }
    }

    /// The block that holds the members.
    pub fn methods_item(&self) -> (out: Option<&ImplBlock>)
        ensures
            match out {
                Some(b) => self@.methods_item() == Some(b@),
                None => self@.methods_item() is None,
            },
    {
        let at = match self.methods_item_index {
            Some(at) => at,
            None => {
                return None;
            },
        };
        let items = match &self.module.content {
            Some(items) => items,
            None => {
                return None;
            },
        };
        if at >= items.len() {
            return None;
        }
        match &items[at] {
            Item::Impl(b) => Some(b),
            _ => None,
        }
    }

    /// The first method of the members block whose identifier is `ident`.
    pub fn find_method(&self, ident: &str) -> (out: Option<&Method>)
        ensures
            match out {
                Some(m) => self@.find_method(ident@) == Some(m@),
                None => self@.find_method(ident@) is None,
            },
    {
        let block = match self.methods_item() {
            Some(b) => b,
            None => {
                return None;
            },
        };
        let ghost ms = block@.methods;
        let mut i: usize = 0;
        while i < block.methods.len()
            invariant
                i <= block.methods@.len(),
                ms == block@.methods,
                ms.len() == block.methods@.len(),
                self@.methods_item() == Some(block@),
                forall|j: int| 0 <= j < i ==> (#[trigger] ms[j]).ident != ident@,
            decreases block.methods@.len() - i,
        {
            assert(ms[i as int] == block.methods@[i as int]@);
            if same_text(block.methods[i].ident.as_str(), ident) {
                proof {
                    lemma_first_method_is(ms, ident@, 0, i as int);
                }
                return Some(&block.methods[i]);
            }
            i += 1;
        }
        proof {
            lemma_first_method_is(ms, ident@, 0, i as int);
        }
        None
    }

    /// Whether the user wrote a method `method` in the members block.
    pub fn has_method(&self, method: &str) -> (r: bool)
        ensures
            r == self@.has_method(method@),
    {
        self.find_method(method).is_some()
    }

    /// Adds `stmt` to the statements spliced into the generated method
    /// `name`, after those already there.
    pub fn add_custom_stmt(&mut self, name: &str, stmt: String)
        requires
            old(self).wf(),
        ensures
            final(self).wf(),
            final(self)@ == (TypeDefinitionView {
                custom_stmts: old(self)@.custom_stmts.insert(
                    name@,
                    stmts_under(old(self)@.custom_stmts, name@).push(stmt@),
                ),
                ..old(self)@
            }),
    {
        self.custom_stmts.add_custom_stmt(name, stmt);
    }

    /// Whether statements are spliced into the generated method `name`.
    pub fn has_custom_stmts(&self, name: &str) -> (r: bool)
        requires
            self.wf(),
        ensures
            r == self@.custom_stmts.dom().contains(name@),
    {
        self.custom_stmts.has_custom_stmts(name)
    }

    /// The statements spliced into the generated method `name`, in the
    /// order in which they were added.
    pub fn custom_stmts_for(&self, name: &str) -> (r: Option<Vec<String>>)
        requires
            self.wf(),
        ensures
            r is Some == self@.custom_stmts.dom().contains(name@),
            r matches Some(v) ==> texts(v@) == self@.custom_stmts[name@],
    {
        self.custom_stmts.custom_stmts_for(name)
    }
}

/// One input of a generated method.
#[derive(Debug)]
pub enum Input {
    /// `self`, in any form.
    Receiver,
    /// An argument bound to a plain identifier.
    Ident(String),
    /// An argument bound by any other pattern.
    Pattern,
}

pub enum InputView {
    Receiver,
    Ident(Seq<char>),
    Pattern,
}

impl View for Input {
    type V = InputView;

    open spec fn view(&self) -> InputView {
        match self {
            Input::Receiver => InputView::Receiver,
            Input::Ident(n) => InputView::Ident(n@),
            Input::Pattern => InputView::Pattern,
        }
    }
}

/// The views of inputs.
pub open spec fn input_views(v: Seq<Input>) -> Seq<InputView> {
    Seq::new(v.len(), |i: int| v[i]@)
}

/// How an input is handed on in a call.
pub open spec fn argument(input: InputView) -> Seq<char> {
    match input {
        InputView::Receiver => "self"@,
        InputView::Ident(n) => n,
        InputView::Pattern => Seq::empty(),
    }
}

/// The body of a generated method that wraps one written by the user.
#[derive(Debug)]
pub struct MethodWrapper {
    /// The spliced statements, which come first.
    pub custom: Option<Vec<String>>,
    /// The arguments of the call of the user's method, which comes last;
    /// nothing where the user wrote no such method.
    pub call: Option<Vec<String>>,
}

pub struct MethodWrapperView {
    pub custom: Option<Seq<Seq<char>>>,
    pub call: Option<Seq<Seq<char>>>,
}

impl View for MethodWrapper {
    type V = MethodWrapperView;

    open spec fn view(&self) -> MethodWrapperView {
        MethodWrapperView {
            custom: opt_texts(self.custom),
            call: opt_texts(self.call),
        }
    }
}

impl TypeDefinitionView {
    /// The wrapper of the user's method `name`: needed where the user wrote
    /// the method or spliced statements into it.
    pub open spec fn method_wrapper(self, name: Seq<char>, inputs: Seq<InputView>) -> Option<
        MethodWrapperView,
    > {
        let custom = spliced(self, name);
        if !self.has_method(name) && custom is None {
            None
        } else {
            Some(
                MethodWrapperView {
                    custom,
                    call: if self.has_method(name) {
                        Some(Seq::new(inputs.len(), |i: int| argument(inputs[i])))
                    } else {
                        None
                    },
                },
            )
        }
    }
}

impl TypeDefinition {
    /// The body of the generated method `name` with the inputs `inputs`:
    /// the spliced statements, then a call of the method that the user
    /// wrote. Where the user's method is called, every input must be `self`
    /// or a plain identifier.
    pub fn method_wrapper(&self, name: &str, inputs: &Vec<Input>) -> (out: Option<MethodWrapper>)
        requires
            self.wf(),
            self@.has_method(name@) ==> forall|i: int|
                0 <= i < inputs@.len() ==> !(#[trigger] inputs@[i] is Pattern),
        ensures
            opt_view(out) == self@.method_wrapper(name@, input_views(inputs@)),
    {
        let has_method = self.has_method(name);
        let custom = self.custom_stmts_for(name);
        if !has_method && custom.is_none() {
            return None;
        }
        if !has_method {
            return Some(MethodWrapper { custom, call: None });
        }
        let mut call: Vec<String> = Vec::new();
        let mut i: usize = 0;
        while i < inputs.len()
            invariant
                i <= inputs@.len(),
                call@.len() == i,
                forall|j: int| 0 <= j < inputs@.len() ==> !(#[trigger] inputs@[j] is Pattern),
                forall|j: int| 0 <= j < i ==> (#[trigger] call@[j])@ == argument(inputs@[j]@),
            decreases inputs@.len() - i,
        {
            assert(!(inputs@[i as int] is Pattern));
            match &inputs[i] {
                Input::Receiver => {
                    call.push(String::from_str("self"));
                },
                Input::Ident(n) => {
                    call.push(n.clone());
                },
                Input::Pattern => {},
            }
            i += 1;
        }
        assert(texts(call@) =~= Seq::new(
            input_views(inputs@).len(),
            |i: int| argument(input_views(inputs@)[i]),
        ));
        Some(MethodWrapper { custom, call: Some(call) })
    }
}

impl TypeDefinition {
    /// Gives the module an empty body where it has none, and hands out the
    /// body.
    pub fn ensure_items(&mut self) -> (items: &mut Vec<Item>)
        ensures
            items@ == match old(self).module.content {
                Some(v) => v@,
                None => Seq::<Item>::empty(),
            },
            final(self).module.content == Some(*final(items)),
            final(self)@ == (TypeDefinitionView {
                module: final(self)@.module,
                ..old(self)@
            }),
            final(self)@.module.ident == old(self)@.module.ident,
            final(self)@.module.vis == old(self)@.module.vis,
    {
        if self.module.content.is_none() {
            self.module.content = Some(Vec::new());
        }
        match &mut self.module.content {
            Some(items) => items,
            None => vstd::pervasive::unreached(),
        }
    }
}

impl TypeDefinition {
    /// The struct that defines the type, for changing it in place.
    pub fn properties_item_mut(&mut self) -> (out: Option<&mut StructItem>)
        ensures
            out is Some == old(self)@.properties_item() is Some,
            out matches Some(s) ==> old(self)@.properties_item() == Some(s@),
            out matches Some(s) ==> final(self).module.content is Some,
            out matches Some(s) ==> final(self).module.content->0@ == old(
                self,
            ).module.content->0@.update(
                old(self).properties_item_index->0 as int,
                Item::Struct(*final(s)),
            ),
            out is None ==> final(self)@ == old(self)@,
            final(self)@ == (TypeDefinitionView { module: final(self)@.module, ..old(self)@ }),
            final(self)@.module.ident == old(self)@.module.ident,
            final(self)@.module.vis == old(self)@.module.vis,
    {
        let at = match self.properties_item_index {
            Some(at) => at,
            None => {
                return None;
            },
        };
        let items = match &mut self.module.content {
            Some(items) => items,
            None => {
                return None;
            },
        };
        if at >= items.len() {
            return None;
        }
        let found = match &items[at] {
            Item::Struct(_) => true,
            _ => false,
        };
        if !found {
            return None;
        }
        match &mut items[at] {
            Item::Struct(s) => Some(s),
            _ => vstd::pervasive::unreached(),
        }
    }
}

impl TypeDefinition {
    /// The block that holds the members, for changing it in place.
    pub fn methods_item_mut(&mut self) -> (out: Option<&mut ImplBlock>)
        ensures
            out is Some == old(self)@.methods_item() is Some,
            out matches Some(s) ==> old(self)@.methods_item() == Some(s@),
            out matches Some(s) ==> final(self).module.content is Some,
            out matches Some(s) ==> final(self).module.content->0@ == old(
                self,
            ).module.content->0@.update(
                old(self).methods_item_index->0 as int,
                Item::Impl(*final(s)),
            ),
            out is None ==> final(self)@ == old(self)@,
            final(self)@ == (TypeDefinitionView { module: final(self)@.module, ..old(self)@ }),
            final(self)@.module.ident == old(self)@.module.ident,
            final(self)@.module.vis == old(self)@.module.vis,
    {
        let at = match self.methods_item_index {
            Some(at) => at,
            None => {
                return None;
            },
        };
        let items = match &mut self.module.content {
            Some(items) => items,
            None => {
                return None;
            },
        };
        if at >= items.len() {
            return None;
        }
        let found = match &items[at] {
            Item::Impl(_) => true,
            _ => false,
        };
        if !found {
            return None;
        }
        match &mut items[at] {
            Item::Impl(s) => Some(s),
            _ => vstd::pervasive::unreached(),
        }
    }
}

} // verus!
