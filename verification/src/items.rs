//! The items of a module body, reduced to what the builder reads and
//! rewrites: structs with their fields, implementation blocks with their
//! methods, and everything else.

use crate::model::{Path, PathView, Visibility, VisibilityView};
use vstd::prelude::*;

verus! {

/// The views of the elements of `s`, in order.
pub open spec fn views<T: View>(s: Seq<T>) -> Seq<T::V> {
    Seq::new(s.len(), |i: int| s[i]@)
}

/// The view of an optional value.
pub open spec fn opt_view<T: View>(o: Option<T>) -> Option<T::V> {
    match o {
        Some(t) => Some(t@),
        None => None,
    }
}

/// The texts of an optional list of texts.
pub open spec fn opt_texts(o: Option<Vec<String>>) -> Option<Seq<Seq<char>>> {
    match o {
        Some(v) => Some(Seq::new(v@.len(), |i: int| v@[i]@)),
        None => None,
    }
}

/// The view of an optional text.
pub open spec fn text_of(s: Option<String>) -> Option<Seq<char>> {
    match s {
        Some(t) => Some(t@),
        None => None,
    }
}

/// How a property may be accessed.
#[derive(Debug, PartialEq, Eq, Structural, Clone, Copy)]
pub struct Access {
    pub readable: bool,
    pub writable: bool,
    pub construct: bool,
    pub construct_only: bool,
}

/// A field of the struct that holds a type's properties.
#[derive(Debug)]
pub struct Field {
    /// The field's identifier; empty for a tuple field.
    pub ident: String,
    /// Whether the field carries the property annotation.
    pub annotated: bool,
    /// The name given in the annotation, if any.
    pub explicit_name: Option<String>,
    /// The declared type, as written.
    pub ty: String,
    pub access: Access,
    /// Whether the annotation supplies its own getter.
    pub custom_get: bool,
    /// Whether the annotation supplies its own setter.
    pub custom_set: bool,
}

pub struct FieldView {
    pub ident: Seq<char>,
    pub annotated: bool,
    pub explicit_name: Option<Seq<char>>,
    pub ty: Seq<char>,
    pub access: Access,
    pub custom_get: bool,
    pub custom_set: bool,
}

impl View for Field {
    type V = FieldView;

    open spec fn view(&self) -> FieldView {
        FieldView {
            ident: self.ident@,
            annotated: self.annotated,
            explicit_name: text_of(self.explicit_name),
            ty: self.ty@,
            access: self.access,
            custom_get: self.custom_get,
            custom_set: self.custom_set,
        }
    }
}

/// What an annotation makes of a method.
#[derive(Debug, PartialEq, Eq, Structural, Clone, Copy)]
pub enum Role {
    /// No annotation: an ordinary method.
    Plain,
    Signal,
    Public,
    Virtual,
}

/// A method of an implementation block.
#[derive(Debug)]
pub struct Method {
    pub ident: String,
    pub role: Role,
    /// Whether the body holds at least one statement.
    pub has_body: bool,
    /// For a signal: whether it is declared by an ancestor, so that this
    /// declaration only replaces its class handler.
    pub inherited: bool,
    /// Whether the method carries the constructor annotation.
    pub constructor: bool,
    /// Whether tokens follow the constructor annotation.
    pub constructor_tokens: bool,
    /// Whether the method is marked `#[inline]` by the builder.
    pub inline: bool,
    pub has_receiver: bool,
    pub has_return: bool,
    /// One entry per typed argument, in order: its identifier, or nothing
    /// where the pattern is not a plain identifier.
    pub args: Vec<Option<String>>,
}

pub struct MethodView {
    pub ident: Seq<char>,
    pub role: Role,
    pub has_body: bool,
    pub inherited: bool,
    pub constructor: bool,
    pub constructor_tokens: bool,
    pub inline: bool,
    pub has_receiver: bool,
    pub has_return: bool,
    pub args: Seq<Option<Seq<char>>>,
}

impl View for Method {
    type V = MethodView;

    open spec fn view(&self) -> MethodView {
        MethodView {
            ident: self.ident@,
            role: self.role,
            has_body: self.has_body,
            inherited: self.inherited,
            constructor: self.constructor,
            constructor_tokens: self.constructor_tokens,
            inline: self.inline,
            has_receiver: self.has_receiver,
            has_return: self.has_return,
            args: Seq::new(self.args@.len(), |i: int| text_of(self.args@[i])),
        }
    }
}

/// The shape of a struct's field list.
#[derive(Debug, PartialEq, Eq, Structural, Clone, Copy)]
pub enum FieldsKind {
    Named,
    Unnamed,
    Unit,
}

/// A struct of the module body.
#[derive(Debug)]
pub struct StructItem {
    pub ident: String,
    /// Whether the struct is tagged as the holder of the properties.
    pub tagged: bool,
    pub vis: Visibility,
    /// The generic parameters, as written.
    pub generics: String,
    pub kind: FieldsKind,
    /// Whether the field list starts with the hidden interface header.
    pub header: bool,
    pub fields: Vec<Field>,
}

pub struct StructView {
    pub ident: Seq<char>,
    pub tagged: bool,
    pub vis: VisibilityView,
    pub generics: Seq<char>,
    pub kind: FieldsKind,
    pub header: bool,
    pub fields: Seq<FieldView>,
}

impl View for StructItem {
    type V = StructView;

    open spec fn view(&self) -> StructView {
        StructView {
            ident: self.ident@,
            tagged: self.tagged,
            vis: self.vis@,
            generics: self.generics@,
            kind: self.kind,
            header: self.header,
            fields: views(self.fields@),
        }
    }
}

/// An implementation block of the module body.
#[derive(Debug)]
pub struct ImplBlock {
    /// The self type, where it is a single bare identifier.
    pub self_ident: Option<String>,
    /// The implemented trait; nothing for an inherent block.
    pub trait_path: Option<Path>,
    /// Whether the block is tagged as the holder of the members.
    pub tagged: bool,
    /// Whether the block is tagged as holding methods of the wrapper.
    pub wrapper_tagged: bool,
    pub generics: String,
    pub methods: Vec<Method>,
}

pub struct ImplView {
    pub self_ident: Option<Seq<char>>,
    pub trait_path: Option<PathView>,
    pub tagged: bool,
    pub wrapper_tagged: bool,
    pub generics: Seq<char>,
    pub methods: Seq<MethodView>,
}

impl View for ImplBlock {
    type V = ImplView;

    open spec fn view(&self) -> ImplView {
        ImplView {
            self_ident: text_of(self.self_ident),
            trait_path: match self.trait_path {
                Some(p) => Some(p@),
                None => None,
            },
            tagged: self.tagged,
            wrapper_tagged: self.wrapper_tagged,
            generics: self.generics@,
            methods: views(self.methods@),
        }
    }
}

/// One item of a module body.
#[derive(Debug)]
pub enum Item {
    Struct(StructItem),
    Impl(ImplBlock),
    /// Any other declaration; the builder passes it through.
    Other,
}

pub enum ItemView {
    Struct(StructView),
    Impl(ImplView),
    Other,
}

impl View for Item {
    type V = ItemView;

    open spec fn view(&self) -> ItemView {
        match self {
            Item::Struct(s) => ItemView::Struct(s@),
            Item::Impl(i) => ItemView::Impl(i@),
            Item::Other => ItemView::Other,
        }
    }
}

impl ImplView {
    /// An inherent block whose self type is the identifier `name`.
    pub open spec fn is_inherent_for(self, name: Seq<char>) -> bool {
        self.trait_path is None && self.self_ident == Some(name)
    }
}

/// The role that the annotations of a method give it. A method is a member
/// of one kind only: the signal annotation goes before the public one, and
/// that one before the virtual one.
pub open spec fn role_of(signal: bool, public: bool, virt: bool) -> Role {
    if signal {
        Role::Signal
    } else if public {
        Role::Public
    } else if virt {
        Role::Virtual
    } else {
        Role::Plain
    }
}

/// The access that the flags of a property annotation give. A property for
/// which neither reading nor writing is asked can be read and written.
pub open spec fn access_of(get: bool, set: bool, construct: bool, construct_only: bool) -> Access {
    Access {
        readable: get || !set,
        writable: set || !get,
        construct,
        construct_only,
    }
}

impl Role {
    /// Decides the role of a method from the annotations that it carries.
    pub fn from_annotations(signal: bool, public: bool, virt: bool) -> (out: Role)
        ensures
            out == role_of(signal, public, virt),
    {
        if signal {
            Role::Signal
        } else if public {
            Role::Public
        } else if virt {
            Role::Virtual
        } else {
            Role::Plain
        }
    }
}

impl Access {
    /// Decides the access of a property from the flags of its annotation.
    pub fn from_flags(get: bool, set: bool, construct: bool, construct_only: bool) -> (out: Access)
        ensures
            out == access_of(get, set, construct, construct_only),
    {
        Access { readable: get || !set, writable: set || !get, construct, construct_only }
    }
}

} // verus!
