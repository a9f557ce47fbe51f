//! What extraction changes in the module body: consumed annotations, the
//! struct's visibility, the hidden header field of an interface, and
//! constructors that are filled in.

use crate::access::{rewritten_struct_vis, struct_vis_rewritten};
use crate::items::{
    text_of, views, Field, FieldView, FieldsKind, ImplBlock, ImplView, Item, ItemView, Method,
    MethodView, Role, StructItem, StructView,
};
use crate::model::TypeBase;
use crate::wrapper::fill_in_constructor;
use vstd::prelude::*;

verus! {

/// The field with its property annotation consumed.
pub open spec fn plain_field(f: FieldView) -> FieldView {
    FieldView { annotated: false, ..f }
}

/// The method with its member annotation consumed.
pub open spec fn plain_method(m: MethodView) -> MethodView {
    MethodView { role: Role::Plain, ..m }
}

/// A constructor after its body is filled in: one that has statements is
/// left as it is; one without gets the generated body and is marked
/// `#[inline]`. The signature stays as it is either way.
pub open spec fn filled_in(m: MethodView) -> MethodView {
    if m.has_body {
        m
    } else {
        MethodView { inline: true, has_body: true, ..m }
    }
}

/// A constructor of a class after the rewrite: its annotation is consumed,
/// and its body is filled in.
pub open spec fn built_constructor(m: MethodView) -> MethodView {
    filled_in(MethodView { constructor: false, constructor_tokens: false, ..m })
}

/// A method of a block of wrapper methods after the rewrite.
pub open spec fn wrapper_method(m: MethodView, base: TypeBase) -> MethodView {
    if base == TypeBase::Class && m.constructor {
        built_constructor(m)
    } else {
        m
    }
}

/// Whether an interface's header field is put in front of the fields.
pub open spec fn takes_header(kind: FieldsKind, base: TypeBase) -> bool {
    base == TypeBase::Interface && kind != FieldsKind::Unit
}

/// The struct that defines the type after extraction.
pub open spec fn defining_struct(s: StructView, base: TypeBase) -> StructView {
    StructView {
        tagged: false,
        vis: rewritten_struct_vis(s.vis),
        header: s.header || takes_header(s.kind, base),
        fields: Seq::new(s.fields.len(), |i: int| plain_field(s.fields[i])),
        ..s
    }
}

/// The block that holds the members after extraction.
pub open spec fn members_block(b: ImplView) -> ImplView {
    ImplView {
        tagged: false,
        methods: Seq::new(b.methods.len(), |i: int| plain_method(b.methods[i])),
        ..b
    }
}

/// Whether the block holds methods of the wrapper.
pub open spec fn is_wrapper_block(b: ImplView) -> bool {
    b.trait_path is None && b.wrapper_tagged
}

/// A block of wrapper methods after extraction.
pub open spec fn wrapper_block(b: ImplView, base: TypeBase) -> ImplView {
    ImplView {
        wrapper_tagged: false,
        methods: Seq::new(b.methods.len(), |i: int| wrapper_method(b.methods[i], base)),
        ..b
    }
}

impl Field {
    /// A copy of the field.
    pub fn duplicate(&self) -> (out: Field)
        ensures
            out@ == self@,
    {
        Field {
            ident: self.ident.clone(),
            annotated: self.annotated,
            explicit_name: self.explicit_name.clone(),
            ty: self.ty.clone(),
            access: self.access,
            custom_get: self.custom_get,
            custom_set: self.custom_set,
        }
    }
}

impl Method {
    /// A copy of the method.
    pub fn duplicate(&self) -> (out: Method)
        ensures
            out@ == self@,
    {
        let mut args: Vec<Option<String>> = Vec::new();
        let mut i: usize = 0;
        while i < self.args.len()
            invariant
                i <= self.args@.len(),
                args@.len() == i,
                forall|j: int| 0 <= j < i ==> text_of(#[trigger] args@[j]) == text_of(self.args@[j]),
            decreases self.args@.len() - i,
        {
            args.push(self.args[i].clone());
            i += 1;
        }
        let out = Method {
            ident: self.ident.clone(),
            role: self.role,
            has_body: self.has_body,
            inherited: self.inherited,
            constructor: self.constructor,
            constructor_tokens: self.constructor_tokens,
            inline: self.inline,
            has_receiver: self.has_receiver,
            has_return: self.has_return,
            args,
        };
        assert(out@.args =~= self@.args);
        out
    }
}

/// Rewrites the struct that defines the type.
pub fn rewrite_struct(s: &StructItem, base: TypeBase) -> (out: StructItem)
    ensures
        out@ == defining_struct(s@, base),
{
    let mut fields: Vec<Field> = Vec::new();
    let mut i: usize = 0;
    while i < s.fields.len()
        invariant
            i <= s.fields@.len(),
            fields@.len() == i,
            forall|j: int| 0 <= j < i ==> (#[trigger] fields@[j])@ == plain_field(s.fields@[j]@),
        decreases s.fields@.len() - i,
    {
        let mut f = s.fields[i].duplicate();
        f.annotated = false;
        fields.push(f);
        i += 1;
    }
    let header = s.header || match base {
        TypeBase::Interface => match s.kind {
            FieldsKind::Unit => false,
            _ => true,
        },
        TypeBase::Class => false,
    };
    let out = StructItem {
        ident: s.ident.clone(),
        tagged: false,
        vis: struct_vis_rewritten(&s.vis),
        generics: s.generics.clone(),
        kind: s.kind,
        header,
        fields,
    };
    assert(out@.fields =~= defining_struct(s@, base).fields);
    out
}

/// A copy of the block, with its methods replaced by `methods`.
fn block_with(b: &ImplBlock, tagged: bool, wrapper_tagged: bool, methods: Vec<Method>) -> (out:
    ImplBlock)
    ensures
        out@ == (ImplView { tagged, wrapper_tagged, methods: views(methods@), ..b@ }),
{
    ImplBlock {
        self_ident: b.self_ident.clone(),
        trait_path: match &b.trait_path {
            Some(p) => Some(p.duplicate()),
            None => None,
        },
        tagged,
        wrapper_tagged,
        generics: b.generics.clone(),
        methods,
    }
}

/// Rewrites the block that holds the members.
pub fn rewrite_members_block(b: &ImplBlock) -> (out: ImplBlock)
    ensures
        out@ == members_block(b@),
{
    let mut methods: Vec<Method> = Vec::new();
    let mut i: usize = 0;
    while i < b.methods.len()
        invariant
            i <= b.methods@.len(),
            methods@.len() == i,
            forall|j: int| 0 <= j < i ==> (#[trigger] methods@[j])@ == plain_method(b.methods@[j]@),
        decreases b.methods@.len() - i,
    {
        let mut m = b.methods[i].duplicate();
        m.role = Role::Plain;
        methods.push(m);
        i += 1;
    }
    assert(views(methods@) =~= members_block(b@).methods);
    block_with(b, false, b.wrapper_tagged, methods)
}

/// Rewrites a block of wrapper methods.
pub fn rewrite_wrapper_block(b: &ImplBlock, base: TypeBase) -> (out: ImplBlock)
    ensures
        out@ == wrapper_block(b@, base),
{
    let mut methods: Vec<Method> = Vec::new();
    let mut i: usize = 0;
    while i < b.methods.len()
        invariant
            i <= b.methods@.len(),
            methods@.len() == i,
            forall|j: int|
                0 <= j < i ==> (#[trigger] methods@[j])@ == wrapper_method(b.methods@[j]@, base),
        decreases b.methods@.len() - i,
    {
        let mut m = b.methods[i].duplicate();
        let class = match base {
            TypeBase::Class => true,
            TypeBase::Interface => false,
        };
        if class && m.constructor {
            m.constructor = false;
            m.constructor_tokens = false;
            let _ = fill_in_constructor(&mut m);
        }
        methods.push(m);
        i += 1;
    }
    assert(views(methods@) =~= wrapper_block(b@, base).methods);
    block_with(b, b.tagged, false, methods)
}

/// An item after extraction. `defining` says that it is the struct that
/// defines the type, `members` that it is the block that holds the members.
/// Any other item is left as it is, but for a block of wrapper methods.
pub open spec fn rewritten_item(item: ItemView, defining: bool, members: bool, base: TypeBase) -> ItemView {
    match item {
        ItemView::Struct(s) => if defining {
            ItemView::Struct(defining_struct(s, base))
        } else {
            item
        },
        ItemView::Impl(b) => {
            let first = if members {
                members_block(b)
            } else {
                b
            };
            if is_wrapper_block(first) {
                ItemView::Impl(wrapper_block(first, base))
            } else {
                ItemView::Impl(first)
            }
        },
        ItemView::Other => item,
    }
}

/// Rewrites one item; gives nothing where the item stays as it is.
pub fn rewrite_item(item: &Item, defining: bool, members: bool, base: TypeBase) -> (out: Option<Item>)
    ensures
        match out {
            Some(new) => new@ == rewritten_item(item@, defining, members, base),
            None => item@ == rewritten_item(item@, defining, members, base),
        },
{
    match item {
        Item::Struct(s) => {
            if defining {
                Some(Item::Struct(rewrite_struct(s, base)))
            } else {
                None
            }
        },
        Item::Impl(b) => {
            let wrapper = b.trait_path.is_none() && b.wrapper_tagged;
            if members {
                let first = rewrite_members_block(b);
                if wrapper {
                    Some(Item::Impl(rewrite_wrapper_block(&first, base)))
                } else {
                    Some(Item::Impl(first))
                }
            } else if wrapper {
                Some(Item::Impl(rewrite_wrapper_block(b, base)))
            } else {
                None
            }
        },
        Item::Other => None,
    }
}

} // verus!
