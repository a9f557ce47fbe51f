//! The type expressions and paths that generated code is written with.

use crate::items::text_of;
use crate::model::{TypeBase, TypeContext, TypeMode};
use vstd::prelude::*;
use vstd::string::*;

verus! {

/// The text of an optional piece, empty where there is none.
pub open spec fn optional(s: Option<Seq<char>>) -> Seq<char> {
    match s {
        Some(t) => t,
        None => Seq::empty(),
    }
}

/// The path of the runtime under the crate `go`.
pub open spec fn glib_path(go: Seq<char>) -> Seq<char> {
    go + "::glib"@
}

/// `<recv as glib::trait_path>::item`
pub open spec fn projection(recv: Seq<char>, glib: Seq<char>, trait_path: Seq<char>, item: Seq<char>) -> Seq<
    char,
> {
    "<"@ + recv + " as "@ + glib + trait_path + ">::"@ + item
}

/// How the type is written where it stands for itself: `Self` inside the
/// implementation, the name with its generics outside.
pub open spec fn receiver(name: Seq<char>, generics: Option<Seq<char>>, ctx: TypeContext) -> Seq<char> {
    match ctx {
        TypeContext::Internal => "Self"@,
        TypeContext::External => name + optional(generics),
    }
}

/// The expression that leads from the type in mode `from` to the type in
/// mode `to`.
pub open spec fn type_expr(
    name: Seq<char>,
    generics: Option<Seq<char>>,
    glib: Seq<char>,
    base: TypeBase,
    from: TypeMode,
    to: TypeMode,
    ctx: TypeContext,
) -> Seq<char> {
    let recv = receiver(name, generics, ctx);
    match (from, to, base) {
        (TypeMode::Subclass, TypeMode::Subclass, _) => recv,
        (TypeMode::Wrapper, TypeMode::Wrapper, _) => recv,
        (TypeMode::Subclass, TypeMode::Wrapper, TypeBase::Class) => projection(
            recv,
            glib,
            "::subclass::types::ObjectSubclass"@,
            "Type"@,
        ),
        (TypeMode::Subclass, TypeMode::Wrapper, TypeBase::Interface) => "super::"@ + name
            + optional(generics),
        (TypeMode::Wrapper, TypeMode::Subclass, TypeBase::Class) => projection(
            recv,
            glib,
            "::object::ObjectSubclassIs"@,
            "Subclass"@,
        ),
        (TypeMode::Wrapper, TypeMode::Subclass, TypeBase::Interface) => projection(
            recv,
            glib,
            "::object::ObjectType"@,
            "GlibClassType"@,
        ),
    }
}

/// The trait through which the methods of an object's implementation are
/// reached.
pub open spec fn impl_trait_path(base: TypeBase) -> Seq<char> {
    match base {
        TypeBase::Class => "::subclass::object::ObjectImpl"@,
        TypeBase::Interface => "::subclass::prelude::ObjectInterface"@,
    }
}

/// `a` followed by `b`.
pub fn join2(a: &str, b: &str) -> (out: String)
    ensures
        out@ == a@ + b@,
{
    let mut out = String::from_str(a);
    out.append(b);
    out
}

/// The text of an optional piece.
pub fn optional_text(s: &Option<String>) -> (out: &str)
    ensures
        out@ == optional(text_of(*s)),
{
    match s {
        Some(t) => t.as_str(),
        None => {
            proof {
                reveal_strlit("");
            }
            assert(""@ =~= Seq::<char>::empty());
            ""
        },
    }
}

/// Writes `<recv as glib::trait_path>::item`.
pub fn write_projection(recv: &str, glib: &str, trait_path: &str, item: &str) -> (out: String)
    ensures
        out@ == projection(recv@, glib@, trait_path@, item@),
{
    let mut out = String::from_str("<");
    out.append(recv);
    out.append(" as ");
    out.append(glib);
    out.append(trait_path);
    out.append(">::");
    out.append(item);
    out
}

/// Writes the expression that leads from the type in mode `from` to the
/// type in mode `to`.
pub fn write_type_expr(
    name: &str,
    generics: &Option<String>,
    glib: &str,
    base: TypeBase,
    from: TypeMode,
    to: TypeMode,
    ctx: TypeContext,
) -> (out: String)
    ensures
        out@ == type_expr(name@, text_of(*generics), glib@, base, from, to, ctx),
{
    let recv = match ctx {
        TypeContext::Internal => String::from_str("Self"),
        TypeContext::External => join2(name, optional_text(generics)),
    };
    match (from, to, base) {
        (TypeMode::Subclass, TypeMode::Subclass, _) => recv,
        (TypeMode::Wrapper, TypeMode::Wrapper, _) => recv,
        (TypeMode::Subclass, TypeMode::Wrapper, TypeBase::Class) => write_projection(
            recv.as_str(),
            glib,
            "::subclass::types::ObjectSubclass",
            "Type",
        ),
        (TypeMode::Subclass, TypeMode::Wrapper, TypeBase::Interface) => {
            let mut out = String::from_str("super::");
            out.append(name);
            out.append(optional_text(generics));
            out
        },
        (TypeMode::Wrapper, TypeMode::Subclass, TypeBase::Class) => write_projection(
            recv.as_str(),
            glib,
            "::object::ObjectSubclassIs",
            "Subclass",
        ),
        (TypeMode::Wrapper, TypeMode::Subclass, TypeBase::Interface) => write_projection(
            recv.as_str(),
            glib,
            "::object::ObjectType",
            "GlibClassType",
        ),
    }
}

} // verus!
