//! The member extractors: properties from the fields of the struct, and
//! signals, public methods and virtual methods from the methods of the
//! implementation block.

use crate::diag::Errors;
use crate::items::{views, Access, Field, FieldView, Method, MethodView, Role};
use crate::names::{format_name, formatted_name, valid_name};
use crate::screen::{
    kept, lemma_kept, lemma_kept_names_unique, positions, reported, screen, Entry, EntryView,
};
use vstd::prelude::*;

verus! {

/// A property: a named, typed value of an object.
#[derive(Debug)]
pub struct Property {
    /// The name under which the property is registered.
    pub name: String,
    /// Position of the field that declares it.
    pub field: usize,
    /// The declared type, as written.
    pub ty: String,
    pub access: Access,
    pub custom_get: bool,
    pub custom_set: bool,
}

pub struct PropertyView {
    pub name: Seq<char>,
    pub field: int,
    pub ty: Seq<char>,
    pub access: Access,
    pub custom_get: bool,
    pub custom_set: bool,
}

impl View for Property {
    type V = PropertyView;

    open spec fn view(&self) -> PropertyView {
        PropertyView {
            name: self.name@,
            field: self.field as int,
            ty: self.ty@,
            access: self.access,
            custom_get: self.custom_get,
            custom_set: self.custom_set,
        }
    }
}

/// A signal, a public method or a virtual method.
#[derive(Debug)]
pub struct Member {
    /// The member's name.
    pub name: String,
    /// Position of the method that declares it.
    pub method: usize,
    /// Whether the declaration has a body: the default handler of a signal,
    /// the default implementation of a virtual method.
    pub has_default: bool,
    /// For a signal: whether an ancestor declares it.
    pub inherited: bool,
}

pub struct MemberView {
    pub name: Seq<char>,
    pub method: int,
    pub has_default: bool,
    pub inherited: bool,
}

impl View for Member {
    type V = MemberView;

    open spec fn view(&self) -> MemberView {
        MemberView {
            name: self.name@,
            method: self.method as int,
            has_default: self.has_default,
            inherited: self.inherited,
        }
    }
}

/// The name of the property that a field declares: the one given in the
/// annotation, or else the field's identifier in its registered spelling.
pub open spec fn property_name(f: FieldView) -> Seq<char> {
    match f.explicit_name {
        Some(n) => n,
        None => formatted_name(f.ident),
    }
}

/// The name of the member that a method declares: a signal goes by the
/// registered spelling of the identifier, any other by the identifier.
pub open spec fn member_name(m: MethodView, role: Role) -> Seq<char> {
    if role == Role::Signal {
        formatted_name(m.ident)
    } else {
        m.ident
    }
}

/// The fields as candidates for properties.
pub open spec fn field_entries(fields: Seq<FieldView>) -> Seq<EntryView> {
    Seq::new(
        fields.len(),
        |i: int| EntryView { name: property_name(fields[i]), candidate: fields[i].annotated },
    )
}

/// The methods as candidates for members of the kind `role`.
pub open spec fn method_entries(methods: Seq<MethodView>, role: Role) -> Seq<EntryView> {
    Seq::new(
        methods.len(),
        |i: int|
            EntryView { name: member_name(methods[i], role), candidate: methods[i].role == role },
    )
}

/// The property that the field at `at` declares.
pub open spec fn property_at(fields: Seq<FieldView>, at: int) -> PropertyView {
    PropertyView {
        name: property_name(fields[at]),
        field: at,
        ty: fields[at].ty,
        access: fields[at].access,
        custom_get: fields[at].custom_get,
        custom_set: fields[at].custom_set,
    }
}

/// The member that the method at `at` declares.
pub open spec fn member_at(methods: Seq<MethodView>, role: Role, at: int) -> MemberView {
    MemberView {
        name: member_name(methods[at], role),
        method: at,
        has_default: methods[at].has_body,
        inherited: methods[at].inherited,
    }
}

/// The properties of a struct, in declaration order: one for each annotated
/// field whose name is valid and not taken by an earlier annotated field.
pub open spec fn properties_of(fields: Seq<FieldView>) -> Seq<PropertyView> {
    let ks = kept(field_entries(fields), fields.len() as int);
    Seq::new(ks.len(), |k: int| property_at(fields, ks[k]))
}

/// The members of the kind `role` of an implementation block, in
/// declaration order.
pub open spec fn members_of(methods: Seq<MethodView>, role: Role) -> Seq<MemberView> {
    let ks = kept(method_entries(methods, role), methods.len() as int);
    Seq::new(ks.len(), |k: int| member_at(methods, role, ks[k]))
}

/// No two of `names` are equal.
pub open spec fn distinct(names: Seq<Seq<char>>) -> bool {
    forall|k: int, l: int| 0 <= k < l < names.len() ==> names[k] != names[l]
}

/// The names of properties, in order.
pub open spec fn property_names(ps: Seq<PropertyView>) -> Seq<Seq<char>> {
    Seq::new(ps.len(), |k: int| ps[k].name)
}

/// The names of members, in order.
pub open spec fn member_names(ms: Seq<MemberView>) -> Seq<Seq<char>> {
    Seq::new(ms.len(), |k: int| ms[k].name)
}

/// The extracted properties have valid names, no two of them equal, and
/// come in the order of their fields.
pub proof fn lemma_properties_unique(fields: Seq<FieldView>)
    ensures
        distinct(property_names(properties_of(fields))),
        forall|k: int|
            0 <= k < properties_of(fields).len() ==> valid_name(
                (#[trigger] properties_of(fields)[k]).name,
            ),
        forall|k: int, l: int|
            0 <= k < l < properties_of(fields).len() ==> properties_of(fields)[k].field
                < properties_of(fields)[l].field,
        properties_of(fields).len() <= fields.len(),
{
    let es = field_entries(fields);
    lemma_kept(es, fields.len() as int);
    lemma_kept_names_unique(es, fields.len() as int);
    let ks = kept(es, fields.len() as int);
    assert forall|k: int| 0 <= k < properties_of(fields).len() implies valid_name(
        (#[trigger] properties_of(fields)[k]).name,
    ) by {
        assert(valid_name(es[ks[k]].name));
    }
}

/// The extracted members of one kind have valid names, no two of them
/// equal, and come in the order of their methods.
pub proof fn lemma_members_unique(methods: Seq<MethodView>, role: Role)
    ensures
        distinct(member_names(members_of(methods, role))),
        forall|k: int|
            0 <= k < members_of(methods, role).len() ==> valid_name(
                (#[trigger] members_of(methods, role)[k]).name,
            ),
        forall|k: int, l: int|
            0 <= k < l < members_of(methods, role).len() ==> members_of(methods, role)[k].method
                < members_of(methods, role)[l].method,
        members_of(methods, role).len() <= methods.len(),
{
    let es = method_entries(methods, role);
    lemma_kept(es, methods.len() as int);
    lemma_kept_names_unique(es, methods.len() as int);
    let ks = kept(es, methods.len() as int);
    assert forall|k: int| 0 <= k < members_of(methods, role).len() implies valid_name(
        (#[trigger] members_of(methods, role)[k]).name,
    ) by {
        assert(valid_name(es[ks[k]].name));
    }
}

fn entries_of_fields(fields: &Vec<Field>) -> (out: Vec<Entry>)
    ensures
        views(out@) == field_entries(views(fields@)),
{
    let mut out: Vec<Entry> = Vec::new();
    let mut i: usize = 0;
    while i < fields.len()
        invariant
            i <= fields@.len(),
            out@.len() == i,
            forall|j: int| 0 <= j < i ==> (#[trigger] out@[j])@ == field_entries(views(fields@))[j],
        decreases fields@.len() - i,
    {
        let f = &fields[i];
        let name = match &f.explicit_name {
            Some(n) => n.clone(),
            None => format_name(f.ident.as_str()),
        };
        out.push(Entry { name, candidate: f.annotated });
        i += 1;
    }
    assert(views(out@) =~= field_entries(views(fields@)));
    out
}

fn entries_of_methods(methods: &Vec<Method>, role: Role) -> (out: Vec<Entry>)
    ensures
        views(out@) == method_entries(views(methods@), role),
{
    let mut out: Vec<Entry> = Vec::new();
    let mut i: usize = 0;
    while i < methods.len()
        invariant
            i <= methods@.len(),
            out@.len() == i,
            forall|j: int|
                0 <= j < i ==> (#[trigger] out@[j])@ == method_entries(views(methods@), role)[j],
        decreases methods@.len() - i,
    {
        let m = &methods[i];
        let name = match role {
            Role::Signal => format_name(m.ident.as_str()),
            _ => m.ident.clone(),
        };
        out.push(Entry { name, candidate: m.role == role });
        i += 1;
    }
    assert(views(out@) =~= method_entries(views(methods@), role));
    out
}

/// Extracts the properties that the fields of the struct at position `item`
/// declare, and reports each annotated field that declares none.
pub fn extract_properties(fields: &Vec<Field>, item: usize, errors: &mut Errors) -> (out: Vec<
    Property,
>)
    ensures
        views(out@) == properties_of(views(fields@)),
        final(errors)@ == old(errors)@ + reported(
            field_entries(views(fields@)),
            item,
            fields@.len() as int,
        ),
{
    let entries = entries_of_fields(fields);
    let ghost es = field_entries(views(fields@));
    assert(entries@.len() == views(entries@).len() == fields@.len());
    let ks = screen(&entries, item, errors);
    proof {
        lemma_kept(es, fields@.len() as int);
    }
    let mut out: Vec<Property> = Vec::new();
    let mut k: usize = 0;
    while k < ks.len()
        invariant
            k <= ks@.len(),
            out@.len() == k,
            entries@.len() == fields@.len(),
            es == field_entries(views(fields@)),
            views(entries@) == es,
            positions(ks@) == kept(es, fields@.len() as int),
            forall|j: int| 0 <= j < ks@.len() ==> 0 <= (#[trigger] positions(ks@)[j]) < fields@.len(),
            forall|j: int| 0 <= j < k ==> (#[trigger] out@[j])@ == properties_of(views(fields@))[j],
        decreases ks@.len() - k,
    {
        let at = ks[k];
        assert(positions(ks@)[k as int] == at);
        let f = &fields[at];
        assert(views(entries@)[at as int] == es[at as int]);
        out.push(
            Property {
                name: entries[at].name.clone(),
                field: at,
                ty: f.ty.clone(),
                access: f.access,
                custom_get: f.custom_get,
                custom_set: f.custom_set,
            },
        );
        k += 1;
    }
    assert(views(out@) =~= properties_of(views(fields@)));
    out
}

/// Extracts the members of the kind `role` that the methods of the
/// implementation block at position `item` declare, and reports each
/// annotated method that declares none.
pub fn extract_members(methods: &Vec<Method>, role: Role, item: usize, errors: &mut Errors) -> (out:
    Vec<Member>)
    ensures
        views(out@) == members_of(views(methods@), role),
        final(errors)@ == old(errors)@ + reported(
            method_entries(views(methods@), role),
            item,
            methods@.len() as int,
        ),
{
    let entries = entries_of_methods(methods, role);
    let ghost es = method_entries(views(methods@), role);
    assert(entries@.len() == views(entries@).len() == methods@.len());
    let ks = screen(&entries, item, errors);
    proof {
        lemma_kept(es, methods@.len() as int);
    }
    let mut out: Vec<Member> = Vec::new();
    let mut k: usize = 0;
    while k < ks.len()
        invariant
            k <= ks@.len(),
            out@.len() == k,
            entries@.len() == methods@.len(),
            es == method_entries(views(methods@), role),
            views(entries@) == es,
            positions(ks@) == kept(es, methods@.len() as int),
            forall|j: int|
                0 <= j < ks@.len() ==> 0 <= (#[trigger] positions(ks@)[j]) < methods@.len(),
            forall|j: int|
                0 <= j < k ==> (#[trigger] out@[j])@ == members_of(views(methods@), role)[j],
        decreases ks@.len() - k,
    {
        let at = ks[k];
        assert(positions(ks@)[k as int] == at);
        assert(views(entries@)[at as int] == es[at as int]);
        out.push(
            Member {
                name: entries[at].name.clone(),
                method: at,
                has_default: methods[at].has_body,
                inherited: methods[at].inherited,
            },
        );
        k += 1;
    }
    assert(views(out@) =~= members_of(views(methods@), role));
    out
}

impl PropertyView {
    /// The public API has a getter for a property that can be read.
    pub open spec fn has_getter(self) -> bool {
        self.access.readable
    }

    /// The public API has a setter for a property that can be written
    /// after construction.
    pub open spec fn has_setter(self) -> bool {
        self.access.writable && !self.access.construct_only
    }
}

impl Property {
    /// Whether the public API gets a getter for the property.
    pub fn has_getter(&self) -> (out: bool)
        ensures
            out == self@.has_getter(),
    {
        self.access.readable
    }

    /// Whether the public API gets a setter for the property.
    pub fn has_setter(&self) -> (out: bool)
        ensures
            out == self@.has_setter(),
    {
        self.access.writable && !self.access.construct_only
    }
}

} // verus!
