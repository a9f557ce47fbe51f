//! Registration tables and dispatch by numeric identifier.
//!
//! A table lists descriptors in a fixed order: first what code contributes
//! (entries inherited through a method that the user wrote, entries added
//! by spliced statements), then the declared members in declaration order.
//! The identifier of an entry is its position in the table plus one; zero
//! names nothing.

use crate::items::views;
use crate::members::{member_names, property_names, Member, Property, PropertyView};
use crate::model::TypeBase;
use crate::resolve::position;
use crate::type_definition::{TypeDefinition, TypeDefinitionView};
use crate::wrapper::texts;
use vstd::prelude::*;

verus! {

/// How a registration table is put together.
#[derive(Debug)]
pub struct Registration {
    /// Whether the table starts with the entries of the method of the same
    /// name that the user wrote.
    pub inherits: bool,
    /// The statements spliced in before the declared entries.
    pub custom: Option<Vec<String>>,
    /// Whether the length that the table has before the declared entries is
    /// recorded as the base index.
    pub sets_base_index: bool,
    /// The names of the declared entries, in declaration order.
    pub entries: Vec<String>,
}

pub struct RegistrationView {
    pub inherits: bool,
    pub custom: Option<Seq<Seq<char>>>,
    pub sets_base_index: bool,
    pub entries: Seq<Seq<char>>,
}

impl View for Registration {
    type V = RegistrationView;

    open spec fn view(&self) -> RegistrationView {
        RegistrationView {
            inherits: self.inherits,
            custom: match self.custom {
                Some(v) => Some(texts(v@)),
                None => None,
            },
            sets_base_index: self.sets_base_index,
            entries: texts(self.entries@),
        }
    }
}

/// The statements spliced into the generated method `name`, if any.
pub open spec fn spliced(def: TypeDefinitionView, name: Seq<char>) -> Option<Seq<Seq<char>>> {
    if def.custom_stmts.dom().contains(name) {
        Some(def.custom_stmts[name])
    } else {
        None
    }
}

/// The table of properties. There is none while the type has no name, and
/// none where nothing would stand in it.
pub open spec fn properties_table(def: TypeDefinitionView) -> Option<RegistrationView> {
    let inherits = def.has_method("properties"@);
    let custom = spliced(def, "properties"@);
    if def.name is None || (def.properties.len() == 0 && !inherits && custom is None) {
        None
    } else {
        Some(
            RegistrationView {
                inherits,
                custom,
                sets_base_index: def.base == TypeBase::Class && def.properties.len() > 0
                    && inherits,
                entries: property_names(def.properties),
            },
        )
    }
}

/// The table of signals.
pub open spec fn signals_table(def: TypeDefinitionView) -> Option<RegistrationView> {
    let inherits = def.has_method("signals"@);
    let custom = spliced(def, "signals"@);
    if def.name is None || (def.signals.len() == 0 && !inherits && custom is None) {
        None
    } else {
        Some(
            RegistrationView {
                inherits,
                custom,
                sets_base_index: false,
                entries: member_names(def.signals),
            },
        )
    }
}

/// The table at run time: what code contributed, then the declared entries.
pub open spec fn table(prefix: Seq<Seq<char>>, declared: Seq<Seq<char>>) -> Seq<Seq<char>> {
    prefix + declared
}

/// The identifier of the declared entry at position `index`, in a table
/// that starts with `base` contributed entries.
pub open spec fn id_of(base: int, index: int) -> int {
    base + index + 1
}

/// The declared entry that `id` names, if it names one of the `count`
/// declared entries.
pub open spec fn entry_of(base: int, count: int, id: int) -> Option<int> {
    if base + 1 <= id <= base + count {
        Some(id - base - 1)
    } else {
        None
    }
}

/// The table has one entry for each contributed and each declared entry;
/// the declared entries follow the contributed ones in declaration order;
/// and identifiers and declared entries correspond one to one.
pub proof fn law_identifiers_follow_declaration_order(
    prefix: Seq<Seq<char>>,
    declared: Seq<Seq<char>>,
)
    ensures
        table(prefix, declared).len() == prefix.len() + declared.len(),
        forall|k: int|
            0 <= k < declared.len() ==> #[trigger] table(prefix, declared)[id_of(
                prefix.len() as int,
                k,
            ) - 1] == declared[k],
        forall|k: int|
            0 <= k < declared.len() ==> entry_of(
                prefix.len() as int,
                declared.len() as int,
                #[trigger] id_of(prefix.len() as int, k),
            ) == Some(k),
        forall|id: int|
            (#[trigger] entry_of(prefix.len() as int, declared.len() as int, id)) matches Some(k)
                ==> 0 <= k < declared.len() && id_of(prefix.len() as int, k) == id,
        forall|j: int, k: int|
            0 <= j < k < declared.len() ==> id_of(prefix.len() as int, j) < id_of(
                prefix.len() as int,
                k,
            ),
{
}

/// What a dispatch function does for an identifier that names a property.
#[derive(Debug, PartialEq, Eq, Structural, Clone, Copy)]
pub enum PropertyAction {
    /// The accessor that the annotation supplies, for the property at this
    /// position.
    Custom(usize),
    /// Plain access to the field of the property at this position.
    Field(usize),
}

/// The fault of a dispatch with an identifier that names no property. In
/// generated code it is fatal.
#[derive(Debug, PartialEq, Eq, Structural, Clone, Copy)]
pub struct InvalidPropertyId {
    pub id: usize,
}

/// What setting the property `id` does.
pub open spec fn set_action(properties: Seq<PropertyView>, base: int, id: int) -> Result<
    PropertyAction,
    InvalidPropertyId,
> {
    match entry_of(base, properties.len() as int, id) {
        Some(k) => Ok(
            if properties[k].custom_set {
                PropertyAction::Custom(k as usize)
            } else {
                PropertyAction::Field(k as usize)
            },
        ),
        None => Err(InvalidPropertyId { id: id as usize }),
    }
}

/// What reading the property `id` does.
pub open spec fn get_action(properties: Seq<PropertyView>, base: int, id: int) -> Result<
    PropertyAction,
    InvalidPropertyId,
> {
    match entry_of(base, properties.len() as int, id) {
        Some(k) => Ok(
            if properties[k].custom_get {
                PropertyAction::Custom(k as usize)
            } else {
                PropertyAction::Field(k as usize)
            },
        ),
        None => Err(InvalidPropertyId { id: id as usize }),
    }
}

fn entry(base: usize, count: usize, id: usize) -> (out: Option<usize>)
    ensures
        position(out) == entry_of(base as int, count as int, id as int),
{
    if id > base && id - base <= count {
        Some(id - base - 1)
    } else {
        None
    }
}

/// Dispatch of a write: which setter the identifier `id` reaches, in a
/// table that starts with `base` contributed entries.
pub fn set_property_dispatch(properties: &Vec<Property>, base: usize, id: usize) -> (out: Result<
    PropertyAction,
    InvalidPropertyId,
>)
    ensures
        out == set_action(views(properties@), base as int, id as int),
{
    match entry(base, properties.len(), id) {
        Some(k) => {
            assert(views(properties@)[k as int] == properties@[k as int]@);
            if properties[k].custom_set {
                Ok(PropertyAction::Custom(k))
            } else {
                Ok(PropertyAction::Field(k))
            }
        },
        None => Err(InvalidPropertyId { id }),
    }
}

/// Dispatch of a read: which getter the identifier `id` reaches.
pub fn property_dispatch(properties: &Vec<Property>, base: usize, id: usize) -> (out: Result<
    PropertyAction,
    InvalidPropertyId,
>)
    ensures
        out == get_action(views(properties@), base as int, id as int),
{
    match entry(base, properties.len(), id) {
        Some(k) => {
            assert(views(properties@)[k as int] == properties@[k as int]@);
            if properties[k].custom_get {
                Ok(PropertyAction::Custom(k))
            } else {
                Ok(PropertyAction::Field(k))
            }
        },
        None => Err(InvalidPropertyId { id }),
    }
}

/// With `n` declared properties and nothing contributed, the identifiers 0
/// and `n + 1` fault, and every identifier from 1 to `n` reaches the
/// property at the position before it.
pub proof fn law_dispatch_faults_outside_range(properties: Seq<PropertyView>, id: int)
    ensures
        set_action(properties, 0, 0) is Err,
        get_action(properties, 0, 0) is Err,
        set_action(properties, 0, properties.len() as int + 1) is Err,
        get_action(properties, 0, properties.len() as int + 1) is Err,
        1 <= id <= properties.len() ==> set_action(properties, 0, id) is Ok && get_action(
            properties,
            0,
            id,
        ) is Ok,
        !(1 <= id <= properties.len()) ==> set_action(properties, 0, id) is Err && get_action(
            properties,
            0,
            id,
        ) is Err,
{
}

/// With `base` contributed entries the range of identifiers that reach a
/// property moves up by `base`: no other identifier does.
pub proof fn law_dispatch_range_is_offset(properties: Seq<PropertyView>, base: int, id: int)
    ensures
        set_action(properties, base, id) is Ok <==> base + 1 <= id <= base + properties.len(),
        get_action(properties, base, id) is Ok <==> base + 1 <= id <= base + properties.len(),
{
}

/// The names of the properties, in order.
pub fn names_of_properties(properties: &Vec<Property>) -> (out: Vec<String>)
    ensures
        texts(out@) == property_names(views(properties@)),
{
    let mut out: Vec<String> = Vec::new();
    let mut i: usize = 0;
    while i < properties.len()
        invariant
            i <= properties@.len(),
            out@.len() == i,
            forall|j: int| 0 <= j < i ==> (#[trigger] out@[j])@ == properties@[j].name@,
        decreases properties@.len() - i,
    {
        out.push(properties[i].name.clone());
        i += 1;
    }
    assert(texts(out@) =~= property_names(views(properties@)));
    out
}

/// The names of the members, in order.
pub fn names_of_members(members: &Vec<Member>) -> (out: Vec<String>)
    ensures
        texts(out@) == member_names(views(members@)),
{
    let mut out: Vec<String> = Vec::new();
    let mut i: usize = 0;
    while i < members.len()
        invariant
            i <= members@.len(),
            out@.len() == i,
            forall|j: int| 0 <= j < i ==> (#[trigger] out@[j])@ == members@[j].name@,
        decreases members@.len() - i,
    {
        out.push(members[i].name.clone());
        i += 1;
    }
    assert(texts(out@) =~= member_names(views(members@)));
    out
}

/// The view of an optional registration.
pub open spec fn registration_of(r: Option<Registration>) -> Option<RegistrationView> {
    match r {
        Some(r) => Some(r@),
        None => None,
    }
}

impl TypeDefinition {
    /// How the table of properties is put together; nothing where the type
    /// needs no such table.
    pub fn properties_method(&self) -> (out: Option<Registration>)
        requires
            self.wf(),
        ensures
            registration_of(out) == properties_table(self@),
    {
        let inherits = self.has_method("properties");
        let custom = self.custom_stmts_for("properties");
        if self.name.is_none() || (self.properties.len() == 0 && !inherits && custom.is_none()) {
            return None;
        }
        let class = match self.base {
            TypeBase::Class => true,
            TypeBase::Interface => false,
        };
        Some(
            Registration {
                inherits,
                custom,
                sets_base_index: class && self.properties.len() > 0 && inherits,
                entries: names_of_properties(&self.properties),
            },
        )
    }

    /// How the table of signals is put together; nothing where the type
    /// needs no such table.
    pub fn signals_method(&self) -> (out: Option<Registration>)
        requires
            self.wf(),
        ensures
            registration_of(out) == signals_table(self@),
    {
        let inherits = self.has_method("signals");
        let custom = self.custom_stmts_for("signals");
        if self.name.is_none() || (self.signals.len() == 0 && !inherits && custom.is_none()) {
            return None;
        }
        Some(
            Registration {
                inherits,
                custom,
                sets_base_index: false,
                entries: names_of_members(&self.signals),
            },
        )
    }
}

} // verus!
