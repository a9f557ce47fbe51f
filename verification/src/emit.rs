//! What is generated for a type definition, as plans: which artifacts
//! there are, what each holds and in which order. A plan says everything
//! that the generated source depends on.

use crate::items::{text_of, views};
use crate::members::{member_names, Member, MemberView};
use crate::registry::names_of_members;
use crate::resolve::position;
use crate::screen::positions;
use crate::type_definition::{TypeDefinition, TypeDefinitionView};
use crate::vtable::{default_slots, initial_table, Slot};
use crate::wrapper::texts;
use crate::paths::join2;
use vstd::prelude::*;

verus! {

/// The four kinds of members.
#[derive(Debug, PartialEq, Eq, Structural, Clone, Copy)]
pub enum MemberKind {
    Property,
    Signal,
    PublicMethod,
    VirtualMethod,
}

/// One member of the public API: its kind and its position among the
/// members of that kind.
#[derive(Debug, PartialEq, Eq, Structural, Clone, Copy)]
pub struct ApiEntry {
    pub kind: MemberKind,
    pub index: usize,
}

/// The entries for `count` members of one kind, in order.
pub open spec fn entries_of(kind: MemberKind, count: nat) -> Seq<ApiEntry> {
    Seq::new(count, |i: int| ApiEntry { kind, index: i as usize })
}

/// The members that the public API covers: every property, then every
/// signal, every public method and every virtual method, each kind in
/// declaration order.
pub open spec fn api_entries(def: TypeDefinitionView) -> Seq<ApiEntry> {
    entries_of(MemberKind::Property, def.properties.len()) + entries_of(
        MemberKind::Signal,
        def.signals.len(),
    ) + entries_of(MemberKind::PublicMethod, def.public_methods.len()) + entries_of(
        MemberKind::VirtualMethod,
        def.virtual_methods.len(),
    )
}

/// The positions, among the first `upto` signals, of those that an
/// ancestor declares: their class handler is replaced at class
/// initialization.
pub open spec fn inherited_signals(signals: Seq<MemberView>, upto: int) -> Seq<int>
    decreases upto,
{
    if upto <= 0 {
        Seq::empty()
    } else if signals[upto - 1].inherited {
        inherited_signals(signals, upto - 1).push(upto - 1)
    } else {
        inherited_signals(signals, upto - 1)
    }
}

/// The positions, among the first `upto` signals, of those with a default
/// handler: each gets an accessor that chains to the parent's handler.
pub open spec fn chained_signals(signals: Seq<MemberView>, upto: int) -> Seq<int>
    decreases upto,
{
    if upto <= 0 {
        Seq::empty()
    } else if signals[upto - 1].has_default {
        chained_signals(signals, upto - 1).push(upto - 1)
    } else {
        chained_signals(signals, upto - 1)
    }
}

/// The body of the class-initialization hook.
#[derive(Debug)]
pub struct TypeInit {
    /// The slots installed in the vtable; nothing for a type without
    /// virtual methods.
    pub set_vtable: Option<Vec<Slot>>,
    /// The signals whose class handler is replaced, by position.
    pub overrides: Vec<usize>,
    /// Whether the class is first viewed as the root object class, which
    /// the replacement of handlers needs.
    pub deref_class: bool,
}

pub struct TypeInitView {
    pub set_vtable: Option<Seq<Slot>>,
    pub overrides: Seq<int>,
    pub deref_class: bool,
}

impl View for TypeInit {
    type V = TypeInitView;

    open spec fn view(&self) -> TypeInitView {
        TypeInitView {
            set_vtable: match self.set_vtable {
                Some(v) => Some(v@),
                None => None,
            },
            overrides: positions(self.overrides@),
            deref_class: self.deref_class,
        }
    }
}

/// The slots that class initialization installs: one per virtual method;
/// nothing for an unnamed type or one without virtual methods.
pub open spec fn vtable_defaults(def: TypeDefinitionView) -> Option<Seq<Slot>> {
    if def.name is None || def.virtual_methods.len() == 0 {
        None
    } else {
        Some(initial_table(def.virtual_methods))
    }
}

/// The body of the class-initialization hook; nothing where neither a slot
/// is installed nor a handler replaced.
pub open spec fn type_init(def: TypeDefinitionView) -> Option<TypeInitView> {
    let overrides = inherited_signals(def.signals, def.signals.len() as int);
    if def.name is None || (vtable_defaults(def) is None && overrides.len() == 0) {
        None
    } else {
        Some(
            TypeInitView {
                set_vtable: vtable_defaults(def),
                overrides,
                deref_class: overrides.len() > 0,
            },
        )
    }
}

/// The virtual methods whose slot a subclass may replace when it is
/// initialized, by name; nothing for an unnamed type or one without
/// virtual methods.
pub open spec fn child_type_init(def: TypeDefinitionView) -> Option<Seq<Seq<char>>> {
    if def.name is None || def.virtual_methods.len() == 0 {
        None
    } else {
        Some(member_names(def.virtual_methods))
    }
}

/// The fields of the class struct: one function-pointer slot per virtual
/// method, by name; none for an unnamed type.
pub open spec fn type_struct_fields(def: TypeDefinitionView) -> Seq<Seq<char>> {
    if def.name is None {
        Seq::empty()
    } else {
        member_names(def.virtual_methods)
    }
}

/// The public API.
#[derive(Debug)]
pub struct PublicApi {
    /// The extension trait that carries the API; without one the methods
    /// are inherent methods of the wrapper.
    pub trait_name: Option<String>,
    /// The members covered, in the order of generation.
    pub entries: Vec<ApiEntry>,
}

pub struct PublicApiView {
    pub trait_name: Option<Seq<char>>,
    pub entries: Seq<ApiEntry>,
}

impl View for PublicApi {
    type V = PublicApiView;

    open spec fn view(&self) -> PublicApiView {
        PublicApiView { trait_name: text_of(self.trait_name), entries: self.entries@ }
    }
}

/// The public API of a type; nothing for an unnamed type or one without
/// members.
pub open spec fn public_api(def: TypeDefinitionView, trait_name: Option<Seq<char>>) -> Option<
    PublicApiView,
> {
    if def.name is None || api_entries(def).len() == 0 {
        None
    } else {
        Some(PublicApiView { trait_name, entries: api_entries(def) })
    }
}

/// The private items generated beside the implementation.
#[derive(Debug)]
pub struct PrivateItems {
    /// One cell for the identifier of each signal, by signal name.
    pub signal_cells: Vec<String>,
    /// The signals that get an accessor chaining to the parent's handler,
    /// by position.
    pub chains: Vec<usize>,
}

pub struct PrivateItemsView {
    pub signal_cells: Seq<Seq<char>>,
    pub chains: Seq<int>,
}

impl View for PrivateItems {
    type V = PrivateItemsView;

    open spec fn view(&self) -> PrivateItemsView {
        PrivateItemsView {
            signal_cells: texts(self.signal_cells@),
            chains: positions(self.chains@),
        }
    }
}

/// The private items of a type; an unnamed type has none.
pub open spec fn private_items(def: TypeDefinitionView) -> PrivateItemsView {
    if def.name is None {
        PrivateItemsView { signal_cells: Seq::empty(), chains: Seq::empty() }
    } else {
        PrivateItemsView {
            signal_cells: member_names(def.signals),
            chains: chained_signals(def.signals, def.signals.len() as int),
        }
    }
}

/// The traits through which a subclass overrides virtual methods.
#[derive(Debug)]
pub struct VirtualTraits {
    pub trait_name: String,
    pub ext_trait_name: String,
    /// The trait that the implementation trait builds on.
    pub parent_trait: String,
    /// The virtual methods, by name: each gets a default definition in the
    /// implementation trait.
    pub methods: Vec<String>,
    /// Whether the trait with the parent-method accessors is generated.
    pub with_parent_accessors: bool,
}

pub struct VirtualTraitsView {
    pub trait_name: Seq<char>,
    pub ext_trait_name: Seq<char>,
    pub parent_trait: Seq<char>,
    pub methods: Seq<Seq<char>>,
    pub with_parent_accessors: bool,
}

impl View for VirtualTraits {
    type V = VirtualTraitsView;

    open spec fn view(&self) -> VirtualTraitsView {
        VirtualTraitsView {
            trait_name: self.trait_name@,
            ext_trait_name: self.ext_trait_name@,
            parent_trait: self.parent_trait@,
            methods: texts(self.methods@),
            with_parent_accessors: self.with_parent_accessors,
        }
    }
}

/// The traits for overriding; nothing unless both names are given. The
/// parent trait is the one given, or else the object implementation trait
/// of the runtime.
pub open spec fn virtual_traits(
    def: TypeDefinitionView,
    trait_name: Option<Seq<char>>,
    ext_trait_name: Option<Seq<char>>,
    parent_trait: Option<Seq<char>>,
) -> Option<VirtualTraitsView> {
    match (trait_name, ext_trait_name) {
        (Some(t), Some(e)) => Some(
            VirtualTraitsView {
                trait_name: t,
                ext_trait_name: e,
                parent_trait: match parent_trait {
                    Some(p) => p,
                    None => def.glib() + "::subclass::object::ObjectImpl"@,
                },
                methods: member_names(def.virtual_methods),
                with_parent_accessors: def.virtual_methods.len() > 0 && def.name is Some,
            },
        ),
        _ => None,
    }
}

fn push_entries(out: &mut Vec<ApiEntry>, kind: MemberKind, count: usize)
    ensures
        final(out)@ == old(out)@ + entries_of(kind, count as nat),
{
    let mut i: usize = 0;
    assert(out@ =~= old(out)@ + entries_of(kind, 0));
    while i < count
        invariant
            i <= count,
            out@ == old(out)@ + entries_of(kind, i as nat),
        decreases count - i,
    {
        out.push(ApiEntry { kind, index: i });
        assert(out@ =~= old(out)@ + entries_of(kind, (i + 1) as nat));
        i += 1;
    }
}

fn signals_inherited(signals: &Vec<Member>) -> (out: Vec<usize>)
    ensures
        positions(out@) == inherited_signals(views(signals@), signals@.len() as int),
{
    let mut out: Vec<usize> = Vec::new();
    let mut i: usize = 0;
    assert(positions(out@) =~= inherited_signals(views(signals@), 0));
    while i < signals.len()
        invariant
            i <= signals@.len(),
            positions(out@) == inherited_signals(views(signals@), i as int),
        decreases signals@.len() - i,
    {
        let ghost before = positions(out@);
        assert(views(signals@)[i as int] == signals@[i as int]@);
        if signals[i].inherited {
            out.push(i);
            assert(positions(out@) =~= before.push(i as int));
        }
        i += 1;
    }
    out
}

fn signals_chained(signals: &Vec<Member>) -> (out: Vec<usize>)
    ensures
        positions(out@) == chained_signals(views(signals@), signals@.len() as int),
{
    let mut out: Vec<usize> = Vec::new();
    let mut i: usize = 0;
    assert(positions(out@) =~= chained_signals(views(signals@), 0));
    while i < signals.len()
        invariant
            i <= signals@.len(),
            positions(out@) == chained_signals(views(signals@), i as int),
        decreases signals@.len() - i,
    {
        let ghost before = positions(out@);
        assert(views(signals@)[i as int] == signals@[i as int]@);
        if signals[i].has_default {
            out.push(i);
            assert(positions(out@) =~= before.push(i as int));
        }
        i += 1;
    }
    out
}

impl TypeDefinition {
    /// The members that the public API covers, in the order of generation.
    pub fn public_method_definitions(&self) -> (out: Vec<ApiEntry>)
        ensures
            out@ == api_entries(self@),
    {
        let mut out: Vec<ApiEntry> = Vec::new();
        push_entries(&mut out, MemberKind::Property, self.properties.len());
        push_entries(&mut out, MemberKind::Signal, self.signals.len());
        push_entries(&mut out, MemberKind::PublicMethod, self.public_methods.len());
        push_entries(&mut out, MemberKind::VirtualMethod, self.virtual_methods.len());
        assert(out@ =~= api_entries(self@));
        out
    }

    /// The public API: as an extension trait where `trait_name` is given,
    /// as inherent methods of the wrapper where it is not.
    pub fn public_methods(&self, trait_name: Option<String>) -> (out: Option<PublicApi>)
        ensures
            match out {
                Some(api) => public_api(self@, text_of(trait_name)) == Some(api@),
                None => public_api(self@, text_of(trait_name)) is None,
            },
    {
        let entries = self.public_method_definitions();
        if self.name.is_none() || entries.len() == 0 {
            None
        } else {
            Some(PublicApi { trait_name, entries })
        }
    }

    /// The slots that class initialization installs in the vtable.
    pub fn default_vtable_assignments(&self) -> (out: Option<Vec<Slot>>)
        ensures
            match out {
                Some(v) => vtable_defaults(self@) == Some(v@),
                None => vtable_defaults(self@) is None,
            },
    {
        if self.name.is_none() || self.virtual_methods.len() == 0 {
            None
        } else {
            Some(default_slots(&self.virtual_methods))
        }
    }

    /// The body of the class-initialization hook.
    pub fn type_init_body(&self) -> (out: Option<TypeInit>)
        ensures
            match out {
                Some(t) => type_init(self@) == Some(t@),
                None => type_init(self@) is None,
            },
    {
        let set_vtable = self.default_vtable_assignments();
        let overrides = signals_inherited(&self.signals);
        assert(overrides@.len() == positions(overrides@).len());
        if self.name.is_none() || (set_vtable.is_none() && overrides.len() == 0) {
            return None;
        }
        let deref_class = overrides.len() > 0;
        Some(TypeInit { set_vtable, overrides, deref_class })
    }

    /// The virtual methods whose slot the initialization of a subclass may
    /// replace.
    pub fn child_type_init_body(&self) -> (out: Option<Vec<String>>)
        ensures
            match out {
                Some(v) => child_type_init(self@) == Some(texts(v@)),
                None => child_type_init(self@) is None,
            },
    {
        if self.name.is_none() || self.virtual_methods.len() == 0 {
            None
        } else {
            Some(names_of_members(&self.virtual_methods))
        }
    }

    /// The fields of the class struct.
    pub fn type_struct_fields(&self) -> (out: Vec<String>)
        ensures
            texts(out@) == type_struct_fields(self@),
    {
        if self.name.is_none() {
            let out: Vec<String> = Vec::new();
            assert(texts(out@) =~= Seq::<Seq<char>>::empty());
            out
        } else {
            names_of_members(&self.virtual_methods)
        }
    }

    /// The private items generated beside the implementation.
    pub fn extra_private_items(&self) -> (out: PrivateItems)
        ensures
            out@ == private_items(self@),
    {
        if self.name.is_none() {
            let out = PrivateItems { signal_cells: Vec::new(), chains: Vec::new() };
            assert(texts(out.signal_cells@) =~= Seq::<Seq<char>>::empty());
            assert(positions(out.chains@) =~= Seq::<int>::empty());
            out
        } else {
            PrivateItems {
                signal_cells: names_of_members(&self.signals),
                chains: signals_chained(&self.signals),
            }
        }
    }

    /// The traits through which subclasses override the virtual methods.
    pub fn virtual_traits(
        &self,
        trait_name: Option<String>,
        ext_trait_name: Option<String>,
        parent_trait: Option<String>,
    ) -> (out: Option<VirtualTraits>)
        ensures
            match out {
                Some(v) => virtual_traits(
                    self@,
                    text_of(trait_name),
                    text_of(ext_trait_name),
                    text_of(parent_trait),
                ) == Some(v@),
                None => virtual_traits(
                    self@,
                    text_of(trait_name),
                    text_of(ext_trait_name),
                    text_of(parent_trait),
                ) is None,
            },
    {
        let t = match trait_name {
            Some(t) => t,
            None => {
                return None;
            },
        };
        let e = match ext_trait_name {
            Some(e) => e,
            None => {
                return None;
            },
        };
        let parent = match parent_trait {
            Some(p) => p,
            None => join2(self.glib().as_str(), "::subclass::object::ObjectImpl"),
        };
        Some(
            VirtualTraits {
                trait_name: t,
                ext_trait_name: e,
                parent_trait: parent,
                methods: names_of_members(&self.virtual_methods),
                with_parent_accessors: self.virtual_methods.len() > 0 && self.name.is_some(),
            },
        )
    }
}

} // verus!
