//! Virtual methods: the slots of a vtable, what installs them, and what a
//! call resolves to.
//!
//! The declaring type installs, for each virtual method, its default
//! trampoline, or a stub where the method has no default body. Each
//! subclass, when it is initialized, starts from the table of its parent
//! and replaces the slots of the methods that it implements. After that a
//! table is never changed again.

use crate::items::views;
use crate::members::{Member, MemberView};
use vstd::prelude::*;

verus! {

/// What a slot of a vtable points at.
#[derive(Debug, PartialEq, Eq, Structural, Clone, Copy)]
pub enum Slot {
    /// The method has no default body and nothing overrides it: calling it
    /// is an error of the program.
    Stub,
    /// The default trampoline of the declaring type.
    Default,
    /// The implementation of the subclass at this depth below the declaring
    /// type (the direct subclass has depth 1).
    Override(usize),
}

/// The two states of a virtual method in a type.
#[derive(Debug, PartialEq, Eq, Structural, Clone, Copy)]
pub enum SlotState {
    DefaultInstalled,
    Overridden,
}

impl Slot {
    /// The state that the slot is in.
    pub open spec fn state(self) -> SlotState {
        match self {
            Slot::Override(_) => SlotState::Overridden,
            _ => SlotState::DefaultInstalled,
        }
    }

    /// The state that the slot is in.
    pub fn slot_state(&self) -> (out: SlotState)
        ensures
            out == self.state(),
    {
        match self {
            Slot::Override(_) => SlotState::Overridden,
            _ => SlotState::DefaultInstalled,
        }
    }
}

/// The slot that the declaring type installs for a method.
pub open spec fn initial_slot(m: MemberView) -> Slot {
    if m.has_default {
        Slot::Default
    } else {
        Slot::Stub
    }
}

/// The table of the declaring type.
pub open spec fn initial_table(methods: Seq<MemberView>) -> Seq<Slot> {
    Seq::new(methods.len(), |k: int| initial_slot(methods[k]))
}

/// The table of a subclass at depth `depth` whose parent has the table
/// `parent`: a slot is replaced where the subclass implements the method,
/// and inherited where it does not.
pub open spec fn subclass_table(parent: Seq<Slot>, implements: Seq<bool>, depth: usize) -> Seq<Slot> {
    Seq::new(
        parent.len(),
        |k: int|
            if 0 <= k < implements.len() && implements[k] {
                Slot::Override(depth)
            } else {
                parent[k]
            },
    )
}

/// The table of the type at depth `depth` in a line of descent. `chain[d]`
/// says which methods the subclass at depth `d + 1` implements.
pub open spec fn table_at(methods: Seq<MemberView>, chain: Seq<Seq<bool>>, depth: nat) -> Seq<Slot>
    decreases depth,
{
    if depth == 0 {
        initial_table(methods)
    } else {
        subclass_table(
            table_at(methods, chain, (depth - 1) as nat),
            chain[depth - 1],
            depth as usize,
        )
    }
}

/// What a call of method `k` on an instance of the type at depth `depth`
/// resolves to.
pub open spec fn resolves_to(methods: Seq<MemberView>, chain: Seq<Seq<bool>>, depth: nat, k: int) -> Slot {
    table_at(methods, chain, depth)[k]
}

/// What the parent-method accessor of the type at depth `depth` resolves
/// to: the slot of the next ancestor, never the type's own.
pub open spec fn parent_resolves_to(
    methods: Seq<MemberView>,
    chain: Seq<Seq<bool>>,
    depth: nat,
    k: int,
) -> Slot
    recommends
        depth >= 1,
{
    table_at(methods, chain, (depth - 1) as nat)[k]
}

/// The subclass at depth `d` (from 1 on) implements method `k`.
pub open spec fn overrides_at(chain: Seq<Seq<bool>>, d: int, k: int) -> bool {
    1 <= d <= chain.len() && 0 <= k < chain[d - 1].len() && chain[d - 1][k]
}

/// Every table of a line of descent has one slot for each virtual method.
pub proof fn lemma_table_len(methods: Seq<MemberView>, chain: Seq<Seq<bool>>, depth: nat)
    ensures
        table_at(methods, chain, depth).len() == methods.len(),
    decreases depth,
{
    if depth > 0 {
        lemma_table_len(methods, chain, (depth - 1) as nat);
    }
}

/// A method that no type down to depth `depth` overrides resolves to what
/// the declaring type installed.
pub proof fn lemma_not_overridden(methods: Seq<MemberView>, chain: Seq<Seq<bool>>, depth: nat, k: int)
    requires
        0 <= k < methods.len(),
        depth <= chain.len(),
        forall|d: int| 1 <= d <= depth ==> !overrides_at(chain, d, k),
    ensures
        resolves_to(methods, chain, depth, k) == initial_slot(methods[k]),
    decreases depth,
{
    if depth > 0 {
        lemma_table_len(methods, chain, (depth - 1) as nat);
        lemma_not_overridden(methods, chain, (depth - 1) as nat, k);
        assert(!overrides_at(chain, depth as int, k));
    }
}

/// A method with a default body that no subclass overrides resolves to the
/// default trampoline in every type of the line of descent.
pub proof fn law_default_without_override(
    methods: Seq<MemberView>,
    chain: Seq<Seq<bool>>,
    depth: nat,
    k: int,
)
    requires
        0 <= k < methods.len(),
        methods[k].has_default,
        depth <= chain.len(),
        forall|d: int| 1 <= d <= chain.len() ==> !overrides_at(chain, d, k),
    ensures
        resolves_to(methods, chain, depth, k) == Slot::Default,
        resolves_to(methods, chain, depth, k).state() == SlotState::DefaultInstalled,
{
    lemma_not_overridden(methods, chain, depth, k);
}

/// A method with a default body that exactly one subclass overrides, the
/// one at depth `at`, resolves to that subclass's implementation in that
/// subclass and in every descendant, and a chain-up from the override
/// resolves to the default trampoline.
pub proof fn law_single_override(
    methods: Seq<MemberView>,
    chain: Seq<Seq<bool>>,
    at: nat,
    depth: nat,
    k: int,
)
    requires
        0 <= k < methods.len(),
        methods[k].has_default,
        1 <= at <= depth <= chain.len(),
        at <= usize::MAX,
        overrides_at(chain, at as int, k),
        forall|d: int| 1 <= d <= chain.len() && d != at ==> !overrides_at(chain, d, k),
    ensures
        resolves_to(methods, chain, depth, k) == Slot::Override(at as usize),
        resolves_to(methods, chain, depth, k).state() == SlotState::Overridden,
        parent_resolves_to(methods, chain, at, k) == Slot::Default,
    decreases depth,
{
    lemma_table_len(methods, chain, (depth - 1) as nat);
    if depth == at {
        lemma_not_overridden(methods, chain, (at - 1) as nat, k);
    } else {
        law_single_override(methods, chain, at, (depth - 1) as nat, k);
        assert(!overrides_at(chain, depth as int, k));
    }
}

/// The slots that the declaring type installs when its class is
/// initialized.
pub fn default_slots(methods: &Vec<Member>) -> (out: Vec<Slot>)
    ensures
        out@ == initial_table(views(methods@)),
{
    let mut out: Vec<Slot> = Vec::new();
    let mut i: usize = 0;
    while i < methods.len()
        invariant
            i <= methods@.len(),
            out@.len() == i,
            forall|j: int| 0 <= j < i ==> #[trigger] out@[j] == initial_slot(methods@[j]@),
        decreases methods@.len() - i,
    {
        out.push(
            if methods[i].has_default {
                Slot::Default
            } else {
                Slot::Stub
            },
        );
        i += 1;
    }
    assert(out@ =~= initial_table(views(methods@)));
    out
}

/// The slots of a subclass at depth `depth` after its initialization, from
/// the slots of its parent and the methods that the subclass implements.
pub fn subclassed_slots(parent: &Vec<Slot>, implements: &Vec<bool>, depth: usize) -> (out: Vec<Slot>)
    ensures
        out@ == subclass_table(parent@, implements@, depth),
{
    let mut out: Vec<Slot> = Vec::new();
    let mut i: usize = 0;
    while i < parent.len()
        invariant
            i <= parent@.len(),
            out@.len() == i,
            forall|j: int|
                0 <= j < i ==> #[trigger] out@[j] == subclass_table(parent@, implements@, depth)[j],
        decreases parent@.len() - i,
    {
        if i < implements.len() && implements[i] {
            out.push(Slot::Override(depth));
        } else {
            out.push(parent[i]);
        }
        i += 1;
    }
    assert(out@ =~= subclass_table(parent@, implements@, depth));
    out
}

} // verus!
