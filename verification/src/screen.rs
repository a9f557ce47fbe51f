//! Screening of member names: a member is kept if its name is valid and no
//! earlier member of the same kind has it; every other candidate is
//! reported and left out.

use crate::diag::{Diagnostic, Errors, Problem, Site};
use crate::items::views;
use crate::names::{is_valid_name, same_text, valid_name};
use vstd::prelude::*;

verus! {

/// A declaration that may become a member.
#[derive(Debug)]
pub struct Entry {
    /// The name under which the member would be registered.
    pub name: String,
    /// Whether the declaration is annotated as a member of the kind at hand.
    pub candidate: bool,
}

pub struct EntryView {
    pub name: Seq<char>,
    pub candidate: bool,
}

impl View for Entry {
    type V = EntryView;

    open spec fn view(&self) -> EntryView {
        EntryView { name: self.name@, candidate: self.candidate }
    }
}

/// What becomes of a declaration.
#[derive(Debug, PartialEq, Eq, Structural, Clone, Copy)]
pub enum Verdict {
    /// Not a candidate.
    Skip,
    /// Kept as a member.
    Keep,
    /// Left out: its name is not a valid name.
    Invalid,
    /// Left out: an earlier candidate has the same name.
    Duplicate,
}

/// An earlier candidate than `at` has the name of the entry at `at`.
pub open spec fn named_before(entries: Seq<EntryView>, at: int) -> bool {
    exists|j: int| 0 <= j < at && (#[trigger] entries[j]).candidate && entries[j].name == entries[at].name
}

/// The verdict on the entry at `at`.
pub open spec fn verdict(entries: Seq<EntryView>, at: int) -> Verdict {
    if !entries[at].candidate {
        Verdict::Skip
    } else if !valid_name(entries[at].name) {
        Verdict::Invalid
    } else if named_before(entries, at) {
        Verdict::Duplicate
    } else {
        Verdict::Keep
    }
}

/// The positions of the entries kept among the first `upto`, in order.
pub open spec fn kept(entries: Seq<EntryView>, upto: int) -> Seq<int>
    decreases upto,
{
    if upto <= 0 {
        Seq::empty()
    } else if verdict(entries, upto - 1) == Verdict::Keep {
        kept(entries, upto - 1).push(upto - 1)
    } else {
        kept(entries, upto - 1)
    }
}

/// The diagnostics about the first `upto` entries of the item at `item`, in
/// order: one for each candidate that is left out.
pub open spec fn reported(entries: Seq<EntryView>, item: usize, upto: int) -> Seq<Diagnostic>
    decreases upto,
{
    if upto <= 0 {
        Seq::empty()
    } else {
        let site = Site::Member { item, member: (upto - 1) as usize };
        match verdict(entries, upto - 1) {
            Verdict::Invalid => reported(entries, item, upto - 1).push(
                Diagnostic { site, problem: Problem::InvalidName },
            ),
            Verdict::Duplicate => reported(entries, item, upto - 1).push(
                Diagnostic { site, problem: Problem::DuplicateName },
            ),
            _ => reported(entries, item, upto - 1),
        }
    }
}

/// Positions as mathematical integers.
pub open spec fn positions(v: Seq<usize>) -> Seq<int> {
    Seq::new(v.len(), |i: int| v[i] as int)
}

/// The kept positions are increasing, below `upto`, and each holds a kept
/// entry; every kept entry below `upto` is among them.
pub proof fn lemma_kept(entries: Seq<EntryView>, upto: int)
    requires
        0 <= upto <= entries.len(),
    ensures
        kept(entries, upto).len() <= upto,
        forall|k: int|
            0 <= k < kept(entries, upto).len() ==> 0 <= (#[trigger] kept(entries, upto)[k]) < upto
                && verdict(entries, kept(entries, upto)[k]) == Verdict::Keep,
        forall|k: int, l: int|
            0 <= k < l < kept(entries, upto).len() ==> kept(entries, upto)[k] < kept(
                entries,
                upto,
            )[l],
        forall|p: int|
            0 <= p < upto && verdict(entries, p) == Verdict::Keep ==> kept(entries, upto).contains(
                p,
            ),
    decreases upto,
{
    if upto > 0 {
        lemma_kept(entries, upto - 1);
        let before = kept(entries, upto - 1);
        let now = kept(entries, upto);
        assert forall|p: int| 0 <= p < upto && verdict(entries, p) == Verdict::Keep implies now.contains(
            p,
        ) by {
            if p < upto - 1 {
                let k = choose|k: int| 0 <= k < before.len() && before[k] == p;
                assert(now[k] == p);
            } else {
                assert(now[now.len() - 1] == p);
            }
        }
    }
}

/// No two kept entries have the same name, and every kept name is valid.
pub proof fn lemma_kept_names_unique(entries: Seq<EntryView>, upto: int)
    requires
        0 <= upto <= entries.len(),
    ensures
        forall|k: int|
            0 <= k < kept(entries, upto).len() ==> valid_name(
                entries[#[trigger] kept(entries, upto)[k]].name,
            ),
        forall|k: int, l: int|
            0 <= k < l < kept(entries, upto).len() ==> entries[kept(entries, upto)[k]].name
                != entries[kept(entries, upto)[l]].name,
{
    lemma_kept(entries, upto);
    let ks = kept(entries, upto);
    assert forall|k: int, l: int| 0 <= k < l < ks.len() implies entries[ks[k]].name
        != entries[ks[l]].name by {
        assert(verdict(entries, ks[k]) == Verdict::Keep);
        assert(verdict(entries, ks[l]) == Verdict::Keep);
        assert(ks[k] < ks[l]);
        if entries[ks[k]].name == entries[ks[l]].name {
            assert(entries[ks[k]].candidate);
            assert(named_before(entries, ks[l]));
        }
    }
}

/// Decides what becomes of the entry at `at`.
pub fn judge(entries: &Vec<Entry>, at: usize) -> (v: Verdict)
    requires
        at < entries@.len(),
    ensures
        v == verdict(views(entries@), at as int),
{
    let ghost es = views(entries@);
    if !entries[at].candidate {
        return Verdict::Skip;
    }
    if !is_valid_name(entries[at].name.as_str()) {
        return Verdict::Invalid;
    }
    let mut j: usize = 0;
    while j < at
        invariant
            j <= at < entries@.len(),
            es == views(entries@),
            es[at as int].candidate,
            valid_name(es[at as int].name),
            forall|k: int| 0 <= k < j ==> !((#[trigger] es[k]).candidate && es[k].name == es[at as int].name),
        decreases at - j,
    {
        if entries[j].candidate && same_text(entries[j].name.as_str(), entries[at].name.as_str()) {
            assert(es[j as int].candidate && es[j as int].name == es[at as int].name);
            return Verdict::Duplicate;
        }
        j += 1;
    }
    Verdict::Keep
}

/// Screens the declarations of the item at position `item`: returns the
/// positions of those that are kept, in order, and reports each candidate
/// that is left out.
pub fn screen(entries: &Vec<Entry>, item: usize, errors: &mut Errors) -> (out: Vec<usize>)
    ensures
        positions(out@) == kept(views(entries@), entries@.len() as int),
        final(errors)@ == old(errors)@ + reported(views(entries@), item, entries@.len() as int),
{
    let ghost es = views(entries@);
    let mut out: Vec<usize> = Vec::new();
    let mut i: usize = 0;
    assert(positions(out@) =~= kept(es, 0));
    assert(errors@ =~= old(errors)@ + reported(es, item, 0));
    while i < entries.len()
        invariant
            i <= entries@.len(),
            es == views(entries@),
            positions(out@) == kept(es, i as int),
            errors@ == old(errors)@ + reported(es, item, i as int),
        decreases entries@.len() - i,
    {
        let ghost kept_before = out@;
        match judge(entries, i) {
            Verdict::Keep => {
                out.push(i);
                assert(positions(out@) =~= positions(kept_before).push(i as int));
            },
            Verdict::Invalid => {
                errors.push(Site::Member { item, member: i }, Problem::InvalidName);
                assert(errors@ =~= old(errors)@ + reported(es, item, i as int + 1));
            },
            Verdict::Duplicate => {
                errors.push(Site::Member { item, member: i }, Problem::DuplicateName);
                assert(errors@ =~= old(errors)@ + reported(es, item, i as int + 1));
            },
            Verdict::Skip => {},
        }
        i += 1;
    }
    out
}

} // verus!
