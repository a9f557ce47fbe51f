//! Statements that the user splices into generated methods, kept by the
//! name of the method they go into and, under one name, in the order in
//! which they were added.

use crate::names::same_text;
use crate::resolve::position;
use crate::wrapper::texts;
use vstd::prelude::*;

verus! {

/// The statements for one generated method.
#[derive(Debug)]
struct Splice {
    name: String,
    stmts: Vec<String>,
}

/// The statements to splice in, by method name.
#[derive(Debug)]
pub struct CustomStmts {
    entries: Vec<Splice>,
}

/// The position of the entry for `name` among the first `upto`, if any.
spec fn entry_for(entries: Seq<Splice>, name: Seq<char>, upto: int) -> Option<int>
    decreases upto,
{
    if upto <= 0 {
        None
    } else if entries[upto - 1].name@ == name {
        Some(upto - 1)
    } else {
        entry_for(entries, name, upto - 1)
    }
}

proof fn lemma_entry_for(entries: Seq<Splice>, name: Seq<char>, upto: int)
    requires
        0 <= upto <= entries.len(),
    ensures
        match entry_for(entries, name, upto) {
            Some(at) => 0 <= at < upto && entries[at].name@ == name,
            None => forall|j: int| 0 <= j < upto ==> (#[trigger] entries[j]).name@ != name,
        },
    decreases upto,
{
    if upto > 0 && entries[upto - 1].name@ != name {
        lemma_entry_for(entries, name, upto - 1);
    }
}

proof fn lemma_entry_for_unique(entries: Seq<Splice>, name: Seq<char>, at: int)
    requires
        0 <= at < entries.len(),
        entries[at].name@ == name,
        forall|j: int, k: int|
            0 <= j < k < entries.len() ==> (#[trigger] entries[j]).name@ != (
            #[trigger] entries[k]).name@,
    ensures
        entry_for(entries, name, entries.len() as int) == Some(at),
{
    lemma_entry_for(entries, name, entries.len() as int);
}

impl CustomStmts {
    /// Each name has one entry.
    pub closed spec fn wf(self) -> bool {
        forall|j: int, k: int|
            0 <= j < k < self.entries@.len() ==> (#[trigger] self.entries@[j]).name@ != (
            #[trigger] self.entries@[k]).name@
    }
}

impl View for CustomStmts {
    type V = Map<Seq<char>, Seq<Seq<char>>>;

    closed spec fn view(&self) -> Map<Seq<char>, Seq<Seq<char>>> {
        Map::new(
            |n: Seq<char>| entry_for(self.entries@, n, self.entries@.len() as int) is Some,
            |n: Seq<char>|
                texts(self.entries@[entry_for(self.entries@, n, self.entries@.len() as int)->0].stmts@),
        )
    }
}

/// The statements under `name`, or none where the name is not there.
pub open spec fn stmts_under(m: Map<Seq<char>, Seq<Seq<char>>>, name: Seq<char>) -> Seq<Seq<char>> {
    if m.dom().contains(name) {
        m[name]
    } else {
        Seq::empty()
    }
}

impl CustomStmts {
    /// No statements.
    pub fn new() -> (out: CustomStmts)
        ensures
            out.wf(),
            out@ == Map::<Seq<char>, Seq<Seq<char>>>::empty(),
    {
        let out = CustomStmts { entries: Vec::new() };
        assert(out@ =~= Map::<Seq<char>, Seq<Seq<char>>>::empty());
        out
    }

    fn find(&self, name: &str) -> (r: Option<usize>)
        requires
            self.wf(),
        ensures
            position(r) == entry_for(
                self.entries@,
                name@,
                self.entries@.len() as int,
            ),
            r matches Some(at) ==> at < self.entries@.len() && self.entries@[at as int].name@
                == name@,
    {
        let mut i: usize = 0;
        while i < self.entries.len()
            invariant
                i <= self.entries@.len(),
                forall|j: int| 0 <= j < i ==> (#[trigger] self.entries@[j]).name@ != name@,
                forall|j: int, k: int|
                    0 <= j < k < self.entries@.len() ==> (#[trigger] self.entries@[j]).name@ != (
                    #[trigger] self.entries@[k]).name@,
            decreases self.entries@.len() - i,
        {
            if same_text(self.entries[i].name.as_str(), name) {
                proof {
                    lemma_entry_for_unique(self.entries@, name@, i as int);
                }
                return Some(i);
            }
            i += 1;
        }
        proof {
            lemma_entry_for(self.entries@, name@, self.entries@.len() as int);
        }
        None
    }

    /// Whether statements were added under `name`.
    pub fn has_custom_stmts(&self, name: &str) -> (r: bool)
        requires
            self.wf(),
        ensures
            r == self@.dom().contains(name@),
    {
        self.find(name).is_some()
    }

    /// The statements added under `name`, in the order of their addition.
    pub fn custom_stmts_for(&self, name: &str) -> (r: Option<Vec<String>>)
        requires
            self.wf(),
        ensures
            r is Some == self@.dom().contains(name@),
            r matches Some(v) ==> texts(v@) == self@[name@],
    {
        match self.find(name) {
            Some(at) => {
                let src = &self.entries[at].stmts;
                let mut out: Vec<String> = Vec::new();
                let mut i: usize = 0;
                while i < src.len()
                    invariant
                        i <= src@.len(),
                        out@.len() == i,
                        forall|j: int| 0 <= j < i ==> (#[trigger] out@[j])@ == src@[j]@,
                    decreases src@.len() - i,
                {
                    out.push(src[i].clone());
                    i += 1;
                }
                assert(texts(out@) =~= texts(src@));
                Some(out)
            },
            None => None,
        }
    }

    /// Adds `stmt` after the statements already under `name`.
    pub fn add_custom_stmt(&mut self, name: &str, stmt: String)
        requires
            old(self).wf(),
        ensures
            final(self).wf(),
            final(self)@ == old(self)@.insert(name@, stmts_under(old(self)@, name@).push(stmt@)),
    {
        let ghost before = self.entries@;
        let ghost n = before.len() as int;
        match self.find(name) {
            Some(at) => {
                let mut e = self.entries.remove(at);
                e.stmts.push(stmt);
                self.entries.insert(at, e);
                let ghost after = self.entries@;
                assert(after.len() == n);
                assert forall|j: int| 0 <= j < n implies (#[trigger] after[j]).name@
                    == before[j].name@ by {}
                assert forall|q: Seq<char>| #![auto]
                    entry_for(after, q, n) == entry_for(before, q, n) by {
                    lemma_entry_for(after, q, n);
                    lemma_entry_for(before, q, n);
                    match entry_for(before, q, n) {
                        Some(k) => {
                            lemma_entry_for_unique(after, q, k);
                        },
                        None => {},
                    }
                }
                assert(texts(after[at as int].stmts@) =~= texts(before[at as int].stmts@).push(
                    stmt@,
                ));
                assert forall|j: int| 0 <= j < n && j != at implies #[trigger] after[j]
                    == before[j] by {}
                let ghost want = old(self)@.insert(
                    name@,
                    stmts_under(old(self)@, name@).push(stmt@),
                );
                assert(entry_for(before, name@, n) == Some(at as int));
                assert forall|q: Seq<char>| self@.dom().contains(q) == want.dom().contains(
                    q,
                ) by {
                    assert(entry_for(after, q, n) == entry_for(before, q, n));
                }
                assert forall|q: Seq<char>| self@.dom().contains(q) implies #[trigger] self@[q]
                    == want[q] by {
                    assert(entry_for(after, q, n) == entry_for(before, q, n));
                    lemma_entry_for(before, q, n);
                }
                assert(self@ =~= want);
            },
            None => {
                let mut stmts: Vec<String> = Vec::new();
                stmts.push(stmt);
                self.entries.push(Splice { name: String::from_str(name), stmts });
                let ghost after = self.entries@;
                proof {
                    lemma_entry_for(before, name@, n);
                }
                assert forall|q: Seq<char>| #![auto]
                    entry_for(after, q, n + 1) == if q == name@ {
                        Some(n)
                    } else {
                        entry_for(before, q, n)
                    } by {
                    lemma_entry_for(after, q, n + 1);
                    lemma_entry_for(before, q, n);
                    if q != name@ {
                        match entry_for(before, q, n) {
                            Some(k) => {
                                lemma_entry_for_unique(after, q, k);
                            },
                            None => {},
                        }
                    }
                }
                assert(texts(after[n].stmts@) =~= Seq::<Seq<char>>::empty().push(stmt@));
                assert forall|j: int| 0 <= j < n implies #[trigger] after[j] == before[j] by {}
                let ghost want = old(self)@.insert(
                    name@,
                    stmts_under(old(self)@, name@).push(stmt@),
                );
                assert(entry_for(before, name@, n) is None);
                assert forall|q: Seq<char>| self@.dom().contains(q) == want.dom().contains(
                    q,
                ) by {
                    assert(entry_for(after, q, n + 1) == if q == name@ {
                        Some(n)
                    } else {
                        entry_for(before, q, n)
                    });
                }
                assert forall|q: Seq<char>| self@.dom().contains(q) implies #[trigger] self@[q]
                    == want[q] by {
                    assert(entry_for(after, q, n + 1) == if q == name@ {
                        Some(n)
                    } else {
                        entry_for(before, q, n)
                    });
                    lemma_entry_for(before, q, n);
                }
                assert(self@ =~= want);
            },
        }
    }
}

} // verus!
