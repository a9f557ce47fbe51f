//! The diagnostics collector: an append-only list of errors, each tied to
//! the place in the module body that it is about.

use vstd::prelude::*;

verus! {

/// The part of the input that a diagnostic points at.
#[derive(Debug, PartialEq, Eq, Structural, Clone, Copy)]
pub enum Site {
    /// The module as a whole.
    Module,
    /// The item at this position of the module body.
    Item(usize),
    /// A member (field or method, by position) of the item at `item`.
    Member { item: usize, member: usize },
    /// The options given with the definition.
    Options,
}

/// What went wrong.
#[derive(Debug, PartialEq, Eq, Structural, Clone, Copy)]
pub enum Problem {
    /// The module has no body.
    ModuleWithoutBody,
    /// Neither an explicit name nor a struct or implementation block to take
    /// one from.
    MissingName,
    /// More than one of a set of mutually exclusive modifiers was given.
    ConflictingModifiers,
    /// A member's name is not a valid name.
    InvalidName,
    /// A second member of the same kind has the same name.
    DuplicateName,
    /// Tokens follow the constructor annotation.
    ConstructorTokens,
    /// A constructor takes `self`.
    ConstructorReceiver,
    /// A constructor has no return type.
    ConstructorReturn,
    /// A constructor argument is not a plain identifier.
    ConstructorArgument,
}

/// One collected error.
#[derive(Debug, PartialEq, Eq, Structural, Clone, Copy)]
pub struct Diagnostic {
    pub site: Site,
    pub problem: Problem,
}

/// Collects diagnostics in the order in which they are reported. Nothing is
/// ever removed, and reporting never stops the analysis.
#[derive(Debug)]
pub struct Errors {
    errors: Vec<Diagnostic>,
}

impl View for Errors {
    type V = Seq<Diagnostic>;

    closed spec fn view(&self) -> Seq<Diagnostic> {
        self.errors@
    }
}

/// How many entries of `s` report `problem`.
pub open spec fn count_of(s: Seq<Diagnostic>, problem: Problem) -> nat
    decreases s.len(),
{
    if s.len() == 0 {
        0
    } else {
        count_of(s.drop_last(), problem) + if s.last().problem == problem {
            1nat
        } else {
            0nat
        }
    }
}

impl Errors {
    /// An empty collector.
    pub fn new() -> (out: Errors)
        ensures
            out@ == Seq::<Diagnostic>::empty(),
    {
        Errors { errors: Vec::new() }
    }

    /// Appends a diagnostic about `site`.
    pub fn push(&mut self, site: Site, problem: Problem)
        ensures
            final(self)@ == old(self)@.push(Diagnostic { site, problem }),
    {
        self.errors.push(Diagnostic { site, problem });
    }

    /// Appends a diagnostic about the item at position `item`.
    pub fn push_spanned(&mut self, item: usize, problem: Problem)
        ensures
            final(self)@ == old(self)@.push(Diagnostic { site: Site::Item(item), problem }),
    {
        self.push(Site::Item(item), problem);
    }

    /// The number of diagnostics collected so far.
    pub fn len(&self) -> (n: usize)
        ensures
            n == self@.len(),
    {
        self.errors.len()
    }

    /// Hands out what was collected: nothing if there was no error, else
    /// every diagnostic in the order of reporting.
    pub fn into_compile_errors(self) -> (out: Option<Vec<Diagnostic>>)
        ensures
            self@.len() == 0 ==> out is None,
            self@.len() > 0 ==> out is Some && out->0@ == self@,
    {
        if self.errors.len() == 0 {
            None
        } else {
            Some(self.errors)
        }
    }
}

} // verus!
