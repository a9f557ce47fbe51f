//! Plain-value picture of the syntax that the type-definition builder reads:
//! paths, visibilities and the items of a module body.

use crate::names::same_text;
use vstd::prelude::*;
use vstd::string::*;

verus! {

/// Which of the two types of an object is meant: the implementation type or
/// the handle through which consumers reach an instance.
#[derive(Debug, PartialEq, Eq, Structural, PartialOrd, Ord, Clone, Copy)]
pub enum TypeMode {
    Subclass,
    Wrapper,
}

/// Where a type expression is written: inside the implementation (`Self` is
/// in scope) or outside it.
#[derive(Debug, PartialEq, Eq, Structural, PartialOrd, Ord, Clone, Copy)]
pub enum TypeContext {
    Internal,
    External,
}

/// Whether a definition is a class or an interface.
#[derive(Debug, PartialEq, Eq, Structural, PartialOrd, Ord, Clone, Copy)]
pub enum TypeBase {
    Class,
    Interface,
}

/// Thread-safety bound that the generated public API asks of implementors.
#[derive(Debug, PartialEq, Eq, Structural, PartialOrd, Ord, Clone, Copy)]
pub enum Concurrency {
    /// No bound.
    Unset,
    /// `Send + Sync`.
    SendSync,
}

/// One segment of a path: its identifier, and whether generic arguments
/// follow it.
#[derive(Debug)]
pub struct Segment {
    pub ident: String,
    pub has_args: bool,
}

/// A path such as `super::widgets` or `::std::marker::Send`.
#[derive(Debug)]
pub struct Path {
    pub leading_colon: bool,
    pub segments: Vec<Segment>,
}

/// Mathematical value of a segment.
pub struct SegmentView {
    pub ident: Seq<char>,
    pub has_args: bool,
}

/// Mathematical value of a path.
pub struct PathView {
    pub leading_colon: bool,
    pub segments: Seq<SegmentView>,
}

impl View for Segment {
    type V = SegmentView;

    open spec fn view(&self) -> SegmentView {
        SegmentView { ident: self.ident@, has_args: self.has_args }
    }
}

impl View for Path {
    type V = PathView;

    open spec fn view(&self) -> PathView {
        PathView {
            leading_colon: self.leading_colon,
            segments: Seq::new(self.segments@.len(), |i: int| self.segments@[i]@),
        }
    }
}

impl PathView {
    /// The path is the single bare identifier `word`.
    pub open spec fn is_ident(self, word: Seq<char>) -> bool {
        &&& !self.leading_colon
        &&& self.segments.len() == 1
        &&& !self.segments[0].has_args
        &&& self.segments[0].ident == word
    }

    /// The path is `root::marker::word`, with or without a leading `::`.
    pub open spec fn is_marker_under(self, root: Seq<char>, word: Seq<char>) -> bool {
        &&& self.segments.len() == 3
        &&& forall|i: int| 0 <= i < 3 ==> !(#[trigger] self.segments[i]).has_args
        &&& self.segments[0].ident == root
        &&& self.segments[1].ident == "marker"@
        &&& self.segments[2].ident == word
    }

    /// The path names the marker trait `word` of the standard library: bare,
    /// or under `std::marker` or `core::marker`.
    pub open spec fn is_marker(self, word: Seq<char>) -> bool {
        ||| self.is_ident(word)
        ||| self.is_marker_under("std"@, word)
        ||| self.is_marker_under("core"@, word)
    }

    /// The path without its first segment and without a leading `::`.
    pub open spec fn tail(self) -> PathView {
        PathView {
            leading_colon: false,
            segments: self.segments.subrange(1, self.segments.len() as int),
        }
    }

    /// The path with the segment `super` put in front.
    pub open spec fn under_super(self) -> PathView {
        PathView {
            leading_colon: false,
            segments: seq![SegmentView { ident: "super"@, has_args: false }] + self.segments,
        }
    }

    /// The first segment is the bare word `word`.
    pub open spec fn starts_with(self, word: Seq<char>) -> bool {
        self.segments.len() >= 1 && self.segments[0].ident == word
    }
}

/// Declared access level of an item.
#[derive(Debug)]
pub enum Visibility {
    /// No keyword: private to the enclosing module.
    Inherited,
    /// `pub`
    Public,
    /// `crate`
    Crate,
    /// `pub(path)` or `pub(in path)`
    Restricted { in_word: bool, path: Path },
}

/// Mathematical value of a visibility.
pub enum VisibilityView {
    Inherited,
    Public,
    Crate,
    Restricted { in_word: bool, path: PathView },
}

impl View for Visibility {
    type V = VisibilityView;

    open spec fn view(&self) -> VisibilityView {
        match self {
            Visibility::Inherited => VisibilityView::Inherited,
            Visibility::Public => VisibilityView::Public,
            Visibility::Crate => VisibilityView::Crate,
            Visibility::Restricted { in_word, path } => VisibilityView::Restricted {
                in_word: *in_word,
                path: path@,
            },
        }
    }
}

impl VisibilityView {
    /// `pub(super)`, the level at which generated sibling code can see an
    /// otherwise private item.
    pub open spec fn sibling() -> VisibilityView {
        VisibilityView::Restricted {
            in_word: false,
            path: PathView {
                leading_colon: false,
                segments: seq![SegmentView { ident: "super"@, has_args: false }],
            },
        }
    }

    /// Private to its own module: no keyword, or `pub(self)`.
    pub open spec fn is_private(self) -> bool {
        match self {
            VisibilityView::Inherited => true,
            VisibilityView::Restricted { path, .. } => path.segments.len() == 1
                && path.segments[0].ident == "self"@,
            _ => false,
        }
    }
}

impl Segment {
    /// A copy of the segment.
    pub fn duplicate(&self) -> (out: Segment)
        ensures
            out@ == self@,
    {
        Segment { ident: self.ident.clone(), has_args: self.has_args }
    }
}

impl Path {
    /// A copy of the path.
    pub fn duplicate(&self) -> (out: Path)
        ensures
            out@ == self@,
    {
        let out = Path { leading_colon: self.leading_colon, segments: self.segments_from(0) };
        assert(out@.segments =~= self@.segments);
        out
    }

    /// Copies of the segments from position `start` on.
    fn segments_from(&self, start: usize) -> (out: Vec<Segment>)
        requires
            start <= self.segments@.len(),
        ensures
            out@.len() == self.segments@.len() - start,
            forall|i: int| 0 <= i < out@.len() ==> (#[trigger] out@[i])@ == self.segments@[i + start]@,
    {
        let mut out: Vec<Segment> = Vec::new();
        let mut i: usize = start;
        while i < self.segments.len()
            invariant
                start <= i <= self.segments@.len(),
                out@.len() == i - start,
                forall|j: int| 0 <= j < out@.len() ==> (#[trigger] out@[j])@ == self.segments@[j + start]@,
            decreases self.segments@.len() - i,
        {
            out.push(self.segments[i].duplicate());
            i += 1;
        }
        out
    }

    /// Whether the path is the single bare identifier `word`.
    pub fn is_ident(&self, word: &str) -> (b: bool)
        ensures
            b == self@.is_ident(word@),
    {
        !self.leading_colon && self.segments.len() == 1 && !self.segments[0].has_args && same_text(
            self.segments[0].ident.as_str(),
            word,
        )
    }

    fn is_marker_under(&self, root: &str, word: &str) -> (b: bool)
        ensures
            b == self@.is_marker_under(root@, word@),
    {
        if self.segments.len() != 3 {
            return false;
        }
        if self.segments[0].has_args || self.segments[1].has_args || self.segments[2].has_args {
            return false;
        }
        same_text(self.segments[0].ident.as_str(), root) && same_text(
            self.segments[1].ident.as_str(),
            "marker",
        ) && same_text(self.segments[2].ident.as_str(), word)
    }

    /// Whether the path names the marker trait `word` of the standard
    /// library, bare or by its full path under `std` or `core`.
    pub fn is_marker(&self, word: &str) -> (b: bool)
        ensures
            b == self@.is_marker(word@),
    {
        self.is_ident(word) || self.is_marker_under("std", word) || self.is_marker_under(
            "core",
            word,
        )
    }

    /// Whether the first segment is `word`.
    pub fn starts_with(&self, word: &str) -> (b: bool)
        ensures
            b == self@.starts_with(word@),
    {
        self.segments.len() >= 1 && same_text(self.segments[0].ident.as_str(), word)
    }

    /// The path without its first segment.
    pub fn tail(&self) -> (out: Path)
        requires
            self@.segments.len() >= 1,
        ensures
            out@ == self@.tail(),
    {
        let out = Path { leading_colon: false, segments: self.segments_from(1) };
        assert(out@.segments =~= self@.tail().segments);
        out
    }

    /// The path with `super` put in front.
    pub fn under_super(&self) -> (out: Path)
        ensures
            out@ == self@.under_super(),
    {
        let mut segments: Vec<Segment> = Vec::new();
        segments.push(Segment { ident: String::from_str("super"), has_args: false });
        let mut rest = self.segments_from(0);
        let ghost head = segments@;
        let ghost copied = rest@;
        segments.append(&mut rest);
        let out = Path { leading_colon: false, segments };
        assert(out.segments@ == head + copied);
        assert(out@.segments =~= self@.under_super().segments);
        out
    }
}

impl Visibility {
    /// A copy of the visibility.
    pub fn duplicate(&self) -> (out: Visibility)
        ensures
            out@ == self@,
    {
        match self {
            Visibility::Inherited => Visibility::Inherited,
            Visibility::Public => Visibility::Public,
            Visibility::Crate => Visibility::Crate,
            Visibility::Restricted { in_word, path } => Visibility::Restricted {
                in_word: *in_word,
                path: path.duplicate(),
            },
        }
    }

    /// `pub(super)`
    pub fn sibling() -> (out: Visibility)
        ensures
            out@ == VisibilityView::sibling(),
    {
        let mut segments: Vec<Segment> = Vec::new();
        segments.push(Segment { ident: String::from_str("super"), has_args: false });
        let out = Visibility::Restricted {
            in_word: false,
            path: Path { leading_colon: false, segments },
        };
        assert(out@->path.segments =~= VisibilityView::sibling()->path.segments);
        out
    }

    /// Whether the item is private to its own module.
    pub fn is_private(&self) -> (b: bool)
        ensures
            b == self@.is_private(),
    {
        match self {
            Visibility::Inherited => true,
            Visibility::Restricted { path, .. } => path.segments.len() == 1 && same_text(
                path.segments[0].ident.as_str(),
                "self",
            ),
            _ => false,
        }
    }
}

impl Concurrency {
    /// The bound as it is written after a trait bound: nothing, or
    /// `+ Send + Sync`.
    pub open spec fn bound(self) -> Seq<char> {
        match self {
            Concurrency::Unset => ""@,
            Concurrency::SendSync => "+ Send + Sync"@,
        }
    }

    /// Writes the bound that the generated public API asks for.
    pub fn to_tokens(&self) -> (out: &'static str)
        ensures
            out@ == self.bound(),
    {
        match self {
            Concurrency::Unset => "",
            Concurrency::SendSync => "+ Send + Sync",
        }
    }
}

} // verus!
