//! Access levels of the generated code and detection of the thread-safety
//! markers.

use crate::items::{views, Item, ItemView};
use crate::model::{Concurrency, Visibility, VisibilityView};
use crate::names::same_text;
use vstd::prelude::*;

verus! {

/// The access levels that follow from a declared visibility.
#[derive(Debug)]
pub struct Levels {
    /// The level at which the type is visible from outside.
    pub vis: Visibility,
    /// The level at which generated code in sibling scopes sees it.
    pub inner_vis: Visibility,
}

pub struct LevelsView {
    pub vis: VisibilityView,
    pub inner_vis: VisibilityView,
}

impl View for Levels {
    type V = LevelsView;

    open spec fn view(&self) -> LevelsView {
        LevelsView { vis: self.vis@, inner_vis: self.inner_vis@ }
    }
}

/// `pub(in super::..)` with at least one segment after `super`.
pub open spec fn is_super_relative(v: VisibilityView) -> bool {
    v matches VisibilityView::Restricted { path, .. } && path.segments.len() > 1
        && path.starts_with("super"@)
}

/// The levels that follow from the visibility of the struct that defines the
/// type. A private struct stays private outside and is seen by siblings; a
/// visibility relative to `super` loses its first segment outside and is
/// kept inside; any other visibility is used for both.
pub open spec fn levels_of_struct(declared: VisibilityView) -> LevelsView {
    if declared.is_private() {
        LevelsView { vis: VisibilityView::Inherited, inner_vis: VisibilityView::sibling() }
    } else if is_super_relative(declared) {
        LevelsView {
            vis: VisibilityView::Restricted { in_word: true, path: declared->path.tail() },
            inner_vis: declared,
        }
    } else {
        LevelsView { vis: declared, inner_vis: declared }
    }
}

/// The visibility that the struct itself has after the rewrite: a private
/// struct is opened to its siblings, any other is left as declared.
pub open spec fn rewritten_struct_vis(declared: VisibilityView) -> VisibilityView {
    if declared.is_private() {
        VisibilityView::sibling()
    } else {
        declared
    }
}

/// The levels of a type without a struct, which follow from the visibility
/// of the module: outside it is the module's own; inside, a private module
/// is seen by siblings, a visibility that starts at `super` goes one level
/// further up, and any other is kept.
pub open spec fn levels_of_module(declared: VisibilityView) -> LevelsView {
    LevelsView {
        vis: declared,
        inner_vis: if declared.is_private() {
            VisibilityView::sibling()
        } else if declared matches VisibilityView::Restricted { path, .. } && path.starts_with(
            "super"@,
        ) {
            VisibilityView::Restricted { in_word: true, path: declared->path.under_super() }
        } else {
            declared
        },
    }
}

/// Computes the levels that follow from the struct's visibility.
pub fn struct_levels(declared: &Visibility) -> (out: Levels)
    ensures
        out@ == levels_of_struct(declared@),
{
    if declared.is_private() {
        return Levels { vis: Visibility::Inherited, inner_vis: Visibility::sibling() };
    }
    match declared {
        Visibility::Restricted { path, .. } => {
            if path.segments.len() > 1 && path.starts_with("super") {
                return Levels {
                    vis: Visibility::Restricted { in_word: true, path: path.tail() },
                    inner_vis: declared.duplicate(),
                };
            }
        },
        _ => {},
    }
    Levels { vis: declared.duplicate(), inner_vis: declared.duplicate() }
}

/// Computes the visibility of the struct after the rewrite.
pub fn struct_vis_rewritten(declared: &Visibility) -> (out: Visibility)
    ensures
        out@ == rewritten_struct_vis(declared@),
{
    if declared.is_private() {
        Visibility::sibling()
    } else {
        declared.duplicate()
    }
}

/// Computes the levels that follow from the module's visibility.
pub fn module_levels(declared: &Visibility) -> (out: Levels)
    ensures
        out@ == levels_of_module(declared@),
{
    if declared.is_private() {
        return Levels { vis: declared.duplicate(), inner_vis: Visibility::sibling() };
    }
    match declared {
        Visibility::Restricted { path, .. } => {
            if path.starts_with("super") {
                return Levels {
                    vis: declared.duplicate(),
                    inner_vis: Visibility::Restricted { in_word: true, path: path.under_super() },
                };
            }
        },
        _ => {},
    }
    Levels { vis: declared.duplicate(), inner_vis: declared.duplicate() }
}

/// `item` is an implementation of the marker trait `word` for the type
/// `name` itself.
pub open spec fn is_marker_impl(item: ItemView, name: Seq<char>, word: Seq<char>) -> bool {
    item matches ItemView::Impl(i) && i.self_ident == Some(name) && (i.trait_path matches Some(p)
        && p.is_marker(word))
}

/// Some implementation block of the module declares the marker `word` for
/// the type `name`.
pub open spec fn declares_marker(items: Seq<ItemView>, name: Seq<char>, word: Seq<char>) -> bool {
    exists|j: int| 0 <= j < items.len() && is_marker_impl(#[trigger] items[j], name, word)
}

/// Thread safety of a type, class or interface: elevated exactly where the
/// module declares both `Send` and `Sync` for the type's struct, each in a
/// block of its own.
pub open spec fn concurrency_of(items: Seq<ItemView>, name: Seq<char>) -> Concurrency {
    if declares_marker(items, name, "Send"@) && declares_marker(items, name, "Sync"@) {
        Concurrency::SendSync
    } else {
        Concurrency::Unset
    }
}

fn marker_impl(item: &Item, name: &str, word: &str) -> (r: bool)
    ensures
        r == is_marker_impl(item@, name@, word@),
{
    match item {
        Item::Impl(i) => {
            let for_name = match &i.self_ident {
                Some(n) => same_text(n.as_str(), name),
                None => false,
            };
            for_name && match &i.trait_path {
                Some(p) => p.is_marker(word),
                None => false,
            }
        },
        _ => false,
    }
}

/// Whether some implementation block declares the marker `word` for `name`.
pub fn has_marker(items: &Vec<Item>, name: &str, word: &str) -> (r: bool)
    ensures
        r == declares_marker(views(items@), name@, word@),
{
    let mut i: usize = 0;
    while i < items.len()
        invariant
            i <= items@.len(),
            forall|j: int| 0 <= j < i ==> !is_marker_impl(#[trigger] views(items@)[j], name@, word@),
        decreases items@.len() - i,
    {
        if marker_impl(&items[i], name, word) {
            assert(is_marker_impl(views(items@)[i as int], name@, word@));
            return true;
        }
        i += 1;
    }
    false
}

/// Detects the thread safety of the type `name`.
pub fn detect_concurrency(items: &Vec<Item>, name: &str) -> (out: Concurrency)
    ensures
        out == concurrency_of(views(items@), name@),
        out == Concurrency::SendSync <==> declares_marker(views(items@), name@, "Send"@)
            && declares_marker(views(items@), name@, "Sync"@),
{
    if has_marker(items, name, "Send") && has_marker(items, name, "Sync") {
        Concurrency::SendSync
    } else {
        Concurrency::Unset
    }
}

} // verus!
