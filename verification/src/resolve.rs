//! Finding the struct and the implementation block that define a type, and
//! the type's name where none was given.
//!
//! Every choice goes by declaration order: of the items that qualify, the
//! first one wins.

use crate::items::{text_of, views, Item, ItemView};
use crate::names::same_text;
use vstd::prelude::*;

verus! {

/// What an item must be to be chosen.
#[derive(Debug)]
pub enum Pick {
    /// A struct with this identifier.
    StructNamed(String),
    /// A struct tagged as the holder of the properties.
    TaggedStruct,
    /// Any struct.
    AnyStruct,
    /// An inherent implementation block for the type of this name.
    ImplFor(String),
    /// As `ImplFor`, and tagged as the holder of the members.
    TaggedImplFor(String),
    /// An inherent implementation block tagged as the holder of the members.
    TaggedInherent,
    /// Any inherent implementation block.
    AnyInherent,
}

pub enum PickView {
    StructNamed(Seq<char>),
    TaggedStruct,
    AnyStruct,
    ImplFor(Seq<char>),
    TaggedImplFor(Seq<char>),
    TaggedInherent,
    AnyInherent,
}

impl View for Pick {
    type V = PickView;

    open spec fn view(&self) -> PickView {
        match self {
            Pick::StructNamed(n) => PickView::StructNamed(n@),
            Pick::TaggedStruct => PickView::TaggedStruct,
            Pick::AnyStruct => PickView::AnyStruct,
            Pick::ImplFor(n) => PickView::ImplFor(n@),
            Pick::TaggedImplFor(n) => PickView::TaggedImplFor(n@),
            Pick::TaggedInherent => PickView::TaggedInherent,
            Pick::AnyInherent => PickView::AnyInherent,
        }
    }
}

impl PickView {
    /// Whether `item` qualifies.
    pub open spec fn picks(self, item: ItemView) -> bool {
        match self {
            PickView::StructNamed(n) => item matches ItemView::Struct(s) && s.ident == n,
            PickView::TaggedStruct => item matches ItemView::Struct(s) && s.tagged,
            PickView::AnyStruct => item is Struct,
            PickView::ImplFor(n) => item matches ItemView::Impl(i) && i.is_inherent_for(n),
            PickView::TaggedImplFor(n) => item matches ItemView::Impl(i) && i.is_inherent_for(n)
                && i.tagged,
            PickView::TaggedInherent => item matches ItemView::Impl(i) && i.trait_path is None
                && i.tagged,
            PickView::AnyInherent => item matches ItemView::Impl(i) && i.trait_path is None,
        }
    }
}

/// The position of the first item at or after `from` that qualifies.
pub open spec fn first_match(items: Seq<ItemView>, pick: PickView, from: int) -> Option<int>
    decreases items.len() - from,
{
    if from < 0 || from >= items.len() {
        None
    } else if pick.picks(items[from]) {
        Some(from)
    } else {
        first_match(items, pick, from + 1)
    }
}

/// The first qualifying item of the whole body.
pub open spec fn first_of(items: Seq<ItemView>, pick: PickView) -> Option<int> {
    first_match(items, pick, 0)
}

/// `a` if it names a position, else `b`.
pub open spec fn or_else(a: Option<int>, b: Option<int>) -> Option<int> {
    if a is Some {
        a
    } else {
        b
    }
}

/// A position as a mathematical integer.
pub open spec fn position(i: Option<usize>) -> Option<int> {
    match i {
        Some(i) => Some(i as int),
        None => None,
    }
}

/// `first_match` finds `at` exactly when `at` qualifies and nothing between
/// `from` and `at` does; it finds nothing exactly when nothing from `from`
/// on qualifies.
pub proof fn lemma_first_match(items: Seq<ItemView>, pick: PickView, from: int)
    requires
        0 <= from,
    ensures
        match first_match(items, pick, from) {
            Some(at) => from <= at < items.len() && pick.picks(items[at]) && forall|j: int|
                from <= j < at ==> !pick.picks(#[trigger] items[j]),
            None => forall|j: int| from <= j < items.len() ==> !pick.picks(#[trigger] items[j]),
        },
    decreases items.len() - from,
{
    if from < items.len() && !pick.picks(items[from]) {
        lemma_first_match(items, pick, from + 1);
    }
}

/// The first qualifying item is the one before which nothing qualifies.
pub proof fn lemma_first_match_is(items: Seq<ItemView>, pick: PickView, from: int, at: int)
    requires
        0 <= from <= at <= items.len(),
        forall|j: int| from <= j < at ==> !pick.picks(#[trigger] items[j]),
        at < items.len() ==> pick.picks(items[at]),
    ensures
        first_match(items, pick, from) == if at < items.len() {
            Some(at)
        } else {
            None
        },
    decreases at - from,
{
    if from < at {
        lemma_first_match_is(items, pick, from + 1, at);
    }
}

fn text_is(a: &Option<String>, b: &str) -> (r: bool)
    ensures
        r == (text_of(*a) == Some(b@)),
{
    match a {
        Some(t) => same_text(t.as_str(), b),
        None => false,
    }
}

/// Whether `item` qualifies under `pick`.
pub fn picks(item: &Item, pick: &Pick) -> (r: bool)
    ensures
        r == pick@.picks(item@),
{
    match item {
        Item::Struct(s) => match pick {
            Pick::StructNamed(n) => same_text(s.ident.as_str(), n.as_str()),
            Pick::TaggedStruct => s.tagged,
            Pick::AnyStruct => true,
            _ => false,
        },
        Item::Impl(i) => match pick {
            Pick::ImplFor(n) => i.trait_path.is_none() && text_is(&i.self_ident, n.as_str()),
            Pick::TaggedImplFor(n) => i.trait_path.is_none() && text_is(
                &i.self_ident,
                n.as_str(),
            ) && i.tagged,
            Pick::TaggedInherent => i.trait_path.is_none() && i.tagged,
            Pick::AnyInherent => i.trait_path.is_none(),
            _ => false,
        },
        Item::Other => false,
    }
}

/// The position of the first item that qualifies under `pick`.
pub fn find_first(items: &Vec<Item>, pick: &Pick) -> (r: Option<usize>)
    ensures
        position(r) == first_of(views(items@), pick@),
{
    let mut i: usize = 0;
    while i < items.len()
        invariant
            i <= items@.len(),
            forall|j: int| 0 <= j < i ==> !pick@.picks(#[trigger] views(items@)[j]),
        decreases items@.len() - i,
    {
        if picks(&items[i], pick) {
            proof {
                lemma_first_match_is(views(items@), pick@, 0, i as int);
            }
            return Some(i);
        }
        i += 1;
    }
    proof {
        lemma_first_match_is(views(items@), pick@, 0, i as int);
    }
    None
}

/// The struct that defines the type. With a name given it is the first
/// struct of that name; without one, the first struct tagged as the holder
/// of the properties, or else the first struct of the module.
pub open spec fn chosen_struct(items: Seq<ItemView>, name: Option<Seq<char>>) -> Option<int> {
    match name {
        Some(n) => first_of(items, PickView::StructNamed(n)),
        None => or_else(
            first_of(items, PickView::TaggedStruct),
            first_of(items, PickView::AnyStruct),
        ),
    }
}

/// The name once the struct is known: the chosen struct's identifier, or
/// else the name that was given.
pub open spec fn name_with_struct(items: Seq<ItemView>, name: Option<Seq<char>>) -> Option<
    Seq<char>,
> {
    match chosen_struct(items, name) {
        Some(at) => Some(items[at]->Struct_0.ident),
        None => name,
    }
}

/// The implementation block that holds the members. With the name known it
/// is an inherent block for that name, a tagged one before an untagged one;
/// with no name, a tagged inherent block before any other inherent block.
pub open spec fn chosen_impl(items: Seq<ItemView>, name: Option<Seq<char>>) -> Option<int> {
    match name_with_struct(items, name) {
        Some(n) => or_else(
            first_of(items, PickView::TaggedImplFor(n)),
            first_of(items, PickView::ImplFor(n)),
        ),
        None => or_else(
            first_of(items, PickView::TaggedInherent),
            first_of(items, PickView::AnyInherent),
        ),
    }
}

/// The type's name: given, taken from the chosen struct, or else taken from
/// the self type of the chosen implementation block.
pub open spec fn resolved_name(items: Seq<ItemView>, name: Option<Seq<char>>) -> Option<
    Seq<char>,
> {
    match name_with_struct(items, name) {
        Some(n) => Some(n),
        None => match chosen_impl(items, name) {
            Some(at) => items[at]->Impl_0.self_ident,
            None => None,
        },
    }
}

/// The outcome of resolution.
#[derive(Debug)]
pub struct Selection {
    /// Position of the struct that defines the type.
    pub struct_index: Option<usize>,
    /// Position of the implementation block that holds the members.
    pub impl_index: Option<usize>,
    /// The type's name, if one could be found.
    pub name: Option<String>,
}

fn first_of_two(a: Option<usize>, b: Option<usize>) -> (r: Option<usize>)
    ensures
        position(r) == or_else(position(a), position(b)),
{
    if a.is_some() {
        a
    } else {
        b
    }
}

/// Resolves the struct, the implementation block and the name of the type
/// that `items` define.
pub fn select(items: &Vec<Item>, name: Option<String>) -> (sel: Selection)
    ensures
        position(sel.struct_index) == chosen_struct(views(items@), text_of(name)),
        position(sel.impl_index) == chosen_impl(views(items@), text_of(name)),
        text_of(sel.name) == resolved_name(views(items@), text_of(name)),
        sel.struct_index matches Some(at) ==> at < items@.len() && items@[at as int] is Struct,
        sel.impl_index matches Some(at) ==> at < items@.len() && items@[at as int] is Impl,
{
    let ghost body = views(items@);
    let ghost given = text_of(name);
    let struct_index = match &name {
        Some(n) => find_first(items, &Pick::StructNamed(n.clone())),
        None => first_of_two(
            find_first(items, &Pick::TaggedStruct),
            find_first(items, &Pick::AnyStruct),
        ),
    };
    proof {
        if given is Some {
            lemma_first_match(body, PickView::StructNamed(given->0), 0);
        } else {
            lemma_first_match(body, PickView::TaggedStruct, 0);
            lemma_first_match(body, PickView::AnyStruct, 0);
        }
    }
    let known: Option<String> = match struct_index {
        Some(at) => match &items[at] {
            Item::Struct(s) => Some(s.ident.clone()),
            _ => None,
        },
        None => name,
    };
    assert(text_of(known) == name_with_struct(body, given));
    let impl_index = match &known {
        Some(n) => first_of_two(
            find_first(items, &Pick::TaggedImplFor(n.clone())),
            find_first(items, &Pick::ImplFor(n.clone())),
        ),
        None => first_of_two(
            find_first(items, &Pick::TaggedInherent),
            find_first(items, &Pick::AnyInherent),
        ),
    };
    proof {
        let k = text_of(known);
        if k is Some {
            lemma_first_match(body, PickView::TaggedImplFor(k->0), 0);
            lemma_first_match(body, PickView::ImplFor(k->0), 0);
        } else {
            lemma_first_match(body, PickView::TaggedInherent, 0);
            lemma_first_match(body, PickView::AnyInherent, 0);
        }
    }
    let resolved: Option<String> = match known {
        Some(n) => Some(n),
        None => match impl_index {
            Some(at) => match &items[at] {
                Item::Impl(i) => i.self_ident.clone(),
                _ => None,
            },
            None => None,
        },
    };
    Selection { struct_index, impl_index, name: resolved }
}

/// A module with exactly one struct and no given name defines a type named
/// after that struct.
pub proof fn law_single_struct_names_type(items: Seq<ItemView>, at: int)
    requires
        0 <= at < items.len(),
        items[at] is Struct,
        forall|j: int| 0 <= j < items.len() && j != at ==> !(#[trigger] items[j] is Struct),
    ensures
        chosen_struct(items, None) == Some(at),
        resolved_name(items, None) == Some(items[at]->Struct_0.ident),
{
    lemma_first_match(items, PickView::TaggedStruct, 0);
    lemma_first_match(items, PickView::AnyStruct, 0);
    let tagged = first_of(items, PickView::TaggedStruct);
    let any = first_of(items, PickView::AnyStruct);
    if tagged is Some {
        assert(items[tagged->0] is Struct);
    }
    if any is Some {
        assert(items[any->0] is Struct);
    } else {
        assert(!PickView::AnyStruct.picks(items[at]));
    }
}

/// Without a given name, a struct tagged as the holder of the properties
/// names the type, whatever untagged structs stand before or after it.
pub proof fn law_tagged_struct_names_type(items: Seq<ItemView>, at: int)
    requires
        0 <= at < items.len(),
        items[at] matches ItemView::Struct(s) && s.tagged,
        forall|j: int|
            0 <= j < at ==> !(#[trigger] items[j] matches ItemView::Struct(s) && s.tagged),
    ensures
        chosen_struct(items, None) == Some(at),
        resolved_name(items, None) == Some(items[at]->Struct_0.ident),
{
    lemma_first_match_is(items, PickView::TaggedStruct, 0, at);
}

/// With a name given, the type keeps that name: a chosen struct has it, and
/// nothing else can change it.
pub proof fn law_given_name_is_kept(items: Seq<ItemView>, name: Seq<char>)
    ensures
        resolved_name(items, Some(name)) == Some(name),
{
    lemma_first_match(items, PickView::StructNamed(name), 0);
}

/// The chosen implementation block is inherent, and where the name is known
/// its self type is that name.
pub proof fn law_chosen_impl_is_inherent(items: Seq<ItemView>, name: Option<Seq<char>>)
    ensures
        chosen_impl(items, name) matches Some(at) ==> 0 <= at < items.len() && (
        items[at] matches ItemView::Impl(i) && i.trait_path is None && (name_with_struct(
            items,
            name,
        ) matches Some(n) ==> i.self_ident == Some(n))),
{
    match name_with_struct(items, name) {
        Some(n) => {
            lemma_first_match(items, PickView::TaggedImplFor(n), 0);
            lemma_first_match(items, PickView::ImplFor(n), 0);
        },
        None => {
            lemma_first_match(items, PickView::TaggedInherent, 0);
            lemma_first_match(items, PickView::AnyInherent, 0);
        },
    }
}

} // verus!
