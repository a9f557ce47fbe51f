//! Blocks of wrapper methods: their signatures are recorded, and the
//! constructors among them are checked.

use crate::diag::{Diagnostic, Errors, Problem, Site};
use crate::items::{text_of, views, ImplBlock, Item, ItemView, Method, MethodView};
use crate::model::TypeBase;
use crate::names::{kebab_case, to_kebab};
use crate::rewrite::{filled_in, is_wrapper_block};
use vstd::prelude::*;

verus! {

/// One entry if `cond` holds, none otherwise.
pub open spec fn report_if(cond: bool, site: Site, problem: Problem) -> Seq<Diagnostic> {
    if cond {
        seq![Diagnostic { site, problem }]
    } else {
        Seq::empty()
    }
}

/// One diagnostic for each of the first `upto` arguments that is not a plain
/// identifier.
pub open spec fn argument_reports(args: Seq<Option<Seq<char>>>, site: Site, upto: int) -> Seq<
    Diagnostic,
>
    decreases upto,
{
    if upto <= 0 {
        Seq::empty()
    } else {
        argument_reports(args, site, upto - 1) + report_if(
            args[upto - 1] is None,
            site,
            Problem::ConstructorArgument,
        )
    }
}

/// What is wrong with a constructor, in the order of reporting: tokens
/// after the annotation, a receiver, a missing return type, then the
/// arguments that are not plain identifiers.
pub open spec fn constructor_reports(m: MethodView, site: Site) -> Seq<Diagnostic> {
    report_if(m.constructor_tokens, site, Problem::ConstructorTokens) + report_if(
        m.has_receiver,
        site,
        Problem::ConstructorReceiver,
    ) + report_if(!m.has_return, site, Problem::ConstructorReturn) + argument_reports(
        m.args,
        site,
        m.args.len() as int,
    )
}

/// The diagnostics about the first `upto` methods of a block of wrapper
/// methods at position `item`: those of the constructors of a class.
pub open spec fn block_reports(methods: Seq<MethodView>, base: TypeBase, item: usize, upto: int) -> Seq<
    Diagnostic,
>
    decreases upto,
{
    if upto <= 0 {
        Seq::empty()
    } else {
        let m = methods[upto - 1];
        block_reports(methods, base, item, upto - 1) + if base == TypeBase::Class && m.constructor {
            constructor_reports(m, Site::Member { item, member: (upto - 1) as usize })
        } else {
            Seq::empty()
        }
    }
}

/// The identifiers of the methods, in order.
pub open spec fn idents_of(methods: Seq<MethodView>) -> Seq<Seq<char>> {
    Seq::new(methods.len(), |i: int| methods[i].ident)
}

/// The wrapper methods of the first `upto` items, in order.
pub open spec fn wrapper_idents(items: Seq<ItemView>, upto: int) -> Seq<Seq<char>>
    decreases upto,
{
    if upto <= 0 {
        Seq::empty()
    } else {
        wrapper_idents(items, upto - 1) + match items[upto - 1] {
            ItemView::Impl(b) => if is_wrapper_block(b) {
                idents_of(b.methods)
            } else {
                Seq::empty()
            },
            _ => Seq::empty(),
        }
    }
}

/// The diagnostics about the wrapper methods of the first `upto` items.
pub open spec fn wrapper_reports(items: Seq<ItemView>, base: TypeBase, upto: int) -> Seq<Diagnostic>
    decreases upto,
{
    if upto <= 0 {
        Seq::empty()
    } else {
        wrapper_reports(items, base, upto - 1) + match items[upto - 1] {
            ItemView::Impl(b) => if is_wrapper_block(b) {
                block_reports(b.methods, base, (upto - 1) as usize, b.methods.len() as int)
            } else {
                Seq::empty()
            },
            _ => Seq::empty(),
        }
    }
}

/// The texts of `v`, in order.
pub open spec fn texts(v: Seq<String>) -> Seq<Seq<char>> {
    Seq::new(v.len(), |i: int| v[i]@)
}

/// Checks a constructor and reports what is wrong with it.
pub fn check_constructor(method: &Method, site: Site, errors: &mut Errors)
    ensures
        final(errors)@ == old(errors)@ + constructor_reports(method@, site),
{
    let ghost m = method@;
    if method.constructor_tokens {
        errors.push(site, Problem::ConstructorTokens);
    }
    if method.has_receiver {
        errors.push(site, Problem::ConstructorReceiver);
    }
    if !method.has_return {
        errors.push(site, Problem::ConstructorReturn);
    }
    let ghost head = report_if(m.constructor_tokens, site, Problem::ConstructorTokens) + report_if(
        m.has_receiver,
        site,
        Problem::ConstructorReceiver,
    ) + report_if(!m.has_return, site, Problem::ConstructorReturn);
    assert(errors@ =~= old(errors)@ + head);
    let mut i: usize = 0;
    while i < method.args.len()
        invariant
            i <= method.args@.len(),
            m == method@,
            errors@ == old(errors)@ + head + argument_reports(m.args, site, i as int),
        decreases method.args@.len() - i,
    {
        if method.args[i].is_none() {
            errors.push(site, Problem::ConstructorArgument);
        }
        assert(errors@ =~= old(errors)@ + head + argument_reports(m.args, site, i as int + 1));
        i += 1;
    }
    assert(errors@ =~= old(errors)@ + constructor_reports(m, site));
}

/// Records the signatures of a block of wrapper methods at position `item`
/// and checks the constructors of a class.
pub fn extract_wrapper_methods(
    block: &ImplBlock,
    item: usize,
    base: TypeBase,
    methods: &mut Vec<String>,
    errors: &mut Errors,
)
    ensures
        texts(final(methods)@) == texts(old(methods)@) + idents_of(block@.methods),
        final(errors)@ == old(errors)@ + block_reports(
            block@.methods,
            base,
            item,
            block@.methods.len() as int,
        ),
{
    let ghost ms = block@.methods;
    let mut i: usize = 0;
    assert(texts(methods@) =~= texts(old(methods)@) + idents_of(ms).subrange(0, 0));
    assert(errors@ =~= old(errors)@ + block_reports(ms, base, item, 0));
    while i < block.methods.len()
        invariant
            i <= block.methods@.len(),
            ms == block@.methods,
            ms.len() == block.methods@.len(),
            texts(methods@) == texts(old(methods)@) + idents_of(ms).subrange(0, i as int),
            errors@ == old(errors)@ + block_reports(ms, base, item, i as int),
        decreases block.methods@.len() - i,
    {
        let m = &block.methods[i];
        assert(m@ == ms[i as int]);
        let ghost before = methods@;
        methods.push(m.ident.clone());
        assert(texts(methods@) =~= texts(before).push(m.ident@));
        assert(texts(methods@) =~= texts(old(methods)@) + idents_of(ms).subrange(0, i as int + 1));
        let class = match base {
            TypeBase::Class => true,
            TypeBase::Interface => false,
        };
        if class && m.constructor {
            check_constructor(m, Site::Member { item, member: i }, errors);
        }
        assert(errors@ =~= old(errors)@ + block_reports(ms, base, item, i as int + 1));
        i += 1;
    }
    assert(idents_of(ms).subrange(0, i as int) =~= idents_of(ms));
}

/// Records the wrapper methods of every block of wrapper methods in
/// `items`, in order, and checks their constructors.
pub fn collect_wrapper_methods(items: &Vec<Item>, base: TypeBase, errors: &mut Errors) -> (out: Vec<
    String,
>)
    ensures
        texts(out@) == wrapper_idents(views(items@), items@.len() as int),
        final(errors)@ == old(errors)@ + wrapper_reports(views(items@), base, items@.len() as int),
{
    let ghost body = views(items@);
    let mut out: Vec<String> = Vec::new();
    let mut i: usize = 0;
    assert(texts(out@) =~= wrapper_idents(body, 0));
    assert(errors@ =~= old(errors)@ + wrapper_reports(body, base, 0));
    while i < items.len()
        invariant
            i <= items@.len(),
            body == views(items@),
            texts(out@) == wrapper_idents(body, i as int),
            errors@ == old(errors)@ + wrapper_reports(body, base, i as int),
        decreases items@.len() - i,
    {
        assert(body[i as int] == items@[i as int]@);
        match &items[i] {
            Item::Impl(b) => {
                if b.trait_path.is_none() && b.wrapper_tagged {
                    extract_wrapper_methods(b, i, base, &mut out, errors);
                }
            },
            _ => {},
        }
        assert(texts(out@) =~= wrapper_idents(body, i as int + 1));
        assert(errors@ =~= old(errors)@ + wrapper_reports(body, base, i as int + 1));
        i += 1;
    }
    out
}

/// The properties that a generated constructor sets: one pair for each
/// argument that is a plain identifier, of the identifier's kebab-case
/// spelling and the identifier.
pub open spec fn constructor_pairs(args: Seq<Option<Seq<char>>>, upto: int) -> Seq<
    (Seq<char>, Seq<char>),
>
    decreases upto,
{
    if upto <= 0 {
        Seq::empty()
    } else {
        match args[upto - 1] {
            Some(a) => constructor_pairs(args, upto - 1).push((kebab_case(a), a)),
            None => constructor_pairs(args, upto - 1),
        }
    }
}

/// The views of pairs of texts.
pub open spec fn pair_texts(v: Seq<(String, String)>) -> Seq<(Seq<char>, Seq<char>)> {
    Seq::new(v.len(), |i: int| (v[i].0@, v[i].1@))
}

/// The views of the pairs that a filled-in body is built from, where a
/// body was filled in.
pub open spec fn opt_pair_texts(o: Option<Vec<(String, String)>>) -> Option<
    Seq<(Seq<char>, Seq<char>)>,
> {
    match o {
        Some(v) => Some(pair_texts(v@)),
        None => None,
    }
}

/// What the generated body of a constructor is built from: nothing for a
/// constructor that has statements of its own, the pairs of its arguments
/// for one that has none.
pub open spec fn generated_body(m: MethodView) -> Option<Seq<(Seq<char>, Seq<char>)>> {
    if m.has_body {
        None
    } else {
        Some(constructor_pairs(m.args, m.args.len() as int))
    }
}

/// Fills in the body of a constructor. One that has statements is left
/// unchanged, and nothing is handed out. One without statements is marked
/// `#[inline]` and gets a body that constructs the object from one pair of
/// property name and argument per argument that is a plain identifier, in
/// the order of the signature; those pairs are handed out.
pub fn fill_in_constructor(method: &mut Method) -> (out: Option<Vec<(String, String)>>)
    ensures
        final(method)@ == filled_in(old(method)@),
        opt_pair_texts(out) == generated_body(old(method)@),
{
    if method.has_body {
        return None;
    }
    let pairs = constructor_arguments(method);
    method.inline = true;
    method.has_body = true;
    Some(pairs)
}

/// The pairs of property name and argument that a constructor's arguments
/// give: the identifier's kebab-case spelling and the identifier, for each
/// argument that is a plain identifier.
pub fn constructor_arguments(method: &Method) -> (out: Vec<(String, String)>)
    ensures
        pair_texts(out@) == constructor_pairs(method@.args, method@.args.len() as int),
{
    let mut out: Vec<(String, String)> = Vec::new();
    let mut i: usize = 0;
    assert(pair_texts(out@) =~= constructor_pairs(method@.args, 0));
    while i < method.args.len()
        invariant
            i <= method.args@.len(),
            pair_texts(out@) == constructor_pairs(method@.args, i as int),
        decreases method.args@.len() - i,
    {
        let ghost before = pair_texts(out@);
        match &method.args[i] {
            Some(a) => {
                out.push((to_kebab(a.as_str()), a.clone()));
                assert(pair_texts(out@) =~= before.push((kebab_case(a@), a@)));
            },
            None => {},
        }
        assert(method@.args[i as int] == text_of(method.args@[i as int]));
        i += 1;
    }
    out
}

} // verus!
