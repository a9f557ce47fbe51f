//! Rules for member names and the derived spellings of identifiers.

use vstd::prelude::*;
use vstd::string::*;

verus! {

/// An ASCII letter.
pub open spec fn is_name_start(c: char) -> bool {
    ('a' <= c && c <= 'z') || ('A' <= c && c <= 'Z')
}

/// A character that may follow the first one in a member name.
pub open spec fn is_name_char(c: char) -> bool {
    is_name_start(c) || ('0' <= c && c <= '9') || c == '-' || c == '_'
}

/// A member name is non-empty, starts with an ASCII letter and continues
/// with ASCII letters, digits, `-` or `_`.
pub open spec fn valid_name(s: Seq<char>) -> bool {
    &&& s.len() > 0
    &&& is_name_start(s[0])
    &&& forall|i: int| 1 <= i < s.len() ==> is_name_char(#[trigger] s[i])
}

fn name_start(c: char) -> (b: bool)
    ensures
        b == is_name_start(c),
{
    (c >= 'a' && c <= 'z') || (c >= 'A' && c <= 'Z')
}

fn name_char(c: char) -> (b: bool)
    ensures
        b == is_name_char(c),
{
    name_start(c) || (c >= '0' && c <= '9') || c == '-' || c == '_'
}

/// Decides whether `name` can be used as the name of a property or signal.
pub fn is_valid_name(name: &str) -> (ok: bool)
    ensures
        ok == valid_name(name@),
{
    let n: usize = name.unicode_len();
    if n == 0 {
        return false;
    }
    if !name_start(name.get_char(0)) {
        return false;
    }
    let mut i: usize = 1;
    while i < n
        invariant
            1 <= i <= n,
            n == name@.len(),
            forall|j: int| 1 <= j < i ==> is_name_char(#[trigger] name@[j]),
        decreases n - i,
    {
        if !name_char(name.get_char(i)) {
            return false;
        }
        i += 1;
    }
    true
}

/// Compares two texts character by character.
pub fn same_text(a: &str, b: &str) -> (eq: bool)
    ensures
        eq == (a@ == b@),
{
    let n: usize = a.unicode_len();
    if n != b.unicode_len() {
        return false;
    }
    let mut i: usize = 0;
    while i < n
        invariant
            i <= n,
            n == a@.len(),
            n == b@.len(),
            forall|j: int| 0 <= j < i ==> a@[j] == b@[j],
        decreases n - i,
    {
        if a.get_char(i) != b.get_char(i) {
            return false;
        }
        i += 1;
    }
    assert(a@ =~= b@);
    true
}

/// The number of `_` characters at the start of `s`.
pub open spec fn leading_underscores(s: Seq<char>) -> nat
    decreases s.len(),
{
    if s.len() > 0 && s[0] == '_' {
        1 + leading_underscores(s.subrange(1, s.len() as int))
    } else {
        0
    }
}

/// `s` without the `_` characters at its start.
pub open spec fn without_leading_underscores(s: Seq<char>) -> Seq<char> {
    s.subrange(leading_underscores(s) as int, s.len() as int)
}

/// The count of leading underscores is the first position that holds
/// another character, or the length where there is none.
pub proof fn lemma_leading_underscores(s: Seq<char>, k: int)
    requires
        0 <= k <= s.len(),
        forall|j: int| 0 <= j < k ==> s[j] == '_',
        k == s.len() || s[k] != '_',
    ensures
        leading_underscores(s) == k,
    decreases k,
{
    if k > 0 {
        let t = s.subrange(1, s.len() as int);
        assert forall|j: int| 0 <= j < k - 1 implies t[j] == '_' by {
            assert(t[j] == s[j + 1]);
        }
        lemma_leading_underscores(t, k - 1);
    }
}

/// The kebab-case spelling that `heck` gives a text.
pub uninterp spec fn kebab_case(s: Seq<char>) -> Seq<char>;

/// The upper-camel-case spelling that `heck` gives a text.
pub uninterp spec fn upper_camel_case(s: Seq<char>) -> Seq<char>;

/// Calls `heck::ToKebabCase::to_kebab_case` on `s`. The result depends on
/// the characters of `s` alone; it is named, not described.
#[verifier::external_body]
pub(crate) fn to_kebab(s: &str) -> (out: String)
    ensures
        out@ == kebab_case(s@),
{
    heck::ToKebabCase::to_kebab_case(s)
}

/// Calls `heck::ToUpperCamelCase::to_upper_camel_case` on `s`. The result
/// depends on the characters of `s` alone; it is named, not described.
#[verifier::external_body]
pub(crate) fn to_upper_camel(s: &str) -> (out: String)
    ensures
        out@ == upper_camel_case(s@),
{
    heck::ToUpperCamelCase::to_upper_camel_case(s)
}

/// The registered spelling of a member written as the identifier `s`: its
/// leading underscores dropped, the rest in kebab case.
pub open spec fn formatted_name(s: Seq<char>) -> Seq<char> {
    kebab_case(without_leading_underscores(s))
}

/// Turns an identifier into the name under which a member is registered.
pub fn format_name(ident: &str) -> (out: String)
    ensures
        out@ == formatted_name(ident@),
{
    let n: usize = ident.unicode_len();
    let mut k: usize = 0;
    while k < n && ident.get_char(k) == '_'
        invariant
            k <= n,
            n == ident@.len(),
            forall|j: int| 0 <= j < k ==> ident@[j] == '_',
        decreases n - k,
    {
        k += 1;
    }
    proof {
        lemma_leading_underscores(ident@, k as int);
    }
    to_kebab(ident.substring_char(k, n))
}

} // verus!
