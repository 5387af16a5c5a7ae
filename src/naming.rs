//! Identifiers derived from method names.

use convert_case::Casing;
use vstd::prelude::*;

verus! {

/// What `convert_case` makes of a string in SCREAMING_SNAKE_CASE.
pub uninterp spec fn screaming_snake_of(s: Seq<char>) -> Seq<char>;

/// What `convert_case` makes of a string in PascalCase.
pub uninterp spec fn pascal_of(s: Seq<char>) -> Seq<char>;

/// Relies on convert_case's `Casing::to_case` with `Case::ScreamingSnake`;
/// its result depends on the characters of `s` alone.
#[verifier::external_body]
pub(crate) fn to_screaming_snake(s: &str) -> (r: String)
    ensures
        r@ == screaming_snake_of(s@),
{
    s.to_case(convert_case::Case::ScreamingSnake)
}

/// Relies on convert_case's `Casing::to_case` with `Case::Pascal`; its
/// result depends on the characters of `s` alone.
#[verifier::external_body]
pub(crate) fn to_pascal(s: &str) -> (r: String)
    ensures
        r@ == pascal_of(s@),
{
    s.to_case(convert_case::Case::Pascal)
}

/// `name` without `prefix` where it starts with it, else `name` itself.
pub open spec fn without_prefix(name: Seq<char>, prefix: Seq<char>) -> Seq<char> {
    if prefix.is_prefix_of(name) {
        name.subrange(prefix.len() as int, name.len() as int)
    } else {
        name
    }
}

/// The base of the identifiers derived from a method name: the name with
/// the configured prefix stripped, if it has that prefix.
pub open spec fn ident_base(name: Seq<char>, prefix: Option<String>) -> Seq<char> {
    match prefix {
        Some(p) => without_prefix(name, p@),
        None => name,
    }
}

/// Strips `prefix` from the start of `name`, where `name` starts with it.
pub fn strip_prefix(name: &str, prefix: &str) -> (r: String)
    ensures
        r@ == without_prefix(name@, prefix@),
{
    let n = name.unicode_len();
    let m = prefix.unicode_len();
    if m > n {
        return String::from_str(name);
    }
    let mut j: usize = 0;
    while j < m
        invariant
            m <= n,
            n == name@.len(),
            m == prefix@.len(),
            j <= m,
            forall|k: int| 0 <= k < j ==> prefix@[k] == name@[k],
        decreases m - j,
    {
        if prefix.get_char(j) != name.get_char(j) {
            assert(!(prefix@ =~= name@.subrange(0, m as int)));
            return String::from_str(name);
        }
        j += 1;
    }
    assert(prefix@ =~= name@.subrange(0, m as int));
    String::from_str(name.substring_char(m, n))
}

/// The base of the identifiers derived from the method name `name`.
pub fn method_ident_base(name: &String, prefix: &Option<String>) -> (r: String)
    ensures
        r@ == ident_base(name@, *prefix),
{
    match prefix {
        Some(p) => strip_prefix(name.as_str(), p.as_str()),
        None => name.clone(),
    }
}

} // verus!
