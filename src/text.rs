//! Text helpers: template substitution and decimal numbers.

use vstd::prelude::*;

verus! {

/// `template` with every `{}`, read left to right, replaced by `inner`.
pub open spec fn subst(template: Seq<char>, inner: Seq<char>) -> Seq<char>
    decreases template.len(),
{
    if template.len() < 2 {
        template
    } else if template[0] == '{' && template[1] == '}' {
        inner + subst(template.subrange(2, template.len() as int), inner)
    } else {
        seq![template[0]] + subst(template.drop_first(), inner)
    }
}

/// The decimal digits of `n`, without leading zeros.
pub open spec fn dec(n: nat) -> Seq<char>
    decreases n,
{
    if n < 10 {
        "0123456789"@.subrange(n as int, n + 1int)
    } else {
        dec(n / 10) + "0123456789"@.subrange((n % 10) as int, (n % 10) + 1int)
    }
}

/// Replaces every `{}` of `template`, read left to right, by `inner`.
pub fn substitute(template: &str, inner: &str) -> (r: String)
    ensures
        r@ == subst(template@, inner@),
{
    let n = template.unicode_len();
    let mut out = String::new();
    let mut i: usize = 0;
    assert(template@.subrange(0, n as int) =~= template@);
    assert(out@ + subst(template@, inner@) =~= subst(template@, inner@));
    while i < n
        invariant
            n == template@.len(),
            i <= n,
            out@ + subst(template@.subrange(i as int, n as int), inner@) == subst(template@, inner@),
        decreases n - i,
    {
        let rest = Ghost(template@.subrange(i as int, n as int));
        if i + 1 < n && template.get_char(i) == '{' && template.get_char(i + 1) == '}' {
            assert(rest@.subrange(2, rest@.len() as int) =~= template@.subrange(i + 2, n as int));
            proof {
                vstd::seq_lib::lemma_concat_associative(out@, inner@, subst(template@.subrange(i + 2, n as int), inner@));
            }
            out.append(inner);
            i += 2;
        } else {
            let piece = template.substring_char(i, i + 1);
            assert(piece@ =~= seq![rest@[0]]);
            assert(rest@.drop_first() =~= template@.subrange(i + 1, n as int));
            proof {
                vstd::seq_lib::lemma_concat_associative(out@, piece@, subst(template@.subrange(i + 1, n as int), inner@));
            }
            out.append(piece);
            i += 1;
        }
    }
    assert(template@.subrange(n as int, n as int).len() == 0);
    assert(out@ + Seq::<char>::empty() =~= out@);
    out
}

/// Appends the decimal digits of `n` to `out`.
pub fn write_dec(out: &mut String, n: u128)
    ensures
        final(out)@ == old(out)@ + dec(n as nat),
    decreases n,
{
    proof {
        reveal_strlit("0123456789");
    }
    let d = (n % 10) as usize;
    if n >= 10 {
        write_dec(out, n / 10);
    }
    let digit = "0123456789".substring_char(d, d + 1);
    proof {
        vstd::seq_lib::lemma_concat_associative(old(out)@, dec((n / 10) as nat), digit@);
    }
    out.append(digit);
}

} // verus!
