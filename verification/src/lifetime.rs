//! The lifetime resolver: finding a synthetic lifetime that collides with no
//! lifetime the source declaration already declares.
//!
//! The reference-taking conversion needs one lifetime parameter for the
//! borrowed source value.  Candidates are a fixed base name with a decimal
//! suffix, probed from 1 upward; the first candidate that no declared
//! lifetime parameter uses is taken.  The probe is a pure function of the
//! declared parameter list, so the choice cannot collide however the source
//! was parameterized — including a source whose own lifetimes follow the
//! synthetic naming convention.

use vstd::prelude::*;

use vstd::relations::injective_on;
use vstd::set_lib::{lemma_int_range, lemma_len_subset, lemma_map_size, set_int_range};

use crate::ast::GenericParam;

verus! {

/// The character for one decimal digit.
pub open spec fn digit_char(d: nat) -> char {
    if d == 0 {
        '0'
    } else if d == 1 {
        '1'
    } else if d == 2 {
        '2'
    } else if d == 3 {
        '3'
    } else if d == 4 {
        '4'
    } else if d == 5 {
        '5'
    } else if d == 6 {
        '6'
    } else if d == 7 {
        '7'
    } else if d == 8 {
        '8'
    } else {
        '9'
    }
}

/// The decimal digits of `n`, most significant first.
pub open spec fn dec_digits(n: nat) -> Seq<char>
    decreases n,
{
    if n < 10 {
        seq![digit_char(n)]
    } else {
        dec_digits(n / 10).push(digit_char(n % 10))
    }
}

/// The `n`-th candidate name for the synthetic lifetime (without the
/// leading apostrophe).
pub open spec fn lt_candidate(n: nat) -> Seq<char> {
    "__enum_kinds"@ + dec_digits(n)
}

/// Distinct digits render as distinct characters.
proof fn lemma_digit_char_injective(a: nat, b: nat)
    requires
        a < 10,
        b < 10,
        digit_char(a) == digit_char(b),
    ensures
        a == b,
{
}

/// A decimal rendering is never empty.
proof fn lemma_dec_digits_len(n: nat)
    ensures
        dec_digits(n).len() >= 1,
    decreases n,
{
    if n >= 10 {
        lemma_dec_digits_len(n / 10);
    }
}

/// Distinct numbers render as distinct digit strings.
proof fn lemma_dec_digits_injective(a: nat, b: nat)
    requires
        dec_digits(a) == dec_digits(b),
    ensures
        a == b,
    decreases a + b,
{
    lemma_dec_digits_len(a);
    lemma_dec_digits_len(b);
    if a < 10 && b < 10 {
        assert(dec_digits(a)[0] == digit_char(a));
        assert(dec_digits(b)[0] == digit_char(b));
        lemma_digit_char_injective(a, b);
    } else if a < 10 {
        lemma_dec_digits_len(b / 10);
        assert(dec_digits(b).len() >= 2);
    } else if b < 10 {
        lemma_dec_digits_len(a / 10);
        assert(dec_digits(a).len() >= 2);
    } else {
        assert(dec_digits(a).last() == digit_char(a % 10));
        assert(dec_digits(b).last() == digit_char(b % 10));
        lemma_digit_char_injective(a % 10, b % 10);
        assert(dec_digits(a).drop_last() =~= dec_digits(a / 10));
        assert(dec_digits(b).drop_last() =~= dec_digits(b / 10));
        lemma_dec_digits_injective(a / 10, b / 10);
    }
}

/// Distinct probe counters give distinct candidate names.
proof fn lemma_lt_candidate_injective(a: nat, b: nat)
    requires
        lt_candidate(a) == lt_candidate(b),
    ensures
        a == b,
{
    let p = "__enum_kinds"@;
    assert(dec_digits(a) =~= (p + dec_digits(a)).skip(p.len() as int));
    assert(dec_digits(b) =~= (p + dec_digits(b)).skip(p.len() as int));
    lemma_dec_digits_injective(a, b);
}

/// Whether `p` declares a lifetime parameter with the given name.
pub open spec fn param_is_lifetime_named(p: GenericParam, s: Seq<char>) -> bool {
    p matches GenericParam::Lifetime { name, .. } && name@ == s
}

/// Whether some declared parameter is a lifetime with the given name.
pub open spec fn lifetime_used(params: Seq<GenericParam>, s: Seq<char>) -> bool {
    exists|j: int| 0 <= j < params.len() && param_is_lifetime_named(#[trigger] params[j], s)
}

/// The name `s` is the first probe candidate that no declared lifetime
/// parameter uses.
pub open spec fn fresh_for(params: Seq<GenericParam>, s: Seq<char>) -> bool {
    exists|n: nat|
        {
            &&& 1 <= n
            &&& s == #[trigger] lt_candidate(n)
            &&& !lifetime_used(params, lt_candidate(n))
            &&& forall|m: nat| 1 <= m < n ==> lifetime_used(params, #[trigger] lt_candidate(m))
        }
}

/// When every candidate below `c` collides with a declared lifetime, there
/// are at least `c - 1` declared parameters: each candidate needs its own,
/// since a parameter has one name and candidates never repeat.
proof fn lemma_candidates_bounded(params: Seq<GenericParam>, c: nat)
    requires
        forall|m: nat| 1 <= m < c ==> lifetime_used(params, #[trigger] lt_candidate(m)),
    ensures
        c <= params.len() + 1,
{
    if c > params.len() + 1 {
        let probes = set_int_range(1, c as int);
        lemma_int_range(1, c as int);
        let holder = |m: int|
            choose|j: int|
                0 <= j < params.len() && param_is_lifetime_named(
                    params[j],
                    lt_candidate(m as nat),
                );
        assert forall|m: int| probes.contains(m) implies 0 <= holder(m) < params.len()
            && param_is_lifetime_named(params[holder(m)], lt_candidate(m as nat)) by {
            assert(lifetime_used(params, lt_candidate(m as nat)));
        }
        assert(injective_on(holder, probes)) by {
            assert forall|m1: int, m2: int|
                probes.contains(m1) && probes.contains(m2) && #[trigger] holder(m1)
                    == #[trigger] holder(m2) implies m1 == m2 by {
                let j = holder(m1);
                assert(param_is_lifetime_named(params[j], lt_candidate(m1 as nat)));
                assert(param_is_lifetime_named(params[j], lt_candidate(m2 as nat)));
                lemma_lt_candidate_injective(m1 as nat, m2 as nat);
            }
        }
        let holders = probes.map(holder);
        lemma_map_size(probes, holders, holder);
        assert(holders.subset_of(set_int_range(0, params.len() as int)));
        lemma_int_range(0, params.len() as int);
        lemma_len_subset(holders, set_int_range(0, params.len() as int));
    }
}

/// Appends one decimal digit character.
fn push_digit(s: &mut String, d: usize)
    requires
        d < 10,
    ensures
        final(s)@ == old(s)@.push(digit_char(d as nat)),
{
    match d {
        0 => {
            proof {
                reveal_strlit("0");
            }
            s.append("0");
        },
        1 => {
            proof {
                reveal_strlit("1");
            }
            s.append("1");
        },
        2 => {
            proof {
                reveal_strlit("2");
            }
            s.append("2");
        },
        3 => {
            proof {
                reveal_strlit("3");
            }
            s.append("3");
        },
        4 => {
            proof {
                reveal_strlit("4");
            }
            s.append("4");
        },
        5 => {
            proof {
                reveal_strlit("5");
            }
            s.append("5");
        },
        6 => {
            proof {
                reveal_strlit("6");
            }
            s.append("6");
        },
        7 => {
            proof {
                reveal_strlit("7");
            }
            s.append("7");
        },
        8 => {
            proof {
                reveal_strlit("8");
            }
            s.append("8");
        },
        _ => {
            proof {
                reveal_strlit("9");
            }
            s.append("9");
        },
    }
    proof {
        assert(final(s)@ =~= old(s)@.push(digit_char(d as nat)));
    }
}

/// Appends the decimal rendering of `n`.
fn push_dec_digits(s: &mut String, n: usize)
    ensures
        final(s)@ == old(s)@ + dec_digits(n as nat),
    decreases n,
{
    if n < 10 {
        push_digit(s, n);
        proof {
            assert(final(s)@ =~= old(s)@ + dec_digits(n as nat));
        }
    } else {
        push_dec_digits(s, n / 10);
        push_digit(s, n % 10);
        proof {
            assert(final(s)@ =~= old(s)@ + dec_digits(n as nat));
        }
    }
}

/// Renders the `n`-th synthetic-lifetime candidate name.
fn lt_candidate_exec(n: usize) -> (r: String)
    ensures
        r@ == lt_candidate(n as nat),
{
    proof {
        reveal_strlit("__enum_kinds");
    }
    let mut s = String::from_str("__enum_kinds");
    push_dec_digits(&mut s, n);
    s
}

/// Whether some declared parameter is a lifetime with the given name.
fn lifetime_is_used(params: &Vec<GenericParam>, name: &String) -> (r: bool)
    ensures
        r == lifetime_used(params@, name@),
{
    let mut j: usize = 0;
    while j < params.len()
        invariant
            j <= params.len(),
            forall|k: int| 0 <= k < j ==> !param_is_lifetime_named(#[trigger] params@[k], name@),
        decreases params.len() - j,
    {
        match &params[j] {
            GenericParam::Lifetime { name: n, .. } => {
                if n.eq(name) {
                    return true;
                }
            },
            _ => {},
        }
        j = j + 1;
    }
    false
}

/// Finds the first synthetic-lifetime candidate that collides with none of
/// the declared parameters.
///
/// The result is `__enum_kinds` followed by the least decimal suffix, from
/// 1 upward, that no declared lifetime parameter already carries.
pub fn fresh_lifetime(params: &Vec<GenericParam>) -> (r: String)
    requires
        params@.len() < usize::MAX,
    ensures
        fresh_for(params@, r@),
        !lifetime_used(params@, r@),
{
    let mut c: usize = 1;
    let mut cand: String = lt_candidate_exec(1);
    while lifetime_is_used(params, &cand)
        invariant
            1 <= c <= params@.len() + 1,
            params@.len() < usize::MAX,
            cand@ == lt_candidate(c as nat),
            forall|m: nat| 1 <= m < c ==> lifetime_used(params@, #[trigger] lt_candidate(m)),
        decreases params@.len() + 1 - c,
    {
        proof {
            lemma_candidates_bounded(params@, (c + 1) as nat);
        }
        c = c + 1;
        cand = lt_candidate_exec(c);
    }
    proof {
        assert(cand@ == lt_candidate(c as nat));
    }
    cand
}

} // verus!
