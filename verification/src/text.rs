//! The analysis sentence and the decimal rendering of a star count.
//!
//! The one piece of business logic in this library is a formatting step:
//! a repository identifier and a star count become the sentence
//! `"<identifier> has <count> stars"`. This module defines that sentence as
//! a sequence of characters and provides a verified renderer for it.

use vstd::arithmetic::div_mod::lemma_fundamental_div_mod;
use vstd::prelude::*;

verus! {

/// The character that renders one decimal digit.
pub open spec fn digit_char(d: nat) -> char {
    if d == 0 {
        '0'
    } else if d == 1 {
        '1'
    } else if d == 2 {
        '2'
    } else if d == 3 {
        '3'
    } else if d == 4 {
        '4'
    } else if d == 5 {
        '5'
    } else if d == 6 {
        '6'
    } else if d == 7 {
        '7'
    } else if d == 8 {
        '8'
    } else {
        '9'
    }
}

/// The decimal rendering of `n`: most significant digit first, no leading
/// zeros, a single `'0'` for zero.
pub open spec fn decimal_digits(n: nat) -> Seq<char>
    decreases n,
{
    if n < 10 {
        seq![digit_char(n)]
    } else {
        decimal_digits(n / 10) + seq![digit_char(n % 10)]
    }
}

/// The sentence produced for a repository identifier and its star count.
pub open spec fn analysis_text(repo: Seq<char>, stars: u32) -> Seq<char> {
    repo + " has "@ + decimal_digits(stars as nat) + " stars"@
}

/// The sentence embeds its parts verbatim: the identifier is its prefix,
/// and the decimal rendering of the count stands unmodified immediately
/// after `" has "`.
pub proof fn lemma_analysis_text_embeds(repo: Seq<char>, stars: u32)
    ensures
        analysis_text(repo, stars).subrange(0, repo.len() as int) == repo,
        analysis_text(repo, stars).subrange(
            repo.len() as int + 5,
            repo.len() as int + 5 + decimal_digits(stars as nat).len() as int,
        ) == decimal_digits(stars as nat),
{
    reveal_strlit(" has ");
    reveal_strlit(" stars");
    assert(" has "@.len() == 5);
    let t = analysis_text(repo, stars);
    let d = decimal_digits(stars as nat);
    assert(t.subrange(0, repo.len() as int) =~= repo);
    assert(t.subrange(repo.len() as int + 5, repo.len() as int + 5 + d.len() as int) =~= d);
}

/// A rendering is never empty, and a number of two or more digits renders
/// to two or more characters.
proof fn lemma_decimal_digits_len(n: nat)
    ensures
        decimal_digits(n).len() >= 1,
        n >= 10 ==> decimal_digits(n).len() >= 2,
    decreases n,
{
    if n >= 10 {
        lemma_decimal_digits_len(n / 10);
    }
}

/// The decimal rendering is injective: two counts that render to the same
/// characters are the same count.
pub proof fn lemma_decimal_digits_injective(a: nat, b: nat)
    requires
        decimal_digits(a) == decimal_digits(b),
    ensures
        a == b,
    decreases a,
{
    if a < 10 && b < 10 {
        assert(decimal_digits(a) == seq![digit_char(a)]);
        assert(decimal_digits(b) == seq![digit_char(b)]);
        assert(decimal_digits(a)[0] == digit_char(a));
        assert(decimal_digits(b)[0] == digit_char(b));
        assert(digit_char(a) == digit_char(b));
    } else if a < 10 {
        lemma_decimal_digits_len(b);
        assert(false);
    } else if b < 10 {
        lemma_decimal_digits_len(a);
        assert(false);
    } else {
        let da = decimal_digits(a / 10);
        let db = decimal_digits(b / 10);
        assert(decimal_digits(a) == da + seq![digit_char(a % 10)]);
        assert(decimal_digits(b) == db + seq![digit_char(b % 10)]);
        assert(da.len() == db.len());
        assert(da =~= db) by {
            assert forall|i: int| 0 <= i < da.len() implies da[i] == db[i] by {
                assert(da[i] == decimal_digits(a)[i]);
                assert(db[i] == decimal_digits(b)[i]);
            }
        };
        lemma_decimal_digits_injective(a / 10, b / 10);
        let last = da.len() as int;
        assert(decimal_digits(a)[last] == digit_char(a % 10));
        assert(decimal_digits(b)[last] == digit_char(b % 10));
        assert(a % 10 == b % 10);
        lemma_fundamental_div_mod(a as int, 10);
        lemma_fundamental_div_mod(b as int, 10);
    }
}

/// With the identifier fixed, the sentence determines the count.
pub proof fn lemma_analysis_text_determines_count(repo: Seq<char>, a: u32, b: u32)
    requires
        analysis_text(repo, a) == analysis_text(repo, b),
    ensures
        a == b,
{
    reveal_strlit(" has ");
    reveal_strlit(" stars");
    let da = decimal_digits(a as nat);
    let db = decimal_digits(b as nat);
    assert(analysis_text(repo, a).len() == repo.len() + 5 + da.len() + 6);
    assert(analysis_text(repo, b).len() == repo.len() + 5 + db.len() + 6);
    lemma_analysis_text_embeds(repo, a);
    lemma_analysis_text_embeds(repo, b);
    lemma_decimal_digits_injective(a as nat, b as nat);
}

/// The one-character string for a decimal digit.
fn digit_str(d: u32) -> (r: &'static str)
    requires
        d < 10,
    ensures
        r@ == seq![digit_char(d as nat)],
{
    proof {
        reveal_strlit("0");
        reveal_strlit("1");
        reveal_strlit("2");
        reveal_strlit("3");
        reveal_strlit("4");
        reveal_strlit("5");
        reveal_strlit("6");
        reveal_strlit("7");
        reveal_strlit("8");
        reveal_strlit("9");
    }
    let r: &'static str = if d == 0 {
        "0"
    } else if d == 1 {
        "1"
    } else if d == 2 {
        "2"
    } else if d == 3 {
        "3"
    } else if d == 4 {
        "4"
    } else if d == 5 {
        "5"
    } else if d == 6 {
        "6"
    } else if d == 7 {
        "7"
    } else if d == 8 {
        "8"
    } else {
        "9"
    };
    proof {
        assert(r@ =~= seq![digit_char(d as nat)]);
    }
    r
}

/// Appends the decimal rendering of `n` to `s`.
pub fn push_decimal(s: &mut String, n: u32)
    ensures
        final(s)@ == old(s)@ + decimal_digits(n as nat),
    decreases n,
{
    if n >= 10 {
        push_decimal(s, n / 10);
        s.append(digit_str(n % 10));
        proof {
            assert(s@ =~= old(s)@ + decimal_digits(n as nat));
        }
    } else {
        s.append(digit_str(n));
        proof {
            assert(s@ =~= old(s)@ + decimal_digits(n as nat));
        }
    }
}

/// Renders the analysis sentence for a repository identifier and a count.
pub fn format_analysis(repo: &str, stars: u32) -> (r: String)
    ensures
        r@ == analysis_text(repo@, stars),
{
    let mut s = repo.to_owned();
    s.append(" has ");
    push_decimal(&mut s, stars);
    s.append(" stars");
    proof {
        assert(s@ =~= analysis_text(repo@, stars));
    }
    s
}

} // verus!
