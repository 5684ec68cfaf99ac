//! Verified decimal formatting: frame indices become zero-padded file names
//! and numeric command-line arguments, with no formatting machinery taken on
//! trust.

use vstd::prelude::*;
use vstd::string::StringExecFns;

verus! {

/// The character of one decimal digit.
pub open spec fn spec_digit_char(d: int) -> char {
    if d == 0 {
        '0'
    } else if d == 1 {
        '1'
    } else if d == 2 {
        '2'
    } else if d == 3 {
        '3'
    } else if d == 4 {
        '4'
    } else if d == 5 {
        '5'
    } else if d == 6 {
        '6'
    } else if d == 7 {
        '7'
    } else if d == 8 {
        '8'
    } else {
        '9'
    }
}

/// The decimal digits of `n`, most significant first, without leading
/// zeros (the single digit `0` for zero).
pub open spec fn spec_decimal(n: int) -> Seq<char>
    recommends
        n >= 0,
    decreases n,
{
    if n <= 9 {
        seq![spec_digit_char(n)]
    } else {
        spec_decimal(n / 10).push(spec_digit_char(n % 10))
    }
}

/// `k` zero characters.
pub open spec fn spec_zeros(k: nat) -> Seq<char> {
    Seq::new(k, |i: int| '0')
}

/// The decimal digits of `n`, left-padded with zeros to at least six
/// characters.
pub open spec fn spec_zero_padded6(n: int) -> Seq<char> {
    if spec_decimal(n).len() >= 6 {
        spec_decimal(n)
    } else {
        spec_zeros((6 - spec_decimal(n).len()) as nat) + spec_decimal(n)
    }
}

/// How many digits a number has, by magnitude.
pub proof fn lemma_decimal_len(n: int)
    requires
        0 <= n,
    ensures
        spec_decimal(n).len() >= 1,
        n <= 9 ==> spec_decimal(n).len() == 1,
        10 <= n <= 99 ==> spec_decimal(n).len() == 2,
        100 <= n <= 999 ==> spec_decimal(n).len() == 3,
        1000 <= n <= 9999 ==> spec_decimal(n).len() == 4,
        10000 <= n <= 99999 ==> spec_decimal(n).len() == 5,
        100000 <= n ==> spec_decimal(n).len() >= 6,
    decreases n,
{
    if n > 9 {
        lemma_decimal_len(n / 10);
    }
}

/// One digit as a string slice.
fn digit_str(d: u32) -> (r: &'static str)
    requires
        d <= 9,
    ensures
        r@ == seq![spec_digit_char(d as int)],
{
    let r: &'static str = if d == 0 {
        "0"
    } else if d == 1 {
        "1"
    } else if d == 2 {
        "2"
    } else if d == 3 {
        "3"
    } else if d == 4 {
        "4"
    } else if d == 5 {
        "5"
    } else if d == 6 {
        "6"
    } else if d == 7 {
        "7"
    } else if d == 8 {
        "8"
    } else {
        "9"
    };
    proof {
        reveal_strlit("0");
        reveal_strlit("1");
        reveal_strlit("2");
        reveal_strlit("3");
        reveal_strlit("4");
        reveal_strlit("5");
        reveal_strlit("6");
        reveal_strlit("7");
        reveal_strlit("8");
        reveal_strlit("9");
        assert(r@ =~= seq![spec_digit_char(d as int)]);
    }
    r
}

/// Formats `n` in decimal.
pub fn u32_to_decimal(n: u32) -> (r: String)
    ensures
        r@ == spec_decimal(n as int),
    decreases n,
{
    if n <= 9 {
        let s: String = digit_str(n).to_owned();
        s
    } else {
        let mut s = u32_to_decimal(n / 10);
        s.append(digit_str(n % 10));
        proof {
            assert(s@ =~= spec_decimal(n as int));
        }
        s
    }
}

/// Formats `n` in decimal, left-padded with zeros to at least six digits.
pub fn u32_to_zero_padded6(n: u32) -> (r: String)
    ensures
        r@ == spec_zero_padded6(n as int),
{
    proof {
        lemma_decimal_len(n as int);
        reveal_strlit("00000");
        reveal_strlit("0000");
        reveal_strlit("000");
        reveal_strlit("00");
        reveal_strlit("0");
    }
    let mut s = String::new();
    if n <= 9 {
        s.append("00000");
        proof {
            assert(s@ =~= spec_zeros((6 - spec_decimal(n as int).len()) as nat));
        }
    } else if n <= 99 {
        s.append("0000");
        proof {
            assert(s@ =~= spec_zeros((6 - spec_decimal(n as int).len()) as nat));
        }
    } else if n <= 999 {
        s.append("000");
        proof {
            assert(s@ =~= spec_zeros((6 - spec_decimal(n as int).len()) as nat));
        }
    } else if n <= 9999 {
        s.append("00");
        proof {
            assert(s@ =~= spec_zeros((6 - spec_decimal(n as int).len()) as nat));
        }
    } else if n <= 99999 {
        s.append("0");
        proof {
            assert(s@ =~= spec_zeros((6 - spec_decimal(n as int).len()) as nat));
        }
    }
    let d = u32_to_decimal(n);
    s.append(d.as_str());
    proof {
        assert(s@ =~= spec_zero_padded6(n as int));
    }
    s
}

/// A number of at least two digits does not start with a zero digit.
pub proof fn lemma_decimal_head_nonzero(n: int)
    requires
        10 <= n,
    ensures
        spec_decimal(n).len() >= 2,
        spec_decimal(n)[0] != '0',
    decreases n,
{
    lemma_decimal_len(n);
    lemma_decimal_len(n / 10);
    if n <= 99 {
        assert(1 <= n / 10 <= 9);
        assert(spec_decimal(n)[0] == spec_digit_char(n / 10));
    } else {
        lemma_decimal_head_nonzero(n / 10);
        assert(spec_decimal(n)[0] == spec_decimal(n / 10)[0]);
    }
}

/// Distinct digits have distinct characters.
proof fn lemma_digit_char_injective(a: int, b: int)
    requires
        0 <= a <= 9,
        0 <= b <= 9,
        a != b,
    ensures
        spec_digit_char(a) != spec_digit_char(b),
{
}

/// Distinct numbers have distinct decimal digit strings.
pub proof fn lemma_decimal_injective(a: int, b: int)
    requires
        0 <= a,
        0 <= b,
        a != b,
    ensures
        spec_decimal(a) != spec_decimal(b),
    decreases a + b,
{
    lemma_decimal_len(a);
    lemma_decimal_len(b);
    if a <= 9 && b <= 9 {
        lemma_digit_char_injective(a, b);
        assert(spec_decimal(a)[0] != spec_decimal(b)[0]);
    } else if a <= 9 {
        assert(spec_decimal(a).len() != spec_decimal(b).len());
    } else if b <= 9 {
        assert(spec_decimal(a).len() != spec_decimal(b).len());
    } else if a % 10 != b % 10 {
        lemma_digit_char_injective(a % 10, b % 10);
        if spec_decimal(a) == spec_decimal(b) {
            assert(spec_decimal(a).last() == spec_digit_char(a % 10));
            assert(spec_decimal(b).last() == spec_digit_char(b % 10));
            assert(false);
        }
    } else {
        vstd::arithmetic::div_mod::lemma_fundamental_div_mod(a, 10);
        vstd::arithmetic::div_mod::lemma_fundamental_div_mod(b, 10);
        assert(a / 10 != b / 10);
        lemma_decimal_injective(a / 10, b / 10);
        if spec_decimal(a) == spec_decimal(b) {
            assert(spec_decimal(a).drop_last() =~= spec_decimal(a / 10));
            assert(spec_decimal(b).drop_last() =~= spec_decimal(b / 10));
            assert(false);
        }
    }
}

/// Distinct numbers have distinct zero-padded digit strings: the padding
/// never makes two indices collide.
pub proof fn lemma_padded6_injective(a: int, b: int)
    requires
        0 <= a,
        0 <= b,
        a != b,
    ensures
        spec_zero_padded6(a) != spec_zero_padded6(b),
{
    lemma_decimal_len(a);
    lemma_decimal_len(b);
    lemma_decimal_injective(a, b);
    let da = spec_decimal(a);
    let db = spec_decimal(b);
    let pa = spec_zero_padded6(a);
    let pb = spec_zero_padded6(b);
    if da.len() == db.len() {
        if pa == pb {
            if da.len() >= 6 {
                assert(false);
            } else {
                let k = 6 - da.len();
                assert forall|i: int| 0 <= i < da.len() implies da[i] == db[i] by {
                    assert(pa[k + i] == da[i]);
                    assert(pb[k + i] == db[i]);
                }
                assert(da =~= db);
                assert(false);
            }
        }
    } else {
        let (sm, lg, dsm, dlg) = if da.len() < db.len() {
            (a, b, da, db)
        } else {
            (b, a, db, da)
        };
        let psm = spec_zero_padded6(sm);
        let plg = spec_zero_padded6(lg);
        if psm == plg {
            assert(psm.len() == plg.len());
            if dlg.len() > 6 {
                assert(psm.len() <= 6 < dlg.len() && plg.len() == dlg.len());
                assert(false);
            } else {
                // Both padded strings have six characters. Where the longer
                // number's digits start, the shorter one still has a pad
                // zero, but a multi-digit number never starts with one.
                let p = 6 - dlg.len();
                assert(10 <= lg) by {
                    lemma_decimal_len(lg);
                    if lg <= 9 {
                        assert(dlg.len() == 1);
                        assert(dsm.len() < 1);
                        assert(false);
                    }
                }
                lemma_decimal_head_nonzero(lg);
                assert(plg[p] == dlg[0]);
                assert(psm[p] == '0') by {
                    assert(p < 6 - dsm.len());
                }
                assert(false);
            }
        }
    }
}

} // verus!
