//! Decimal rendering of signed 64-bit timestamps.
//!
//! The request signature is computed over the decimal string form of the
//! timestamp, so the library needs an exact, injective specification of
//! that rendering together with an executable implementation.
use vstd::prelude::*;

verus! {

/// The character for a single decimal digit.
pub open spec fn digit_char(d: int) -> char {
    if d == 0 {
        '0'
    } else if d == 1 {
        '1'
    } else if d == 2 {
        '2'
    } else if d == 3 {
        '3'
    } else if d == 4 {
        '4'
    } else if d == 5 {
        '5'
    } else if d == 6 {
        '6'
    } else if d == 7 {
        '7'
    } else if d == 8 {
        '8'
    } else {
        '9'
    }
}

/// Decimal rendering of a natural number: no sign, no separators, no
/// leading zeros (except for the single digit of zero itself).
pub open spec fn dec_nat(n: nat) -> Seq<char>
    decreases n,
{
    if n < 10 {
        seq![digit_char(n as int)]
    } else {
        dec_nat((n / 10) as nat) + seq![digit_char((n % 10) as int)]
    }
}

/// Decimal rendering of a (possibly negative) integer: a leading minus
/// sign for negative values, then the digits of the magnitude.
pub open spec fn dec_int(t: int) -> Seq<char> {
    if t < 0 {
        seq!['-'] + dec_nat((-t) as nat)
    } else {
        dec_nat(t as nat)
    }
}

/// A decimal rendering is never empty, and needs two characters as soon
/// as the value has two digits.
pub proof fn lemma_dec_nat_len(n: nat)
    ensures
        dec_nat(n).len() >= 1,
        n >= 10 ==> dec_nat(n).len() >= 2,
    decreases n,
{
    if n >= 10 {
        lemma_dec_nat_len((n / 10) as nat);
    }
}

/// A decimal rendering starts with a digit, never with a minus sign.
pub proof fn lemma_dec_nat_first(n: nat)
    ensures
        dec_nat(n).len() >= 1,
        dec_nat(n).first() != '-',
    decreases n,
{
    lemma_dec_nat_len(n);
    if n >= 10 {
        lemma_dec_nat_first((n / 10) as nat);
        assert(dec_nat(n).first() == dec_nat((n / 10) as nat).first());
    }
}

/// Distinct natural numbers have distinct decimal renderings.
pub proof fn lemma_dec_nat_injective(a: nat, b: nat)
    requires
        dec_nat(a) == dec_nat(b),
    ensures
        a == b,
    decreases a,
{
    lemma_dec_nat_len(a);
    lemma_dec_nat_len(b);
    if a < 10 && b < 10 {
        assert(dec_nat(a)[0] == digit_char(a as int));
        assert(dec_nat(b)[0] == digit_char(b as int));
        assert(a == b);
    } else if a >= 10 && b >= 10 {
        let pa = dec_nat((a / 10) as nat);
        let pb = dec_nat((b / 10) as nat);
        assert(dec_nat(a) == pa + seq![digit_char((a % 10) as int)]);
        assert(dec_nat(b) == pb + seq![digit_char((b % 10) as int)]);
        assert(pa.len() == pb.len());
        assert(dec_nat(a).last() == digit_char((a % 10) as int));
        assert(dec_nat(b).last() == digit_char((b % 10) as int));
        assert(a % 10 == b % 10);
        assert(pa =~= pb) by {
            assert forall|i: int| 0 <= i < pa.len() implies pa[i] == pb[i] by {
                assert(pa[i] == dec_nat(a)[i]);
                assert(pb[i] == dec_nat(b)[i]);
            }
        }
        assert(a / 10 >= 1);
        lemma_dec_nat_injective((a / 10) as nat, (b / 10) as nat);
        vstd::arithmetic::div_mod::lemma_fundamental_div_mod(a as int, 10);
        vstd::arithmetic::div_mod::lemma_fundamental_div_mod(b as int, 10);
    } else {
        // One rendering has a single character, the other at least two.
        assert(false);
    }
}

/// Distinct integers have distinct decimal renderings: the sign is
/// visible in the first character, and the digits determine the
/// magnitude.
pub proof fn lemma_dec_int_injective(a: int, b: int)
    requires
        dec_int(a) == dec_int(b),
    ensures
        a == b,
{
    if a >= 0 && b >= 0 {
        lemma_dec_nat_injective(a as nat, b as nat);
    } else if a < 0 && b < 0 {
        let ma = dec_nat((-a) as nat);
        let mb = dec_nat((-b) as nat);
        lemma_dec_nat_len((-a) as nat);
        lemma_dec_nat_len((-b) as nat);
        assert(dec_int(a) == seq!['-'] + ma);
        assert(dec_int(b) == seq!['-'] + mb);
        assert((seq!['-'] + ma).len() == 1 + ma.len());
        assert((seq!['-'] + mb).len() == 1 + mb.len());
        assert(ma.len() == mb.len());
        assert(ma =~= mb) by {
            assert forall|i: int| 0 <= i < ma.len() implies ma[i] == mb[i] by {
                assert(ma[i] == dec_int(a)[i + 1]);
                assert(mb[i] == dec_int(b)[i + 1]);
            }
        }
        lemma_dec_nat_injective((-a) as nat, (-b) as nat);
    } else if a >= 0 && b < 0 {
        lemma_dec_nat_first(a as nat);
        assert(dec_int(b).first() == '-');
        assert(false);
    } else {
        lemma_dec_nat_first(b as nat);
        assert(dec_int(a).first() == '-');
        assert(false);
    }
}

fn digit_str(d: u64) -> (r: &'static str)
    requires
        d < 10,
    ensures
        r@ == seq![digit_char(d as int)],
{
    let r = if d == 0 {
        "0"
    } else if d == 1 {
        "1"
    } else if d == 2 {
        "2"
    } else if d == 3 {
        "3"
    } else if d == 4 {
        "4"
    } else if d == 5 {
        "5"
    } else if d == 6 {
        "6"
    } else if d == 7 {
        "7"
    } else if d == 8 {
        "8"
    } else {
        "9"
    };
    proof {
        reveal_strlit("0");
        reveal_strlit("1");
        reveal_strlit("2");
        reveal_strlit("3");
        reveal_strlit("4");
        reveal_strlit("5");
        reveal_strlit("6");
        reveal_strlit("7");
        reveal_strlit("8");
        reveal_strlit("9");
        assert(r@ =~= seq![digit_char(d as int)]);
    }
    r
}

/// Render an unsigned 64-bit value in decimal.
pub fn u64_to_decimal(n: u64) -> (s: String)
    ensures
        s@ == dec_nat(n as nat),
    decreases n,
{
    if n < 10 {
        String::from_str(digit_str(n))
    } else {
        proof {
            assert(n / 10 < n) by (nonlinear_arith)
                requires
                    n >= 10,
            ;
        }
        let mut s = u64_to_decimal(n / 10);
        s.append(digit_str(n % 10));
        s
    }
}

/// Render a signed 64-bit value in decimal, exactly as `dec_int` states.
pub fn i64_to_decimal(t: i64) -> (s: String)
    ensures
        s@ == dec_int(t as int),
{
    if t >= 0 {
        u64_to_decimal(t as u64)
    } else {
        let mag: u64 = if t == i64::MIN {
            9223372036854775808u64
        } else {
            (-t) as u64
        };
        let mut s = String::from_str("-");
        let digits = u64_to_decimal(mag);
        s.append(digits.as_str());
        proof {
            reveal_strlit("-");
            assert(s@ =~= dec_int(t as int));
        }
        s
    }
}

} // verus!
