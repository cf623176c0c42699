//! Decimal rendering of unsigned integers, verified against a sequence-level
//! definition of a number's digit string.

use vstd::prelude::*;
use vstd::string::StringExecFns;

verus! {

/// The character for a single decimal digit.
pub open spec fn digit_char(d: nat) -> char {
    if d == 0 {
        '0'
    } else if d == 1 {
        '1'
    } else if d == 2 {
        '2'
    } else if d == 3 {
        '3'
    } else if d == 4 {
        '4'
    } else if d == 5 {
        '5'
    } else if d == 6 {
        '6'
    } else if d == 7 {
        '7'
    } else if d == 8 {
        '8'
    } else {
        '9'
    }
}

/// The decimal digit string of `n`, most significant digit first, with no
/// leading zeroes (`0` itself is the single character `'0'`).
pub open spec fn dec_digits(n: nat) -> Seq<char>
    decreases n,
{
    if n < 10 {
        seq![digit_char(n)]
    } else {
        dec_digits(n / 10) + seq![digit_char(n % 10)]
    }
}

/// Every character of a decimal digit string is one of `'0'` ..= `'9'`.
pub proof fn lemma_dec_digits_are_digits(n: nat)
    ensures
        forall|i: int|
            0 <= i < dec_digits(n).len() ==> '0' <= #[trigger] dec_digits(n)[i] <= '9',
    decreases n,
{
    if n < 10 {
        assert(dec_digits(n)[0] == digit_char(n));
    } else {
        lemma_dec_digits_are_digits(n / 10);
        assert forall|i: int| 0 <= i < dec_digits(n).len() implies '0' <= #[trigger] dec_digits(
            n,
        )[i] <= '9' by {
            if i < dec_digits(n / 10).len() {
                assert(dec_digits(n)[i] == dec_digits(n / 10)[i]);
            } else {
                assert(dec_digits(n)[i] == digit_char(n % 10));
            }
        }
    }
}

/// A decimal digit string is never empty.
pub proof fn lemma_dec_digits_nonempty(n: nat)
    ensures
        dec_digits(n).len() >= 1,
    decreases n,
{
    if n >= 10 {
        lemma_dec_digits_nonempty(n / 10);
    }
}

/// Distinct numbers have distinct digit strings.
pub proof fn lemma_dec_digits_injective(a: nat, b: nat)
    requires
        dec_digits(a) == dec_digits(b),
    ensures
        a == b,
    decreases a,
{
    let da = dec_digits(a);
    let db = dec_digits(b);
    lemma_dec_digits_nonempty(a / 10);
    lemma_dec_digits_nonempty(b / 10);
    if a < 10 && b < 10 {
        assert(da[0] == digit_char(a) && db[0] == digit_char(b));
    } else if a < 10 && b >= 10 {
        assert(da.len() == 1 && db.len() >= 2);
    } else if a >= 10 && b < 10 {
        assert(da.len() >= 2 && db.len() == 1);
    } else {
        assert(da.last() == digit_char(a % 10) && db.last() == digit_char(b % 10));
        assert(a % 10 == b % 10);
        assert(da.drop_last() =~= dec_digits(a / 10));
        assert(db.drop_last() =~= dec_digits(b / 10));
        lemma_dec_digits_injective(a / 10, b / 10);
        assert(a == 10 * (a / 10) + a % 10);
        assert(b == 10 * (b / 10) + b % 10);
    }
}

/// The single-character string for one decimal digit.
fn digit_str(d: u64) -> (s: &'static str)
    requires
        d < 10,
    ensures
        s@ =~= seq![digit_char(d as nat)],
{
    proof {
        reveal_strlit("0");
        reveal_strlit("1");
        reveal_strlit("2");
        reveal_strlit("3");
        reveal_strlit("4");
        reveal_strlit("5");
        reveal_strlit("6");
        reveal_strlit("7");
        reveal_strlit("8");
        reveal_strlit("9");
    }
    if d == 0 {
        "0"
    } else if d == 1 {
        "1"
    } else if d == 2 {
        "2"
    } else if d == 3 {
        "3"
    } else if d == 4 {
        "4"
    } else if d == 5 {
        "5"
    } else if d == 6 {
        "6"
    } else if d == 7 {
        "7"
    } else if d == 8 {
        "8"
    } else {
        "9"
    }
}

/// Append the decimal digit string of `n` to `out`.
pub fn push_dec(n: u64, out: &mut String)
    ensures
        final(out)@ == old(out)@ + dec_digits(n as nat),
    decreases n,
{
    if n >= 10 {
        push_dec(n / 10, out);
    }
    let d = digit_str(n % 10);
    out.append(d);
    proof {
        if n >= 10 {
            assert((n / 10) as nat == (n as nat) / 10);
            assert((n % 10) as nat == (n as nat) % 10);
            assert(old(out)@ + dec_digits((n as nat) / 10) + seq![digit_char((n as nat) % 10)]
                =~= old(out)@ + dec_digits(n as nat));
        } else {
            assert(old(out)@ + seq![digit_char(n as nat)] =~= old(out)@ + dec_digits(n as nat));
        }
    }
}

/// The decimal digit string of `n`, as an owned string.
pub fn u64_to_dec(n: u64) -> (s: String)
    ensures
        s@ == dec_digits(n as nat),
{
    let mut s = String::new();
    push_dec(n, &mut s);
    proof {
        assert(Seq::<char>::empty() + dec_digits(n as nat) =~= dec_digits(n as nat));
    }
    s
}

} // verus!
