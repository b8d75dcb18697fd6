//! Decimal rendering of the counters used in numbered file names.

use vstd::prelude::*;

verus! {

/// The character for one decimal digit.
pub open spec fn digit_char(d: int) -> char {
    if d == 0 {
        '0'
    } else if d == 1 {
        '1'
    } else if d == 2 {
        '2'
    } else if d == 3 {
        '3'
    } else if d == 4 {
        '4'
    } else if d == 5 {
        '5'
    } else if d == 6 {
        '6'
    } else if d == 7 {
        '7'
    } else if d == 8 {
        '8'
    } else {
        '9'
    }
}

/// The usual decimal rendering of a number: most significant digit first,
/// no leading zeroes, `0` rendered as `"0"`.
pub open spec fn dec_spec(n: nat) -> Seq<char>
    decreases n,
{
    if n < 10 {
        seq![digit_char(n as int)]
    } else {
        dec_spec(n / 10) + seq![digit_char((n % 10) as int)]
    }
}

/// A decimal rendering is never empty, and has two or more characters
/// exactly for numbers of two or more digits.
pub proof fn lemma_dec_len(n: nat)
    ensures
        dec_spec(n).len() >= 1,
        n >= 10 ==> dec_spec(n).len() >= 2,
    decreases n,
{
    if n >= 10 {
        lemma_dec_len(n / 10);
    }
}

proof fn lemma_digit_char_injective(d1: int, d2: int)
    requires
        0 <= d1 < 10,
        0 <= d2 < 10,
        digit_char(d1) == digit_char(d2),
    ensures
        d1 == d2,
{
}

/// Distinct numbers render to distinct decimal strings.
pub proof fn lemma_dec_injective(n1: nat, n2: nat)
    requires
        dec_spec(n1) == dec_spec(n2),
    ensures
        n1 == n2,
    decreases n1,
{
    lemma_dec_len(n1);
    lemma_dec_len(n2);
    if n1 < 10 && n2 < 10 {
        assert(dec_spec(n1)[0] == digit_char(n1 as int));
        assert(dec_spec(n2)[0] == digit_char(n2 as int));
        lemma_digit_char_injective(n1 as int, n2 as int);
    } else if n1 < 10 || n2 < 10 {
        assert(dec_spec(n1).len() != dec_spec(n2).len());
    } else {
        let a = dec_spec((n1 / 10) as nat);
        let b = dec_spec((n2 / 10) as nat);
        assert(dec_spec(n1).last() == digit_char((n1 % 10) as int));
        assert(dec_spec(n2).last() == digit_char((n2 % 10) as int));
        lemma_digit_char_injective((n1 % 10) as int, (n2 % 10) as int);
        assert(dec_spec(n1).drop_last() =~= a);
        assert(dec_spec(n2).drop_last() =~= b);
        lemma_dec_injective((n1 / 10) as nat, (n2 / 10) as nat);
        vstd::arithmetic::div_mod::lemma_fundamental_div_mod(n1 as int, 10);
        vstd::arithmetic::div_mod::lemma_fundamental_div_mod(n2 as int, 10);
    }
}

/// The digit characters of `ds` read back to front.
spec fn rev_chars(ds: Seq<u64>) -> Seq<char> {
    Seq::new(ds.len(), |i: int| digit_char(ds[ds.len() - 1 - i] as int))
}

/// One digit as a string slice.
fn digit_str(d: u64) -> (s: &'static str)
    requires
        d < 10,
    ensures
        s@ =~= seq![digit_char(d as int)],
{
    let s = if d == 0 {
        "0"
    } else if d == 1 {
        "1"
    } else if d == 2 {
        "2"
    } else if d == 3 {
        "3"
    } else if d == 4 {
        "4"
    } else if d == 5 {
        "5"
    } else if d == 6 {
        "6"
    } else if d == 7 {
        "7"
    } else if d == 8 {
        "8"
    } else {
        "9"
    };
    proof {
        reveal_strlit("0");
        reveal_strlit("1");
        reveal_strlit("2");
        reveal_strlit("3");
        reveal_strlit("4");
        reveal_strlit("5");
        reveal_strlit("6");
        reveal_strlit("7");
        reveal_strlit("8");
        reveal_strlit("9");
    }
    s
}

/// Renders `n` in decimal.
pub fn u64_to_string(n: u64) -> (r: String)
    ensures
        r@ == dec_spec(n as nat),
{
    let mut digits: Vec<u64> = Vec::new();
    let mut m: u64 = n;
    digits.push(m % 10);
    m = m / 10;
    proof {
        assert(rev_chars(digits@) =~= seq![digit_char((n % 10) as int)]);
    }
    while m > 0
        invariant
            forall|i: int| 0 <= i < digits@.len() ==> digits@[i] < 10,
            digits@.len() >= 1,
            dec_spec(n as nat) =~= (if m == 0 {
                Seq::<char>::empty()
            } else {
                dec_spec(m as nat)
            }) + rev_chars(digits@),
        decreases m,
    {
        let ghost old_digits = digits@;
        let ghost old_m = m;
        digits.push(m % 10);
        m = m / 10;
        proof {
            assert(rev_chars(digits@) =~= seq![digit_char((old_m % 10) as int)] + rev_chars(
                old_digits,
            ));
            if old_m >= 10 {
                assert(dec_spec(old_m as nat) == dec_spec((old_m / 10) as nat) + seq![
                    digit_char((old_m % 10) as int),
                ]);
            }
            assert(dec_spec(n as nat) =~= (if m == 0 {
                Seq::<char>::empty()
            } else {
                dec_spec(m as nat)
            }) + rev_chars(digits@));
        }
    }
    let mut out = String::new();
    let mut i: usize = digits.len();
    while i > 0
        invariant
            i <= digits@.len(),
            forall|k: int| 0 <= k < digits@.len() ==> digits@[k] < 10,
            rev_chars(digits@) == dec_spec(n as nat),
            out@ =~= dec_spec(n as nat).take(digits@.len() - i),
        decreases i,
    {
        i = i - 1;
        let s = digit_str(digits[i]);
        out.append(s);
        proof {
            assert(out@ =~= dec_spec(n as nat).take(digits@.len() - i));
        }
    }
    proof {
        assert(out@ =~= dec_spec(n as nat));
    }
    out
}

} // verus!
