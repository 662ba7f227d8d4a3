//! Decimal rendering of counts, used by the report's summary message.

use vstd::prelude::*;

verus! {

/// The character for one decimal digit.
pub open spec fn digit_char(d: nat) -> char {
    if d == 0 {
        '0'
    } else if d == 1 {
        '1'
    } else if d == 2 {
        '2'
    } else if d == 3 {
        '3'
    } else if d == 4 {
        '4'
    } else if d == 5 {
        '5'
    } else if d == 6 {
        '6'
    } else if d == 7 {
        '7'
    } else if d == 8 {
        '8'
    } else {
        '9'
    }
}

/// The decimal rendering of a number, most significant digit first,
/// without leading zeros (a single '0' for zero).
pub open spec fn dec_rep(n: nat) -> Seq<char>
    decreases n,
{
    if n < 10 {
        seq![digit_char(n)]
    } else {
        dec_rep(n / 10) + seq![digit_char(n % 10)]
    }
}

/// The characters of a sequence of digits read back to front: the digits
/// are collected least significant first, the text wants them most
/// significant first.
pub open spec fn digits_chars(ds: Seq<usize>) -> Seq<char>
    decreases ds.len(),
{
    if ds.len() == 0 {
        Seq::empty()
    } else {
        digits_chars(ds.drop_first()) + seq![digit_char(ds[0] as nat)]
    }
}

proof fn lemma_digits_chars_push(ds: Seq<usize>, d: usize)
    ensures
        digits_chars(ds.push(d)) == seq![digit_char(d as nat)] + digits_chars(ds),
    decreases ds.len(),
{
    if ds.len() == 0 {
        assert(ds.push(d).drop_first() =~= Seq::<usize>::empty());
        assert(ds =~= Seq::<usize>::empty());
        assert(digits_chars(Seq::<usize>::empty()) == Seq::<char>::empty());
        assert(ds.push(d)[0] == d);
        assert(digits_chars(ds.push(d)) =~= seq![digit_char(d as nat)] + digits_chars(ds));
    } else {
        assert(ds.push(d).drop_first() =~= ds.drop_first().push(d));
        lemma_digits_chars_push(ds.drop_first(), d);
        assert(digits_chars(ds.push(d)) =~= seq![digit_char(d as nat)] + digits_chars(ds));
    }
}

proof fn lemma_digits_chars_index(ds: Seq<usize>)
    ensures
        digits_chars(ds).len() == ds.len(),
        forall|k: int|
            0 <= k < ds.len() ==> digits_chars(ds)[k] == digit_char(
                ds[ds.len() - 1 - k] as nat,
            ),
    decreases ds.len(),
{
    if ds.len() > 0 {
        lemma_digits_chars_index(ds.drop_first());
    }
}

/// The text for one decimal digit.
fn digit_str(d: usize) -> (r: &'static str)
    requires
        d < 10,
    ensures
        r@ == seq![digit_char(d as nat)],
{
    let r: &'static str = if d == 0 {
        "0"
    } else if d == 1 {
        "1"
    } else if d == 2 {
        "2"
    } else if d == 3 {
        "3"
    } else if d == 4 {
        "4"
    } else if d == 5 {
        "5"
    } else if d == 6 {
        "6"
    } else if d == 7 {
        "7"
    } else if d == 8 {
        "8"
    } else {
        "9"
    };
    proof {
        reveal_strlit("0");
        reveal_strlit("1");
        reveal_strlit("2");
        reveal_strlit("3");
        reveal_strlit("4");
        reveal_strlit("5");
        reveal_strlit("6");
        reveal_strlit("7");
        reveal_strlit("8");
        reveal_strlit("9");
        assert(r@ =~= seq![digit_char(d as nat)]);
    }
    r
}

/// Renders a count in decimal.
pub fn usize_to_string(n: usize) -> (r: String)
    ensures
        r@ == dec_rep(n as nat),
{
    let mut digits: Vec<usize> = Vec::new();
    let mut m: usize = n;
    while m >= 10
        invariant
            dec_rep(n as nat) == dec_rep(m as nat) + digits_chars(digits@),
            forall|k: int| 0 <= k < digits@.len() ==> digits@[k] < 10,
        decreases m,
    {
        let d: usize = m % 10;
        proof {
            lemma_digits_chars_push(digits@, d);
        }
        digits.push(d);
        m = m / 10;
    }
    proof {
        lemma_digits_chars_push(digits@, m);
    }
    digits.push(m);
    assert(dec_rep(n as nat) == digits_chars(digits@));
    proof {
        lemma_digits_chars_index(digits@);
    }
    let ghost all_digits = digits@;
    let mut r = String::new();
    let mut i: usize = digits.len();
    while i > 0
        invariant
            i <= digits.len(),
            digits@ == all_digits,
            forall|k: int| 0 <= k < digits@.len() ==> digits@[k] < 10,
            r@.len() == digits@.len() - i,
            forall|k: int|
                0 <= k < digits@.len() - i ==> r@[k] == digit_char(
                    digits@[digits@.len() - 1 - k] as nat,
                ),
        decreases i,
    {
        i = i - 1;
        let ds = digit_str(digits[i]);
        r.append(ds);
    }
    proof {
        lemma_digits_chars_index(digits@);
        assert(r@ =~= digits_chars(digits@));
    }
    r
}

} // verus!
