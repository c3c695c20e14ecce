//! Decimal text of integers.

use vstd::prelude::*;

verus! {

/// The ASCII digit for `d` (`d < 10`).
pub open spec fn digit_char(d: nat) -> char {
    if d == 0 {
        '0'
    } else if d == 1 {
        '1'
    } else if d == 2 {
        '2'
    } else if d == 3 {
        '3'
    } else if d == 4 {
        '4'
    } else if d == 5 {
        '5'
    } else if d == 6 {
        '6'
    } else if d == 7 {
        '7'
    } else if d == 8 {
        '8'
    } else {
        '9'
    }
}

/// Decimal digits of `n`, most significant first, without leading zeros.
pub open spec fn digits_spec(n: nat) -> Seq<char>
    decreases n,
{
    if n < 10 {
        seq![digit_char(n)]
    } else {
        digits_spec(n / 10).push(digit_char(n % 10))
    }
}

/// Decimal text of `i`, with a leading `-` when it is negative.
pub open spec fn decimal_spec(i: int) -> Seq<char> {
    if i < 0 {
        seq!['-'] + digits_spec((-i) as nat)
    } else {
        digits_spec(i as nat)
    }
}

fn digit(d: u64) -> (c: char)
    requires
        d < 10,
    ensures
        c == digit_char(d as nat),
{
    if d == 0 {
        '0'
    } else if d == 1 {
        '1'
    } else if d == 2 {
        '2'
    } else if d == 3 {
        '3'
    } else if d == 4 {
        '4'
    } else if d == 5 {
        '5'
    } else if d == 6 {
        '6'
    } else if d == 7 {
        '7'
    } else if d == 8 {
        '8'
    } else {
        '9'
    }
}

fn digits_of(n: u64) -> (r: Vec<char>)
    ensures
        r@ == digits_spec(n as nat),
{
    let mut m: u64 = n;
    let mut out: Vec<char> = Vec::new();
    while m >= 10
        invariant
            digits_spec(n as nat) == digits_spec(m as nat) + out@,
        decreases m,
    {
        let d = digit(m % 10);
        let ghost before = out@;
        out.insert(0, d);
        proof {
            assert(out@ =~= seq![d] + before);
            assert(digits_spec(m as nat) == digits_spec((m / 10) as nat).push(d));
            assert(digits_spec((m / 10) as nat).push(d) + before =~= digits_spec((m / 10) as nat)
                + out@);
        }
        m = m / 10;
    }
    let d = digit(m);
    let ghost before = out@;
    out.insert(0, d);
    proof {
        assert(digits_spec(m as nat) == seq![d]);
        assert(out@ =~= seq![d] + before);
    }
    out
}

/// Decimal text of `i`.
pub fn integer_text(i: i64) -> (r: String)
    ensures
        r@ == decimal_spec(i as int),
{
    let mut r = String::new();
    let magnitude: u64 = if i < 0 {
        r.push('-');
        (-(i as i128)) as u64
    } else {
        i as u64
    };
    let digits = digits_of(magnitude);
    let ghost start = r@;
    let mut k: usize = 0;
    while k < digits.len()
        invariant
            k <= digits@.len(),
            r@ == start + digits@.take(k as int),
        decreases digits@.len() - k,
    {
        r.push(digits[k]);
        proof {
            assert(digits@.take(k as int + 1) =~= digits@.take(k as int).push(digits@[k as int]));
        }
        k = k + 1;
    }
    proof {
        assert(digits@.take(digits@.len() as int) =~= digits@);
        if i < 0 {
            assert(start =~= seq!['-']);
        } else {
            assert(start =~= Seq::<char>::empty());
        }
        assert(r@ =~= decimal_spec(i as int));
    }
    r
}

} // verus!
