//! Decimal rendering of the integers and fixed-point millionths values that
//! appear in metric labels and sample lines.

use vstd::prelude::*;

verus! {

/// The decimal digit character for `d` (meaningful for `d < 10`).
pub open spec fn digit_char(d: nat) -> char {
    if d == 0 {
        '0'
    } else if d == 1 {
        '1'
    } else if d == 2 {
        '2'
    } else if d == 3 {
        '3'
    } else if d == 4 {
        '4'
    } else if d == 5 {
        '5'
    } else if d == 6 {
        '6'
    } else if d == 7 {
        '7'
    } else if d == 8 {
        '8'
    } else {
        '9'
    }
}

/// The decimal digits of `n`, most significant first, without leading zeros
/// (except for `n == 0`, which is the single digit `0`).
pub open spec fn spec_dec(n: nat) -> Seq<char>
    decreases n,
{
    if n < 10 {
        seq![digit_char(n)]
    } else {
        spec_dec(n / 10).push(digit_char(n % 10))
    }
}

/// The decimal text of an integer: a minus sign for negative values, then
/// the digits of the magnitude.
pub open spec fn spec_int_str(v: int) -> Seq<char> {
    if v < 0 {
        seq!['-'] + spec_dec((-v) as nat)
    } else {
        spec_dec(v as nat)
    }
}

/// The lowest `width` decimal digits of `n`, zero-padded to exactly
/// `width` characters.
pub open spec fn spec_padded(n: nat, width: nat) -> Seq<char>
    decreases width,
{
    if width == 0 {
        Seq::empty()
    } else {
        spec_padded(n / 10, (width - 1) as nat).push(digit_char(n % 10))
    }
}

/// `s` with every trailing `'0'` removed.
pub open spec fn spec_trim_zeros(s: Seq<char>) -> Seq<char>
    decreases s.len(),
{
    if s.len() > 0 && s.last() == '0' {
        spec_trim_zeros(s.drop_last())
    } else {
        s
    }
}

/// The decimal text of the real number `v / 1_000_000`: the integer part,
/// and, when the fractional part is not zero, a dot and the fractional
/// digits with trailing zeros trimmed.
pub open spec fn spec_micros_str(v: int) -> Seq<char> {
    let sign = if v < 0 {
        seq!['-']
    } else {
        Seq::<char>::empty()
    };
    let m = if v < 0 {
        -v
    } else {
        v
    };
    let q = m / 1_000_000;
    let r = m % 1_000_000;
    if r == 0 {
        sign + spec_dec(q as nat)
    } else {
        sign + spec_dec(q as nat) + seq!['.'] + spec_trim_zeros(spec_padded(r as nat, 6))
    }
}

/// Ten to the `w`.
pub open spec fn pow10(w: nat) -> nat
    decreases w,
{
    if w == 0 {
        1
    } else {
        10 * pow10((w - 1) as nat)
    }
}

/// The single-character string for the decimal digit `d`.
fn digit_str(d: u8) -> (r: &'static str)
    requires
        d < 10,
    ensures
        r@ =~= seq![digit_char(d as nat)],
{
    proof {
        reveal_strlit("0");
        reveal_strlit("1");
        reveal_strlit("2");
        reveal_strlit("3");
        reveal_strlit("4");
        reveal_strlit("5");
        reveal_strlit("6");
        reveal_strlit("7");
        reveal_strlit("8");
        reveal_strlit("9");
    }
    match d {
        0 => "0",
        1 => "1",
        2 => "2",
        3 => "3",
        4 => "4",
        5 => "5",
        6 => "6",
        7 => "7",
        8 => "8",
        _ => "9",
    }
}

/// The decimal text of `n`.
fn dec_u128(n: u128) -> (s: String)
    ensures
        s@ == spec_dec(n as nat),
    decreases n,
{
    if n < 10 {
        let mut s = String::new();
        s.append(digit_str(n as u8));
        assert(s@ =~= spec_dec(n as nat));
        s
    } else {
        let mut s = dec_u128(n / 10);
        s.append(digit_str((n % 10) as u8));
        assert(s@ =~= spec_dec(n as nat));
        s
    }
}

/// The decimal text of `v`, with a minus sign when `v` is negative.
pub fn int_str(v: i128) -> (s: String)
    requires
        v > i128::MIN,
    ensures
        s@ == spec_int_str(v as int),
{
    if v < 0 {
        proof {
            reveal_strlit("-");
        }
        let mut s = String::from_str("-");
        s.append(dec_u128((-v) as u128).as_str());
        assert(s@ =~= spec_int_str(v as int));
        s
    } else {
        let s = dec_u128(v as u128);
        s
    }
}

/// The lowest `width` decimal digits of `n`, zero-padded.
fn padded_str(n: u32, width: u32) -> (s: String)
    ensures
        s@ == spec_padded(n as nat, width as nat),
    decreases width,
{
    if width == 0 {
        let s = String::new();
        assert(s@ =~= spec_padded(n as nat, 0));
        s
    } else {
        let mut s = padded_str(n / 10, width - 1);
        s.append(digit_str((n % 10) as u8));
        assert(s@ =~= spec_padded(n as nat, width as nat));
        s
    }
}

proof fn lemma_padded_drop_zero(n: nat, w: nat)
    requires
        w >= 1,
        n % 10 == 0,
    ensures
        spec_trim_zeros(spec_padded(n, w)) == spec_trim_zeros(spec_padded(n / 10, (w - 1) as nat)),
{
    let p = spec_padded(n, w);
    assert(p == spec_padded(n / 10, (w - 1) as nat).push(digit_char(0)));
    assert(p.last() == '0');
    assert(p.drop_last() =~= spec_padded(n / 10, (w - 1) as nat));
}

proof fn lemma_trim_keeps(n: nat, w: nat)
    requires
        w >= 1,
        n % 10 != 0,
    ensures
        spec_trim_zeros(spec_padded(n, w)) == spec_padded(n, w),
{
    let p = spec_padded(n, w);
    assert(p.last() == digit_char(n % 10));
    assert(digit_char(n % 10) != '0');
}

proof fn lemma_pow10_six()
    ensures
        pow10(1) == 10,
        pow10(6) == 1_000_000,
{
    assert(pow10(0) == 1);
    assert(pow10(1) == 10);
    assert(pow10(2) == 100);
    assert(pow10(3) == 1_000);
    assert(pow10(4) == 10_000);
    assert(pow10(5) == 100_000);
    assert(pow10(6) == 1_000_000);
}

proof fn lemma_pow10_shrink(n: nat, w: nat)
    requires
        w >= 1,
        n < pow10(w),
    ensures
        n / 10 < pow10((w - 1) as nat),
{
    assert(pow10(w) == 10 * pow10((w - 1) as nat));
}

/// The decimal text of the real number `v / 1_000_000`.
pub fn micros_str(v: i128) -> (s: String)
    requires
        v > i128::MIN,
    ensures
        s@ == spec_micros_str(v as int),
{
    let neg: bool = v < 0;
    let m: u128 = if neg {
        (-v) as u128
    } else {
        v as u128
    };
    let q: u128 = m / 1_000_000;
    let r: u32 = (m % 1_000_000) as u32;
    let mut s = if neg {
        proof {
            reveal_strlit("-");
        }
        String::from_str("-")
    } else {
        String::new()
    };
    s.append(dec_u128(q).as_str());
    if r > 0 {
        proof {
            reveal_strlit(".");
        }
        s.append(".");
        let mut rr: u32 = r;
        let mut w: u32 = 6;
        proof {
            lemma_pow10_six();
        }
        while rr % 10 == 0
            invariant
                1 <= w <= 6,
                0 < rr < pow10(w as nat),
                spec_trim_zeros(spec_padded(rr as nat, w as nat)) == spec_trim_zeros(
                    spec_padded(r as nat, 6),
                ),
            decreases rr,
        {
            proof {
                lemma_padded_drop_zero(rr as nat, w as nat);
                lemma_pow10_shrink(rr as nat, w as nat);
                lemma_pow10_six();
                if w == 1 {
                    assert(rr < 10);
                    assert(rr % 10 == rr);
                    assert(false);
                }
            }
            rr = rr / 10;
            w = w - 1;
        }
        proof {
            lemma_trim_keeps(rr as nat, w as nat);
        }
        s.append(padded_str(rr, w).as_str());
        assert(s@ =~= spec_micros_str(v as int));
        s
    } else {
        assert(s@ =~= spec_micros_str(v as int));
        s
    }
}

} // verus!
