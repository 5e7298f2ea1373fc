//! Startup validation of the configuration: the binding address must be
//! strict IPv4 dotted-decimal notation, and the probability must lie in
//! `[0, 1]`.

use vstd::prelude::*;

use crate::CmdArgs;
use crate::MICRO_UNIT;
use crate::numbers::pow10;

verus! {

/// The code point of a decimal digit.
pub open spec fn is_digit(c: char) -> bool {
    48 <= c as int <= 57
}

/// The numeric value of a decimal digit character.
pub open spec fn digit_val(c: char) -> int {
    c as int - 48
}

/// The numeric value of a string of decimal digit characters.
pub open spec fn octet_val(t: Seq<char>) -> int
    decreases t.len(),
{
    if t.len() == 0 {
        0
    } else {
        octet_val(t.drop_last()) * 10 + digit_val(t.last())
    }
}

/// One group of an IPv4 dotted-decimal address: one to three digits, no
/// leading zero unless the group is exactly `0`, value at most 255.
pub open spec fn valid_octet(t: Seq<char>) -> bool {
    &&& 1 <= t.len() <= 3
    &&& (forall|j: int| 0 <= j < t.len() ==> is_digit(#[trigger] t[j]))
    &&& (t.len() > 1 ==> t[0] != '0')
    &&& octet_val(t) <= 255
}

/// The groups of `s` as separated by `'.'`: splitting the empty string gives
/// one empty group, and each dot starts a new group.
pub open spec fn split_dots(s: Seq<char>) -> Seq<Seq<char>>
    decreases s.len(),
{
    if s.len() == 0 {
        seq![Seq::<char>::empty()]
    } else if s[0] == '.' {
        seq![Seq::<char>::empty()] + split_dots(s.drop_first())
    } else {
        let rest = split_dots(s.drop_first());
        seq![seq![s[0]] + rest[0]] + rest.drop_first()
    }
}

/// Strict IPv4 dotted-decimal notation: exactly four groups, each a valid
/// octet.
pub open spec fn valid_ipv4(s: Seq<char>) -> bool {
    let segs = split_dots(s);
    segs.len() == 4 && (forall|k: int| 0 <= k < 4 ==> valid_octet(#[trigger] segs[k]))
}

proof fn lemma_split_len(s: Seq<char>)
    ensures
        split_dots(s).len() >= 1,
    decreases s.len(),
{
    if s.len() != 0 {
        lemma_split_len(s.drop_first());
    }
}

proof fn lemma_split_no_dots(s: Seq<char>)
    requires
        forall|j: int| 0 <= j < s.len() ==> s[j] != '.',
    ensures
        split_dots(s) =~~= seq![s],
    decreases s.len(),
{
    if s.len() != 0 {
        lemma_split_no_dots(s.drop_first());
        assert(seq![s[0]] + s.drop_first() =~= s);
    }
}

proof fn lemma_split_first_dot(s: Seq<char>, d: int)
    requires
        0 <= d < s.len(),
        s[d] == '.',
        forall|j: int| 0 <= j < d ==> s[j] != '.',
    ensures
        split_dots(s) =~~= seq![s.take(d)] + split_dots(s.skip(d + 1)),
    decreases d,
{
    lemma_split_len(s.drop_first());
    if d == 0 {
        assert(s.take(0) =~= Seq::<char>::empty());
        assert(s.skip(1) =~= s.drop_first());
    } else {
        let t = s.drop_first();
        assert(t[d - 1] == '.');
        lemma_split_first_dot(t, d - 1);
        lemma_split_len(t.skip(d));
        assert(seq![s[0]] + t.take(d - 1) =~= s.take(d));
        assert(t.skip(d) =~= s.skip(d + 1));
    }
}

/// Checks one address group against `valid_octet`.
fn check_octet(t: &str) -> (b: bool)
    ensures
        b == valid_octet(t@),
{
    let n: usize = t.unicode_len();
    if n < 1 || n > 3 {
        return false;
    }
    proof {
        assert(pow10(0) == 1);
        assert(pow10(1) == 10);
        assert(pow10(2) == 100);
        assert(pow10(3) == 1000);
    }
    let mut val: u32 = 0;
    for i in 0..n
        invariant
            n == t@.len(),
            1 <= n <= 3,
            forall|j: int| 0 <= j < i ==> is_digit(#[trigger] t@[j]),
            val == octet_val(t@.take(i as int)),
            val < pow10(i as nat),
            pow10(0) == 1 && pow10(1) == 10 && pow10(2) == 100 && pow10(3) == 1000,
    {
        let c: char = t.get_char(i);
        let u: u32 = c as u32;
        if u < 48 || u > 57 {
            return false;
        }
        proof {
            assert(t@.take(i + 1).drop_last() =~= t@.take(i as int));
            assert(t@.take(i + 1).last() == t@[i as int]);
        }
        val = val * 10 + (u - 48);
    }
    proof {
        assert(t@.take(n as int) =~= t@);
    }
    if n > 1 && t.get_char(0) == '0' {
        return false;
    }
    val <= 255
}

/// Checks that a binding address is in strict IPv4 dotted-decimal notation,
/// `0.0.0.0` to `255.255.255.255`.
pub fn evaluate_binding_address(binding_address: String) -> (r: Result<bool, &'static str>)
    ensures
        r is Ok <==> valid_ipv4(binding_address@),
        r is Ok ==> r == Ok::<bool, &'static str>(true),
        r is Err ==> r->Err_0@ == "the binding_address doesn't have the IPv4-format <0.0.0.0> to <255.255.255.255>"@,
{
    let s: &str = binding_address.as_str();
    let n: usize = s.unicode_len();
    let mut seg_start: usize = 0;
    let mut seg_count: usize = 0;
    let mut prior_ok: bool = true;
    let ghost mut completed: Seq<Seq<char>> = Seq::empty();
    proof {
        assert(s@.skip(0) =~= s@);
    }
    for i in 0..n
        invariant
            n == s@.len(),
            seg_start <= i <= n,
            seg_count <= i,
            seg_count == completed.len(),
            split_dots(s@) =~~= completed + split_dots(s@.skip(seg_start as int)),
            prior_ok <==> (forall|k: int|
                0 <= k < completed.len() ==> valid_octet(#[trigger] completed[k])),
            forall|j: int| seg_start <= j < i ==> s@[j] != '.',
    {
        let c: char = s.get_char(i);
        if c == '.' {
            proof {
                let suffix = s@.skip(seg_start as int);
                let d = i - seg_start as int;
                assert(suffix[d] == '.');
                assert(forall|j: int| 0 <= j < d ==> suffix[j] == s@[seg_start + j] && #[trigger] suffix[j] != '.');
                lemma_split_first_dot(suffix, d);
                assert(suffix.take(d) =~= s@.subrange(seg_start as int, i as int));
                assert(suffix.skip(d + 1) =~= s@.skip(i + 1));
            }
            let seg: &str = s.substring_char(seg_start, i);
            let seg_ok: bool = check_octet(seg);
            proof {
                let old_completed = completed;
                completed = completed.push(s@.subrange(seg_start as int, i as int));
                assert(forall|k: int|
                    0 <= k < old_completed.len() ==> #[trigger] completed[k] == old_completed[k]);
                assert(completed[old_completed.len() as int] == s@.subrange(
                    seg_start as int,
                    i as int,
                ));
                if prior_ok && seg_ok {
                    assert(forall|k: int|
                        0 <= k < completed.len() ==> valid_octet(#[trigger] completed[k]));
                } else if prior_ok {
                    assert(!valid_octet(completed[old_completed.len() as int]));
                } else {
                    let bad = choose|k: int|
                        0 <= k < old_completed.len() && !valid_octet(
                            #[trigger] old_completed[k],
                        );
                    assert(!valid_octet(completed[bad]));
                }
            }
            prior_ok = prior_ok && seg_ok;
            seg_count = seg_count + 1;
            seg_start = i + 1;
        }
    }
    proof {
        let suffix = s@.skip(seg_start as int);
        assert(forall|j: int|
            0 <= j < suffix.len() ==> suffix[j] == s@[seg_start + j] && #[trigger] suffix[j]
                != '.');
        lemma_split_no_dots(suffix);
        assert(suffix =~= s@.subrange(seg_start as int, n as int));
    }
    let last_seg: &str = s.substring_char(seg_start, n);
    let last_ok: bool = check_octet(last_seg);
    proof {
        assert(split_dots(s@) =~~= completed.push(s@.subrange(seg_start as int, n as int)));
    }
    if seg_count == 3 && prior_ok && last_ok {
        proof {
            let segs = split_dots(s@);
            assert(forall|k: int| 0 <= k < 3 ==> segs[k] == completed[k]);
            assert(segs[3] == s@.subrange(seg_start as int, n as int));
        }
        Ok(true)
    } else {
        proof {
            let segs = split_dots(s@);
            if seg_count == 3 && !prior_ok {
                let bad = choose|k: int| 0 <= k < completed.len() && !valid_octet(#[trigger] completed[k]);
                assert(segs[bad] == completed[bad]);
                assert(!valid_octet(segs[bad]));
            }
            if seg_count == 3 && prior_ok && !last_ok {
                assert(segs[3] == s@.subrange(seg_start as int, n as int));
            }
        }
        Err("the binding_address doesn't have the IPv4-format <0.0.0.0> to <255.255.255.255>")
    }
}

/// Checks that a probability given in millionths lies in `[0, 1]`.
pub fn evaluate_pvalue(p_millionths: i64) -> (r: Result<bool, &'static str>)
    ensures
        r is Ok <==> 0 <= p_millionths <= MICRO_UNIT,
        r is Ok ==> r == Ok::<bool, &'static str>(true),
        r is Err ==> r->Err_0@ == "p-value must be between 0 <= p-value <= 1"@,
{
    if 0 <= p_millionths && p_millionths <= MICRO_UNIT {
        Ok(true)
    } else {
        Err("p-value must be between 0 <= p-value <= 1")
    }
}

/// Runs every startup check: the binding address must be strict IPv4
/// dotted-decimal notation, and the probability must lie in `[0, 1]`.
pub fn evaluate_args(args: &CmdArgs) -> (r: Result<bool, &'static str>)
    ensures
        r is Ok <==> valid_ipv4(args.binding_address@) && 0 <= args.p_millionths <= MICRO_UNIT,
        r is Ok ==> r == Ok::<bool, &'static str>(true),
        !valid_ipv4(args.binding_address@) ==> (r matches Err(m)
            && m@ == "the binding_address doesn't have the IPv4-format <0.0.0.0> to <255.255.255.255>"@),
        valid_ipv4(args.binding_address@) && !(0 <= args.p_millionths <= MICRO_UNIT) ==> (r matches Err(
            m,
        ) && m@ == "p-value must be between 0 <= p-value <= 1"@),
{
    if let Err(err_str) = evaluate_binding_address(args.binding_address.clone()) {
        return Err(err_str);
    }
    if let Err(err_str) = evaluate_pvalue(args.p_millionths) {
        return Err(err_str);
    }
    Ok(true)
}

} // verus!
