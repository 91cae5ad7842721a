//! Numbers written in base 36.

use crate::alphabet::{digit, digit_char, is_digit, is_lower};
use vstd::prelude::*;

verus! {

/// The base-36 numeral of `n`: most significant digit first, no leading
/// zero, and no digit at all for zero.
pub open spec fn base36(n: nat) -> Seq<char>
    decreases n,
{
    if n == 0 {
        Seq::empty()
    } else {
        base36(n / 36).push(digit(n % 36))
    }
}

/// The number that the base-36 digit `c` stands for.
pub open spec fn digit_value(c: char) -> nat {
    if is_digit(c) {
        (c as nat - 48) as nat
    } else {
        (c as nat - 87) as nat
    }
}

/// The number that a base-36 numeral stands for.
pub open spec fn base36_value(s: Seq<char>) -> nat
    decreases s.len(),
{
    if s.len() == 0 {
        0
    } else {
        36 * base36_value(s.drop_last()) + digit_value(s.last())
    }
}

/// Zero has the empty numeral, and nothing else has.
pub proof fn lemma_base36_empty_iff_zero(n: nat)
    ensures
        base36(n).len() == 0 <==> n == 0,
{
}

/// A numeral holds digits and lower-case letters only.
pub proof fn lemma_base36_alphabet(n: nat)
    ensures
        forall|i: int|
            0 <= i < base36(n).len() ==> is_digit(#[trigger] base36(n)[i]) || is_lower(
                base36(n)[i],
            ),
    decreases n,
{
    if n != 0 {
        lemma_base36_alphabet(n / 36);
        let head = base36(n / 36);
        let last = digit(n % 36);
        assert(is_digit(last) || is_lower(last));
        assert forall|i: int| 0 <= i < base36(n).len() implies is_digit(#[trigger] base36(n)[i])
            || is_lower(base36(n)[i]) by {
            if i < head.len() {
                assert(base36(n)[i] == head[i]);
            } else {
                assert(base36(n)[i] == last);
            }
        }
    }
}

/// A numeral does not start with the digit zero.
pub proof fn lemma_base36_no_leading_zero(n: nat)
    requires
        n > 0,
    ensures
        base36(n).len() > 0,
        base36(n)[0] != '0',
    decreases n,
{
    let head = base36(n / 36);
    if n / 36 != 0 {
        lemma_base36_no_leading_zero(n / 36);
        assert(base36(n)[0] == head[0]);
    } else {
        assert(head.len() == 0);
        assert(base36(n)[0] == digit(n % 36));
    }
}

/// Reading a numeral gives back the number it was written for, so two
/// different numbers never share a numeral.
pub proof fn lemma_base36_round_trip(n: nat)
    ensures
        base36_value(base36(n)) == n,
    decreases n,
{
    if n != 0 {
        lemma_base36_round_trip(n / 36);
        let s = base36(n);
        assert(s.drop_last() =~= base36(n / 36));
        assert(s.last() == digit(n % 36));
        assert(digit_value(digit(n % 36)) == n % 36);
    }
}

/// Writes `v` in base 36.
pub fn to_base36(v: u128) -> (s: String)
    ensures
        s@ == base36(v as nat),
{
    let mut low_first: Vec<char> = Vec::new();
    let mut rest: u128 = v;
    while rest > 0
        invariant
            base36(v as nat) == base36(rest as nat) + low_first@.reverse(),
        decreases rest,
    {
        let d: u8 = (rest % 36) as u8;
        let ghost before = low_first@;
        low_first.push(digit_char(d));
        proof {
            let c = digit((rest % 36) as nat);
            assert(low_first@.reverse() =~= seq![c] + before.reverse());
            assert(base36(rest as nat) == base36((rest / 36) as nat).push(c));
            assert(base36(rest as nat) + before.reverse() =~= base36((rest / 36) as nat)
                + low_first@.reverse());
        }
        rest = rest / 36;
    }
    let mut s = String::new();
    let mut left: usize = low_first.len();
    while left > 0
        invariant
            left <= low_first.len(),
            s@ == low_first@.reverse().subrange(0, low_first.len() - left),
        decreases left,
    {
        left = left - 1;
        s.push(low_first[left]);
        assert(s@ =~= low_first@.reverse().subrange(0, low_first.len() - left));
    }
    assert(s@ =~= low_first@.reverse());
    s
}

} // verus!
