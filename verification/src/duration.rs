use vstd::prelude::*;

use crate::errors::BarcodeError;

verus! {

/// Whether the byte is an ASCII decimal digit.
pub open spec fn is_ascii_digit(b: u8) -> bool {
    48 <= b <= 57
}

/// Whether every byte of the sequence is an ASCII decimal digit.
pub open spec fn all_digits(s: Seq<u8>) -> bool {
    forall|i: int| 0 <= i < s.len() ==> is_ascii_digit(s[i])
}

/// The number denoted by a sequence of ASCII decimal digits, most
/// significant first.
pub open spec fn digits_value(s: Seq<u8>) -> int
    decreases s.len(),
{
    if s.len() == 0 {
        0
    } else {
        digits_value(s.drop_last()) * 10 + (s.last() - 48)
    }
}

/// The index of the first ASCII dot in the sequence, or its length when it
/// holds none.
pub open spec fn first_dot(s: Seq<u8>) -> int
    decreases s.len(),
{
    if s.len() == 0 {
        0
    } else if s[0] == 46 {
        0
    } else {
        1 + first_dot(s.subrange(1, s.len() as int))
    }
}

/// The digits before the first dot (or the whole sequence without a dot).
pub open spec fn int_part(s: Seq<u8>) -> Seq<u8> {
    s.take(first_dot(s))
}

/// The digits after the first dot; empty without a dot.
pub open spec fn frac_part(s: Seq<u8>) -> Seq<u8> {
    if first_dot(s) < s.len() {
        s.skip(first_dot(s) + 1)
    } else {
        Seq::empty()
    }
}

/// A well-formed duration string: one or more digits, optionally followed by
/// a dot and further digits.
pub open spec fn well_formed_duration(s: Seq<u8>) -> bool {
    int_part(s).len() >= 1 && all_digits(int_part(s)) && all_digits(frac_part(s))
}

/// Whether the fractional part is at least one half, so that rounding to the
/// nearest whole second rounds up.
pub open spec fn rounds_up(s: Seq<u8>) -> bool {
    frac_part(s).len() > 0 && frac_part(s)[0] >= 53
}

/// The denoted duration rounded to the nearest whole second, halves up.
pub open spec fn duration_value(s: Seq<u8>) -> int {
    digits_value(int_part(s)) + if rounds_up(s) {
        1int
    } else {
        0int
    }
}

/// Ten to the given power.
spec fn pow10(n: nat) -> int
    decreases n,
{
    if n == 0 {
        1
    } else {
        10 * pow10((n - 1) as nat)
    }
}

/// The first dot lies inside the sequence, marks a dot, and nothing before
/// it is one.
proof fn lemma_first_dot_properties(s: Seq<u8>)
    ensures
        0 <= first_dot(s) <= s.len(),
        first_dot(s) < s.len() ==> s[first_dot(s)] == 46,
        forall|j: int| 0 <= j < first_dot(s) ==> s[j] != 46,
    decreases s.len(),
{
    if s.len() > 0 && s[0] != 46 {
        let s1 = s.subrange(1, s.len() as int);
        lemma_first_dot_properties(s1);
        if first_dot(s) < s.len() {
            assert(s[first_dot(s)] == s1[first_dot(s1)]);
        }
        assert forall|j: int| 0 <= j < first_dot(s) implies s[j] != 46 by {
            if j >= 1 {
                assert(s[j] == s1[j - 1]);
            }
        }
    }
}

/// Every power of ten is at least one.
proof fn lemma_pow10_pos(n: nat)
    ensures
        pow10(n) >= 1,
    decreases n,
{
    if n > 0 {
        lemma_pow10_pos((n - 1) as nat);
    }
}

/// Ten to a smaller power is no larger.
proof fn lemma_pow10_monotone(a: nat, b: nat)
    requires
        a <= b,
    ensures
        pow10(a) <= pow10(b),
    decreases b,
{
    if a < b {
        lemma_pow10_monotone(a, (b - 1) as nat);
        lemma_pow10_pos((b - 1) as nat);
    }
}

/// Ten to the nineteenth fits in 64 bits.
proof fn lemma_pow10_19_value()
    ensures
        pow10(19) == 10000000000000000000,
{
    reveal_with_fuel(pow10, 21);
}

/// Reads a probe's textual duration, a non-negative decimal number of
/// seconds such as `123` or `123.456`, and rounds it to the nearest whole
/// second, halves up. Anything else is unusable output, as is an integer
/// part of more than nineteen digits, which cannot denote a 64-bit count of
/// seconds without leading zeros.
pub fn parse_duration_seconds(bytes: &[u8]) -> (r: Result<u64, BarcodeError>)
    ensures
        r is Ok <==> well_formed_duration(bytes@) && int_part(bytes@).len() <= 19,
        (r matches Ok(v) ==> v == duration_value(bytes@)),
        (r matches Err(e) ==> e == BarcodeError::DurationUnavailable),
{
    let n = bytes.len();
    let mut dot: usize = 0;
    while dot < n && bytes[dot] != 46
        invariant
            n == bytes@.len(),
            dot <= n,
            forall|j: int| 0 <= j < dot ==> bytes@[j] != 46,
        decreases n - dot,
    {
        dot = dot + 1;
    }
    proof {
        lemma_first_dot_properties(bytes@);
        let fd = first_dot(bytes@);
        if fd < dot {
            assert(bytes@[fd] != 46);
            assert(false);
        }
        if dot < fd {
            assert(bytes@[dot as int] != 46);
            assert(false);
        }
        assert(fd == dot);
    }
    if dot == 0 {
        return Err(BarcodeError::DurationUnavailable);
    }
    if dot > 19 {
        return Err(BarcodeError::DurationUnavailable);
    }
    let mut value: u64 = 0;
    let mut i: usize = 0;
    while i < dot
        invariant
            n == bytes@.len(),
            first_dot(bytes@) == dot,
            1 <= dot <= 19,
            dot <= n,
            i <= dot,
            forall|j: int| 0 <= j < i ==> is_ascii_digit(bytes@[j]),
            value == digits_value(bytes@.take(i as int)),
            value < pow10(i as nat),
        decreases dot - i,
    {
        let b = bytes[i];
        if b < 48 || b > 57 {
            proof {
                assert(int_part(bytes@)[i as int] == bytes@[i as int]);
                assert(!is_ascii_digit(int_part(bytes@)[i as int]));
            }
            return Err(BarcodeError::DurationUnavailable);
        }
        proof {
            assert(bytes@.take(i + 1).drop_last() =~= bytes@.take(i as int));
            assert(bytes@.take(i + 1).last() == bytes@[i as int]);
            lemma_pow10_monotone((i + 1) as nat, 19);
            lemma_pow10_19_value();
        }
        value = value * 10 + (b - 48) as u64;
        i = i + 1;
    }
    proof {
        assert(bytes@.take(dot as int) == int_part(bytes@));
        lemma_pow10_monotone(dot as nat, 19);
        lemma_pow10_19_value();
        assert(value < 10000000000000000000);
    }
    if dot < n {
        let mut j: usize = dot + 1;
        while j < n
            invariant
                n == bytes@.len(),
                first_dot(bytes@) == dot,
                dot < n,
                dot + 1 <= j <= n,
                forall|k: int| dot + 1 <= k < j ==> is_ascii_digit(bytes@[k]),
            decreases n - j,
        {
            let b = bytes[j];
            if b < 48 || b > 57 {
                proof {
                    assert(frac_part(bytes@)[j - dot - 1] == bytes@[j as int]);
                    assert(!is_ascii_digit(frac_part(bytes@)[j - dot - 1]));
                }
                return Err(BarcodeError::DurationUnavailable);
            }
            j = j + 1;
        }
        proof {
            assert(forall|k: int|
                0 <= k < frac_part(bytes@).len() ==> frac_part(bytes@)[k] == bytes@[
                    k + dot + 1
                ]);
        }
        if dot + 1 < n {
            let first_frac = bytes[dot + 1];
            if first_frac >= 53 {
                proof {
                    assert(frac_part(bytes@)[0] == bytes@[dot + 1]);
                }
                value = value + 1;
            }
        }
    }
    Ok(value)
}

} // verus!
