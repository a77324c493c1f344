//! Number fields in the headers of archives: digits between optional leading
//! spaces and trailing spaces or zero bytes.
use vstd::prelude::*;

verus! {

/// The largest value that a number field is read up to. A field of twelve
/// digits cannot hold a larger one.
pub const FIELD_CAP: u64 = 1_000_000_000_000;

/// Whether a byte is a digit of the given radix, which is at most 10.
pub open spec fn is_digit(b: u8, radix: nat) -> bool {
    0x30 <= b && b < 0x30 + radix
}

/// Whether a byte fills the end of a number field: a space or a zero byte.
pub open spec fn is_filler(b: u8) -> bool {
    b == 0x20 || b == 0
}

/// The value of a run of digits, the empty run standing for 0; `None` where a
/// byte is no digit, or where the value before the last digit is above the
/// cap.
pub open spec fn digits_value(s: Seq<u8>, radix: nat) -> Option<nat>
    decreases s.len(),
{
    if s.len() == 0 {
        Some(0)
    } else {
        match digits_value(s.drop_last(), radix) {
            Some(value) => if is_digit(s.last(), radix) && value <= FIELD_CAP {
                Some(radix * value + (s.last() - 0x30) as nat)
            } else {
                None
            },
            None => None,
        }
    }
}

/// The value of digits that may follow spaces: there has to be a digit.
pub open spec fn spaced_digits(s: Seq<u8>, radix: nat) -> Option<nat>
    decreases s.len(),
{
    if s.len() == 0 {
        None
    } else if s[0] == 0x20 {
        spaced_digits(s.drop_first(), radix)
    } else {
        digits_value(s, radix)
    }
}

/// The number that a field holds: spaces, then at least one digit, then
/// spaces or zero bytes up to the end of the field. `None` for every other
/// field.
pub open spec fn number_field(field: Seq<u8>, radix: nat) -> Option<nat>
    decreases field.len(),
{
    if field.len() == 0 {
        None
    } else if is_filler(field.last()) {
        number_field(field.drop_last(), radix)
    } else {
        spaced_digits(field, radix)
    }
}

/// Once the first bytes of a run are no number, no longer run is.
pub proof fn lemma_digits_stay_none(s: Seq<u8>, radix: nat, n: int)
    requires
        0 <= n <= s.len(),
        digits_value(s.take(n), radix) is None,
    ensures
        digits_value(s, radix) is None,
    decreases s.len() - n,
{
    if n < s.len() {
        assert(s.take(n + 1).drop_last() == s.take(n));
        lemma_digits_stay_none(s, radix, n + 1);
    } else {
        assert(s.take(n) == s);
    }
}

/// Reads the number field that the bytes from `from` to `to` hold.
pub(crate) fn read_number(bytes: &[u8], from: usize, to: usize, radix: u8) -> (r: Option<u64>)
    requires
        from <= to <= bytes.len(),
        2 <= radix <= 10,
    ensures
        match number_field(bytes@.subrange(from as int, to as int), radix as nat) {
            Some(value) => value <= 10 * FIELD_CAP + 9 && r == Some(value as u64),
            None => r is None,
        },
{
    let ghost field = bytes@.subrange(from as int, to as int);
    let mut end: usize = to;
    while end > from && (bytes[end - 1] == 0x20 || bytes[end - 1] == 0)
        invariant
            from <= end <= to <= bytes.len(),
            number_field(field, radix as nat) == number_field(
                bytes@.subrange(from as int, end as int),
                radix as nat,
            ),
        decreases end,
    {
        proof {
            let before = bytes@.subrange(from as int, end as int);
            assert(before.drop_last() == bytes@.subrange(from as int, end - 1));
        }
        end -= 1;
    }
    if end == from {
        return None;
    }
    let mut start: usize = from;
    while bytes[start] == 0x20
        invariant
            from <= start < end <= bytes.len(),
            !is_filler(bytes@[end - 1]),
            number_field(field, radix as nat) == spaced_digits(
                bytes@.subrange(start as int, end as int),
                radix as nat,
            ),
        decreases end - start,
    {
        proof {
            let before = bytes@.subrange(start as int, end as int);
            assert(before.drop_first() == bytes@.subrange(start + 1, end as int));
            assert(is_filler(bytes@[start as int]));
        }
        start += 1;
    }
    let ghost digits = bytes@.subrange(start as int, end as int);
    assert(spaced_digits(digits, radix as nat) == digits_value(digits, radix as nat));
    let mut value: u64 = 0;
    let mut i: usize = start;
    assert(digits.take(0) == Seq::<u8>::empty());
    while i < end
        invariant
            from <= start <= i <= end <= to <= bytes.len(),
            2 <= radix <= 10,
            digits == bytes@.subrange(start as int, end as int),
            field == bytes@.subrange(from as int, to as int),
            number_field(field, radix as nat) == digits_value(digits, radix as nat),
            digits_value(digits.take(i - start), radix as nat) == Some(value as nat),
            value <= 10 * FIELD_CAP + 9,
        decreases end - i,
    {
        let b = bytes[i];
        proof {
            assert(digits.take(i - start + 1).drop_last() == digits.take(i - start));
            assert(digits.take(i - start + 1).last() == b);
        }
        if b < 0x30 || b >= 0x30 + radix || value > FIELD_CAP {
            proof {
                let run = digits.take(i - start + 1);
                assert(!(is_digit(run.last(), radix as nat) && value <= FIELD_CAP));
                assert(digits_value(run, radix as nat) is None);
                lemma_digits_stay_none(digits, radix as nat, i - start + 1);
            }
            return None;
        }
        assert((radix as u64) * value <= 10 * FIELD_CAP) by (nonlinear_arith)
            requires
                radix <= 10,
                value <= FIELD_CAP,
        ;
        value = (radix as u64) * value + (b - 0x30) as u64;
        i += 1;
    }
    assert(digits.take(i - start) == digits);
    Some(value)
}

} // verus!
