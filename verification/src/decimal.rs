//! Whole numbers as decimal digits in ASCII, the form in which a score is
//! written down.

use vstd::prelude::*;

verus! {

/// The byte of the digit zero.
pub const DIGIT_ZERO: u8 = 48;

/// The byte of the plus sign.
pub const PLUS_SIGN: u8 = 43;

/// Whether a byte is one of the ten digits.
pub open spec fn is_digit(byte: u8) -> bool {
    48 <= byte <= 57
}

/// Whether every byte is a digit.
pub open spec fn all_digits(bytes: Seq<u8>) -> bool {
    forall|i: int| 0 <= i < bytes.len() ==> is_digit(#[trigger] bytes[i])
}

/// The number that a run of digits spells, the last digit counting least.
pub open spec fn digits_value(bytes: Seq<u8>) -> nat
    decreases bytes.len(),
{
    if bytes.len() == 0 {
        0
    } else {
        10 * digits_value(bytes.drop_last()) + (bytes.last() - 48) as nat
    }
}

/// The digits of what is written, with a leading plus sign taken off.
pub open spec fn unsigned_part(bytes: Seq<u8>) -> Seq<u8> {
    if bytes.len() > 0 && bytes[0] == 43 {
        bytes.skip(1)
    } else {
        bytes
    }
}

/// The number that the bytes spell, if they spell one that fits: an
/// optional plus sign, then one digit or more and nothing else. Leading
/// zeros are allowed, blanks are not.
pub open spec fn parse_decimal(bytes: Seq<u8>) -> Option<u64> {
    let digits = unsigned_part(bytes);
    if digits.len() > 0 && all_digits(digits) && digits_value(digits) <= u64::MAX {
        Some(digits_value(digits) as u64)
    } else {
        None
    }
}

/// The digits of a number, without sign and without leading zeros.
pub open spec fn decimal(n: nat) -> Seq<u8>
    decreases n,
{
    if n < 10 {
        seq![(48 + n) as u8]
    } else {
        decimal(n / 10).push((48 + n % 10) as u8)
    }
}

/// A run of digits spells at least what any of its beginnings spells.
proof fn lemma_value_grows(bytes: Seq<u8>, k: int)
    requires
        0 <= k <= bytes.len(),
    ensures
        digits_value(bytes.take(k)) <= digits_value(bytes),
    decreases bytes.len(),
{
    if k == bytes.len() {
        assert(bytes.take(k) =~= bytes);
    } else {
        assert(bytes.drop_last().take(k) =~= bytes.take(k));
        lemma_value_grows(bytes.drop_last(), k);
    }
}

/// What `decimal` writes is one digit or more, all of them digits, and
/// spells the number written.
pub proof fn lemma_decimal_spells(n: nat)
    ensures
        decimal(n).len() > 0,
        all_digits(decimal(n)),
        digits_value(decimal(n)) == n,
    decreases n,
{
    if n < 10 {
        let one = decimal(n);
        assert(one.drop_last() =~= Seq::<u8>::empty());
        assert(digits_value(one.drop_last()) == 0);
    } else {
        lemma_decimal_spells(n / 10);
        let front = decimal(n / 10);
        let whole = decimal(n);
        assert(whole.drop_last() =~= front);
        assert(whole.last() == (48 + n % 10) as u8);
        assert forall|i: int| 0 <= i < whole.len() implies is_digit(#[trigger] whole[i]) by {
            if i < front.len() {
                assert(whole[i] == front[i]);
            }
        }
    }
}

/// Writing a number down and reading it back gives the number.
pub proof fn lemma_decimal_round_trip(n: u64)
    ensures
        parse_decimal(decimal(n as nat)) == Some(n),
{
    lemma_decimal_spells(n as nat);
    let written = decimal(n as nat);
    assert(is_digit(written[0]));
    assert(unsigned_part(written) == written);
}

/// Reads a number in decimal digits.
pub fn read_decimal(bytes: &[u8]) -> (value: Option<u64>)
    ensures
        value == parse_decimal(bytes@),
{
    let n: usize = bytes.len();
    let start: usize = if n > 0 && bytes[0] == PLUS_SIGN {
        1
    } else {
        0
    };
    let ghost digits = unsigned_part(bytes@);
    assert(digits =~= bytes@.skip(start as int));
    if start == n {
        return None;
    }
    let mut total: u64 = 0;
    let mut i: usize = start;
    assert(digits.take(0) =~= Seq::<u8>::empty());
    while i < n
        invariant
            start <= i <= n,
            n == bytes@.len(),
            digits == unsigned_part(bytes@),
            digits == bytes@.skip(start as int),
            digits.len() == n - start,
            all_digits(digits.take(i - start)),
            total == digits_value(digits.take(i - start)),
        decreases n - i,
    {
        let byte: u8 = bytes[i];
        let ghost k = i - start;
        assert(digits[k] == byte);
        if byte < DIGIT_ZERO || byte > 57 {
            assert(!is_digit(digits[k]));
            return None;
        }
        let digit: u64 = (byte - DIGIT_ZERO) as u64;
        proof {
            assert(digits.take(k + 1).drop_last() =~= digits.take(k));
            assert(digits.take(k + 1).last() == byte);
            assert(digits_value(digits.take(k + 1)) == 10 * total + digit);
            lemma_value_grows(digits, k + 1);
            assert forall|j: int| 0 <= j < k + 1 implies is_digit(#[trigger] digits.take(k + 1)[j]) by {
                if j < k {
                    assert(digits.take(k)[j] == digits[j]);
                }
            }
        }
        if total > (u64::MAX - digit) / 10 {
            return None;
        }
        total = total * 10 + digit;
        i += 1;
    }
    assert(digits.take(n - start) =~= digits);
    Some(total)
}

/// Appends the digits of `n` to `out`.
fn write_digits(n: u64, out: &mut Vec<u8>)
    ensures
        final(out)@ == old(out)@ + decimal(n as nat),
    decreases n,
{
    if n >= 10 {
        write_digits(n / 10, out);
    }
    let digit: u8 = (n % 10) as u8;
    out.push(DIGIT_ZERO + digit);
    assert(out@ =~= old(out)@ + decimal(n as nat));
}

/// Writes a number in decimal digits.
pub fn format_decimal(n: u64) -> (bytes: Vec<u8>)
    ensures
        bytes@ == decimal(n as nat),
        parse_decimal(bytes@) == Some(n),
{
    let mut bytes: Vec<u8> = Vec::new();
    write_digits(n, &mut bytes);
    proof {
        lemma_decimal_round_trip(n);
    }
    bytes
}

} // verus!
