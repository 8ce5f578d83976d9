//! Numbers as decimal text, written and read.

use vstd::prelude::*;
use vstd::string::StringSliceAdditionalSpecFns;
use core::num::ParseIntError;

verus! {

/// Why a text is not the decimal form of a number that fits an `i32`.
#[verifier::external_type_specification]
#[verifier::external_body]
pub struct ExParseIntError(ParseIntError);

/// The decimal digits of `n`, the most significant first, without leading
/// zeros.
pub open spec fn digits(n: nat) -> Seq<char>
    decreases n,
{
    if n < 10 {
        seq![((48 + n) as u8) as char]
    } else {
        digits(n / 10).push(((48 + n % 10) as u8) as char)
    }
}

/// The decimal form of `n`: its digits, behind a minus sign where `n` is
/// negative.
pub open spec fn decimal(n: int) -> Seq<char> {
    if n < 0 {
        seq!['-'] + digits((-n) as nat)
    } else {
        digits(n as nat)
    }
}

/// The number that the ASCII digits `bytes` are the decimal form of; `None`
/// where `bytes` is empty or holds anything but digits.
pub open spec fn natural(bytes: Seq<u8>) -> Option<int>
    decreases bytes.len(),
{
    if bytes.len() == 0 || !(48 <= bytes.last() <= 57) {
        None
    } else if bytes.len() == 1 {
        Some(bytes.last() - 48)
    } else {
        match natural(bytes.drop_last()) {
            Some(high) => Some(high * 10 + (bytes.last() - 48)),
            None => None,
        }
    }
}

/// The number that `bytes` is the decimal form of: digits, with one `+` or
/// `-` before them or none.
pub open spec fn integer(bytes: Seq<u8>) -> Option<int> {
    if bytes.len() > 0 && bytes[0] == 45 {
        match natural(bytes.skip(1)) {
            Some(n) => Some(-n),
            None => None,
        }
    } else if bytes.len() > 0 && bytes[0] == 43 {
        natural(bytes.skip(1))
    } else {
        natural(bytes)
    }
}

/// The `i32` that `bytes` is the decimal form of, if it is one and fits.
pub open spec fn integer_i32(bytes: Seq<u8>) -> Option<i32> {
    match integer(bytes) {
        Some(n) => if i32::MIN <= n <= i32::MAX {
            Some(n as i32)
        } else {
            None
        },
        None => None,
    }
}

/// The bytes that stand for the ASCII characters `text`.
pub open spec fn ascii(text: Seq<char>) -> Seq<u8> {
    Seq::new(text.len(), |i: int| text[i] as u8)
}

/// Calls `format!` with the one hole `{}` on an `i32`. Believed of it: the
/// result is the decimal form of the number, as `Display` for `i32` writes
/// it.
#[verifier::external_body]
pub(crate) fn decimal_string(n: i32) -> (r: String)
    ensures
        r@ == decimal(n as int),
{
    format!("{}", n)
}

/// Calls `str::parse::<i32>`. Believed of it: it succeeds exactly on an
/// optional sign followed by one or more decimal digits whose value fits an
/// `i32`, and then returns that value.
#[verifier::external_body]
pub(crate) fn parse_i32(text: &str) -> (r: Result<i32, ParseIntError>)
    ensures
        match r {
            Ok(n) => integer_i32(text.spec_bytes()) == Some(n),
            Err(_) => integer_i32(text.spec_bytes()) is None,
        },
{
    text.parse::<i32>()
}

/// The digits of a number are ASCII digits, and there is at least one.
pub proof fn lemma_digits_are_digits(n: nat)
    ensures
        digits(n).len() >= 1,
        forall|i: int| 0 <= i < digits(n).len() ==> '0' <= #[trigger] digits(n)[i] <= '9',
    decreases n,
{
    if n >= 10 {
        lemma_digits_are_digits(n / 10);
    }
}

/// Reading the digits of a number gives the number.
pub proof fn lemma_digits_read_back(n: nat)
    ensures
        natural(ascii(digits(n))) == Some(n as int),
    decreases n,
{
    lemma_digits_are_digits(n);
    if n >= 10 {
        lemma_digits_read_back(n / 10);
        lemma_digits_are_digits(n / 10);
        assert(ascii(digits(n)).drop_last() =~= ascii(digits(n / 10)));
    }
}

/// Reading the decimal form of a number gives the number.
pub proof fn lemma_decimal_reads_back(n: int)
    ensures
        integer(ascii(decimal(n))) == Some(n),
{
    if n < 0 {
        lemma_digits_read_back((-n) as nat);
        assert(ascii(decimal(n)).skip(1) =~= ascii(digits((-n) as nat)));
    } else {
        lemma_digits_read_back(n as nat);
        lemma_digits_are_digits(n as nat);
    }
}

} // verus!
