//! The names under which a view keeps what it draws for a shape.

use vstd::prelude::*;
use vstd::string::StringExecFns;
use vstd::string::StringSliceAdditionalSpecFns;
use vstd::utf8::{encode_utf8, is_ascii_chars, is_char_boundary};
use core::num::ParseIntError;
use crate::types::decimal::{
    ascii, decimal, decimal_string, integer_i32, lemma_decimal_reads_back,
    lemma_digits_are_digits, parse_i32,
};
use crate::types::Guid;

verus! {

/// The name of the shape `guid`: `cc_id_` and the decimal form of `guid`.
pub open spec fn identifier(guid: Guid) -> Seq<char> {
    "cc_id_"@ + decimal(guid as int)
}

/// The name under which a view keeps what it draws for the shape `guid`.
pub fn to_identifier(guid: Guid) -> (r: String)
    ensures
        r@ == identifier(guid),
{
    let number = decimal_string(guid);
    String::from_str("cc_id_").concat(number.as_str())
}

/// Reads the identity out of a name: whatever stands behind the first six
/// bytes of `identifier` is read as a decimal number. The name must be cut
/// behind its sixth byte without splitting a character.
pub fn from_identifier(identifier: &str) -> (r: Result<Guid, ParseIntError>)
    requires
        is_char_boundary(identifier.spec_bytes(), 6),
    ensures
        match r {
            Ok(guid) => integer_i32(identifier.spec_bytes().skip(6)) == Some(guid),
            Err(_) => integer_i32(identifier.spec_bytes().skip(6)) is None,
        },
{
    let (_, number) = identifier.split_at(6);
    parse_i32(number)
}

/// A name leads back to the identity that it was made of: the name of
/// `guid` can be cut behind its sixth byte, and what stands there reads as
/// `guid`.
pub proof fn law_identifier_round_trip(guid: Guid)
    ensures
        is_char_boundary(encode_utf8(identifier(guid)), 6),
        integer_i32(encode_utf8(identifier(guid)).skip(6)) == Some(guid),
{
    broadcast use vstd::utf8::group_utf8_lib;
    reveal_strlit("cc_id_");
    let text = identifier(guid);
    let number = decimal(guid as int);
    if guid < 0 {
        lemma_digits_are_digits((-guid) as nat);
    } else {
        lemma_digits_are_digits(guid as nat);
    }
    assert(is_ascii_chars(text));
    assert(encode_utf8(text) =~= ascii(text));
    assert(ascii(text).skip(6) =~= ascii(number));
    lemma_decimal_reads_back(guid as int);
    vstd::utf8::is_char_boundary_iff_not_is_continuation_byte(encode_utf8(text), 6);
}

} // verus!
