//! Parsing of transaction and block hashes given as hexadecimal strings,
//! optionally carrying a `0x`, `sync-bl:` or `sync-tx:` tag in front.

use vstd::prelude::*;

use vstd::slice::{slice_index_get, slice_subrange};
use vstd::string::StringSliceAdditionalSpecFns;

use crate::errors::ParseHashError;

verus! {

/// Whether `b` is an ASCII hexadecimal digit.
pub open spec fn is_hex_digit(b: u8) -> bool {
    (48 <= b <= 57) || (97 <= b <= 102) || (65 <= b <= 70)
}

/// The numeric value of a hexadecimal digit, either letter case.
pub open spec fn hex_digit_value(b: u8) -> u8 {
    if 48 <= b <= 57 {
        (b - 48) as u8
    } else if 97 <= b <= 102 {
        (b - 97 + 10) as u8
    } else {
        (b - 65 + 10) as u8
    }
}

/// Every byte of `s` is a hexadecimal digit.
pub open spec fn all_hex_digits(s: Seq<u8>) -> bool {
    forall|i: int| 0 <= i < s.len() ==> is_hex_digit(#[trigger] s[i])
}

/// The bytes encoded by a string of hexadecimal digits: two digits per
/// byte, the first digit carrying the high four bits.
pub open spec fn hex_decoded(s: Seq<u8>) -> Seq<u8> {
    Seq::new(s.len() / 2, |i: int| (hex_digit_value(s[2 * i]) * 16 + hex_digit_value(s[2 * i + 1])) as u8)
}

/// The string opens with `0x`.
pub open spec fn has_hex_tag(s: Seq<u8>) -> bool {
    s.len() >= 2 && s[0] == 48 && s[1] == 120
}

/// The string opens with `sync-bl:`.
pub open spec fn has_block_tag(s: Seq<u8>) -> bool {
    s.len() >= 8 && s[0] == 115 && s[1] == 121 && s[2] == 110 && s[3] == 99 && s[4] == 45 && s[5]
        == 98 && s[6] == 108 && s[7] == 58
}

/// The string opens with `sync-tx:`.
pub open spec fn has_tx_tag(s: Seq<u8>) -> bool {
    s.len() >= 8 && s[0] == 115 && s[1] == 121 && s[2] == 110 && s[3] == 99 && s[4] == 45 && s[5]
        == 116 && s[6] == 120 && s[7] == 58
}

/// The string with its tag, if any, removed.
pub open spec fn without_tag(s: Seq<u8>) -> Seq<u8> {
    if has_hex_tag(s) {
        s.subrange(2, s.len() as int)
    } else if has_block_tag(s) || has_tx_tag(s) {
        s.subrange(8, s.len() as int)
    } else {
        s
    }
}

/// Removes the `0x`, `sync-bl:` or `sync-tx:` tag, if one is present.
fn remove_tag<'a>(bytes: &'a [u8]) -> (r: &'a [u8])
    ensures
        r@ == without_tag(bytes@),
{
    if bytes.len() >= 2 && *slice_index_get(bytes, 0) == 48 && *slice_index_get(bytes, 1) == 120 {
        slice_subrange(bytes, 2, bytes.len())
    } else if bytes.len() >= 8 && *slice_index_get(bytes, 0) == 115 && *slice_index_get(bytes, 1)
        == 121 && *slice_index_get(bytes, 2) == 110 && *slice_index_get(bytes, 3) == 99
        && *slice_index_get(bytes, 4) == 45 && ((*slice_index_get(bytes, 5) == 98
        && *slice_index_get(bytes, 6) == 108) || (*slice_index_get(bytes, 5) == 116
        && *slice_index_get(bytes, 6) == 120)) && *slice_index_get(bytes, 7) == 58 {
        slice_subrange(bytes, 8, bytes.len())
    } else {
        bytes
    }
}

/// Relies on hex::decode_to_slice: decodes pairs of hexadecimal digits
/// into bytes, the first digit of each pair carrying the high four bits,
/// both letter cases accepted; any other byte is rejected. The caller has
/// already checked the length, so only the digit check can fail here.
#[verifier::external_body]
fn hex_decode_32(data: &[u8]) -> (r: Result<Vec<u8>, ParseHashError>)
    requires
        data@.len() == 64,
    ensures
        match r {
            Ok(v) => all_hex_digits(data@) && v@ == hex_decoded(data@),
            Err(e) => !all_hex_digits(data@) && e == ParseHashError::InvalidHexCharacter,
        },
{
    let mut out = [0u8; 32];
    match hex::decode_to_slice(data, &mut out) {
        Ok(()) => Ok(out.to_vec()),
        Err(hex::FromHexError::InvalidHexCharacter { .. }) => Err(
            ParseHashError::InvalidHexCharacter,
        ),
        Err(hex::FromHexError::OddLength) => Err(ParseHashError::OddLength),
        Err(hex::FromHexError::InvalidStringLength) => Err(ParseHashError::InvalidStringLength),
    }
}

/// Parses a 32-byte hash written as 64 hexadecimal digits, with an
/// optional `0x`, `sync-bl:` or `sync-tx:` tag in front, and returns the
/// decoded bytes. Digits that do not come in pairs are reported before a
/// wrong digit count, which is reported before a bad digit.
pub fn try_parse_hash(query: &str) -> (r: Result<Vec<u8>, ParseHashError>)
    ensures
        ({
            let digits = without_tag(query.spec_bytes());
            &&& (r == Err::<Vec<u8>, ParseHashError>(ParseHashError::OddLength)) <==> digits.len()
                % 2 != 0
            &&& (r == Err::<Vec<u8>, ParseHashError>(ParseHashError::InvalidStringLength))
                <==> digits.len() % 2 == 0 && digits.len() != 64
            &&& (r == Err::<Vec<u8>, ParseHashError>(ParseHashError::InvalidHexCharacter))
                <==> digits.len() == 64 && !all_hex_digits(digits)
            &&& r is Ok <==> digits.len() == 64 && all_hex_digits(digits)
            &&& r matches Ok(v) ==> v@ == hex_decoded(digits) && v@.len() == 32
        }),
{
    let bytes = query.as_bytes();
    let digits = remove_tag(bytes);
    if digits.len() % 2 != 0 {
        return Err(ParseHashError::OddLength);
    }
    if digits.len() / 2 != 32 {
        return Err(ParseHashError::InvalidStringLength);
    }
    hex_decode_32(digits)
}

} // verus!
