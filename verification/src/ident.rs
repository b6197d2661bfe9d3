//! Textual form of module identifiers.
//!
//! A module's stable identifier is published as the hyphenated form of its
//! UUID: five groups of lowercase hexadecimal digits, 8-4-4-4-12, most
//! significant digit first.

use vstd::prelude::*;
use crate::model::ModuleId;

verus! {

/// The lowercase hexadecimal digit of a value below 16.
pub open spec fn hex_digit_char(v: int) -> char {
    if v == 0 {
        '0'
    } else if v == 1 {
        '1'
    } else if v == 2 {
        '2'
    } else if v == 3 {
        '3'
    } else if v == 4 {
        '4'
    } else if v == 5 {
        '5'
    } else if v == 6 {
        '6'
    } else if v == 7 {
        '7'
    } else if v == 8 {
        '8'
    } else if v == 9 {
        '9'
    } else if v == 10 {
        'a'
    } else if v == 11 {
        'b'
    } else if v == 12 {
        'c'
    } else if v == 13 {
        'd'
    } else if v == 14 {
        'e'
    } else {
        'f'
    }
}

/// `v` written as exactly `digits` lowercase hexadecimal digits, most
/// significant first.
pub open spec fn hex_group(v: int, digits: nat) -> Seq<char>
    decreases digits,
{
    if digits == 0 {
        Seq::empty()
    } else {
        hex_group(v / 16, (digits - 1) as nat).push(hex_digit_char(v % 16))
    }
}

/// The hyphenated form of a module identifier: time fields of the high
/// half, then the two halves of the low one, dash-separated 8-4-4-4-12.
pub open spec fn hyphenated_id(id: ModuleId) -> Seq<char> {
    let hi = id.hi as int;
    let lo = id.lo as int;
    hex_group(hi / 0x1_0000_0000, 8) + seq!['-'] + hex_group((hi / 0x1_0000) % 0x1_0000, 4)
        + seq!['-'] + hex_group(hi % 0x1_0000, 4) + seq!['-'] + hex_group(
        lo / 0x1_0000_0000_0000,
        4,
    ) + seq!['-'] + hex_group(lo % 0x1_0000_0000_0000, 12)
}

/// Relies on uuid's hyphenated formatter: a UUID built from the two 64-bit
/// halves prints as five dash-separated groups of lowercase hexadecimal
/// digits, 8-4-4-4-12, most significant digit first.
#[verifier::external_body]
pub(crate) fn hyphenated(id: ModuleId) -> (r: String)
    ensures
        r@ == hyphenated_id(id),
{
    uuid::Uuid::from_u64_pair(id.hi, id.lo).hyphenated().to_string()
}

} // verus!
