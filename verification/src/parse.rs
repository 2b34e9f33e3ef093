use vstd::prelude::*;
use vstd::arithmetic::power2::pow2;
use vstd::string::StringSliceAdditionalSpecFns;
use crate::types::{Address, U256};

verus! {

// ---------------------------------------------------------------------------
// Hexadecimal text, byte by byte.
// ---------------------------------------------------------------------------

/// `b` is the ASCII code of a hexadecimal digit.
pub open spec fn is_hex_digit(b: u8) -> bool {
    (48 <= b <= 57) || (97 <= b <= 102) || (65 <= b <= 70)
}

/// The numeric value of a hexadecimal digit.
pub open spec fn hex_digit_value(b: u8) -> u8
    recommends
        is_hex_digit(b),
{
    if 48 <= b <= 57 {
        (b - 48) as u8
    } else if 97 <= b <= 102 {
        (b - 87) as u8
    } else {
        (b - 55) as u8
    }
}

/// Drops a leading `0x` or `0X`, if present.
pub open spec fn strip_hex_prefix(s: Seq<u8>) -> Seq<u8> {
    if s.len() >= 2 && s[0] == 48u8 && (s[1] == 120u8 || s[1] == 88u8) {
        s.skip(2)
    } else {
        s
    }
}

pub open spec fn all_hex_digits(s: Seq<u8>) -> bool {
    forall|i: int| 0 <= i < s.len() ==> is_hex_digit(s[i])
}

/// The bytes a hexadecimal digit string denotes, two digits per byte.
pub open spec fn hex_pairs(s: Seq<u8>) -> Seq<u8>
    recommends
        s.len() % 2 == 0,
{
    Seq::new(s.len() / 2, |i: int| ((hex_digit_value(s[2 * i]) * 16 + hex_digit_value(s[2 * i + 1])) as u8))
}

/// A hexadecimal payload is accepted when its raw length (prefix included) is
/// even and, after the prefix is dropped, every byte is a hexadecimal digit.
pub open spec fn hex_ok(raw: Seq<u8>) -> bool {
    raw.len() % 2 == 0 && all_hex_digits(strip_hex_prefix(raw))
}

/// What an accepted hexadecimal payload decodes to.
pub open spec fn spec_hex_decode(raw: Seq<u8>) -> Seq<u8> {
    hex_pairs(strip_hex_prefix(raw))
}

/// The index of the first byte that is not a hexadecimal digit (the length,
/// when every byte is one).
pub open spec fn first_non_hex(s: Seq<u8>) -> int
    decreases s.len(),
{
    if s.len() == 0 {
        0
    } else if !is_hex_digit(s[0]) {
        0
    } else {
        1 + first_non_hex(s.skip(1))
    }
}

/// An address string is accepted when it is a hexadecimal payload of exactly
/// 40 digits once the prefix is dropped.
pub open spec fn addr_hex_ok(raw: Seq<u8>) -> bool {
    hex_ok(raw) && strip_hex_prefix(raw).len() == 40
}

/// Why a hexadecimal payload was rejected.
pub enum HexError {
    /// The raw length, prefix included, was odd.
    OddLength,
    /// A byte at `index` of the prefix-stripped input was not a digit;
    /// `c` is that byte read as a character.
    InvalidHexCharacter { c: char, index: usize },
    /// The stripped length did not fit a fixed-size target. Decoding to a
    /// growable buffer never reports this.
    InvalidStringLength,
}

// ---------------------------------------------------------------------------
// Decimal text.
// ---------------------------------------------------------------------------

/// `b` is the ASCII code of a decimal digit.
pub open spec fn is_dec_digit(b: u8) -> bool {
    48 <= b <= 57
}

/// Every byte is a decimal digit or an underscore separator.
pub open spec fn dec_chars_ok(raw: Seq<u8>) -> bool {
    forall|i: int| 0 <= i < raw.len() ==> is_dec_digit(raw[i]) || raw[i] == 95u8
}

/// The digits of a decimal string, separators dropped.
pub open spec fn dec_digits(raw: Seq<u8>) -> Seq<u8> {
    raw.filter(|b: u8| b != 95u8)
}

/// The value of a decimal digit string: the base-10 fold of its digits.
/// The empty string denotes zero.
pub open spec fn dec_value(ds: Seq<u8>) -> nat
    decreases ds.len(),
{
    if ds.len() == 0 {
        0
    } else {
        dec_value(ds.drop_last()) * 10 + (ds.last() - 48) as nat
    }
}

/// A value string is accepted as a 256-bit integer when it holds only decimal
/// digits and separators and its value fits in 256 bits.
pub open spec fn u256_dec_ok(raw: Seq<u8>) -> bool {
    dec_chars_ok(raw) && dec_value(dec_digits(raw)) < pow2(256)
}

// ---------------------------------------------------------------------------
// Trusted calls into the outside parsers.
// ---------------------------------------------------------------------------

/// Relies on `str::parse::<alloy::primitives::Address>`, which decodes a
/// 40-digit hexadecimal string, `0x`/`0X` prefix optional, rejecting odd raw
/// length, any other stripped length, and any non-digit; case is not checked.
#[verifier::external_body]
pub(crate) fn parse_address_raw(s: &str) -> (r: Option<Address>)
    ensures
        (r is Some) == addr_hex_ok(s.spec_bytes()),
        r matches Some(a) ==> a@ == spec_hex_decode(s.spec_bytes()) && a.wf(),
{
    match s.parse::<alloy::primitives::Address>() {
        Ok(a) => Some(Address { bytes: a.0.to_vec() }),
        Err(_) => None,
    }
}

/// Relies on `alloy::primitives::U256::from_str_radix` with radix 10, which
/// folds the decimal digits, skips `_` separators, and rejects any other byte
/// as well as values of 256 bits or more; the empty string denotes zero. The
/// result is handed back as the value's 32 little-endian bytes.
#[verifier::external_body]
pub(crate) fn parse_u256_raw(s: &str) -> (r: Option<U256>)
    ensures
        (r is Some) == u256_dec_ok(s.spec_bytes()),
        r matches Some(v) ==> v@ == dec_value(dec_digits(s.spec_bytes())) && v.wf(),
{
    match alloy::primitives::U256::from_str_radix(s, 10) {
        Ok(v) => Some(U256 { le_bytes: v.to_le_bytes::<32>().to_vec() }),
        Err(_) => None,
    }
}

/// Relies on `alloy::primitives::hex::decode`, which decodes a hexadecimal
/// string, `0x`/`0X` prefix optional: an odd raw length is rejected first,
/// then the first byte that is no digit, by its index in the stripped input.
#[verifier::external_body]
pub(crate) fn hex_decode_raw(s: &str) -> (r: Result<Vec<u8>, HexError>)
    ensures
        (r is Ok) == hex_ok(s.spec_bytes()),
        r matches Ok(v) ==> v@ == spec_hex_decode(s.spec_bytes()),
        r matches Err(e) ==> (s.spec_bytes().len() % 2 != 0 ==> e == HexError::OddLength),
        r matches Err(e) ==> (s.spec_bytes().len() % 2 == 0 ==> (e matches
            HexError::InvalidHexCharacter { c, index } && {
            &&& index as int == first_non_hex(strip_hex_prefix(s.spec_bytes()))
            &&& (index as int) < strip_hex_prefix(s.spec_bytes()).len()
            &&& c == strip_hex_prefix(s.spec_bytes())[index as int] as char
        })),
{
    match alloy::primitives::hex::decode(s) {
        Ok(v) => Ok(v),
        Err(alloy::primitives::hex::FromHexError::OddLength) => Err(HexError::OddLength),
        Err(alloy::primitives::hex::FromHexError::InvalidHexCharacter { c, index }) => {
            Err(HexError::InvalidHexCharacter { c, index })
        },
        Err(alloy::primitives::hex::FromHexError::InvalidStringLength) => {
            Err(HexError::InvalidStringLength)
        },
    }
}

/// What the `Debug` rendering of a character is: the character between
/// single quotes, with a backslash escape where the character is not
/// printable. A function of the character alone.
pub uninterp spec fn char_debug(c: char) -> Seq<char>;

/// Relies on the `Debug` implementation of `char`, which renders the quoted,
/// escaped form of the character it is given.
#[verifier::external_body]
pub(crate) fn char_debug_string(c: char) -> (r: String)
    ensures
        r@ == char_debug(c),
{
    format!("{:?}", c)
}

} // verus!
