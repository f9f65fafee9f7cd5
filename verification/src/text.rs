//! Text forms used by the records: lower-case hex, decimal numbers, checksummed
//! addresses. The spec functions here are the vocabulary in which every record
//! field that is a string is described.

use vstd::prelude::*;
use vstd::string::*;

verus! {

/// The sixteen lower-case hex digits, in order.
pub open spec fn hex_digits() -> Seq<char> {
    seq!['0', '1', '2', '3', '4', '5', '6', '7', '8', '9', 'a', 'b', 'c', 'd', 'e', 'f']
}

/// Lower-case hex of a byte string: two digits per byte, high nibble first.
pub open spec fn hex_lower(bytes: Seq<u8>) -> Seq<char> {
    Seq::new(
        2 * bytes.len(),
        |i: int|
            if i % 2 == 0 {
                hex_digits()[bytes[i / 2] as int / 16]
            } else {
                hex_digits()[bytes[i / 2] as int % 16]
            },
    )
}

/// `0x` followed by the lower-case hex of the bytes.
pub open spec fn hex_prefixed(bytes: Seq<u8>) -> Seq<char> {
    seq!['0', 'x'] + hex_lower(bytes)
}

/// Decimal digits of a natural number, without leading zeros (`0` for zero).
pub open spec fn decimal(n: nat) -> Seq<char>
    decreases n,
{
    if n < 10 {
        seq![hex_digits()[n as int]]
    } else {
        decimal(n / 10).push(hex_digits()[(n % 10) as int])
    }
}

/// Decimal text of an integer: a minus sign before the digits of a negative one.
pub open spec fn signed_decimal(i: int) -> Seq<char> {
    if i < 0 {
        seq!['-'] + decimal((-i) as nat)
    } else {
        decimal(i as nat)
    }
}

/// Hex digits of a natural number, without leading zeros (`0` for zero).
pub open spec fn hex_short(n: nat) -> Seq<char>
    decreases n,
{
    if n < 16 {
        seq![hex_digits()[n as int]]
    } else {
        hex_short(n / 16).push(hex_digits()[(n % 16) as int])
    }
}

/// The EIP-55 mixed-case text of a 20-byte address, as alloy prints an `Address`.
pub uninterp spec fn address_checksum(address: Seq<u8>) -> Seq<char>;

/// The Keccak-256 digest of a byte string.
pub uninterp spec fn keccak256_digest(bytes: Seq<u8>) -> Seq<u8>;

/// Calls `hex::encode`. Assumed: the result is two lower-case hex digits per
/// byte, in order, as the crate documents.
#[verifier::external_body]
pub(crate) fn hex_encode(bytes: &Vec<u8>) -> (out: String)
    ensures
        out@ == hex_lower(bytes@),
{
    hex::encode(bytes)
}

/// Formats an alloy `FixedBytes<N>` with `Display`. Assumed: without the
/// alternate flag that is `0x` and the full lower-case hex.
#[verifier::external_body]
pub(crate) fn fixed_bytes_text<const N: usize>(bytes: &[u8; N]) -> (out: String)
    ensures
        out@ == hex_prefixed(bytes@),
{
    format!("{}", alloy::primitives::FixedBytes::<N>::from(*bytes))
}

/// Formats an alloy `Bytes` with `Display`. Assumed: `0x` and the lower-case hex.
#[verifier::external_body]
pub(crate) fn bytes_text(bytes: &Vec<u8>) -> (out: String)
    ensures
        out@ == hex_prefixed(bytes@),
{
    format!("{}", alloy::primitives::Bytes::copy_from_slice(bytes))
}

/// Formats an alloy `Address` with `Display`, which prints its EIP-55 checksum.
/// The text is not unfolded here; it is named `address_checksum`.
#[verifier::external_body]
pub(crate) fn address_text(address: &[u8; 20]) -> (out: String)
    ensures
        out@ == address_checksum(address@),
{
    format!("{}", alloy::primitives::Address::from(*address))
}

/// Calls alloy's `keccak256`. The digest is named `keccak256_digest`.
#[verifier::external_body]
pub(crate) fn keccak256(bytes: &[u8]) -> (out: [u8; 32])
    ensures
        out@ == keccak256_digest(bytes@),
{
    alloy::primitives::keccak256(bytes).0
}

/// Calls `u128::to_string`. Assumed: the decimal digits of the number.
#[verifier::external_body]
pub(crate) fn u128_text(n: u128) -> (out: String)
    ensures
        out@ == decimal(n as nat),
{
    n.to_string()
}

/// Calls `i128::to_string`. Assumed: the decimal digits, after a minus sign
/// when the number is negative.
#[verifier::external_body]
pub(crate) fn i128_text(n: i128) -> (out: String)
    ensures
        out@ == signed_decimal(n as int),
{
    n.to_string()
}

/// Formats a `u64` with `{:x}`. Assumed: the lower-case hex digits of the
/// number, without prefix and without leading zeros.
#[verifier::external_body]
pub(crate) fn u64_hex_text(n: u64) -> (out: String)
    ensures
        out@ == hex_short(n as nat),
{
    format!("{:x}", n)
}

/// Calls `String::push`. Assumed: the character is appended.
#[verifier::external_body]
pub(crate) fn push_char(s: &mut String, c: char)
    ensures
        final(s)@ == old(s)@.push(c),
{
    s.push(c)
}

/// Calls `str::strip_prefix` with the prefix `0x`. Assumed: the rest of the
/// text when it starts with those two characters, nothing otherwise.
#[verifier::external_body]
pub(crate) fn strip_0x(s: &str) -> (out: Option<&str>)
    ensures
        has_0x(s@) ==> out is Some && out->0@ == s@.skip(2),
        !has_0x(s@) ==> out is None,
{
    s.strip_prefix("0x")
}

/// Whether a text starts with `0x`.
pub open spec fn has_0x(s: Seq<char>) -> bool {
    s.len() >= 2 && s[0] == '0' && s[1] == 'x'
}

/// The text without a leading `0x`, if it has one.
pub open spec fn without_0x(s: Seq<char>) -> Seq<char> {
    if has_0x(s) {
        s.skip(2)
    } else {
        s
    }
}

/// Drops a leading `0x`.
pub fn trim_0x(s: &str) -> (out: &str)
    ensures
        out@ == without_0x(s@),
{
    match strip_0x(s) {
        Some(rest) => rest,
        None => s,
    }
}

/// `0x` followed by the hex of the bytes, as an owned string.
pub fn hex_with_prefix(bytes: &Vec<u8>) -> (out: String)
    ensures
        out@ == hex_prefixed(bytes@),
{
    let digits = hex_encode(bytes);
    let mut out = String::from_str("0x");
    proof {
        reveal_strlit("0x");
    }
    out.append(digits.as_str());
    assert(out@ =~= hex_prefixed(bytes@));
    out
}

/// The value of a digit in a radix of up to 36: `0` to `9`, then the letters in
/// either case. Nothing for any other character, and for a digit that the
/// radix does not have.
pub open spec fn digit_value(c: char, radix: nat) -> Option<nat> {
    let code = c as int;
    let value = if '0' as int <= code <= '9' as int {
        code - '0' as int
    } else if 'a' as int <= code <= 'z' as int {
        code - 'a' as int + 10
    } else if 'A' as int <= code <= 'Z' as int {
        code - 'A' as int + 10
    } else {
        radix as int
    };
    if value < radix {
        Some(value as nat)
    } else {
        None
    }
}

/// The number that digits stand for, the most significant first; nothing where
/// a character is no digit of the radix. No digits stand for zero.
pub open spec fn digits_value(digits: Seq<char>, radix: nat) -> Option<nat>
    decreases digits.len(),
{
    if digits.len() == 0 {
        Some(0)
    } else {
        match (digits_value(digits.drop_last(), radix), digit_value(digits.last(), radix)) {
            (Some(high), Some(low)) => Some(high * radix + low),
            _ => None,
        }
    }
}

/// Whether a text starts with the sign.
pub open spec fn has_sign(text: Seq<char>, sign: char) -> bool {
    text.len() > 0 && text[0] == sign
}

/// The signed 64-bit number that a hex text stands for: an optional `+` or `-`
/// and then at least one hex digit, in either case. Nothing for any other
/// text, and for a number that does not fit.
pub open spec fn hex_i64(text: Seq<char>) -> Option<i64> {
    let digits = if has_sign(text, '+') || has_sign(text, '-') {
        text.skip(1)
    } else {
        text
    };
    match digits_value(digits, 16) {
        Some(magnitude) => {
            let number = if has_sign(text, '-') {
                -(magnitude as int)
            } else {
                magnitude as int
            };
            if digits.len() > 0 && i64::MIN <= number <= i64::MAX {
                Some(number as i64)
            } else {
                None
            }
        },
        None => None,
    }
}

/// std's error for a text that is no number.
#[verifier::external_type_specification]
#[verifier::external_body]
pub struct ExParseIntError(std::num::ParseIntError);

/// Calls `i64::from_str_radix(text, 16)`. Assumed, as std documents it: the
/// text is an optional sign followed by digits only, and the call fails on any
/// other text and on a number that does not fit.
#[verifier::external_body]
pub(crate) fn i64_from_hex(text: &str) -> (out: Result<i64, std::num::ParseIntError>)
    ensures
        out is Ok <==> hex_i64(text@) is Some,
        out is Ok ==> out->Ok_0 == hex_i64(text@)->0,
{
    i64::from_str_radix(text, 16)
}

/// An optional fixed-size byte string as `0x` hex text.
pub fn opt_fixed_bytes_text<const N: usize>(bytes: &Option<[u8; N]>) -> (out: Option<String>)
    ensures
        out is Some <==> bytes is Some,
        out is Some ==> out->0@ == hex_prefixed(bytes->0@),
{
    match bytes {
        Some(b) => Some(fixed_bytes_text(b)),
        None => None,
    }
}

/// An optional address as checksummed text.
pub fn opt_address_text(address: &Option<[u8; 20]>) -> (out: Option<String>)
    ensures
        out is Some <==> address is Some,
        out is Some ==> out->0@ == address_checksum(address->0@),
{
    match address {
        Some(a) => Some(address_text(a)),
        None => None,
    }
}

/// A copy of an optional string.
pub fn opt_text_copy(text: &Option<String>) -> (out: Option<String>)
    ensures
        out is Some <==> text is Some,
        out is Some ==> out->0@ == text->0@,
{
    match text {
        Some(t) => Some(t.clone()),
        None => None,
    }
}

/// The `0x` hex texts of a list of byte strings, in order.
pub open spec fn hex_list<const N: usize>(items: Seq<[u8; N]>) -> Seq<Seq<char>> {
    Seq::new(items.len(), |i: int| hex_prefixed(items[i]@))
}

/// Each of the byte strings as `0x` hex text, in order.
pub fn fixed_bytes_texts<const N: usize>(items: &Vec<[u8; N]>) -> (out: Vec<String>)
    ensures
        Seq::new(out@.len(), |i: int| out@[i]@) == hex_list(items@),
{
    let mut out: Vec<String> = Vec::new();
    let mut i: usize = 0;
    while i < items.len()
        invariant
            i <= items.len(),
            out@.len() == i,
            forall|j: int| 0 <= j < i ==> (#[trigger] out@[j])@ == hex_prefixed(items@[j]@),
        decreases items.len() - i,
    {
        out.push(fixed_bytes_text(&items[i]));
        i += 1;
    }
    assert(Seq::new(out@.len(), |i: int| out@[i]@) =~= hex_list(items@));
    out
}

} // verus!
