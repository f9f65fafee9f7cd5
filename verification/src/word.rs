//! 256-bit unsigned numbers, held as four 64-bit limbs, and the BigNumeric cap.

use vstd::prelude::*;
use vstd::string::*;
use crate::text::{decimal, digits_value};

verus! {

/// An unsigned 256-bit number. `limbs[0]` is the least significant limb.
#[derive(Clone, Copy, Debug, PartialEq, Eq)]
pub struct U256 {
    pub limbs: [u64; 4],
}

/// 2^64, the weight of one limb.
pub open spec fn limb_base() -> nat {
    0x1_0000_0000_0000_0000
}

/// The largest value that the BigNumeric column takes: 10^38 - 1.
pub open spec fn bignumeric_max() -> nat {
    99999999999999999999999999999999999999
}

/// The text that stands for every value above the cap: thirty-eight nines.
pub open spec fn bignumeric_cap_text() -> Seq<char> {
    "99999999999999999999999999999999999999"@
}

/// The first number that 256 bits cannot hold: 2^256.
pub open spec fn u256_bound() -> nat {
    0x1_0000_0000_0000_0000_0000_0000_0000_0000_0000_0000_0000_0000_0000_0000_0000_0000nat
}

/// The 256-bit number that a hex text stands for: hex digits in either case,
/// with underscores anywhere between or around them, which are not looked at.
/// A text without digits stands for zero. Nothing for a text with any other
/// character, and for a number that 256 bits cannot hold.
pub open spec fn hex_number(text: Seq<char>) -> Option<nat> {
    match digits_value(text.filter(|c: char| c != '_'), 16) {
        Some(number) => if number < u256_bound() {
            Some(number)
        } else {
            None
        },
        None => None,
    }
}

impl U256 {
    /// The number that the limbs stand for.
    pub open spec fn value(&self) -> nat {
        (self.limbs[0] as nat) + limb_base() * ((self.limbs[1] as nat) + limb_base() * (
        (self.limbs[2] as nat) + limb_base() * (self.limbs[3] as nat)))
    }

    /// The byte at position `i` of the 32-byte big-endian form.
    pub open spec fn be_byte(&self, i: int) -> u8 {
        ((self.limbs[3 - i / 8] as nat / byte_weight(7 - i % 8)) % 256) as u8
    }

    /// The 32-byte big-endian form.
    pub open spec fn be_bytes(&self) -> Seq<u8> {
        Seq::new(32, |i: int| self.be_byte(i))
    }

    pub fn zero() -> (out: Self)
        ensures
            out.value() == 0,
    {
        U256 { limbs: [0, 0, 0, 0] }
    }

    pub fn from_u64(n: u64) -> (out: Self)
        ensures
            out.value() == n,
    {
        U256 { limbs: [n, 0, 0, 0] }
    }

    pub fn from_u128(n: u128) -> (out: Self)
        ensures
            out.value() == n,
    {
        let low: u64 = (n % 0x1_0000_0000_0000_0000u128) as u64;
        let high: u64 = (n / 0x1_0000_0000_0000_0000u128) as u64;
        U256 { limbs: [low, high, 0, 0] }
    }

    /// The number as a `u128`, where it fits.
    pub fn to_u128(&self) -> (out: Option<u128>)
        ensures
            out == if self.value() <= u128::MAX {
                Some(self.value() as u128)
            } else {
                None
            },
    {
        proof {
            let high = (self.limbs[2] as nat) + 0x1_0000_0000_0000_0000 * (self.limbs[3] as nat);
            let upper = (self.limbs[1] as nat) + 0x1_0000_0000_0000_0000 * high;
            assert(self.value() == (self.limbs[0] as nat) + 0x1_0000_0000_0000_0000 * upper);
            if high > 0 {
                assert(upper >= 0x1_0000_0000_0000_0000);
                assert(self.value() > u128::MAX);
            }
        }
        if self.limbs[3] == 0 && self.limbs[2] == 0 {
            Some((self.limbs[1] as u128) * 0x1_0000_0000_0000_0000u128 + (self.limbs[0] as u128))
        } else {
            None
        }
    }

    /// Whether the number is odd.
    pub fn is_odd(&self) -> (out: bool)
        ensures
            out == (self.value() % 2 == 1),
    {
        self.limbs[0] % 2 == 1
    }

    /// The decimal text of the number.
    pub fn to_decimal(&self) -> (out: String)
        ensures
            out@ == decimal(self.value()),
    {
        u256_text(self)
    }

    /// The 32 big-endian bytes of the number.
    pub fn to_be_bytes_vec(&self) -> (out: Vec<u8>)
        ensures
            out@ == self.be_bytes(),
    {
        u256_be_bytes(self)
    }

    /// Reads a number from hex digits (no `0x` in front).
    pub fn from_hex(text: &str) -> (out: Option<Self>)
        ensures
            out is Some <==> hex_number(text@) is Some,
            out is Some ==> out->0.value() == hex_number(text@)->0,
    {
        u256_from_hex(text)
    }
}

/// 256^k for k in 0..8.
pub open spec fn byte_weight(k: int) -> nat {
    if k <= 0 {
        1
    } else if k == 1 {
        0x100
    } else if k == 2 {
        0x1_0000
    } else if k == 3 {
        0x100_0000
    } else if k == 4 {
        0x1_0000_0000
    } else if k == 5 {
        0x100_0000_0000
    } else if k == 6 {
        0x1_0000_0000_0000
    } else {
        0x100_0000_0000_0000
    }
}

/// Formats alloy's `U256` with `Display`. Assumed: the decimal digits of the
/// number whose little-endian limbs are given.
#[verifier::external_body]
fn u256_text(n: &U256) -> (out: String)
    ensures
        out@ == decimal(n.value()),
{
    alloy::primitives::U256::from_limbs(n.limbs).to_string()
}

/// Calls `to_be_bytes_vec` of alloy's `U256`. Assumed: the 32 bytes of the
/// number, most significant first.
#[verifier::external_body]
fn u256_be_bytes(n: &U256) -> (out: Vec<u8>)
    ensures
        out@ == n.be_bytes(),
{
    alloy::primitives::U256::from_limbs(n.limbs).to_be_bytes_vec()
}

/// Calls `U256::from_str_radix(text, 16)` of alloy. Assumed, as its source
/// shows: underscores are skipped, every other character must be a hex digit,
/// and the call fails where the digits come to more than 256 bits. The limbs
/// handed back are those of the number.
#[verifier::external_body]
fn u256_from_hex(text: &str) -> (out: Option<U256>)
    ensures
        out is Some <==> hex_number(text@) is Some,
        out is Some ==> out->0.value() == hex_number(text@)->0,
{
    match alloy::primitives::U256::from_str_radix(text, 16) {
        Ok(n) => Some(U256 { limbs: n.into_limbs() }),
        Err(_) => None,
    }
}

/// Determines whether a number is within BigNumeric range. Every number under
/// 2^97 is, so the bit length need not be looked at.
pub fn within_bignumeric_range(uint: &U256) -> (out: bool)
    ensures
        out == (uint.value() <= bignumeric_max()),
{
    match uint.to_u128() {
        Some(n) => n <= 99999999999999999999999999999999999999u128,
        None => false,
    }
}

/// The decimal text of a number in BigNumeric range, the cap text of any other.
pub fn cap_bignumeric(uint: &U256) -> (out: String)
    ensures
        out@ == capped_text(uint.value()),
{
    if within_bignumeric_range(uint) {
        uint.to_decimal()
    } else {
        String::from_str("99999999999999999999999999999999999999")
    }
}

/// The capped text of a number: its digits up to the cap, the cap text above.
pub open spec fn capped_text(n: nat) -> Seq<char> {
    if n <= bignumeric_max() {
        decimal(n)
    } else {
        bignumeric_cap_text()
    }
}

/// 10 to the `exponent`.
spec fn pow10(exponent: nat) -> nat
    decreases exponent,
{
    if exponent == 0 {
        1
    } else {
        10 * pow10((exponent - 1) as nat)
    }
}

/// A power of ten is at least one.
proof fn lemma_pow10_positive(exponent: nat)
    ensures
        pow10(exponent) >= 1,
    decreases exponent,
{
    if exponent > 0 {
        lemma_pow10_positive((exponent - 1) as nat);
    }
}

/// A number of at least 10^k has more than k digits.
proof fn lemma_decimal_length(n: nat, exponent: nat)
    requires
        n >= pow10(exponent),
    ensures
        decimal(n).len() > exponent,
    decreases exponent,
{
    if exponent > 0 {
        lemma_pow10_positive((exponent - 1) as nat);
        assert(pow10(exponent) == 10 * pow10((exponent - 1) as nat));
        assert(n >= 10);
        assert(n / 10 >= pow10((exponent - 1) as nat));
        lemma_decimal_length(n / 10, (exponent - 1) as nat);
        assert(decimal(n) == decimal(n / 10).push(crate::text::hex_digits()[(n % 10) as int]));
    } else {
        if n >= 10 {
            assert(decimal(n) == decimal(n / 10).push(crate::text::hex_digits()[(n % 10) as int]));
        }
    }
}

/// 10^38 is the first number above the cap.
proof fn lemma_cap_is_power()
    ensures
        pow10(38) == bignumeric_max() + 1,
{
    assert(pow10(10) == 10000000000) by {
        reveal_with_fuel(pow10, 11);
    }
    assert(pow10(20) == 100000000000000000000) by {
        reveal_with_fuel(pow10, 11);
    }
    assert(pow10(30) == 1000000000000000000000000000000) by {
        reveal_with_fuel(pow10, 11);
    }
    assert(pow10(38) == 100000000000000000000000000000000000000) by {
        reveal_with_fuel(pow10, 9);
    }
}

/// The capped text of a number is its exact text exactly when the number is at
/// most 10^38 - 1: above that the exact text has more digits than the cap.
pub proof fn lemma_capped_is_lossless(n: nat)
    ensures
        capped_text(n) == decimal(n) <==> n <= bignumeric_max(),
{
    if n > bignumeric_max() {
        reveal_strlit("99999999999999999999999999999999999999");
        lemma_cap_is_power();
        lemma_decimal_length(n, 38);
        assert(bignumeric_cap_text().len() == 38);
    }
}

} // verus!
