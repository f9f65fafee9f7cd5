//! The Integer column: a signed 64-bit number. Conversions into it either cannot
//! fail (`IntoInteger`) or say on which side of the range the value lies
//! (`TryIntoInteger`).

use vstd::prelude::*;
use vstd::string::*;
use std::convert::Infallible;
use crate::text::{decimal, signed_decimal, u128_text, i128_text};
use crate::word::U256;

verus! {

/// A number that can be written out in decimal.
pub trait DecimalText {
    /// The decimal text of the number.
    spec fn decimal_text(&self) -> Seq<char>;

    fn to_decimal_text(&self) -> (out: String)
        ensures
            out@ == self.decimal_text(),
    ;
}

impl DecimalText for u64 {
    open spec fn decimal_text(&self) -> Seq<char> {
        decimal(*self as nat)
    }

    fn to_decimal_text(&self) -> (out: String) {
        u128_text(*self as u128)
    }
}

impl DecimalText for usize {
    open spec fn decimal_text(&self) -> Seq<char> {
        decimal(*self as nat)
    }

    fn to_decimal_text(&self) -> (out: String) {
        u128_text(*self as u128)
    }
}

impl DecimalText for u128 {
    open spec fn decimal_text(&self) -> Seq<char> {
        decimal(*self as nat)
    }

    fn to_decimal_text(&self) -> (out: String) {
        u128_text(*self)
    }
}

impl DecimalText for i64 {
    open spec fn decimal_text(&self) -> Seq<char> {
        signed_decimal(*self as int)
    }

    fn to_decimal_text(&self) -> (out: String) {
        i128_text(*self as i128)
    }
}

impl DecimalText for i128 {
    open spec fn decimal_text(&self) -> Seq<char> {
        signed_decimal(*self as int)
    }

    fn to_decimal_text(&self) -> (out: String) {
        i128_text(*self)
    }
}

impl DecimalText for U256 {
    open spec fn decimal_text(&self) -> Seq<char> {
        decimal(self.value())
    }

    fn to_decimal_text(&self) -> (out: String) {
        self.to_decimal()
    }
}

/// A value that always fits the Integer column.
pub trait IntoInteger {
    /// The value as a signed 64-bit number.
    spec fn integer(&self) -> i64;

    fn into_integer(&self) -> (out: i64)
        ensures
            out == self.integer(),
    ;

    fn into_integer_opt(&self) -> (out: Option<i64>)
        ensures
            out == Some(self.integer()),
    {
        Some(self.into_integer())
    }
}

impl IntoInteger for i64 {
    open spec fn integer(&self) -> i64 {
        *self
    }

    fn into_integer(&self) -> (out: i64) {
        *self
    }
}

impl IntoInteger for i32 {
    open spec fn integer(&self) -> i64 {
        *self as i64
    }

    fn into_integer(&self) -> (out: i64) {
        *self as i64
    }
}

impl IntoInteger for i16 {
    open spec fn integer(&self) -> i64 {
        *self as i64
    }

    fn into_integer(&self) -> (out: i64) {
        *self as i64
    }
}

impl IntoInteger for i8 {
    open spec fn integer(&self) -> i64 {
        *self as i64
    }

    fn into_integer(&self) -> (out: i64) {
        *self as i64
    }
}

impl IntoInteger for u32 {
    open spec fn integer(&self) -> i64 {
        *self as i64
    }

    fn into_integer(&self) -> (out: i64) {
        *self as i64
    }
}

impl IntoInteger for u16 {
    open spec fn integer(&self) -> i64 {
        *self as i64
    }

    fn into_integer(&self) -> (out: i64) {
        *self as i64
    }
}

impl IntoInteger for u8 {
    open spec fn integer(&self) -> i64 {
        *self as i64
    }

    fn into_integer(&self) -> (out: i64) {
        *self as i64
    }
}

/// Why a value does not fit the Integer column; the value is kept.
#[derive(Debug, Clone)]
pub enum TryIntoIntegerError<T> {
    AboveMax(T),
    BelowMin(T),
}

impl<T: DecimalText> TryIntoIntegerError<T> {
    /// The text of the error: what failed, which bound, and the value.
    pub open spec fn message_text(&self) -> Seq<char> {
        match self {
            TryIntoIntegerError::AboveMax(v) => "Failed to convert into Integer (i64): AboveMax("@
                + v.decimal_text() + ")"@,
            TryIntoIntegerError::BelowMin(v) => "Failed to convert into Integer (i64): BelowMin("@
                + v.decimal_text() + ")"@,
        }
    }

    /// The error as text.
    pub fn message(&self) -> (out: String)
        ensures
            out@ == self.message_text(),
    {
        match self {
            TryIntoIntegerError::AboveMax(v) => {
                let mut out = String::from_str("Failed to convert into Integer (i64): AboveMax(");
                let digits = v.to_decimal_text();
                out.append(digits.as_str());
                out.append(")");
                out
            },
            TryIntoIntegerError::BelowMin(v) => {
                let mut out = String::from_str("Failed to convert into Integer (i64): BelowMin(");
                let digits = v.to_decimal_text();
                out.append(digits.as_str());
                out.append(")");
                out
            },
        }
    }
}

/// A value that fits the Integer column exactly when it lies in
/// `[-2^63, 2^63 - 1]`.
pub trait TryIntoInteger {
    type Error;

    /// The column value, or the side on which the value leaves the range.
    spec fn try_integer(&self) -> Result<i64, Self::Error>;

    fn try_into_integer(&self) -> (out: Result<i64, Self::Error>)
        ensures
            out == self.try_integer(),
    ;

    fn try_into_integer_opt(&self) -> (out: Result<Option<i64>, Self::Error>)
        ensures
            out == match self.try_integer() {
                Ok(v) => Ok::<Option<i64>, Self::Error>(Some(v)),
                Err(e) => Err(e),
            },
    {
        match self.try_into_integer() {
            Ok(v) => Ok(Some(v)),
            Err(e) => Err(e),
        }
    }
}

impl<T: IntoInteger> TryIntoInteger for T {
    type Error = Infallible;

    open spec fn try_integer(&self) -> Result<i64, Infallible> {
        Ok(self.integer())
    }

    fn try_into_integer(&self) -> (out: Result<i64, Infallible>) {
        Ok(self.into_integer())
    }
}

impl TryIntoInteger for U256 {
    type Error = TryIntoIntegerError<U256>;

    open spec fn try_integer(&self) -> Result<i64, TryIntoIntegerError<U256>> {
        if self.value() <= i64::MAX {
            Ok(self.value() as i64)
        } else {
            Err(TryIntoIntegerError::AboveMax(*self))
        }
    }

    fn try_into_integer(&self) -> (out: Result<i64, TryIntoIntegerError<U256>>) {
        if self.limbs[3] == 0 && self.limbs[2] == 0 && self.limbs[1] == 0 && self.limbs[0]
            <= 0x7fff_ffff_ffff_ffffu64 {
            Ok(self.limbs[0] as i64)
        } else {
            Err(TryIntoIntegerError::AboveMax(*self))
        }
    }
}

impl TryIntoInteger for u64 {
    type Error = TryIntoIntegerError<u64>;

    open spec fn try_integer(&self) -> Result<i64, TryIntoIntegerError<u64>> {
        if *self <= i64::MAX {
            Ok(*self as i64)
        } else {
            Err(TryIntoIntegerError::AboveMax(*self))
        }
    }

    fn try_into_integer(&self) -> (out: Result<i64, TryIntoIntegerError<u64>>) {
        if *self > 0x7fff_ffff_ffff_ffffu64 {
            Err(TryIntoIntegerError::AboveMax(*self))
        } else {
            Ok(*self as i64)
        }
    }
}

impl TryIntoInteger for u128 {
    type Error = TryIntoIntegerError<u128>;

    open spec fn try_integer(&self) -> Result<i64, TryIntoIntegerError<u128>> {
        if *self <= i64::MAX {
            Ok(*self as i64)
        } else {
            Err(TryIntoIntegerError::AboveMax(*self))
        }
    }

    fn try_into_integer(&self) -> (out: Result<i64, TryIntoIntegerError<u128>>) {
        if *self > 0x7fff_ffff_ffff_ffffu128 {
            Err(TryIntoIntegerError::AboveMax(*self))
        } else {
            Ok(*self as i64)
        }
    }
}

impl TryIntoInteger for i128 {
    type Error = TryIntoIntegerError<i128>;

    open spec fn try_integer(&self) -> Result<i64, TryIntoIntegerError<i128>> {
        if *self > i64::MAX {
            Err(TryIntoIntegerError::AboveMax(*self))
        } else if *self < i64::MIN {
            Err(TryIntoIntegerError::BelowMin(*self))
        } else {
            Ok(*self as i64)
        }
    }

    fn try_into_integer(&self) -> (out: Result<i64, TryIntoIntegerError<i128>>) {
        if *self > 0x7fff_ffff_ffff_ffffi128 {
            Err(TryIntoIntegerError::AboveMax(*self))
        } else if *self < -0x8000_0000_0000_0000i128 {
            Err(TryIntoIntegerError::BelowMin(*self))
        } else {
            Ok(*self as i64)
        }
    }
}

impl TryIntoInteger for usize {
    type Error = TryIntoIntegerError<usize>;

    open spec fn try_integer(&self) -> Result<i64, TryIntoIntegerError<usize>> {
        if *self <= i64::MAX {
            Ok(*self as i64)
        } else {
            Err(TryIntoIntegerError::AboveMax(*self))
        }
    }

    fn try_into_integer(&self) -> (out: Result<i64, TryIntoIntegerError<usize>>) {
        if *self as u64 > 0x7fff_ffff_ffff_ffffu64 {
            Err(TryIntoIntegerError::AboveMax(*self))
        } else {
            Ok(*self as i64)
        }
    }
}

/// Every number of the Integer range converts to itself, and the first number
/// above the range is refused as `AboveMax`, the first below as `BelowMin`.
pub proof fn lemma_integer_coercion(x: i128)
    ensures
        i64::MIN <= x <= i64::MAX ==> x.try_integer() == Ok::<i64, TryIntoIntegerError<i128>>(
            x as i64,
        ) && x as i64 == x,
        x > i64::MAX ==> x.try_integer() == Err::<i64, TryIntoIntegerError<i128>>(
            TryIntoIntegerError::AboveMax(x),
        ),
        x < i64::MIN ==> x.try_integer() == Err::<i64, TryIntoIntegerError<i128>>(
            TryIntoIntegerError::BelowMin(x),
        ),
{
}

} // verus!
