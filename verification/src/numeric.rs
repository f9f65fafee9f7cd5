//! The Numeric column: a decimal text whose magnitude is at most 28 nines.

use vstd::prelude::*;
use vstd::string::*;
use std::convert::Infallible;
use crate::text::{decimal, signed_decimal, u128_text, i128_text};
use crate::integer::{DecimalText, IntoInteger};

verus! {

/// The largest magnitude of the Numeric column: 10^28 - 1.
pub open spec fn numeric_max() -> nat {
    9999999999999999999999999999
}

/// A value that always fits the Numeric column.
pub trait IntoNumeric {
    /// The column text of the value.
    spec fn numeric(&self) -> Seq<char>;

    fn into_numeric(&self) -> (out: String)
        ensures
            out@ == self.numeric(),
    ;

    fn into_numeric_opt(&self) -> (out: Option<String>)
        ensures
            out is Some,
            out->0@ == self.numeric(),
    {
        Some(self.into_numeric())
    }
}

impl<T: IntoInteger> IntoNumeric for T {
    open spec fn numeric(&self) -> Seq<char> {
        signed_decimal(self.integer() as int)
    }

    fn into_numeric(&self) -> (out: String) {
        i128_text(self.into_integer() as i128)
    }
}

impl IntoNumeric for u64 {
    open spec fn numeric(&self) -> Seq<char> {
        decimal(*self as nat)
    }

    fn into_numeric(&self) -> (out: String) {
        u128_text(*self as u128)
    }
}

impl IntoNumeric for usize {
    open spec fn numeric(&self) -> Seq<char> {
        decimal(*self as nat)
    }

    fn into_numeric(&self) -> (out: String) {
        u128_text(*self as u128)
    }
}

/// Why a value does not fit the Numeric column; the value is kept.
#[derive(Debug, Clone)]
pub enum TryIntoNumericError<T> {
    TooBig(T),
    TooSmall(T),
}

impl<T: DecimalText> TryIntoNumericError<T> {
    /// The text of the error: what failed, which bound, and the value.
    pub open spec fn message_text(&self) -> Seq<char> {
        match self {
            TryIntoNumericError::TooBig(v) => "Failed to convert into Numeric (String): TooBig("@
                + v.decimal_text() + ")"@,
            TryIntoNumericError::TooSmall(v) =>
                "Failed to convert into Numeric (String): TooSmall("@ + v.decimal_text() + ")"@,
        }
    }

    /// The error as text.
    pub fn message(&self) -> (out: String)
        ensures
            out@ == self.message_text(),
    {
        match self {
            TryIntoNumericError::TooBig(v) => {
                let mut out = String::from_str("Failed to convert into Numeric (String): TooBig(");
                let digits = v.to_decimal_text();
                out.append(digits.as_str());
                out.append(")");
                out
            },
            TryIntoNumericError::TooSmall(v) => {
                let mut out = String::from_str(
                    "Failed to convert into Numeric (String): TooSmall(",
                );
                let digits = v.to_decimal_text();
                out.append(digits.as_str());
                out.append(")");
                out
            },
        }
    }
}

/// The outcome of a conversion into the Numeric column, as a view: the text, or
/// the error.
pub enum NumericOutcome<E> {
    Text(Seq<char>),
    Refused(E),
}

/// A value that fits the Numeric column exactly when its magnitude is at most
/// `numeric_max()`.
pub trait TryIntoNumeric {
    type Error;

    /// The column text, or the side on which the value leaves the range.
    spec fn try_numeric(&self) -> NumericOutcome<Self::Error>;

    fn try_into_numeric(&self) -> (out: Result<String, Self::Error>)
        ensures
            outcome_matches(out, self.try_numeric()),
    ;

    fn try_into_numeric_opt(&self) -> (out: Result<Option<String>, Self::Error>)
        ensures
            match self.try_numeric() {
                NumericOutcome::Text(t) => out is Ok && out->Ok_0 is Some && out->Ok_0->0@ == t,
                NumericOutcome::Refused(e) => out == Err::<Option<String>, Self::Error>(e),
            },
    {
        match self.try_into_numeric() {
            Ok(text) => Ok(Some(text)),
            Err(e) => Err(e),
        }
    }
}

/// Whether a result is the given outcome: the same text, or the same error.
pub open spec fn outcome_matches<E>(out: Result<String, E>, expected: NumericOutcome<E>) -> bool {
    match expected {
        NumericOutcome::Text(t) => out is Ok && out->Ok_0@ == t,
        NumericOutcome::Refused(e) => out == Err::<String, E>(e),
    }
}

impl<T: IntoNumeric> TryIntoNumeric for T {
    type Error = Infallible;

    open spec fn try_numeric(&self) -> NumericOutcome<Infallible> {
        NumericOutcome::Text(self.numeric())
    }

    fn try_into_numeric(&self) -> (out: Result<String, Infallible>) {
        Ok(self.into_numeric())
    }
}

impl TryIntoNumeric for i128 {
    type Error = TryIntoNumericError<i128>;

    open spec fn try_numeric(&self) -> NumericOutcome<TryIntoNumericError<i128>> {
        if *self < -(numeric_max() as int) {
            NumericOutcome::Refused(TryIntoNumericError::TooSmall(*self))
        } else if *self > numeric_max() {
            NumericOutcome::Refused(TryIntoNumericError::TooBig(*self))
        } else {
            NumericOutcome::Text(signed_decimal(*self as int))
        }
    }

    fn try_into_numeric(&self) -> (out: Result<String, TryIntoNumericError<i128>>) {
        if *self < -9999999999999999999999999999i128 {
            Err(TryIntoNumericError::TooSmall(*self))
        } else if *self > 9999999999999999999999999999i128 {
            Err(TryIntoNumericError::TooBig(*self))
        } else {
            Ok(i128_text(*self))
        }
    }
}

impl TryIntoNumeric for u128 {
    type Error = TryIntoNumericError<u128>;

    open spec fn try_numeric(&self) -> NumericOutcome<TryIntoNumericError<u128>> {
        if *self > numeric_max() {
            NumericOutcome::Refused(TryIntoNumericError::TooBig(*self))
        } else {
            NumericOutcome::Text(decimal(*self as nat))
        }
    }

    fn try_into_numeric(&self) -> (out: Result<String, TryIntoNumericError<u128>>) {
        if *self > 9999999999999999999999999999u128 {
            Err(TryIntoNumericError::TooBig(*self))
        } else {
            Ok(u128_text(*self))
        }
    }
}

} // verus!
