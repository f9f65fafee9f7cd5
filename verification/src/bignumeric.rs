//! The BigNumeric column: a decimal text. Values that always fit are written
//! out as they are; 256-bit values go through `cap_bignumeric`.

use vstd::prelude::*;
use crate::text::{decimal, signed_decimal, u128_text, i128_text};
use crate::numeric::{IntoNumeric, TryIntoNumericError};
use crate::word::{bignumeric_max, U256};

verus! {

/// A value that always fits the BigNumeric column.
pub trait IntoBigNumeric {
    /// The column text of the value.
    spec fn bignumeric(&self) -> Seq<char>;

    fn into_bignumeric(&self) -> (out: String)
        ensures
            out@ == self.bignumeric(),
    ;

    fn into_bignumeric_opt(&self) -> (out: Option<String>)
        ensures
            out is Some,
            out->0@ == self.bignumeric(),
    {
        Some(self.into_bignumeric())
    }
}

impl<T: IntoNumeric> IntoBigNumeric for T {
    open spec fn bignumeric(&self) -> Seq<char> {
        self.numeric()
    }

    fn into_bignumeric(&self) -> (out: String) {
        self.into_numeric()
    }

    fn into_bignumeric_opt(&self) -> (out: Option<String>) {
        self.into_numeric_opt()
    }
}

impl IntoBigNumeric for u128 {
    open spec fn bignumeric(&self) -> Seq<char> {
        decimal(*self as nat)
    }

    fn into_bignumeric(&self) -> (out: String) {
        u128_text(*self)
    }
}

impl IntoBigNumeric for i128 {
    open spec fn bignumeric(&self) -> Seq<char> {
        signed_decimal(*self as int)
    }

    fn into_bignumeric(&self) -> (out: String) {
        i128_text(*self)
    }
}

/// A value that may or may not fit the BigNumeric column.
pub trait TryIntoBigNumeric {
    type Error;

    /// Whether the value fits.
    spec fn fits_bignumeric(&self) -> bool;

    /// The column text of a value that fits.
    spec fn try_bignumeric(&self) -> Seq<char>;

    /// The error for a value that does not fit.
    spec fn bignumeric_error(&self) -> Self::Error;

    fn try_into_bignumeric(&self) -> (out: Result<String, Self::Error>)
        ensures
            out is Ok <==> self.fits_bignumeric(),
            out is Ok ==> out->Ok_0@ == self.try_bignumeric(),
            out is Err ==> out->Err_0 == self.bignumeric_error(),
    ;

    fn try_into_bignumeric_opt(&self) -> (out: Result<Option<String>, Self::Error>)
        ensures
            out is Ok <==> self.fits_bignumeric(),
            out is Ok ==> out->Ok_0 is Some && out->Ok_0->0@ == self.try_bignumeric(),
            out is Err ==> out->Err_0 == self.bignumeric_error(),
    {
        match self.try_into_bignumeric() {
            Ok(text) => Ok(Some(text)),
            Err(e) => Err(e),
        }
    }
}

impl TryIntoBigNumeric for U256 {
    type Error = TryIntoNumericError<U256>;

    open spec fn fits_bignumeric(&self) -> bool {
        self.value() <= bignumeric_max()
    }

    open spec fn try_bignumeric(&self) -> Seq<char> {
        decimal(self.value())
    }

    open spec fn bignumeric_error(&self) -> TryIntoNumericError<U256> {
        TryIntoNumericError::TooBig(*self)
    }

    fn try_into_bignumeric(&self) -> (out: Result<String, TryIntoNumericError<U256>>) {
        if crate::word::within_bignumeric_range(self) {
            Ok(self.to_decimal())
        } else {
            Err(TryIntoNumericError::TooBig(*self))
        }
    }
}

} // verus!
