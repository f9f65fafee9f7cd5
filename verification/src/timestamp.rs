//! Block times as signed 64-bit seconds.

use vstd::prelude::*;
use crate::integer::{TryIntoInteger, TryIntoIntegerError};

verus! {

/// A value that is always a valid timestamp.
pub trait IntoTimestamp {
    /// The timestamp of the value.
    spec fn timestamp(&self) -> i64;

    fn into_timestamp(&self) -> (out: i64)
        ensures
            out == self.timestamp(),
    ;

    fn into_timestamp_opt(&self) -> (out: Option<i64>)
        ensures
            out == Some(self.timestamp()),
    {
        Some(self.into_timestamp())
    }
}

/// A value that is a timestamp exactly when it fits a signed 64-bit number.
pub trait TryIntoTimestamp {
    type Error;

    /// The timestamp, or why the value is none.
    spec fn try_timestamp(&self) -> Result<i64, Self::Error>;

    fn try_into_timestamp(&self) -> (out: Result<i64, Self::Error>)
        ensures
            out == self.try_timestamp(),
    ;

    fn try_into_timestamp_opt(&self) -> (out: Result<Option<i64>, Self::Error>)
        ensures
            out == match self.try_timestamp() {
                Ok(v) => Ok::<Option<i64>, Self::Error>(Some(v)),
                Err(e) => Err(e),
            },
    {
        match self.try_into_timestamp() {
            Ok(ts) => Ok(Some(ts)),
            Err(e) => Err(e),
        }
    }
}

impl TryIntoTimestamp for u64 {
    type Error = TryIntoIntegerError<u64>;

    open spec fn try_timestamp(&self) -> Result<i64, TryIntoIntegerError<u64>> {
        self.try_integer()
    }

    fn try_into_timestamp(&self) -> (out: Result<i64, TryIntoIntegerError<u64>>) {
        self.try_into_integer()
    }
}

impl IntoTimestamp for i64 {
    open spec fn timestamp(&self) -> i64 {
        *self
    }

    fn into_timestamp(&self) -> (out: i64) {
        *self
    }
}

} // verus!
