//! The settings that the pipeline reads from its environment. Reading the
//! environment is the caller's; what a value means is decided here.

use vstd::prelude::*;
use crate::text::{digits_value, has_sign};

verus! {

pub const PROVIDER_URL_ENVKEY: &'static str = "PROVIDER_URL";

pub const FALLBACK_PROVIDER_URL_ENVKEY: &'static str = "FALLBACK_PROVIDER_URL";

pub const EXTRACT_N_RETRY_ENVKEY: &'static str = "EXTRACTION_N_RETRY";

pub const EXTRACT_RETRY_COOLDOWN_ENVKEY: &'static str = "EXTRACTION_RETRY_COOLDOWN";

/// What the environment holds under a key.
#[derive(Debug, Clone, PartialEq, Eq)]
pub enum EnvValue {
    /// The key is set to this text.
    Present(String),
    /// The key is not set.
    NotPresent,
    /// The key is set to something that is no text.
    NotUnicode,
}

/// The unsigned 64-bit number that a decimal text stands for: an optional `+`
/// and then at least one digit. Nothing for any other text, and for a number
/// that does not fit.
pub open spec fn parsed_u64(text: Seq<char>) -> Option<u64> {
    let digits = if has_sign(text, '+') {
        text.skip(1)
    } else {
        text
    };
    match digits_value(digits, 10) {
        Some(number) => if digits.len() > 0 && number <= u64::MAX {
            Some(number as u64)
        } else {
            None
        },
        None => None,
    }
}

/// Calls `str::parse::<u64>`. Assumed, as std documents it: the text is an
/// optional `+` followed by digits only, and the call fails on any other text
/// and on a number that does not fit.
#[verifier::external_body]
pub(crate) fn parse_u64(text: &str) -> (out: Option<u64>)
    ensures
        out == parsed_u64(text@),
{
    text.parse::<u64>().ok()
}

/// The number that a setting comes to: the one given where the key is set to
/// a number that fits; `when_absent` where the key is not set; `fallback`
/// where it is set to anything else.
pub open spec fn setting_of(value: EnvValue, when_absent: usize, fallback: usize) -> usize {
    match value {
        EnvValue::Present(text) => match parsed_u64(text@) {
            Some(n) => if n <= usize::MAX {
                n as usize
            } else {
                fallback
            },
            None => fallback,
        },
        EnvValue::NotPresent => when_absent,
        EnvValue::NotUnicode => fallback,
    }
}

/// The number that a setting comes to.
pub fn retry_setting(value: &EnvValue, when_absent: usize, fallback: usize) -> (out: usize)
    ensures
        out == setting_of(*value, when_absent, fallback),
{
    match value {
        EnvValue::Present(text) => match parse_u64(text.as_str()) {
            Some(n) => if n <= usize::MAX as u64 {
                n as usize
            } else {
                fallback
            },
            None => fallback,
        },
        EnvValue::NotPresent => when_absent,
        EnvValue::NotUnicode => fallback,
    }
}

/// How often a call is tried: once where nothing usable is set.
pub fn n_retry_setting(value: &EnvValue) -> (out: usize)
    ensures
        out == setting_of(*value, 1, 1),
{
    retry_setting(value, 1, 1)
}

/// How many seconds to pause between tries: one where the key is not set,
/// five where it is set to something unusable.
pub fn cooldown_setting(value: &EnvValue) -> (out: usize)
    ensures
        out == setting_of(*value, 1, 5),
{
    retry_setting(value, 1, 5)
}

} // verus!
