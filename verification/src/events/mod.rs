//! Event schemas, the catalog that finds them, and decoding of logs with them.

pub mod json;
pub mod event;
pub mod compare;
pub mod value;
pub mod generic;
pub mod mapped;
pub mod null;
pub mod erc;
