//! From raw chain data to records: one function per record kind, each pure
//! over what was extracted.

pub mod block;
pub mod transactions;
pub mod receipts;
pub mod logs;
pub mod traces;
