//! Resolution of host names to compute instance identifiers: the merging,
//! ordering and failure rules of the engine, proved against their contracts.

pub mod address;
pub mod clock;
pub mod error;
pub mod fanin;
pub mod filter;
pub mod idset;
pub mod inventory;
pub mod lexical;
pub mod ops;
pub mod resolve;
pub mod schedule;
pub mod text;
