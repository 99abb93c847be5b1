//! A program-owned token mint with fixed metadata.
//!
//! One instruction derives the mint's address from the program's identity,
//! initialises the mint under its own authority, and asks the metadata
//! registry to attach an immutable description to it.

pub mod address;
pub mod instruction;
pub mod metadata;
pub mod ledger;
