//! Authority-aware orchestration for attaching descriptive metadata records to
//! uniquely-owned mint records held in an external ledger-style record store.
//!
//! The crate validates mint invariants, normalizes caller-supplied field data,
//! decodes the record store's binary metadata layout, resolves how an authority
//! account may sign, and sequences the composite "generate" operation as a
//! single all-or-nothing unit against a model of the external record service.

pub mod address;
pub mod authority;
pub mod codec;
pub mod data;
pub mod error;
pub mod generate;
pub mod mint;
pub mod service;
