//! Binding of contract handlers to one calling convention.
//!
//! A contract is a set of handlers, one per entry point, each written
//! against its own message type and against the extension types of the chain
//! it was written for. This crate binds such handlers into
//! [`contract_wrapper::ContractWrapper`], which takes raw payloads, decodes
//! them and reports every failure as one [`error::Error`]; and in
//! [`casting`] it adapts handlers written against the baseline extension
//! type to the extension types of another chain.

pub mod casting;
pub mod context;
pub mod contract_wrapper;
pub mod entry_points;
pub mod error;
