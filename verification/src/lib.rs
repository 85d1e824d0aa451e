//! Block-assembly and marshalling layer for a JSON-RPC "give me this block,
//! fully populated" query against a chain data store.
//!
//! A request names a block by an external reference (an absolute height or a
//! chain-relative tag), which [`chain::resolve_reference`] maps to a concrete
//! lookup identifier. [`assemble::BulkClient`] then performs the composite
//! lookup through the [`provider::ChainDataProvider`] capability — the header
//! bundle, the independently tracked total difficulty, and one receipt and
//! trace list per embedded transaction — and produces a single populated
//! [`assemble::BlockWithTransactions`] record, or signals absence.
//! [`json::render_response`] turns a response into its byte-stable wire
//! representation.
//!
//! Absence of the block is a normal result; absence of the total difficulty
//! is soft and leaves only that field empty; a transaction without a receipt
//! is a data-consistency fault that fails the whole request.

pub mod assemble;
pub mod chain;
pub mod contract_address;
pub mod encoding;
pub mod json;
pub mod project;
pub mod provider;
pub mod types;
