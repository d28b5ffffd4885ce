//! A ledger for a decentralized logistics marketplace.
//!
//! Shippers list shipments, forwarders and carriers make offers on them,
//! a carrier accepts an offer — which escrows collateral and creates a
//! delivery task — and the shipper confirms delivery, which releases the
//! escrow. Counterparties coordinate over per-shipment message channels.
//!
//! The abstract state and the meaning of every operation live in
//! [`model`]; the executable [`ledger::Ledger`] is proved to follow those
//! transitions exactly; and [`laws`] proves the guarantees the
//! marketplace rests on: a shipment is sold at most once, a rejected
//! operation changes nothing, sequence numbers are never reused, and
//! channel messages stay contiguous.

pub mod data;
pub mod errors;
pub mod events;
pub mod laws;
pub mod ledger;
pub mod model;
