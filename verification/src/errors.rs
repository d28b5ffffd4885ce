//! Errors of the ledger's operations.
//!
//! Every precondition of an operation is checked before any mutation; on
//! failure the whole operation is discarded with zero side effects.

use vstd::prelude::*;

verus! {

/// Why an operation was rejected. The contracts of the operations say for
/// each variant exactly on which inputs it is returned.
#[derive(Clone, Copy, Debug, PartialEq, Eq, Structural)]
pub enum Error {
    /// The referenced record does not exist.
    NotFound,
    /// The caller may not act for the referenced record.
    SignerNotAnAuthority,
    /// The shipment already has a carrier assigned.
    ShipmentSold,
    /// The payer's balance does not cover the required amount.
    NotEnoughFunds,
    /// The identity already holds a record of this role.
    AlreadyRegistered,
    /// A channel for this shipment and opener already exists.
    OpenOnce,
    /// The message's sequence number is not the next one of its channel.
    OutOfSequence,
    /// The shipment is not in transit, so there is nothing to confirm.
    NotInTransit,
}

} // verus!
