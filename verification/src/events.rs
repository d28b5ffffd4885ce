//! Domain events.
//!
//! Events are not stored state: they are an append-only observation log,
//! emitted as a side effect of every mutating operation and drained by an
//! external indexer after the operation commits.

use vstd::prelude::*;

use crate::data::OfferId;
use crate::data::ShipmentId;
use crate::data::ShipmentStatus;

verus! {

/// A shipment changed hands through a direct purchase.
#[derive(Clone, Copy, Debug, PartialEq, Eq)]
pub struct ShipmentTransferred {
    pub seller: u64,
    pub buyer: u64,
    pub shipment: ShipmentId,
    pub forwarded: u64,
}

/// A shipper listed a new shipment.
#[derive(Clone, Copy, Debug, PartialEq, Eq)]
pub struct ShipmentCreated {
    pub shipper: u64,
    pub shipment: ShipmentId,
}

/// A party made an offer against a listed shipment.
#[derive(Clone, Copy, Debug, PartialEq, Eq)]
pub struct OfferMade {
    pub from: u64,
    pub to: u64,
    pub offer: OfferId,
    pub shipment: ShipmentId,
}

/// A carrier accepted an offer; the delivery job is now in flight.
#[derive(Clone, Copy, Debug, PartialEq, Eq)]
pub struct OfferAccepted {
    pub from: u64,
    pub to: u64,
    pub offer: OfferId,
    pub shipment: ShipmentId,
}

/// A shipment's lifecycle status changed.
#[derive(Clone, Copy, Debug, PartialEq, Eq)]
pub struct ShipmentStatusUpdated {
    pub shipment: ShipmentId,
    pub status: ShipmentStatus,
}

/// One entry of the event log.
#[derive(Clone, Copy, Debug, PartialEq, Eq)]
pub enum Event {
    ShipmentTransferred(ShipmentTransferred),
    ShipmentCreated(ShipmentCreated),
    OfferMade(OfferMade),
    OfferAccepted(OfferAccepted),
    ShipmentStatusUpdated(ShipmentStatusUpdated),
}

} // verus!
