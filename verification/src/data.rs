//! Record types of the ledger and the derivation of record addresses.
//!
//! Every record is stored under a deterministic address computed from the
//! owning identity and an owner-scoped sequence number, so that no party
//! can forge or duplicate a ledger entry. Identities are the plain values
//! handed to the ledger by the signature-checking environment; the zero
//! identity is reserved and marks an unassigned party.

use vstd::prelude::*;

verus! {

/// Number of bytes in a registered party's name.
pub const NAME_LEN: usize = 32;

/// Number of bytes in an encrypted channel message payload.
pub const MESSAGE_LEN: usize = 64;

/// A human-readable, fixed-width name for a registered party or shipment.
#[derive(Clone, Copy, Debug, PartialEq, Eq)]
pub struct Name {
    pub bytes: [u8; NAME_LEN],
}

/// Terms of the goods to be transported that matter to the ledger:
/// the collateral a carrier must escrow while the delivery is in flight.
#[derive(Clone, Copy, Debug, PartialEq, Eq)]
pub struct ShipmentData {
    pub collateral: u64,
}

/// Payment terms attached to an offer and snapshotted into the task
/// created when the offer is accepted.
#[derive(Clone, Copy, Debug, PartialEq, Eq)]
pub struct OfferDetails {
    pub payment: u64,
    pub timeout: u32,
}

/// Address of a shipment record: the shipper's identity and the
/// shipper-scoped sequence number the shipment was created under.
#[derive(Clone, Copy, Debug, PartialEq, Eq, Structural)]
pub struct ShipmentId {
    pub shipper: u64,
    pub no: u64,
}

/// Address of an offer record: the offering party's identity and the
/// owner-scoped sequence number the offer was made under.
#[derive(Clone, Copy, Debug, PartialEq, Eq, Structural)]
pub struct OfferId {
    pub owner: u64,
    pub no: u64,
}

/// Lifecycle of a shipment. A shipment is `Listed` exactly as long as no
/// carrier is assigned; once sold or accepted the assignment is permanent.
#[derive(Clone, Copy, Debug, PartialEq, Eq, Structural)]
pub enum ShipmentStatus {
    Listed,
    Sold,
    InTransit,
    Delivered,
}

/// Whether a carrier is currently taking jobs.
#[derive(Clone, Copy, Debug, PartialEq, Eq, Structural)]
pub enum Availability {
    Available,
    Unavailable,
}

/// A registered shipper, with the counter its shipment addresses are
/// derived from.
#[derive(Clone, Copy, Debug, PartialEq, Eq)]
pub struct Shipper {
    pub creator: u64,
    pub name: Name,
    pub shipments_count: u64,
}

/// A registered forwarder.
#[derive(Clone, Copy, Debug, PartialEq, Eq)]
pub struct Forwarder {
    pub creator: u64,
    pub name: Name,
}

/// A registered carrier, with the counter its task addresses are derived
/// from. `authority` is the identity allowed to act for this record.
#[derive(Clone, Copy, Debug, PartialEq, Eq)]
pub struct Carrier {
    pub creator: u64,
    pub authority: u64,
    pub name: Name,
    pub availability: Availability,
    pub tasks_count: u64,
}

/// A listed shipment. `carrier` is zero exactly while the shipment is
/// unsold; `forwarder` records the party that made the latest offer.
#[derive(Clone, Copy, Debug, PartialEq, Eq)]
pub struct Shipment {
    pub shipper: u64,
    pub no: u64,
    pub price: u64,
    pub name: Name,
    pub data: ShipmentData,
    pub carrier: u64,
    pub status: ShipmentStatus,
    pub forwarder: u64,
}

/// A non-binding offer against a listed shipment. Consumed when accepted.
#[derive(Clone, Copy, Debug, PartialEq, Eq)]
pub struct ShipmentOffer {
    pub creator: u64,
    pub no: u64,
    pub shipment: ShipmentId,
    pub details: OfferDetails,
    pub made_at: i64,
}

/// The record of an in-flight delivery job, created exactly once per
/// accepted offer and consumed when the delivery is confirmed.
#[derive(Clone, Copy, Debug, PartialEq, Eq)]
pub struct AcceptedOffer {
    pub owner: u64,
    pub no: u64,
    pub shipment: ShipmentId,
    pub details: OfferDetails,
    pub accepted: i64,
}

/// One encrypted message of a channel. `no` is its position in the
/// channel, counted from one.
#[derive(Clone, Copy, Debug, PartialEq, Eq)]
pub struct Message {
    pub no: u64,
    pub payload: [u8; MESSAGE_LEN],
}

/// A per-shipment message channel, opened by `opener` with an exchanged
/// public key and appended to with sequential messages.
#[derive(Clone, Debug, PartialEq, Eq)]
pub struct Channel {
    pub shipment: ShipmentId,
    pub opener: u64,
    pub key: u64,
    pub messages: Vec<Message>,
}

/// Address of the record with sequence number `no` under the identity
/// `owner`: the two components packed into one key, so distinct owners or
/// distinct sequence numbers can never collide.
pub open spec fn rec_key(owner: u64, no: u64) -> u128 {
    ((owner as int) * 0x1_0000_0000_0000_0000 + (no as int)) as u128
}

/// Distinct (owner, sequence number) pairs derive distinct addresses.
pub proof fn lemma_rec_key_injective(a: u64, b: u64, c: u64, d: u64)
    requires
        rec_key(a, b) == rec_key(c, d),
    ensures
        a == c && b == d,
{
    assert(0 <= (a as int) * 0x1_0000_0000_0000_0000 + (b as int)
        <= 0xffff_ffff_ffff_ffff_ffff_ffff_ffff_ffff) by (nonlinear_arith)
        requires
            a <= 0xffff_ffff_ffff_ffff,
            b <= 0xffff_ffff_ffff_ffff,
    ;
    assert(0 <= (c as int) * 0x1_0000_0000_0000_0000 + (d as int)
        <= 0xffff_ffff_ffff_ffff_ffff_ffff_ffff_ffff) by (nonlinear_arith)
        requires
            c <= 0xffff_ffff_ffff_ffff,
            d <= 0xffff_ffff_ffff_ffff,
    ;
    assert(a == c && b == d) by (nonlinear_arith)
        requires
            (a as int) * 0x1_0000_0000_0000_0000 + (b as int) == (c as int)
                * 0x1_0000_0000_0000_0000 + (d as int),
            b <= 0xffff_ffff_ffff_ffff,
            d <= 0xffff_ffff_ffff_ffff,
    ;
}

/// Computes [`rec_key`].
pub fn make_rec_key(owner: u64, no: u64) -> (k: u128)
    ensures
        k == rec_key(owner, no),
{
    proof {
        assert((owner as u128) * 0x1_0000_0000_0000_0000 <= 0xffff_ffff_ffff_ffff * 0x1_0000_0000_0000_0000)
            by (nonlinear_arith)
            requires
                owner <= 0xffff_ffff_ffff_ffff,
        ;
    }
    (owner as u128) * 0x1_0000_0000_0000_0000u128 + (no as u128)
}

} // verus!
