//! The laws of the marketplace, proved once and for all over the
//! abstract transitions of [`crate::model::LedgerV`].
//!
//! Because every executable operation is proved equal to its transition,
//! these lemmas carry over to every run of the executable ledger.

use vstd::prelude::*;

use crate::data::AcceptedOffer;
use crate::data::Message;
use crate::data::Name;
use crate::data::OfferId;
use crate::data::ShipmentData;
use crate::data::ShipmentId;
use crate::data::ShipmentStatus;
use crate::data::lemma_rec_key_injective;
use crate::data::rec_key;
use crate::errors::Error;
use crate::model::LedgerV;
use crate::model::sid_key;

verus! {

/// A shipment is sold at most once: after a successful acceptance, any
/// further acceptance of an offer against the same shipment fails with
/// `ShipmentSold` — whoever signs it, whichever offer it consumes and
/// whoever would pay — and leaves the ledger, custody included, exactly
/// as it was.
pub proof fn lemma_accept_offer_at_most_once(
    pre: LedgerV,
    signer1: u64,
    carrier1: u64,
    offer1: OfferId,
    payer1: u64,
    now1: i64,
    signer2: u64,
    carrier2: u64,
    offer2: OfferId,
    payer2: u64,
    now2: i64,
)
    requires
        pre.wf(),
        pre.accept_offer(signer1, carrier1, offer1, payer1, now1).0 == Ok::<(), Error>(()),
        ({
            let mid = pre.accept_offer(signer1, carrier1, offer1, payer1, now1).1;
            &&& mid.carriers.contains_key(carrier2)
            &&& mid.carriers[carrier2].authority == signer2
            &&& mid.offers.contains_key(rec_key(offer2.owner, offer2.no))
            &&& mid.offers[rec_key(offer2.owner, offer2.no)].shipment == pre.offers[rec_key(
                offer1.owner,
                offer1.no,
            )].shipment
        }),
    ensures
        ({
            let mid = pre.accept_offer(signer1, carrier1, offer1, payer1, now1).1;
            mid.accept_offer(signer2, carrier2, offer2, payer2, now2) == (
                Err::<(), Error>(Error::ShipmentSold),
                mid,
            )
        }),
{
    let mid = pre.accept_offer(signer1, carrier1, offer1, payer1, now1).1;
    assert(pre.carriers.contains_key(carrier1));
    assert(carrier1 != 0);
    let o1 = pre.offers[rec_key(offer1.owner, offer1.no)];
    let sk = sid_key(o1.shipment);
    assert(mid.shipments[sk].carrier == carrier1);
}

/// A rejected acceptance mutates nothing: whenever `accept_offer` returns
/// an error, the ledger — shipments, offers, tasks, balances, custody and
/// the event log alike — is exactly the state it started from.
pub proof fn lemma_accept_offer_error_no_mutation(
    pre: LedgerV,
    signer: u64,
    carrier_id: u64,
    offer: OfferId,
    payer: u64,
    now: i64,
)
    ensures
        pre.accept_offer(signer, carrier_id, offer, payer, now).0 is Err ==> pre.accept_offer(
            signer,
            carrier_id,
            offer,
            payer,
            now,
        ).1 == pre,
{
}

/// An acceptance whose payer cannot cover the collateral fails with
/// `NotEnoughFunds` and mutates nothing, even though every other
/// precondition holds.
pub proof fn lemma_accept_offer_not_enough_funds(
    pre: LedgerV,
    signer: u64,
    carrier_id: u64,
    offer: OfferId,
    payer: u64,
    now: i64,
)
    requires
        pre.wf(),
        pre.carriers.contains_key(carrier_id),
        pre.carriers[carrier_id].authority == signer,
        pre.offers.contains_key(rec_key(offer.owner, offer.no)),
        ({
            let o = pre.offers[rec_key(offer.owner, offer.no)];
            &&& pre.shipments[sid_key(o.shipment)].carrier == 0
            &&& pre.balance_of(payer) < pre.shipments[sid_key(o.shipment)].data.collateral
        }),
    ensures
        pre.accept_offer(signer, carrier_id, offer, payer, now) == (
            Err::<(), Error>(Error::NotEnoughFunds),
            pre,
        ),
{
}

/// What a successful acceptance does, in full: the carrier's task counter
/// advances by exactly one; a task record is created at the address
/// derived from the carrier and the old counter — an address never used
/// before; the consumed offer is gone; and the collateral has moved from
/// the payer into the shipment's custody, which was empty until then.
pub proof fn lemma_accept_offer_success_effects(
    pre: LedgerV,
    signer: u64,
    carrier_id: u64,
    offer: OfferId,
    payer: u64,
    now: i64,
)
    requires
        pre.wf(),
        pre.carriers.contains_key(carrier_id) ==> pre.carriers[carrier_id].tasks_count < u64::MAX,
        pre.accept_offer(signer, carrier_id, offer, payer, now).0 == Ok::<(), Error>(()),
    ensures
        ({
            let post = pre.accept_offer(signer, carrier_id, offer, payer, now).1;
            let cnt = pre.carriers[carrier_id].tasks_count;
            let o = pre.offers[rec_key(offer.owner, offer.no)];
            let coll = pre.shipments[sid_key(o.shipment)].data.collateral;
            &&& post.carriers[carrier_id].tasks_count == cnt + 1
            &&& !pre.tasks.contains_key(rec_key(carrier_id, cnt))
            &&& post.tasks.contains_key(rec_key(carrier_id, cnt))
            &&& post.tasks[rec_key(carrier_id, cnt)] == (AcceptedOffer {
                owner: carrier_id,
                no: cnt,
                shipment: o.shipment,
                details: o.details,
                accepted: now,
            })
            &&& !post.offers.contains_key(rec_key(offer.owner, offer.no))
            &&& post.balance_of(payer) == pre.balance_of(payer) - coll
            &&& pre.custody_of(o.shipment) == 0
            &&& post.custody_of(o.shipment) == coll
            &&& post.shipments[sid_key(o.shipment)].carrier == carrier_id
        }),
{
    let cnt = pre.carriers[carrier_id].tasks_count;
    if pre.tasks.contains_key(rec_key(carrier_id, cnt)) {
        let t = pre.tasks[rec_key(carrier_id, cnt)];
        lemma_rec_key_injective(t.owner, t.no, carrier_id, cnt);
    }
}

/// Shipment sequence numbers are strictly monotonic per shipper and never
/// reused: a new shipment takes the shipper's current counter, whose
/// address never held a record before, and the counter then advances; a
/// rejected listing leaves the ledger unchanged; and no listing ever
/// lowers any shipper's counter.
pub proof fn lemma_create_shipment_sequencing(
    pre: LedgerV,
    caller: u64,
    price: u64,
    name: Name,
    data: ShipmentData,
)
    requires
        pre.wf(),
        pre.shippers.contains_key(caller) ==> pre.shippers[caller].shipments_count < u64::MAX,
    ensures
        ({
            let (r, post) = pre.create_shipment(caller, price, name, data);
            &&& r is Ok ==> {
                let no = pre.shippers[caller].shipments_count;
                &&& !pre.shipments.contains_key(rec_key(caller, no))
                &&& post.shipments.contains_key(rec_key(caller, no))
                &&& no < u64::MAX ==> post.shippers[caller].shipments_count == no + 1
            }
            &&& r is Err ==> post == pre
            &&& forall|w: u64| #[trigger]
                pre.shippers.contains_key(w) ==> post.shippers.contains_key(w)
                    && post.shippers[w].shipments_count >= pre.shippers[w].shipments_count
        }),
{
    if pre.shippers.contains_key(caller) {
        let no = pre.shippers[caller].shipments_count;
        if pre.shipments.contains_key(rec_key(caller, no)) {
            let s = pre.shipments[rec_key(caller, no)];
            lemma_rec_key_injective(s.shipper, s.no, caller, no);
        }
    }
}

/// Offer sequence numbers are strictly monotonic per offering party and
/// never reused, even though accepted offers disappear from the store: a
/// new offer takes the caller's current counter, whose address never held
/// an offer before, and the counter then advances; a rejected offer
/// leaves the ledger unchanged; and no offer ever lowers any party's
/// counter.
pub proof fn lemma_make_offer_sequencing(
    pre: LedgerV,
    caller: u64,
    sid: ShipmentId,
    payment: u64,
    timeout: u32,
    now: i64,
)
    requires
        pre.wf(),
        pre.offer_count_of(caller) < u64::MAX,
    ensures
        ({
            let (r, post) = pre.make_offer(caller, sid, payment, timeout, now);
            &&& r is Ok ==> {
                let no = pre.offer_count_of(caller);
                &&& !pre.offers.contains_key(rec_key(caller, no))
                &&& post.offers.contains_key(rec_key(caller, no))
                &&& no < u64::MAX ==> post.offer_count_of(caller) == no + 1
            }
            &&& r is Err ==> post == pre
            &&& forall|w: u64| post.offer_count_of(w) >= #[trigger] pre.offer_count_of(w)
        }),
{
    let no = pre.offer_count_of(caller);
    if pre.offers.contains_key(rec_key(caller, no)) {
        let o = pre.offers[rec_key(caller, no)];
        lemma_rec_key_injective(o.creator, o.no, caller, no);
    }
}

/// Task sequence numbers are strictly monotonic per carrier and never
/// reused, even though confirmed tasks disappear from the store: a
/// rejected acceptance leaves the ledger unchanged, and no acceptance
/// ever lowers any carrier's task counter.
pub proof fn lemma_accept_offer_task_sequencing(
    pre: LedgerV,
    signer: u64,
    carrier_id: u64,
    offer: OfferId,
    payer: u64,
    now: i64,
)
    requires
        pre.wf(),
        pre.carriers.contains_key(carrier_id) ==> pre.carriers[carrier_id].tasks_count < u64::MAX,
    ensures
        ({
            let (r, post) = pre.accept_offer(signer, carrier_id, offer, payer, now);
            &&& r is Err ==> post == pre
            &&& forall|w: u64| #[trigger]
                pre.carriers.contains_key(w) ==> post.carriers.contains_key(w)
                    && post.carriers[w].tasks_count >= pre.carriers[w].tasks_count
        }),
{
}

/// Confirmation is owed: while a task exists, its shipment is in transit
/// and assigned to the task's carrier, and the confirmation by the
/// shipment's shipper succeeds.
pub proof fn lemma_confirm_delivery_owed(pre: LedgerV, caller: u64, task_owner: u64, task_no: u64)
    requires
        pre.wf(),
        pre.tasks.contains_key(rec_key(task_owner, task_no)),
        caller == pre.shipments[sid_key(pre.tasks[rec_key(task_owner, task_no)].shipment)].shipper,
    ensures
        pre.confirm_delivery(caller, task_owner, task_no).0 == Ok::<(), Error>(()),
{
}

/// Confirmation is irreversible and possible exactly once: after a
/// successful confirmation the task is gone, the shipment is delivered,
/// its custody is empty, and confirming the same task again finds
/// nothing.
pub proof fn lemma_confirm_delivery_once(pre: LedgerV, caller: u64, task_owner: u64, task_no: u64)
    requires
        pre.wf(),
        pre.confirm_delivery(caller, task_owner, task_no).0 == Ok::<(), Error>(()),
    ensures
        ({
            let post = pre.confirm_delivery(caller, task_owner, task_no).1;
            let t = pre.tasks[rec_key(task_owner, task_no)];
            &&& !post.tasks.contains_key(rec_key(task_owner, task_no))
            &&& post.shipments[sid_key(t.shipment)].status == ShipmentStatus::Delivered
            &&& post.custody_of(t.shipment) == 0
            &&& post.confirm_delivery(caller, task_owner, task_no).0 == Err::<(), Error>(
                Error::NotFound,
            )
        }),
{
}

/// In a well-formed ledger, every channel's message sequence numbers are
/// contiguous and start at one.
pub proof fn lemma_channel_messages_contiguous(m: LedgerV, i: int)
    requires
        m.wf(),
        0 <= i < m.channels.len(),
    ensures
        forall|j: int|
            0 <= j < m.channels[i].messages.len() ==> (#[trigger] m.channels[i].messages[j]).no == j
                + 1,
{
    assert(m.channel_ok(m.channels[i]));
}

/// Sending with a sequence number that is not exactly one past the
/// channel's last message is rejected as `OutOfSequence` and leaves the
/// ledger — the channel included — unchanged.
pub proof fn lemma_send_message_out_of_sequence(
    pre: LedgerV,
    caller: u64,
    sid: ShipmentId,
    key: u64,
    message: Message,
)
    requires
        pre.has_channel(sid, caller),
        pre.channels[pre.channel_index(sid, caller)].key == key,
        message.no != pre.channels[pre.channel_index(sid, caller)].messages.len() + 1,
    ensures
        pre.send_message(caller, sid, key, message) == (
            Err::<(), Error>(Error::OutOfSequence),
            pre,
        ),
{
}

} // verus!
