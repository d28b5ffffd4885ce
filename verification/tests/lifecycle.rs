use freight_ledger::data::Availability;
use freight_ledger::data::Name;
use freight_ledger::data::OfferId;
use freight_ledger::data::ShipmentData;
use freight_ledger::data::ShipmentId;
use freight_ledger::data::ShipmentStatus;
use freight_ledger::errors::Error;
use freight_ledger::events::Event;
use freight_ledger::events::OfferAccepted;
use freight_ledger::events::OfferMade;
use freight_ledger::events::ShipmentCreated;
use freight_ledger::events::ShipmentStatusUpdated;
use freight_ledger::ledger::Ledger;

const SHIPPER: u64 = 1;
const CARRIER: u64 = 2;
const FORWARDER: u64 = 3;
const OTHER_CARRIER: u64 = 4;

fn name(tag: u8) -> Name {
    Name { bytes: [tag; 32] }
}

fn data(collateral: u64) -> ShipmentData {
    ShipmentData { collateral }
}

/// A ledger with the three parties registered and shipment #0 listed
/// with price 10 and collateral 100.
fn listed_ledger() -> Ledger {
    let mut l = Ledger::initialize_state();
    assert_eq!(l.register_shipper(SHIPPER, name(1)), Ok(()));
    assert_eq!(l.register_carrier(CARRIER, name(2), None), Ok(()));
    assert_eq!(l.register_forwarder(FORWARDER, name(3)), Ok(()));
    assert_eq!(l.create_shipment(SHIPPER, 10, name(4), data(100)), Ok(()));
    l
}

#[test]
fn register_shipper_once() {
    let mut l = Ledger::initialize_state();
    assert_eq!(l.register_shipper(SHIPPER, name(1)), Ok(()));
    let s = l.get_shipper(SHIPPER).unwrap();
    assert_eq!(s.creator, SHIPPER);
    assert_eq!(s.name, name(1));
    assert_eq!(s.shipments_count, 0);
    assert_eq!(l.register_shipper(SHIPPER, name(9)), Err(Error::AlreadyRegistered));
    assert_eq!(l.get_shipper(SHIPPER).unwrap().name, name(1));
}

#[test]
fn register_forwarder_once() {
    let mut l = Ledger::initialize_state();
    assert_eq!(l.register_forwarder(FORWARDER, name(3)), Ok(()));
    assert_eq!(l.get_forwarder(FORWARDER).unwrap().creator, FORWARDER);
    assert_eq!(l.register_forwarder(FORWARDER, name(3)), Err(Error::AlreadyRegistered));
}

#[test]
fn register_carrier_defaults_to_available() {
    let mut l = Ledger::initialize_state();
    assert_eq!(l.register_carrier(CARRIER, name(2), None), Ok(()));
    let c = l.get_carrier(CARRIER).unwrap();
    assert_eq!(c.availability, Availability::Available);
    assert_eq!(c.authority, CARRIER);
    assert_eq!(c.tasks_count, 0);
    assert_eq!(
        l.register_carrier(CARRIER, name(2), Some(Availability::Unavailable)),
        Err(Error::AlreadyRegistered)
    );
    let mut l2 = Ledger::initialize_state();
    assert_eq!(l2.register_carrier(CARRIER, name(2), Some(Availability::Unavailable)), Ok(()));
    assert_eq!(l2.get_carrier(CARRIER).unwrap().availability, Availability::Unavailable);
}

#[test]
fn create_shipment_requires_registration() {
    let mut l = Ledger::initialize_state();
    assert_eq!(
        l.create_shipment(SHIPPER, 10, name(4), data(100)),
        Err(Error::SignerNotAnAuthority)
    );
    assert_eq!(l.register_shipper(SHIPPER, name(1)), Ok(()));
    assert_eq!(l.create_shipment(SHIPPER, 10, name(4), data(100)), Ok(()));
    let s = l.get_shipment(ShipmentId { shipper: SHIPPER, no: 0 }).unwrap();
    assert_eq!(s.status, ShipmentStatus::Listed);
    assert_eq!(s.carrier, 0);
    assert_eq!(s.forwarder, 0);
    assert_eq!(s.price, 10);
    assert_eq!(s.data.collateral, 100);
    assert_eq!(l.get_shipper(SHIPPER).unwrap().shipments_count, 1);
    assert_eq!(
        l.events()[0],
        Event::ShipmentCreated(ShipmentCreated {
            shipper: SHIPPER,
            shipment: ShipmentId { shipper: SHIPPER, no: 0 },
        })
    );
}

#[test]
fn shipment_numbers_are_monotonic() {
    let mut l = listed_ledger();
    assert_eq!(l.create_shipment(SHIPPER, 20, name(5), data(7)), Ok(()));
    assert_eq!(l.get_shipper(SHIPPER).unwrap().shipments_count, 2);
    let first = l.get_shipment(ShipmentId { shipper: SHIPPER, no: 0 }).unwrap();
    let second = l.get_shipment(ShipmentId { shipper: SHIPPER, no: 1 }).unwrap();
    assert_eq!(first.price, 10);
    assert_eq!(second.price, 20);
}

#[test]
fn buy_shipment_transfers_price_and_assigns_carrier() {
    let mut l = listed_ledger();
    l.deposit(CARRIER, 30);
    let sid = ShipmentId { shipper: SHIPPER, no: 0 };
    assert_eq!(l.buy_shipment(CARRIER, sid), Ok(()));
    assert_eq!(l.balance_of(CARRIER), 20);
    assert_eq!(l.balance_of(SHIPPER), 10);
    let s = l.get_shipment(sid).unwrap();
    assert_eq!(s.carrier, CARRIER);
    assert_eq!(s.status, ShipmentStatus::Sold);
    assert_eq!(l.buy_shipment(OTHER_CARRIER, sid), Err(Error::ShipmentSold));
}

#[test]
fn buy_shipment_not_enough_funds_mutates_nothing() {
    let mut l = listed_ledger();
    l.deposit(CARRIER, 9);
    let before = l.clone();
    assert_eq!(
        l.buy_shipment(CARRIER, ShipmentId { shipper: SHIPPER, no: 0 }),
        Err(Error::NotEnoughFunds)
    );
    assert_eq!(l, before);
}

#[test]
fn buy_shipment_unknown_shipment() {
    let mut l = listed_ledger();
    assert_eq!(
        l.buy_shipment(CARRIER, ShipmentId { shipper: SHIPPER, no: 5 }),
        Err(Error::NotFound)
    );
}

#[test]
fn make_offer_requires_a_role() {
    let mut l = listed_ledger();
    let sid = ShipmentId { shipper: SHIPPER, no: 0 };
    assert_eq!(l.make_offer(99, sid, 90, 3600, 5), Err(Error::SignerNotAnAuthority));
    assert_eq!(l.make_offer(FORWARDER, sid, 90, 3600, 5), Ok(()));
    let o = l.get_offer(OfferId { owner: FORWARDER, no: 0 }).unwrap();
    assert_eq!(o.creator, FORWARDER);
    assert_eq!(o.shipment, sid);
    assert_eq!(o.details.payment, 90);
    assert_eq!(o.details.timeout, 3600);
    assert_eq!(o.made_at, 5);
    assert_eq!(l.offer_count_of(FORWARDER), 1);
    assert_eq!(l.get_shipment(sid).unwrap().forwarder, FORWARDER);
    assert_eq!(
        l.events()[1],
        Event::OfferMade(OfferMade {
            from: FORWARDER,
            to: SHIPPER,
            offer: OfferId { owner: FORWARDER, no: 0 },
            shipment: sid,
        })
    );
}

#[test]
fn make_offer_on_missing_or_sold_shipment() {
    let mut l = listed_ledger();
    assert_eq!(
        l.make_offer(FORWARDER, ShipmentId { shipper: SHIPPER, no: 9 }, 90, 3600, 5),
        Err(Error::NotFound)
    );
    l.deposit(CARRIER, 10);
    let sid = ShipmentId { shipper: SHIPPER, no: 0 };
    assert_eq!(l.buy_shipment(CARRIER, sid), Ok(()));
    assert_eq!(l.make_offer(FORWARDER, sid, 90, 3600, 5), Err(Error::ShipmentSold));
}

#[test]
fn accept_offer_end_to_end() {
    let mut l = listed_ledger();
    let sid = ShipmentId { shipper: SHIPPER, no: 0 };
    assert_eq!(l.register_carrier(OTHER_CARRIER, name(6), None), Ok(()));
    assert_eq!(l.make_offer(FORWARDER, sid, 90, 3600, 5), Ok(()));
    assert_eq!(l.make_offer(FORWARDER, sid, 95, 3600, 5), Ok(()));
    l.deposit(CARRIER, 150);
    l.deposit(OTHER_CARRIER, 1000);
    let offer = OfferId { owner: FORWARDER, no: 0 };
    assert_eq!(l.accept_offer(CARRIER, CARRIER, offer, CARRIER, 6), Ok(()));
    let s = l.get_shipment(sid).unwrap();
    assert_eq!(s.carrier, CARRIER);
    assert_eq!(s.status, ShipmentStatus::InTransit);
    let t = l.get_task(CARRIER, 0).unwrap();
    assert_eq!(t.owner, CARRIER);
    assert_eq!(t.no, 0);
    assert_eq!(t.shipment, sid);
    assert_eq!(t.details.payment, 90);
    assert_eq!(t.details.timeout, 3600);
    assert_eq!(t.accepted, 6);
    assert!(l.get_offer(offer).is_none());
    assert_eq!(l.custody_of(sid), 100);
    assert_eq!(l.balance_of(CARRIER), 50);
    let events = l.events();
    assert_eq!(
        events[3],
        Event::ShipmentStatusUpdated(ShipmentStatusUpdated {
            shipment: sid,
            status: ShipmentStatus::InTransit,
        })
    );
    assert_eq!(
        events[4],
        Event::OfferAccepted(OfferAccepted {
            from: FORWARDER,
            to: SHIPPER,
            offer,
            shipment: sid,
        })
    );
    // any later acceptance against the same shipment fails
    let second = OfferId { owner: FORWARDER, no: 1 };
    assert_eq!(
        l.accept_offer(OTHER_CARRIER, OTHER_CARRIER, second, OTHER_CARRIER, 7),
        Err(Error::ShipmentSold)
    );
}

#[test]
fn accept_offer_succeeds_at_most_once_per_shipment() {
    let mut l = listed_ledger();
    let sid = ShipmentId { shipper: SHIPPER, no: 0 };
    assert_eq!(l.register_carrier(OTHER_CARRIER, name(6), None), Ok(()));
    assert_eq!(l.make_offer(FORWARDER, sid, 90, 3600, 5), Ok(()));
    assert_eq!(l.make_offer(FORWARDER, sid, 95, 7200, 5), Ok(()));
    l.deposit(CARRIER, 150);
    l.deposit(OTHER_CARRIER, 1000);
    assert_eq!(
        l.accept_offer(CARRIER, CARRIER, OfferId { owner: FORWARDER, no: 0 }, CARRIER, 6),
        Ok(())
    );
    let before = l.clone();
    assert_eq!(
        l.accept_offer(OTHER_CARRIER, OTHER_CARRIER, OfferId { owner: FORWARDER, no: 1 }, OTHER_CARRIER, 7),
        Err(Error::ShipmentSold)
    );
    assert_eq!(l, before);
    assert_eq!(l.get_shipment(sid).unwrap().carrier, CARRIER);
    assert_eq!(l.custody_of(sid), 100);
}

#[test]
fn accept_offer_not_enough_funds_mutates_nothing() {
    let mut l = listed_ledger();
    let sid = ShipmentId { shipper: SHIPPER, no: 0 };
    assert_eq!(l.make_offer(FORWARDER, sid, 90, 3600, 5), Ok(()));
    l.deposit(CARRIER, 99);
    let before = l.clone();
    assert_eq!(
        l.accept_offer(CARRIER, CARRIER, OfferId { owner: FORWARDER, no: 0 }, CARRIER, 6),
        Err(Error::NotEnoughFunds)
    );
    assert_eq!(l, before);
    assert_eq!(l.get_shipment(sid).unwrap().status, ShipmentStatus::Listed);
    assert!(l.get_offer(OfferId { owner: FORWARDER, no: 0 }).is_some());
    assert!(l.get_task(CARRIER, 0).is_none());
    assert_eq!(l.custody_of(sid), 0);
}

#[test]
fn accept_offer_checks_signer_and_records() {
    let mut l = listed_ledger();
    let sid = ShipmentId { shipper: SHIPPER, no: 0 };
    assert_eq!(l.make_offer(FORWARDER, sid, 90, 3600, 5), Ok(()));
    l.deposit(CARRIER, 150);
    let offer = OfferId { owner: FORWARDER, no: 0 };
    // a signer that is not the carrier's authority
    assert_eq!(
        l.accept_offer(OTHER_CARRIER, CARRIER, offer, CARRIER, 6),
        Err(Error::SignerNotAnAuthority)
    );
    // an unregistered carrier record
    assert_eq!(
        l.accept_offer(OTHER_CARRIER, OTHER_CARRIER, offer, CARRIER, 6),
        Err(Error::NotFound)
    );
    // a missing offer
    assert_eq!(
        l.accept_offer(CARRIER, CARRIER, OfferId { owner: FORWARDER, no: 3 }, CARRIER, 6),
        Err(Error::NotFound)
    );
}

#[test]
fn task_numbers_are_never_reused() {
    let mut l = listed_ledger();
    let first = ShipmentId { shipper: SHIPPER, no: 0 };
    assert_eq!(l.create_shipment(SHIPPER, 10, name(5), data(40)), Ok(()));
    let second = ShipmentId { shipper: SHIPPER, no: 1 };
    assert_eq!(l.make_offer(FORWARDER, first, 90, 3600, 5), Ok(()));
    assert_eq!(l.make_offer(FORWARDER, second, 80, 3600, 5), Ok(()));
    l.deposit(CARRIER, 200);
    assert_eq!(
        l.accept_offer(CARRIER, CARRIER, OfferId { owner: FORWARDER, no: 0 }, CARRIER, 6),
        Ok(())
    );
    assert_eq!(l.confirm_delivery(SHIPPER, CARRIER, 0), Ok(()));
    assert!(l.get_task(CARRIER, 0).is_none());
    assert_eq!(
        l.accept_offer(CARRIER, CARRIER, OfferId { owner: FORWARDER, no: 1 }, CARRIER, 7),
        Ok(())
    );
    // the second task takes the next number; the closed task's address
    // stays vacant
    assert!(l.get_task(CARRIER, 0).is_none());
    assert_eq!(l.get_task(CARRIER, 1).unwrap().shipment, second);
    assert_eq!(l.get_carrier(CARRIER).unwrap().tasks_count, 2);
}

#[test]
fn failed_attempts_do_not_advance_counters() {
    let mut l = listed_ledger();
    let sid = ShipmentId { shipper: SHIPPER, no: 0 };
    l.deposit(CARRIER, 10);
    assert_eq!(l.buy_shipment(CARRIER, sid), Ok(()));
    let before = l.clone();
    assert_eq!(l.create_shipment(99, 10, name(5), data(1)), Err(Error::SignerNotAnAuthority));
    assert_eq!(l.make_offer(FORWARDER, sid, 90, 3600, 5), Err(Error::ShipmentSold));
    assert_eq!(l, before);
    assert_eq!(l.get_shipper(SHIPPER).unwrap().shipments_count, 1);
    assert_eq!(l.offer_count_of(FORWARDER), 0);
}

#[test]
fn confirm_delivery_releases_escrow_once() {
    let mut l = listed_ledger();
    let sid = ShipmentId { shipper: SHIPPER, no: 0 };
    assert_eq!(l.make_offer(FORWARDER, sid, 90, 3600, 5), Ok(()));
    l.deposit(CARRIER, 150);
    assert_eq!(
        l.accept_offer(CARRIER, CARRIER, OfferId { owner: FORWARDER, no: 0 }, CARRIER, 6),
        Ok(())
    );
    // only the shipment's shipper may confirm
    assert_eq!(l.confirm_delivery(CARRIER, CARRIER, 0), Err(Error::SignerNotAnAuthority));
    assert_eq!(l.confirm_delivery(SHIPPER, CARRIER, 0), Ok(()));
    assert_eq!(l.balance_of(CARRIER), 150);
    assert_eq!(l.custody_of(sid), 0);
    let s = l.get_shipment(sid).unwrap();
    assert_eq!(s.status, ShipmentStatus::Delivered);
    assert!(l.get_task(CARRIER, 0).is_none());
    // a second confirmation finds no task
    assert_eq!(l.confirm_delivery(SHIPPER, CARRIER, 0), Err(Error::NotFound));
}

#[test]
fn confirm_delivery_requires_a_task() {
    let mut l = listed_ledger();
    assert_eq!(l.confirm_delivery(SHIPPER, CARRIER, 0), Err(Error::NotFound));
}
