//! The executable ledger.
//!
//! [`Ledger`] holds the records in keyed stores and exposes the
//! operations of the marketplace. Every operation's contract says that it
//! behaves exactly like the corresponding transition of the abstract
//! model: the pair of its result and the state it leaves behind equals
//! the pair the transition computes, and well-formedness is preserved.

use std::collections::HashMap;

use vstd::prelude::*;

use crate::data::AcceptedOffer;
use crate::data::Availability;
use crate::data::Carrier;
use crate::data::Channel;
use crate::data::Forwarder;
use crate::data::Message;
use crate::data::Name;
use crate::data::OfferDetails;
use crate::data::OfferId;
use crate::data::Shipment;
use crate::data::ShipmentData;
use crate::data::ShipmentId;
use crate::data::ShipmentOffer;
use crate::data::ShipmentStatus;
use crate::data::Shipper;
use crate::data::lemma_rec_key_injective;
use crate::data::make_rec_key;
use crate::data::rec_key;
use crate::errors::Error;
use crate::events::Event;
use crate::events::OfferAccepted;
use crate::events::OfferMade;
use crate::events::ShipmentCreated;
use crate::events::ShipmentStatusUpdated;
use crate::events::ShipmentTransferred;
use crate::model::ChannelV;
use crate::model::LedgerV;
use crate::model::channel_matches;
use crate::model::lemma_channel_index;
use crate::model::sid_key;

verus! {

broadcast use vstd::std_specs::hash::group_hash_axioms;

/// The ledger: every record keyed by its derived address, the parties'
/// balances, the escrowed collateral, and the event log.
#[derive(Clone, Debug, PartialEq)]
pub struct Ledger {
    shippers: HashMap<u64, Shipper>,
    forwarders: HashMap<u64, Forwarder>,
    carriers: HashMap<u64, Carrier>,
    shipments: HashMap<u128, Shipment>,
    offers: HashMap<u128, ShipmentOffer>,
    offer_counts: HashMap<u64, u64>,
    tasks: HashMap<u128, AcceptedOffer>,
    channels: Vec<Channel>,
    balances: HashMap<u64, u64>,
    custody: HashMap<u128, u64>,
    events: Vec<Event>,
}

impl View for Channel {
    type V = ChannelV;

    open spec fn view(&self) -> ChannelV {
        ChannelV {
            shipment: self.shipment,
            opener: self.opener,
            key: self.key,
            messages: self.messages@,
        }
    }
}

impl View for Ledger {
    type V = LedgerV;

    closed spec fn view(&self) -> LedgerV {
        LedgerV {
            shippers: self.shippers@,
            forwarders: self.forwarders@,
            carriers: self.carriers@,
            shipments: self.shipments@,
            offers: self.offers@,
            offer_counts: self.offer_counts@,
            tasks: self.tasks@,
            channels: self.channels@.map_values(|c: Channel| c@),
            balances: self.balances@,
            custody: self.custody@,
            events: self.events@,
        }
    }
}

impl Ledger {
    /// Creates the empty ledger that all operations grow from.
    pub fn initialize_state() -> (l: Ledger)
        ensures
            l@ == LedgerV::initial(),
            l@.wf(),
    {
        let l = Ledger {
            shippers: HashMap::new(),
            forwarders: HashMap::new(),
            carriers: HashMap::new(),
            shipments: HashMap::new(),
            offers: HashMap::new(),
            offer_counts: HashMap::new(),
            tasks: HashMap::new(),
            channels: Vec::new(),
            balances: HashMap::new(),
            custody: HashMap::new(),
            events: Vec::new(),
        };
        proof {
            assert(l@.channels =~= LedgerV::initial().channels);
            assert(l@ =~= LedgerV::initial());
        }
        l
    }

    /// The environment credits a party's balance; see
    /// [`LedgerV::deposit`].
    pub fn deposit(&mut self, who: u64, amount: u64)
        requires
            old(self)@.wf(),
            old(self)@.balance_of(who) + amount <= u64::MAX,
        ensures
            final(self)@ == old(self)@.deposit(who, amount),
            final(self)@.wf(),
    {
        let bal = self.balance_of(who);
        self.balances.insert(who, bal + amount);
        proof {
            assert(self@ =~= old(self)@.deposit(who, amount));
        }
    }

    /// A party's balance; a party without an entry holds nothing.
    pub fn balance_of(&self, who: u64) -> (r: u64)
        ensures
            r == self@.balance_of(who),
    {
        match self.balances.get(&who) {
            Some(b) => *b,
            None => 0,
        }
    }

    /// The collateral held under a shipment's address.
    pub fn custody_of(&self, sid: ShipmentId) -> (r: u64)
        ensures
            r == self@.custody_of(sid),
    {
        let k = make_rec_key(sid.shipper, sid.no);
        match self.custody.get(&k) {
            Some(c) => *c,
            None => 0,
        }
    }

    /// The next offer sequence number of a party.
    pub fn offer_count_of(&self, who: u64) -> (r: u64)
        ensures
            r == self@.offer_count_of(who),
    {
        match self.offer_counts.get(&who) {
            Some(c) => *c,
            None => 0,
        }
    }

    /// The shipper record registered under an identity, if any.
    pub fn get_shipper(&self, who: u64) -> (r: Option<Shipper>)
        ensures
            r == (if self@.shippers.contains_key(who) {
                Some(self@.shippers[who])
            } else {
                None::<Shipper>
            }),
    {
        match self.shippers.get(&who) {
            Some(s) => Some(*s),
            None => None,
        }
    }

    /// The forwarder record registered under an identity, if any.
    pub fn get_forwarder(&self, who: u64) -> (r: Option<Forwarder>)
        ensures
            r == (if self@.forwarders.contains_key(who) {
                Some(self@.forwarders[who])
            } else {
                None::<Forwarder>
            }),
    {
        match self.forwarders.get(&who) {
            Some(f) => Some(*f),
            None => None,
        }
    }

    /// The carrier record registered under an identity, if any.
    pub fn get_carrier(&self, who: u64) -> (r: Option<Carrier>)
        ensures
            r == (if self@.carriers.contains_key(who) {
                Some(self@.carriers[who])
            } else {
                None::<Carrier>
            }),
    {
        match self.carriers.get(&who) {
            Some(c) => Some(*c),
            None => None,
        }
    }

    /// The shipment stored under a shipment address, if any.
    pub fn get_shipment(&self, sid: ShipmentId) -> (r: Option<Shipment>)
        ensures
            r == (if self@.shipments.contains_key(sid_key(sid)) {
                Some(self@.shipments[sid_key(sid)])
            } else {
                None::<Shipment>
            }),
    {
        let k = make_rec_key(sid.shipper, sid.no);
        match self.shipments.get(&k) {
            Some(s) => Some(*s),
            None => None,
        }
    }

    /// The open offer stored under an offer address, if any.
    pub fn get_offer(&self, offer: OfferId) -> (r: Option<ShipmentOffer>)
        ensures
            r == (if self@.offers.contains_key(rec_key(offer.owner, offer.no)) {
                Some(self@.offers[rec_key(offer.owner, offer.no)])
            } else {
                None::<ShipmentOffer>
            }),
    {
        let k = make_rec_key(offer.owner, offer.no);
        match self.offers.get(&k) {
            Some(o) => Some(*o),
            None => None,
        }
    }

    /// The in-flight task stored under a task address, if any.
    pub fn get_task(&self, owner: u64, no: u64) -> (r: Option<AcceptedOffer>)
        ensures
            r == (if self@.tasks.contains_key(rec_key(owner, no)) {
                Some(self@.tasks[rec_key(owner, no)])
            } else {
                None::<AcceptedOffer>
            }),
    {
        let k = make_rec_key(owner, no);
        match self.tasks.get(&k) {
            Some(t) => Some(*t),
            None => None,
        }
    }

    /// The event log.
    pub fn events(&self) -> (r: &Vec<Event>)
        ensures
            r@ == self@.events,
    {
        &self.events
    }

    /// Registers the caller as a shipper; see
    /// [`LedgerV::register_shipper`].
    pub fn register_shipper(&mut self, caller: u64, name: Name) -> (r: Result<(), Error>)
        requires
            old(self)@.wf(),
            caller != 0,
        ensures
            ({
                let (res, post) = old(self)@.register_shipper(caller, name);
                r == res && final(self)@ == post
            }),
            final(self)@.wf(),
    {
        if self.shippers.contains_key(&caller) {
            return Err(Error::AlreadyRegistered);
        }
        self.shippers.insert(caller, Shipper { creator: caller, name, shipments_count: 0 });
        proof {
            assert(self@ =~= old(self)@.register_shipper(caller, name).1);
        }
        Ok(())
    }

    /// Registers the caller as a forwarder; see
    /// [`LedgerV::register_forwarder`].
    pub fn register_forwarder(&mut self, caller: u64, name: Name) -> (r: Result<(), Error>)
        requires
            old(self)@.wf(),
            caller != 0,
        ensures
            ({
                let (res, post) = old(self)@.register_forwarder(caller, name);
                r == res && final(self)@ == post
            }),
            final(self)@.wf(),
    {
        if self.forwarders.contains_key(&caller) {
            return Err(Error::AlreadyRegistered);
        }
        self.forwarders.insert(caller, Forwarder { creator: caller, name });
        proof {
            assert(self@ =~= old(self)@.register_forwarder(caller, name).1);
        }
        Ok(())
    }

    /// Registers the caller as a carrier; see
    /// [`LedgerV::register_carrier`].
    pub fn register_carrier(
        &mut self,
        caller: u64,
        name: Name,
        availability: Option<Availability>,
    ) -> (r: Result<(), Error>)
        requires
            old(self)@.wf(),
            caller != 0,
        ensures
            ({
                let (res, post) = old(self)@.register_carrier(caller, name, availability);
                r == res && final(self)@ == post
            }),
            final(self)@.wf(),
    {
        if self.carriers.contains_key(&caller) {
            return Err(Error::AlreadyRegistered);
        }
        let avail = match availability {
            Some(a) => a,
            None => Availability::Available,
        };
        self.carriers.insert(
            caller,
            Carrier {
                creator: caller,
                authority: caller,
                name,
                availability: avail,
                tasks_count: 0,
            },
        );
        proof {
            assert(self@ =~= old(self)@.register_carrier(caller, name, availability).1);
        }
        Ok(())
    }

    /// Lists a new shipment under the caller's next sequence number; see
    /// [`LedgerV::create_shipment`].
    pub fn create_shipment(
        &mut self,
        caller: u64,
        price: u64,
        name: Name,
        data: ShipmentData,
    ) -> (r: Result<(), Error>)
        requires
            old(self)@.wf(),
            old(self)@.shippers.contains_key(caller) ==> old(self)@.shippers[caller].shipments_count
                < u64::MAX,
        ensures
            ({
                let (res, post) = old(self)@.create_shipment(caller, price, name, data);
                r == res && final(self)@ == post
            }),
            final(self)@.wf(),
    {
        let sh = match self.shippers.get(&caller) {
            Some(sh) => *sh,
            None => {
                return Err(Error::SignerNotAnAuthority);
            },
        };
        let no = sh.shipments_count;
        let k = make_rec_key(caller, no);
        proof {
            if old(self)@.shipments.contains_key(rec_key(caller, no)) {
                let stale = old(self)@.shipments[rec_key(caller, no)];
                lemma_rec_key_injective(stale.shipper, stale.no, caller, no);
            }
        }
        self.shippers.insert(caller, Shipper { shipments_count: no + 1, ..sh });
        self.shipments.insert(
            k,
            Shipment {
                shipper: caller,
                no,
                price,
                name,
                data,
                carrier: 0,
                status: ShipmentStatus::Listed,
                forwarder: 0,
            },
        );
        self.events.push(
            Event::ShipmentCreated(
                ShipmentCreated { shipper: caller, shipment: ShipmentId { shipper: caller, no } },
            ),
        );
        proof {
            assert(self@ =~= old(self)@.create_shipment(caller, price, name, data).1);
        }
        Ok(())
    }

    /// Direct fixed-price purchase of a listed shipment; see
    /// [`LedgerV::buy_shipment`].
    pub fn buy_shipment(&mut self, buyer: u64, sid: ShipmentId) -> (r: Result<(), Error>)
        requires
            old(self)@.wf(),
            buyer != 0,
            ({
                let k = sid_key(sid);
                old(self)@.shipments.contains_key(k) && buyer != old(self)@.shipments[k].shipper
                    ==> old(self)@.balance_of(old(self)@.shipments[k].shipper)
                    + old(self)@.shipments[k].price <= u64::MAX
            }),
        ensures
            ({
                let (res, post) = old(self)@.buy_shipment(buyer, sid);
                r == res && final(self)@ == post
            }),
            final(self)@.wf(),
    {
        let k = make_rec_key(sid.shipper, sid.no);
        let s = match self.shipments.get(&k) {
            Some(s) => *s,
            None => {
                return Err(Error::NotFound);
            },
        };
        if s.carrier != 0 {
            return Err(Error::ShipmentSold);
        }
        let bal = self.balance_of(buyer);
        if bal < s.price {
            return Err(Error::NotEnoughFunds);
        }
        self.balances.insert(buyer, bal - s.price);
        let seller_bal = self.balance_of(s.shipper);
        self.balances.insert(s.shipper, seller_bal + s.price);
        self.shipments.insert(k, Shipment { carrier: buyer, status: ShipmentStatus::Sold, ..s });
        self.events.push(
            Event::ShipmentTransferred(
                ShipmentTransferred {
                    seller: s.shipper,
                    buyer,
                    shipment: sid,
                    forwarded: s.forwarder,
                },
            ),
        );
        proof {
            assert(self@ =~= old(self)@.buy_shipment(buyer, sid).1);
        }
        Ok(())
    }

    /// Makes a non-binding offer against an unsold shipment; see
    /// [`LedgerV::make_offer`].
    pub fn make_offer(
        &mut self,
        caller: u64,
        sid: ShipmentId,
        payment: u64,
        timeout: u32,
        now: i64,
    ) -> (r: Result<(), Error>)
        requires
            old(self)@.wf(),
            old(self)@.offer_count_of(caller) < u64::MAX,
        ensures
            ({
                let (res, post) = old(self)@.make_offer(caller, sid, payment, timeout, now);
                r == res && final(self)@ == post
            }),
            final(self)@.wf(),
    {
        if !(self.forwarders.contains_key(&caller) || self.carriers.contains_key(&caller)) {
            return Err(Error::SignerNotAnAuthority);
        }
        let k = make_rec_key(sid.shipper, sid.no);
        let s = match self.shipments.get(&k) {
            Some(s) => *s,
            None => {
                return Err(Error::NotFound);
            },
        };
        if s.carrier != 0 {
            return Err(Error::ShipmentSold);
        }
        let no = self.offer_count_of(caller);
        let ok = make_rec_key(caller, no);
        self.offers.insert(
            ok,
            ShipmentOffer {
                creator: caller,
                no,
                shipment: sid,
                details: OfferDetails { payment, timeout },
                made_at: now,
            },
        );
        self.offer_counts.insert(caller, no + 1);
        self.shipments.insert(k, Shipment { forwarder: caller, ..s });
        self.events.push(
            Event::OfferMade(
                OfferMade {
                    from: caller,
                    to: s.shipper,
                    offer: OfferId { owner: caller, no },
                    shipment: sid,
                },
            ),
        );
        proof {
            assert(self@ =~= old(self)@.make_offer(caller, sid, payment, timeout, now).1);
        }
        Ok(())
    }

    /// A carrier accepts an offer: the system's central transactional
    /// operation; see [`LedgerV::accept_offer`]. All preconditions are
    /// validated before the first mutation, so a rejected acceptance has
    /// no effect at all.
    pub fn accept_offer(
        &mut self,
        signer: u64,
        carrier_id: u64,
        offer: OfferId,
        payer: u64,
        now: i64,
    ) -> (r: Result<(), Error>)
        requires
            old(self)@.wf(),
            old(self)@.carriers.contains_key(carrier_id) ==> old(self)@.carriers[carrier_id].tasks_count
                < u64::MAX,
        ensures
            ({
                let (res, post) = old(self)@.accept_offer(signer, carrier_id, offer, payer, now);
                r == res && final(self)@ == post
            }),
            final(self)@.wf(),
    {
        let c = match self.carriers.get(&carrier_id) {
            Some(c) => *c,
            None => {
                return Err(Error::NotFound);
            },
        };
        if c.authority != signer {
            return Err(Error::SignerNotAnAuthority);
        }
        let ok = make_rec_key(offer.owner, offer.no);
        let o = match self.offers.get(&ok) {
            Some(o) => *o,
            None => {
                return Err(Error::NotFound);
            },
        };
        let sk = make_rec_key(o.shipment.shipper, o.shipment.no);
        let s = match self.shipments.get(&sk) {
            Some(s) => *s,
            None => {
                return Err(Error::NotFound);
            },
        };
        if s.carrier != 0 {
            return Err(Error::ShipmentSold);
        }
        let bal = self.balance_of(payer);
        if bal < s.data.collateral {
            return Err(Error::NotEnoughFunds);
        }
        self.shipments.insert(
            sk,
            Shipment { carrier: carrier_id, status: ShipmentStatus::InTransit, ..s },
        );
        let tk = make_rec_key(carrier_id, c.tasks_count);
        self.tasks.insert(
            tk,
            AcceptedOffer {
                owner: carrier_id,
                no: c.tasks_count,
                shipment: o.shipment,
                details: o.details,
                accepted: now,
            },
        );
        self.carriers.insert(carrier_id, Carrier { tasks_count: c.tasks_count + 1, ..c });
        self.offers.remove(&ok);
        self.balances.insert(payer, bal - s.data.collateral);
        self.custody.insert(sk, s.data.collateral);
        self.events.push(
            Event::ShipmentStatusUpdated(
                ShipmentStatusUpdated {
                    shipment: o.shipment,
                    status: ShipmentStatus::InTransit,
                },
            ),
        );
        self.events.push(
            Event::OfferAccepted(
                OfferAccepted { from: s.forwarder, to: s.shipper, offer, shipment: o.shipment },
            ),
        );
        proof {
            assert(self@ =~= old(self)@.accept_offer(signer, carrier_id, offer, payer, now).1);
        }
        Ok(())
    }

    /// The shipment's shipper confirms delivery, releasing the escrowed
    /// collateral to the task's carrier; see
    /// [`LedgerV::confirm_delivery`].
    pub fn confirm_delivery(&mut self, caller: u64, task_owner: u64, task_no: u64) -> (r: Result<
        (),
        Error,
    >)
        requires
            old(self)@.wf(),
            ({
                let tk = rec_key(task_owner, task_no);
                old(self)@.tasks.contains_key(tk) ==> old(self)@.balance_of(
                    old(self)@.tasks[tk].owner,
                ) + old(self)@.custody_of(old(self)@.tasks[tk].shipment) <= u64::MAX
            }),
        ensures
            ({
                let (res, post) = old(self)@.confirm_delivery(caller, task_owner, task_no);
                r == res && final(self)@ == post
            }),
            final(self)@.wf(),
    {
        let tk = make_rec_key(task_owner, task_no);
        let t = match self.tasks.get(&tk) {
            Some(t) => *t,
            None => {
                return Err(Error::NotFound);
            },
        };
        let sk = make_rec_key(t.shipment.shipper, t.shipment.no);
        let s = match self.shipments.get(&sk) {
            Some(s) => *s,
            None => {
                return Err(Error::NotFound);
            },
        };
        if s.shipper != caller {
            return Err(Error::SignerNotAnAuthority);
        }
        if s.status != ShipmentStatus::InTransit {
            return Err(Error::NotInTransit);
        }
        let amount = match self.custody.get(&sk) {
            Some(a) => *a,
            None => 0,
        };
        let bal = self.balance_of(t.owner);
        self.balances.insert(t.owner, bal + amount);
        self.shipments.insert(sk, Shipment { status: ShipmentStatus::Delivered, ..s });
        self.tasks.remove(&tk);
        self.custody.remove(&sk);
        self.events.push(
            Event::ShipmentStatusUpdated(
                ShipmentStatusUpdated {
                    shipment: t.shipment,
                    status: ShipmentStatus::Delivered,
                },
            ),
        );
        proof {
            assert(self@ =~= old(self)@.confirm_delivery(caller, task_owner, task_no).1);
        }
        Ok(())
    }

    /// The position of the channel of this shipment and opener, if one
    /// exists.
    fn find_channel(&self, sid: ShipmentId, opener: u64) -> (r: Option<usize>)
        ensures
            match r {
                Some(i) => (i as int) < self@.channels.len() && channel_matches(
                    self@.channels[i as int],
                    sid,
                    opener,
                ),
                None => !self@.has_channel(sid, opener),
            },
    {
        let n = self.channels.len();
        let mut i: usize = 0;
        while i < n
            invariant
                n == self.channels.len(),
                i <= n,
                forall|j: int| 0 <= j < i ==> !channel_matches(self@.channels[j], sid, opener),
            decreases n - i,
        {
            let c = &self.channels[i];
            if c.shipment == sid && c.opener == opener {
                return Some(i);
            }
            i += 1;
        }
        None
    }

    /// Whether the shipment and opener already have a channel.
    pub fn channel_exists(&self, sid: ShipmentId, opener: u64) -> (r: bool)
        ensures
            r == self@.has_channel(sid, opener),
    {
        match self.find_channel(sid, opener) {
            Some(_) => true,
            None => false,
        }
    }

    /// How many messages the channel of this shipment and opener holds.
    pub fn message_count(&self, sid: ShipmentId, opener: u64) -> (r: Option<u64>)
        requires
            self@.wf(),
        ensures
            r == (if self@.has_channel(sid, opener) {
                Some(
                    self@.channels[self@.channel_index(sid, opener)].messages.len() as u64,
                )
            } else {
                None::<u64>
            }),
    {
        match self.find_channel(sid, opener) {
            Some(i) => {
                proof {
                    lemma_channel_index(self@, sid, opener, i as int);
                }
                Some(self.channels[i].messages.len() as u64)
            },
            None => None,
        }
    }

    /// The message numbered `no` of the channel of this shipment and
    /// opener, if the channel and the message exist.
    pub fn get_message(&self, sid: ShipmentId, opener: u64, no: u64) -> (r: Option<Message>)
        requires
            self@.wf(),
        ensures
            r == ({
                let c = self@.channels[self@.channel_index(sid, opener)];
                if self@.has_channel(sid, opener) && 1 <= no && no <= c.messages.len() {
                    Some(c.messages[no - 1])
                } else {
                    None::<Message>
                }
            }),
    {
        match self.find_channel(sid, opener) {
            Some(i) => {
                proof {
                    lemma_channel_index(self@, sid, opener, i as int);
                }
                let c = &self.channels[i];
                if 1 <= no && no <= c.messages.len() as u64 {
                    Some(c.messages[(no - 1) as usize])
                } else {
                    None
                }
            },
            None => None,
        }
    }

    /// Opens the caller's channel for a shipment; see
    /// [`LedgerV::open_channel`].
    pub fn open_channel(&mut self, caller: u64, sid: ShipmentId, key: u64) -> (r: Result<
        (),
        Error,
    >)
        requires
            old(self)@.wf(),
        ensures
            ({
                let (res, post) = old(self)@.open_channel(caller, sid, key);
                r == res && final(self)@ == post
            }),
            final(self)@.wf(),
    {
        let k = make_rec_key(sid.shipper, sid.no);
        if !self.shipments.contains_key(&k) {
            return Err(Error::NotFound);
        }
        match self.find_channel(sid, caller) {
            Some(_) => {
                return Err(Error::OpenOnce);
            },
            None => {},
        }
        self.channels.push(Channel { shipment: sid, opener: caller, key, messages: Vec::new() });
        proof {
            assert(self@.channels =~~= old(self)@.open_channel(caller, sid, key).1.channels);
            assert(self@ =~~= old(self)@.open_channel(caller, sid, key).1);
        }
        Ok(())
    }

    /// Appends a message to the caller's channel; see
    /// [`LedgerV::send_message`].
    pub fn send_message(&mut self, caller: u64, sid: ShipmentId, key: u64, message: Message) -> (r:
        Result<(), Error>)
        requires
            old(self)@.wf(),
        ensures
            ({
                let (res, post) = old(self)@.send_message(caller, sid, key, message);
                r == res && final(self)@ == post
            }),
            final(self)@.wf(),
    {
        let i = match self.find_channel(sid, caller) {
            Some(i) => i,
            None => {
                return Err(Error::NotFound);
            },
        };
        proof {
            lemma_channel_index(self@, sid, caller, i as int);
        }
        if self.channels[i].key != key {
            return Err(Error::NotFound);
        }
        let mlen = self.channels[i].messages.len();
        if message.no == 0 || message.no - 1 != mlen as u64 {
            return Err(Error::OutOfSequence);
        }
        let mut ch = self.channels.remove(i);
        ch.messages.push(message);
        self.channels.insert(i, ch);
        proof {
            assert(self@.channels =~~= old(self)@.send_message(caller, sid, key, message).1.channels);
            assert(self@ =~~= old(self)@.send_message(caller, sid, key, message).1);
        }
        Ok(())
    }
}

} // verus!
