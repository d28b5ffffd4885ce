//! The mathematical model of the ledger and its operations.
//!
//! [`LedgerV`] is the abstract state: keyed stores of records, party
//! balances, shipment-scoped escrow, and the event log. Each operation of
//! the executable ledger is specified here as a total transition function
//! from a state and its arguments to a result and a successor state; an
//! error result always returns the state unchanged, which makes the
//! all-or-nothing behaviour of the operations part of their definition.

use vstd::prelude::*;

use crate::data::AcceptedOffer;
use crate::data::Availability;
use crate::data::Carrier;
use crate::data::Forwarder;
use crate::data::Message;
use crate::data::Name;
use crate::data::OfferDetails;
use crate::data::OfferId;
use crate::data::Shipment;
use crate::data::ShipmentData;
use crate::data::ShipmentId;
use crate::data::ShipmentOffer;
use crate::data::ShipmentStatus;
use crate::data::Shipper;
use crate::data::rec_key;
use crate::errors::Error;
use crate::events::Event;
use crate::events::OfferAccepted;
use crate::events::OfferMade;
use crate::events::ShipmentCreated;
use crate::events::ShipmentStatusUpdated;
use crate::events::ShipmentTransferred;

verus! {

/// Abstract state of one message channel.
#[verifier::ext_equal]
pub struct ChannelV {
    pub shipment: ShipmentId,
    pub opener: u64,
    pub key: u64,
    pub messages: Seq<Message>,
}

/// Abstract state of the whole ledger.
///
/// Shipments, offers and tasks are keyed by [`rec_key`] of their owner and
/// owner-scoped sequence number; `offer_counts` holds the next offer
/// number of each offering party; `custody` holds the collateral escrowed
/// under a shipment's address while its delivery is in flight.
#[verifier::ext_equal]
pub struct LedgerV {
    pub shippers: Map<u64, Shipper>,
    pub forwarders: Map<u64, Forwarder>,
    pub carriers: Map<u64, Carrier>,
    pub shipments: Map<u128, Shipment>,
    pub offers: Map<u128, ShipmentOffer>,
    pub offer_counts: Map<u64, u64>,
    pub tasks: Map<u128, AcceptedOffer>,
    pub channels: Seq<ChannelV>,
    pub balances: Map<u64, u64>,
    pub custody: Map<u128, u64>,
    pub events: Seq<Event>,
}

/// The address a shipment record lives under.
pub open spec fn sid_key(sid: ShipmentId) -> u128 {
    rec_key(sid.shipper, sid.no)
}

/// Whether a channel belongs to the given shipment and opener.
pub open spec fn channel_matches(c: ChannelV, sid: ShipmentId, opener: u64) -> bool {
    c.shipment == sid && c.opener == opener
}

impl LedgerV {
    /// The empty ledger.
    pub open spec fn initial() -> LedgerV {
        LedgerV {
            shippers: Map::empty(),
            forwarders: Map::empty(),
            carriers: Map::empty(),
            shipments: Map::empty(),
            offers: Map::empty(),
            offer_counts: Map::empty(),
            tasks: Map::empty(),
            channels: Seq::empty(),
            balances: Map::empty(),
            custody: Map::empty(),
            events: Seq::empty(),
        }
    }

    /// A party's balance; a party without an entry holds nothing.
    pub open spec fn balance_of(self, who: u64) -> u64 {
        if self.balances.contains_key(who) {
            self.balances[who]
        } else {
            0
        }
    }

    /// The next offer sequence number of a party.
    pub open spec fn offer_count_of(self, who: u64) -> u64 {
        if self.offer_counts.contains_key(who) {
            self.offer_counts[who]
        } else {
            0
        }
    }

    /// The collateral held under a shipment's address.
    pub open spec fn custody_of(self, sid: ShipmentId) -> u64 {
        if self.custody.contains_key(sid_key(sid)) {
            self.custody[sid_key(sid)]
        } else {
            0
        }
    }

    /// Balances after `amount` moved from `from` to `to`. The debit is
    /// written first, so a transfer to oneself leaves the balance as it
    /// was.
    pub open spec fn transferred(self, from: u64, to: u64, amount: u64) -> Map<u64, u64> {
        let debited = self.balances.insert(from, (self.balance_of(from) - amount) as u64);
        let to_before: u64 = if to == from {
            debited[from]
        } else {
            self.balance_of(to)
        };
        debited.insert(to, (to_before + amount) as u64)
    }

    /// Whether a channel for this shipment and opener exists.
    pub open spec fn has_channel(self, sid: ShipmentId, opener: u64) -> bool {
        exists|i: int|
            0 <= i < self.channels.len() && channel_matches(#[trigger] self.channels[i], sid, opener)
    }

    /// The position of the channel of this shipment and opener;
    /// meaningful only when [`Self::has_channel`] holds, and unique under
    /// [`Self::wf`].
    pub open spec fn channel_index(self, sid: ShipmentId, opener: u64) -> int {
        choose|i: int|
            0 <= i < self.channels.len() && channel_matches(#[trigger] self.channels[i], sid, opener)
    }

    /// Every registered party record sits under its own nonzero identity.
    pub open spec fn parties_wf(self) -> bool {
        &&& forall|k: u64| #[trigger]
            self.shippers.contains_key(k) ==> k != 0 && self.shippers[k].creator == k
        &&& forall|k: u64| #[trigger]
            self.forwarders.contains_key(k) ==> k != 0 && self.forwarders[k].creator == k
        &&& forall|k: u64| #[trigger]
            self.carriers.contains_key(k) ==> k != 0 && self.carriers[k].creator == k
    }

    /// What holds of the shipment stored under `k`: its address is derived
    /// from its own fields, its sequence number was allocated by its
    /// registered shipper, it has a carrier exactly when it is no longer
    /// listed, and its collateral sits in custody exactly while it is in
    /// transit.
    pub open spec fn shipment_rec_wf(self, k: u128) -> bool {
        let s = self.shipments[k];
        &&& rec_key(s.shipper, s.no) == k
        &&& self.shippers.contains_key(s.shipper)
        &&& s.no < self.shippers[s.shipper].shipments_count
        &&& (s.carrier == 0 <==> s.status == ShipmentStatus::Listed)
        &&& (s.status == ShipmentStatus::InTransit ==> self.custody.contains_key(k))
    }

    pub open spec fn shipments_wf(self) -> bool {
        forall|k: u128| #[trigger] self.shipments.contains_key(k) ==> self.shipment_rec_wf(k)
    }

    /// What holds of the offer stored under `k`: its address is derived
    /// from its own fields, its sequence number was allocated to its
    /// creator, and the shipment it references exists.
    pub open spec fn offer_rec_wf(self, k: u128) -> bool {
        let o = self.offers[k];
        &&& rec_key(o.creator, o.no) == k
        &&& o.no < self.offer_count_of(o.creator)
        &&& self.shipments.contains_key(sid_key(o.shipment))
    }

    pub open spec fn offers_wf(self) -> bool {
        forall|k: u128| #[trigger] self.offers.contains_key(k) ==> self.offer_rec_wf(k)
    }

    /// What holds of the task stored under `k`: its address is derived
    /// from its own fields, its sequence number was allocated by its
    /// registered carrier, and the shipment it references exists, is in
    /// transit, and is assigned to the task's carrier.
    pub open spec fn task_rec_wf(self, k: u128) -> bool {
        let t = self.tasks[k];
        &&& rec_key(t.owner, t.no) == k
        &&& self.carriers.contains_key(t.owner)
        &&& t.no < self.carriers[t.owner].tasks_count
        &&& self.shipments.contains_key(sid_key(t.shipment))
        &&& self.shipments[sid_key(t.shipment)].status == ShipmentStatus::InTransit
        &&& self.shipments[sid_key(t.shipment)].carrier == t.owner
    }

    /// Tasks are well formed and no two reference the same shipment: a
    /// shipment in transit has exactly one in-flight job.
    pub open spec fn tasks_wf(self) -> bool {
        &&& forall|k: u128| #[trigger] self.tasks.contains_key(k) ==> self.task_rec_wf(k)
        &&& forall|k1: u128, k2: u128|
            #[trigger] self.tasks.contains_key(k1) && #[trigger] self.tasks.contains_key(k2) && k1
                != k2 ==> self.tasks[k1].shipment != self.tasks[k2].shipment
    }

    /// Custody entries belong to existing in-transit shipments and hold
    /// exactly the shipment's collateral.
    pub open spec fn custody_wf(self) -> bool {
        forall|k: u128| #[trigger] self.custody.contains_key(k) ==> {
            &&& self.shipments.contains_key(k)
            &&& self.shipments[k].status == ShipmentStatus::InTransit
            &&& self.custody[k] == self.shipments[k].data.collateral
        }
    }

    /// What holds of one channel: its shipment exists and its messages are
    /// numbered contiguously from one.
    pub open spec fn channel_ok(self, c: ChannelV) -> bool {
        &&& self.shipments.contains_key(sid_key(c.shipment))
        &&& forall|j: int| 0 <= j < c.messages.len() ==> (#[trigger] c.messages[j]).no == j + 1
    }

    /// Channels are well formed and no two belong to the same shipment and
    /// opener.
    pub open spec fn channels_wf(self) -> bool {
        &&& forall|i: int| #![trigger self.channels[i]]
            0 <= i < self.channels.len() ==> self.channel_ok(self.channels[i])
        &&& forall|i: int, j: int| #![trigger self.channels[i], self.channels[j]]
            0 <= i < j < self.channels.len() ==> !channel_matches(
                self.channels[i],
                self.channels[j].shipment,
                self.channels[j].opener,
            )
    }

    /// Well-formedness of the whole state. Established by the empty ledger
    /// and preserved by every transition.
    pub open spec fn wf(self) -> bool {
        &&& self.parties_wf()
        &&& self.shipments_wf()
        &&& self.offers_wf()
        &&& self.tasks_wf()
        &&& self.custody_wf()
        &&& self.channels_wf()
    }

    /// Registers the caller as a shipper, once.
    pub open spec fn register_shipper(self, caller: u64, name: Name) -> (Result<(), Error>, LedgerV) {
        if self.shippers.contains_key(caller) {
            (Err(Error::AlreadyRegistered), self)
        } else {
            (
                Ok(()),
                LedgerV {
                    shippers: self.shippers.insert(
                        caller,
                        (Shipper { creator: caller, name, shipments_count: 0 }),
                    ),
                    ..self
                },
            )
        }
    }

    /// Registers the caller as a forwarder, once.
    pub open spec fn register_forwarder(self, caller: u64, name: Name) -> (Result<(), Error>, LedgerV) {
        if self.forwarders.contains_key(caller) {
            (Err(Error::AlreadyRegistered), self)
        } else {
            (
                Ok(()),
                LedgerV {
                    forwarders: self.forwarders.insert(
                        caller,
                        (Forwarder { creator: caller, name }),
                    ),
                    ..self
                },
            )
        }
    }

    /// Registers the caller as a carrier, once. A carrier that names no
    /// availability starts out available.
    pub open spec fn register_carrier(
        self,
        caller: u64,
        name: Name,
        availability: Option<Availability>,
    ) -> (Result<(), Error>, LedgerV) {
        if self.carriers.contains_key(caller) {
            (Err(Error::AlreadyRegistered), self)
        } else {
            let avail = match availability {
                Some(a) => a,
                None => Availability::Available,
            };
            (
                Ok(()),
                LedgerV {
                    carriers: self.carriers.insert(
                        caller,
                        (Carrier {
                            creator: caller,
                            authority: caller,
                            name,
                            availability: avail,
                            tasks_count: 0,
                        }),
                    ),
                    ..self
                },
            )
        }
    }

    /// Lists a new shipment under the caller's next sequence number. Only
    /// a registered shipper may list.
    pub open spec fn create_shipment(
        self,
        caller: u64,
        price: u64,
        name: Name,
        data: ShipmentData,
    ) -> (Result<(), Error>, LedgerV) {
        if !self.shippers.contains_key(caller) {
            (Err(Error::SignerNotAnAuthority), self)
        } else {
            let sh = self.shippers[caller];
            let no = sh.shipments_count;
            let sid = ShipmentId { shipper: caller, no };
            let s = Shipment {
                shipper: caller,
                no,
                price,
                name,
                data,
                carrier: 0,
                status: ShipmentStatus::Listed,
                forwarder: 0,
            };
            (
                Ok(()),
                LedgerV {
                    shippers: self.shippers.insert(
                        caller,
                        (Shipper { shipments_count: (no + 1) as u64, ..sh }),
                    ),
                    shipments: self.shipments.insert(rec_key(caller, no), s),
                    events: self.events.push(
                        Event::ShipmentCreated((ShipmentCreated { shipper: caller, shipment: sid })),
                    ),
                    ..self
                },
            )
        }
    }

    /// Direct fixed-price purchase of a listed shipment: the price moves
    /// from the buyer to the shipper and the buyer becomes the carrier.
    pub open spec fn buy_shipment(self, buyer: u64, sid: ShipmentId) -> (Result<(), Error>, LedgerV) {
        let k = sid_key(sid);
        if !self.shipments.contains_key(k) {
            (Err(Error::NotFound), self)
        } else {
            let s = self.shipments[k];
            if s.carrier != 0 {
                (Err(Error::ShipmentSold), self)
            } else if self.balance_of(buyer) < s.price {
                (Err(Error::NotEnoughFunds), self)
            } else {
                (
                    Ok(()),
                    LedgerV {
                        shipments: self.shipments.insert(
                            k,
                            (Shipment { carrier: buyer, status: ShipmentStatus::Sold, ..s }),
                        ),
                        balances: self.transferred(buyer, s.shipper, s.price),
                        events: self.events.push(
                            Event::ShipmentTransferred(
                                (ShipmentTransferred {
                                    seller: s.shipper,
                                    buyer,
                                    shipment: sid,
                                    forwarded: s.forwarder,
                                }),
                            ),
                        ),
                        ..self
                    },
                )
            }
        }
    }

    /// Makes a non-binding offer against an unsold shipment. The caller
    /// must be a registered forwarder or carrier; the offer takes the
    /// caller's next offer sequence number and the shipment remembers the
    /// caller as its forwarding party. No funds move.
    pub open spec fn make_offer(
        self,
        caller: u64,
        sid: ShipmentId,
        payment: u64,
        timeout: u32,
        now: i64,
    ) -> (Result<(), Error>, LedgerV) {
        let k = sid_key(sid);
        if !(self.forwarders.contains_key(caller) || self.carriers.contains_key(caller)) {
            (Err(Error::SignerNotAnAuthority), self)
        } else if !self.shipments.contains_key(k) {
            (Err(Error::NotFound), self)
        } else {
            let s = self.shipments[k];
            if s.carrier != 0 {
                (Err(Error::ShipmentSold), self)
            } else {
                let no = self.offer_count_of(caller);
                let offer = ShipmentOffer {
                    creator: caller,
                    no,
                    shipment: sid,
                    details: OfferDetails { payment, timeout },
                    made_at: now,
                };
                (
                    Ok(()),
                    LedgerV {
                        offers: self.offers.insert(rec_key(caller, no), offer),
                        offer_counts: self.offer_counts.insert(caller, (no + 1) as u64),
                        shipments: self.shipments.insert(k, (Shipment { forwarder: caller, ..s })),
                        events: self.events.push(
                            Event::OfferMade(
                                (OfferMade {
                                    from: caller,
                                    to: s.shipper,
                                    offer: OfferId { owner: caller, no },
                                    shipment: sid,
                                }),
                            ),
                        ),
                        ..self
                    },
                )
            }
        }
    }

    /// The central transactional operation: a carrier accepts an offer.
    ///
    /// All preconditions are checked against the current state; if any
    /// fails the state is returned unchanged with the error. On success,
    /// atomically: the shipment is assigned to the carrier and goes in
    /// transit, a task is created under the carrier's next task number,
    /// the consumed offer is closed, and collateral equal to the
    /// shipment's requirement moves from the payer into the shipment's
    /// custody.
    pub open spec fn accept_offer(
        self,
        signer: u64,
        carrier_id: u64,
        offer: OfferId,
        payer: u64,
        now: i64,
    ) -> (Result<(), Error>, LedgerV) {
        if !self.carriers.contains_key(carrier_id) {
            (Err(Error::NotFound), self)
        } else if self.carriers[carrier_id].authority != signer {
            (Err(Error::SignerNotAnAuthority), self)
        } else if !self.offers.contains_key(rec_key(offer.owner, offer.no)) {
            (Err(Error::NotFound), self)
        } else {
            let c = self.carriers[carrier_id];
            let o = self.offers[rec_key(offer.owner, offer.no)];
            let sk = sid_key(o.shipment);
            let s = self.shipments[sk];
            if !self.shipments.contains_key(sk) {
                (Err(Error::NotFound), self)
            } else if s.carrier != 0 {
                (Err(Error::ShipmentSold), self)
            } else if self.balance_of(payer) < s.data.collateral {
                (Err(Error::NotEnoughFunds), self)
            } else {
                let task = AcceptedOffer {
                    owner: carrier_id,
                    no: c.tasks_count,
                    shipment: o.shipment,
                    details: o.details,
                    accepted: now,
                };
                (
                    Ok(()),
                    LedgerV {
                        shipments: self.shipments.insert(
                            sk,
                            (Shipment {
                                carrier: carrier_id,
                                status: ShipmentStatus::InTransit,
                                ..s
                            }),
                        ),
                        tasks: self.tasks.insert(rec_key(carrier_id, c.tasks_count), task),
                        carriers: self.carriers.insert(
                            carrier_id,
                            (Carrier { tasks_count: (c.tasks_count + 1) as u64, ..c }),
                        ),
                        offers: self.offers.remove(rec_key(offer.owner, offer.no)),
                        balances: self.balances.insert(
                            payer,
                            (self.balance_of(payer) - s.data.collateral) as u64,
                        ),
                        custody: self.custody.insert(sk, s.data.collateral),
                        events: self.events.push(
                            Event::ShipmentStatusUpdated(
                                (ShipmentStatusUpdated {
                                    shipment: o.shipment,
                                    status: ShipmentStatus::InTransit,
                                }),
                            ),
                        ).push(
                            Event::OfferAccepted(
                                (OfferAccepted {
                                    from: s.forwarder,
                                    to: s.shipper,
                                    offer,
                                    shipment: o.shipment,
                                }),
                            ),
                        ),
                        ..self
                    },
                )
            }
        }
    }

    /// The shipment's shipper confirms delivery: the escrowed collateral
    /// is released to the task's carrier, the shipment is delivered, and
    /// the task is closed. Irreversible, and possible exactly once per
    /// task.
    pub open spec fn confirm_delivery(
        self,
        caller: u64,
        task_owner: u64,
        task_no: u64,
    ) -> (Result<(), Error>, LedgerV) {
        let tk = rec_key(task_owner, task_no);
        if !self.tasks.contains_key(tk) {
            (Err(Error::NotFound), self)
        } else {
            let t = self.tasks[tk];
            let sk = sid_key(t.shipment);
            let s = self.shipments[sk];
            if !self.shipments.contains_key(sk) {
                (Err(Error::NotFound), self)
            } else if s.shipper != caller {
                (Err(Error::SignerNotAnAuthority), self)
            } else if s.status != ShipmentStatus::InTransit {
                (Err(Error::NotInTransit), self)
            } else {
                let amount = if self.custody.contains_key(sk) {
                    self.custody[sk]
                } else {
                    0
                };
                (
                    Ok(()),
                    LedgerV {
                        shipments: self.shipments.insert(
                            sk,
                            (Shipment { status: ShipmentStatus::Delivered, ..s }),
                        ),
                        tasks: self.tasks.remove(tk),
                        custody: self.custody.remove(sk),
                        balances: self.balances.insert(
                            t.owner,
                            (self.balance_of(t.owner) + amount) as u64,
                        ),
                        events: self.events.push(
                            Event::ShipmentStatusUpdated(
                                (ShipmentStatusUpdated {
                                    shipment: t.shipment,
                                    status: ShipmentStatus::Delivered,
                                }),
                            ),
                        ),
                        ..self
                    },
                )
            }
        }
    }

    /// Opens the caller's channel for a shipment with an exchanged public
    /// key; at most one channel per shipment and opener.
    pub open spec fn open_channel(
        self,
        caller: u64,
        sid: ShipmentId,
        key: u64,
    ) -> (Result<(), Error>, LedgerV) {
        if !self.shipments.contains_key(sid_key(sid)) {
            (Err(Error::NotFound), self)
        } else if self.has_channel(sid, caller) {
            (Err(Error::OpenOnce), self)
        } else {
            (
                Ok(()),
                LedgerV {
                    channels: self.channels.push(
                        (ChannelV { shipment: sid, opener: caller, key, messages: Seq::empty() }),
                    ),
                    ..self
                },
            )
        }
    }

    /// Appends a message to the caller's channel. The channel is addressed
    /// by the shipment, the caller and the exchanged key; the message's
    /// sequence number must be exactly one past the channel's last.
    pub open spec fn send_message(
        self,
        caller: u64,
        sid: ShipmentId,
        key: u64,
        message: Message,
    ) -> (Result<(), Error>, LedgerV) {
        if !self.has_channel(sid, caller) {
            (Err(Error::NotFound), self)
        } else {
            let i = self.channel_index(sid, caller);
            let c = self.channels[i];
            if c.key != key {
                (Err(Error::NotFound), self)
            } else if message.no != c.messages.len() + 1 {
                (Err(Error::OutOfSequence), self)
            } else {
                (
                    Ok(()),
                    LedgerV {
                        channels: self.channels.update(
                            i,
                            (ChannelV { messages: c.messages.push(message), ..c }),
                        ),
                        ..self
                    },
                )
            }
        }
    }

    /// The environment credits a party's balance: the entry point of all
    /// value, standing for the wallet funding that happens outside the
    /// ledger.
    pub open spec fn deposit(self, who: u64, amount: u64) -> LedgerV {
        LedgerV {
            balances: self.balances.insert(who, (self.balance_of(who) + amount) as u64),
            ..self
        }
    }
}

/// In a well-formed ledger a shipment and opener have at most one
/// channel, so any position that matches them is the channel's index.
pub proof fn lemma_channel_index(m: LedgerV, sid: ShipmentId, opener: u64, i: int)
    requires
        m.channels_wf(),
        0 <= i < m.channels.len(),
        channel_matches(m.channels[i], sid, opener),
    ensures
        m.has_channel(sid, opener),
        m.channel_index(sid, opener) == i,
{
    assert(m.has_channel(sid, opener));
    let j = m.channel_index(sid, opener);
    if j < i {
        assert(!channel_matches(m.channels[j], m.channels[i].shipment, m.channels[i].opener));
    } else if i < j {
        assert(!channel_matches(m.channels[i], m.channels[j].shipment, m.channels[j].opener));
    }
}

} // verus!
