//! The worker's share of the ledger's durable state and the entry points
//! that mutate it.
//!
//! Mutation happens only inside the ledger's single globally serialized
//! state-transition path: each entry point appends to a bounded history
//! and deposits an event. Authentication of the caller and the admission
//! of unsigned candidates happen before an entry point runs; the signed
//! entry point receives its authenticated caller, the unsigned ones
//! none.

use vstd::prelude::*;

use crate::parser::PricePoint;
use crate::payload::Payload;
use crate::payload::PayloadPrice;
use crate::window::push_evict;
use crate::window::RollingWindow;

verus! {

/// An event deposited by an entry point: the authenticated submitter —
/// if the strategy had one — and the value.
pub enum Event {
    NewNumber(Option<Vec<u8>>, u64),
    NewPrice(Option<Vec<u8>>, PricePoint),
}

/// The two bounded histories and the deposited events.
pub struct Ledger {
    numbers: RollingWindow<u64>,
    prices: RollingWindow<PricePoint>,
    events: Vec<Event>,
}

impl Ledger {
    /// The recorded numbers, oldest first.
    pub closed spec fn numbers_seq(self) -> Seq<u64> {
        self.numbers@
    }

    /// The recorded prices, oldest first.
    pub closed spec fn prices_seq(self) -> Seq<PricePoint> {
        self.prices@
    }

    /// The deposited events, in order.
    pub closed spec fn events_seq(self) -> Seq<Event> {
        self.events@
    }

    /// Both histories respect their bound.
    pub closed spec fn wf(self) -> bool {
        self.numbers.wf() && self.prices.wf()
    }

    pub fn new() -> (l: Ledger)
        ensures
            l.wf(),
            l.numbers_seq() == Seq::<u64>::empty(),
            l.prices_seq() == Seq::<PricePoint>::empty(),
            l.events_seq() == Seq::<Event>::empty(),
    {
        Ledger { numbers: RollingWindow::new(), prices: RollingWindow::new(), events: Vec::new() }
    }

    /// Append a number to its bounded history, evicting the oldest when
    /// full.
    pub fn append_or_replace_number(&mut self, number: u64)
        requires
            old(self).wf(),
        ensures
            final(self).wf(),
            final(self).numbers_seq() == push_evict(old(self).numbers_seq(), number),
            final(self).prices_seq() == old(self).prices_seq(),
            final(self).events_seq() == old(self).events_seq(),
    {
        self.numbers.push(number);
    }

    /// Append a price to its bounded history, evicting the oldest when
    /// full.
    pub fn append_or_replace_price(&mut self, price: PricePoint)
        requires
            old(self).wf(),
        ensures
            final(self).wf(),
            final(self).prices_seq() == push_evict(old(self).prices_seq(), price),
            final(self).numbers_seq() == old(self).numbers_seq(),
            final(self).events_seq() == old(self).events_seq(),
    {
        self.prices.push(price);
    }

    /// Entry point of the signed strategy: the ledger authenticated
    /// `who` and charged the fee before this runs.
    pub fn submit_number_signed(&mut self, who: Vec<u8>, number: u64)
        requires
            old(self).wf(),
        ensures
            final(self).wf(),
            final(self).numbers_seq() == push_evict(old(self).numbers_seq(), number),
            final(self).prices_seq() == old(self).prices_seq(),
            final(self).events_seq() == old(self).events_seq().push(
                Event::NewNumber(Some(who), number),
            ),
    {
        self.numbers.push(number);
        self.events.push(Event::NewNumber(Some(who), number));
    }

    /// Entry point of the plain unsigned strategy: no submitter is
    /// known.
    pub fn submit_number_unsigned(&mut self, number: u64)
        requires
            old(self).wf(),
        ensures
            final(self).wf(),
            final(self).numbers_seq() == push_evict(old(self).numbers_seq(), number),
            final(self).prices_seq() == old(self).prices_seq(),
            final(self).events_seq() == old(self).events_seq().push(
                Event::NewNumber(None, number),
            ),
    {
        self.numbers.push(number);
        self.events.push(Event::NewNumber(None, number));
    }

    /// Entry point of the unsigned-with-signed-payload strategy for
    /// numbers: the admission validator checked the payload's signature;
    /// the transaction itself named no payer, so the event names no
    /// submitter.
    pub fn submit_number_unsigned_with_signed_payload(&mut self, payload: Payload)
        requires
            old(self).wf(),
        ensures
            final(self).wf(),
            final(self).numbers_seq() == push_evict(old(self).numbers_seq(), payload.number),
            final(self).prices_seq() == old(self).prices_seq(),
            final(self).events_seq() == old(self).events_seq().push(
                Event::NewNumber(None, payload.number),
            ),
    {
        self.numbers.push(payload.number);
        self.events.push(Event::NewNumber(None, payload.number));
    }

    /// Entry point of the unsigned-with-signed-payload strategy for
    /// prices.
    pub fn submit_price_unsigned_with_signed_payload(&mut self, payload: PayloadPrice)
        requires
            old(self).wf(),
        ensures
            final(self).wf(),
            final(self).prices_seq() == push_evict(old(self).prices_seq(), payload.price),
            final(self).numbers_seq() == old(self).numbers_seq(),
            final(self).events_seq() == old(self).events_seq().push(
                Event::NewPrice(None, payload.price),
            ),
    {
        self.prices.push(payload.price);
        self.events.push(Event::NewPrice(None, payload.price));
    }

    pub fn numbers_len(&self) -> (n: usize)
        ensures
            n == self.numbers_seq().len(),
    {
        self.numbers.len()
    }

    pub fn number_at(&self, i: usize) -> (x: u64)
        requires
            i < self.numbers_seq().len(),
        ensures
            x == self.numbers_seq()[i as int],
    {
        *self.numbers.get(i)
    }

    pub fn prices_len(&self) -> (n: usize)
        ensures
            n == self.prices_seq().len(),
    {
        self.prices.len()
    }

    pub fn price_at(&self, i: usize) -> (p: PricePoint)
        requires
            i < self.prices_seq().len(),
        ensures
            p == self.prices_seq()[i as int],
    {
        *self.prices.get(i)
    }

    pub fn events_len(&self) -> (n: usize)
        ensures
            n == self.events_seq().len(),
    {
        self.events.len()
    }

    pub fn event_at(&self, i: usize) -> (e: &Event)
        requires
            i < self.events_seq().len(),
        ensures
            *e == self.events_seq()[i as int],
    {
        &self.events[i]
    }
}

} // verus!
