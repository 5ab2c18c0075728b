use vstd::prelude::*;

use crate::bytes::copy_bytes;
use crate::entity::PaymentRequest;
use crate::entity::PaymentRequestView;
use crate::entity::PaymentStatus;
use crate::entity::RecipientDetails;
use crate::entity::RecipientDetailsView;
use crate::entity::record_wf;
use crate::entity::valid_recipient_details;
use crate::entity::valid_request_id;
use crate::error::PayFluxError;
use crate::events::PaymentCreatedEvent;
use crate::events::PaymentCreatedEventView;
use crate::events::PaymentEvent;
use crate::events::PaymentEventView;
use crate::events::PaymentFulfilledEvent;
use crate::events::PaymentFulfilledEventView;
use crate::identity::Address;
use crate::identity::derive_payment_identity;
use crate::identity::derived_identity;
use crate::identity::payment_tag_seq;
use crate::identity::program_id_seq;

verus! {

/// The mathematical model of one stored ledger entry.
pub ghost struct LedgerEntryView {
    pub address: Seq<u8>,
    pub record: PaymentRequestView,
}

/// One stored record together with the derived address that keys it.
pub struct LedgerEntry {
    pub address: Address,
    pub record: PaymentRequest,
}

impl View for LedgerEntry {
    type V = LedgerEntryView;

    open spec fn view(&self) -> LedgerEntryView {
        LedgerEntryView { address: self.address@, record: self.record@ }
    }
}

/// The mathematical model of the ledger: the stored entries and the
/// append-only notification log.
pub ghost struct LedgerView {
    pub entries: Seq<LedgerEntryView>,
    pub events: Seq<PaymentEventView>,
}

/// The keyed durable storage together with the notification log: one entry
/// per derived address, created if absent and mutated at most once.
pub struct Ledger {
    pub entries: Vec<LedgerEntry>,
    pub events: Vec<PaymentEvent>,
}

impl View for Ledger {
    type V = LedgerView;

    open spec fn view(&self) -> LedgerView {
        LedgerView {
            entries: self.entries@.map_values(|e: LedgerEntry| e@),
            events: self.events@.map_values(|e: PaymentEvent| e@),
        }
    }
}

/// Whether some entry is stored under the given address.
pub open spec fn contains_address(entries: Seq<LedgerEntryView>, a: Seq<u8>) -> bool {
    exists|i: int| 0 <= i < entries.len() && entries[i].address == a
}

/// The position of the entry stored under the given address.
pub open spec fn index_of_address(entries: Seq<LedgerEntryView>, a: Seq<u8>) -> int {
    choose|i: int| 0 <= i < entries.len() && entries[i].address == a
}

/// A well-formed ledger: addresses are pairwise distinct and 32 bytes long,
/// and every stored record is well formed.
pub open spec fn ledger_wf(l: LedgerView) -> bool {
    &&& forall|i: int, j: int|
        0 <= i < l.entries.len() && 0 <= j < l.entries.len() && i != j
            ==> l.entries[i].address != l.entries[j].address
    &&& forall|i: int|
        0 <= i < l.entries.len() ==> record_wf(#[trigger] l.entries[i].record)
            && l.entries[i].address.len() == 32
}

/// The parties to a creation transition: the authenticated sender.
pub struct CreatePayment {
    pub sender: Address,
}

/// The parties to a fulfillment transition: the authenticated market maker
/// and the address of the targeted record.
pub struct FulfillPayment {
    pub market_maker: Address,
    pub payment_request: Address,
}

/// What fulfillment does to one record: if the record is `Pending` it becomes
/// `Completed` with the market maker set and a notification is produced;
/// otherwise the record is left untouched and the transition is rejected.
pub open spec fn fulfill_record_spec(rec: PaymentRequestView, mm: Seq<u8>) -> (
    PaymentRequestView,
    Result<PaymentFulfilledEventView, PayFluxError>,
) {
    if rec.status != PaymentStatus::Pending {
        (rec, Err(PayFluxError::InvalidPaymentStatus))
    } else {
        (
            PaymentRequestView {
                status: PaymentStatus::Completed,
                market_maker: Some(mm),
                ..rec
            },
            Ok(
                PaymentFulfilledEventView {
                    request_id: rec.request_id,
                    market_maker: mm,
                    amount: rec.amount,
                },
            ),
        )
    }
}

impl PaymentRequest {
    /// Fulfills this record: exactly the transition `Pending` to `Completed`,
    /// setting the market maker and producing the notification; any other
    /// status is rejected without mutation.
    pub fn fulfill(&mut self, market_maker: Address) -> (r: Result<
        PaymentFulfilledEvent,
        PayFluxError,
    >)
        ensures
            ({
                let (rec2, res) = fulfill_record_spec(old(self)@, market_maker@);
                final(self)@ == rec2 && (match (r, res) {
                    (Ok(ev), Ok(evs)) => ev@ == evs,
                    (Err(e), Err(es)) => e == es,
                    _ => false,
                })
            }),
    {
        if self.status != PaymentStatus::Pending {
            return Err(PayFluxError::InvalidPaymentStatus);
        }
        let ev = PaymentFulfilledEvent {
            request_id: copy_bytes(&self.request_id),
            market_maker: market_maker.clone(),
            amount: self.amount,
        };
        self.market_maker = Some(market_maker);
        self.status = PaymentStatus::Completed;
        Ok(ev)
    }
}

/// What creation does to the ledger: bounds are checked, the address is
/// derived from the request identifier, and a fresh `Pending` record is
/// stored only if the address is absent; every rejection leaves the ledger
/// untouched.
pub open spec fn create_payment_spec(
    l: LedgerView,
    sender: Seq<u8>,
    request_id: Seq<u8>,
    amount: u64,
    rd: RecipientDetailsView,
) -> (LedgerView, Result<Seq<u8>, PayFluxError>) {
    if !valid_request_id(request_id) || !valid_recipient_details(rd) {
        (l, Err(PayFluxError::InvalidInput))
    } else {
        match derived_identity(payment_tag_seq(), request_id, program_id_seq()) {
            None => (l, Err(PayFluxError::DerivationExhausted)),
            Some(p) => {
                if contains_address(l.entries, p.0) {
                    (l, Err(PayFluxError::AlreadyExists))
                } else {
                    let record = PaymentRequestView {
                        sender,
                        amount,
                        status: PaymentStatus::Pending,
                        market_maker: None,
                        recipient_details: rd,
                        bump: p.1,
                        request_id,
                    };
                    let event = PaymentEventView::Created(
                        PaymentCreatedEventView { request_id, sender, amount, recipient_details: rd },
                    );
                    (
                        LedgerView {
                            entries: l.entries.push(LedgerEntryView { address: p.0, record }),
                            events: l.events.push(event),
                        },
                        Ok(p.0),
                    )
                }
            },
        }
    }
}

/// What fulfillment does to the ledger: the targeted record must exist and be
/// `Pending`; then it is mutated exactly once and a notification is appended;
/// every rejection leaves the ledger untouched.
pub open spec fn fulfill_payment_spec(l: LedgerView, mm: Seq<u8>, target: Seq<u8>) -> (
    LedgerView,
    Result<(), PayFluxError>,
) {
    if !contains_address(l.entries, target) {
        (l, Err(PayFluxError::NotFound))
    } else {
        let i = index_of_address(l.entries, target);
        let (rec2, res) = fulfill_record_spec(l.entries[i].record, mm);
        match res {
            Err(e) => (l, Err(e)),
            Ok(ev) => (
                LedgerView {
                    entries: l.entries.update(i, LedgerEntryView { address: target, record: rec2 }),
                    events: l.events.push(PaymentEventView::Fulfilled(ev)),
                },
                Ok(()),
            ),
        }
    }
}

impl Ledger {
    /// A well-formed ledger.
    pub open spec fn wf(&self) -> bool {
        ledger_wf(self@)
    }

    /// An empty ledger: no entries, no notifications.
    pub fn new() -> (r: Ledger)
        ensures
            r@.entries == Seq::<LedgerEntryView>::empty(),
            r@.events == Seq::<PaymentEventView>::empty(),
            r.wf(),
    {
        let r = Ledger { entries: Vec::new(), events: Vec::new() };
        proof {
            assert(r@.entries =~= Seq::<LedgerEntryView>::empty());
            assert(r@.events =~= Seq::<PaymentEventView>::empty());
        }
        r
    }

    /// Looks up the position of the entry stored under the given address.
    fn find_index(&self, address: &Address) -> (r: Option<usize>)
        ensures
            match r {
                Some(i) => 0 <= i < self@.entries.len() && self@.entries[i as int].address
                    == address@,
                None => !contains_address(self@.entries, address@),
            },
    {
        let mut i: usize = 0;
        while i < self.entries.len()
            invariant
                i <= self.entries.len(),
                forall|j: int| 0 <= j < i ==> self@.entries[j].address != address@,
            decreases self.entries.len() - i,
        {
            if crate::bytes::bytes_eq(&self.entries[i].address.bytes, &address.bytes) {
                return Some(i);
            }
            i += 1;
        }
        None
    }

    /// Loads the record stored under the given address, if any.
    pub fn get_payment(&self, address: &Address) -> (r: Option<&PaymentRequest>)
        requires
            self.wf(),
        ensures
            match r {
                Some(rec) => contains_address(self@.entries, address@) && rec@ == self@.entries[
                    index_of_address(self@.entries, address@)
                ].record,
                None => !contains_address(self@.entries, address@),
            },
    {
        match self.find_index(address) {
            None => None,
            Some(i) => {
                proof {
                    let entries = self@.entries;
                    assert(contains_address(entries, address@));
                    let j = index_of_address(entries, address@);
                    assert(0 <= j < entries.len() && entries[j].address == address@);
                    assert(j == i);
                }
                Some(&self.entries[i].record)
            },
        }
    }

    /// Records a new payment request: derives the storage address from the
    /// request identifier and stores a fresh `Pending` record there only if
    /// the address is absent, appending the creation notification. Returns
    /// the derived address; rejections leave the ledger untouched.
    pub fn create_payment(
        &mut self,
        ctx: CreatePayment,
        request_id: Vec<u8>,
        amount: u64,
        recipient_details: RecipientDetails,
    ) -> (r: Result<Address, PayFluxError>)
        requires
            old(self).wf(),
            ctx.sender.wf(),
        ensures
            final(self).wf(),
            ({
                let (post, res) = create_payment_spec(
                    old(self)@,
                    ctx.sender@,
                    request_id@,
                    amount,
                    recipient_details@,
                );
                final(self)@ == post && (match (r, res) {
                    (Ok(a), Ok(s)) => a@ == s && a.wf(),
                    (Err(e), Err(f)) => e == f,
                    _ => false,
                })
            }),
    {
        if !crate::entity::request_id_in_bounds(&request_id) || !recipient_details.in_bounds() {
            return Err(PayFluxError::InvalidInput);
        }
        match derive_payment_identity(&request_id) {
            Err(_) => Err(PayFluxError::DerivationExhausted),
            Ok((address, bump)) => {
                match self.find_index(&address) {
                    Some(_) => Err(PayFluxError::AlreadyExists),
                    None => {
                        let record = PaymentRequest {
                            sender: ctx.sender.clone(),
                            amount,
                            status: PaymentStatus::Pending,
                            market_maker: None,
                            recipient_details: recipient_details.clone(),
                            bump,
                            request_id: copy_bytes(&request_id),
                        };
                        let entry = LedgerEntry { address: address.clone(), record };
                        let ghost entry_v = entry@;
                        let ghost old_entries = self@.entries;
                        let ghost old_events = self@.events;
                        self.entries.push(entry);
                        let event = PaymentEvent::Created(
                            PaymentCreatedEvent {
                                request_id,
                                sender: ctx.sender,
                                amount,
                                recipient_details,
                            },
                        );
                        let ghost event_v = event@;
                        self.events.push(event);
                        proof {
                            assert(self@.entries =~= old_entries.push(entry_v));
                            assert(self@.events =~= old_events.push(event_v));
                            assert forall|i: int, j: int|
                                0 <= i < self@.entries.len() && 0 <= j < self@.entries.len() && i
                                    != j implies self@.entries[i].address != self@.entries[j].address by {
                                if i == old_entries.len() {
                                    assert(!contains_address(old_entries, entry_v.address));
                                    assert(self@.entries[j] == old_entries[j]);
                                } else if j == old_entries.len() {
                                    assert(!contains_address(old_entries, entry_v.address));
                                    assert(self@.entries[i] == old_entries[i]);
                                }
                            }
                        }
                        Ok(address)
                    },
                }
            },
        }
    }

    /// Fulfills the payment request stored under the targeted address:
    /// exactly one `Pending` to `Completed` transition, setting the market
    /// maker and appending the fulfillment notification. Rejections leave
    /// the ledger untouched.
    pub fn fulfill_payment(&mut self, ctx: FulfillPayment) -> (r: Result<(), PayFluxError>)
        requires
            old(self).wf(),
            ctx.market_maker.wf(),
        ensures
            final(self).wf(),
            ({
                let (post, res) = fulfill_payment_spec(
                    old(self)@,
                    ctx.market_maker@,
                    ctx.payment_request@,
                );
                final(self)@ == post && r == res
            }),
    {
        match self.find_index(&ctx.payment_request) {
            None => Err(PayFluxError::NotFound),
            Some(i) => {
                proof {
                    let entries = self@.entries;
                    let target = ctx.payment_request@;
                    assert(contains_address(entries, target));
                    let j = index_of_address(entries, target);
                    assert(0 <= j < entries.len() && entries[j].address == target);
                    assert(j == i);
                }
                let ghost old_entries = self@.entries;
                let ghost old_events = self@.events;
                let res = self.entries[i].record.fulfill(ctx.market_maker);
                match res {
                    Err(e) => {
                        proof {
                            assert(self@.entries =~= old_entries);
                            assert(self@.events =~= old_events);
                        }
                        Err(e)
                    },
                    Ok(ev) => {
                        let ghost rec2 = self@.entries[i as int].record;
                        let ghost ev_v = ev@;
                        self.events.push(PaymentEvent::Fulfilled(ev));
                        proof {
                            let target = ctx.payment_request@;
                            assert(self@.entries =~= old_entries.update(
                                i as int,
                                LedgerEntryView { address: target, record: rec2 },
                            ));
                            assert(self@.events =~= old_events.push(
                                PaymentEventView::Fulfilled(ev_v),
                            ));
                        }
                        Ok(())
                    },
                }
            },
        }
    }
}

} // verus!
