use vstd::prelude::*;

use crate::engine::LedgerEntryView;
use crate::engine::LedgerView;
use crate::engine::contains_address;
use crate::engine::create_payment_spec;
use crate::engine::fulfill_payment_spec;
use crate::engine::fulfill_record_spec;
use crate::engine::index_of_address;
use crate::engine::ledger_wf;
use crate::entity::PaymentRequestView;
use crate::entity::PaymentStatus;
use crate::entity::RecipientDetailsView;
use crate::entity::valid_recipient_details;
use crate::error::PayFluxError;

verus! {

/// A creation followed immediately by a creation with the same request
/// identifier is rejected with `AlreadyExists`, and the ledger — in
/// particular the record stored by the first creation — is left unchanged.
pub proof fn duplicate_create_rejected(
    l: LedgerView,
    sender1: Seq<u8>,
    sender2: Seq<u8>,
    request_id: Seq<u8>,
    amount1: u64,
    amount2: u64,
    rd1: RecipientDetailsView,
    rd2: RecipientDetailsView,
)
    requires
        create_payment_spec(l, sender1, request_id, amount1, rd1).1 is Ok,
        valid_recipient_details(rd2),
    ensures
        ({
            let l1 = create_payment_spec(l, sender1, request_id, amount1, rd1).0;
            let (l2, r2) = create_payment_spec(l1, sender2, request_id, amount2, rd2);
            r2 == Err::<Seq<u8>, PayFluxError>(PayFluxError::AlreadyExists) && l2 == l1
        }),
{
    let l1 = create_payment_spec(l, sender1, request_id, amount1, rd1).0;
    let p = crate::identity::derived_identity(
        crate::identity::payment_tag_seq(),
        request_id,
        crate::identity::program_id_seq(),
    );
    assert(p is Some);
    let a = p->Some_0.0;
    assert(l1.entries[l.entries.len() as int].address == a);
    assert(contains_address(l1.entries, a));
}

/// Fulfillment transitions a `Pending` record to `Completed` and sets the
/// market maker; a second fulfillment of the same record is rejected with
/// `InvalidPaymentStatus` and leaves the record — its status and market
/// maker included — unchanged.
pub proof fn fulfill_transitions_once(rec: PaymentRequestView, mm1: Seq<u8>, mm2: Seq<u8>)
    requires
        rec.status == PaymentStatus::Pending,
    ensures
        ({
            let (rec1, r1) = fulfill_record_spec(rec, mm1);
            let (rec2, r2) = fulfill_record_spec(rec1, mm2);
            &&& r1 is Ok
            &&& rec1.status == PaymentStatus::Completed
            &&& rec1.market_maker == Some(mm1)
            &&& rec1.sender == rec.sender
            &&& rec1.amount == rec.amount
            &&& rec1.recipient_details == rec.recipient_details
            &&& rec1.request_id == rec.request_id
            &&& r2 == Err::<crate::events::PaymentFulfilledEventView, PayFluxError>(
                PayFluxError::InvalidPaymentStatus,
            )
            &&& rec2 == rec1
        }),
{
}

/// The ledger-level form: fulfilling a stored `Pending` record completes it,
/// and a second fulfillment of the same address is rejected with
/// `InvalidPaymentStatus`, leaving the whole ledger unchanged.
pub proof fn double_fulfill_rejected(l: LedgerView, target: Seq<u8>, mm1: Seq<u8>, mm2: Seq<u8>)
    requires
        ledger_wf(l),
        contains_address(l.entries, target),
        l.entries[index_of_address(l.entries, target)].record.status == PaymentStatus::Pending,
    ensures
        ({
            let (l1, r1) = fulfill_payment_spec(l, mm1, target);
            let (l2, r2) = fulfill_payment_spec(l1, mm2, target);
            &&& r1 is Ok
            &&& l1.entries[index_of_address(l1.entries, target)].record.status
                == PaymentStatus::Completed
            &&& l1.entries[index_of_address(l1.entries, target)].record.market_maker == Some(mm1)
            &&& r2 == Err::<(), PayFluxError>(PayFluxError::InvalidPaymentStatus)
            &&& l2 == l1
        }),
{
    let i = index_of_address(l.entries, target);
    let (l1, r1) = fulfill_payment_spec(l, mm1, target);
    assert(l1.entries[i].address == target);
    assert(contains_address(l1.entries, target));
    let j = index_of_address(l1.entries, target);
    assert(0 <= j < l1.entries.len() && l1.entries[j].address == target);
    assert forall|k: int| 0 <= k < l1.entries.len() && k != i implies l1.entries[k].address
        != target by {
        assert(l1.entries[k] == l.entries[k]);
        assert(l.entries[k].address != l.entries[i].address);
    }
    assert(j == i);
}

} // verus!
