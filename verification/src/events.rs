use vstd::prelude::*;

use crate::entity::RecipientDetails;
use crate::entity::RecipientDetailsView;
use crate::identity::Address;

verus! {

/// The mathematical model of a `PaymentCreatedEvent`.
pub ghost struct PaymentCreatedEventView {
    pub request_id: Seq<u8>,
    pub sender: Seq<u8>,
    pub amount: u64,
    pub recipient_details: RecipientDetailsView,
}

/// Notification published after a payment request is created.
pub struct PaymentCreatedEvent {
    pub request_id: Vec<u8>,
    pub sender: Address,
    pub amount: u64,
    pub recipient_details: RecipientDetails,
}

impl View for PaymentCreatedEvent {
    type V = PaymentCreatedEventView;

    open spec fn view(&self) -> PaymentCreatedEventView {
        PaymentCreatedEventView {
            request_id: self.request_id@,
            sender: self.sender@,
            amount: self.amount,
            recipient_details: self.recipient_details@,
        }
    }
}

/// The mathematical model of a `PaymentFulfilledEvent`.
pub ghost struct PaymentFulfilledEventView {
    pub request_id: Seq<u8>,
    pub market_maker: Seq<u8>,
    pub amount: u64,
}

/// Notification published after a payment request is fulfilled.
pub struct PaymentFulfilledEvent {
    pub request_id: Vec<u8>,
    pub market_maker: Address,
    pub amount: u64,
}

impl View for PaymentFulfilledEvent {
    type V = PaymentFulfilledEventView;

    open spec fn view(&self) -> PaymentFulfilledEventView {
        PaymentFulfilledEventView {
            request_id: self.request_id@,
            market_maker: self.market_maker@,
            amount: self.amount,
        }
    }
}

/// The mathematical model of a published notification.
pub ghost enum PaymentEventView {
    Created(PaymentCreatedEventView),
    Fulfilled(PaymentFulfilledEventView),
}

/// One entry of the append-only notification log kept for external
/// observers.
pub enum PaymentEvent {
    Created(PaymentCreatedEvent),
    Fulfilled(PaymentFulfilledEvent),
}

impl View for PaymentEvent {
    type V = PaymentEventView;

    open spec fn view(&self) -> PaymentEventView {
        match self {
            PaymentEvent::Created(e) => PaymentEventView::Created(e@),
            PaymentEvent::Fulfilled(e) => PaymentEventView::Fulfilled(e@),
        }
    }
}

} // verus!
