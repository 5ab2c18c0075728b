pub mod bytes;
pub mod engine;
pub mod entity;
pub mod error;
pub mod events;
pub mod identity;
pub mod laws;

pub use crate::engine::CreatePayment;
pub use crate::engine::FulfillPayment;
pub use crate::engine::Ledger;
pub use crate::entity::PaymentRequest;
pub use crate::entity::PaymentStatus;
pub use crate::entity::RecipientDetails;
pub use crate::error::PayFluxError;
pub use crate::events::PaymentCreatedEvent;
pub use crate::events::PaymentEvent;
pub use crate::events::PaymentFulfilledEvent;
pub use crate::identity::Address;
pub use crate::identity::derive_payment_identity;
