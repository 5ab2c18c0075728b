use vstd::prelude::*;

use crate::bytes::copy_bytes;
use crate::identity::Address;

verus! {

/// Maximum byte length of a caller-supplied request identifier.
pub const MAX_REQUEST_ID_LEN: usize = 50;

/// Maximum byte length of a recipient account number.
pub const MAX_ACCOUNT_NUMBER_LEN: usize = 10;

/// Maximum byte length of a recipient account name.
pub const MAX_ACCOUNT_NAME_LEN: usize = 100;

/// Maximum byte length of a recipient phone number.
pub const MAX_PHONE_NUMBER_LEN: usize = 15;

/// A request identifier is valid when it fits in its bounded storage slot.
pub open spec fn valid_request_id(id: Seq<u8>) -> bool {
    id.len() <= MAX_REQUEST_ID_LEN
}

/// Checks the length bound on a request identifier.
pub fn request_id_in_bounds(id: &Vec<u8>) -> (r: bool)
    ensures
        r == valid_request_id(id@),
{
    id.len() <= MAX_REQUEST_ID_LEN
}

/// The mathematical model of a `RecipientDetails` record.
pub ghost struct RecipientDetailsView {
    pub account_number: Seq<u8>,
    pub account_name: Seq<u8>,
    pub phone_number: Seq<u8>,
}

/// Bank-account details of the payment recipient: three bounded byte strings,
/// immutable once the payment request is created.
pub struct RecipientDetails {
    pub account_number: Vec<u8>,
    pub account_name: Vec<u8>,
    pub phone_number: Vec<u8>,
}

impl View for RecipientDetails {
    type V = RecipientDetailsView;

    open spec fn view(&self) -> RecipientDetailsView {
        RecipientDetailsView {
            account_number: self.account_number@,
            account_name: self.account_name@,
            phone_number: self.phone_number@,
        }
    }
}

/// Recipient details are valid when every field fits its byte-length bound.
pub open spec fn valid_recipient_details(rd: RecipientDetailsView) -> bool {
    &&& rd.account_number.len() <= MAX_ACCOUNT_NUMBER_LEN
    &&& rd.account_name.len() <= MAX_ACCOUNT_NAME_LEN
    &&& rd.phone_number.len() <= MAX_PHONE_NUMBER_LEN
}

impl RecipientDetails {
    /// Serialized size reserved for a recipient-details record: the byte
    /// bounds of its three fields.
    pub const SIZE: usize = 10 + 100 + 15;

    /// Checks the byte-length bound of every field.
    pub fn in_bounds(&self) -> (r: bool)
        ensures
            r == valid_recipient_details(self@),
    {
        self.account_number.len() <= MAX_ACCOUNT_NUMBER_LEN
            && self.account_name.len() <= MAX_ACCOUNT_NAME_LEN
            && self.phone_number.len() <= MAX_PHONE_NUMBER_LEN
    }
}

impl Clone for RecipientDetails {
    /// Cloning keeps every field's bytes.
    fn clone(&self) -> (r: Self)
        ensures
            r@ == self@,
    {
        RecipientDetails {
            account_number: copy_bytes(&self.account_number),
            account_name: copy_bytes(&self.account_name),
            phone_number: copy_bytes(&self.phone_number),
        }
    }
}

/// Lifecycle status of a payment request: `Pending` is initial, `Completed`
/// is terminal, and the only transition is `Pending` to `Completed`.
#[derive(Clone, Copy, PartialEq, Eq, Structural, Debug)]
pub enum PaymentStatus {
    Pending,
    Completed,
}

/// The mathematical model of a `PaymentRequest` record.
pub ghost struct PaymentRequestView {
    pub sender: Seq<u8>,
    pub amount: u64,
    pub status: PaymentStatus,
    pub market_maker: Option<Seq<u8>>,
    pub recipient_details: RecipientDetailsView,
    pub bump: u8,
    pub request_id: Seq<u8>,
}

/// One payment request: created by a sender, fulfilled at most once by a
/// market maker. All fields but `status` and `market_maker` are immutable
/// after creation.
pub struct PaymentRequest {
    pub sender: Address,
    pub amount: u64,
    pub status: PaymentStatus,
    pub market_maker: Option<Address>,
    pub recipient_details: RecipientDetails,
    pub bump: u8,
    pub request_id: Vec<u8>,
}

impl View for PaymentRequest {
    type V = PaymentRequestView;

    open spec fn view(&self) -> PaymentRequestView {
        PaymentRequestView {
            sender: self.sender@,
            amount: self.amount,
            status: self.status,
            market_maker: match self.market_maker {
                Some(m) => Some(m@),
                None => None,
            },
            recipient_details: self.recipient_details@,
            bump: self.bump,
            request_id: self.request_id@,
        }
    }
}

/// Serialized size reserved for one stored payment request: an 8-byte
/// header, the 32-byte sender, the 8-byte amount, the 1-byte status, the
/// 33-byte optional market maker, the recipient details, the 1-byte
/// derivation salt and the bounded request identifier.
pub const PAYMENT_REQUEST_SPACE: usize = 8 + 32 + 8 + 1 + 33 + RecipientDetails::SIZE + 1 + 50;

/// A well-formed record: identities are 32 bytes, bounded fields fit their
/// bounds, and the market maker is present exactly when the status is
/// `Completed`.
pub open spec fn record_wf(rec: PaymentRequestView) -> bool {
    &&& rec.sender.len() == 32
    &&& valid_request_id(rec.request_id)
    &&& valid_recipient_details(rec.recipient_details)
    &&& (rec.status == PaymentStatus::Completed <==> rec.market_maker is Some)
    &&& (rec.market_maker matches Some(m) ==> m.len() == 32)
}

} // verus!
