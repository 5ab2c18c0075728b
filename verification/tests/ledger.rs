use pay_flux::engine::CreatePayment;
use pay_flux::engine::FulfillPayment;
use pay_flux::engine::Ledger;
use pay_flux::entity::PaymentStatus;
use pay_flux::entity::RecipientDetails;
use pay_flux::error::PayFluxError;
use pay_flux::events::PaymentEvent;
use pay_flux::identity::Address;

fn addr(b: u8) -> Address {
    Address { bytes: vec![b; 32] }
}

fn valid_details() -> RecipientDetails {
    RecipientDetails {
        account_number: b"12345678".to_vec(),
        account_name: b"Jane Doe".to_vec(),
        phone_number: b"5551234".to_vec(),
    }
}

fn create_req_001(ledger: &mut Ledger) -> Address {
    ledger
        .create_payment(
            CreatePayment { sender: addr(1) },
            b"req-001".to_vec(),
            1000,
            valid_details(),
        )
        .expect("creation of req-001 should succeed")
}

#[test]
fn create_stores_pending_record() {
    let mut ledger = Ledger::new();
    let address = create_req_001(&mut ledger);
    let rec = ledger.get_payment(&address).expect("record should be stored");
    assert_eq!(rec.status, PaymentStatus::Pending);
    assert!(rec.market_maker.is_none());
    assert_eq!(rec.amount, 1000);
    assert_eq!(rec.sender.bytes, addr(1).bytes);
    assert_eq!(rec.request_id, b"req-001".to_vec());
    assert_eq!(rec.recipient_details.account_number, b"12345678".to_vec());
    assert_eq!(rec.recipient_details.account_name, b"Jane Doe".to_vec());
    assert_eq!(rec.recipient_details.phone_number, b"5551234".to_vec());
}

#[test]
fn create_emits_created_event() {
    let mut ledger = Ledger::new();
    create_req_001(&mut ledger);
    assert_eq!(ledger.events.len(), 1);
    match &ledger.events[0] {
        PaymentEvent::Created(e) => {
            assert_eq!(e.request_id, b"req-001".to_vec());
            assert_eq!(e.sender.bytes, addr(1).bytes);
            assert_eq!(e.amount, 1000);
            assert_eq!(e.recipient_details.account_number, b"12345678".to_vec());
        }
        PaymentEvent::Fulfilled(_) => panic!("expected a created event"),
    }
}

#[test]
fn duplicate_create_fails_with_already_exists() {
    let mut ledger = Ledger::new();
    let address = create_req_001(&mut ledger);
    let r = ledger.create_payment(
        CreatePayment { sender: addr(4) },
        b"req-001".to_vec(),
        7777,
        valid_details(),
    );
    match r {
        Err(e) => assert_eq!(e, PayFluxError::AlreadyExists),
        Ok(_) => panic!("expected duplicate rejection"),
    }
    let rec = ledger.get_payment(&address).expect("first record should remain");
    assert_eq!(rec.amount, 1000);
    assert_eq!(rec.sender.bytes, addr(1).bytes);
    assert_eq!(rec.status, PaymentStatus::Pending);
    assert_eq!(ledger.events.len(), 1);
}

#[test]
fn fulfill_completes_record_and_emits() {
    let mut ledger = Ledger::new();
    let address = create_req_001(&mut ledger);
    let m1 = addr(2);
    ledger
        .fulfill_payment(FulfillPayment {
            market_maker: addr(2),
            payment_request: Address { bytes: address.bytes.clone() },
        })
        .expect("fulfillment should succeed");
    let rec = ledger.get_payment(&address).expect("record should remain");
    assert_eq!(rec.status, PaymentStatus::Completed);
    match &rec.market_maker {
        Some(m) => assert_eq!(m.bytes, m1.bytes),
        None => panic!("market maker should be set"),
    }
    assert_eq!(ledger.events.len(), 2);
    match &ledger.events[1] {
        PaymentEvent::Fulfilled(e) => {
            assert_eq!(e.request_id, b"req-001".to_vec());
            assert_eq!(e.market_maker.bytes, m1.bytes);
            assert_eq!(e.amount, 1000);
        }
        PaymentEvent::Created(_) => panic!("expected a fulfilled event"),
    }
}

#[test]
fn fulfill_completed_record_is_rejected() {
    let mut ledger = Ledger::new();
    let address = create_req_001(&mut ledger);
    ledger
        .fulfill_payment(FulfillPayment {
            market_maker: addr(2),
            payment_request: Address { bytes: address.bytes.clone() },
        })
        .expect("first fulfillment should succeed");
    let r = ledger.fulfill_payment(FulfillPayment {
        market_maker: addr(3),
        payment_request: Address { bytes: address.bytes.clone() },
    });
    assert_eq!(r, Err(PayFluxError::InvalidPaymentStatus));
    let rec = ledger.get_payment(&address).expect("record should remain");
    assert_eq!(rec.status, PaymentStatus::Completed);
    match &rec.market_maker {
        Some(m) => assert_eq!(m.bytes, addr(2).bytes),
        None => panic!("market maker should still be set"),
    }
    assert_eq!(ledger.events.len(), 2);
}

#[test]
fn fulfill_unknown_address_is_not_found() {
    let mut ledger = Ledger::new();
    let r = ledger.fulfill_payment(FulfillPayment {
        market_maker: addr(2),
        payment_request: addr(9),
    });
    assert_eq!(r, Err(PayFluxError::NotFound));
    assert_eq!(ledger.events.len(), 0);
}

#[test]
fn account_number_at_bound_succeeds() {
    let mut ledger = Ledger::new();
    let details = RecipientDetails {
        account_number: b"1234567890".to_vec(),
        account_name: b"Jane Doe".to_vec(),
        phone_number: b"5551234".to_vec(),
    };
    let r = ledger.create_payment(CreatePayment { sender: addr(1) }, b"req-a".to_vec(), 5, details);
    assert!(r.is_ok());
}

#[test]
fn account_number_over_bound_is_invalid_input() {
    let mut ledger = Ledger::new();
    let details = RecipientDetails {
        account_number: b"12345678901".to_vec(),
        account_name: b"Jane Doe".to_vec(),
        phone_number: b"5551234".to_vec(),
    };
    let r = ledger.create_payment(CreatePayment { sender: addr(1) }, b"req-a".to_vec(), 5, details);
    match r {
        Err(e) => assert_eq!(e, PayFluxError::InvalidInput),
        Ok(_) => panic!("expected rejection of an over-long account number"),
    }
    assert!(ledger.get_payment(&addr(9)).is_none());
    assert_eq!(ledger.events.len(), 0);
}

#[test]
fn request_id_over_bound_is_invalid_input() {
    let mut ledger = Ledger::new();
    let long_id = vec![b'x'; 51];
    let r = ledger.create_payment(CreatePayment { sender: addr(1) }, long_id, 5, valid_details());
    match r {
        Err(e) => assert_eq!(e, PayFluxError::InvalidInput),
        Ok(_) => panic!("expected rejection of an over-long request identifier"),
    }
}

#[test]
fn request_id_beyond_seed_space_is_derivation_exhausted() {
    let mut ledger = Ledger::new();
    let long_id = vec![b'x'; 40];
    let r = ledger.create_payment(CreatePayment { sender: addr(1) }, long_id, 5, valid_details());
    match r {
        Err(e) => assert_eq!(e, PayFluxError::DerivationExhausted),
        Ok(_) => panic!("expected the derivation search space to be exhausted"),
    }
}

#[test]
fn empty_ledger_has_no_records() {
    let ledger = Ledger::new();
    assert!(ledger.get_payment(&addr(1)).is_none());
    assert_eq!(ledger.entries.len(), 0);
    assert_eq!(ledger.events.len(), 0);
}

#[test]
fn error_messages_name_the_violation() {
    assert_eq!(
        PayFluxError::InvalidPaymentStatus.message(),
        "invalid payment status for this operation"
    );
    assert_eq!(
        PayFluxError::AlreadyExists.message(),
        "a payment request with this identifier already exists"
    );
    assert!(!PayFluxError::NotFound.message().is_empty());
    assert!(!PayFluxError::InvalidInput.message().is_empty());
    assert!(!PayFluxError::DerivationExhausted.message().is_empty());
    assert!(!PayFluxError::StorageFailure.message().is_empty());
}
