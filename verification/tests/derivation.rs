use std::str::FromStr;

use pay_flux::identity::derive_payment_identity;

#[test]
fn derivation_is_deterministic() {
    let id = b"req-001".to_vec();
    let (a1, b1) = derive_payment_identity(&id).expect("derivation should succeed");
    let (a2, b2) = derive_payment_identity(&id).expect("derivation should succeed");
    assert_eq!(a1.bytes, a2.bytes);
    assert_eq!(b1, b2);
}

#[test]
fn distinct_identifiers_yield_distinct_addresses() {
    let corpus: Vec<&[u8]> = vec![
        b"req-001",
        b"req-002",
        b"req-003",
        b"a",
        b"b",
        b"payment-xyz",
        b"",
        b"0123456789",
    ];
    let mut derived: Vec<Vec<u8>> = Vec::new();
    for id in &corpus {
        let (a, _) = derive_payment_identity(&id.to_vec()).expect("derivation should succeed");
        derived.push(a.bytes);
    }
    for i in 0..derived.len() {
        for j in 0..derived.len() {
            if i != j {
                assert_ne!(derived[i], derived[j]);
            }
        }
    }
}

#[test]
fn derived_address_is_32_bytes_and_differs_from_the_identifier() {
    let id = b"req-001".to_vec();
    let (a, _) = derive_payment_identity(&id).expect("derivation should succeed");
    assert_eq!(a.bytes.len(), 32);
    assert_ne!(a.bytes, id);
}

#[test]
fn derivation_matches_the_host_program_address_search() {
    let pid = solana_pubkey::Pubkey::from_str("coUnmi3oBUtwtd9fjeAvSsJssXh5A5xyPbhpewyzRVF")
        .expect("the program id should parse");
    let (expected, expected_bump) =
        solana_pubkey::Pubkey::find_program_address(&[b"payment", b"req-001"], &pid);
    let (address, bump) =
        derive_payment_identity(&b"req-001".to_vec()).expect("derivation should succeed");
    assert_eq!(address.bytes, expected.to_bytes().to_vec());
    assert_eq!(bump, expected_bump);
}
