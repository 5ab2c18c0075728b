use vstd::prelude::*;

use crate::bytes::copy_bytes;
use crate::error::PayFluxError;

verus! {

/// A 32-byte storage address or caller identity.
pub struct Address {
    pub bytes: Vec<u8>,
}

impl View for Address {
    type V = Seq<u8>;

    open spec fn view(&self) -> Seq<u8> {
        self.bytes@
    }
}

impl Address {
    /// A well-formed address holds exactly 32 bytes.
    pub open spec fn wf(&self) -> bool {
        self@.len() == 32
    }
}

impl Clone for Address {
    /// Cloning keeps the address bytes.
    fn clone(&self) -> (r: Self)
        ensures
            r@ == self@,
    {
        Address { bytes: copy_bytes(&self.bytes) }
    }
}

/// The bytes of the domain-separation tag that prefixes every derivation.
pub open spec fn payment_tag_seq() -> Seq<u8> {
    seq![112u8, 97u8, 121u8, 109u8, 101u8, 110u8, 116u8]
}

/// Builds the domain-separation tag, the bytes of "payment".
pub fn payment_tag() -> (r: Vec<u8>)
    ensures
        r@ == payment_tag_seq(),
{
    let mut v: Vec<u8> = Vec::new();
    v.push(112);
    v.push(97);
    v.push(121);
    v.push(109);
    v.push(101);
    v.push(110);
    v.push(116);
    proof {
        assert(v@ =~= payment_tag_seq());
    }
    v
}

/// The bytes of the fixed program identity under which addresses are derived.
pub open spec fn program_id_seq() -> Seq<u8> {
    seq![
        9u8, 43u8, 225u8, 230u8, 237u8, 13u8, 216u8, 237u8, 44u8, 121u8, 170u8, 202u8, 171u8,
        13u8, 123u8, 122u8, 17u8, 76u8, 28u8, 165u8, 22u8, 109u8, 84u8, 97u8, 252u8, 22u8, 20u8,
        59u8, 1u8, 116u8, 88u8, 174u8,
    ]
}

/// Builds the fixed program identity under which addresses are derived.
pub fn program_id() -> (r: Vec<u8>)
    ensures
        r@ == program_id_seq(),
{
    let mut v: Vec<u8> = Vec::new();
    v.push(9);
    v.push(43);
    v.push(225);
    v.push(230);
    v.push(237);
    v.push(13);
    v.push(216);
    v.push(237);
    v.push(44);
    v.push(121);
    v.push(170);
    v.push(202);
    v.push(171);
    v.push(13);
    v.push(123);
    v.push(122);
    v.push(17);
    v.push(76);
    v.push(28);
    v.push(165);
    v.push(22);
    v.push(109);
    v.push(84);
    v.push(97);
    v.push(252);
    v.push(22);
    v.push(20);
    v.push(59);
    v.push(1);
    v.push(116);
    v.push(88);
    v.push(174);
    proof {
        assert(v@ =~= program_id_seq());
    }
    v
}

/// The address and derivation salt that the program-derived-address search
/// yields for the given seeds and program identity, or `None` when no salt in
/// the search space yields a valid address.
pub uninterp spec fn derived_identity(tag: Seq<u8>, request_id: Seq<u8>, program: Seq<u8>) -> Option<(Seq<u8>, u8)>;

/// Relies on solana_pubkey::Pubkey::try_find_program_address: the result is a
/// function of the seeds and the program id alone; an address is 32 bytes;
/// None is returned when no bump seed yields a valid derived address.
#[verifier::external_body]
fn try_derive(tag: &Vec<u8>, request_id: &Vec<u8>, program: &Vec<u8>) -> (r: Option<(Vec<u8>, u8)>)
    requires
        program@.len() == 32,
    ensures
        (match r {
            Some(p) => derived_identity(tag@, request_id@, program@) == Some((p.0@, p.1))
                && p.0@.len() == 32,
            None => derived_identity(tag@, request_id@, program@) is None,
        }),
{
    let mut pid_bytes = [0u8; 32];
    pid_bytes.copy_from_slice(program);
    let pid = solana_pubkey::Pubkey::new_from_array(pid_bytes);
    solana_pubkey::Pubkey::try_find_program_address(
        &[tag.as_slice(), request_id.as_slice()],
        &pid,
    ).map(|p: (solana_pubkey::Pubkey, u8)| (p.0.to_bytes().to_vec(), p.1))
}

/// Derives the canonical storage address and salt for a request identifier,
/// under the payment tag and the fixed program identity. Deterministic: the
/// result is pinned to a function of the identifier alone.
pub fn derive_payment_identity(request_id: &Vec<u8>) -> (r: Result<(Address, u8), PayFluxError>)
    ensures
        (match derived_identity(payment_tag_seq(), request_id@, program_id_seq()) {
            Some(p) => (match r {
                Ok(q) => q.0@ == p.0 && q.1 == p.1 && q.0.wf(),
                Err(_) => false,
            }),
            None => r == Err::<(Address, u8), PayFluxError>(PayFluxError::DerivationExhausted),
        }),
{
    let tag = payment_tag();
    let pid = program_id();
    match try_derive(&tag, request_id, &pid) {
        Some(p) => Ok((Address { bytes: p.0 }, p.1)),
        None => Err(PayFluxError::DerivationExhausted),
    }
}

/// Identity derivation is deterministic: any two outcomes that the derivation
/// contract admits for the same request identifier are equal.
pub proof fn derivation_deterministic(
    request_id: Seq<u8>,
    r1: Option<(Seq<u8>, u8)>,
    r2: Option<(Seq<u8>, u8)>,
)
    requires
        r1 == derived_identity(payment_tag_seq(), request_id, program_id_seq()),
        r2 == derived_identity(payment_tag_seq(), request_id, program_id_seq()),
    ensures
        r1 == r2,
{
}

} // verus!
