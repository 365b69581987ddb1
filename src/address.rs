use vstd::prelude::*;
use crate::error::VerdictError;

verus! {

/// Seed that sets verdict slots apart from every other kind of derived
/// address (the byte `b'v'`).
pub const DOMAIN_TAG: u8 = 118;

/// The domain tag as a seed.
pub open spec fn domain_tag() -> Seq<u8> {
    seq![DOMAIN_TAG]
}

/// The ledger's program-derived address for two seeds under a program, with
/// the bump nonce that its search from 255 downward settled on.
pub uninterp spec fn program_address(tag: Seq<u8>, subject: Seq<u8>, program_id: Seq<u8>) -> (
    Seq<u8>,
    u8,
);

/// Relies on pinocchio::pubkey::try_find_program_address: an address that it
/// returns is the program-derived address of the seeds under the program,
/// with its bump. It returns `None` when no bump gives an off-curve address,
/// and always off the ledger.
#[verifier::external_body]
fn find_program_address(tag: &[u8], subject: &[u8; 32], program_id: &[u8; 32]) -> (r: Option<
    ([u8; 32], u8),
>)
    ensures
        r matches Some(found) ==> (found.0@, found.1) == program_address(
            tag@,
            subject@,
            program_id@,
        ),
{
    pinocchio::pubkey::try_find_program_address(&[tag, subject.as_slice()], program_id)
}

/// A storage address and the bump nonce that produced it.
#[derive(Clone, Copy, Debug, PartialEq, Eq)]
pub struct DerivedAddress {
    pub address: [u8; 32],
    pub bump: u8,
}

/// `d` is the slot address and bump of `subject` under `program_id`.
pub open spec fn derived_for(subject: Seq<u8>, program_id: Seq<u8>, d: DerivedAddress) -> bool {
    (d.address@, d.bump) == program_address(domain_tag(), subject, program_id)
}

/// Turns the outcome of the ledger's address search into a derivation: a
/// search that found nothing is `AddressSpaceExhausted`.
pub fn accept_search(found: Option<([u8; 32], u8)>) -> (r: Result<DerivedAddress, VerdictError>)
    ensures
        found is None <==> r == Err::<DerivedAddress, VerdictError>(
            VerdictError::AddressSpaceExhausted,
        ),
        found matches Some(f) ==> r == Ok::<DerivedAddress, VerdictError>(
            (DerivedAddress { address: f.0, bump: f.1 }),
        ),
{
    match found {
        None => Err(VerdictError::AddressSpaceExhausted),
        Some((address, bump)) => Ok(DerivedAddress { address, bump }),
    }
}

/// Derives the slot address of a subject under a program.
pub fn derive_storage_address(subject_hash: &[u8; 32], program_id: &[u8; 32]) -> (r: Result<
    DerivedAddress,
    VerdictError,
>)
    ensures
        r matches Ok(d) ==> derived_for(subject_hash@, program_id@, d),
        r is Err ==> r == Err::<DerivedAddress, VerdictError>(VerdictError::AddressSpaceExhausted),
{
    let tag: [u8; 1] = [DOMAIN_TAG];
    proof {
        assert(tag@ =~= domain_tag());
    }
    accept_search(find_program_address(tag.as_slice(), subject_hash, program_id))
}

/// Whether two 32-byte identities are equal.
pub fn same_key(a: &[u8; 32], b: &[u8; 32]) -> (r: bool)
    ensures
        r <==> a@ == b@,
{
    let mut i: usize = 0;
    while i < 32
        invariant
            0 <= i <= 32,
            forall|k: int| 0 <= k < i ==> a@[k] == b@[k],
        decreases 32 - i,
    {
        if a[i] != b[i] {
            return false;
        }
        i = i + 1;
    }
    assert(a@ =~= b@);
    true
}

/// Checks that the caller's target slot is the derived address.
pub fn check_target(derived: &DerivedAddress, target: &[u8; 32]) -> (r: Result<(), VerdictError>)
    ensures
        r is Ok <==> derived.address@ == target@,
        r is Err ==> r == Err::<(), VerdictError>(VerdictError::AddressMismatch),
{
    if same_key(&derived.address, target) {
        Ok(())
    } else {
        Err(VerdictError::AddressMismatch)
    }
}

/// Deriving twice for one subject under one program gives the same address
/// and the same bump.
pub proof fn lemma_derivation_deterministic(
    subject: Seq<u8>,
    program_id: Seq<u8>,
    d1: DerivedAddress,
    d2: DerivedAddress,
)
    requires
        derived_for(subject, program_id, d1),
        derived_for(subject, program_id, d2),
    ensures
        d1 == d2,
{
    assert(d1.address =~= d2.address);
}

} // verus!
