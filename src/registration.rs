use vstd::prelude::*;
use crate::address::{
    check_target, derive_storage_address, derived_for, domain_tag, program_address,
    DerivedAddress,
};
use crate::error::VerdictError;
use crate::record::{record_bytes, write_record, VerdictRecord, RECORD_LEN};
use crate::request::{check_request, request_of, well_formed, Request};

verus! {

/// Ledger code of a slot creation that found the address already in use.
pub const CODE_ADDRESS_IN_USE: u64 = 4294967296;

/// Ledger code of a slot creation that would leave the payer's balance
/// negative.
pub const CODE_NEGATIVE_BALANCE: u64 = 1;

/// Ledger code of a payer whose balance is too low.
pub const CODE_INSUFFICIENT_FUNDS: u64 = 25769803776;

/// What the slot-creation service is asked to do, together with the seeds
/// that prove this module may sign for the new address.
#[derive(Clone, Copy, Debug, PartialEq, Eq)]
pub struct SlotPlan {
    /// The caller, who pays for the slot.
    pub payer: [u8; 32],
    /// The derived slot address.
    pub address: [u8; 32],
    /// The module that will own the slot.
    pub owner: [u8; 32],
    /// Balance that makes the slot exempt from storage fees.
    pub lamports: u64,
    /// Size of the slot in bytes.
    pub space: u64,
    /// Subject hash, the second derivation seed.
    pub subject_hash: [u8; 32],
    /// Bump nonce, the third derivation seed.
    pub bump: u8,
}

/// A registration that passed every check before slot creation: the slot to
/// create and the record to write into it.
#[derive(Clone, Copy, Debug, PartialEq, Eq)]
pub struct Registration {
    pub plan: SlotPlan,
    pub record: VerdictRecord,
}

impl SlotPlan {
    /// The derivation seeds, in order: domain tag, subject hash, bump.
    pub open spec fn seeds(self) -> Seq<Seq<u8>> {
        seq![domain_tag(), self.subject_hash@, seq![self.bump]]
    }
}

/// `reg` registers request `q` at derivation `d`, paid by `caller` with
/// `min_balance`, for the module `program_id`.
pub open spec fn planned(
    reg: Registration,
    q: Request,
    d: DerivedAddress,
    caller: Seq<u8>,
    program_id: Seq<u8>,
    min_balance: u64,
) -> bool {
    &&& reg.plan.payer@ == caller
    &&& reg.plan.address == d.address
    &&& reg.plan.owner@ == program_id
    &&& reg.plan.lamports == min_balance
    &&& reg.plan.space == RECORD_LEN
    &&& reg.plan.subject_hash == q.subject_hash
    &&& reg.plan.bump == d.bump
    &&& reg.record == (VerdictRecord {
        bump: d.bump,
        subject_hash: q.subject_hash,
        payload: q.payload,
        discriminator: q.discriminator,
        authority: reg.plan.payer,
    })
}

/// Plans the registration of a checked request at a derived address: fails
/// with `AddressMismatch` exactly when the caller's target is not that
/// address.
pub fn plan_registration(
    request: &Request,
    derived: &DerivedAddress,
    target: &[u8; 32],
    caller: &[u8; 32],
    program_id: &[u8; 32],
    min_balance: u64,
) -> (r: Result<Registration, VerdictError>)
    ensures
        r is Ok <==> derived.address@ == target@,
        r is Err ==> r == Err::<Registration, VerdictError>(VerdictError::AddressMismatch),
        r matches Ok(reg) ==> planned(reg, *request, *derived, caller@, program_id@, min_balance),
{
    check_target(derived, target)?;
    let plan = SlotPlan {
        payer: *caller,
        address: derived.address,
        owner: *program_id,
        lamports: min_balance,
        space: RECORD_LEN as u64,
        subject_hash: request.subject_hash,
        bump: derived.bump,
    };
    let record = VerdictRecord {
        bump: derived.bump,
        subject_hash: request.subject_hash,
        payload: request.payload,
        discriminator: request.discriminator,
        authority: *caller,
    };
    Ok(Registration { plan, record })
}

/// Runs every check that precedes slot creation: shape, signature, address
/// derivation and target. `min_balance` is the slot's fee-exempt balance
/// under the request's rent parameters.
pub fn prepare_registration(
    data: &[u8],
    n_identities: usize,
    caller: &[u8; 32],
    caller_is_signer: bool,
    target: &[u8; 32],
    program_id: &[u8; 32],
    min_balance: u64,
) -> (r: Result<Registration, VerdictError>)
    ensures
        !well_formed(data@, n_identities) <==> r == Err::<Registration, VerdictError>(
            VerdictError::MalformedInput,
        ),
        well_formed(data@, n_identities) && !caller_is_signer <==> r == Err::<
            Registration,
            VerdictError,
        >(VerdictError::Unauthorized),
        r is Ok ==> well_formed(data@, n_identities) && caller_is_signer,
        r matches Ok(reg) ==> exists|q: Request|
            request_of(data@, q) && planned(
                reg,
                q,
                DerivedAddress { address: reg.plan.address, bump: reg.plan.bump },
                caller@,
                program_id@,
                min_balance,
            ),
        r matches Ok(reg) ==> reg.plan.address@ == target@ && derived_for(
            data@.subrange(0, 32),
            program_id@,
            DerivedAddress { address: reg.plan.address, bump: reg.plan.bump },
        ),
        r == Err::<Registration, VerdictError>(VerdictError::AddressMismatch) ==> program_address(
            domain_tag(),
            data@.subrange(0, 32),
            program_id@,
        ).0 != target@,
        well_formed(data@, n_identities) && caller_is_signer && r is Err ==> r == Err::<
            Registration,
            VerdictError,
        >(VerdictError::AddressMismatch) || r == Err::<Registration, VerdictError>(
            VerdictError::AddressSpaceExhausted,
        ),
{
    let request = check_request(data, n_identities, caller_is_signer)?;
    let derived = derive_storage_address(&request.subject_hash, program_id)?;
    plan_registration(&request, &derived, target, caller, program_id, min_balance)
}

/// The registration's outcome for an answer of the slot-creation service.
pub open spec fn creation_outcome(outcome: Result<(), u64>) -> Result<(), VerdictError> {
    match outcome {
        Ok(()) => Ok(()),
        Err(c) => if c == CODE_ADDRESS_IN_USE {
            Err(VerdictError::SlotAlreadyExists)
        } else if c == CODE_NEGATIVE_BALANCE || c == CODE_INSUFFICIENT_FUNDS {
            Err(VerdictError::InsufficientFunds)
        } else {
            Err(VerdictError::Ledger(c))
        },
    }
}

/// Maps the slot-creation service's outcome, an error code of the ledger on
/// failure, to the registration's outcome.
pub fn creation_result(outcome: Result<(), u64>) -> (r: Result<(), VerdictError>)
    ensures
        r == creation_outcome(outcome),
{
    match outcome {
        Ok(()) => Ok(()),
        Err(c) => {
            if c == CODE_ADDRESS_IN_USE {
                Err(VerdictError::SlotAlreadyExists)
            } else if c == CODE_NEGATIVE_BALANCE || c == CODE_INSUFFICIENT_FUNDS {
                Err(VerdictError::InsufficientFunds)
            } else {
                Err(VerdictError::Ledger(c))
            }
        },
    }
}

/// What finishing a registration returns and leaves in the slot, given the
/// service's answer and the slot's bytes before.
pub open spec fn completion(reg: Registration, outcome: Result<(), u64>, before: Seq<u8>) -> (
    Result<(), VerdictError>,
    Seq<u8>,
) {
    if outcome is Err {
        (creation_outcome(outcome), before)
    } else if before.len() != RECORD_LEN {
        (Err(VerdictError::SlotTooSmall), before)
    } else {
        (Ok(()), record_bytes(reg.record))
    }
}

/// Finishes a registration once the slot-creation service has answered:
/// on success writes the record into the new slot; on failure reports why
/// and leaves the slot's bytes as they were.
pub fn complete_registration(
    reg: &Registration,
    outcome: Result<(), u64>,
    slot: &mut [u8],
) -> (r: Result<(), VerdictError>)
    ensures
        (r, final(slot)@) == completion(*reg, outcome, old(slot)@),
{
    let created = creation_result(outcome);
    if created.is_err() {
        return created;
    }
    let r = write_record(slot, &reg.record);
    r
}

/// Registering one subject twice: once the first registration has filled
/// the subject's slot, the second, whose slot creation the ledger refuses
/// because the address is in use, fails with `SlotAlreadyExists` and leaves
/// the slot's bytes exactly as the first left them.
pub proof fn lemma_one_record_per_subject(first: Registration, second: Registration, fresh: Seq<u8>)
    requires
        fresh.len() == RECORD_LEN,
        first.plan.address == second.plan.address,
    ensures
        completion(first, Ok(()), fresh).0 is Ok,
        completion(first, Ok(()), fresh).1 == record_bytes(first.record),
        completion(second, Err(CODE_ADDRESS_IN_USE), completion(first, Ok(()), fresh).1) == (
            Err::<(), VerdictError>(VerdictError::SlotAlreadyExists),
            record_bytes(first.record),
        ),
{
}

} // verus!
