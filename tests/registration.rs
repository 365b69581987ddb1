use verdict_ledger::registration::{CODE_ADDRESS_IN_USE, CODE_INSUFFICIENT_FUNDS, CODE_NEGATIVE_BALANCE};
use verdict_ledger::{
    accept_search, check_request, check_target, complete_registration, creation_result,
    derive_storage_address, plan_registration, prepare_registration, read_record, write_record,
    DerivedAddress, Registration, VerdictError, VerdictRecord, RECORD_LEN,
};

const CALLER: [u8; 32] = [0xAA; 32];
const PROGRAM: [u8; 32] = [0x11; 32];
const SLOT: [u8; 32] = [0x5C; 32];

fn scenario_data() -> Vec<u8> {
    let mut data = vec![0u8; 32];
    data.extend_from_slice(&[1, 2, 3, 4, 5, 6, 7]);
    data.push(9);
    data
}

fn scenario_registration() -> Registration {
    let request = check_request(&scenario_data(), 3, true).unwrap();
    let derived = DerivedAddress { address: SLOT, bump: 254 };
    plan_registration(&request, &derived, &SLOT, &CALLER, &PROGRAM, 1_398_960).unwrap()
}

fn expected_bytes(bump: u8) -> Vec<u8> {
    let mut b = vec![bump];
    b.extend_from_slice(&[0u8; 32]);
    b.extend_from_slice(&[1, 2, 3, 4, 5, 6, 7]);
    b.push(9);
    b.extend_from_slice(&CALLER);
    b
}

#[test]
fn short_payload_is_malformed() {
    let data = vec![0u8; 39];
    assert_eq!(check_request(&data, 3, true), Err(VerdictError::MalformedInput));
}

#[test]
fn too_few_identities_is_malformed() {
    assert_eq!(check_request(&scenario_data(), 2, true), Err(VerdictError::MalformedInput));
}

#[test]
fn shape_is_checked_before_signature() {
    let data = vec![0u8; 10];
    assert_eq!(check_request(&data, 1, false), Err(VerdictError::MalformedInput));
}

#[test]
fn unsigned_caller_is_unauthorized() {
    assert_eq!(check_request(&scenario_data(), 3, false), Err(VerdictError::Unauthorized));
}

#[test]
fn unsigned_caller_gets_no_slot_plan() {
    let r = prepare_registration(&scenario_data(), 3, &CALLER, false, &SLOT, &PROGRAM, 1);
    assert_eq!(r, Err(VerdictError::Unauthorized));
}

#[test]
fn malformed_request_gets_no_slot_plan() {
    let r = prepare_registration(&[0u8; 12], 3, &CALLER, true, &SLOT, &PROGRAM, 1);
    assert_eq!(r, Err(VerdictError::MalformedInput));
}

#[test]
fn request_fields_are_read_at_their_offsets() {
    let mut data = scenario_data();
    data[0] = 0xF0;
    data[31] = 0x0F;
    data.extend_from_slice(&[0xEE; 5]);
    let q = check_request(&data, 4, true).unwrap();
    assert_eq!(q.subject_hash[0], 0xF0);
    assert_eq!(q.subject_hash[31], 0x0F);
    assert_eq!(q.payload, [1, 2, 3, 4, 5, 6, 7]);
    assert_eq!(q.discriminator, 9);
}

#[test]
fn empty_search_exhausts_address_space() {
    assert_eq!(accept_search(None), Err(VerdictError::AddressSpaceExhausted));
}

#[test]
fn found_search_gives_address_and_bump() {
    let d = accept_search(Some(([3u8; 32], 251))).unwrap();
    assert_eq!(d, DerivedAddress { address: [3u8; 32], bump: 251 });
}

#[test]
fn derivation_repeats() {
    let a = derive_storage_address(&[0u8; 32], &PROGRAM);
    let b = derive_storage_address(&[0u8; 32], &PROGRAM);
    assert_eq!(a, b);
}

#[test]
fn other_target_is_a_mismatch() {
    let d = DerivedAddress { address: SLOT, bump: 254 };
    let mut other = SLOT;
    other[31] ^= 1;
    assert_eq!(check_target(&d, &other), Err(VerdictError::AddressMismatch));
    assert_eq!(check_target(&d, &SLOT), Ok(()));
}

#[test]
fn plan_rejects_attacker_slot() {
    let request = check_request(&scenario_data(), 3, true).unwrap();
    let derived = DerivedAddress { address: SLOT, bump: 254 };
    let r = plan_registration(&request, &derived, &[0x77; 32], &CALLER, &PROGRAM, 5);
    assert_eq!(r, Err(VerdictError::AddressMismatch));
}

#[test]
fn plan_sizes_and_funds_the_slot() {
    let reg = scenario_registration();
    assert_eq!(reg.plan.space, 73);
    assert_eq!(reg.plan.lamports, 1_398_960);
    assert_eq!(reg.plan.payer, CALLER);
    assert_eq!(reg.plan.owner, PROGRAM);
    assert_eq!(reg.plan.address, SLOT);
    assert_eq!(reg.plan.subject_hash, [0u8; 32]);
    assert_eq!(reg.plan.bump, 254);
    assert_eq!(reg.record.authority, CALLER);
}

#[test]
fn zero_hash_scenario_writes_expected_bytes_then_collides() {
    let reg = scenario_registration();
    let mut slot = vec![0u8; RECORD_LEN];
    assert_eq!(complete_registration(&reg, Ok(()), &mut slot), Ok(()));
    assert_eq!(slot.len(), 73);
    assert_eq!(slot, expected_bytes(254));

    let again = scenario_registration();
    let r = complete_registration(&again, Err(CODE_ADDRESS_IN_USE), &mut slot);
    assert_eq!(r, Err(VerdictError::SlotAlreadyExists));
    assert_eq!(slot, expected_bytes(254));
}

#[test]
fn second_registration_keeps_first_bytes() {
    let first = scenario_registration();
    let mut slot = vec![0u8; RECORD_LEN];
    complete_registration(&first, Ok(()), &mut slot).unwrap();
    let before = slot.clone();

    let mut data = scenario_data();
    data[32] = 0x42;
    let request = check_request(&data, 3, true).unwrap();
    let derived = DerivedAddress { address: SLOT, bump: 254 };
    let other_caller = [0x33; 32];
    let second =
        plan_registration(&request, &derived, &SLOT, &other_caller, &PROGRAM, 1).unwrap();
    let r = complete_registration(&second, Err(CODE_ADDRESS_IN_USE), &mut slot);
    assert_eq!(r, Err(VerdictError::SlotAlreadyExists));
    assert_eq!(slot, before);
}

#[test]
fn unfunded_creation_is_insufficient_funds() {
    let reg = scenario_registration();
    let mut slot = vec![0u8; RECORD_LEN];
    let r = complete_registration(&reg, Err(CODE_NEGATIVE_BALANCE), &mut slot);
    assert_eq!(r, Err(VerdictError::InsufficientFunds));
    assert_eq!(slot, vec![0u8; RECORD_LEN]);
    assert_eq!(creation_result(Err(CODE_INSUFFICIENT_FUNDS)), Err(VerdictError::InsufficientFunds));
}

#[test]
fn other_ledger_errors_pass_through() {
    assert_eq!(creation_result(Err(42)), Err(VerdictError::Ledger(42)));
    assert_eq!(creation_result(Ok(())), Ok(()));
}

#[test]
fn wrong_slot_size_is_too_small() {
    let reg = scenario_registration();
    let mut slot = vec![0u8; 72];
    assert_eq!(complete_registration(&reg, Ok(()), &mut slot), Err(VerdictError::SlotTooSmall));
    assert_eq!(slot, vec![0u8; 72]);
    let mut big = vec![0u8; 74];
    assert_eq!(write_record(&mut big, &reg.record), Err(VerdictError::SlotTooSmall));
    assert_eq!(read_record(&big), Err(VerdictError::SlotTooSmall));
}

#[test]
fn record_round_trips() {
    let mut subject_hash = [0u8; 32];
    for (i, b) in subject_hash.iter_mut().enumerate() {
        *b = i as u8;
    }
    let rec = VerdictRecord {
        bump: 199,
        subject_hash,
        payload: [9, 8, 7, 6, 5, 4, 3],
        discriminator: 0xFE,
        authority: [0x5A; 32],
    };
    let mut slot = vec![0xFFu8; RECORD_LEN];
    write_record(&mut slot, &rec).unwrap();
    assert_eq!(slot[0], 199);
    assert_eq!(&slot[1..33], &subject_hash[..]);
    assert_eq!(&slot[33..40], &[9, 8, 7, 6, 5, 4, 3]);
    assert_eq!(slot[40], 0xFE);
    assert_eq!(&slot[41..73], &[0x5A; 32]);
    assert_eq!(read_record(&slot), Ok(rec));
}
