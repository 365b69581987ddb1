use vstd::prelude::*;
use crate::error::VerdictError;

verus! {

/// Size in bytes of an encoded record, and of the slot that holds it.
pub const RECORD_LEN: usize = 73;

/// The fixed-layout record kept in a subject's slot.
#[derive(Clone, Copy, Debug, PartialEq, Eq)]
pub struct VerdictRecord {
    /// Nonce that made the slot address fall off the signing curve.
    pub bump: u8,
    /// Content hash of the subject.
    pub subject_hash: [u8; 32],
    /// Scoring payload, packed as the caller chose.
    pub payload: [u8; 7],
    /// Byte that the caller sent after the payload.
    pub discriminator: u8,
    /// Identity of the caller that registered the record.
    pub authority: [u8; 32],
}

/// The slot's bytes for a record: bump at 0, subject hash at 1..33, payload
/// at 33..40, discriminator at 40, authority at 41..73.
pub open spec fn record_bytes(r: VerdictRecord) -> Seq<u8> {
    seq![r.bump] + r.subject_hash@ + r.payload@ + seq![r.discriminator] + r.authority@
}

/// Reading `b` at the record's offsets gives back the fields of `r`.
pub open spec fn decodes_to(b: Seq<u8>, r: VerdictRecord) -> bool {
    &&& b.len() == RECORD_LEN
    &&& r.bump == b[0]
    &&& r.subject_hash@ == b.subrange(1, 33)
    &&& r.payload@ == b.subrange(33, 40)
    &&& r.discriminator == b[40]
    &&& r.authority@ == b.subrange(41, 73)
}

/// Writes `record` into `slot` at the record's offsets. The slot must have
/// exactly the record's size; otherwise nothing is written.
pub fn write_record(slot: &mut [u8], record: &VerdictRecord) -> (r: Result<(), VerdictError>)
    ensures
        r == Ok::<(), VerdictError>(()) || r == Err::<(), VerdictError>(VerdictError::SlotTooSmall),
        old(slot)@.len() == RECORD_LEN <==> r is Ok,
        r is Ok ==> final(slot)@ == record_bytes(*record),
        r is Err ==> final(slot)@ == old(slot)@,
{
    if slot.len() != RECORD_LEN {
        return Err(VerdictError::SlotTooSmall);
    }
    slot[0] = record.bump;
    let mut i: usize = 0;
    while i < 32
        invariant
            slot@.len() == RECORD_LEN,
            0 <= i <= 32,
            slot@[0] == record.bump,
            forall|k: int| 0 <= k < i ==> slot@[1 + k] == record.subject_hash@[k],
        decreases 32 - i,
    {
        slot[1 + i] = record.subject_hash[i];
        i = i + 1;
    }
    let mut i: usize = 0;
    while i < 7
        invariant
            slot@.len() == RECORD_LEN,
            0 <= i <= 7,
            slot@[0] == record.bump,
            forall|k: int| 0 <= k < 32 ==> slot@[1 + k] == record.subject_hash@[k],
            forall|k: int| 0 <= k < i ==> slot@[33 + k] == record.payload@[k],
        decreases 7 - i,
    {
        slot[33 + i] = record.payload[i];
        i = i + 1;
    }
    slot[40] = record.discriminator;
    let mut i: usize = 0;
    while i < 32
        invariant
            slot@.len() == RECORD_LEN,
            0 <= i <= 32,
            slot@[0] == record.bump,
            forall|k: int| 0 <= k < 32 ==> slot@[1 + k] == record.subject_hash@[k],
            forall|k: int| 0 <= k < 7 ==> slot@[33 + k] == record.payload@[k],
            slot@[40] == record.discriminator,
            forall|k: int| 0 <= k < i ==> slot@[41 + k] == record.authority@[k],
        decreases 32 - i,
    {
        slot[41 + i] = record.authority[i];
        i = i + 1;
    }
    assert(slot@ =~= record_bytes(*record));
    Ok(())
}

/// Copies `n` bytes of `src` starting at `start` into the front of a
/// 32-byte array; the remaining bytes are zero.
fn copy_out32(src: &[u8], start: usize, n: usize) -> (a: [u8; 32])
    requires
        n <= 32,
        start + n <= src@.len(),
    ensures
        forall|k: int| 0 <= k < n ==> a@[k] == src@[start + k],
{
    let len = src.len();
    let mut a = [0u8; 32];
    let mut i: usize = 0;
    while i < n
        invariant
            0 <= i <= n,
            len == src@.len(),
            n <= 32,
            start + n <= src@.len(),
            a@.len() == 32,
            forall|k: int| 0 <= k < i ==> a@[k] == src@[start + k],
        decreases n - i,
    {
        a[i] = src[start + i];
        i = i + 1;
    }
    a
}

/// Reads a record back from a slot. Fails with `SlotTooSmall` exactly when
/// the slot does not have the record's size.
pub fn read_record(slot: &[u8]) -> (r: Result<VerdictRecord, VerdictError>)
    ensures
        slot@.len() == RECORD_LEN <==> r is Ok,
        r matches Ok(rec) ==> decodes_to(slot@, rec),
        r is Err ==> r == Err::<VerdictRecord, VerdictError>(VerdictError::SlotTooSmall),
{
    if slot.len() != RECORD_LEN {
        return Err(VerdictError::SlotTooSmall);
    }
    let subject_hash = copy_out32(slot, 1, 32);
    let authority = copy_out32(slot, 41, 32);
    let mut payload = [0u8; 7];
    let mut i: usize = 0;
    while i < 7
        invariant
            0 <= i <= 7,
            slot@.len() == RECORD_LEN,
            payload@.len() == 7,
            forall|k: int| 0 <= k < i ==> payload@[k] == slot@[33 + k],
        decreases 7 - i,
    {
        payload[i] = slot[33 + i];
        i = i + 1;
    }
    let rec = VerdictRecord {
        bump: slot[0],
        subject_hash,
        payload,
        discriminator: slot[40],
        authority,
    };
    assert(rec.subject_hash@ =~= slot@.subrange(1, 33));
    assert(rec.payload@ =~= slot@.subrange(33, 40));
    assert(rec.authority@ =~= slot@.subrange(41, 73));
    Ok(rec)
}

/// Encoding a record and reading the slot back at the documented offsets
/// gives the same record, field for field and byte for byte.
pub proof fn lemma_record_round_trip(r: VerdictRecord, d: VerdictRecord)
    ensures
        decodes_to(record_bytes(r), r),
        decodes_to(record_bytes(r), d) ==> d == r,
{
    let b = record_bytes(r);
    assert(b.subrange(1, 33) =~= r.subject_hash@);
    assert(b.subrange(33, 40) =~= r.payload@);
    assert(b.subrange(41, 73) =~= r.authority@);
    if decodes_to(b, d) {
        assert(d.subject_hash@ == r.subject_hash@);
        assert(d.payload@ == r.payload@);
        assert(d.authority@ == r.authority@);
        assert(d.subject_hash =~= r.subject_hash);
        assert(d.payload =~= r.payload);
        assert(d.authority =~= r.authority);
    }
}

} // verus!
