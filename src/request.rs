use vstd::prelude::*;
use crate::error::VerdictError;

verus! {

/// Fewest payload bytes a request can carry: subject hash, scoring payload
/// and discriminator.
pub const MIN_DATA_LEN: usize = 40;

/// Fewest identities a request can name: caller, target slot and the
/// slot-creation service.
pub const MIN_IDENTITIES: usize = 3;

/// The fields of a well-formed registration request.
#[derive(Clone, Copy, Debug, PartialEq, Eq)]
pub struct Request {
    pub subject_hash: [u8; 32],
    pub payload: [u8; 7],
    pub discriminator: u8,
}

/// `q` holds what `data` carries: subject hash at 0..32, payload at 32..39,
/// discriminator at 39. Bytes past 40 are ignored.
pub open spec fn request_of(data: Seq<u8>, q: Request) -> bool {
    &&& q.subject_hash@ == data.subrange(0, 32)
    &&& q.payload@ == data.subrange(32, 39)
    &&& q.discriminator == data[39]
}

/// The shape of the request is acceptable.
pub open spec fn well_formed(data: Seq<u8>, n_identities: usize) -> bool {
    data.len() >= MIN_DATA_LEN && n_identities >= MIN_IDENTITIES
}

/// Checks a request's shape and its caller's signature, then reads its fields.
/// The shape is checked first.
pub fn check_request(data: &[u8], n_identities: usize, caller_is_signer: bool) -> (r: Result<
    Request,
    VerdictError,
>)
    ensures
        !well_formed(data@, n_identities) <==> r == Err::<Request, VerdictError>(
            VerdictError::MalformedInput,
        ),
        well_formed(data@, n_identities) && !caller_is_signer <==> r == Err::<
            Request,
            VerdictError,
        >(VerdictError::Unauthorized),
        r is Ok <==> well_formed(data@, n_identities) && caller_is_signer,
        r matches Ok(q) ==> request_of(data@, q),
{
    if data.len() < MIN_DATA_LEN || n_identities < MIN_IDENTITIES {
        return Err(VerdictError::MalformedInput);
    }
    if !caller_is_signer {
        return Err(VerdictError::Unauthorized);
    }
    let mut subject_hash = [0u8; 32];
    let mut i: usize = 0;
    while i < 32
        invariant
            0 <= i <= 32,
            data@.len() >= MIN_DATA_LEN,
            subject_hash@.len() == 32,
            forall|k: int| 0 <= k < i ==> subject_hash@[k] == data@[k],
        decreases 32 - i,
    {
        subject_hash[i] = data[i];
        i = i + 1;
    }
    let mut payload = [0u8; 7];
    let mut i: usize = 0;
    while i < 7
        invariant
            0 <= i <= 7,
            data@.len() >= MIN_DATA_LEN,
            payload@.len() == 7,
            forall|k: int| 0 <= k < i ==> payload@[k] == data@[32 + k],
        decreases 7 - i,
    {
        payload[i] = data[32 + i];
        i = i + 1;
    }
    let q = Request { subject_hash, payload, discriminator: data[39] };
    assert(q.subject_hash@ =~= data@.subrange(0, 32));
    assert(q.payload@ =~= data@.subrange(32, 39));
    Ok(q)
}

} // verus!
