use vstd::prelude::*;
use vstd::utf8::encode_utf8;
use crate::error::VerdictError;

verus! {

/// Most bytes in a token address.
pub const MAX_TOKEN_ADDRESS_LEN: usize = 64;

/// Most bytes in a chain name.
pub const MAX_CHAIN_LEN: usize = 16;

/// Highest score.
pub const MAX_SCORE: u16 = 1000;

/// Most bytes in a grade.
pub const MAX_GRADE_LEN: usize = 4;

/// Most bytes in a tier.
pub const MAX_TIER_LEN: usize = 16;

/// Bytes of a slot for a variable-length record besides its four texts:
/// an 8-byte kind tag, the fixed-width fields and a 4-byte length prefix
/// for each text.
pub const FIXED_SPACE: usize = 100;

/// Number of bytes that a text takes in UTF-8.
pub open spec fn utf8_len(s: Seq<char>) -> nat {
    encode_utf8(s).len()
}

/// A verdict whose descriptive fields are bounded texts.
#[derive(Clone, Debug, PartialEq, Eq)]
pub struct Verdict {
    pub authority: [u8; 32],
    pub token_address: String,
    pub chain: String,
    pub score: u16,
    pub grade: String,
    pub agent_count: u8,
    pub tier: String,
    pub timestamp: i64,
    pub scan_hash: [u8; 32],
    pub bump: u8,
}

/// Slot size of a variable-length record whose texts take these numbers of
/// bytes.
pub open spec fn space_of(token_address: nat, chain: nat, grade: nat, tier: nat) -> nat {
    (FIXED_SPACE + token_address + chain + grade + tier) as nat
}

/// Which check, if any, the texts and score of a verdict fail, taken in
/// this order: token address, chain, score, grade, tier.
pub open spec fn first_violation(
    token_address: Seq<char>,
    chain: Seq<char>,
    score: u16,
    grade: Seq<char>,
    tier: Seq<char>,
) -> Option<VerdictError> {
    if utf8_len(token_address) > MAX_TOKEN_ADDRESS_LEN {
        Some(VerdictError::TokenAddressTooLong)
    } else if utf8_len(chain) > MAX_CHAIN_LEN {
        Some(VerdictError::ChainTooLong)
    } else if score > MAX_SCORE {
        Some(VerdictError::ScoreOutOfRange)
    } else if utf8_len(grade) > MAX_GRADE_LEN {
        Some(VerdictError::GradeTooLong)
    } else if utf8_len(tier) > MAX_TIER_LEN {
        Some(VerdictError::TierTooLong)
    } else {
        None
    }
}

impl Verdict {
    /// Bytes of the slot that holds a verdict with these texts.
    pub fn space(token_address: &str, chain: &str, grade: &str, tier: &str) -> (r: usize)
        requires
            space_of(
                utf8_len(token_address@),
                utf8_len(chain@),
                utf8_len(grade@),
                utf8_len(tier@),
            ) <= usize::MAX,
        ensures
            r == space_of(
                utf8_len(token_address@),
                utf8_len(chain@),
                utf8_len(grade@),
                utf8_len(tier@),
            ),
    {
        FIXED_SPACE + token_address.as_bytes().len() + chain.as_bytes().len() + grade.as_bytes().len()
            + tier.as_bytes().len()
    }
}

/// Checks the texts and score of a verdict and builds it, stamped with the
/// registering authority, the time and the address's bump.
pub fn store_verdict(
    authority: [u8; 32],
    token_address: String,
    chain: String,
    score: u16,
    grade: String,
    agent_count: u8,
    tier: String,
    scan_hash: [u8; 32],
    timestamp: i64,
    bump: u8,
) -> (r: Result<Verdict, VerdictError>)
    ensures
        first_violation(token_address@, chain@, score, grade@, tier@) matches Some(e) ==> r
            == Err::<Verdict, VerdictError>(e),
        first_violation(token_address@, chain@, score, grade@, tier@) is None <==> r is Ok,
        r matches Ok(v) ==> {
            &&& v.authority == authority
            &&& v.token_address@ == token_address@
            &&& v.chain@ == chain@
            &&& v.score == score
            &&& v.grade@ == grade@
            &&& v.agent_count == agent_count
            &&& v.tier@ == tier@
            &&& v.timestamp == timestamp
            &&& v.scan_hash == scan_hash
            &&& v.bump == bump
        },
{
    if token_address.as_str().as_bytes().len() > MAX_TOKEN_ADDRESS_LEN {
        return Err(VerdictError::TokenAddressTooLong);
    }
    if chain.as_str().as_bytes().len() > MAX_CHAIN_LEN {
        return Err(VerdictError::ChainTooLong);
    }
    if score > MAX_SCORE {
        return Err(VerdictError::ScoreOutOfRange);
    }
    if grade.as_str().as_bytes().len() > MAX_GRADE_LEN {
        return Err(VerdictError::GradeTooLong);
    }
    if tier.as_str().as_bytes().len() > MAX_TIER_LEN {
        return Err(VerdictError::TierTooLong);
    }
    Ok(Verdict {
        authority,
        token_address,
        chain,
        score,
        grade,
        agent_count,
        tier,
        timestamp,
        scan_hash,
        bump,
    })
}

} // verus!
