use vstd::prelude::*;

verus! {

/// Every way a registration can fail. All of them abort the whole request.
#[derive(Clone, Copy, Debug, PartialEq, Eq, Structural)]
pub enum VerdictError {
    /// The payload or the list of identities is too short.
    MalformedInput,
    /// The caller did not sign the request.
    Unauthorized,
    /// The target slot is not the address derived from the subject hash.
    AddressMismatch,
    /// No bump nonce gives an address off the signing curve.
    AddressSpaceExhausted,
    /// A slot already lives at the derived address: the subject is registered.
    SlotAlreadyExists,
    /// The caller cannot fund the slot's minimum balance.
    InsufficientFunds,
    /// The slot handed to the encoder does not have the record's size.
    SlotTooSmall,
    /// The ledger refused the slot creation for another reason; the code is
    /// the ledger's own.
    Ledger(u64),
    /// A token address longer than 64 bytes.
    TokenAddressTooLong,
    /// A chain name longer than 16 bytes.
    ChainTooLong,
    /// A score above 1000.
    ScoreOutOfRange,
    /// A grade longer than 4 bytes.
    GradeTooLong,
    /// A tier longer than 16 bytes.
    TierTooLong,
}

} // verus!
