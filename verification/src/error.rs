use vstd::prelude::*;

verus! {

/// The error taxonomy surfaced by the escrow handlers.
#[derive(Clone, Copy, Debug, PartialEq, Eq, Structural)]
pub enum EscrowError {
    /// Structural: the caller supplied the wrong number of accounts.
    NotEnoughAccountKeys,
    /// Authorization: a required signer did not sign the instruction.
    MissingRequiredSignature,
    /// Ownership: an account is not owned by the expected sub-service.
    InvalidAccountOwner,
    /// Format, integrity or domain: wrong stored size, a mismatched
    /// address or mint, or a zero amount.
    InvalidAccountData,
    /// A delegated ledger or account-creation call failed.
    LedgerFailure,
}

} // verus!
