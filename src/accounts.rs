//! The accounts that the entry point receives, and the check that a host
//! makes on them before invoking it.
use vstd::prelude::*;

verus! {

/// An account reference as resolved by the runtime for one invocation.
#[derive(Clone, Copy, Debug, PartialEq, Eq)]
pub struct SignerAccount {
    /// The account's public key.
    pub key: [u8; 32],
    /// Whether the runtime verified this account's signature on the invoking
    /// transaction.
    pub is_signer: bool,
}

/// The accounts of the signer-check entry point: one account, expected to be
/// a signer.
#[derive(Clone, Copy, Debug, PartialEq, Eq)]
pub struct CheckSigner {
    pub signer: SignerAccount,
}

/// Why a host refuses to build the accounts of an invocation.
#[derive(Clone, Copy, Debug, PartialEq, Eq, Structural)]
pub enum SignerError {
    /// The account in the signer slot did not sign the transaction.
    MissingSigner,
}

impl CheckSigner {
    /// Builds the accounts from a resolved account, enforcing the signer-slot
    /// constraint: an account that did not sign is refused.
    pub fn try_from_account(account: SignerAccount) -> (r: Result<CheckSigner, SignerError>)
        ensures
            account.is_signer ==> r == Ok::<CheckSigner, SignerError>((CheckSigner { signer: account })),
            !account.is_signer ==> r == Err::<CheckSigner, SignerError>(SignerError::MissingSigner),
    {
        if account.is_signer {
            Ok(CheckSigner { signer: account })
        } else {
            Err(SignerError::MissingSigner)
        }
    }
}

} // verus!
