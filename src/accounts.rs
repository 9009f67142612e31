//! Resolution of the accounts that the instruction is invoked with.
use anchor_lang::prelude::{AccountMeta, Pubkey};
use vstd::prelude::*;

verus! {

/// Why the runtime refuses to run the instruction.
#[derive(Debug, Clone, Copy, PartialEq, Eq, Structural)]
pub enum AccountError {
    /// No account was supplied for the signer.
    NotEnoughKeys,
    /// The signer account did not sign the enclosing transaction.
    NotSigned,
}

/// The accounts of the instruction, once resolved: the key of the one account
/// whose signature the runtime has verified.
pub struct LogPost {
    pub signer: Pubkey,
}

/// What resolving `accounts` gives: the first account stands for the signer,
/// and it must be present and have signed.
pub open spec fn resolve(accounts: Seq<AccountMeta>) -> Result<Pubkey, AccountError> {
    if accounts.len() == 0 {
        Err(AccountError::NotEnoughKeys)
    } else if !accounts[0].is_signer {
        Err(AccountError::NotSigned)
    } else {
        Ok(accounts[0].pubkey)
    }
}

impl LogPost {
    /// Takes the signer from the front of `accounts`, as the runtime does before
    /// the instruction body runs.
    pub fn try_accounts(accounts: &[AccountMeta]) -> (r: Result<LogPost, AccountError>)
        ensures
            match (r, resolve(accounts@)) {
                (Ok(ctx), Ok(key)) => ctx.signer == key,
                (Err(e), Err(f)) => e == f,
                _ => false,
            },
    {
        if accounts.len() == 0 {
            return Err(AccountError::NotEnoughKeys);
        }
        let account = &accounts[0];
        if !account.is_signer {
            return Err(AccountError::NotSigned);
        }
        Ok(LogPost { signer: account.pubkey })
    }
}

} // verus!
