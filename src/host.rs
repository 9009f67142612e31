//! Types of the ledger runtime that the library carries through unchanged.
use vstd::prelude::*;

verus! {

/// A 32-byte public key of the runtime. The library never looks inside one:
/// it only copies it from the signer account into the event.
#[verifier::external_type_specification]
#[verifier::external_body]
pub struct ExPubkey(anchor_lang::prelude::Pubkey);

/// An account handed to an instruction: its key and whether the runtime
/// verified the key's signature on the enclosing transaction.
#[verifier::external_type_specification]
pub struct ExAccountMeta(anchor_lang::prelude::AccountMeta);

} // verus!
