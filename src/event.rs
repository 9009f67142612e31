//! The record that one invocation of the instruction emits.
use anchor_lang::prelude::Pubkey;
use vstd::prelude::*;

verus! {

/// Action codes that callers conventionally use. The instruction does not
/// enforce them: any `u8` is recorded as given.
pub const ACTION_CREATE: u8 = 0;

pub const ACTION_EDIT: u8 = 1;

pub const ACTION_SOFT_DELETE: u8 = 2;

/// A post action, attributed to the wallet that signed for it.
pub struct PostLogged {
    /// Key of the signer account; never taken from the caller's arguments.
    pub wallet_address: Pubkey,
    pub display_name: String,
    /// Content hash computed off-chain; any bytes are accepted.
    pub post_hash: Vec<u8>,
    /// Caller-supplied time, not compared against ledger time.
    pub timestamp: i64,
    pub action_type: u8,
}

/// The mathematical content of a [`PostLogged`].
pub ghost struct PostLoggedView {
    pub wallet_address: Pubkey,
    pub display_name: Seq<char>,
    pub post_hash: Seq<u8>,
    pub timestamp: i64,
    pub action_type: u8,
}

impl View for PostLogged {
    type V = PostLoggedView;

    open spec fn view(&self) -> PostLoggedView {
        PostLoggedView {
            wallet_address: self.wallet_address,
            display_name: self.display_name@,
            post_hash: self.post_hash@,
            timestamp: self.timestamp,
            action_type: self.action_type,
        }
    }
}

/// The event that a signer with key `signer` records with the given arguments:
/// the key, then every argument verbatim.
pub open spec fn logged(
    signer: Pubkey,
    display_name: Seq<char>,
    post_hash: Seq<u8>,
    timestamp: i64,
    action_type: u8,
) -> PostLoggedView {
    PostLoggedView { wallet_address: signer, display_name, post_hash, timestamp, action_type }
}

} // verus!
