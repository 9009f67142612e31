//! The `log_post` instruction.
use crate::accounts::{resolve, AccountError, LogPost};
use crate::event::{logged, PostLogged, PostLoggedView};
use anchor_lang::prelude::AccountMeta;
use vstd::prelude::*;

verus! {

/// The outcome of invoking the instruction with `accounts` and the four
/// arguments: the event recorded for the resolved signer, or the reason the
/// accounts were refused, in which case nothing is recorded.
pub open spec fn invocation(
    accounts: Seq<AccountMeta>,
    display_name: Seq<char>,
    post_hash: Seq<u8>,
    timestamp: i64,
    action_type: u8,
) -> Result<PostLoggedView, AccountError> {
    match resolve(accounts) {
        Ok(signer) => Ok(logged(signer, display_name, post_hash, timestamp, action_type)),
        Err(e) => Err(e),
    }
}

/// The body of the instruction: the event to emit, attributed to the signer
/// that `ctx` holds. No argument is checked, so it cannot fail.
pub fn log_post(
    ctx: LogPost,
    display_name: String,
    post_hash: Vec<u8>,
    timestamp: i64,
    action_type: u8,
) -> (r: PostLogged)
    ensures
        r@ == logged(ctx.signer, display_name@, post_hash@, timestamp, action_type),
{
    let signer = ctx.signer;
    PostLogged { wallet_address: signer, display_name, post_hash, timestamp, action_type }
}

/// One invocation: resolves the signer from `accounts`, then runs the
/// instruction body. On `Err` no event exists.
pub fn invoke_log_post(
    accounts: &[AccountMeta],
    display_name: String,
    post_hash: Vec<u8>,
    timestamp: i64,
    action_type: u8,
) -> (r: Result<PostLogged, AccountError>)
    ensures
        match r {
            Ok(event) => invocation(
                accounts@,
                display_name@,
                post_hash@,
                timestamp,
                action_type,
            ) == Ok::<PostLoggedView, AccountError>(event@),
            Err(e) => invocation(
                accounts@,
                display_name@,
                post_hash@,
                timestamp,
                action_type,
            ) == Err::<PostLoggedView, AccountError>(e),
        },
{
    match LogPost::try_accounts(accounts) {
        Ok(ctx) => Ok(log_post(ctx, display_name, post_hash, timestamp, action_type)),
        Err(e) => Err(e),
    }
}

/// An account list whose first account is present and signed.
pub open spec fn has_valid_signer(accounts: Seq<AccountMeta>) -> bool {
    accounts.len() > 0 && accounts[0].is_signer
}

/// Whatever the arguments, an invocation with a valid signer records exactly
/// one event, and its wallet address is the signer's key.
pub proof fn lemma_event_names_signer(
    accounts: Seq<AccountMeta>,
    display_name: Seq<char>,
    post_hash: Seq<u8>,
    timestamp: i64,
    action_type: u8,
)
    requires
        has_valid_signer(accounts),
    ensures
        invocation(accounts, display_name, post_hash, timestamp, action_type) is Ok,
        invocation(
            accounts,
            display_name,
            post_hash,
            timestamp,
            action_type,
        )->Ok_0.wallet_address == accounts[0].pubkey,
{
}

/// With a valid signer every argument is accepted, empty text and bytes, a
/// negative timestamp and an action code outside the conventional ones
/// included, and each is recorded as given.
pub proof fn lemma_arguments_recorded_verbatim(
    accounts: Seq<AccountMeta>,
    display_name: Seq<char>,
    post_hash: Seq<u8>,
    timestamp: i64,
    action_type: u8,
)
    requires
        has_valid_signer(accounts),
    ensures
        ({
            let r = invocation(accounts, display_name, post_hash, timestamp, action_type);
            &&& r is Ok
            &&& r->Ok_0.display_name == display_name
            &&& r->Ok_0.post_hash == post_hash
            &&& r->Ok_0.timestamp == timestamp
            &&& r->Ok_0.action_type == action_type
        }),
{
}

/// Without a present, signed signer account the invocation fails and records
/// no event.
pub proof fn lemma_unsigned_invocation_fails(
    accounts: Seq<AccountMeta>,
    display_name: Seq<char>,
    post_hash: Seq<u8>,
    timestamp: i64,
    action_type: u8,
)
    requires
        !has_valid_signer(accounts),
    ensures
        invocation(accounts, display_name, post_hash, timestamp, action_type) is Err,
{
}

/// Two invocations with the same arguments and different signers record two
/// events that differ in their wallet address and in nothing else.
pub proof fn lemma_signers_differ_only_in_wallet(
    accounts1: Seq<AccountMeta>,
    accounts2: Seq<AccountMeta>,
    display_name: Seq<char>,
    post_hash: Seq<u8>,
    timestamp: i64,
    action_type: u8,
)
    requires
        has_valid_signer(accounts1),
        has_valid_signer(accounts2),
        accounts1[0].pubkey != accounts2[0].pubkey,
    ensures
        ({
            let e1 = invocation(accounts1, display_name, post_hash, timestamp, action_type)->Ok_0;
            let e2 = invocation(accounts2, display_name, post_hash, timestamp, action_type)->Ok_0;
            &&& invocation(accounts1, display_name, post_hash, timestamp, action_type) is Ok
            &&& invocation(accounts2, display_name, post_hash, timestamp, action_type) is Ok
            &&& e1.wallet_address != e2.wallet_address
            &&& PostLoggedView { wallet_address: e2.wallet_address, ..e1 } == e2
        }),
{
}

} // verus!
