use anchor_lang::prelude::{AccountMeta, Pubkey};
use smart_contract::event::{ACTION_CREATE, ACTION_EDIT, ACTION_SOFT_DELETE};
use smart_contract::{invoke_log_post, log_post, AccountError, LogPost, PostLogged};

fn key(b: u8) -> Pubkey {
    Pubkey::new_from_array([b; 32])
}

fn signed(k: Pubkey) -> Vec<AccountMeta> {
    vec![AccountMeta::new_readonly(k, true)]
}

fn invoke(accounts: &[AccountMeta], name: &str, hash: &[u8], ts: i64, action: u8) -> Result<PostLogged, AccountError> {
    invoke_log_post(accounts, name.to_string(), hash.to_vec(), ts, action)
}

#[test]
fn example_hello_create() {
    let s = key(7);
    let e = invoke(&signed(s), "hello", &[0xAB, 0xCD], 1700000000, 0).unwrap();
    assert_eq!(e.wallet_address, s);
    assert_eq!(e.display_name, "hello");
    assert_eq!(e.post_hash, vec![0xAB, 0xCD]);
    assert_eq!(e.timestamp, 1700000000);
    assert_eq!(e.action_type, 0);
}

#[test]
fn wallet_is_signer_key() {
    let s = Pubkey::new_unique();
    let e = invoke(&signed(s), "name", &[1, 2, 3], 1, ACTION_EDIT).unwrap();
    assert_eq!(e.wallet_address, s);
    assert_ne!(e.wallet_address, Pubkey::default());
}

#[test]
fn only_first_account_is_the_signer() {
    let s = key(1);
    let accounts = vec![AccountMeta::new_readonly(s, true), AccountMeta::new(key(2), true)];
    let e = invoke(&accounts, "a", &[], 0, ACTION_CREATE).unwrap();
    assert_eq!(e.wallet_address, s);
}

#[test]
fn empty_and_negative_arguments_recorded() {
    let e = invoke(&signed(key(3)), "", &[], -42, ACTION_SOFT_DELETE).unwrap();
    assert_eq!(e.display_name, "");
    assert!(e.post_hash.is_empty());
    assert_eq!(e.timestamp, -42);
    assert_eq!(e.action_type, 2);
}

#[test]
fn action_codes_outside_convention_accepted() {
    for action in [3u8, 17, 255] {
        let e = invoke(&signed(key(4)), "x", &[9], 5, action).unwrap();
        assert_eq!(e.action_type, action);
    }
}

#[test]
fn extreme_timestamps_recorded() {
    let lo = invoke(&signed(key(5)), "x", &[0], i64::MIN, 0).unwrap();
    let hi = invoke(&signed(key(5)), "x", &[0], i64::MAX, 0).unwrap();
    assert_eq!(lo.timestamp, i64::MIN);
    assert_eq!(hi.timestamp, i64::MAX);
}

#[test]
fn long_text_and_hash_recorded() {
    let name = "é".repeat(1000);
    let hash: Vec<u8> = (0..=255u8).collect();
    let e = invoke(&signed(key(6)), &name, &hash, 10, 1).unwrap();
    assert_eq!(e.display_name, name);
    assert_eq!(e.post_hash, hash);
}

#[test]
fn missing_signer_fails() {
    assert_eq!(invoke(&[], "hello", &[1], 1, 0).err(), Some(AccountError::NotEnoughKeys));
}

#[test]
fn unsigned_signer_fails() {
    let accounts = vec![AccountMeta::new(key(8), false), AccountMeta::new_readonly(key(9), true)];
    assert_eq!(invoke(&accounts, "hello", &[1], 1, 0).err(), Some(AccountError::NotSigned));
}

#[test]
fn different_signers_differ_only_in_wallet() {
    let (a, b) = (key(10), key(11));
    let e1 = invoke(&signed(a), "same", &[5, 6], 99, 1).unwrap();
    let e2 = invoke(&signed(b), "same", &[5, 6], 99, 1).unwrap();
    assert_eq!(e1.wallet_address, a);
    assert_eq!(e2.wallet_address, b);
    assert_ne!(e1.wallet_address, e2.wallet_address);
    assert_eq!(e1.display_name, e2.display_name);
    assert_eq!(e1.post_hash, e2.post_hash);
    assert_eq!(e1.timestamp, e2.timestamp);
    assert_eq!(e1.action_type, e2.action_type);
}

#[test]
fn resolve_then_log_post() {
    let s = key(12);
    let ctx = LogPost::try_accounts(&signed(s)).unwrap();
    assert_eq!(ctx.signer, s);
    let e = log_post(ctx, "b".to_string(), vec![1], 2, 1);
    assert_eq!(e.wallet_address, s);
    assert_eq!(e.display_name, "b");
}
