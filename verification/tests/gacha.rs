//! End-to-end tests of the reward-allocation engine: pool lifecycle,
//! payment validation, the pull/settle protocol and its gating rules.

use gacha_machine::admin::{
    add_key, add_payment_config, finalize, initialize, release_decryption_key,
    remove_payment_config, set_halted, set_paused, transfer_admin,
};
use gacha_machine::errors::GachaError;
use gacha_machine::helpers::{
    process_sol_payment, process_spl_payment, string_to_fixed_bytes, trim_trailing_zeros,
    PaymentAccounts,
};
use gacha_machine::oracle::OracleReading;
use gacha_machine::states::{AccountId, GachaState, PaymentConfig, PlayerState};
use gacha_machine::user::{pull, settle, settle_at};

fn acct(n: u128) -> AccountId {
    AccountId { hi: 0, lo: n }
}

const ADMIN: u128 = 1;
const POOL: u128 = 2;
const USER: u128 = 3;
const RECIPIENT: u128 = 4;
const ORACLE: u128 = 5;
const TOKEN_PROGRAM: u128 = 6;
const MINT: u128 = 7;
const TOKEN_RECIPIENT: u128 = 8;

/// Raw randomness account data: discriminator, then the commitment slot at
/// offset 104, the reveal slot at 144 and the random value at 152, all
/// little-endian.
fn mk_randomness(seed_slot: u64, reveal_slot: u64, value_head: u64) -> Vec<u8> {
    let mut d = vec![0u8; 408];
    d[0..8].copy_from_slice(&[10, 66, 229, 135, 220, 239, 217, 114]);
    d[104..112].copy_from_slice(&seed_slot.to_le_bytes());
    d[144..152].copy_from_slice(&reveal_slot.to_le_bytes());
    d[152..160].copy_from_slice(&value_head.to_le_bytes());
    d
}

/// Raw token-account data: the 165-byte layout with the balance at offset
/// 64 and an initialized state byte.
fn mk_token_account(amount: u64) -> Vec<u8> {
    let mut d = vec![0u8; 165];
    d[64..72].copy_from_slice(&amount.to_le_bytes());
    d[108] = 1;
    d
}

fn sol_payment(user: AccountId, recipient: AccountId, lamports: u64) -> PaymentAccounts {
    PaymentAccounts {
        user_payment_account: user,
        user_payment_owner: AccountId::zero(),
        user_payment_lamports: lamports,
        user_payment_data: Vec::new(),
        admin_recipient_account: recipient,
        admin_recipient_owner: AccountId::zero(),
        payment_mint_account: AccountId::zero(),
        payment_mint_owner: AccountId::zero(),
        token_program: None,
    }
}

fn spl_payment(recipient: AccountId, mint: AccountId, amount: u64) -> PaymentAccounts {
    PaymentAccounts {
        user_payment_account: acct(USER),
        user_payment_owner: acct(TOKEN_PROGRAM),
        user_payment_lamports: 0,
        user_payment_data: mk_token_account(amount),
        admin_recipient_account: recipient,
        admin_recipient_owner: acct(TOKEN_PROGRAM),
        payment_mint_account: mint,
        payment_mint_owner: acct(TOKEN_PROGRAM),
        token_program: Some(acct(TOKEN_PROGRAM)),
    }
}

/// A pool with the given keys, finalized, with one native payment method
/// at the given price.
fn mk_pool(keys: &[&[u8]], price: u64) -> GachaState {
    let admin = acct(ADMIN);
    let (mut g, _) = initialize(acct(POOL), admin);
    for k in keys {
        add_key(&mut g, admin, k.to_vec()).unwrap();
    }
    finalize(&mut g, admin).unwrap();
    add_payment_config(&mut g, admin, AccountId::zero(), price, acct(RECIPIENT)).unwrap();
    g
}

/// One successful pull at `now_slot` against a fresh commitment of the
/// same slot, paying the native price.
fn do_pull(g: &mut GachaState, now_slot: u64) -> PlayerState {
    let payment = sol_payment(acct(USER), acct(RECIPIENT), 1_000_000);
    let data = mk_randomness(now_slot, 0, 0);
    let (p, _) = pull(
        g,
        acct(USER),
        AccountId::zero(),
        acct(ORACLE),
        &payment,
        now_slot,
        &data,
    )
    .unwrap();
    p
}

#[test]
fn initialize_fresh_pool() {
    let (g, ev) = initialize(acct(POOL), acct(ADMIN));
    assert_eq!(g.admin, acct(ADMIN));
    assert_eq!(g.id, acct(POOL));
    assert!(!g.is_finalized);
    assert!(!g.is_paused);
    assert!(!g.is_halted);
    assert_eq!(g.pull_count, 0);
    assert_eq!(g.settle_count, 0);
    assert!(g.encrypted_keys.is_empty());
    assert!(g.remaining_indices.is_empty());
    assert_eq!(ev.admin, acct(ADMIN));
    assert_eq!(ev.gacha_state, acct(POOL));
}

#[test]
fn add_key_appends_and_reports_count() {
    let (mut g, _) = initialize(acct(POOL), acct(ADMIN));
    let ev = add_key(&mut g, acct(ADMIN), b"alpha".to_vec()).unwrap();
    assert_eq!(ev.total_keys, 1);
    assert_eq!(ev.key, b"alpha".to_vec());
    let ev = add_key(&mut g, acct(ADMIN), b"beta".to_vec()).unwrap();
    assert_eq!(ev.total_keys, 2);
    assert_eq!(g.encrypted_keys.len(), 2);
    assert_eq!(g.encrypted_keys[0], b"alpha".to_vec());
    assert_eq!(g.encrypted_keys[1], b"beta".to_vec());
}

#[test]
fn add_key_rejects_non_admin() {
    let (mut g, _) = initialize(acct(POOL), acct(ADMIN));
    let r = add_key(&mut g, acct(USER), b"alpha".to_vec());
    assert_eq!(r.unwrap_err(), GachaError::IncorrectOwner);
    assert!(g.encrypted_keys.is_empty());
}

#[test]
fn add_key_rejects_empty() {
    let (mut g, _) = initialize(acct(POOL), acct(ADMIN));
    let r = add_key(&mut g, acct(ADMIN), Vec::new());
    assert_eq!(r.unwrap_err(), GachaError::EmptyKeyProvided);
}

#[test]
fn add_key_rejects_overlong() {
    let (mut g, _) = initialize(acct(POOL), acct(ADMIN));
    let r = add_key(&mut g, acct(ADMIN), vec![7u8; 121]);
    assert_eq!(r.unwrap_err(), GachaError::KeyTooLong);
    assert!(add_key(&mut g, acct(ADMIN), vec![7u8; 120]).is_ok());
}

#[test]
fn add_key_rejects_after_finalize() {
    let (mut g, _) = initialize(acct(POOL), acct(ADMIN));
    add_key(&mut g, acct(ADMIN), b"alpha".to_vec()).unwrap();
    finalize(&mut g, acct(ADMIN)).unwrap();
    let r = add_key(&mut g, acct(ADMIN), b"beta".to_vec());
    assert_eq!(r.unwrap_err(), GachaError::GachaAlreadyFinalized);
    assert_eq!(g.encrypted_keys.len(), 1);
}

#[test]
fn add_key_rejects_full_pool() {
    let (mut g, _) = initialize(acct(POOL), acct(ADMIN));
    for i in 0..500u32 {
        add_key(&mut g, acct(ADMIN), i.to_le_bytes().to_vec()).unwrap();
    }
    let r = add_key(&mut g, acct(ADMIN), b"overflow".to_vec());
    assert_eq!(r.unwrap_err(), GachaError::KeyPoolFull);
    finalize(&mut g, acct(ADMIN)).unwrap();
    assert_eq!(g.remaining_indices.len(), 500);
}

#[test]
fn finalize_snapshots_remaining() {
    let (mut g, _) = initialize(acct(POOL), acct(ADMIN));
    for k in [b"a".as_slice(), b"b".as_slice(), b"c".as_slice()] {
        add_key(&mut g, acct(ADMIN), k.to_vec()).unwrap();
    }
    let ev = finalize(&mut g, acct(ADMIN)).unwrap();
    assert_eq!(ev.total_keys, 3);
    assert!(g.is_finalized);
    assert_eq!(g.remaining_indices, vec![0u16, 1, 2]);
}

#[test]
fn finalize_rejects_empty_pool() {
    let (mut g, _) = initialize(acct(POOL), acct(ADMIN));
    let r = finalize(&mut g, acct(ADMIN));
    assert_eq!(r.unwrap_err(), GachaError::NoKeysInPool);
    assert!(!g.is_finalized);
}

#[test]
fn finalize_rejects_repeat() {
    let (mut g, _) = initialize(acct(POOL), acct(ADMIN));
    add_key(&mut g, acct(ADMIN), b"a".to_vec()).unwrap();
    finalize(&mut g, acct(ADMIN)).unwrap();
    let r = finalize(&mut g, acct(ADMIN));
    assert_eq!(r.unwrap_err(), GachaError::GachaAlreadyFinalized);
}

#[test]
fn finalize_rejects_non_admin() {
    let (mut g, _) = initialize(acct(POOL), acct(ADMIN));
    add_key(&mut g, acct(ADMIN), b"a".to_vec()).unwrap();
    let r = finalize(&mut g, acct(USER));
    assert_eq!(r.unwrap_err(), GachaError::IncorrectOwner);
}

#[test]
fn transfer_admin_switches_control() {
    let (mut g, _) = initialize(acct(POOL), acct(ADMIN));
    let ev = transfer_admin(&mut g, acct(ADMIN), acct(USER)).unwrap();
    assert_eq!(ev.previous_admin, acct(ADMIN));
    assert_eq!(ev.new_admin, acct(USER));
    assert_eq!(
        add_key(&mut g, acct(ADMIN), b"a".to_vec()).unwrap_err(),
        GachaError::IncorrectOwner
    );
    assert!(add_key(&mut g, acct(USER), b"a".to_vec()).is_ok());
}

#[test]
fn release_decryption_key_requires_full_drain() {
    let mut g = mk_pool(&[b"a"], 10);
    let r = release_decryption_key(&mut g, acct(ADMIN), b"secret".to_vec());
    assert_eq!(r.unwrap_err(), GachaError::GachaNotComplete);

    let mut p = do_pull(&mut g, 10);
    let data = mk_randomness(10, 11, 0);
    settle(&mut g, &mut p, acct(USER), 11, &data).unwrap();

    let r = release_decryption_key(&mut g, acct(ADMIN), Vec::new());
    assert_eq!(r.unwrap_err(), GachaError::KeyTooLong);
    let r = release_decryption_key(&mut g, acct(ADMIN), vec![1u8; 121]);
    assert_eq!(r.unwrap_err(), GachaError::KeyTooLong);
    release_decryption_key(&mut g, acct(ADMIN), b"secret".to_vec()).unwrap();
    assert_eq!(g.decryption_key, b"secret".to_vec());
}

#[test]
fn payment_config_add_and_duplicate() {
    let (mut g, _) = initialize(acct(POOL), acct(ADMIN));
    let ev =
        add_payment_config(&mut g, acct(ADMIN), AccountId::zero(), 10, acct(RECIPIENT)).unwrap();
    assert_eq!(ev.payment_price, 10);
    let r = add_payment_config(&mut g, acct(ADMIN), AccountId::zero(), 20, acct(RECIPIENT));
    assert_eq!(r.unwrap_err(), GachaError::InvalidPaymentConfig);
    assert_eq!(g.payment_configs.len(), 1);
    let r = add_payment_config(&mut g, acct(USER), acct(MINT), 20, acct(RECIPIENT));
    assert_eq!(r.unwrap_err(), GachaError::IncorrectOwner);
}

#[test]
fn payment_config_table_full() {
    let (mut g, _) = initialize(acct(POOL), acct(ADMIN));
    for i in 0..16u128 {
        add_payment_config(&mut g, acct(ADMIN), acct(100 + i), 10, acct(RECIPIENT)).unwrap();
    }
    let r = add_payment_config(&mut g, acct(ADMIN), acct(200), 10, acct(RECIPIENT));
    assert_eq!(r.unwrap_err(), GachaError::KeyPoolFull);
}

#[test]
fn payment_config_remove_swaps_last() {
    let (mut g, _) = initialize(acct(POOL), acct(ADMIN));
    add_payment_config(&mut g, acct(ADMIN), acct(100), 10, acct(RECIPIENT)).unwrap();
    add_payment_config(&mut g, acct(ADMIN), acct(101), 20, acct(RECIPIENT)).unwrap();
    add_payment_config(&mut g, acct(ADMIN), acct(102), 30, acct(RECIPIENT)).unwrap();
    let ev = remove_payment_config(&mut g, acct(ADMIN), acct(100)).unwrap();
    assert_eq!(ev.payment_mint, acct(100));
    assert_eq!(g.payment_configs.len(), 2);
    // the last slot was swapped into the freed one
    assert_eq!(g.payment_configs[0].mint, acct(102));
    assert_eq!(g.payment_configs[1].mint, acct(101));
    // the removed method can be configured again
    assert!(add_payment_config(&mut g, acct(ADMIN), acct(100), 40, acct(RECIPIENT)).is_ok());
}

#[test]
fn payment_config_remove_missing() {
    let (mut g, _) = initialize(acct(POOL), acct(ADMIN));
    let r = remove_payment_config(&mut g, acct(ADMIN), acct(100));
    assert_eq!(r.unwrap_err(), GachaError::InvalidPaymentConfig);
}

#[test]
fn sol_payment_validation_errors() {
    let cfg = PaymentConfig {
        gacha_state: acct(POOL),
        mint: AccountId::zero(),
        price: 100,
        admin_recipient_account: acct(RECIPIENT),
    };
    let good = sol_payment(acct(USER), acct(RECIPIENT), 100);
    assert!(process_sol_payment(&good, acct(USER), &cfg).is_ok());

    let mut a = good.clone();
    a.user_payment_owner = acct(TOKEN_PROGRAM);
    assert_eq!(
        process_sol_payment(&a, acct(USER), &cfg).unwrap_err(),
        GachaError::IncorrectOwner
    );

    let mut a = good.clone();
    a.user_payment_account = acct(RECIPIENT);
    assert_eq!(
        process_sol_payment(&a, acct(USER), &cfg).unwrap_err(),
        GachaError::AccountMismatch
    );

    let mut a = good.clone();
    a.admin_recipient_account = acct(USER);
    assert_eq!(
        process_sol_payment(&a, acct(USER), &cfg).unwrap_err(),
        GachaError::AccountMismatch
    );

    let mut a = good.clone();
    a.user_payment_lamports = 99;
    assert_eq!(
        process_sol_payment(&a, acct(USER), &cfg).unwrap_err(),
        GachaError::InsufficientFunds
    );
}

#[test]
fn spl_payment_validation_errors() {
    let cfg = PaymentConfig {
        gacha_state: acct(POOL),
        mint: acct(MINT),
        price: 100,
        admin_recipient_account: acct(TOKEN_RECIPIENT),
    };
    let good = spl_payment(acct(TOKEN_RECIPIENT), acct(MINT), 100);
    assert!(process_spl_payment(&good, &cfg).is_ok());

    let mut a = good.clone();
    a.token_program = None;
    assert_eq!(
        process_spl_payment(&a, &cfg).unwrap_err(),
        GachaError::TokenProgramMissing
    );

    let mut a = good.clone();
    a.payment_mint_owner = AccountId::zero();
    assert_eq!(
        process_spl_payment(&a, &cfg).unwrap_err(),
        GachaError::IncorrectOwner
    );

    let mut a = good.clone();
    a.payment_mint_account = acct(101);
    assert_eq!(
        process_spl_payment(&a, &cfg).unwrap_err(),
        GachaError::MintMismatch
    );

    let mut a = good.clone();
    a.admin_recipient_account = acct(USER);
    assert_eq!(
        process_spl_payment(&a, &cfg).unwrap_err(),
        GachaError::AccountMismatch
    );

    // data that is not a token account is rejected
    let mut a = good.clone();
    a.user_payment_data = vec![1u8; 10];
    assert_eq!(
        process_spl_payment(&a, &cfg).unwrap_err(),
        GachaError::AccountMismatch
    );
    // an uninitialized token account is rejected too
    let mut a = good.clone();
    a.user_payment_data[108] = 0;
    assert_eq!(
        process_spl_payment(&a, &cfg).unwrap_err(),
        GachaError::AccountMismatch
    );
}

#[test]
fn spl_balance_read_from_token_data() {
    let cfg = PaymentConfig {
        gacha_state: acct(POOL),
        mint: acct(MINT),
        price: 100,
        admin_recipient_account: acct(TOKEN_RECIPIENT),
    };
    // the stored balance decides: 99 under, 100 at the price
    let a = spl_payment(acct(TOKEN_RECIPIENT), acct(MINT), 99);
    assert_eq!(
        process_spl_payment(&a, &cfg).unwrap_err(),
        GachaError::InsufficientFunds
    );
    let a = spl_payment(acct(TOKEN_RECIPIENT), acct(MINT), 100);
    assert!(process_spl_payment(&a, &cfg).is_ok());
}

#[test]
fn pull_happy_path() {
    let mut g = mk_pool(&[b"a", b"b", b"c"], 100);
    let payment = sol_payment(acct(USER), acct(RECIPIENT), 100);
    let data = mk_randomness(8, 0, 0);
    let (p, ev) = pull(
        &mut g,
        acct(USER),
        AccountId::zero(),
        acct(ORACLE),
        &payment,
        10,
        &data,
    )
    .unwrap();
    assert_eq!(p.nonce, 0);
    assert_eq!(p.user, acct(USER));
    assert_eq!(p.gacha_state, acct(POOL));
    assert_eq!(p.randomness_account, acct(ORACLE));
    assert_eq!(p.pull_slot, 10);
    assert_eq!(p.commit_slot, 8);
    assert!(!p.is_settled);
    assert_eq!(ev.nonce, 0);
    assert_eq!(ev.price, 100);
    assert_eq!(g.pull_count, 1);
}

#[test]
fn pull_with_token_payment() {
    let admin = acct(ADMIN);
    let (mut g, _) = initialize(acct(POOL), admin);
    add_key(&mut g, admin, b"a".to_vec()).unwrap();
    finalize(&mut g, admin).unwrap();
    add_payment_config(&mut g, admin, acct(MINT), 50, acct(TOKEN_RECIPIENT)).unwrap();
    let payment = spl_payment(acct(TOKEN_RECIPIENT), acct(MINT), 50);
    let data = mk_randomness(10, 0, 0);
    let (p, ev) = pull(&mut g, acct(USER), acct(MINT), acct(ORACLE), &payment, 10, &data).unwrap();
    assert_eq!(p.payment_mint, acct(MINT));
    assert_eq!(ev.price, 50);
}

#[test]
fn pull_rejects_paused() {
    let mut g = mk_pool(&[b"a"], 10);
    set_paused(&mut g, acct(ADMIN), true).unwrap();
    let payment = sol_payment(acct(USER), acct(RECIPIENT), 10);
    let data = mk_randomness(10, 0, 0);
    let r = pull(&mut g, acct(USER), AccountId::zero(), acct(ORACLE), &payment, 10, &data);
    assert_eq!(r.unwrap_err(), GachaError::GachaPaused);
    // unpausing lets the pull through
    set_paused(&mut g, acct(ADMIN), false).unwrap();
    assert!(pull(&mut g, acct(USER), AccountId::zero(), acct(ORACLE), &payment, 10, &data).is_ok());
}

#[test]
fn pull_rejects_unfinalized() {
    let (mut g, _) = initialize(acct(POOL), acct(ADMIN));
    add_key(&mut g, acct(ADMIN), b"a".to_vec()).unwrap();
    add_payment_config(&mut g, acct(ADMIN), AccountId::zero(), 10, acct(RECIPIENT)).unwrap();
    let payment = sol_payment(acct(USER), acct(RECIPIENT), 10);
    let data = mk_randomness(10, 0, 0);
    let r = pull(&mut g, acct(USER), AccountId::zero(), acct(ORACLE), &payment, 10, &data);
    assert_eq!(r.unwrap_err(), GachaError::GachaNotFinalized);
}

#[test]
fn pull_rejects_when_out_of_pulls() {
    let mut g = mk_pool(&[b"a"], 10);
    do_pull(&mut g, 10);
    let payment = sol_payment(acct(USER), acct(RECIPIENT), 10);
    let data = mk_randomness(11, 0, 0);
    let r = pull(&mut g, acct(USER), AccountId::zero(), acct(ORACLE), &payment, 11, &data);
    assert_eq!(r.unwrap_err(), GachaError::NotEnoughKeys);
}

#[test]
fn pull_rejects_unknown_method() {
    let mut g = mk_pool(&[b"a"], 10);
    let payment = sol_payment(acct(USER), acct(RECIPIENT), 10);
    let data = mk_randomness(10, 0, 0);
    let r = pull(&mut g, acct(USER), acct(MINT), acct(ORACLE), &payment, 10, &data);
    assert_eq!(r.unwrap_err(), GachaError::InvalidPaymentConfig);
}

#[test]
fn pull_rejects_stale_commit() {
    let mut g = mk_pool(&[b"a"], 10);
    let payment = sol_payment(acct(USER), acct(RECIPIENT), 10);
    // 21 slots old: one beyond the allowed distance
    let data = mk_randomness(79, 0, 0);
    let r = pull(&mut g, acct(USER), AccountId::zero(), acct(ORACLE), &payment, 100, &data);
    assert_eq!(r.unwrap_err(), GachaError::RandomnessNotCurrent);
    // exactly 20 slots old is still fresh
    let data = mk_randomness(80, 0, 0);
    assert!(
        pull(&mut g, acct(USER), AccountId::zero(), acct(ORACLE), &payment, 100, &data).is_ok()
    );
}

#[test]
fn pull_rejects_commit_from_the_future() {
    let mut g = mk_pool(&[b"a"], 10);
    let payment = sol_payment(acct(USER), acct(RECIPIENT), 10);
    let data = mk_randomness(11, 0, 0);
    let r = pull(&mut g, acct(USER), AccountId::zero(), acct(ORACLE), &payment, 10, &data);
    assert_eq!(r.unwrap_err(), GachaError::RandomnessNotCurrent);
}

#[test]
fn pull_rejects_malformed_randomness() {
    let mut g = mk_pool(&[b"a"], 10);
    let payment = sol_payment(acct(USER), acct(RECIPIENT), 10);
    // wrong discriminator
    let mut data = mk_randomness(10, 0, 0);
    data[0] = 99;
    let r = pull(&mut g, acct(USER), AccountId::zero(), acct(ORACLE), &payment, 10, &data);
    assert_eq!(r.unwrap_err(), GachaError::InvalidRandomnessAccount);
    // truncated record
    let r = pull(
        &mut g,
        acct(USER),
        AccountId::zero(),
        acct(ORACLE),
        &payment,
        10,
        &vec![0u8; 50],
    );
    assert_eq!(r.unwrap_err(), GachaError::InvalidRandomnessAccount);
    assert_eq!(g.pull_count, 0);
}

#[test]
fn pull_nonces_strictly_increasing() {
    let mut g = mk_pool(&[b"a", b"b", b"c"], 10);
    let p0 = do_pull(&mut g, 10);
    let p1 = do_pull(&mut g, 11);
    let p2 = do_pull(&mut g, 12);
    assert_eq!(p0.nonce, 0);
    assert_eq!(p1.nonce, 1);
    assert_eq!(p2.nonce, 2);
    assert_eq!(g.pull_count, 3);
}

#[test]
fn settle_end_to_end() {
    // pool with keys [A, B, C], finalized: remaining = {0, 1, 2}
    let mut g = mk_pool(&[b"A", b"B", b"C"], 100);
    assert_eq!(g.remaining_indices, vec![0u16, 1, 2]);

    // pull at slot 10 against commitment slot 8 (2 slots old: fresh)
    let payment = sol_payment(acct(USER), acct(RECIPIENT), 100);
    let data = mk_randomness(8, 0, 0);
    let (mut p, _) = pull(
        &mut g,
        acct(USER),
        AccountId::zero(),
        acct(ORACLE),
        &payment,
        10,
        &data,
    )
    .unwrap();
    assert_eq!(p.nonce, 0);

    // settle at slot 11 with the value 7 revealed for commitment slot 8:
    // draw index 7 mod 3 = 1, reward B
    let data = mk_randomness(8, 11, 7);
    let ev = settle(&mut g, &mut p, acct(USER), 11, &data).unwrap();
    assert_eq!(ev.key_index, 1);
    assert_eq!(ev.encrypted_key, b"B".to_vec());
    assert_eq!(ev.user, acct(USER));
    assert!(p.is_settled);
    assert_eq!(p.result_index, 1);
    assert_eq!(p.winning_encrypted_key, b"B".to_vec());
    // slot 1 was overwritten by the former slot 2
    assert_eq!(g.remaining_indices, vec![0u16, 2]);
    assert_eq!(g.settle_count, 1);

    // a repeat settle fails and changes nothing
    let snapshot_remaining = g.remaining_indices.clone();
    let r = settle(&mut g, &mut p, acct(USER), 12, &mk_randomness(8, 12, 9));
    assert_eq!(r.unwrap_err(), GachaError::AlreadySettled);
    assert_eq!(g.remaining_indices, snapshot_remaining);
    assert_eq!(g.settle_count, 1);
    assert_eq!(p.result_index, 1);
}

#[test]
fn settle_rejects_same_slot() {
    let mut g = mk_pool(&[b"a"], 10);
    let mut p = do_pull(&mut g, 10);
    let data = mk_randomness(10, 10, 0);
    let r = settle(&mut g, &mut p, acct(USER), 10, &data);
    assert_eq!(r.unwrap_err(), GachaError::SlotNotPassed);
    assert!(!p.is_settled);
}

#[test]
fn settle_rejects_commit_mismatch() {
    let mut g = mk_pool(&[b"a"], 10);
    let mut p = do_pull(&mut g, 10);
    // a different commitment than the one captured at pull time
    let data = mk_randomness(11, 12, 0);
    let r = settle(&mut g, &mut p, acct(USER), 12, &data);
    assert_eq!(r.unwrap_err(), GachaError::RandomnessExpired);
}

#[test]
fn settle_rejects_unrevealed() {
    let mut g = mk_pool(&[b"a"], 10);
    let mut p = do_pull(&mut g, 10);
    // revealed for slot 12, consumed at slot 11: still pending
    let data = mk_randomness(10, 12, 0);
    let r = settle(&mut g, &mut p, acct(USER), 11, &data);
    assert_eq!(r.unwrap_err(), GachaError::RandomnessNotResolved);
}

#[test]
fn settle_rejects_malformed_randomness() {
    let mut g = mk_pool(&[b"a"], 10);
    let mut p = do_pull(&mut g, 10);
    let mut data = mk_randomness(10, 11, 0);
    data[3] = 0;
    let r = settle(&mut g, &mut p, acct(USER), 11, &data);
    assert_eq!(r.unwrap_err(), GachaError::InvalidRandomnessAccount);
}

#[test]
fn gate_matrix_halted_blocks_settle_not_pull() {
    let mut g = mk_pool(&[b"a", b"b"], 10);
    let mut p = do_pull(&mut g, 10);
    set_halted(&mut g, acct(ADMIN), true).unwrap();
    // settle is blocked
    let data = mk_randomness(10, 11, 0);
    let r = settle(&mut g, &mut p, acct(USER), 11, &data);
    assert_eq!(r.unwrap_err(), GachaError::GachaHalted);
    // pull is unaffected
    let p2 = do_pull(&mut g, 11);
    assert_eq!(p2.nonce, 1);
    // unhalting lets the settle through
    set_halted(&mut g, acct(ADMIN), false).unwrap();
    assert!(settle(&mut g, &mut p, acct(USER), 11, &data).is_ok());
}

#[test]
fn gate_matrix_paused_blocks_pull_not_settle() {
    let mut g = mk_pool(&[b"a", b"b"], 10);
    let mut p = do_pull(&mut g, 10);
    set_paused(&mut g, acct(ADMIN), true).unwrap();
    // settle is unaffected while paused
    let data = mk_randomness(10, 11, 0);
    assert!(settle(&mut g, &mut p, acct(USER), 11, &data).is_ok());
    // pull is blocked
    let payment = sol_payment(acct(USER), acct(RECIPIENT), 10);
    let pd = mk_randomness(11, 0, 0);
    let r = pull(&mut g, acct(USER), AccountId::zero(), acct(ORACLE), &payment, 11, &pd);
    assert_eq!(r.unwrap_err(), GachaError::GachaPaused);
}

#[test]
fn settle_without_replacement() {
    let mut g = mk_pool(&[b"a", b"b", b"c", b"d"], 10);
    let mut p0 = do_pull(&mut g, 10);
    let mut p1 = do_pull(&mut g, 11);
    // both settles present the same raw random value; the swap-removed
    // working set still hands out two different keys
    let k0 = settle(&mut g, &mut p0, acct(USER), 12, &mk_randomness(10, 12, 1))
        .unwrap()
        .key_index;
    let k1 = settle(&mut g, &mut p1, acct(USER), 13, &mk_randomness(11, 13, 1))
        .unwrap()
        .key_index;
    assert_ne!(k0, k1);
    assert_eq!(g.remaining_indices.len(), 2);
    assert_eq!(g.settle_count, 2);
    for k in g.remaining_indices.iter() {
        assert_ne!(*k, k0);
        assert_ne!(*k, k1);
    }
}

#[test]
fn settle_rejects_wrong_user_and_pool() {
    let mut g = mk_pool(&[b"a"], 10);
    let mut p = do_pull(&mut g, 10);
    let data = mk_randomness(10, 11, 0);
    let r = settle(&mut g, &mut p, acct(999), 11, &data);
    assert_eq!(r.unwrap_err(), GachaError::AccountMismatch);
    let mut foreign = p.clone();
    foreign.gacha_state = acct(999);
    let r = settle(&mut g, &mut foreign, acct(USER), 11, &data);
    assert_eq!(r.unwrap_err(), GachaError::AccountMismatch);
}

#[test]
fn settle_rejects_empty_pool() {
    let mut g = mk_pool(&[b"a"], 10);
    let mut p = do_pull(&mut g, 10);
    let data = mk_randomness(10, 11, 0);
    settle(&mut g, &mut p, acct(USER), 11, &data).unwrap();
    assert!(g.remaining_indices.is_empty());
    // a second live request finds the pool drained
    let mut stray = p.clone();
    stray.is_settled = false;
    let r = settle(&mut g, &mut stray, acct(USER), 12, &mk_randomness(10, 12, 0));
    assert_eq!(r.unwrap_err(), GachaError::GachaIsEmpty);
}

#[test]
fn settle_at_rejects_short_value() {
    let mut g = mk_pool(&[b"a"], 10);
    let mut p = do_pull(&mut g, 10);
    let reading = OracleReading { seed_slot: 10, reveal_slot: 11, value: vec![1, 2, 3] };
    let r = settle_at(&mut g, &mut p, acct(USER), 11, &reading);
    assert_eq!(r.unwrap_err(), GachaError::InvalidRandomnessValue);
}

#[test]
fn settle_draws_depend_on_revealed_value() {
    // same pool, same request, different revealed values: different draws
    for (value, expect_index) in [(0u64, 0u16), (1, 1), (2, 2), (5, 2)] {
        let mut g = mk_pool(&[b"a", b"b", b"c"], 10);
        let mut p = do_pull(&mut g, 10);
        let ev = settle(&mut g, &mut p, acct(USER), 11, &mk_randomness(10, 11, value)).unwrap();
        assert_eq!(ev.key_index, expect_index);
    }
}

#[test]
fn gates_require_admin() {
    let (mut g, _) = initialize(acct(POOL), acct(ADMIN));
    assert_eq!(
        set_paused(&mut g, acct(USER), true).unwrap_err(),
        GachaError::IncorrectOwner
    );
    assert_eq!(
        set_halted(&mut g, acct(USER), true).unwrap_err(),
        GachaError::IncorrectOwner
    );
    assert_eq!(
        transfer_admin(&mut g, acct(USER), acct(USER)).unwrap_err(),
        GachaError::IncorrectOwner
    );
    assert_eq!(
        release_decryption_key(&mut g, acct(USER), b"k".to_vec()).unwrap_err(),
        GachaError::IncorrectOwner
    );
    assert_eq!(
        remove_payment_config(&mut g, acct(USER), AccountId::zero()).unwrap_err(),
        GachaError::IncorrectOwner
    );
    assert!(!g.is_paused);
    assert!(!g.is_halted);
    assert_eq!(g.admin, acct(ADMIN));
}

#[test]
fn gates_toggle_independently() {
    let (mut g, _) = initialize(acct(POOL), acct(ADMIN));
    let ev = set_paused(&mut g, acct(ADMIN), true).unwrap();
    assert!(ev.paused);
    assert!(g.is_paused && !g.is_halted);
    let ev = set_halted(&mut g, acct(ADMIN), true).unwrap();
    assert!(ev.halted);
    assert!(g.is_paused && g.is_halted);
    set_paused(&mut g, acct(ADMIN), false).unwrap();
    assert!(!g.is_paused && g.is_halted);
    set_halted(&mut g, acct(ADMIN), false).unwrap();
    assert!(!g.is_paused && !g.is_halted);
}

#[test]
fn string_to_fixed_bytes_pads_and_truncates() {
    let r = string_to_fixed_bytes("abc", 5);
    assert_eq!(r, vec![b'a', b'b', b'c', 0, 0]);
    let r = string_to_fixed_bytes("abcdef", 4);
    assert_eq!(r, vec![b'a', b'b', b'c', b'd']);
    let r = string_to_fixed_bytes("", 2);
    assert_eq!(r, vec![0, 0]);
}

#[test]
fn trim_trailing_zeros_strips_padding_only() {
    assert_eq!(trim_trailing_zeros(&[b'a', b'b', 0, 0]), vec![b'a', b'b']);
    assert_eq!(trim_trailing_zeros(&[0, 0, 0]), Vec::<u8>::new());
    assert_eq!(trim_trailing_zeros(&[]), Vec::<u8>::new());
    assert_eq!(trim_trailing_zeros(&[b'a', 0, b'b']), vec![b'a', 0, b'b']);
}

#[test]
fn trim_recovers_fixed_width_content() {
    let padded = string_to_fixed_bytes("abc", 10);
    assert_eq!(trim_trailing_zeros(&padded), b"abc".to_vec());
}

#[test]
fn spl_payment_rejects_bad_close_authority_tag() {
    let cfg = PaymentConfig {
        gacha_state: acct(POOL),
        mint: acct(MINT),
        price: 100,
        admin_recipient_account: acct(TOKEN_RECIPIENT),
    };
    let mut a = spl_payment(acct(TOKEN_RECIPIENT), acct(MINT), 100);
    a.user_payment_data[129] = 2;
    assert_eq!(
        process_spl_payment(&a, &cfg).unwrap_err(),
        GachaError::AccountMismatch
    );
    // a present close authority is a valid tag
    a.user_payment_data[129] = 1;
    assert!(process_spl_payment(&a, &cfg).is_ok());
}

#[test]
fn settle_rejects_request_beyond_pull_count() {
    // two keys, one pull, settled: every pull is accounted for, but the
    // pool still has a key remaining
    let mut g = mk_pool(&[b"a", b"b"], 10);
    let mut p = do_pull(&mut g, 10);
    settle(&mut g, &mut p, acct(USER), 11, &mk_randomness(10, 11, 0)).unwrap();
    assert_eq!(g.settle_count, g.pull_count);
    assert_eq!(g.remaining_indices.len(), 1);
    // a request that no pull backs is rejected, and the pool is untouched
    let mut stray = p.clone();
    stray.is_settled = false;
    let r = settle(&mut g, &mut stray, acct(USER), 12, &mk_randomness(10, 12, 0));
    assert_eq!(r.unwrap_err(), GachaError::AccountMismatch);
    assert_eq!(g.settle_count, 1);
    assert_eq!(g.remaining_indices.len(), 1);
}

#[test]
fn gates_reported_before_oracle_data_is_read() {
    // a paused pool rejects a pull as paused even when the oracle data is
    // malformed
    let mut g = mk_pool(&[b"a"], 10);
    set_paused(&mut g, acct(ADMIN), true).unwrap();
    let payment = sol_payment(acct(USER), acct(RECIPIENT), 10);
    let r = pull(
        &mut g,
        acct(USER),
        AccountId::zero(),
        acct(ORACLE),
        &payment,
        10,
        &vec![0u8; 3],
    );
    assert_eq!(r.unwrap_err(), GachaError::GachaPaused);
    // a halted pool rejects a settle as halted on the same malformed data
    set_paused(&mut g, acct(ADMIN), false).unwrap();
    let mut p = do_pull(&mut g, 10);
    set_halted(&mut g, acct(ADMIN), true).unwrap();
    let r = settle(&mut g, &mut p, acct(USER), 11, &vec![0u8; 3]);
    assert_eq!(r.unwrap_err(), GachaError::GachaHalted);
}
