//! Administrative operations: pool creation, key loading, finalization,
//! the pause/halt gates, admin transfer, payment-configuration management
//! and the release of the decryption key.
//!
//! Every operation is validate-then-commit: no field moves until every
//! check has passed, so an error leaves the pool exactly as it was.

use vstd::prelude::*;

use crate::constants::{KEY_LEN, MAX_KEYS, MAX_PAYMENT_CONFIGS};
use crate::errors::GachaError;
use crate::events::{
    AdminTransferred, DecryptionKeyReleased, GachaFinalized, GachaHalted, GachaInitialized,
    GachaPaused, KeyAdded, PaymentConfigAdded, PaymentConfigRemoved,
};
use crate::helpers::copy_bytes;
use crate::states::{
    find_payment_config, finalize_transition, lemma_find_config_props, AccountId, GachaState,
    PaymentConfig,
};

verus! {

/// Create a new pool under the given registry identity, with the caller as
/// its administrator.  The pool starts unfinalized, ungated and empty.
pub fn initialize(id: AccountId, admin: AccountId) -> (r: (GachaState, GachaInitialized))
    ensures
        r.0.wf(),
        r.0.id == id,
        r.0.admin == admin,
        !r.0.is_finalized,
        !r.0.is_paused,
        !r.0.is_halted,
        r.0.pull_count == 0,
        r.0.settle_count == 0,
        r.0.encrypted_keys@.len() == 0,
        r.0.remaining_indices@.len() == 0,
        r.0.payment_configs@.len() == 0,
        r.0.decryption_key@.len() == 0,
        r.1 == (GachaInitialized { admin, gacha_state: id }),
{
    let g = GachaState {
        id,
        admin,
        is_finalized: false,
        is_paused: false,
        is_halted: false,
        pull_count: 0,
        settle_count: 0,
        encrypted_keys: Vec::new(),
        remaining_indices: Vec::new(),
        payment_configs: Vec::new(),
        decryption_key: Vec::new(),
    };
    let ev = GachaInitialized { admin, gacha_state: id };
    (g, ev)
}

/// Add a payment configuration: a new accepted method with its price and
/// recipient.  Fails if the caller is not the admin, if the bounded table
/// is full, or if the method is already configured.
pub fn add_payment_config(
    g: &mut GachaState,
    caller: AccountId,
    payment_mint: AccountId,
    payment_price: u64,
    payment_recipient_account: AccountId,
) -> (r: Result<PaymentConfigAdded, GachaError>)
    requires
        old(g).wf(),
    ensures
        final(g).wf(),
        r is Ok <==> (caller == old(g).admin && old(g).payment_configs@.len()
            < MAX_PAYMENT_CONFIGS && !old(g).has_config(payment_mint)),
        r is Ok ==> {
            &&& final(g).payment_configs@ == old(g).payment_configs@.push(
                (PaymentConfig {
                    gacha_state: old(g).id,
                    mint: payment_mint,
                    price: payment_price,
                    admin_recipient_account: payment_recipient_account,
                }),
            )
            &&& *final(g) == (GachaState { payment_configs: final(g).payment_configs, ..*old(g) })
            &&& final(g).has_config(payment_mint)
            &&& r->Ok_0 == (PaymentConfigAdded {
                admin: caller,
                payment_mint,
                payment_price,
                payment_recipient_account,
                gacha_state: old(g).id,
            })
        },
        r is Err ==> *final(g) == *old(g),
        caller != old(g).admin ==> r == Err::<PaymentConfigAdded, GachaError>(
            GachaError::IncorrectOwner,
        ),
        caller == old(g).admin && old(g).payment_configs@.len() >= MAX_PAYMENT_CONFIGS ==> r
            == Err::<PaymentConfigAdded, GachaError>(GachaError::KeyPoolFull),
        caller == old(g).admin && old(g).payment_configs@.len() < MAX_PAYMENT_CONFIGS && old(
            g,
        ).has_config(payment_mint) ==> r == Err::<PaymentConfigAdded, GachaError>(
            GachaError::InvalidPaymentConfig,
        ),
{
    if !(caller == g.admin) {
        return Err(GachaError::IncorrectOwner);
    }
    if g.payment_configs.len() >= MAX_PAYMENT_CONFIGS {
        return Err(GachaError::KeyPoolFull);
    }
    match find_payment_config(&g.payment_configs, payment_mint) {
        Some(_) => Err(GachaError::InvalidPaymentConfig),
        None => {
            let config = PaymentConfig {
                gacha_state: g.id,
                mint: payment_mint,
                price: payment_price,
                admin_recipient_account: payment_recipient_account,
            };
            proof {
                lemma_find_config_props(g.payment_configs@, payment_mint);
            }
            g.payment_configs.push(config);
            proof {
                lemma_find_config_props(g.payment_configs@, payment_mint);
                assert(g.payment_configs@[g.payment_configs@.len() - 1].mint == payment_mint);
            }
            Ok(
                PaymentConfigAdded {
                    admin: caller,
                    payment_mint,
                    payment_price,
                    payment_recipient_account,
                    gacha_state: g.id,
                },
            )
        },
    }
}

/// Remove a payment configuration by its method identifier, compacting the
/// dense table by swapping the last occupied slot into the freed one.
/// Fails if the caller is not the admin or the method is not configured.
pub fn remove_payment_config(g: &mut GachaState, caller: AccountId, payment_mint: AccountId) -> (r:
    Result<PaymentConfigRemoved, GachaError>)
    requires
        old(g).wf(),
    ensures
        final(g).wf(),
        r is Ok <==> (caller == old(g).admin && old(g).has_config(payment_mint)),
        r is Ok ==> (exists|i: int|
            0 <= i < old(g).payment_configs@.len() && (
            #[trigger] old(g).payment_configs@[i]).mint == payment_mint
                && final(g).payment_configs@ == old(g).payment_configs@.update(
                i,
                old(g).payment_configs@.last(),
            ).drop_last()),
        r is Ok ==> {
            &&& final(g).payment_configs@.len() == old(g).payment_configs@.len() - 1
            &&& !final(g).has_config(payment_mint)
            &&& *final(g) == (GachaState { payment_configs: final(g).payment_configs, ..*old(g) })
            &&& r->Ok_0 == (PaymentConfigRemoved {
                admin: caller,
                payment_mint,
                gacha_state: old(g).id,
            })
        },
        r is Err ==> *final(g) == *old(g),
        caller != old(g).admin ==> r == Err::<PaymentConfigRemoved, GachaError>(
            GachaError::IncorrectOwner,
        ),
        caller == old(g).admin && !old(g).has_config(payment_mint) ==> r == Err::<
            PaymentConfigRemoved,
            GachaError,
        >(GachaError::InvalidPaymentConfig),
{
    if !(caller == g.admin) {
        return Err(GachaError::IncorrectOwner);
    }
    let n: usize = g.payment_configs.len();
    let mut i: usize = 0;
    let mut found: Option<usize> = None;
    while i < n
        invariant
            0 <= i <= n,
            n == g.payment_configs@.len(),
            found matches Some(k) ==> 0 <= k < n && g.payment_configs@[k as int].mint
                == payment_mint,
            found is None ==> forall|j: int|
                0 <= j < i ==> (#[trigger] g.payment_configs@[j]).mint != payment_mint,
        decreases n - i,
    {
        if found.is_none() && g.payment_configs[i].mint == payment_mint {
            found = Some(i);
        }
        i = i + 1;
    }
    proof {
        lemma_find_config_props(g.payment_configs@, payment_mint);
    }
    match found {
        None => Err(GachaError::InvalidPaymentConfig),
        Some(idx) => {
            let ghost pre = g.payment_configs@;
            let ghost gi = idx as int;
            g.payment_configs.swap_remove(idx);
            proof {
                let post = g.payment_configs@;
                assert forall|j1: int, j2: int| 0 <= j1 < j2 < post.len() implies (
                #[trigger] post[j1]).mint != (#[trigger] post[j2]).mint by {
                    let m1: int = if j1 == gi { pre.len() - 1 } else { j1 };
                    let m2: int = if j2 == gi { pre.len() - 1 } else { j2 };
                    assert(post[j1] == pre[m1]);
                    assert(post[j2] == pre[m2]);
                }
                assert forall|j: int| 0 <= j < post.len() implies (#[trigger] post[j]).mint
                    != payment_mint by {
                    let m: int = if j == gi { pre.len() - 1 } else { j };
                    assert(post[j] == pre[m]);
                    if m != gi {
                        assert(pre[m].mint != pre[gi].mint);
                    }
                }
                lemma_find_config_props(g.payment_configs@, payment_mint);
            }
            Ok(PaymentConfigRemoved { admin: caller, payment_mint, gacha_state: g.id })
        },
    }
}

/// Every precondition of adding a key: an admin caller, an unfinalized
/// pool, a non-empty key of bounded length, and spare capacity.
pub open spec fn add_key_ok(g: GachaState, caller: AccountId, key: Seq<u8>) -> bool {
    &&& caller == g.admin
    &&& !g.is_finalized
    &&& 1 <= key.len() <= KEY_LEN
    &&& g.encrypted_keys@.len() < MAX_KEYS
}

/// Append an encrypted reward key to an unfinalized pool.  Fails if the
/// caller is not the admin, the pool is finalized, the key is empty or too
/// long, or the pool is at capacity; on failure nothing is appended.
pub fn add_key(g: &mut GachaState, caller: AccountId, encrypted_key: Vec<u8>) -> (r: Result<
    KeyAdded,
    GachaError,
>)
    requires
        old(g).wf(),
    ensures
        final(g).wf(),
        r is Ok <==> add_key_ok(*old(g), caller, encrypted_key@),
        r is Ok ==> {
            &&& final(g).encrypted_keys@ == old(g).encrypted_keys@.push(encrypted_key)
            &&& *final(g) == (GachaState { encrypted_keys: final(g).encrypted_keys, ..*old(g) })
            &&& r->Ok_0.admin == caller
            &&& r->Ok_0.key@ == encrypted_key@
            &&& r->Ok_0.total_keys == final(g).encrypted_keys@.len()
            &&& r->Ok_0.gacha_state == old(g).id
        },
        r is Err ==> *final(g) == *old(g),
        caller != old(g).admin ==> r == Err::<KeyAdded, GachaError>(GachaError::IncorrectOwner),
        caller == old(g).admin && old(g).is_finalized ==> r == Err::<KeyAdded, GachaError>(
            GachaError::GachaAlreadyFinalized,
        ),
        caller == old(g).admin && !old(g).is_finalized && encrypted_key@.len() == 0 ==> r
            == Err::<KeyAdded, GachaError>(GachaError::EmptyKeyProvided),
        caller == old(g).admin && !old(g).is_finalized && encrypted_key@.len() > KEY_LEN ==> r
            == Err::<KeyAdded, GachaError>(GachaError::KeyTooLong),
        caller == old(g).admin && !old(g).is_finalized && 1 <= encrypted_key@.len() <= KEY_LEN
            && old(g).encrypted_keys@.len() >= MAX_KEYS ==> r == Err::<KeyAdded, GachaError>(
            GachaError::KeyPoolFull,
        ),
{
    if !(caller == g.admin) {
        return Err(GachaError::IncorrectOwner);
    }
    if g.is_finalized {
        return Err(GachaError::GachaAlreadyFinalized);
    }
    if encrypted_key.len() == 0 {
        return Err(GachaError::EmptyKeyProvided);
    }
    if encrypted_key.len() > KEY_LEN {
        return Err(GachaError::KeyTooLong);
    }
    if g.encrypted_keys.len() >= MAX_KEYS {
        return Err(GachaError::KeyPoolFull);
    }
    let key_copy = copy_bytes(&encrypted_key);
    g.encrypted_keys.push(encrypted_key);
    let total: u16 = g.encrypted_keys.len() as u16;
    Ok(KeyAdded { admin: caller, key: key_copy, total_keys: total, gacha_state: g.id })
}

/// Finalize the pool: the one-way transition that freezes the key set and
/// snapshots the remaining working set to every key index.  Fails if the
/// caller is not the admin, the pool is already finalized, or no key was
/// added.
pub fn finalize(g: &mut GachaState, caller: AccountId) -> (r: Result<GachaFinalized, GachaError>)
    requires
        old(g).wf(),
    ensures
        final(g).wf(),
        r is Ok <==> (caller == old(g).admin && !old(g).is_finalized && old(
            g,
        ).encrypted_keys@.len() > 0),
        r is Ok ==> finalize_transition(*old(g), *final(g)),
        r is Ok ==> r->Ok_0 == (GachaFinalized {
            admin: caller,
            total_keys: (old(g).encrypted_keys@.len() as u16),
            gacha_state: old(g).id,
        }),
        r is Err ==> *final(g) == *old(g),
        caller != old(g).admin ==> r == Err::<GachaFinalized, GachaError>(
            GachaError::IncorrectOwner,
        ),
        caller == old(g).admin && old(g).is_finalized ==> r == Err::<GachaFinalized, GachaError>(
            GachaError::GachaAlreadyFinalized,
        ),
        caller == old(g).admin && !old(g).is_finalized && old(g).encrypted_keys@.len() == 0 ==> r
            == Err::<GachaFinalized, GachaError>(GachaError::NoKeysInPool),
{
    if !(caller == g.admin) {
        return Err(GachaError::IncorrectOwner);
    }
    if g.is_finalized {
        return Err(GachaError::GachaAlreadyFinalized);
    }
    let n: usize = g.encrypted_keys.len();
    if n == 0 {
        return Err(GachaError::NoKeysInPool);
    }
    let mut remaining: Vec<u16> = Vec::new();
    let mut i: usize = 0;
    while i < n
        invariant
            0 <= i <= n,
            n <= MAX_KEYS,
            remaining@.len() == i,
            forall|j: int| 0 <= j < i ==> (#[trigger] remaining@[j]) == j as u16,
        decreases n - i,
    {
        remaining.push(i as u16);
        i = i + 1;
    }
    proof {
        assert forall|j1: int, j2: int| 0 <= j1 < j2 < remaining@.len() implies remaining@[j1]
            != remaining@[j2] by {
            assert(remaining@[j1] == j1 as u16);
            assert(remaining@[j2] == j2 as u16);
        }
    }
    g.remaining_indices = remaining;
    g.is_finalized = true;
    let total: u16 = n as u16;
    Ok(GachaFinalized { admin: caller, total_keys: total, gacha_state: g.id })
}

/// Set the paused gate: while paused, pulls are rejected; settles are
/// unaffected.  Admin only.
pub fn set_paused(g: &mut GachaState, caller: AccountId, paused: bool) -> (r: Result<
    GachaPaused,
    GachaError,
>)
    requires
        old(g).wf(),
    ensures
        final(g).wf(),
        r is Ok <==> caller == old(g).admin,
        r is Ok ==> *final(g) == (GachaState { is_paused: paused, ..*old(g) }),
        r is Ok ==> r->Ok_0 == (GachaPaused { admin: caller, paused, gacha_state: old(g).id }),
        r is Err ==> *final(g) == *old(g) && r == Err::<GachaPaused, GachaError>(
            GachaError::IncorrectOwner,
        ),
{
    if !(caller == g.admin) {
        return Err(GachaError::IncorrectOwner);
    }
    g.is_paused = paused;
    Ok(GachaPaused { admin: caller, paused, gacha_state: g.id })
}

/// Set the halted gate: while halted, settles are rejected; pulls are
/// unaffected.  Admin only.
pub fn set_halted(g: &mut GachaState, caller: AccountId, halted: bool) -> (r: Result<
    GachaHalted,
    GachaError,
>)
    requires
        old(g).wf(),
    ensures
        final(g).wf(),
        r is Ok <==> caller == old(g).admin,
        r is Ok ==> *final(g) == (GachaState { is_halted: halted, ..*old(g) }),
        r is Ok ==> r->Ok_0 == (GachaHalted { admin: caller, halted, gacha_state: old(g).id }),
        r is Err ==> *final(g) == *old(g) && r == Err::<GachaHalted, GachaError>(
            GachaError::IncorrectOwner,
        ),
{
    if !(caller == g.admin) {
        return Err(GachaError::IncorrectOwner);
    }
    g.is_halted = halted;
    Ok(GachaHalted { admin: caller, halted, gacha_state: g.id })
}

/// Transfer administration of the pool to a new account.  Admin only.
pub fn transfer_admin(g: &mut GachaState, caller: AccountId, new_admin: AccountId) -> (r: Result<
    AdminTransferred,
    GachaError,
>)
    requires
        old(g).wf(),
    ensures
        final(g).wf(),
        r is Ok <==> caller == old(g).admin,
        r is Ok ==> *final(g) == (GachaState { admin: new_admin, ..*old(g) }),
        r is Ok ==> r->Ok_0 == (AdminTransferred {
            previous_admin: old(g).admin,
            new_admin,
            gacha_state: old(g).id,
        }),
        r is Err ==> *final(g) == *old(g) && r == Err::<AdminTransferred, GachaError>(
            GachaError::IncorrectOwner,
        ),
{
    if !(caller == g.admin) {
        return Err(GachaError::IncorrectOwner);
    }
    let previous_admin = g.admin;
    g.admin = new_admin;
    Ok(AdminTransferred { previous_admin, new_admin, gacha_state: g.id })
}

/// Release the decryption key for the pool's encrypted rewards.  Allowed
/// only once every key has been drawn and settled, and only for a
/// non-empty key of bounded length.  Admin only.
pub fn release_decryption_key(g: &mut GachaState, caller: AccountId, decryption_key: Vec<u8>) -> (r:
    Result<DecryptionKeyReleased, GachaError>)
    requires
        old(g).wf(),
    ensures
        final(g).wf(),
        r is Ok <==> (caller == old(g).admin && old(g).settle_count == old(
            g,
        ).encrypted_keys@.len() && 1 <= decryption_key@.len() <= KEY_LEN),
        r is Ok ==> {
            &&& final(g).decryption_key@ == decryption_key@
            &&& *final(g) == (GachaState { decryption_key: final(g).decryption_key, ..*old(g) })
            &&& r->Ok_0.admin == caller
            &&& r->Ok_0.decryption_key@ == decryption_key@
            &&& r->Ok_0.gacha_state == old(g).id
        },
        r is Err ==> *final(g) == *old(g),
        caller != old(g).admin ==> r == Err::<DecryptionKeyReleased, GachaError>(
            GachaError::IncorrectOwner,
        ),
        caller == old(g).admin && old(g).settle_count != old(g).encrypted_keys@.len() ==> r
            == Err::<DecryptionKeyReleased, GachaError>(GachaError::GachaNotComplete),
        caller == old(g).admin && old(g).settle_count == old(g).encrypted_keys@.len() && !(1
            <= decryption_key@.len() <= KEY_LEN) ==> r == Err::<
            DecryptionKeyReleased,
            GachaError,
        >(GachaError::KeyTooLong),
{
    if !(caller == g.admin) {
        return Err(GachaError::IncorrectOwner);
    }
    if g.settle_count != g.encrypted_keys.len() as u64 {
        return Err(GachaError::GachaNotComplete);
    }
    if decryption_key.len() == 0 || decryption_key.len() > KEY_LEN {
        return Err(GachaError::KeyTooLong);
    }
    let key_copy = copy_bytes(&decryption_key);
    g.decryption_key = decryption_key;
    Ok(DecryptionKeyReleased { admin: caller, decryption_key: key_copy, gacha_state: g.id })
}

} // verus!
