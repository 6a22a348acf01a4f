//! The requester-facing protocol: `pull` commits to a randomness slot and
//! pays for one draw; `settle` later consumes the revealed value to draw
//! one key from the remaining set, without replacement.
//!
//! Both operations are validate-then-commit: every precondition is checked
//! before any field moves, so an error leaves the pool and the request
//! exactly as they were.

use vstd::prelude::*;

use vstd::bytes::{spec_u64_from_le_bytes, u64_from_le_bytes};
use vstd::slice::slice_subrange;

use crate::constants::MAX_SLOT_DIFFERENCE;
use crate::errors::GachaError;
use crate::events::{GachaPulled, GachaResult};
use crate::helpers::{
    copy_bytes, payment_error, payment_ok, process_sol_payment, process_spl_payment,
    PaymentAccounts,
};
use crate::oracle::{
    parse_randomness_account, randomness_data_well_formed, spec_randomness_value, spec_reveal_slot,
    spec_seed_slot, OracleReading,
};
use crate::states::{
    find_payment_config, lemma_find_config_props, lemma_swap_remove_set, pull_transition,
    settle_transition, spec_find_config, AccountId, GachaState, PaymentConfig, PlayerState,
};

verus! {

/// A randomness commitment is fresh at `now_slot`: it is not from the
/// future, and it is at most `MAX_SLOT_DIFFERENCE` slots old.
pub open spec fn commit_fresh(now_slot: u64, seed_slot: u64) -> bool {
    &&& now_slot >= seed_slot
    &&& now_slot - seed_slot <= MAX_SLOT_DIFFERENCE
}

/// The admission rules of a pull that need nothing from the oracle
/// reading: the pool admits pulls and the payment method is configured.
pub open spec fn pull_gates_ok(g: GachaState, payment_mint: AccountId) -> bool {
    &&& !g.is_paused
    &&& g.is_finalized
    &&& g.pull_count < g.encrypted_keys@.len()
    &&& g.has_config(payment_mint)
}

/// The error a pull rejected at the gates is reported with, check by check
/// in validation order.
pub open spec fn pull_gate_error(g: GachaState, payment_mint: AccountId) -> GachaError {
    if g.is_paused {
        GachaError::GachaPaused
    } else if !g.is_finalized {
        GachaError::GachaNotFinalized
    } else if g.pull_count >= g.encrypted_keys@.len() {
        GachaError::NotEnoughKeys
    } else {
        GachaError::InvalidPaymentConfig
    }
}

/// Every precondition of a pull: the gates pass, the commitment is fresh,
/// and the payment offer is acceptable.
pub open spec fn pull_ok(
    g: GachaState,
    user: AccountId,
    payment_mint: AccountId,
    a: PaymentAccounts,
    now_slot: u64,
    seed_slot: u64,
) -> bool {
    &&& pull_gates_ok(g, payment_mint)
    &&& commit_fresh(now_slot, seed_slot)
    &&& payment_ok(a, user, spec_find_config(g.payment_configs@, payment_mint)->Some_0)
}

/// The error a rejected pull is reported with, check by check in
/// validation order.
pub open spec fn pull_error(
    g: GachaState,
    user: AccountId,
    payment_mint: AccountId,
    a: PaymentAccounts,
    now_slot: u64,
    seed_slot: u64,
) -> GachaError {
    if !pull_gates_ok(g, payment_mint) {
        pull_gate_error(g, payment_mint)
    } else if !commit_fresh(now_slot, seed_slot) {
        GachaError::RandomnessNotCurrent
    } else {
        payment_error(a, user, spec_find_config(g.payment_configs@, payment_mint)->Some_0)
    }
}

/// Check the pull gates and resolve the payment method.
fn pull_gate_check(g: &GachaState, payment_mint: AccountId) -> (r: Result<
    PaymentConfig,
    GachaError,
>)
    ensures
        r is Ok <==> pull_gates_ok(*g, payment_mint),
        r is Ok ==> Some(r->Ok_0) == spec_find_config(g.payment_configs@, payment_mint),
        r is Err ==> r->Err_0 == pull_gate_error(*g, payment_mint),
{
    if g.is_paused {
        return Err(GachaError::GachaPaused);
    }
    if !g.is_finalized {
        return Err(GachaError::GachaNotFinalized);
    }
    if g.pull_count >= g.encrypted_keys.len() as u64 {
        return Err(GachaError::NotEnoughKeys);
    }
    match find_payment_config(&g.payment_configs, payment_mint) {
        Some(config) => Ok(config),
        None => Err(GachaError::InvalidPaymentConfig),
    }
}

/// Perform a pull against an already-read randomness commitment slot.
///
/// On success the pool's pull counter advances by one, and the new request
/// record carries that counter as its nonce, the slot of the pull, and the
/// captured commitment slot.  The host executes the validated payment and
/// persists the new record.
pub fn pull_at_commit(
    g: &mut GachaState,
    user: AccountId,
    payment_mint: AccountId,
    randomness_account: AccountId,
    payment: &PaymentAccounts,
    now_slot: u64,
    seed_slot: u64,
) -> (r: Result<(PlayerState, GachaPulled), GachaError>)
    requires
        old(g).wf(),
    ensures
        final(g).wf(),
        r is Ok <==> pull_ok(*old(g), user, payment_mint, *payment, now_slot, seed_slot),
        r is Err ==> *final(g) == *old(g) && r->Err_0 == pull_error(
            *old(g),
            user,
            payment_mint,
            *payment,
            now_slot,
            seed_slot,
        ),
        r is Ok ==> pull_transition(*old(g), *final(g), r->Ok_0.0, user, now_slot, seed_slot),
        r is Ok ==> {
            &&& r->Ok_0.0 == (PlayerState {
                user,
                gacha_state: old(g).id,
                randomness_account,
                payment_mint,
                is_settled: false,
                result_index: 0,
                winning_encrypted_key: r->Ok_0.0.winning_encrypted_key,
                pull_slot: now_slot,
                commit_slot: seed_slot,
                nonce: old(g).pull_count,
            })
            &&& r->Ok_0.0.winning_encrypted_key@.len() == 0
            &&& r->Ok_0.1 == (GachaPulled {
                user,
                nonce: old(g).pull_count,
                payment_mint,
                price: spec_find_config(old(g).payment_configs@, payment_mint)->Some_0.price,
                gacha_state: old(g).id,
            })
        },
{
    let config = match pull_gate_check(g, payment_mint) {
        Ok(config) => config,
        Err(e) => {
            return Err(e);
        },
    };
    if !(now_slot >= seed_slot && now_slot - seed_slot <= MAX_SLOT_DIFFERENCE) {
        return Err(GachaError::RandomnessNotCurrent);
    }
    let pay_result = if payment_mint == AccountId::zero() {
        process_sol_payment(payment, user, &config)
    } else {
        process_spl_payment(payment, &config)
    };
    proof {
        lemma_find_config_props(g.payment_configs@, payment_mint);
    }
    if let Err(e) = pay_result {
        return Err(e);
    }
    let player = PlayerState {
        user,
        gacha_state: g.id,
        randomness_account,
        payment_mint,
        is_settled: false,
        result_index: 0,
        winning_encrypted_key: Vec::new(),
        pull_slot: now_slot,
        commit_slot: seed_slot,
        nonce: g.pull_count,
    };
    let event = GachaPulled {
        user,
        nonce: g.pull_count,
        payment_mint,
        price: config.price,
        gacha_state: g.id,
    };
    g.pull_count = g.pull_count + 1;
    Ok((player, event))
}

/// Perform a pull, reading the commitment slot from raw randomness account
/// data.
///
/// Admission and the payment-method lookup are decided first, without the
/// oracle.  Then data that does not carry a randomness record is rejected
/// as an invalid randomness account; the oracle library may also reject a
/// buffer of its own accord, with the same report.  Whenever the record is
/// read, the pull behaves exactly as [`pull_at_commit`] on the stored
/// commitment slot.
pub fn pull(
    g: &mut GachaState,
    user: AccountId,
    payment_mint: AccountId,
    randomness_account: AccountId,
    payment: &PaymentAccounts,
    now_slot: u64,
    randomness_data: &Vec<u8>,
) -> (r: Result<(PlayerState, GachaPulled), GachaError>)
    requires
        old(g).wf(),
    ensures
        final(g).wf(),
        r is Err ==> *final(g) == *old(g),
        !pull_gates_ok(*old(g), payment_mint) ==> r == Err::<
            (PlayerState, GachaPulled),
            GachaError,
        >(pull_gate_error(*old(g), payment_mint)),
        pull_gates_ok(*old(g), payment_mint) && !randomness_data_well_formed(randomness_data@)
            ==> r == Err::<(PlayerState, GachaPulled), GachaError>(
            GachaError::InvalidRandomnessAccount,
        ),
        r is Ok ==> randomness_data_well_formed(randomness_data@) && pull_ok(
            *old(g),
            user,
            payment_mint,
            *payment,
            now_slot,
            spec_seed_slot(randomness_data@),
        ),
        r is Ok ==> pull_transition(
            *old(g),
            *final(g),
            r->Ok_0.0,
            user,
            now_slot,
            spec_seed_slot(randomness_data@),
        ),
        r is Ok ==> {
            &&& r->Ok_0.0 == (PlayerState {
                user,
                gacha_state: old(g).id,
                randomness_account,
                payment_mint,
                is_settled: false,
                result_index: 0,
                winning_encrypted_key: r->Ok_0.0.winning_encrypted_key,
                pull_slot: now_slot,
                commit_slot: spec_seed_slot(randomness_data@),
                nonce: old(g).pull_count,
            })
            &&& r->Ok_0.0.winning_encrypted_key@.len() == 0
            &&& r->Ok_0.1 == (GachaPulled {
                user,
                nonce: old(g).pull_count,
                payment_mint,
                price: spec_find_config(old(g).payment_configs@, payment_mint)->Some_0.price,
                gacha_state: old(g).id,
            })
        },
        r is Err ==> r->Err_0 == GachaError::InvalidRandomnessAccount || (
        !pull_ok(
            *old(g),
            user,
            payment_mint,
            *payment,
            now_slot,
            spec_seed_slot(randomness_data@),
        ) && r->Err_0 == pull_error(
            *old(g),
            user,
            payment_mint,
            *payment,
            now_slot,
            spec_seed_slot(randomness_data@),
        )),
{
    if let Err(e) = pull_gate_check(g, payment_mint) {
        return Err(e);
    }
    let reading = match parse_randomness_account(randomness_data) {
        Some(reading) => reading,
        None => {
            return Err(GachaError::InvalidRandomnessAccount);
        },
    };
    pull_at_commit(g, user, payment_mint, randomness_account, payment, now_slot, reading.seed_slot)
}

/// The position drawn from the remaining set: the revealed 64-bit value,
/// read little-endian from the head of the random bytes, reduced modulo
/// the size of the remaining set.
pub open spec fn settle_draw_index(g: GachaState, value: Seq<u8>) -> int {
    spec_u64_from_le_bytes(value.subrange(0, 8)) as int % g.remaining_indices@.len() as int
}

/// The key index drawn from the remaining set by the revealed value.
pub open spec fn settle_drawn_key(g: GachaState, value: Seq<u8>) -> u16 {
    g.remaining_indices@[settle_draw_index(g, value)]
}

/// The admission and addressing rules of a settle that need nothing from
/// the oracle reading: the request belongs to this pool and requester and
/// is not yet settled, the pool admits settles and still has keys, settlement
/// comes strictly after the pull's slot, and some pull is still
/// unsettled — a settle never outruns the pull counter, so the pool
/// invariant that settles never exceed pulls is preserved.
pub open spec fn settle_gates_ok(
    g: GachaState,
    p: PlayerState,
    user: AccountId,
    now_slot: u64,
) -> bool {
    &&& p.gacha_state == g.id
    &&& p.user == user
    &&& !p.is_settled
    &&& g.is_finalized
    &&& !g.is_halted
    &&& now_slot > p.pull_slot
    &&& g.remaining_indices@.len() > 0
    &&& g.settle_count < g.pull_count
}

/// The error a settle rejected at the gates is reported with, check by
/// check in validation order.  When every pull is already settled, the
/// presented request cannot be a live one, so it is reported as mismatched
/// accounts.
pub open spec fn settle_gate_error(
    g: GachaState,
    p: PlayerState,
    user: AccountId,
    now_slot: u64,
) -> GachaError {
    if p.gacha_state != g.id {
        GachaError::AccountMismatch
    } else if p.user != user {
        GachaError::AccountMismatch
    } else if p.is_settled {
        GachaError::AlreadySettled
    } else if !g.is_finalized {
        GachaError::GachaNotFinalized
    } else if g.is_halted {
        GachaError::GachaHalted
    } else if now_slot <= p.pull_slot {
        GachaError::SlotNotPassed
    } else if g.remaining_indices@.len() == 0 {
        GachaError::GachaIsEmpty
    } else {
        GachaError::AccountMismatch
    }
}

/// Every precondition of a settle: the gates pass, the presented
/// commitment is the one captured at pull time, the value is revealed at
/// exactly the current slot, and it carries at least 64 bits.
pub open spec fn settle_ok(
    g: GachaState,
    p: PlayerState,
    user: AccountId,
    now_slot: u64,
    seed_slot: u64,
    reveal_slot: u64,
    value: Seq<u8>,
) -> bool {
    &&& settle_gates_ok(g, p, user, now_slot)
    &&& seed_slot == p.commit_slot
    &&& reveal_slot == now_slot
    &&& value.len() >= 8
}

/// The error a rejected settle is reported with, check by check in
/// validation order.
pub open spec fn settle_error(
    g: GachaState,
    p: PlayerState,
    user: AccountId,
    now_slot: u64,
    seed_slot: u64,
    reveal_slot: u64,
    value: Seq<u8>,
) -> GachaError {
    if !settle_gates_ok(g, p, user, now_slot) {
        settle_gate_error(g, p, user, now_slot)
    } else if seed_slot != p.commit_slot {
        GachaError::RandomnessExpired
    } else if reveal_slot != now_slot {
        GachaError::RandomnessNotResolved
    } else {
        GachaError::InvalidRandomnessValue
    }
}

/// Check the settle gates.
fn settle_gate_check(g: &GachaState, p: &PlayerState, user: AccountId, now_slot: u64) -> (r:
    Result<(), GachaError>)
    ensures
        r is Ok <==> settle_gates_ok(*g, *p, user, now_slot),
        r is Err ==> r->Err_0 == settle_gate_error(*g, *p, user, now_slot),
{
    if !(p.gacha_state == g.id) {
        return Err(GachaError::AccountMismatch);
    }
    if !(p.user == user) {
        return Err(GachaError::AccountMismatch);
    }
    if p.is_settled {
        return Err(GachaError::AlreadySettled);
    }
    if !g.is_finalized {
        return Err(GachaError::GachaNotFinalized);
    }
    if g.is_halted {
        return Err(GachaError::GachaHalted);
    }
    if now_slot <= p.pull_slot {
        return Err(GachaError::SlotNotPassed);
    }
    if g.remaining_indices.len() == 0 {
        return Err(GachaError::GachaIsEmpty);
    }
    if g.settle_count >= g.pull_count {
        return Err(GachaError::AccountMismatch);
    }
    Ok(())
}

/// Settle a pull against an already-read oracle record.
///
/// On success the drawn key index leaves the remaining set by swapping the
/// last live slot into its place, the request is marked settled and bound
/// to the drawn key, and the pool's settle counter advances by one.  A
/// request that is already settled is rejected and nothing is touched
/// again.
pub fn settle_at(
    g: &mut GachaState,
    p: &mut PlayerState,
    user: AccountId,
    now_slot: u64,
    reading: &OracleReading,
) -> (r: Result<GachaResult, GachaError>)
    requires
        old(g).wf(),
    ensures
        final(g).wf(),
        r is Ok <==> settle_ok(
            *old(g),
            *old(p),
            user,
            now_slot,
            reading.seed_slot,
            reading.reveal_slot,
            reading.value@,
        ),
        r is Err ==> *final(g) == *old(g) && *final(p) == *old(p) && r->Err_0 == settle_error(
            *old(g),
            *old(p),
            user,
            now_slot,
            reading.seed_slot,
            reading.reveal_slot,
            reading.value@,
        ),
        r is Ok ==> settle_transition(
            *old(g),
            *final(g),
            settle_drawn_key(*old(g), reading.value@),
        ),
        r is Ok ==> final(g).remaining_indices@ == old(g).remaining_indices@.update(
            settle_draw_index(*old(g), reading.value@),
            old(g).remaining_indices@.last(),
        ).drop_last(),
        r is Ok ==> {
            &&& *final(p) == (PlayerState {
                is_settled: true,
                result_index: settle_drawn_key(*old(g), reading.value@),
                winning_encrypted_key: final(p).winning_encrypted_key,
                ..*old(p)
            })
            &&& final(p).winning_encrypted_key@ == old(g).encrypted_keys@[settle_drawn_key(
                *old(g),
                reading.value@,
            ) as int]@
            &&& r->Ok_0.user == old(p).user
            &&& r->Ok_0.key_index == settle_drawn_key(*old(g), reading.value@)
            &&& r->Ok_0.encrypted_key@ == old(g).encrypted_keys@[settle_drawn_key(
                *old(g),
                reading.value@,
            ) as int]@
            &&& r->Ok_0.gacha_state == old(g).id
        },
{
    if let Err(e) = settle_gate_check(g, p, user, now_slot) {
        return Err(e);
    }
    let m: usize = g.remaining_indices.len();
    if reading.seed_slot != p.commit_slot {
        return Err(GachaError::RandomnessExpired);
    }
    if reading.reveal_slot != now_slot {
        return Err(GachaError::RandomnessNotResolved);
    }
    if reading.value.len() < 8 {
        return Err(GachaError::InvalidRandomnessValue);
    }
    let head = slice_subrange(reading.value.as_slice(), 0, 8);
    let random_u64: u64 = u64_from_le_bytes(head);
    let selected: u64 = random_u64 % (m as u64);
    let selected_index: usize = selected as usize;
    proof {
        assert(selected_index == settle_draw_index(*g, reading.value@));
    }
    let final_key_index: u16 = g.remaining_indices[selected_index];
    proof {
        lemma_swap_remove_set(g.remaining_indices@, selected_index as int);
    }
    g.remaining_indices.swap_remove(selected_index);
    let winning_key = copy_bytes(&g.encrypted_keys[final_key_index as usize]);
    let event_key = copy_bytes(&winning_key);
    p.is_settled = true;
    p.result_index = final_key_index;
    p.winning_encrypted_key = winning_key;
    g.settle_count = g.settle_count + 1;
    Ok(
        GachaResult {
            user: p.user,
            key_index: final_key_index,
            encrypted_key: event_key,
            gacha_state: g.id,
        },
    )
}

/// Settle a pull, reading the oracle record from raw randomness account
/// data.
///
/// Admission and addressing are decided first, without the oracle.  Then
/// data that does not carry a randomness record is rejected as an invalid
/// randomness account; the oracle library may also reject a buffer of its
/// own accord, with the same report.  Whenever the record is read, the
/// settle behaves exactly as [`settle_at`] on the stored commitment slot,
/// reveal slot and random value.
pub fn settle(
    g: &mut GachaState,
    p: &mut PlayerState,
    user: AccountId,
    now_slot: u64,
    randomness_data: &Vec<u8>,
) -> (r: Result<GachaResult, GachaError>)
    requires
        old(g).wf(),
    ensures
        final(g).wf(),
        r is Err ==> *final(g) == *old(g) && *final(p) == *old(p),
        !settle_gates_ok(*old(g), *old(p), user, now_slot) ==> r == Err::<
            GachaResult,
            GachaError,
        >(settle_gate_error(*old(g), *old(p), user, now_slot)),
        settle_gates_ok(*old(g), *old(p), user, now_slot) && !randomness_data_well_formed(
            randomness_data@,
        ) ==> r == Err::<GachaResult, GachaError>(GachaError::InvalidRandomnessAccount),
        r is Ok ==> randomness_data_well_formed(randomness_data@) && settle_ok(
            *old(g),
            *old(p),
            user,
            now_slot,
            spec_seed_slot(randomness_data@),
            spec_reveal_slot(randomness_data@),
            spec_randomness_value(randomness_data@),
        ),
        r is Ok ==> settle_transition(
            *old(g),
            *final(g),
            settle_drawn_key(*old(g), spec_randomness_value(randomness_data@)),
        ),
        r is Ok ==> {
            &&& *final(p) == (PlayerState {
                is_settled: true,
                result_index: settle_drawn_key(
                    *old(g),
                    spec_randomness_value(randomness_data@),
                ),
                winning_encrypted_key: final(p).winning_encrypted_key,
                ..*old(p)
            })
            &&& final(p).winning_encrypted_key@ == old(g).encrypted_keys@[settle_drawn_key(
                *old(g),
                spec_randomness_value(randomness_data@),
            ) as int]@
            &&& r->Ok_0.user == old(p).user
            &&& r->Ok_0.key_index == settle_drawn_key(
                *old(g),
                spec_randomness_value(randomness_data@),
            )
            &&& r->Ok_0.encrypted_key@ == old(g).encrypted_keys@[settle_drawn_key(
                *old(g),
                spec_randomness_value(randomness_data@),
            ) as int]@
            &&& r->Ok_0.gacha_state == old(g).id
        },
        r is Err ==> r->Err_0 == GachaError::InvalidRandomnessAccount || (
        !settle_ok(
            *old(g),
            *old(p),
            user,
            now_slot,
            spec_seed_slot(randomness_data@),
            spec_reveal_slot(randomness_data@),
            spec_randomness_value(randomness_data@),
        ) && r->Err_0 == settle_error(
            *old(g),
            *old(p),
            user,
            now_slot,
            spec_seed_slot(randomness_data@),
            spec_reveal_slot(randomness_data@),
            spec_randomness_value(randomness_data@),
        )),
{
    if let Err(e) = settle_gate_check(g, p, user, now_slot) {
        return Err(e);
    }
    let reading = match parse_randomness_account(randomness_data) {
        Some(reading) => reading,
        None => {
            return Err(GachaError::InvalidRandomnessAccount);
        },
    };
    settle_at(g, p, user, now_slot, &reading)
}

} // verus!
