//! Protocol-wide laws: properties that relate several operations, stated
//! over the same transition predicates the operations' contracts use, and
//! proved once and for all.

use vstd::prelude::*;

use crate::admin::add_key_ok;
use crate::constants::{KEY_LEN, MAX_KEYS};
use crate::errors::GachaError;
use crate::helpers::PaymentAccounts;
use crate::states::{
    finalize_transition, pull_transition, settle_transition, AccountId, GachaState, PlayerState,
};
use crate::user::{pull_error, pull_ok, settle_error, settle_ok};

verus! {

/// After a finalize of a pool with N keys, the remaining working set holds
/// exactly N distinct indices: it contains an index exactly when some key
/// bears it.
pub proof fn lemma_finalize_remaining_complete(pre: GachaState, post: GachaState)
    requires
        pre.wf(),
        finalize_transition(pre, post),
    ensures
        post.remaining_indices@.len() == pre.encrypted_keys@.len(),
        post.remaining_indices@.no_duplicates(),
        forall|x: u16|
            post.remaining_set().contains(x) <==> (x as int) < pre.encrypted_keys@.len(),
{
    let n = pre.encrypted_keys@.len() as int;
    assert forall|x: u16| post.remaining_set().contains(x) implies (x as int) < n by {
        let j = choose|j: int|
            0 <= j < post.remaining_indices@.len() && post.remaining_indices@[j] == x;
        assert(post.remaining_indices@[j] == j as u16);
    }
    assert forall|x: u16| (x as int) < n implies post.remaining_set().contains(x) by {
        assert(post.remaining_indices@[x as int] == x);
        assert(post.remaining_indices@.contains(x));
    }
}

/// One settle step never re-offers the drawn index: it was remaining
/// before and is no longer remaining afterwards.
pub proof fn lemma_settle_removes_drawn(pre: GachaState, post: GachaState, drawn: u16)
    requires
        settle_transition(pre, post, drawn),
    ensures
        pre.remaining_set().contains(drawn),
        !post.remaining_set().contains(drawn),
{
    broadcast use vstd::set::group_set_axioms;

}

/// A run of settles: consecutive states linked by one settle transition
/// each, with the sequence of drawn indices.
pub open spec fn settle_chain(states: Seq<GachaState>, draws: Seq<u16>) -> bool {
    &&& states.len() == draws.len() + 1
    &&& forall|i: int|
        0 <= i < draws.len() ==> settle_transition(states[i], states[i + 1], #[trigger] draws[i])
}

/// Along a run of settles the remaining set only shrinks: every later
/// remaining set is contained in the first.
pub proof fn lemma_settle_chain_monotone(states: Seq<GachaState>, draws: Seq<u16>, j: int)
    requires
        settle_chain(states, draws),
        0 <= j < states.len(),
    ensures
        states[j].remaining_set().subset_of(states[0].remaining_set()),
    decreases j,
{
    broadcast use vstd::set::group_set_axioms;

    if j > 0 {
        lemma_settle_chain_monotone(states, draws, j - 1);
        assert(settle_transition(states[j - 1], states[j], draws[j - 1]));
    }
}

/// Exactly-once allocation: after k successful settles, every drawn index
/// was remaining at the start, no index was drawn twice, and the remaining
/// set has shrunk by exactly k, with the settle counter up by k.
pub proof fn lemma_settles_allocate_exactly_once(states: Seq<GachaState>, draws: Seq<u16>)
    requires
        settle_chain(states, draws),
    ensures
        draws.no_duplicates(),
        forall|i: int|
            0 <= i < draws.len() ==> states[0].remaining_set().contains(#[trigger] draws[i]),
        states.last().remaining_indices@.len() == states[0].remaining_indices@.len()
            - draws.len(),
        states.last().settle_count == states[0].settle_count + draws.len(),
    decreases draws.len(),
{
    broadcast use vstd::set::group_set_axioms;

    if draws.len() == 0 {
        assert(states.last() == states[0]);
    } else {
        let states1 = states.drop_first();
        let draws1 = draws.drop_first();
        assert forall|i: int| 0 <= i < draws1.len() implies settle_transition(
            states1[i],
            states1[i + 1],
            #[trigger] draws1[i],
        ) by {
            assert(settle_transition(states[i + 1], states[i + 2], draws[i + 1]));
        }
        lemma_settles_allocate_exactly_once(states1, draws1);
        assert(states.last() == states1.last());
        assert(settle_transition(states[0], states[1], draws[0]));
        // the first drawn index is gone from every later remaining set
        assert forall|i: int| 0 <= i < draws1.len() implies draws1[i] != draws[0] by {
            lemma_settle_chain_monotone(states1, draws1, i);
            assert(settle_transition(states1[i], states1[i + 1], draws1[i]));
            assert(states1[i].remaining_set().contains(draws1[i]));
            assert(states1[0].remaining_set().contains(draws1[i]));
            assert(states1[0] == states[1]);
            assert(!states[1].remaining_set().contains(draws[0]));
        }
        assert forall|i: int, j: int| 0 <= i < j < draws.len() implies draws[i] != draws[j] by {
            if i == 0 {
                assert(draws[j] == draws1[j - 1]);
            } else {
                assert(draws[i] == draws1[i - 1]);
                assert(draws[j] == draws1[j - 1]);
            }
        }
        assert forall|i: int| 0 <= i < draws.len() implies states[0].remaining_set().contains(
            #[trigger] draws[i],
        ) by {
            if i == 0 {
            } else {
                assert(states1[0].remaining_set().contains(draws1[i - 1]));
                assert(states[1].remaining_set().subset_of(states[0].remaining_set()));
            }
        }
    }
}

/// Pull nonces are strictly increasing per pool and start at zero: a pull
/// on a fresh pool hands out nonce 0, and each pull's nonce is one more
/// than the previous pull's.
pub proof fn lemma_nonces_strictly_increasing(
    g0: GachaState,
    g1: GachaState,
    g2: GachaState,
    p1: PlayerState,
    p2: PlayerState,
    user1: AccountId,
    now1: u64,
    seed1: u64,
    user2: AccountId,
    now2: u64,
    seed2: u64,
)
    requires
        pull_transition(g0, g1, p1, user1, now1, seed1),
        pull_transition(g1, g2, p2, user2, now2, seed2),
    ensures
        p2.nonce == p1.nonce + 1,
        p2.nonce > p1.nonce,
        g0.pull_count == 0 ==> p1.nonce == 0,
{
}

/// A settle of an already-settled request is always rejected as already
/// settled, and by its contract the rejected settle changes nothing.
pub proof fn lemma_already_settled_rejected(
    g: GachaState,
    p: PlayerState,
    user: AccountId,
    now_slot: u64,
    seed_slot: u64,
    reveal_slot: u64,
    value: Seq<u8>,
)
    requires
        p.gacha_state == g.id,
        p.user == user,
        p.is_settled,
    ensures
        !settle_ok(g, p, user, now_slot, seed_slot, reveal_slot, value),
        settle_error(g, p, user, now_slot, seed_slot, reveal_slot, value)
            == GachaError::AlreadySettled,
{
}

/// Adding a key fails exactly when the pool is finalized, the key exceeds
/// the maximum length, or the pool is at capacity — for an admin caller
/// and a non-empty key.
pub proof fn lemma_add_key_exact_failure(g: GachaState, caller: AccountId, key: Seq<u8>)
    requires
        caller == g.admin,
        key.len() >= 1,
    ensures
        !add_key_ok(g, caller, key) <==> (g.is_finalized || key.len() > KEY_LEN
            || g.encrypted_keys@.len() >= MAX_KEYS),
{
}

/// The paused gate blocks pulls: a paused pool rejects every pull, with
/// the paused error.
pub proof fn lemma_paused_blocks_pull(
    g: GachaState,
    user: AccountId,
    payment_mint: AccountId,
    a: PaymentAccounts,
    now_slot: u64,
    seed_slot: u64,
)
    requires
        g.is_paused,
    ensures
        !pull_ok(g, user, payment_mint, a, now_slot, seed_slot),
        pull_error(g, user, payment_mint, a, now_slot, seed_slot) == GachaError::GachaPaused,
{
}

/// The paused gate does not affect settles: whether a settle may proceed,
/// and with which error it is rejected, is the same on a pool that
/// differs only in its paused flag.
pub proof fn lemma_paused_does_not_affect_settle(
    g: GachaState,
    b: bool,
    p: PlayerState,
    user: AccountId,
    now_slot: u64,
    seed_slot: u64,
    reveal_slot: u64,
    value: Seq<u8>,
)
    ensures
        settle_ok(
            (GachaState { is_paused: b, ..g }),
            p,
            user,
            now_slot,
            seed_slot,
            reveal_slot,
            value,
        ) == settle_ok(g, p, user, now_slot, seed_slot, reveal_slot, value),
        settle_error(
            (GachaState { is_paused: b, ..g }),
            p,
            user,
            now_slot,
            seed_slot,
            reveal_slot,
            value,
        ) == settle_error(g, p, user, now_slot, seed_slot, reveal_slot, value),
{
}

/// The halted gate blocks settles: a halted pool rejects every settle of
/// a live request, with the halted error once the request's own checks
/// pass.
pub proof fn lemma_halted_blocks_settle(
    g: GachaState,
    p: PlayerState,
    user: AccountId,
    now_slot: u64,
    seed_slot: u64,
    reveal_slot: u64,
    value: Seq<u8>,
)
    requires
        g.is_halted,
    ensures
        !settle_ok(g, p, user, now_slot, seed_slot, reveal_slot, value),
        (p.gacha_state == g.id && p.user == user && !p.is_settled && g.is_finalized)
            ==> settle_error(g, p, user, now_slot, seed_slot, reveal_slot, value)
            == GachaError::GachaHalted,
{
}

/// The halted gate does not affect pulls: whether a pull may proceed, and
/// with which error it is rejected, is the same on a pool that differs
/// only in its halted flag.
pub proof fn lemma_halted_does_not_affect_pull(
    g: GachaState,
    b: bool,
    user: AccountId,
    payment_mint: AccountId,
    a: PaymentAccounts,
    now_slot: u64,
    seed_slot: u64,
)
    ensures
        pull_ok((GachaState { is_halted: b, ..g }), user, payment_mint, a, now_slot, seed_slot)
            == pull_ok(g, user, payment_mint, a, now_slot, seed_slot),
        pull_error((GachaState { is_halted: b, ..g }), user, payment_mint, a, now_slot, seed_slot)
            == pull_error(g, user, payment_mint, a, now_slot, seed_slot),
{
}

/// Freshness at settle: a settle in the same slot as its pull is rejected
/// as not yet passed, once the request's own checks pass.
pub proof fn lemma_same_slot_settle_rejected(
    g: GachaState,
    p: PlayerState,
    user: AccountId,
    seed_slot: u64,
    reveal_slot: u64,
    value: Seq<u8>,
)
    requires
        p.gacha_state == g.id,
        p.user == user,
        !p.is_settled,
        g.is_finalized,
        !g.is_halted,
    ensures
        !settle_ok(g, p, user, p.pull_slot, seed_slot, reveal_slot, value),
        settle_error(g, p, user, p.pull_slot, seed_slot, reveal_slot, value)
            == GachaError::SlotNotPassed,
{
}

/// Replay protection at settle: a commitment slot that differs from the
/// one captured at pull time is rejected as expired, once every earlier
/// check passes.
pub proof fn lemma_commit_mismatch_rejected(
    g: GachaState,
    p: PlayerState,
    user: AccountId,
    now_slot: u64,
    seed_slot: u64,
    reveal_slot: u64,
    value: Seq<u8>,
)
    requires
        p.gacha_state == g.id,
        p.user == user,
        !p.is_settled,
        g.is_finalized,
        !g.is_halted,
        now_slot > p.pull_slot,
        g.remaining_indices@.len() > 0,
        g.settle_count < g.pull_count,
        seed_slot != p.commit_slot,
    ensures
        !settle_ok(g, p, user, now_slot, seed_slot, reveal_slot, value),
        settle_error(g, p, user, now_slot, seed_slot, reveal_slot, value)
            == GachaError::RandomnessExpired,
{
}

} // verus!
