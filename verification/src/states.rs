//! State records: the pool, a pull request, a payment configuration, and
//! the well-formedness invariants that every operation preserves.

use vstd::prelude::*;

use crate::constants::{KEY_LEN, MAX_KEYS, MAX_PAYMENT_CONFIGS};

verus! {

/// A 32-byte account identifier, held as two machine words so that equality
/// is structural and usable in contracts.
#[derive(Clone, Copy, Debug, PartialEq, Eq, Hash, Structural)]
pub struct AccountId {
    pub hi: u128,
    pub lo: u128,
}

impl AccountId {
    /// The all-zero identifier.  It is the address of the native-currency
    /// system program, and doubles as the sentinel that marks a payment
    /// method as native rather than token-based.
    pub open spec fn spec_zero() -> AccountId {
        AccountId { hi: 0, lo: 0 }
    }

    /// Executable constructor of the all-zero identifier.
    pub fn zero() -> (r: AccountId)
        ensures
            r == AccountId::spec_zero(),
    {
        AccountId { hi: 0, lo: 0 }
    }
}

/// Configuration of one payment method accepted by a pool: how a pull is
/// paid for, at what price, and where the payment goes.
#[derive(Clone, Copy, Debug, PartialEq, Eq, Structural)]
pub struct PaymentConfig {
    /// The pool this configuration belongs to.
    pub gacha_state: AccountId,
    /// Method identifier: the zero sentinel for the native currency, or the
    /// mint of a fungible token.
    pub mint: AccountId,
    /// Price in the smallest unit of the chosen currency.
    pub price: u64,
    /// Destination account for payments.
    pub admin_recipient_account: AccountId,
}

/// Main state of one pool: its configuration, reward keys, and operational
/// counters.
#[derive(Clone, Debug)]
pub struct GachaState {
    /// Identity of this pool in the surrounding keyed registry.
    pub id: AccountId,
    /// The administrator who controls this pool.
    pub admin: AccountId,
    /// Whether the pool has been finalized (one-way; freezes the key set).
    pub is_finalized: bool,
    /// Whether pulls are blocked by the admin.
    pub is_paused: bool,
    /// Whether settles are blocked by the admin.
    pub is_halted: bool,
    /// Total number of pulls performed.
    pub pull_count: u64,
    /// Total number of settlements completed.
    pub settle_count: u64,
    /// Pool of encrypted reward keys; append-only, frozen at finalize.
    pub encrypted_keys: Vec<Vec<u8>>,
    /// Live working set of indices into `encrypted_keys` that have not been
    /// drawn yet.
    pub remaining_indices: Vec<u16>,
    /// Table of accepted payment methods, dense in the first
    /// `payment_configs.len()` slots.
    pub payment_configs: Vec<PaymentConfig>,
    /// The decryption key, released once every pull is settled; empty until
    /// then.
    pub decryption_key: Vec<u8>,
}

/// Per-request record: created once by a pull, mutated exactly once by the
/// settle that resolves it, terminal afterwards.
#[derive(Clone, Debug)]
pub struct PlayerState {
    /// The requester who performed the pull.
    pub user: AccountId,
    /// The pool pulled from.
    pub gacha_state: AccountId,
    /// The randomness account whose commitment was captured at pull time.
    pub randomness_account: AccountId,
    /// The payment method used.
    pub payment_mint: AccountId,
    /// Whether this request has been settled.
    pub is_settled: bool,
    /// Index of the winning key; set at settlement.
    pub result_index: u16,
    /// The encrypted key won; set at settlement.
    pub winning_encrypted_key: Vec<u8>,
    /// Slot at which the pull ran: settlement must come strictly later.
    pub pull_slot: u64,
    /// The randomness commitment slot captured at pull time: settlement must
    /// present the same commitment.
    pub commit_slot: u64,
    /// Monotonic sequence number of this request within its pool.
    pub nonce: u64,
}

impl GachaState {
    /// The key pool is bounded and every key is non-empty and of bounded
    /// length.
    pub open spec fn keys_wf(self) -> bool {
        &&& self.encrypted_keys@.len() <= MAX_KEYS as int
        &&& forall|i: int|
            0 <= i < self.encrypted_keys@.len() ==> 1 <= (
            #[trigger] self.encrypted_keys@[i])@.len() <= KEY_LEN as int
    }

    /// The remaining working set holds distinct, in-bounds key indices.
    pub open spec fn remaining_wf(self) -> bool {
        &&& self.remaining_indices@.no_duplicates()
        &&& forall|i: int|
            0 <= i < self.remaining_indices@.len() ==> (
            #[trigger] self.remaining_indices@[i]) < self.encrypted_keys@.len()
    }

    /// The payment table is bounded and holds at most one configuration per
    /// method.
    pub open spec fn configs_wf(self) -> bool {
        &&& self.payment_configs@.len() <= MAX_PAYMENT_CONFIGS as int
        &&& forall|i: int, j: int|
            0 <= i < j < self.payment_configs@.len() ==> (
            #[trigger] self.payment_configs@[i]).mint != (
            #[trigger] self.payment_configs@[j]).mint
    }

    /// Counter bookkeeping: before finalize nothing has been drawn or
    /// pulled; after finalize every key is either still remaining or
    /// accounted for by exactly one settlement, and no more settles than
    /// pulls have happened.
    pub open spec fn counters_wf(self) -> bool {
        if self.is_finalized {
            &&& self.remaining_indices@.len() + self.settle_count
                == self.encrypted_keys@.len()
            &&& self.pull_count <= self.encrypted_keys@.len()
            &&& self.settle_count <= self.pull_count
        } else {
            &&& self.remaining_indices@.len() == 0
            &&& self.settle_count == 0
            &&& self.pull_count == 0
        }
    }

    /// Well-formedness of a pool: established by `initialize`, preserved by
    /// every operation.
    pub open spec fn wf(self) -> bool {
        &&& self.keys_wf()
        &&& self.remaining_wf()
        &&& self.configs_wf()
        &&& self.counters_wf()
        &&& self.decryption_key@.len() <= KEY_LEN as int
    }

    /// The set of key indices that have not been drawn yet.
    pub open spec fn remaining_set(self) -> Set<u16> {
        self.remaining_indices@.to_set()
    }

    /// Whether a payment method is configured for this pool.
    pub open spec fn has_config(self, mint: AccountId) -> bool {
        spec_find_config(self.payment_configs@, mint) is Some
    }
}

/// The first configuration of the given method in the table, if any.
pub open spec fn spec_find_config(s: Seq<PaymentConfig>, mint: AccountId) -> Option<
    PaymentConfig,
>
    decreases s.len(),
{
    if s.len() == 0 {
        None
    } else if s[0].mint == mint {
        Some(s[0])
    } else {
        spec_find_config(s.drop_first(), mint)
    }
}

/// Looking a method up succeeds exactly when some slot carries it, and what
/// comes back is that slot's configuration.
pub proof fn lemma_find_config_props(s: Seq<PaymentConfig>, mint: AccountId)
    ensures
        (spec_find_config(s, mint) is Some) <==> (exists|i: int|
            0 <= i < s.len() && (#[trigger] s[i]).mint == mint),
        spec_find_config(s, mint) matches Some(c) ==> c.mint == mint && s.contains(c),
    decreases s.len(),
{
    if s.len() > 0 {
        lemma_find_config_props(s.drop_first(), mint);
        if s[0].mint != mint {
            assert forall|i: int| 0 <= i < s.len() && (#[trigger] s[i]).mint == mint implies (
            spec_find_config(s, mint) is Some) by {
                assert(s.drop_first()[i - 1] == s[i]);
            }
            if spec_find_config(s, mint) is Some {
                let c = spec_find_config(s.drop_first(), mint)->Some_0;
                assert(s.drop_first().contains(c));
                let j = choose|j: int|
                    0 <= j < s.drop_first().len() && s.drop_first()[j] == c;
                assert(s[j + 1] == c);
            }
        }
    }
}

/// Executable lookup of a payment method in the table.
pub fn find_payment_config(configs: &Vec<PaymentConfig>, mint: AccountId) -> (r: Option<
    PaymentConfig,
>)
    ensures
        r == spec_find_config(configs@, mint),
{
    let n: usize = configs.len();
    let mut i: usize = 0;
    proof {
        assert(configs@.skip(0) =~= configs@);
    }
    while i < n
        invariant
            0 <= i <= n,
            n == configs@.len(),
            spec_find_config(configs@, mint) == spec_find_config(
                configs@.skip(i as int),
                mint,
            ),
        decreases n - i,
    {
        proof {
            assert(configs@.skip(i as int)[0] == configs@[i as int]);
        }
        if configs[i].mint == mint {
            return Some(configs[i]);
        }
        proof {
            assert(configs@.skip(i as int).drop_first() =~= configs@.skip(i + 1));
        }
        i = i + 1;
    }
    proof {
        assert(configs@.skip(n as int).len() == 0);
    }
    None
}

/// Swap-removing the element at one position of a duplicate-free sequence
/// removes exactly that element from the sequence's set of values, keeps
/// the rest, and leaves the sequence duplicate-free.
pub proof fn lemma_swap_remove_set(s: Seq<u16>, i: int)
    requires
        0 <= i < s.len(),
        s.no_duplicates(),
    ensures
        s.update(i, s.last()).drop_last().no_duplicates(),
        s.update(i, s.last()).drop_last().to_set() == s.to_set().remove(s[i]),
{
    broadcast use vstd::seq_lib::group_seq_properties;
    broadcast use vstd::set_lib::group_set_lib_default;
    broadcast use vstd::set::group_set_axioms;

    let t = s.update(i, s.last()).drop_last();
    let n = s.len();
    assert forall|x: u16| t.to_set().contains(x) implies s.to_set().remove(s[i]).contains(
        x,
    ) by {
        let j = choose|j: int| 0 <= j < t.len() && t[j] == x;
        if j == i {
            assert(x == s[n - 1]);
            assert(s.contains(x));
            assert(i != n - 1);
        } else {
            assert(x == s[j]);
            assert(s.contains(x));
        }
    }
    assert forall|x: u16| s.to_set().remove(s[i]).contains(x) implies t.to_set().contains(
        x,
    ) by {
        let j = choose|j: int| 0 <= j < n && s[j] == x;
        if j == n - 1 {
            assert(i != n - 1);
            assert(t[i] == x);
        } else {
            assert(t[j] == x);
        }
    }
    assert(t.to_set() =~= s.to_set().remove(s[i]));
    s.unique_seq_to_set();
    assert(s.to_set().contains(s[i]));
    assert(t.to_set().len() == t.len());
    t.lemma_no_dup_set_cardinality();
}

/// What one successful finalize establishes: the one-way transition to the
/// finalized state, with the remaining set snapshotted to every key index in
/// order, and everything else untouched.
pub open spec fn finalize_transition(pre: GachaState, post: GachaState) -> bool {
    &&& post == (GachaState {
        is_finalized: true,
        remaining_indices: post.remaining_indices,
        ..pre
    })
    &&& post.remaining_indices@.len() == pre.encrypted_keys@.len()
    &&& forall|i: int|
        0 <= i < post.remaining_indices@.len() ==> (
        #[trigger] post.remaining_indices@[i]) == i as u16
}

/// What one successful pull establishes on the pool and on the new request:
/// the nonce is the pool's pull count at creation time, which then advances
/// by one; nothing else on the pool moves.
pub open spec fn pull_transition(
    pre: GachaState,
    post: GachaState,
    p: PlayerState,
    user: AccountId,
    now_slot: u64,
    seed_slot: u64,
) -> bool {
    &&& post == (GachaState { pull_count: post.pull_count, ..pre })
    &&& post.pull_count == pre.pull_count + 1
    &&& p.user == user
    &&& p.gacha_state == pre.id
    &&& !p.is_settled
    &&& p.pull_slot == now_slot
    &&& p.commit_slot == seed_slot
    &&& p.nonce == pre.pull_count
}

/// What one successful settle establishes on the pool: the drawn index
/// leaves the remaining set, which stays duplicate-free and shrinks by
/// exactly one, the settle counter advances by one, and nothing else moves.
pub open spec fn settle_transition(pre: GachaState, post: GachaState, drawn: u16) -> bool {
    &&& pre.remaining_indices@.contains(drawn)
    &&& post.remaining_indices@.to_set() == pre.remaining_indices@.to_set().remove(drawn)
    &&& post.remaining_indices@.no_duplicates()
    &&& post.remaining_indices@.len() == pre.remaining_indices@.len() - 1
    &&& post.settle_count == pre.settle_count + 1
    &&& post == (GachaState {
        remaining_indices: post.remaining_indices,
        settle_count: post.settle_count,
        ..pre
    })
}

} // verus!
