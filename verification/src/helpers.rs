//! Payment validation: the checks that admit or reject a payment offer
//! before the host executes the transfer, plus small byte utilities.
//!
//! A payment is validated against a snapshot of the involved host
//! accounts, taken as plain values.  Native payments are checked against
//! the paying account's balance; token payments against the balance stored
//! in its raw token-account data, read through the token library.

use vstd::prelude::*;

use vstd::bytes::spec_u64_from_le_bytes;
use vstd::string::StringSliceAdditionalSpecFns;

use crate::errors::GachaError;
use crate::states::{AccountId, PaymentConfig};

verus! {

/// Snapshot of the host accounts involved in paying for one pull:
/// identities, owner programs, balances and raw account data, read by the
/// host and handed in as plain values.  The transfer itself is performed
/// by the host once validation has passed.
#[derive(Clone, Debug)]
pub struct PaymentAccounts {
    /// The account the requester pays from.
    pub user_payment_account: AccountId,
    /// Owner program of the paying account.
    pub user_payment_owner: AccountId,
    /// Lamport balance of the paying account, for native payments.
    pub user_payment_lamports: u64,
    /// Raw data of the paying account: a token account, for token
    /// payments.
    pub user_payment_data: Vec<u8>,
    /// The recipient account.
    pub admin_recipient_account: AccountId,
    /// Owner program of the recipient account.
    pub admin_recipient_owner: AccountId,
    /// The mint account presented for a token payment.
    pub payment_mint_account: AccountId,
    /// Owner program of the presented mint account.
    pub payment_mint_owner: AccountId,
    /// The token program, when one was supplied.
    pub token_program: Option<AccountId>,
}

/// A 4-byte optional-field tag of the token-account layout: 0 marks the
/// field absent, 1 marks it present; anything else is malformed.
pub open spec fn coption_tag_valid(tag: Seq<u8>) -> bool {
    ||| tag == seq![0u8, 0u8, 0u8, 0u8]
    ||| tag == seq![1u8, 0u8, 0u8, 0u8]
}

/// Raw data that deserializes as an initialized token account: the fixed
/// 165-byte layout, valid optional-field tags for the delegate (offset
/// 72), native-balance (offset 109) and close-authority (offset 129)
/// fields, and a state byte (offset 108) that marks an initialized
/// account.
pub open spec fn token_account_well_formed(data: Seq<u8>) -> bool {
    &&& data.len() == 165
    &&& coption_tag_valid(data.subrange(72, 76))
    &&& (data[108] == 1 || data[108] == 2)
    &&& coption_tag_valid(data.subrange(109, 113))
    &&& coption_tag_valid(data.subrange(129, 133))
}

/// The holder's balance, stored little-endian at offset 64 of the
/// token-account layout.
pub open spec fn spec_token_amount(data: Seq<u8>) -> u64 {
    spec_u64_from_le_bytes(data.subrange(64, 72))
}

/// Relies on `anchor_spl::token::TokenAccount::try_deserialize`: it
/// unpacks the fixed 165-byte token-account layout, succeeding exactly on
/// data of that length with valid optional-field tags and an initialized
/// state byte, and exposes the holder's balance from the little-endian
/// cell at offset 64.
#[verifier::external_body]
pub(crate) fn token_account_amount(data: &Vec<u8>) -> (r: Option<u64>)
    ensures
        r is Some <==> token_account_well_formed(data@),
        r matches Some(amount) ==> amount == spec_token_amount(data@),
{
    let res = <anchor_spl::token::TokenAccount as anchor_lang::AccountDeserialize>::try_deserialize(
        &mut data.as_slice(),
    );
    match res {
        Ok(acc) => Some(acc.amount),
        Err(_) => None,
    }
}

/// A native payment offer is acceptable: both accounts belong to the
/// system program, the requester pays from their own account, the
/// recipient is the configured one, and the balance covers the price.
pub open spec fn sol_payment_ok(a: PaymentAccounts, user: AccountId, cfg: PaymentConfig) -> bool {
    &&& a.user_payment_owner == AccountId::spec_zero()
    &&& a.admin_recipient_owner == AccountId::spec_zero()
    &&& a.user_payment_account == user
    &&& a.admin_recipient_account == cfg.admin_recipient_account
    &&& a.user_payment_lamports >= cfg.price
}

/// The error a rejected native payment offer is reported with, check by
/// check in validation order.
pub open spec fn sol_payment_error(a: PaymentAccounts, user: AccountId, cfg: PaymentConfig) -> GachaError {
    if a.user_payment_owner != AccountId::spec_zero() {
        GachaError::IncorrectOwner
    } else if a.admin_recipient_owner != AccountId::spec_zero() {
        GachaError::IncorrectOwner
    } else if a.user_payment_account != user {
        GachaError::AccountMismatch
    } else if a.admin_recipient_account != cfg.admin_recipient_account {
        GachaError::AccountMismatch
    } else {
        GachaError::InsufficientFunds
    }
}

/// A token payment offer is acceptable: a token program was supplied and
/// owns all three token accounts, the presented mint and recipient are the
/// configured ones, the paying account's data is a valid initialized token
/// account, and its stored balance covers the price.
pub open spec fn spl_payment_ok(a: PaymentAccounts, cfg: PaymentConfig) -> bool {
    &&& a.token_program is Some
    &&& a.user_payment_owner == a.token_program->Some_0
    &&& a.admin_recipient_owner == a.token_program->Some_0
    &&& a.payment_mint_owner == a.token_program->Some_0
    &&& a.payment_mint_account == cfg.mint
    &&& a.admin_recipient_account == cfg.admin_recipient_account
    &&& token_account_well_formed(a.user_payment_data@)
    &&& spec_token_amount(a.user_payment_data@) >= cfg.price
}

/// The error a rejected token payment offer is reported with, check by
/// check in validation order.  Paying-account data that is not a valid
/// token account is reported as mismatched accounts.
pub open spec fn spl_payment_error(a: PaymentAccounts, cfg: PaymentConfig) -> GachaError {
    if a.token_program is None {
        GachaError::TokenProgramMissing
    } else if a.user_payment_owner != a.token_program->Some_0 {
        GachaError::IncorrectOwner
    } else if a.admin_recipient_owner != a.token_program->Some_0 {
        GachaError::IncorrectOwner
    } else if a.payment_mint_owner != a.token_program->Some_0 {
        GachaError::IncorrectOwner
    } else if a.payment_mint_account != cfg.mint {
        GachaError::MintMismatch
    } else if a.admin_recipient_account != cfg.admin_recipient_account {
        GachaError::AccountMismatch
    } else if !token_account_well_formed(a.user_payment_data@) {
        GachaError::AccountMismatch
    } else {
        GachaError::InsufficientFunds
    }
}

/// Whether a payment offer is acceptable for the given configuration,
/// native or token according to the configured method.
pub open spec fn payment_ok(a: PaymentAccounts, user: AccountId, cfg: PaymentConfig) -> bool {
    if cfg.mint == AccountId::spec_zero() {
        sol_payment_ok(a, user, cfg)
    } else {
        spl_payment_ok(a, cfg)
    }
}

/// The error a rejected payment offer is reported with.
pub open spec fn payment_error(a: PaymentAccounts, user: AccountId, cfg: PaymentConfig) -> GachaError {
    if cfg.mint == AccountId::spec_zero() {
        sol_payment_error(a, user, cfg)
    } else {
        spl_payment_error(a, cfg)
    }
}

/// Validate a native-currency payment offer: ownership by the system
/// program, account matching against the configuration, and a sufficient
/// lamport balance.  The host performs the actual transfer of
/// `cfg.price` lamports after this validation passes.
pub fn process_sol_payment(a: &PaymentAccounts, user: AccountId, cfg: &PaymentConfig) -> (r:
    Result<(), GachaError>)
    ensures
        r is Ok <==> sol_payment_ok(*a, user, *cfg),
        r is Err ==> r->Err_0 == sol_payment_error(*a, user, *cfg),
{
    let zero = AccountId::zero();
    if !(a.user_payment_owner == zero) {
        return Err(GachaError::IncorrectOwner);
    }
    if !(a.admin_recipient_owner == zero) {
        return Err(GachaError::IncorrectOwner);
    }
    if !(a.user_payment_account == user) {
        return Err(GachaError::AccountMismatch);
    }
    if !(a.admin_recipient_account == cfg.admin_recipient_account) {
        return Err(GachaError::AccountMismatch);
    }
    if a.user_payment_lamports < cfg.price {
        return Err(GachaError::InsufficientFunds);
    }
    Ok(())
}

/// Validate a token payment offer: presence of the token program, its
/// ownership of all three token accounts, mint and recipient matching
/// against the configuration, and a sufficient stored balance.  The host
/// performs the actual transfer of `cfg.price` token units after this
/// validation passes.
pub fn process_spl_payment(a: &PaymentAccounts, cfg: &PaymentConfig) -> (r: Result<
    (),
    GachaError,
>)
    ensures
        r is Ok <==> spl_payment_ok(*a, *cfg),
        r is Err ==> r->Err_0 == spl_payment_error(*a, *cfg),
{
    let tp: AccountId = match a.token_program {
        Some(tp) => tp,
        None => {
            return Err(GachaError::TokenProgramMissing);
        },
    };
    if !(a.user_payment_owner == tp) {
        return Err(GachaError::IncorrectOwner);
    }
    if !(a.admin_recipient_owner == tp) {
        return Err(GachaError::IncorrectOwner);
    }
    if !(a.payment_mint_owner == tp) {
        return Err(GachaError::IncorrectOwner);
    }
    if !(a.payment_mint_account == cfg.mint) {
        return Err(GachaError::MintMismatch);
    }
    if !(a.admin_recipient_account == cfg.admin_recipient_account) {
        return Err(GachaError::AccountMismatch);
    }
    let amount: u64 = match token_account_amount(&a.user_payment_data) {
        Some(amount) => amount,
        None => {
            return Err(GachaError::AccountMismatch);
        },
    };
    if amount < cfg.price {
        return Err(GachaError::InsufficientFunds);
    }
    Ok(())
}

/// The length of a byte sequence once its trailing zero padding is
/// removed: the position just past the last non-zero byte.
pub open spec fn spec_trimmed_len(s: Seq<u8>) -> int
    decreases s.len(),
{
    if s.len() == 0 {
        0
    } else if s.last() != 0 {
        s.len() as int
    } else {
        spec_trimmed_len(s.drop_last())
    }
}

/// The trimmed length marks the end of the content: it never exceeds the
/// sequence, everything after it is zero, and the byte just before it,
/// when there is one, is not.
pub proof fn lemma_trimmed_len_props(s: Seq<u8>)
    ensures
        0 <= spec_trimmed_len(s) <= s.len(),
        forall|i: int| spec_trimmed_len(s) <= i < s.len() ==> s[i] == 0,
        spec_trimmed_len(s) > 0 ==> s[spec_trimmed_len(s) - 1] != 0,
    decreases s.len(),
{
    if s.len() > 0 && s.last() == 0 {
        lemma_trimmed_len_props(s.drop_last());
        assert forall|i: int| spec_trimmed_len(s) <= i < s.len() implies s[i] == 0 by {
            if i < s.len() - 1 {
                assert(s.drop_last()[i] == 0);
            }
        }
    }
}

/// A stored fixed-width value with its trailing zero padding removed.
pub fn trim_trailing_zeros(input: &[u8]) -> (r: Vec<u8>)
    ensures
        r@ == input@.subrange(0, spec_trimmed_len(input@)),
{
    let mut end: usize = input.len();
    proof {
        assert(input@.take(end as int) =~= input@);
    }
    while end > 0 && input[end - 1] == 0
        invariant
            end <= input@.len(),
            spec_trimmed_len(input@) == spec_trimmed_len(input@.take(end as int)),
        decreases end,
    {
        proof {
            assert(input@.take(end as int).drop_last() =~= input@.take(end - 1));
        }
        end = end - 1;
    }
    proof {
        if end > 0 {
            assert(input@.take(end as int).last() == input@[end - 1]);
        }
    }
    vstd::slice::slice_to_vec(vstd::slice::slice_subrange(input, 0, end))
}

/// Zero-padded copy of a string's bytes into a buffer of the given fixed
/// width, truncated when the string is longer.
pub fn string_to_fixed_bytes(input: &str, width: usize) -> (r: Vec<u8>)
    ensures
        r@.len() == width,
        forall|i: int|
            0 <= i < width ==> r@[i] == (if i < input.spec_bytes().len() {
                input.spec_bytes()[i]
            } else {
                0u8
            }),
{
    let bytes: &[u8] = input.as_bytes();
    let blen: usize = bytes.len();
    let mut r: Vec<u8> = Vec::new();
    let mut i: usize = 0;
    while i < width
        invariant
            0 <= i <= width,
            bytes@ == input.spec_bytes(),
            blen == bytes@.len(),
            r@.len() == i,
            forall|j: int|
                0 <= j < i ==> r@[j] == (if j < input.spec_bytes().len() {
                    input.spec_bytes()[j]
                } else {
                    0u8
                }),
        decreases width - i,
    {
        if i < blen {
            r.push(bytes[i]);
        } else {
            r.push(0u8);
        }
        i = i + 1;
    }
    r
}

/// Byte-for-byte copy of a buffer.
pub fn copy_bytes(src: &Vec<u8>) -> (r: Vec<u8>)
    ensures
        r@ == src@,
{
    let n: usize = src.len();
    let mut r: Vec<u8> = Vec::new();
    let mut i: usize = 0;
    while i < n
        invariant
            0 <= i <= n,
            n == src@.len(),
            r@ == src@.take(i as int),
        decreases n - i,
    {
        r.push(src[i]);
        proof {
            assert(src@.take(i + 1) =~= src@.take(i as int).push(src@[i as int]));
        }
        i = i + 1;
    }
    proof {
        assert(src@.take(n as int) =~= src@);
    }
    r
}

} // verus!
