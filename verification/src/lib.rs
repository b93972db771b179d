//! A model of a native-coin transfer program for an account-based blockchain
//! runtime.
//!
//! The library captures the program's logic over plain values: the error
//! taxonomy, the singleton metadata record with its saturating counters, and
//! the three instruction handlers (initialize, transfer, balance query).
//! Host-runtime concerns — account loading, signature checks, rent, the
//! ledger mutation itself — live outside the library; the handlers here state
//! and prove exactly what the program decides and how balances change.

use vstd::prelude::*;

pub mod errors;
pub mod instructions;
pub mod state;

use crate::errors::TransferError;
use crate::instructions::GetBalance;
use crate::instructions::Initialize;
use crate::instructions::TransferSol;

verus! {

/// Initialize the program: write the singleton metadata record for the
/// signing authority. Intended to run at most once per deployment, which the
/// host enforces at the derived address (see
/// `instructions::create_state_if_absent`); on the freshly created account
/// this always succeeds.
pub fn initialize(ctx: &mut Initialize) -> (r: Result<(), TransferError>)
    ensures
        r is Ok,
        final(ctx).state.initialized_with(old(ctx).authority),
        final(ctx).state._reserved == old(ctx).state._reserved,
        final(ctx).authority == old(ctx).authority,
{
    instructions::handle_initialize(ctx)
}

/// Transfer `amount` lamports (1 coin = 1,000,000,000 lamports) from the
/// sender to the recipient.
///
/// Fails with `InvalidAmount` when the amount is 0 and with
/// `InsufficientFunds` when it exceeds the sender's balance, changing
/// nothing; otherwise it succeeds and moves exactly `amount`, conserving the
/// two accounts' total.
pub fn transfer_sol(ctx: &mut TransferSol, amount: u64) -> (r: Result<(), TransferError>)
    requires
        old(ctx).recipient.lamports + amount <= u64::MAX,
    ensures
        r is Ok <==> 0 < amount <= old(ctx).sender.lamports,
        amount == 0 ==> r == Result::<(), TransferError>::Err(TransferError::InvalidAmount),
        amount > 0 && amount > old(ctx).sender.lamports
            ==> r == Result::<(), TransferError>::Err(TransferError::InsufficientFunds),
        r is Err ==> *final(ctx) == *old(ctx),
        r is Ok ==> final(ctx).sender.lamports == old(ctx).sender.lamports - amount,
        r is Ok ==> final(ctx).recipient.lamports == old(ctx).recipient.lamports + amount,
        final(ctx).sender.lamports + final(ctx).recipient.lamports
            == old(ctx).sender.lamports + old(ctx).recipient.lamports,
        final(ctx).sender.key == old(ctx).sender.key,
        final(ctx).recipient.key == old(ctx).recipient.key,
{
    instructions::handle_transfer_sol(ctx, amount)
}

/// Get the balance of an account, in lamports. Read-only and never fails:
/// the result is exactly the queried account's balance.
pub fn get_balance(ctx: &GetBalance) -> (r: Result<u64, TransferError>)
    ensures
        r == Result::<u64, TransferError>::Ok(ctx.account.lamports),
{
    instructions::handle_get_balance(ctx)
}

} // verus!
