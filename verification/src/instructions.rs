//! Instruction handlers of the coin transfer program.
//!
//! Each handler works on a context of plain account values: the host
//! dispatcher loads the accounts, checks signatures and rent, and hands the
//! handler what it reads and writes. The contracts state exactly which
//! inputs succeed, which error each failing input yields, and how every
//! balance changes.

use vstd::prelude::*;

use crate::errors::TransferError;
use crate::state::ProgramState;
use crate::state::Pubkey;

verus! {

/// An account as a handler sees it: its address and its lamport balance.
#[derive(Clone, Copy, Debug, PartialEq, Eq)]
pub struct AccountInfo {
    /// The account's address.
    pub key: Pubkey,
    /// The account's balance in lamports.
    pub lamports: u64,
}

/// Accounts of the initialize instruction: the freshly created metadata
/// account at the derived address, and the signing authority that funds it.
#[derive(Debug, PartialEq, Eq)]
pub struct Initialize {
    /// Metadata account created by the host for this instruction.
    pub state: ProgramState,
    /// Address of the signing authority.
    pub authority: Pubkey,
}

/// Accounts of the transfer instruction: the signing sender and the
/// recipient, both mutable.
#[derive(Clone, Copy, Debug, PartialEq, Eq)]
pub struct TransferSol {
    /// The sender; must have signed, is debited.
    pub sender: AccountInfo,
    /// The recipient; any account, is credited.
    pub recipient: AccountInfo,
}

/// Accounts of the balance query: one account, read-only.
#[derive(Clone, Copy, Debug, PartialEq, Eq)]
pub struct GetBalance {
    /// The account whose balance is read.
    pub account: AccountInfo,
}

/// Write the metadata record for the signing authority.
///
/// The host guarantees the account is freshly created, so this always
/// succeeds: it sets the authority, zeroes the counters and sets the layout
/// version to 1.
pub fn handle_initialize(ctx: &mut Initialize) -> (r: Result<(), TransferError>)
    ensures
        r is Ok,
        final(ctx).state.initialized_with(old(ctx).authority),
        final(ctx).state._reserved == old(ctx).state._reserved,
        final(ctx).authority == old(ctx).authority,
{
    let authority = ctx.authority;
    ctx.state.init(authority);
    Ok(())
}

/// The host's create-if-absent semantics at the derived address, which is
/// all that makes initialization run at most once per deployment: the slot
/// for the singleton record is either empty or already occupied.
///
/// Creates and initializes the record only when the slot is empty, and
/// returns whether it did. A second call at the same address finds the slot
/// occupied, creates nothing, and leaves the first record untouched.
pub fn create_state_if_absent(slot: &mut Option<ProgramState>, authority: Pubkey) -> (created: bool)
    ensures
        created == (*old(slot) is None),
        created ==> match *final(slot) {
            Some(s) => s.initialized_with(authority),
            None => false,
        },
        !created ==> *final(slot) == *old(slot),
{
    match slot {
        Some(_) => false,
        None => {
            let mut state = ProgramState::default();
            state.init(authority);
            *slot = Some(state);
            true
        }
    }
}

/// Move `amount` lamports from the sender to the recipient.
///
/// Rejects a zero amount with `InvalidAmount`, then a short sender balance
/// with `InsufficientFunds`; the first failing check wins and nothing
/// changes. Otherwise the sender is debited and the recipient credited by
/// exactly `amount`, so the total lamports of the two accounts are
/// conserved. The host's ledger cannot overflow an account, which is the
/// one precondition.
pub fn handle_transfer_sol(ctx: &mut TransferSol, amount: u64) -> (r: Result<(), TransferError>)
    requires
        old(ctx).recipient.lamports + amount <= u64::MAX,
    ensures
        r is Ok <==> 0 < amount <= old(ctx).sender.lamports,
        amount == 0 ==> r == Result::<(), TransferError>::Err(TransferError::InvalidAmount),
        amount > 0 && amount > old(ctx).sender.lamports
            ==> r == Result::<(), TransferError>::Err(TransferError::InsufficientFunds),
        r is Err ==> *final(ctx) == *old(ctx),
        r is Ok ==> final(ctx).sender.lamports == old(ctx).sender.lamports - amount,
        r is Ok ==> final(ctx).recipient.lamports == old(ctx).recipient.lamports + amount,
        final(ctx).sender.lamports + final(ctx).recipient.lamports
            == old(ctx).sender.lamports + old(ctx).recipient.lamports,
        final(ctx).sender.key == old(ctx).sender.key,
        final(ctx).recipient.key == old(ctx).recipient.key,
{
    if amount == 0 {
        return Err(TransferError::InvalidAmount);
    }

    let sender_balance = ctx.sender.lamports;
    if sender_balance < amount {
        return Err(TransferError::InsufficientFunds);
    }

    ctx.sender.lamports = ctx.sender.lamports - amount;
    ctx.recipient.lamports = ctx.recipient.lamports + amount;
    Ok(())
}

/// Read the queried account's balance. Never fails, changes nothing, and
/// returns exactly the balance the host reports for the account.
pub fn handle_get_balance(ctx: &GetBalance) -> (r: Result<u64, TransferError>)
    ensures
        r == Result::<u64, TransferError>::Ok(ctx.account.lamports),
{
    Ok(ctx.account.lamports)
}

} // verus!
