//! Error taxonomy of the coin transfer program.

use vstd::prelude::*;

verus! {

/// The failure conditions a handler can surface to its caller.
///
/// `InvalidRecipient` and `Unauthorized` are part of the declared taxonomy
/// but are never raised by the present checks.
#[derive(Clone, Copy, Debug, PartialEq, Eq, Structural)]
pub enum TransferError {
    /// The transfer amount must be greater than 0.
    InvalidAmount,
    /// The sender does not hold enough lamports for the transfer.
    InsufficientFunds,
    /// An invalid recipient address was provided.
    InvalidRecipient,
    /// The signer does not have permission for the operation.
    Unauthorized,
}

} // verus!
