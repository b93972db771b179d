//! Persistent account state of the coin transfer program.

use vstd::prelude::*;

verus! {

/// A 32-byte account address on the host chain, held as plain bytes so the
/// library can state facts about it.
#[derive(Clone, Copy, Debug, PartialEq, Eq)]
pub struct Pubkey {
    pub bytes: [u8; 32],
}

impl Default for Pubkey {
    /// The all-zero address.
    fn default() -> (k: Self)
        ensures
            forall|i: int| 0 <= i < 32 ==> k.bytes[i] == 0,
    {
        Pubkey { bytes: [0u8; 32] }
    }
}

/// Singleton metadata record, one instance per deployment, persisted by the
/// host's account storage at a deterministically derived address.
#[derive(Debug, PartialEq, Eq)]
pub struct ProgramState {
    /// Authority that initialized the program; set once, never changed.
    pub authority: Pubkey,
    /// Total number of transfers recorded; non-decreasing, saturating.
    pub total_transfers: u64,
    /// Total volume of lamports recorded; non-decreasing, saturating.
    pub total_volume: u64,
    /// Layout version, set to 1 on initialization.
    pub version: u8,
    /// Reserved space for forward-compatible layout growth.
    pub _reserved: [u8; 64],
}

impl Default for ProgramState {
    /// The uninitialized record: zero address, zero counters, version 0.
    fn default() -> (s: Self)
        ensures
            s.total_transfers == 0,
            s.total_volume == 0,
            s.version == 0,
            forall|i: int| 0 <= i < 32 ==> s.authority.bytes[i] == 0,
            forall|i: int| 0 <= i < 64 ==> s._reserved[i] == 0,
    {
        ProgramState {
            authority: Pubkey::default(),
            total_transfers: 0,
            total_volume: 0,
            version: 0,
            _reserved: [0u8; 64],
        }
    }
}

impl ProgramState {
    /// Size of the persisted record in bytes: an 8-byte discriminator prefix,
    /// the 32-byte authority, two 8-byte counters, the version byte, and the
    /// reserved tail.
    pub const SIZE: usize = 8 + 32 + 8 + 8 + 1 + 64;

    /// Holds exactly when the record is what `init` writes for `authority`.
    pub open spec fn initialized_with(self, authority: Pubkey) -> bool {
        &&& self.authority == authority
        &&& self.total_transfers == 0
        &&& self.total_volume == 0
        &&& self.version == 1
    }

    /// Write the freshly created record: the given authority, zeroed
    /// counters, layout version 1. The reserved tail is left as it is.
    pub fn init(&mut self, authority: Pubkey)
        ensures
            final(self).initialized_with(authority),
            final(self)._reserved == old(self)._reserved,
    {
        self.authority = authority;
        self.total_transfers = 0;
        self.total_volume = 0;
        self.version = 1;
    }

    /// Add one transfer of `amount` lamports to the counters, saturating at
    /// the numeric maximum. The counters never decrease, and nothing else in
    /// the record changes.
    pub fn record_transfer(&mut self, amount: u64)
        ensures
            final(self).total_transfers == old(self).total_transfers.saturating_add(1),
            final(self).total_volume == old(self).total_volume.saturating_add(amount),
            old(self).total_transfers <= final(self).total_transfers,
            old(self).total_volume <= final(self).total_volume,
            final(self).authority == old(self).authority,
            final(self).version == old(self).version,
            final(self)._reserved == old(self)._reserved,
    {
        self.total_transfers = self.total_transfers.saturating_add(1);
        self.total_volume = self.total_volume.saturating_add(amount);
    }
}

/// Per-transfer record: a data shape that is defined for future extensions
/// but not created by any handler in this revision.
#[derive(Clone, Copy, Debug, PartialEq, Eq)]
pub struct TransferRecord {
    /// Sender address.
    pub sender: Pubkey,
    /// Recipient address.
    pub recipient: Pubkey,
    /// Amount transferred in lamports.
    pub amount: u64,
    /// Unix timestamp of the transfer.
    pub timestamp: i64,
    /// Bump seed of the record's derived address.
    pub bump: u8,
}

impl TransferRecord {
    /// Size of the persisted record in bytes: an 8-byte discriminator prefix,
    /// two 32-byte addresses, the 8-byte amount, the 8-byte timestamp, and
    /// the bump byte.
    pub const SIZE: usize = 8 + 32 + 32 + 8 + 8 + 1;
}

} // verus!
