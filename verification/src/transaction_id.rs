use vstd::prelude::*;

verus! {

/// Reserved transaction id meaning "no transaction".
pub const INVALID_TRANSACTION_ID: u32 = 0;

/// Reserved transaction id used during cluster bootstrap.
pub const BOOTSTRAP_TRANSACTION_ID: u32 = 1;

/// Reserved transaction id for frozen tuples.
pub const FROZEN_TRANSACTION_ID: u32 = 2;

/// First transaction id assigned to ordinary transactions.
pub const FIRST_NORMAL_TRANSACTION_ID: u32 = 3;

/// Largest representable transaction id.
pub const MAX_TRANSACTION_ID: u32 = 0xFFFF_FFFF;

/// A 32-bit PostgreSQL transaction id.
#[derive(Debug, Clone, Copy, PartialEq, Eq, Structural)]
pub struct TransactionId(pub u32);

/// Whether a transaction id is one of the two sentinels (invalid or
/// bootstrap) whose records carry no block references worth decoding.
pub open spec fn is_reserved_xid(id: u32) -> bool {
    id == INVALID_TRANSACTION_ID || id == BOOTSTRAP_TRANSACTION_ID
}

impl TransactionId {
    /// Whether this id is the invalid or the bootstrap sentinel.
    pub fn is_reserved(&self) -> (r: bool)
        ensures
            r == is_reserved_xid(self.0),
    {
        self.0 == INVALID_TRANSACTION_ID || self.0 == BOOTSTRAP_TRANSACTION_ID
    }
}

} // verus!
