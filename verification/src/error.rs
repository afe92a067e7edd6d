//! The registry's error taxonomy: one flat enumeration for domain failures,
//! and a separate error for malformed record buffers, which must never be
//! mistaken for a domain condition such as "uninitialized".

use vstd::prelude::*;

verus! {

/// Every way a registry operation can fail. Each precondition failure aborts
/// the whole operation with no partial effect.
#[derive(Clone, Copy, Debug, PartialEq, Eq, Structural)]
pub enum NameRegistryError {
    /// The name is empty, longer than 32 characters, or holds a character
    /// that is not ASCII alphanumeric or `-`.
    InvalidNameFormat,
    /// The name record for the requested name is already initialized.
    NameTaken,
    /// The payer cannot cover the registration fee.
    InsufficientFee,
    /// The reverse record for the registrant's address already holds a name.
    NameAlreadyRegistered,
    /// The caller is not the owner recorded in the name record.
    NotNameOwner,
    /// The address equals the all-zero sentinel.
    InvalidAddress,
    /// The current time is still before the record's cooldown stamp.
    CooldownNotOver,
    /// There is no initialized escrow to complete.
    NoPendingUpdate,
    /// The caller is not the escrow's designated target address.
    NotPendingAddress,
    /// The caller is not the configured administrator.
    NotContractOwner,
    /// A proposed new administrator was rejected.
    InvalidNewOwner,
    /// The caller is not the pending administrator.
    NotPendingContractOwner,
    /// A record that the operation requires is not initialized yet.
    NotInitialized,
    /// The config record is already initialized.
    AlreadyInitialized,
    /// The name record to resolve is not initialized.
    NameNotFound,
    /// The config record holds no value to withdraw.
    NothingToWithdraw,
    /// A checked credit would overflow instead of wrapping.
    ArithmeticOverflow,
}

/// Failure of the record store itself: the byte buffer backing a record has
/// the wrong size or a corrupt encoding. Kept apart from [`NameRegistryError`]
/// so that a damaged buffer is never read as a semantic state.
#[derive(Clone, Copy, Debug, PartialEq, Eq, Structural)]
pub enum RecordError {
    /// The buffer size or its contents do not match the record's fixed layout.
    MalformedRecord,
}

} // verus!
