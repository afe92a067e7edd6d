//! The decoded registry operations. Wire-level decoding of incoming bytes
//! into this union is the host's work; the state machine consumes the
//! already-typed operation.

use vstd::prelude::*;
use crate::state::Address;

verus! {

/// One registry operation, with the operands it carries.
#[derive(Debug)]
pub enum NameRegistryInstruction {
    /// Create the config record: the caller becomes the administrator.
    Initialize { registration_fee: u64 },
    /// Register a name to the caller, paying the registration fee.
    RegisterName { name: String },
    /// Open an escrow proposing a new resolved address for the caller's name.
    RequestAddressUpdate { new_address: Address },
    /// Confirm an open escrow; only the proposed address may sign this.
    CompleteAddressUpdate,
    /// Move the caller's registration to a new name, atomically.
    RenameName { new_name: String },
    /// Set the registration fee; administrator only.
    SetRegistrationFee { new_fee: u64 },
    /// Propose a new administrator; administrator only.
    ChangeProgramOwner { new_owner: Address },
    /// Accept a proposed administrator handoff; pending administrator only.
    AcceptProgramOwnership,
    /// Read the address a name resolves to.
    ResolveAddress,
    /// Read the administrator's address.
    GetContractOwner,
    /// Read the registration fee.
    GetRegistrationFee,
    /// Read the pending administrator's address.
    GetPendingContractOwner,
    /// Move all value held by the config record to the administrator.
    Withdraw,
}

/// The operands an operation carries are well formed: any address in it
/// holds exactly 32 bytes.
pub open spec fn wf_instruction(instruction: NameRegistryInstruction) -> bool {
    match instruction {
        NameRegistryInstruction::RequestAddressUpdate { new_address } => new_address.wf(),
        NameRegistryInstruction::ChangeProgramOwner { new_owner } => new_owner.wf(),
        _ => true,
    }
}

} // verus!
