//! The registry state machine: one function per operation. Each function
//! validates every precondition over the record values it is given and
//! either fails with no effect or returns the complete set of new record
//! values; its contract equates the result with a specification-level
//! transition function, and those transition functions compose into
//! [`spec_process`], the meaning of a whole dispatched operation.

use vstd::prelude::*;
use vstd::bytes::{spec_u64_to_le_bytes, u64_to_le_bytes};
use crate::error::NameRegistryError;
use crate::instruction::NameRegistryInstruction;
use crate::state::{
    Address, NameAccount, NameAccountV, AddressAccount, AddressAccountV, PendingUpdateAccount,
    PendingUpdateAccountV, ProgramConfig, ProgramConfigV, spec_zero_address,
};
use crate::validation::{
    get_cooldown_until, spec_cooldown_until, valid_name, validate_name, validate_address,
    validate_cooldown, validate_owner, validate_program_owner,
};

verus! {

// ---------------------------------------------------------------------------
// Specification-level transitions, one per operation. Each one is total:
// for every input it says either which error the operation fails with or
// exactly which new record values it produces.
// ---------------------------------------------------------------------------
/// Effects of a successful registration.
#[verifier::ext_equal]
pub struct RegisterOutcomeV {
    pub name_record: NameAccountV,
    pub address_record: AddressAccountV,
    pub caller_balance: u64,
    pub config_balance: u64,
}

/// Effects of a successful escrow completion.
#[verifier::ext_equal]
pub struct CompleteUpdateOutcomeV {
    pub name_record: NameAccountV,
    pub pending_record: PendingUpdateAccountV,
}

/// Effects of a successful rename.
#[verifier::ext_equal]
pub struct RenameOutcomeV {
    pub old_name_record: NameAccountV,
    pub new_name_record: NameAccountV,
    pub address_record: AddressAccountV,
}

/// Initialize: create the config record once; the caller becomes the
/// administrator, no handoff pending, the given fee in force.
pub open spec fn spec_initialize(caller: Seq<u8>, config: ProgramConfigV, registration_fee: u64) -> Result<
    ProgramConfigV,
    NameRegistryError,
> {
    if config.is_initialized {
        Err(NameRegistryError::AlreadyInitialized)
    } else {
        Ok(
            ProgramConfigV {
                is_initialized: true,
                owner: caller,
                pending_owner: spec_zero_address(),
                registration_fee,
            },
        )
    }
}

/// RegisterName: a valid, untaken name goes to a caller who holds no name
/// yet; the fee moves from the caller to the config's vault; the name
/// resolves to the caller and a fresh one-day cooldown window opens.
pub open spec fn spec_register_name(
    caller: Seq<u8>,
    name: Seq<char>,
    name_rec: NameAccountV,
    addr_rec: AddressAccountV,
    config: ProgramConfigV,
    caller_balance: u64,
    config_balance: u64,
    now: i64,
) -> Result<RegisterOutcomeV, NameRegistryError> {
    if !valid_name(name) {
        Err(NameRegistryError::InvalidNameFormat)
    } else if !config.is_initialized {
        Err(NameRegistryError::NotInitialized)
    } else if name_rec.is_initialized {
        Err(NameRegistryError::NameTaken)
    } else if addr_rec.is_initialized {
        Err(NameRegistryError::NameAlreadyRegistered)
    } else if caller_balance < config.registration_fee {
        Err(NameRegistryError::InsufficientFee)
    } else if config_balance + config.registration_fee > u64::MAX {
        Err(NameRegistryError::ArithmeticOverflow)
    } else {
        Ok(
            RegisterOutcomeV {
                name_record: NameAccountV {
                    is_initialized: true,
                    owner: caller,
                    name,
                    address: caller,
                    cooldown_until: spec_cooldown_until(now),
                },
                address_record: AddressAccountV { is_initialized: true, name },
                caller_balance: (caller_balance - config.registration_fee) as u64,
                config_balance: (config_balance + config.registration_fee) as u64,
            },
        )
    }
}

/// RequestAddressUpdate: the name's owner, out of cooldown, proposes a
/// non-sentinel new address; the escrow is created, replacing any prior one.
pub open spec fn spec_request_address_update(
    caller: Seq<u8>,
    new_address: Seq<u8>,
    name_rec: NameAccountV,
    now: i64,
) -> Result<PendingUpdateAccountV, NameRegistryError> {
    if new_address == spec_zero_address() {
        Err(NameRegistryError::InvalidAddress)
    } else if !name_rec.is_initialized {
        Err(NameRegistryError::NotInitialized)
    } else if name_rec.owner != caller {
        Err(NameRegistryError::NotNameOwner)
    } else if now < name_rec.cooldown_until {
        Err(NameRegistryError::CooldownNotOver)
    } else {
        Ok(PendingUpdateAccountV { is_initialized: true, new_address })
    }
}

/// CompleteAddressUpdate: only the escrow's target address may confirm;
/// the name then resolves to the target, ownership moves to it, a new
/// cooldown window opens, and the escrow is cleared.
pub open spec fn spec_complete_address_update(
    caller: Seq<u8>,
    name_rec: NameAccountV,
    addr_rec: AddressAccountV,
    pending: PendingUpdateAccountV,
    now: i64,
) -> Result<CompleteUpdateOutcomeV, NameRegistryError> {
    if !pending.is_initialized {
        Err(NameRegistryError::NoPendingUpdate)
    } else if pending.new_address != caller {
        Err(NameRegistryError::NotPendingAddress)
    } else if !name_rec.is_initialized {
        Err(NameRegistryError::NotInitialized)
    } else if !addr_rec.is_initialized {
        Err(NameRegistryError::NotInitialized)
    } else {
        Ok(
            CompleteUpdateOutcomeV {
                name_record: NameAccountV {
                    is_initialized: name_rec.is_initialized,
                    owner: caller,
                    name: name_rec.name,
                    address: caller,
                    cooldown_until: spec_cooldown_until(now),
                },
                pending_record: PendingUpdateAccountV {
                    is_initialized: false,
                    new_address: spec_zero_address(),
                },
            },
        )
    }
}

/// RenameName: the owner, out of cooldown, moves the registration to a
/// valid untaken name. Three records change together: the new name record
/// takes over owner and resolved address with a fresh cooldown stamp, the
/// reverse record's name follows, and the old name record is cleared.
pub open spec fn spec_rename_name(
    caller: Seq<u8>,
    new_name: Seq<char>,
    old_rec: NameAccountV,
    new_rec: NameAccountV,
    addr_rec: AddressAccountV,
    now: i64,
) -> Result<RenameOutcomeV, NameRegistryError> {
    if !valid_name(new_name) {
        Err(NameRegistryError::InvalidNameFormat)
    } else if !old_rec.is_initialized {
        Err(NameRegistryError::NotInitialized)
    } else if old_rec.owner != caller {
        Err(NameRegistryError::NotNameOwner)
    } else if now < old_rec.cooldown_until {
        Err(NameRegistryError::CooldownNotOver)
    } else if new_rec.is_initialized {
        Err(NameRegistryError::NameTaken)
    } else if !addr_rec.is_initialized {
        Err(NameRegistryError::NotInitialized)
    } else {
        Ok(
            RenameOutcomeV {
                old_name_record: NameAccountV::spec_default(),
                new_name_record: NameAccountV {
                    is_initialized: true,
                    owner: caller,
                    name: new_name,
                    address: old_rec.address,
                    cooldown_until: spec_cooldown_until(now),
                },
                address_record: AddressAccountV {
                    is_initialized: addr_rec.is_initialized,
                    name: new_name,
                },
            },
        )
    }
}

/// SetRegistrationFee: the administrator changes the fee.
pub open spec fn spec_set_registration_fee(
    caller: Seq<u8>,
    config: ProgramConfigV,
    new_fee: u64,
) -> Result<ProgramConfigV, NameRegistryError> {
    if !config.is_initialized {
        Err(NameRegistryError::NotInitialized)
    } else if config.owner != caller {
        Err(NameRegistryError::NotContractOwner)
    } else {
        Ok(ProgramConfigV { registration_fee: new_fee, ..config })
    }
}

/// ChangeProgramOwner: the administrator proposes a non-sentinel successor;
/// nothing takes effect until the successor accepts.
pub open spec fn spec_change_program_owner(
    caller: Seq<u8>,
    new_owner: Seq<u8>,
    config: ProgramConfigV,
) -> Result<ProgramConfigV, NameRegistryError> {
    if new_owner == spec_zero_address() {
        Err(NameRegistryError::InvalidAddress)
    } else if !config.is_initialized {
        Err(NameRegistryError::NotInitialized)
    } else if config.owner != caller {
        Err(NameRegistryError::NotContractOwner)
    } else {
        Ok(ProgramConfigV { pending_owner: new_owner, ..config })
    }
}

/// AcceptProgramOwnership: only the pending administrator may accept; it
/// becomes the administrator and the pending field is cleared.
pub open spec fn spec_accept_program_ownership(caller: Seq<u8>, config: ProgramConfigV) -> Result<
    ProgramConfigV,
    NameRegistryError,
> {
    if !config.is_initialized {
        Err(NameRegistryError::NotInitialized)
    } else if config.pending_owner != caller {
        Err(NameRegistryError::NotPendingContractOwner)
    } else {
        Ok(ProgramConfigV { owner: caller, pending_owner: spec_zero_address(), ..config })
    }
}

/// ResolveAddress: the address an initialized name record resolves to.
pub open spec fn spec_resolve_address(name_rec: NameAccountV) -> Result<
    Seq<u8>,
    NameRegistryError,
> {
    if !name_rec.is_initialized {
        Err(NameRegistryError::NameNotFound)
    } else {
        Ok(name_rec.address)
    }
}

/// GetContractOwner: the administrator's address.
pub open spec fn spec_get_contract_owner(config: ProgramConfigV) -> Result<
    Seq<u8>,
    NameRegistryError,
> {
    if !config.is_initialized {
        Err(NameRegistryError::NotInitialized)
    } else {
        Ok(config.owner)
    }
}

/// GetRegistrationFee: the fee in force.
pub open spec fn spec_get_registration_fee(config: ProgramConfigV) -> Result<
    u64,
    NameRegistryError,
> {
    if !config.is_initialized {
        Err(NameRegistryError::NotInitialized)
    } else {
        Ok(config.registration_fee)
    }
}

/// GetPendingContractOwner: the proposed administrator's address, or the
/// sentinel when no handoff is pending.
pub open spec fn spec_get_pending_contract_owner(config: ProgramConfigV) -> Result<
    Seq<u8>,
    NameRegistryError,
> {
    if !config.is_initialized {
        Err(NameRegistryError::NotInitialized)
    } else {
        Ok(config.pending_owner)
    }
}

/// Withdraw: the administrator takes the whole held value; the credit is
/// checked, never wrapping. The result is the pair of the config's and the
/// caller's balance after the move.
pub open spec fn spec_withdraw(
    caller: Seq<u8>,
    config: ProgramConfigV,
    config_balance: u64,
    caller_balance: u64,
) -> Result<(u64, u64), NameRegistryError> {
    if !config.is_initialized {
        Err(NameRegistryError::NotInitialized)
    } else if config.owner != caller {
        Err(NameRegistryError::NotContractOwner)
    } else if config_balance == 0 {
        Err(NameRegistryError::NothingToWithdraw)
    } else if caller_balance + config_balance > u64::MAX {
        Err(NameRegistryError::ArithmeticOverflow)
    } else {
        Ok((0u64, (caller_balance + config_balance) as u64))
    }
}

// ---------------------------------------------------------------------------
// Executable outcome values.
// ---------------------------------------------------------------------------
/// Effects of a successful registration: the two new records and the two
/// balances after the fee moved.
pub struct RegisterOutcome {
    pub name_record: NameAccount,
    pub address_record: AddressAccount,
    pub caller_balance: u64,
    pub config_balance: u64,
}

impl View for RegisterOutcome {
    type V = RegisterOutcomeV;

    open spec fn view(&self) -> RegisterOutcomeV {
        RegisterOutcomeV {
            name_record: self.name_record@,
            address_record: self.address_record@,
            caller_balance: self.caller_balance,
            config_balance: self.config_balance,
        }
    }
}

/// Effects of a successful escrow completion: the rewritten name record and
/// the cleared escrow.
pub struct CompleteUpdateOutcome {
    pub name_record: NameAccount,
    pub pending_record: PendingUpdateAccount,
}

impl View for CompleteUpdateOutcome {
    type V = CompleteUpdateOutcomeV;

    open spec fn view(&self) -> CompleteUpdateOutcomeV {
        CompleteUpdateOutcomeV {
            name_record: self.name_record@,
            pending_record: self.pending_record@,
        }
    }
}

/// Effects of a successful rename: the cleared old record, the populated
/// new record and the retargeted reverse record.
pub struct RenameOutcome {
    pub old_name_record: NameAccount,
    pub new_name_record: NameAccount,
    pub address_record: AddressAccount,
}

impl View for RenameOutcome {
    type V = RenameOutcomeV;

    open spec fn view(&self) -> RenameOutcomeV {
        RenameOutcomeV {
            old_name_record: self.old_name_record@,
            new_name_record: self.new_name_record@,
            address_record: self.address_record@,
        }
    }
}

/// The records one dispatched operation may touch, together with the two
/// balances the fee logic moves value between. The host fills in the records
/// an operation declares; the fields an operation does not use pass through
/// unchanged.
#[derive(Clone, Debug, PartialEq, Eq)]
pub struct RecordSet {
    /// The primary name record of the operation (for a rename: the old name).
    pub name_record: NameAccount,
    /// The record of the name being moved to; only a rename touches it.
    pub new_name_record: NameAccount,
    /// The reverse record of the caller's (or owner's) address.
    pub address_record: AddressAccount,
    /// The escrow record of the name.
    pub pending_record: PendingUpdateAccount,
    /// The singleton config record.
    pub config: ProgramConfig,
    /// Value held by the caller.
    pub caller_balance: u64,
    /// Value held by the config record (the fee vault).
    pub config_balance: u64,
}

/// Mathematical view of a [`RecordSet`].
#[verifier::ext_equal]
pub struct RecordSetV {
    pub name_record: NameAccountV,
    pub new_name_record: NameAccountV,
    pub address_record: AddressAccountV,
    pub pending_record: PendingUpdateAccountV,
    pub config: ProgramConfigV,
    pub caller_balance: u64,
    pub config_balance: u64,
}

impl View for RecordSet {
    type V = RecordSetV;

    open spec fn view(&self) -> RecordSetV {
        RecordSetV {
            name_record: self.name_record@,
            new_name_record: self.new_name_record@,
            address_record: self.address_record@,
            pending_record: self.pending_record@,
            config: self.config@,
            caller_balance: self.caller_balance,
            config_balance: self.config_balance,
        }
    }
}

/// The bytes a read-only operation emits, viewed mathematically.
pub open spec fn spec_return_bytes(o: Option<Vec<u8>>) -> Option<Seq<u8>> {
    match o {
        Some(v) => Some(v@),
        None => None,
    }
}

/// The meaning of one dispatched operation: either the error it fails with,
/// leaving every record as it was, or the new record set together with the
/// emitted return bytes (a 32-byte address or a little-endian `u64`).
#[verifier::opaque]
pub open spec fn spec_process(
    caller: Seq<u8>,
    now: i64,
    instruction: NameRegistryInstruction,
    rs: RecordSetV,
) -> Result<(RecordSetV, Option<Seq<u8>>), NameRegistryError> {
    match instruction {
        NameRegistryInstruction::Initialize { registration_fee } => {
            match spec_initialize(caller, rs.config, registration_fee) {
                Ok(c) => Ok((RecordSetV { config: c, ..rs }, None)),
                Err(e) => Err(e),
            }
        },
        NameRegistryInstruction::RegisterName { name } => {
            match spec_register_name(
                caller,
                name@,
                rs.name_record,
                rs.address_record,
                rs.config,
                rs.caller_balance,
                rs.config_balance,
                now,
            ) {
                Ok(o) => Ok(
                    (
                        RecordSetV {
                            name_record: o.name_record,
                            address_record: o.address_record,
                            caller_balance: o.caller_balance,
                            config_balance: o.config_balance,
                            ..rs
                        },
                        None,
                    ),
                ),
                Err(e) => Err(e),
            }
        },
        NameRegistryInstruction::RequestAddressUpdate { new_address } => {
            match spec_request_address_update(caller, new_address@, rs.name_record, now) {
                Ok(p) => Ok((RecordSetV { pending_record: p, ..rs }, None)),
                Err(e) => Err(e),
            }
        },
        NameRegistryInstruction::CompleteAddressUpdate => {
            match spec_complete_address_update(
                caller,
                rs.name_record,
                rs.address_record,
                rs.pending_record,
                now,
            ) {
                Ok(o) => Ok(
                    (
                        RecordSetV {
                            name_record: o.name_record,
                            pending_record: o.pending_record,
                            ..rs
                        },
                        None,
                    ),
                ),
                Err(e) => Err(e),
            }
        },
        NameRegistryInstruction::RenameName { new_name } => {
            match spec_rename_name(
                caller,
                new_name@,
                rs.name_record,
                rs.new_name_record,
                rs.address_record,
                now,
            ) {
                Ok(o) => Ok(
                    (
                        RecordSetV {
                            name_record: o.old_name_record,
                            new_name_record: o.new_name_record,
                            address_record: o.address_record,
                            ..rs
                        },
                        None,
                    ),
                ),
                Err(e) => Err(e),
            }
        },
        NameRegistryInstruction::SetRegistrationFee { new_fee } => {
            match spec_set_registration_fee(caller, rs.config, new_fee) {
                Ok(c) => Ok((RecordSetV { config: c, ..rs }, None)),
                Err(e) => Err(e),
            }
        },
        NameRegistryInstruction::ChangeProgramOwner { new_owner } => {
            match spec_change_program_owner(caller, new_owner@, rs.config) {
                Ok(c) => Ok((RecordSetV { config: c, ..rs }, None)),
                Err(e) => Err(e),
            }
        },
        NameRegistryInstruction::AcceptProgramOwnership => {
            match spec_accept_program_ownership(caller, rs.config) {
                Ok(c) => Ok((RecordSetV { config: c, ..rs }, None)),
                Err(e) => Err(e),
            }
        },
        NameRegistryInstruction::ResolveAddress => {
            match spec_resolve_address(rs.name_record) {
                Ok(a) => Ok((rs, Some(a))),
                Err(e) => Err(e),
            }
        },
        NameRegistryInstruction::GetContractOwner => {
            match spec_get_contract_owner(rs.config) {
                Ok(a) => Ok((rs, Some(a))),
                Err(e) => Err(e),
            }
        },
        NameRegistryInstruction::GetRegistrationFee => {
            match spec_get_registration_fee(rs.config) {
                Ok(f) => Ok((rs, Some(spec_u64_to_le_bytes(f)))),
                Err(e) => Err(e),
            }
        },
        NameRegistryInstruction::GetPendingContractOwner => {
            match spec_get_pending_contract_owner(rs.config) {
                Ok(a) => Ok((rs, Some(a))),
                Err(e) => Err(e),
            }
        },
        NameRegistryInstruction::Withdraw => {
            match spec_withdraw(caller, rs.config, rs.config_balance, rs.caller_balance) {
                Ok(b) => Ok(
                    (RecordSetV { config_balance: b.0, caller_balance: b.1, ..rs }, None),
                ),
                Err(e) => Err(e),
            }
        },
    }
}

/// The operation dispatcher.
pub struct Processor;

impl Processor {
    /// Runs one operation against the records the host supplied: every
    /// precondition is checked before any record changes, the whole effect
    /// is applied together, and a failed operation leaves every record and
    /// balance exactly as it was.
    pub fn process(
        caller: &Address,
        now: i64,
        instruction: NameRegistryInstruction,
        records: &mut RecordSet,
    ) -> (r: Result<Option<Vec<u8>>, NameRegistryError>)
        ensures
            ({
                let s = spec_process(caller@, now, instruction, old(records)@);
                match r {
                    Ok(ret) => s matches Ok(p) && final(records)@ == p.0 && spec_return_bytes(ret)
                        == p.1,
                    Err(e) => s == Err::<(RecordSetV, Option<Seq<u8>>), NameRegistryError>(e)
                        && *final(records) == *old(records),
                }
            }),
    {
        match instruction {
            NameRegistryInstruction::Initialize { registration_fee } => Self::step_initialize(
                caller,
                now,
                registration_fee,
                records,
            ),
            NameRegistryInstruction::RegisterName { name } => Self::step_register_name(
                caller,
                now,
                name,
                records,
            ),
            NameRegistryInstruction::RequestAddressUpdate { new_address } => Self::step_request_address_update(
                caller,
                now,
                new_address,
                records,
            ),
            NameRegistryInstruction::CompleteAddressUpdate => Self::step_complete_address_update(
                caller,
                now,
                records,
            ),
            NameRegistryInstruction::RenameName { new_name } => Self::step_rename_name(
                caller,
                now,
                new_name,
                records,
            ),
            NameRegistryInstruction::SetRegistrationFee { new_fee } => Self::step_set_registration_fee(
                caller,
                now,
                new_fee,
                records,
            ),
            NameRegistryInstruction::ChangeProgramOwner { new_owner } => Self::step_change_program_owner(
                caller,
                now,
                new_owner,
                records,
            ),
            NameRegistryInstruction::AcceptProgramOwnership => Self::step_accept_program_ownership(
                caller,
                now,
                records,
            ),
            NameRegistryInstruction::ResolveAddress => Self::step_resolve_address(
                caller,
                now,
                records,
            ),
            NameRegistryInstruction::GetContractOwner => Self::step_get_contract_owner(
                caller,
                now,
                records,
            ),
            NameRegistryInstruction::GetRegistrationFee => Self::step_get_registration_fee(
                caller,
                now,
                records,
            ),
            NameRegistryInstruction::GetPendingContractOwner => Self::step_get_pending_contract_owner(
                caller,
                now,
                records,
            ),
            NameRegistryInstruction::Withdraw => Self::step_withdraw(caller, now, records),
        }
    }

    /// One dispatched `Initialize`.
    fn step_initialize(
        caller: &Address,
        now: i64,
        registration_fee: u64,
        records: &mut RecordSet,
    ) -> (r: Result<Option<Vec<u8>>, NameRegistryError>)
        ensures
            ({
                let s = spec_process(caller@, now, NameRegistryInstruction::Initialize { registration_fee }, old(records)@);
                match r {
                    Ok(ret) => s matches Ok(p) && final(records)@ == p.0 && spec_return_bytes(ret)
                        == p.1,
                    Err(e) => s == Err::<(RecordSetV, Option<Seq<u8>>), NameRegistryError>(e)
                        && *final(records) == *old(records),
                }
            }),
    {
        proof {
            reveal(spec_process);
        }
        match Self::process_initialize(caller, &records.config, registration_fee) {
            Ok(c) => {
                records.config = c;
                Ok(None)
            },
            Err(e) => Err(e),
        }
    }

    /// One dispatched `RegisterName`.
    fn step_register_name(
        caller: &Address,
        now: i64,
        name: String,
        records: &mut RecordSet,
    ) -> (r: Result<Option<Vec<u8>>, NameRegistryError>)
        ensures
            ({
                let s = spec_process(caller@, now, NameRegistryInstruction::RegisterName { name }, old(records)@);
                match r {
                    Ok(ret) => s matches Ok(p) && final(records)@ == p.0 && spec_return_bytes(ret)
                        == p.1,
                    Err(e) => s == Err::<(RecordSetV, Option<Seq<u8>>), NameRegistryError>(e)
                        && *final(records) == *old(records),
                }
            }),
    {
        proof {
            reveal(spec_process);
        }
        match Self::process_register_name(
            caller,
            name,
            &records.name_record,
            &records.address_record,
            &records.config,
            records.caller_balance,
            records.config_balance,
            now,
        ) {
            Ok(o) => {
                records.name_record = o.name_record;
                records.address_record = o.address_record;
                records.caller_balance = o.caller_balance;
                records.config_balance = o.config_balance;
                Ok(None)
            },
            Err(e) => Err(e),
        }
    }

    /// One dispatched `RequestAddressUpdate`.
    fn step_request_address_update(
        caller: &Address,
        now: i64,
        new_address: Address,
        records: &mut RecordSet,
    ) -> (r: Result<Option<Vec<u8>>, NameRegistryError>)
        ensures
            ({
                let s = spec_process(caller@, now, NameRegistryInstruction::RequestAddressUpdate { new_address }, old(records)@);
                match r {
                    Ok(ret) => s matches Ok(p) && final(records)@ == p.0 && spec_return_bytes(ret)
                        == p.1,
                    Err(e) => s == Err::<(RecordSetV, Option<Seq<u8>>), NameRegistryError>(e)
                        && *final(records) == *old(records),
                }
            }),
    {
        proof {
            reveal(spec_process);
        }
        match Self::process_request_address_update(
            caller,
            &new_address,
            &records.name_record,
            now,
        ) {
            Ok(p) => {
                records.pending_record = p;
                Ok(None)
            },
            Err(e) => Err(e),
        }
    }

    /// One dispatched `CompleteAddressUpdate`.
    fn step_complete_address_update(
        caller: &Address,
        now: i64,
        records: &mut RecordSet,
    ) -> (r: Result<Option<Vec<u8>>, NameRegistryError>)
        ensures
            ({
                let s = spec_process(caller@, now, NameRegistryInstruction::CompleteAddressUpdate, old(records)@);
                match r {
                    Ok(ret) => s matches Ok(p) && final(records)@ == p.0 && spec_return_bytes(ret)
                        == p.1,
                    Err(e) => s == Err::<(RecordSetV, Option<Seq<u8>>), NameRegistryError>(e)
                        && *final(records) == *old(records),
                }
            }),
    {
        proof {
            reveal(spec_process);
        }
        match Self::process_complete_address_update(
            caller,
            &records.name_record,
            &records.address_record,
            &records.pending_record,
            now,
        ) {
            Ok(o) => {
                records.name_record = o.name_record;
                records.pending_record = o.pending_record;
                Ok(None)
            },
            Err(e) => Err(e),
        }
    }

    /// One dispatched `RenameName`.
    fn step_rename_name(
        caller: &Address,
        now: i64,
        new_name: String,
        records: &mut RecordSet,
    ) -> (r: Result<Option<Vec<u8>>, NameRegistryError>)
        ensures
            ({
                let s = spec_process(caller@, now, NameRegistryInstruction::RenameName { new_name }, old(records)@);
                match r {
                    Ok(ret) => s matches Ok(p) && final(records)@ == p.0 && spec_return_bytes(ret)
                        == p.1,
                    Err(e) => s == Err::<(RecordSetV, Option<Seq<u8>>), NameRegistryError>(e)
                        && *final(records) == *old(records),
                }
            }),
    {
        proof {
            reveal(spec_process);
        }
        match Self::process_rename_name(
            caller,
            new_name,
            &records.name_record,
            &records.new_name_record,
            &records.address_record,
            now,
        ) {
            Ok(o) => {
                records.name_record = o.old_name_record;
                records.new_name_record = o.new_name_record;
                records.address_record = o.address_record;
                Ok(None)
            },
            Err(e) => Err(e),
        }
    }

    /// One dispatched `SetRegistrationFee`.
    fn step_set_registration_fee(
        caller: &Address,
        now: i64,
        new_fee: u64,
        records: &mut RecordSet,
    ) -> (r: Result<Option<Vec<u8>>, NameRegistryError>)
        ensures
            ({
                let s = spec_process(caller@, now, NameRegistryInstruction::SetRegistrationFee { new_fee }, old(records)@);
                match r {
                    Ok(ret) => s matches Ok(p) && final(records)@ == p.0 && spec_return_bytes(ret)
                        == p.1,
                    Err(e) => s == Err::<(RecordSetV, Option<Seq<u8>>), NameRegistryError>(e)
                        && *final(records) == *old(records),
                }
            }),
    {
        proof {
            reveal(spec_process);
        }
        match Self::process_set_registration_fee(caller, &records.config, new_fee) {
            Ok(c) => {
                records.config = c;
                Ok(None)
            },
            Err(e) => Err(e),
        }
    }

    /// One dispatched `ChangeProgramOwner`.
    fn step_change_program_owner(
        caller: &Address,
        now: i64,
        new_owner: Address,
        records: &mut RecordSet,
    ) -> (r: Result<Option<Vec<u8>>, NameRegistryError>)
        ensures
            ({
                let s = spec_process(caller@, now, NameRegistryInstruction::ChangeProgramOwner { new_owner }, old(records)@);
                match r {
                    Ok(ret) => s matches Ok(p) && final(records)@ == p.0 && spec_return_bytes(ret)
                        == p.1,
                    Err(e) => s == Err::<(RecordSetV, Option<Seq<u8>>), NameRegistryError>(e)
                        && *final(records) == *old(records),
                }
            }),
    {
        proof {
            reveal(spec_process);
        }
        match Self::process_change_program_owner(caller, &new_owner, &records.config) {
            Ok(c) => {
                records.config = c;
                Ok(None)
            },
            Err(e) => Err(e),
        }
    }

    /// One dispatched `AcceptProgramOwnership`.
    fn step_accept_program_ownership(
        caller: &Address,
        now: i64,
        records: &mut RecordSet,
    ) -> (r: Result<Option<Vec<u8>>, NameRegistryError>)
        ensures
            ({
                let s = spec_process(caller@, now, NameRegistryInstruction::AcceptProgramOwnership, old(records)@);
                match r {
                    Ok(ret) => s matches Ok(p) && final(records)@ == p.0 && spec_return_bytes(ret)
                        == p.1,
                    Err(e) => s == Err::<(RecordSetV, Option<Seq<u8>>), NameRegistryError>(e)
                        && *final(records) == *old(records),
                }
            }),
    {
        proof {
            reveal(spec_process);
        }
        match Self::process_accept_program_ownership(caller, &records.config) {
            Ok(c) => {
                records.config = c;
                Ok(None)
            },
            Err(e) => Err(e),
        }
    }

    /// One dispatched `ResolveAddress`.
    fn step_resolve_address(
        caller: &Address,
        now: i64,
        records: &mut RecordSet,
    ) -> (r: Result<Option<Vec<u8>>, NameRegistryError>)
        ensures
            ({
                let s = spec_process(caller@, now, NameRegistryInstruction::ResolveAddress, old(records)@);
                match r {
                    Ok(ret) => s matches Ok(p) && final(records)@ == p.0 && spec_return_bytes(ret)
                        == p.1,
                    Err(e) => s == Err::<(RecordSetV, Option<Seq<u8>>), NameRegistryError>(e)
                        && *final(records) == *old(records),
                }
            }),
    {
        proof {
            reveal(spec_process);
        }
        match Self::process_resolve_address(&records.name_record) {
            Ok(a) => Ok(Some(a.bytes)),
            Err(e) => Err(e),
        }
    }

    /// One dispatched `GetContractOwner`.
    fn step_get_contract_owner(
        caller: &Address,
        now: i64,
        records: &mut RecordSet,
    ) -> (r: Result<Option<Vec<u8>>, NameRegistryError>)
        ensures
            ({
                let s = spec_process(caller@, now, NameRegistryInstruction::GetContractOwner, old(records)@);
                match r {
                    Ok(ret) => s matches Ok(p) && final(records)@ == p.0 && spec_return_bytes(ret)
                        == p.1,
                    Err(e) => s == Err::<(RecordSetV, Option<Seq<u8>>), NameRegistryError>(e)
                        && *final(records) == *old(records),
                }
            }),
    {
        proof {
            reveal(spec_process);
        }
        match Self::process_get_contract_owner(&records.config) {
            Ok(a) => Ok(Some(a.bytes)),
            Err(e) => Err(e),
        }
    }

    /// One dispatched `GetRegistrationFee`.
    fn step_get_registration_fee(
        caller: &Address,
        now: i64,
        records: &mut RecordSet,
    ) -> (r: Result<Option<Vec<u8>>, NameRegistryError>)
        ensures
            ({
                let s = spec_process(caller@, now, NameRegistryInstruction::GetRegistrationFee, old(records)@);
                match r {
                    Ok(ret) => s matches Ok(p) && final(records)@ == p.0 && spec_return_bytes(ret)
                        == p.1,
                    Err(e) => s == Err::<(RecordSetV, Option<Seq<u8>>), NameRegistryError>(e)
                        && *final(records) == *old(records),
                }
            }),
    {
        proof {
            reveal(spec_process);
        }
        match Self::process_get_registration_fee(&records.config) {
            Ok(f) => Ok(Some(u64_to_le_bytes(f))),
            Err(e) => Err(e),
        }
    }

    /// One dispatched `GetPendingContractOwner`.
    fn step_get_pending_contract_owner(
        caller: &Address,
        now: i64,
        records: &mut RecordSet,
    ) -> (r: Result<Option<Vec<u8>>, NameRegistryError>)
        ensures
            ({
                let s = spec_process(caller@, now, NameRegistryInstruction::GetPendingContractOwner, old(records)@);
                match r {
                    Ok(ret) => s matches Ok(p) && final(records)@ == p.0 && spec_return_bytes(ret)
                        == p.1,
                    Err(e) => s == Err::<(RecordSetV, Option<Seq<u8>>), NameRegistryError>(e)
                        && *final(records) == *old(records),
                }
            }),
    {
        proof {
            reveal(spec_process);
        }
        match Self::process_get_pending_contract_owner(&records.config) {
            Ok(a) => Ok(Some(a.bytes)),
            Err(e) => Err(e),
        }
    }

    /// One dispatched `Withdraw`.
    fn step_withdraw(
        caller: &Address,
        now: i64,
        records: &mut RecordSet,
    ) -> (r: Result<Option<Vec<u8>>, NameRegistryError>)
        ensures
            ({
                let s = spec_process(caller@, now, NameRegistryInstruction::Withdraw, old(records)@);
                match r {
                    Ok(ret) => s matches Ok(p) && final(records)@ == p.0 && spec_return_bytes(ret)
                        == p.1,
                    Err(e) => s == Err::<(RecordSetV, Option<Seq<u8>>), NameRegistryError>(e)
                        && *final(records) == *old(records),
                }
            }),
    {
        proof {
            reveal(spec_process);
        }
        match Self::process_withdraw(
            caller,
            &records.config,
            records.config_balance,
            records.caller_balance,
        ) {
            Ok(b) => {
                records.config_balance = b.0;
                records.caller_balance = b.1;
                Ok(None)
            },
            Err(e) => Err(e),
        }
    }


    /// Creates the config record; fails with `AlreadyInitialized` when it
    /// already exists.
    pub fn process_initialize(
        caller: &Address,
        config: &ProgramConfig,
        registration_fee: u64,
    ) -> (r: Result<ProgramConfig, NameRegistryError>)
        ensures
            ({
                let s = spec_initialize(caller@, config@, registration_fee);
                match r {
                    Ok(c) => s == Ok::<ProgramConfigV, NameRegistryError>(c@),
                    Err(e) => s == Err::<ProgramConfigV, NameRegistryError>(e),
                }
            }),
    {
        if config.is_initialized() {
            return Err(NameRegistryError::AlreadyInitialized);
        }
        let out = ProgramConfig {
            is_initialized: true,
            owner: caller.dup(),
            pending_owner: Address::zero(),
            registration_fee,
        };
        proof {
            assert(spec_initialize(caller@, config@, registration_fee) matches Ok(v) && v =~= out@);
        }
        Ok(out)
    }

    /// Registers a name to the caller and charges the fee; see
    /// [`spec_register_name`] for the full precondition and effect.
    pub fn process_register_name(
        caller: &Address,
        name: String,
        name_rec: &NameAccount,
        addr_rec: &AddressAccount,
        config: &ProgramConfig,
        caller_balance: u64,
        config_balance: u64,
        now: i64,
    ) -> (r: Result<RegisterOutcome, NameRegistryError>)
        ensures
            ({
                let s = spec_register_name(
                    caller@,
                    name@,
                    name_rec@,
                    addr_rec@,
                    config@,
                    caller_balance,
                    config_balance,
                    now,
                );
                match r {
                    Ok(o) => s == Ok::<RegisterOutcomeV, NameRegistryError>(o@),
                    Err(e) => s == Err::<RegisterOutcomeV, NameRegistryError>(e),
                }
            }),
    {
        match validate_name(name.as_str()) {
            Ok(()) => {},
            Err(e) => {
                return Err(e);
            },
        }
        if !config.is_initialized() {
            return Err(NameRegistryError::NotInitialized);
        }
        if name_rec.is_initialized() {
            return Err(NameRegistryError::NameTaken);
        }
        if addr_rec.is_initialized() {
            return Err(NameRegistryError::NameAlreadyRegistered);
        }
        let fee = config.registration_fee;
        if caller_balance < fee {
            return Err(NameRegistryError::InsufficientFee);
        }
        if config_balance > u64::MAX - fee {
            return Err(NameRegistryError::ArithmeticOverflow);
        }
        let out = RegisterOutcome {
            name_record: NameAccount {
                is_initialized: true,
                owner: caller.dup(),
                name: name.clone(),
                address: caller.dup(),
                cooldown_until: get_cooldown_until(now),
            },
            address_record: AddressAccount { is_initialized: true, name },
            caller_balance: caller_balance - fee,
            config_balance: config_balance + fee,
        };
        proof {
            assert(spec_register_name(
                caller@,
                name@,
                name_rec@,
                addr_rec@,
                config@,
                caller_balance,
                config_balance,
                now,
            ) matches Ok(v) && v =~= out@);
        }
        Ok(out)
    }

    /// Opens (or replaces) the escrow proposing a new resolved address; see
    /// [`spec_request_address_update`].
    pub fn process_request_address_update(
        caller: &Address,
        new_address: &Address,
        name_rec: &NameAccount,
        now: i64,
    ) -> (r: Result<PendingUpdateAccount, NameRegistryError>)
        ensures
            ({
                let s = spec_request_address_update(caller@, new_address@, name_rec@, now);
                match r {
                    Ok(p) => s == Ok::<PendingUpdateAccountV, NameRegistryError>(p@),
                    Err(e) => s == Err::<PendingUpdateAccountV, NameRegistryError>(e),
                }
            }),
    {
        match validate_address(new_address) {
            Ok(()) => {},
            Err(e) => {
                return Err(e);
            },
        }
        if !name_rec.is_initialized() {
            return Err(NameRegistryError::NotInitialized);
        }
        match validate_owner(&name_rec.owner, caller) {
            Ok(()) => {},
            Err(e) => {
                return Err(e);
            },
        }
        match validate_cooldown(name_rec.cooldown_until, now) {
            Ok(()) => {},
            Err(e) => {
                return Err(e);
            },
        }
        let out = PendingUpdateAccount { is_initialized: true, new_address: new_address.dup() };
        proof {
            assert(spec_request_address_update(caller@, new_address@, name_rec@, now) matches Ok(v)
                && v =~= out@);
        }
        Ok(out)
    }

    /// Confirms the escrow: ownership and resolution move to the caller, a
    /// new cooldown window opens, the escrow is cleared; see
    /// [`spec_complete_address_update`].
    pub fn process_complete_address_update(
        caller: &Address,
        name_rec: &NameAccount,
        addr_rec: &AddressAccount,
        pending: &PendingUpdateAccount,
        now: i64,
    ) -> (r: Result<CompleteUpdateOutcome, NameRegistryError>)
        ensures
            ({
                let s = spec_complete_address_update(caller@, name_rec@, addr_rec@, pending@, now);
                match r {
                    Ok(o) => s == Ok::<CompleteUpdateOutcomeV, NameRegistryError>(o@),
                    Err(e) => s == Err::<CompleteUpdateOutcomeV, NameRegistryError>(e),
                }
            }),
    {
        if !pending.is_initialized() {
            return Err(NameRegistryError::NoPendingUpdate);
        }
        if !pending.new_address.eq_addr(caller) {
            return Err(NameRegistryError::NotPendingAddress);
        }
        if !name_rec.is_initialized() {
            return Err(NameRegistryError::NotInitialized);
        }
        if !addr_rec.is_initialized() {
            return Err(NameRegistryError::NotInitialized);
        }
        let out = CompleteUpdateOutcome {
            name_record: NameAccount {
                is_initialized: name_rec.is_initialized,
                owner: caller.dup(),
                name: name_rec.name.clone(),
                address: caller.dup(),
                cooldown_until: get_cooldown_until(now),
            },
            pending_record: PendingUpdateAccount {
                is_initialized: false,
                new_address: Address::zero(),
            },
        };
        proof {
            assert(spec_complete_address_update(caller@, name_rec@, addr_rec@, pending@, now)
                matches Ok(v) && v =~= out@);
        }
        Ok(out)
    }

    /// Moves the caller's registration to a new name across three records
    /// at once; see [`spec_rename_name`].
    pub fn process_rename_name(
        caller: &Address,
        new_name: String,
        old_rec: &NameAccount,
        new_rec: &NameAccount,
        addr_rec: &AddressAccount,
        now: i64,
    ) -> (r: Result<RenameOutcome, NameRegistryError>)
        ensures
            ({
                let s = spec_rename_name(caller@, new_name@, old_rec@, new_rec@, addr_rec@, now);
                match r {
                    Ok(o) => s == Ok::<RenameOutcomeV, NameRegistryError>(o@),
                    Err(e) => s == Err::<RenameOutcomeV, NameRegistryError>(e),
                }
            }),
    {
        match validate_name(new_name.as_str()) {
            Ok(()) => {},
            Err(e) => {
                return Err(e);
            },
        }
        if !old_rec.is_initialized() {
            return Err(NameRegistryError::NotInitialized);
        }
        match validate_owner(&old_rec.owner, caller) {
            Ok(()) => {},
            Err(e) => {
                return Err(e);
            },
        }
        match validate_cooldown(old_rec.cooldown_until, now) {
            Ok(()) => {},
            Err(e) => {
                return Err(e);
            },
        }
        if new_rec.is_initialized() {
            return Err(NameRegistryError::NameTaken);
        }
        if !addr_rec.is_initialized() {
            return Err(NameRegistryError::NotInitialized);
        }
        let out = RenameOutcome {
            old_name_record: NameAccount::default(),
            new_name_record: NameAccount {
                is_initialized: true,
                owner: caller.dup(),
                name: new_name.clone(),
                address: old_rec.address.dup(),
                cooldown_until: get_cooldown_until(now),
            },
            address_record: AddressAccount {
                is_initialized: addr_rec.is_initialized,
                name: new_name,
            },
        };
        proof {
            assert(spec_rename_name(caller@, new_name@, old_rec@, new_rec@, addr_rec@, now)
                matches Ok(v) && v =~= out@);
        }
        Ok(out)
    }

    /// Sets the registration fee; administrator only; see
    /// [`spec_set_registration_fee`].
    pub fn process_set_registration_fee(
        caller: &Address,
        config: &ProgramConfig,
        new_fee: u64,
    ) -> (r: Result<ProgramConfig, NameRegistryError>)
        ensures
            ({
                let s = spec_set_registration_fee(caller@, config@, new_fee);
                match r {
                    Ok(c) => s == Ok::<ProgramConfigV, NameRegistryError>(c@),
                    Err(e) => s == Err::<ProgramConfigV, NameRegistryError>(e),
                }
            }),
    {
        if !config.is_initialized() {
            return Err(NameRegistryError::NotInitialized);
        }
        match validate_program_owner(&config.owner, caller) {
            Ok(()) => {},
            Err(e) => {
                return Err(e);
            },
        }
        let out = ProgramConfig {
            is_initialized: config.is_initialized,
            owner: config.owner.dup(),
            pending_owner: config.pending_owner.dup(),
            registration_fee: new_fee,
        };
        proof {
            assert(spec_set_registration_fee(caller@, config@, new_fee) matches Ok(v) && v
                =~= out@);
        }
        Ok(out)
    }

    /// Proposes a new administrator; see [`spec_change_program_owner`].
    pub fn process_change_program_owner(
        caller: &Address,
        new_owner: &Address,
        config: &ProgramConfig,
    ) -> (r: Result<ProgramConfig, NameRegistryError>)
        ensures
            ({
                let s = spec_change_program_owner(caller@, new_owner@, config@);
                match r {
                    Ok(c) => s == Ok::<ProgramConfigV, NameRegistryError>(c@),
                    Err(e) => s == Err::<ProgramConfigV, NameRegistryError>(e),
                }
            }),
    {
        match validate_address(new_owner) {
            Ok(()) => {},
            Err(e) => {
                return Err(e);
            },
        }
        if !config.is_initialized() {
            return Err(NameRegistryError::NotInitialized);
        }
        match validate_program_owner(&config.owner, caller) {
            Ok(()) => {},
            Err(e) => {
                return Err(e);
            },
        }
        let out = ProgramConfig {
            is_initialized: config.is_initialized,
            owner: config.owner.dup(),
            pending_owner: new_owner.dup(),
            registration_fee: config.registration_fee,
        };
        proof {
            assert(spec_change_program_owner(caller@, new_owner@, config@) matches Ok(v) && v
                =~= out@);
        }
        Ok(out)
    }

    /// Completes the administrator handoff; pending administrator only; see
    /// [`spec_accept_program_ownership`].
    pub fn process_accept_program_ownership(caller: &Address, config: &ProgramConfig) -> (r: Result<
        ProgramConfig,
        NameRegistryError,
    >)
        ensures
            ({
                let s = spec_accept_program_ownership(caller@, config@);
                match r {
                    Ok(c) => s == Ok::<ProgramConfigV, NameRegistryError>(c@),
                    Err(e) => s == Err::<ProgramConfigV, NameRegistryError>(e),
                }
            }),
    {
        if !config.is_initialized() {
            return Err(NameRegistryError::NotInitialized);
        }
        if !config.pending_owner.eq_addr(caller) {
            return Err(NameRegistryError::NotPendingContractOwner);
        }
        let out = ProgramConfig {
            is_initialized: config.is_initialized,
            owner: caller.dup(),
            pending_owner: Address::zero(),
            registration_fee: config.registration_fee,
        };
        proof {
            assert(spec_accept_program_ownership(caller@, config@) matches Ok(v) && v =~= out@);
        }
        Ok(out)
    }

    /// Reads the address an initialized name record resolves to; see
    /// [`spec_resolve_address`].
    pub fn process_resolve_address(name_rec: &NameAccount) -> (r: Result<
        Address,
        NameRegistryError,
    >)
        ensures
            ({
                let s = spec_resolve_address(name_rec@);
                match r {
                    Ok(a) => s == Ok::<Seq<u8>, NameRegistryError>(a@),
                    Err(e) => s == Err::<Seq<u8>, NameRegistryError>(e),
                }
            }),
    {
        if !name_rec.is_initialized() {
            return Err(NameRegistryError::NameNotFound);
        }
        Ok(name_rec.address.dup())
    }

    /// Reads the administrator's address; see [`spec_get_contract_owner`].
    pub fn process_get_contract_owner(config: &ProgramConfig) -> (r: Result<
        Address,
        NameRegistryError,
    >)
        ensures
            ({
                let s = spec_get_contract_owner(config@);
                match r {
                    Ok(a) => s == Ok::<Seq<u8>, NameRegistryError>(a@),
                    Err(e) => s == Err::<Seq<u8>, NameRegistryError>(e),
                }
            }),
    {
        if !config.is_initialized() {
            return Err(NameRegistryError::NotInitialized);
        }
        Ok(config.owner.dup())
    }

    /// Reads the fee in force; see [`spec_get_registration_fee`].
    pub fn process_get_registration_fee(config: &ProgramConfig) -> (r: Result<
        u64,
        NameRegistryError,
    >)
        ensures
            ({
                let s = spec_get_registration_fee(config@);
                match r {
                    Ok(f) => s == Ok::<u64, NameRegistryError>(f),
                    Err(e) => s == Err::<u64, NameRegistryError>(e),
                }
            }),
    {
        if !config.is_initialized() {
            return Err(NameRegistryError::NotInitialized);
        }
        Ok(config.registration_fee)
    }

    /// Reads the pending administrator's address; see
    /// [`spec_get_pending_contract_owner`].
    pub fn process_get_pending_contract_owner(config: &ProgramConfig) -> (r: Result<
        Address,
        NameRegistryError,
    >)
        ensures
            ({
                let s = spec_get_pending_contract_owner(config@);
                match r {
                    Ok(a) => s == Ok::<Seq<u8>, NameRegistryError>(a@),
                    Err(e) => s == Err::<Seq<u8>, NameRegistryError>(e),
                }
            }),
    {
        if !config.is_initialized() {
            return Err(NameRegistryError::NotInitialized);
        }
        Ok(config.pending_owner.dup())
    }

    /// Moves the whole held value of the config record to the administrator;
    /// see [`spec_withdraw`]. The result is the pair of the config's and the
    /// caller's balance after the move.
    pub fn process_withdraw(
        caller: &Address,
        config: &ProgramConfig,
        config_balance: u64,
        caller_balance: u64,
    ) -> (r: Result<(u64, u64), NameRegistryError>)
        ensures
            ({
                let s = spec_withdraw(caller@, config@, config_balance, caller_balance);
                match r {
                    Ok(b) => s == Ok::<(u64, u64), NameRegistryError>(b),
                    Err(e) => s == Err::<(u64, u64), NameRegistryError>(e),
                }
            }),
    {
        if !config.is_initialized() {
            return Err(NameRegistryError::NotInitialized);
        }
        match validate_program_owner(&config.owner, caller) {
            Ok(()) => {},
            Err(e) => {
                return Err(e);
            },
        }
        if config_balance == 0 {
            return Err(NameRegistryError::NothingToWithdraw);
        }
        if caller_balance > u64::MAX - config_balance {
            return Err(NameRegistryError::ArithmeticOverflow);
        }
        Ok((0u64, caller_balance + config_balance))
    }
}

} // verus!
