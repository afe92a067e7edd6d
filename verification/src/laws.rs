//! Registry-wide laws: properties that relate several operations, proved
//! once and for all over the specification-level transition functions of
//! [`crate::processor`]. That a failed operation changes no record is not
//! here: it is part of the contract of [`crate::processor::Processor::process`]
//! itself.

use vstd::prelude::*;
use crate::error::NameRegistryError;
use crate::instruction::{wf_instruction, NameRegistryInstruction};
use crate::processor::{
    spec_initialize, spec_register_name, spec_request_address_update, spec_complete_address_update,
    spec_rename_name, spec_change_program_owner, spec_accept_program_ownership,
    spec_resolve_address, spec_process, spec_withdraw, RecordSetV, RegisterOutcomeV,
};
use crate::state::{
    NameAccountV, AddressAccountV, PendingUpdateAccountV, ProgramConfigV, spec_zero_address,
};
use crate::validation::{lemma_valid_name_ascii, spec_cooldown_until, valid_name};

verus! {

/// Registering any well-formed name and then resolving it yields the
/// registering caller's address.
pub proof fn lemma_register_then_resolve(
    caller: Seq<u8>,
    name: Seq<char>,
    name_rec: NameAccountV,
    addr_rec: AddressAccountV,
    config: ProgramConfigV,
    caller_balance: u64,
    config_balance: u64,
    now: i64,
)
    requires
        valid_name(name),
        config.is_initialized,
        !name_rec.is_initialized,
        !addr_rec.is_initialized,
        caller_balance >= config.registration_fee,
        config_balance + config.registration_fee <= u64::MAX,
    ensures
        spec_register_name(
            caller,
            name,
            name_rec,
            addr_rec,
            config,
            caller_balance,
            config_balance,
            now,
        ) matches Ok(o) && spec_resolve_address(o.name_record) == Ok::<Seq<u8>, NameRegistryError>(
            caller,
        ),
{
}

/// Registering a name whose record a first registration has already
/// initialized fails with `NameTaken`, whoever tries and whatever the
/// reverse record and balances are.
pub proof fn lemma_register_twice_fails(
    first: RegisterOutcomeV,
    caller2: Seq<u8>,
    name: Seq<char>,
    addr_rec2: AddressAccountV,
    config2: ProgramConfigV,
    caller_balance2: u64,
    config_balance2: u64,
    now2: i64,
)
    requires
        valid_name(name),
        config2.is_initialized,
        first.name_record.is_initialized,
    ensures
        spec_register_name(
            caller2,
            name,
            first.name_record,
            addr_rec2,
            config2,
            caller_balance2,
            config_balance2,
            now2,
        ) == Err::<RegisterOutcomeV, NameRegistryError>(NameRegistryError::NameTaken),
{
}

/// Registering a second name to an address whose reverse record already
/// holds one fails with `NameAlreadyRegistered`.
pub proof fn lemma_register_second_name_fails(
    caller: Seq<u8>,
    name2: Seq<char>,
    name_rec2: NameAccountV,
    taken_addr_rec: AddressAccountV,
    config: ProgramConfigV,
    caller_balance: u64,
    config_balance: u64,
    now: i64,
)
    requires
        valid_name(name2),
        config.is_initialized,
        !name_rec2.is_initialized,
        taken_addr_rec.is_initialized,
    ensures
        spec_register_name(
            caller,
            name2,
            name_rec2,
            taken_addr_rec,
            config,
            caller_balance,
            config_balance,
            now,
        ) == Err::<RegisterOutcomeV, NameRegistryError>(NameRegistryError::NameAlreadyRegistered),
{
}

/// After a request opened an escrow, any signer other than the designated
/// target address fails to complete it with `NotPendingAddress`.
pub proof fn lemma_complete_only_target(
    caller: Seq<u8>,
    new_address: Seq<u8>,
    name_rec: NameAccountV,
    now: i64,
    other: Seq<u8>,
    name_rec2: NameAccountV,
    addr_rec2: AddressAccountV,
    now2: i64,
)
    requires
        spec_request_address_update(caller, new_address, name_rec, now) is Ok,
        other != new_address,
    ensures
        spec_complete_address_update(
            other,
            name_rec2,
            addr_rec2,
            spec_request_address_update(caller, new_address, name_rec, now)->Ok_0,
            now2,
        ) matches Err(e) && e == NameRegistryError::NotPendingAddress,
{
}

/// After a request opened an escrow, the designated target address does
/// complete it: the name record then resolves to the target, is owned by
/// it, and carries a fresh cooldown stamp; the escrow is cleared.
pub proof fn lemma_complete_by_target(
    caller: Seq<u8>,
    new_address: Seq<u8>,
    name_rec: NameAccountV,
    now: i64,
    addr_rec: AddressAccountV,
    now2: i64,
)
    requires
        spec_request_address_update(caller, new_address, name_rec, now) is Ok,
        name_rec.is_initialized,
        addr_rec.is_initialized,
    ensures
        spec_complete_address_update(
            new_address,
            name_rec,
            addr_rec,
            spec_request_address_update(caller, new_address, name_rec, now)->Ok_0,
            now2,
        ) matches Ok(o) && o.name_record.address == new_address && o.name_record.owner
            == new_address && o.name_record.cooldown_until == spec_cooldown_until(now2)
            && !o.pending_record.is_initialized,
{
}

/// Completing without a prior request, that is against an uninitialized
/// escrow, fails with `NoPendingUpdate`.
pub proof fn lemma_complete_without_request(
    caller: Seq<u8>,
    name_rec: NameAccountV,
    addr_rec: AddressAccountV,
    pending: PendingUpdateAccountV,
    now: i64,
)
    requires
        !pending.is_initialized,
    ensures
        spec_complete_address_update(caller, name_rec, addr_rec, pending, now) matches Err(e) && e
            == NameRegistryError::NoPendingUpdate,
{
}

/// The cooldown boundary is inclusive for a request: exactly at
/// `cooldown_until` the request succeeds; one second before, it fails with
/// `CooldownNotOver`.
pub proof fn lemma_cooldown_boundary_request(
    caller: Seq<u8>,
    new_address: Seq<u8>,
    name_rec: NameAccountV,
)
    requires
        name_rec.is_initialized,
        name_rec.owner == caller,
        new_address != spec_zero_address(),
        name_rec.cooldown_until > i64::MIN,
    ensures
        spec_request_address_update(caller, new_address, name_rec, name_rec.cooldown_until) is Ok,
        spec_request_address_update(
            caller,
            new_address,
            name_rec,
            (name_rec.cooldown_until - 1) as i64,
        ) matches Err(e) && e == NameRegistryError::CooldownNotOver,
{
}

/// The cooldown boundary is inclusive for a rename in the same way.
pub proof fn lemma_cooldown_boundary_rename(
    caller: Seq<u8>,
    new_name: Seq<char>,
    old_rec: NameAccountV,
    new_rec: NameAccountV,
    addr_rec: AddressAccountV,
)
    requires
        valid_name(new_name),
        old_rec.is_initialized,
        old_rec.owner == caller,
        !new_rec.is_initialized,
        addr_rec.is_initialized,
        old_rec.cooldown_until > i64::MIN,
    ensures
        spec_rename_name(caller, new_name, old_rec, new_rec, addr_rec, old_rec.cooldown_until)
            is Ok,
        spec_rename_name(
            caller,
            new_name,
            old_rec,
            new_rec,
            addr_rec,
            (old_rec.cooldown_until - 1) as i64,
        ) matches Err(e) && e == NameRegistryError::CooldownNotOver,
{
}

/// A rename moves the registration atomically across its three records:
/// afterwards the old name no longer resolves, the new name resolves to the
/// address the old record held, and the reverse record follows to the new
/// name.
pub proof fn lemma_rename_atomic(
    caller: Seq<u8>,
    new_name: Seq<char>,
    old_rec: NameAccountV,
    new_rec: NameAccountV,
    addr_rec: AddressAccountV,
    now: i64,
)
    requires
        valid_name(new_name),
        old_rec.is_initialized,
        old_rec.owner == caller,
        now >= old_rec.cooldown_until,
        !new_rec.is_initialized,
        addr_rec.is_initialized,
    ensures
        spec_rename_name(caller, new_name, old_rec, new_rec, addr_rec, now) matches Ok(o) && {
            &&& spec_resolve_address(o.old_name_record) == Err::<Seq<u8>, NameRegistryError>(
                NameRegistryError::NameNotFound,
            )
            &&& spec_resolve_address(o.new_name_record) == Ok::<Seq<u8>, NameRegistryError>(
                old_rec.address,
            )
            &&& o.address_record.is_initialized
            &&& o.address_record.name == new_name
        },
{
}

/// Two-step administrator handoff: after the administrator proposes a
/// successor, accepting from any other signer fails with
/// `NotPendingContractOwner`; accepting from the proposed successor makes it
/// the administrator and clears the pending field.
pub proof fn lemma_admin_handoff(
    admin: Seq<u8>,
    new_owner: Seq<u8>,
    config: ProgramConfigV,
    other: Seq<u8>,
)
    requires
        config.is_initialized,
        config.owner == admin,
        new_owner != spec_zero_address(),
        other != new_owner,
    ensures
        spec_change_program_owner(admin, new_owner, config) matches Ok(c1) && {
            &&& spec_accept_program_ownership(other, c1) matches Err(e) && e
                == NameRegistryError::NotPendingContractOwner
            &&& spec_accept_program_ownership(new_owner, c1) matches Ok(c2) && c2.owner
                == new_owner && c2.pending_owner == spec_zero_address()
        },
{
}

/// Withdrawing from a config that holds no value fails with
/// `NothingToWithdraw`.
pub proof fn lemma_withdraw_empty_vault(
    admin: Seq<u8>,
    config: ProgramConfigV,
    caller_balance: u64,
)
    requires
        config.is_initialized,
        config.owner == admin,
    ensures
        spec_withdraw(admin, config, 0, caller_balance) == Err::<(u64, u64), NameRegistryError>(
            NameRegistryError::NothingToWithdraw,
        ),
{
}

/// After one registration at fee `F` into an empty vault, a withdrawal by
/// the administrator moves exactly `F` to the administrator and leaves the
/// vault at zero.
pub proof fn lemma_withdraw_after_register(
    caller: Seq<u8>,
    name: Seq<char>,
    name_rec: NameAccountV,
    addr_rec: AddressAccountV,
    config: ProgramConfigV,
    caller_balance: u64,
    now: i64,
    admin_balance: u64,
)
    requires
        valid_name(name),
        config.is_initialized,
        !name_rec.is_initialized,
        !addr_rec.is_initialized,
        caller_balance >= config.registration_fee,
        config.registration_fee > 0,
        admin_balance + config.registration_fee <= u64::MAX,
    ensures
        spec_register_name(caller, name, name_rec, addr_rec, config, caller_balance, 0, now)
            matches Ok(o) && {
            &&& o.config_balance == config.registration_fee
            &&& spec_withdraw(config.owner, config, o.config_balance, admin_balance) == Ok::<
                (u64, u64),
                NameRegistryError,
            >((0u64, (admin_balance + config.registration_fee) as u64))
        },
{
}

/// Creating the config record makes the creating caller the administrator,
/// leaves no handoff pending, and puts the given fee in force; a second
/// initialization fails with `AlreadyInitialized`.
pub proof fn lemma_initialize_once(
    caller: Seq<u8>,
    config: ProgramConfigV,
    registration_fee: u64,
    caller2: Seq<u8>,
    registration_fee2: u64,
)
    requires
        !config.is_initialized,
    ensures
        spec_initialize(caller, config, registration_fee) matches Ok(c) && {
            &&& c.owner == caller
            &&& c.pending_owner == spec_zero_address()
            &&& c.registration_fee == registration_fee
            &&& spec_initialize(caller2, c, registration_fee2) == Err::<
                ProgramConfigV,
                NameRegistryError,
            >(NameRegistryError::AlreadyInitialized)
        },
{
}

/// All record invariants at once, over a whole record context.
pub open spec fn wf_record_set(rs: RecordSetV) -> bool {
    &&& rs.name_record.wf()
    &&& rs.new_name_record.wf()
    &&& rs.address_record.wf()
    &&& rs.pending_record.wf()
    &&& rs.config.wf()
}

/// Every operation preserves the record invariants: run for a real 32-byte
/// caller against records that satisfy them, a successful operation leaves
/// records that satisfy them again. In particular an initialized name record
/// always holds a well-formed name and never resolves to the sentinel.
pub proof fn lemma_process_preserves_wf(
    caller: Seq<u8>,
    now: i64,
    instruction: NameRegistryInstruction,
    rs: RecordSetV,
)
    requires
        wf_record_set(rs),
        wf_instruction(instruction),
        caller.len() == 32,
        caller != spec_zero_address(),
    ensures
        spec_process(caller, now, instruction, rs) matches Ok(p)
            ==> wf_record_set(p.0),
{
    reveal(spec_process);
    match instruction {
        NameRegistryInstruction::RegisterName { name } => {
            if valid_name(name@) {
                lemma_valid_name_ascii(name@);
            }
        },
        NameRegistryInstruction::RenameName { new_name } => {
            if valid_name(new_name@) {
                lemma_valid_name_ascii(new_name@);
            }
        },
        _ => {},
    }
}

} // verus!
