//! Pure predicate functions: name format, non-default address,
//! owner equality, administrator equality and the cooldown gate.

use vstd::prelude::*;
use vstd::string::*;
use crate::error::NameRegistryError;
use crate::state::{Address, spec_zero_address};

verus! {

/// The longest name the registry accepts, in characters.
pub const MAX_NAME_LENGTH: usize = 32;

/// The cooldown window stamped after an ownership-affecting mutation, in seconds.
pub const COOLDOWN_SECONDS: i64 = 86400;

/// A character a registered name may hold: ASCII alphanumeric or `-`.
pub open spec fn is_name_char(c: char) -> bool {
    ||| c == '-'
    ||| '0' <= c && c <= '9'
    ||| 'A' <= c && c <= 'Z'
    ||| 'a' <= c && c <= 'z'
}

/// A well-formed name: between 1 and 32 characters, every one of them
/// ASCII alphanumeric or `-`.
pub open spec fn valid_name(s: Seq<char>) -> bool {
    &&& 1 <= s.len()
    &&& s.len() <= MAX_NAME_LENGTH
    &&& forall|i: int| 0 <= i < s.len() ==> is_name_char(s[i])
}

/// A well-formed name is ASCII and fits the 32-character window of the
/// record layouts.
pub proof fn lemma_valid_name_ascii(s: Seq<char>)
    requires
        valid_name(s),
    ensures
        s.len() <= MAX_NAME_LENGTH,
        vstd::utf8::is_ascii_chars(s),
{
    assert forall|i: int| 0 <= i < s.len() implies '\0' <= #[trigger] s[i] <= '\u{7f}' by {
        assert(is_name_char(s[i]));
    }
}

/// Checks the name format rule; fails with `InvalidNameFormat` on an empty
/// name, a name over 32 characters, or any character that is not ASCII
/// alphanumeric or `-`.
pub fn validate_name(name: &str) -> (r: Result<(), NameRegistryError>)
    ensures
        match r {
            Ok(()) => valid_name(name@),
            Err(e) => !valid_name(name@) && e == NameRegistryError::InvalidNameFormat,
        },
{
    let len = name.unicode_len();
    if len == 0 || len > MAX_NAME_LENGTH {
        return Err(NameRegistryError::InvalidNameFormat);
    }
    let mut i: usize = 0;
    while i < len
        invariant
            i <= len,
            len == name@.len(),
            1 <= len <= MAX_NAME_LENGTH,
            forall|j: int| 0 <= j < i ==> is_name_char(name@[j]),
        decreases len - i,
    {
        let c = name.get_char(i);
        let u = c as u32;
        let ok = u == 45 || (48 <= u && u <= 57) || (65 <= u && u <= 90) || (97 <= u && u
            <= 122);
        if !ok {
            proof {
                assert(!is_name_char(name@[i as int]));
            }
            return Err(NameRegistryError::InvalidNameFormat);
        }
        proof {
            assert(is_name_char(name@[i as int]));
        }
        i = i + 1;
    }
    Ok(())
}

/// Rejects the all-zero sentinel address with `InvalidAddress`.
pub fn validate_address(address: &Address) -> (r: Result<(), NameRegistryError>)
    ensures
        match r {
            Ok(()) => address@ != spec_zero_address(),
            Err(e) => address@ == spec_zero_address() && e == NameRegistryError::InvalidAddress,
        },
{
    if address.is_zero() {
        Err(NameRegistryError::InvalidAddress)
    } else {
        Ok(())
    }
}

/// The cooldown gate: passes when the current time has reached the record's
/// stamp; the boundary itself (`now == cooldown_until`) passes.
pub fn validate_cooldown(cooldown_until: i64, now: i64) -> (r: Result<(), NameRegistryError>)
    ensures
        match r {
            Ok(()) => now >= cooldown_until,
            Err(e) => now < cooldown_until && e == NameRegistryError::CooldownNotOver,
        },
{
    if now < cooldown_until {
        Err(NameRegistryError::CooldownNotOver)
    } else {
        Ok(())
    }
}

/// The stamp of a cooldown window opened now: one full day after the given
/// time, saturating at the end of representable time.
pub open spec fn spec_cooldown_until(now: i64) -> i64 {
    if now <= i64::MAX - COOLDOWN_SECONDS {
        (now + COOLDOWN_SECONDS) as i64
    } else {
        i64::MAX
    }
}

/// The stamp a record carries for a cooldown window opened now: one full day
/// after the given time. A time within a day of the end of representable
/// time saturates instead of overflowing.
pub fn get_cooldown_until(now: i64) -> (r: i64)
    ensures
        r == spec_cooldown_until(now),
{
    if now <= i64::MAX - COOLDOWN_SECONDS {
        now + COOLDOWN_SECONDS
    } else {
        i64::MAX
    }
}

/// Checks that the signer is the record's owner; fails with `NotNameOwner`.
pub fn validate_owner(owner: &Address, signer: &Address) -> (r: Result<(), NameRegistryError>)
    ensures
        match r {
            Ok(()) => owner@ == signer@,
            Err(e) => owner@ != signer@ && e == NameRegistryError::NotNameOwner,
        },
{
    if owner.eq_addr(signer) {
        Ok(())
    } else {
        Err(NameRegistryError::NotNameOwner)
    }
}

/// Checks that the signer is the configured administrator; fails with
/// `NotContractOwner`.
pub fn validate_program_owner(owner: &Address, signer: &Address) -> (r: Result<
    (),
    NameRegistryError,
>)
    ensures
        match r {
            Ok(()) => owner@ == signer@,
            Err(e) => owner@ != signer@ && e == NameRegistryError::NotContractOwner,
        },
{
    if owner.eq_addr(signer) {
        Ok(())
    } else {
        Err(NameRegistryError::NotContractOwner)
    }
}

} // verus!
