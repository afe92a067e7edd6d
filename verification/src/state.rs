//! The four record kinds that the registry persists, their mathematical
//! views, and the record store: each record's fixed byte layout with
//! verified packing and unpacking.

use vstd::prelude::*;
use vstd::string::*;
use vstd::utf8::is_ascii_chars;
use vstd::bytes::{
    spec_u32_to_le_bytes, spec_u32_from_le_bytes, spec_u64_to_le_bytes, spec_u64_from_le_bytes,
    u32_to_le_bytes, u32_from_le_bytes, u64_to_le_bytes, u64_from_le_bytes,
    lemma_auto_spec_u32_to_from_le_bytes, lemma_auto_spec_u64_to_from_le_bytes,
};
use crate::error::RecordError;
use crate::validation::MAX_NAME_LENGTH;

verus! {

/// A 32-byte account address. The all-zero value is the "no address"
/// sentinel throughout the registry.
#[derive(Clone, Debug, PartialEq, Eq)]
pub struct Address {
    pub bytes: Vec<u8>,
}

/// The sentinel address: 32 zero bytes.
pub open spec fn spec_zero_address() -> Seq<u8> {
    Seq::new(32, |i: int| 0u8)
}

impl View for Address {
    type V = Seq<u8>;

    open spec fn view(&self) -> Seq<u8> {
        self.bytes@
    }
}

impl Address {
    /// An address is well formed when it holds exactly 32 bytes.
    pub open spec fn wf(&self) -> bool {
        self@.len() == 32
    }

    /// The all-zero sentinel address.
    pub fn zero() -> (a: Address)
        ensures
            a@ == spec_zero_address(),
    {
        let mut bytes: Vec<u8> = Vec::new();
        let mut i: usize = 0;
        while i < 32
            invariant
                i <= 32,
                bytes@.len() == i,
                forall|j: int| 0 <= j < i ==> bytes@[j] == 0u8,
            decreases 32 - i,
        {
            bytes.push(0u8);
            i = i + 1;
        }
        proof {
            assert(bytes@ =~= spec_zero_address());
        }
        Address { bytes }
    }

    /// An exact copy of this address.
    pub fn dup(&self) -> (a: Address)
        ensures
            a@ == self@,
    {
        Address { bytes: copy_bytes(&self.bytes) }
    }

    /// Byte-for-byte equality of two addresses.
    pub fn eq_addr(&self, other: &Address) -> (r: bool)
        ensures
            r == (self@ == other@),
    {
        bytes_eq(&self.bytes, &other.bytes)
    }

    /// Whether this address is the all-zero sentinel.
    pub fn is_zero(&self) -> (r: bool)
        ensures
            r == (self@ == spec_zero_address()),
    {
        if self.bytes.len() != 32 {
            return false;
        }
        let mut i: usize = 0;
        while i < 32
            invariant
                i <= 32,
                self@.len() == 32,
                forall|j: int| 0 <= j < i ==> self@[j] == 0u8,
            decreases 32 - i,
        {
            if self.bytes[i] != 0 {
                return false;
            }
            i = i + 1;
        }
        proof {
            assert(self@ =~= spec_zero_address());
        }
        true
    }
}

/// An exact copy of a byte vector.
pub fn copy_bytes(src: &Vec<u8>) -> (out: Vec<u8>)
    ensures
        out@ == src@,
{
    let mut out: Vec<u8> = Vec::new();
    let mut i: usize = 0;
    while i < src.len()
        invariant
            i <= src@.len(),
            out@ == src@.subrange(0, i as int),
        decreases src@.len() - i,
    {
        out.push(src[i]);
        proof {
            assert(out@ =~= src@.subrange(0, i + 1));
        }
        i = i + 1;
    }
    proof {
        assert(out@ =~= src@);
    }
    out
}

/// Byte-for-byte equality of two byte vectors.
pub fn bytes_eq(a: &Vec<u8>, b: &Vec<u8>) -> (r: bool)
    ensures
        r == (a@ == b@),
{
    if a.len() != b.len() {
        return false;
    }
    let mut i: usize = 0;
    while i < a.len()
        invariant
            i <= a@.len(),
            a@.len() == b@.len(),
            forall|j: int| 0 <= j < i ==> a@[j] == b@[j],
        decreases a@.len() - i,
    {
        if a[i] != b[i] {
            return false;
        }
        i = i + 1;
    }
    proof {
        assert(a@ =~= b@);
    }
    true
}

/// The primary record: maps a name to its owner and resolved address.
#[derive(Clone, Debug, PartialEq, Eq)]
pub struct NameAccount {
    pub is_initialized: bool,
    pub owner: Address,
    pub name: String,
    pub address: Address,
    pub cooldown_until: i64,
}

/// Mathematical view of a [`NameAccount`].
#[verifier::ext_equal]
pub struct NameAccountV {
    pub is_initialized: bool,
    pub owner: Seq<u8>,
    pub name: Seq<char>,
    pub address: Seq<u8>,
    pub cooldown_until: i64,
}

impl View for NameAccount {
    type V = NameAccountV;

    open spec fn view(&self) -> NameAccountV {
        NameAccountV {
            is_initialized: self.is_initialized,
            owner: self.owner@,
            name: self.name@,
            address: self.address@,
            cooldown_until: self.cooldown_until,
        }
    }
}

impl NameAccountV {
    /// The value an untouched name record slot holds.
    pub open spec fn spec_default() -> NameAccountV {
        NameAccountV {
            is_initialized: false,
            owner: spec_zero_address(),
            name: Seq::<char>::empty(),
            address: spec_zero_address(),
            cooldown_until: 0,
        }
    }
}

impl NameAccount {
    pub fn is_initialized(&self) -> (b: bool)
        ensures
            b == self@.is_initialized,
    {
        self.is_initialized
    }
}

impl Default for NameAccount {
    fn default() -> (r: NameAccount)
        ensures
            r@ == NameAccountV::spec_default(),
    {
        let r = NameAccount {
            is_initialized: false,
            owner: Address::zero(),
            name: String::new(),
            address: Address::zero(),
            cooldown_until: 0,
        };
        proof {
            assert(r@ =~= NameAccountV::spec_default());
        }
        r
    }
}

/// The reverse record: which name an owner address currently holds.
#[derive(Clone, Debug, PartialEq, Eq)]
pub struct AddressAccount {
    pub is_initialized: bool,
    pub name: String,
}

/// Mathematical view of an [`AddressAccount`].
#[verifier::ext_equal]
pub struct AddressAccountV {
    pub is_initialized: bool,
    pub name: Seq<char>,
}

impl View for AddressAccount {
    type V = AddressAccountV;

    open spec fn view(&self) -> AddressAccountV {
        AddressAccountV { is_initialized: self.is_initialized, name: self.name@ }
    }
}

impl AddressAccountV {
    /// The value an untouched reverse record slot holds.
    pub open spec fn spec_default() -> AddressAccountV {
        AddressAccountV { is_initialized: false, name: Seq::<char>::empty() }
    }
}

impl AddressAccount {
    pub fn is_initialized(&self) -> (b: bool)
        ensures
            b == self@.is_initialized,
    {
        self.is_initialized
    }
}

impl Default for AddressAccount {
    fn default() -> (r: AddressAccount)
        ensures
            r@ == AddressAccountV::spec_default(),
    {
        let r = AddressAccount { is_initialized: false, name: String::new() };
        proof {
            assert(r@ =~= AddressAccountV::spec_default());
        }
        r
    }
}

/// The escrow record: an in-flight, not-yet-confirmed address rotation.
#[derive(Clone, Debug, PartialEq, Eq)]
pub struct PendingUpdateAccount {
    pub is_initialized: bool,
    pub new_address: Address,
}

/// Mathematical view of a [`PendingUpdateAccount`].
#[verifier::ext_equal]
pub struct PendingUpdateAccountV {
    pub is_initialized: bool,
    pub new_address: Seq<u8>,
}

impl View for PendingUpdateAccount {
    type V = PendingUpdateAccountV;

    open spec fn view(&self) -> PendingUpdateAccountV {
        PendingUpdateAccountV { is_initialized: self.is_initialized, new_address: self.new_address@ }
    }
}

impl PendingUpdateAccountV {
    /// The value an untouched escrow slot holds.
    pub open spec fn spec_default() -> PendingUpdateAccountV {
        PendingUpdateAccountV { is_initialized: false, new_address: spec_zero_address() }
    }
}

impl PendingUpdateAccount {
    pub fn is_initialized(&self) -> (b: bool)
        ensures
            b == self@.is_initialized,
    {
        self.is_initialized
    }
}

impl Default for PendingUpdateAccount {
    fn default() -> (r: PendingUpdateAccount)
        ensures
            r@ == PendingUpdateAccountV::spec_default(),
    {
        let r = PendingUpdateAccount { is_initialized: false, new_address: Address::zero() };
        proof {
            assert(r@ =~= PendingUpdateAccountV::spec_default());
        }
        r
    }
}

/// The singleton administration record: administrator, pending administrator
/// and the registration fee.
#[derive(Clone, Debug, PartialEq, Eq)]
pub struct ProgramConfig {
    pub is_initialized: bool,
    pub owner: Address,
    pub pending_owner: Address,
    pub registration_fee: u64,
}

/// Mathematical view of a [`ProgramConfig`].
#[verifier::ext_equal]
pub struct ProgramConfigV {
    pub is_initialized: bool,
    pub owner: Seq<u8>,
    pub pending_owner: Seq<u8>,
    pub registration_fee: u64,
}

impl View for ProgramConfig {
    type V = ProgramConfigV;

    open spec fn view(&self) -> ProgramConfigV {
        ProgramConfigV {
            is_initialized: self.is_initialized,
            owner: self.owner@,
            pending_owner: self.pending_owner@,
            registration_fee: self.registration_fee,
        }
    }
}

impl ProgramConfigV {
    /// The value an untouched config slot holds.
    pub open spec fn spec_default() -> ProgramConfigV {
        ProgramConfigV {
            is_initialized: false,
            owner: spec_zero_address(),
            pending_owner: spec_zero_address(),
            registration_fee: 0,
        }
    }
}

impl ProgramConfig {
    pub fn is_initialized(&self) -> (b: bool)
        ensures
            b == self@.is_initialized,
    {
        self.is_initialized
    }
}

impl Default for ProgramConfig {
    fn default() -> (r: ProgramConfig)
        ensures
            r@ == ProgramConfigV::spec_default(),
    {
        let r = ProgramConfig {
            is_initialized: false,
            owner: Address::zero(),
            pending_owner: Address::zero(),
            registration_fee: 0,
        };
        proof {
            assert(r@ =~= ProgramConfigV::spec_default());
        }
        r
    }
}

// ---------------------------------------------------------------------------
// The record store: each record kind's fixed byte layout, with verified
// packing and unpacking. Numeric fields are little-endian; a name is stored
// as a 4-byte length prefix and its ASCII bytes, with the unused tail of its
// 32-byte window left as trailing zero padding of the buffer.
// ---------------------------------------------------------------------------
/// Buffer size of a name record: flag, owner, name length, name window,
/// resolved address, cooldown stamp.
pub const NAME_ACCOUNT_LEN: usize = 109;

/// Buffer size of a reverse record: flag, name length, name window.
pub const ADDRESS_ACCOUNT_LEN: usize = 37;

/// Buffer size of an escrow record: flag, target address.
pub const PENDING_UPDATE_ACCOUNT_LEN: usize = 33;

/// Buffer size of the config record: flag, administrator, pending
/// administrator, registration fee.
pub const PROGRAM_CONFIG_LEN: usize = 73;

/// The byte a flag is stored as.
pub open spec fn spec_bool_byte(b: bool) -> u8 {
    if b {
        1u8
    } else {
        0u8
    }
}

/// `n` zero bytes.
pub open spec fn spec_zero_pad(n: int) -> Seq<u8> {
    Seq::new(n as nat, |i: int| 0u8)
}

/// The bytes an ASCII name is stored as, one byte per character.
pub open spec fn spec_name_bytes(s: Seq<char>) -> Seq<u8> {
    s.map_values(|c: char| c as u8)
}

/// The characters a stored ASCII name reads back as.
pub open spec fn spec_bytes_chars(b: Seq<u8>) -> Seq<char> {
    b.map_values(|x: u8| x as char)
}

/// Every byte is ASCII.
pub open spec fn ascii_bytes(b: Seq<u8>) -> bool {
    forall|i: int| 0 <= i < b.len() ==> b[i] < 128
}

/// Encoding and decoding names is lossless on ASCII character sequences.
pub proof fn lemma_chars_bytes_roundtrip(s: Seq<char>)
    requires
        is_ascii_chars(s),
    ensures
        ascii_bytes(spec_name_bytes(s)),
        spec_bytes_chars(spec_name_bytes(s)) =~= s,
{
    assert forall|i: int| 0 <= i < s.len() implies (spec_name_bytes(s)[i] < 128
        && spec_bytes_chars(spec_name_bytes(s))[i] == s[i]) by {
        assert('\0' <= s[i] <= '\u{7f}');
    }
}

/// Casting an `i64` through `u64` and back is the identity.
pub proof fn lemma_i64_u64_roundtrip(x: i64)
    ensures
        ((x as u64) as i64) == x,
{
    assert(((x as u64) as i64) == x) by (bit_vector);
}

/// Appends a copy of `src` to `dst`.
pub fn push_bytes(dst: &mut Vec<u8>, src: &Vec<u8>)
    ensures
        final(dst)@ == old(dst)@ + src@,
{
    let mut i: usize = 0;
    while i < src.len()
        invariant
            i <= src@.len(),
            dst@ == old(dst)@ + src@.subrange(0, i as int),
        decreases src@.len() - i,
    {
        dst.push(src[i]);
        proof {
            assert(dst@ =~= old(dst)@ + src@.subrange(0, i + 1));
        }
        i = i + 1;
    }
    proof {
        assert(old(dst)@ + src@.subrange(0, src@.len() as int) =~= old(dst)@ + src@);
    }
}

/// Appends `n` zero bytes to `dst`.
pub fn push_zeros(dst: &mut Vec<u8>, n: usize)
    ensures
        final(dst)@ == old(dst)@ + spec_zero_pad(n as int),
{
    let mut i: usize = 0;
    while i < n
        invariant
            i <= n,
            dst@ == old(dst)@ + spec_zero_pad(i as int),
        decreases n - i,
    {
        dst.push(0u8);
        proof {
            assert(dst@ =~= old(dst)@ + spec_zero_pad(i + 1));
        }
        i = i + 1;
    }
}

/// Copies `n` bytes of `src` starting at `offset`.
pub fn copy_range(src: &Vec<u8>, offset: usize, n: usize) -> (out: Vec<u8>)
    requires
        offset + n <= src@.len(),
    ensures
        out@ == src@.subrange(offset as int, offset as int + n as int),
{
    let srclen = src.len();
    let mut out: Vec<u8> = Vec::new();
    let mut i: usize = 0;
    while i < n
        invariant
            i <= n,
            offset + n <= src@.len(),
            src@.len() == srclen,
            out@ == src@.subrange(offset as int, offset as int + i as int),
        decreases n - i,
    {
        out.push(src[offset + i]);
        proof {
            assert(out@ =~= src@.subrange(offset as int, offset as int + i as int + 1));
        }
        i = i + 1;
    }
    out
}

/// Reads the little-endian `u32` stored at `offset`.
fn read_u32_le(src: &Vec<u8>, offset: usize) -> (x: u32)
    requires
        offset + 4 <= src@.len(),
    ensures
        x == spec_u32_from_le_bytes(src@.subrange(offset as int, offset as int + 4)),
{
    let s = copy_range(src, offset, 4);
    u32_from_le_bytes(s.as_slice())
}

/// Reads the little-endian `u64` stored at `offset`.
fn read_u64_le(src: &Vec<u8>, offset: usize) -> (x: u64)
    requires
        offset + 8 <= src@.len(),
    ensures
        x == spec_u64_from_le_bytes(src@.subrange(offset as int, offset as int + 8)),
{
    let s = copy_range(src, offset, 8);
    u64_from_le_bytes(s.as_slice())
}

/// Whether every byte of `v` is ASCII.
fn bytes_are_ascii(v: &Vec<u8>) -> (r: bool)
    ensures
        r == ascii_bytes(v@),
{
    let mut i: usize = 0;
    while i < v.len()
        invariant
            i <= v@.len(),
            forall|j: int| 0 <= j < i ==> v@[j] < 128,
        decreases v@.len() - i,
    {
        if v[i] >= 128 {
            return false;
        }
        i = i + 1;
    }
    true
}

/// Relies on `String::from_utf8`: a buffer of ASCII bytes decodes to the
/// string whose characters are exactly those bytes, one character per byte.
#[verifier::external_body]
fn ascii_to_string(bytes: &Vec<u8>) -> (r: String)
    requires
        ascii_bytes(bytes@),
    ensures
        r@ == spec_bytes_chars(bytes@),
{
    String::from_utf8(bytes.clone()).unwrap_or_default()
}

impl NameAccountV {
    /// The record fits its fixed layout: 32-byte addresses and an ASCII name
    /// of at most 32 characters.
    pub open spec fn storable(self) -> bool {
        &&& self.owner.len() == 32
        &&& self.address.len() == 32
        &&& self.name.len() <= MAX_NAME_LENGTH
        &&& is_ascii_chars(self.name)
    }

    /// The record's invariant: it fits its layout, and once initialized its
    /// name obeys the format rule and it resolves to a real address, never
    /// the sentinel.
    pub open spec fn wf(self) -> bool {
        &&& self.storable()
        &&& self.is_initialized ==> crate::validation::valid_name(self.name) && self.address
            != spec_zero_address()
    }
}

/// The bytes a name record is stored as.
pub open spec fn spec_pack_name_account(v: NameAccountV) -> Seq<u8>
    recommends
        v.storable(),
{
    seq![spec_bool_byte(v.is_initialized)] + v.owner + spec_u32_to_le_bytes(v.name.len() as u32)
        + spec_name_bytes(v.name) + v.address + spec_u64_to_le_bytes(v.cooldown_until as u64)
        + spec_zero_pad(MAX_NAME_LENGTH - v.name.len())
}

/// The name record a buffer decodes to, or `None` when the buffer is
/// malformed: wrong size, a flag byte that is not 0 or 1, a name length
/// over 32, or a non-ASCII name byte.
pub open spec fn spec_unpack_name_account(b: Seq<u8>) -> Option<NameAccountV> {
    if b.len() != NAME_ACCOUNT_LEN {
        None
    } else if b[0] != 0 && b[0] != 1 {
        None
    } else {
        let n = spec_u32_from_le_bytes(b.subrange(33, 37)) as int;
        if n > MAX_NAME_LENGTH {
            None
        } else if !ascii_bytes(b.subrange(37, 37 + n)) {
            None
        } else {
            Some(
                NameAccountV {
                    is_initialized: b[0] == 1,
                    owner: b.subrange(1, 33),
                    name: spec_bytes_chars(b.subrange(37, 37 + n)),
                    address: b.subrange(37 + n, 69 + n),
                    cooldown_until: spec_u64_from_le_bytes(b.subrange(69 + n, 77 + n)) as i64,
                },
            )
        }
    }
}

impl NameAccount {
    /// Writes this record over the whole buffer; fails with `MalformedRecord`,
    /// changing nothing, when the buffer size or the record does not fit the
    /// fixed layout.
    pub fn pack_into_slice(&self, dst: &mut Vec<u8>) -> (r: Result<(), RecordError>)
        ensures
            match r {
                Ok(()) => self@.storable() && old(dst)@.len() == NAME_ACCOUNT_LEN && final(dst)@
                    == spec_pack_name_account(self@),
                Err(e) => e == RecordError::MalformedRecord && *final(dst) == *old(dst) && !(
                self@.storable() && old(dst)@.len() == NAME_ACCOUNT_LEN),
            },
    {
        if dst.len() != NAME_ACCOUNT_LEN {
            return Err(RecordError::MalformedRecord);
        }
        let ns: &str = self.name.as_str();
        let name_len = ns.unicode_len();
        if name_len > MAX_NAME_LENGTH || !ns.is_ascii() || self.owner.bytes.len() != 32
            || self.address.bytes.len() != 32 {
            return Err(RecordError::MalformedRecord);
        }
        let mut out: Vec<u8> = Vec::new();
        out.push(if self.is_initialized { 1u8 } else { 0u8 });
        push_bytes(&mut out, &self.owner.bytes);
        let len_bytes = u32_to_le_bytes(name_len as u32);
        push_bytes(&mut out, &len_bytes);
        let name_bytes = ns.as_bytes_vec();
        push_bytes(&mut out, &name_bytes);
        push_bytes(&mut out, &self.address.bytes);
        let cooldown_bytes = u64_to_le_bytes(self.cooldown_until as u64);
        push_bytes(&mut out, &cooldown_bytes);
        push_zeros(&mut out, MAX_NAME_LENGTH - name_len);
        proof {
            broadcast use vstd::string::is_ascii_spec_bytes;

            assert(name_bytes@ =~= spec_name_bytes(self.name@));
            assert(out@ =~= spec_pack_name_account(self@));
        }
        *dst = out;
        Ok(())
    }

    /// Decodes a record from the buffer; fails with `MalformedRecord` exactly
    /// when the buffer does not fit the fixed layout.
    pub fn unpack_from_slice(src: &Vec<u8>) -> (r: Result<NameAccount, RecordError>)
        ensures
            match r {
                Ok(rec) => spec_unpack_name_account(src@) == Some(rec@) && rec@.storable(),
                Err(e) => e == RecordError::MalformedRecord && spec_unpack_name_account(src@)
                    is None,
            },
    {
        if src.len() != NAME_ACCOUNT_LEN {
            return Err(RecordError::MalformedRecord);
        }
        let flag = src[0];
        if flag > 1 {
            return Err(RecordError::MalformedRecord);
        }
        let name_len_u32 = read_u32_le(src, 33);
        if name_len_u32 > 32 {
            return Err(RecordError::MalformedRecord);
        }
        let name_len = name_len_u32 as usize;
        let name_bytes = copy_range(src, 37, name_len);
        if !bytes_are_ascii(&name_bytes) {
            return Err(RecordError::MalformedRecord);
        }
        let name = ascii_to_string(&name_bytes);
        let rec = NameAccount {
            is_initialized: flag == 1,
            owner: Address { bytes: copy_range(src, 1, 32) },
            name,
            address: Address { bytes: copy_range(src, 37 + name_len, 32) },
            cooldown_until: read_u64_le(src, 69 + name_len) as i64,
        };
        proof {
            let s = spec_unpack_name_account(src@);
            assert(s matches Some(v) && v =~= rec@);
        }
        Ok(rec)
    }
}

/// Packing a storable name record and unpacking it again yields the record.
pub proof fn lemma_name_account_roundtrip(v: NameAccountV)
    requires
        v.storable(),
    ensures
        spec_unpack_name_account(spec_pack_name_account(v)) == Some(v),
{
    lemma_auto_spec_u32_to_from_le_bytes();
    lemma_auto_spec_u64_to_from_le_bytes();
    lemma_chars_bytes_roundtrip(v.name);
    lemma_i64_u64_roundtrip(v.cooldown_until);
    let b = spec_pack_name_account(v);
    let n = v.name.len() as int;
    assert(b.len() == NAME_ACCOUNT_LEN);
    assert(b.subrange(33, 37) =~= spec_u32_to_le_bytes(v.name.len() as u32));
    assert(b.subrange(37, 37 + n) =~= spec_name_bytes(v.name));
    assert(b.subrange(1, 33) =~= v.owner);
    assert(b.subrange(37 + n, 69 + n) =~= v.address);
    assert(b.subrange(69 + n, 77 + n) =~= spec_u64_to_le_bytes(v.cooldown_until as u64));
    assert(spec_unpack_name_account(b) matches Some(w) && w =~= v);
}

impl AddressAccountV {
    /// The record fits its fixed layout: an ASCII name of at most 32
    /// characters.
    pub open spec fn storable(self) -> bool {
        self.name.len() <= MAX_NAME_LENGTH && is_ascii_chars(self.name)
    }

    /// The record's invariant: it fits its layout, and once initialized the
    /// name it points back to obeys the format rule.
    pub open spec fn wf(self) -> bool {
        self.storable() && (self.is_initialized ==> crate::validation::valid_name(self.name))
    }
}

/// The bytes a reverse record is stored as.
pub open spec fn spec_pack_address_account(v: AddressAccountV) -> Seq<u8>
    recommends
        v.storable(),
{
    seq![spec_bool_byte(v.is_initialized)] + spec_u32_to_le_bytes(v.name.len() as u32)
        + spec_name_bytes(v.name) + spec_zero_pad(MAX_NAME_LENGTH - v.name.len())
}

/// The reverse record a buffer decodes to, or `None` when it is malformed.
pub open spec fn spec_unpack_address_account(b: Seq<u8>) -> Option<AddressAccountV> {
    if b.len() != ADDRESS_ACCOUNT_LEN {
        None
    } else if b[0] != 0 && b[0] != 1 {
        None
    } else {
        let n = spec_u32_from_le_bytes(b.subrange(1, 5)) as int;
        if n > MAX_NAME_LENGTH {
            None
        } else if !ascii_bytes(b.subrange(5, 5 + n)) {
            None
        } else {
            Some(
                AddressAccountV {
                    is_initialized: b[0] == 1,
                    name: spec_bytes_chars(b.subrange(5, 5 + n)),
                },
            )
        }
    }
}

impl AddressAccount {
    /// Writes this record over the whole buffer; fails with `MalformedRecord`,
    /// changing nothing, when the buffer size or the record does not fit the
    /// fixed layout.
    pub fn pack_into_slice(&self, dst: &mut Vec<u8>) -> (r: Result<(), RecordError>)
        ensures
            match r {
                Ok(()) => self@.storable() && old(dst)@.len() == ADDRESS_ACCOUNT_LEN && final(dst)@ == spec_pack_address_account(self@),
                Err(e) => e == RecordError::MalformedRecord && *final(dst) == *old(dst) && !(
                self@.storable() && old(dst)@.len() == ADDRESS_ACCOUNT_LEN),
            },
    {
        if dst.len() != ADDRESS_ACCOUNT_LEN {
            return Err(RecordError::MalformedRecord);
        }
        let ns: &str = self.name.as_str();
        let name_len = ns.unicode_len();
        if name_len > MAX_NAME_LENGTH || !ns.is_ascii() {
            return Err(RecordError::MalformedRecord);
        }
        let mut out: Vec<u8> = Vec::new();
        out.push(if self.is_initialized { 1u8 } else { 0u8 });
        let len_bytes = u32_to_le_bytes(name_len as u32);
        push_bytes(&mut out, &len_bytes);
        let name_bytes = ns.as_bytes_vec();
        push_bytes(&mut out, &name_bytes);
        push_zeros(&mut out, MAX_NAME_LENGTH - name_len);
        proof {
            broadcast use vstd::string::is_ascii_spec_bytes;

            assert(name_bytes@ =~= spec_name_bytes(self.name@));
            assert(out@ =~= spec_pack_address_account(self@));
        }
        *dst = out;
        Ok(())
    }

    /// Decodes a record from the buffer; fails with `MalformedRecord` exactly
    /// when the buffer does not fit the fixed layout.
    pub fn unpack_from_slice(src: &Vec<u8>) -> (r: Result<AddressAccount, RecordError>)
        ensures
            match r {
                Ok(rec) => spec_unpack_address_account(src@) == Some(rec@) && rec@.storable(),
                Err(e) => e == RecordError::MalformedRecord && spec_unpack_address_account(src@)
                    is None,
            },
    {
        if src.len() != ADDRESS_ACCOUNT_LEN {
            return Err(RecordError::MalformedRecord);
        }
        let flag = src[0];
        if flag > 1 {
            return Err(RecordError::MalformedRecord);
        }
        let name_len_u32 = read_u32_le(src, 1);
        if name_len_u32 > 32 {
            return Err(RecordError::MalformedRecord);
        }
        let name_len = name_len_u32 as usize;
        let name_bytes = copy_range(src, 5, name_len);
        if !bytes_are_ascii(&name_bytes) {
            return Err(RecordError::MalformedRecord);
        }
        let name = ascii_to_string(&name_bytes);
        let rec = AddressAccount { is_initialized: flag == 1, name };
        proof {
            let s = spec_unpack_address_account(src@);
            assert(s matches Some(v) && v =~= rec@);
        }
        Ok(rec)
    }
}

/// Packing a storable reverse record and unpacking it again yields the record.
pub proof fn lemma_address_account_roundtrip(v: AddressAccountV)
    requires
        v.storable(),
    ensures
        spec_unpack_address_account(spec_pack_address_account(v)) == Some(v),
{
    lemma_auto_spec_u32_to_from_le_bytes();
    lemma_chars_bytes_roundtrip(v.name);
    let b = spec_pack_address_account(v);
    let n = v.name.len() as int;
    assert(b.len() == ADDRESS_ACCOUNT_LEN);
    assert(b.subrange(1, 5) =~= spec_u32_to_le_bytes(v.name.len() as u32));
    assert(b.subrange(5, 5 + n) =~= spec_name_bytes(v.name));
    assert(spec_unpack_address_account(b) matches Some(w) && w =~= v);
}

impl PendingUpdateAccountV {
    /// The record fits its fixed layout: a 32-byte target address.
    pub open spec fn storable(self) -> bool {
        self.new_address.len() == 32
    }

    /// The record's invariant: it fits its layout, and an open escrow never
    /// proposes the sentinel address.
    pub open spec fn wf(self) -> bool {
        self.storable() && (self.is_initialized ==> self.new_address != spec_zero_address())
    }
}

/// The bytes an escrow record is stored as.
pub open spec fn spec_pack_pending_update_account(v: PendingUpdateAccountV) -> Seq<u8>
    recommends
        v.storable(),
{
    seq![spec_bool_byte(v.is_initialized)] + v.new_address
}

/// The escrow record a buffer decodes to, or `None` when it is malformed.
pub open spec fn spec_unpack_pending_update_account(b: Seq<u8>) -> Option<PendingUpdateAccountV> {
    if b.len() != PENDING_UPDATE_ACCOUNT_LEN {
        None
    } else if b[0] != 0 && b[0] != 1 {
        None
    } else {
        Some(PendingUpdateAccountV { is_initialized: b[0] == 1, new_address: b.subrange(1, 33) })
    }
}

impl PendingUpdateAccount {
    /// Writes this record over the whole buffer; fails with `MalformedRecord`,
    /// changing nothing, when the buffer size or the record does not fit the
    /// fixed layout.
    pub fn pack_into_slice(&self, dst: &mut Vec<u8>) -> (r: Result<(), RecordError>)
        ensures
            match r {
                Ok(()) => self@.storable() && old(dst)@.len() == PENDING_UPDATE_ACCOUNT_LEN
                    && final(dst)@ == spec_pack_pending_update_account(self@),
                Err(e) => e == RecordError::MalformedRecord && *final(dst) == *old(dst) && !(
                self@.storable() && old(dst)@.len() == PENDING_UPDATE_ACCOUNT_LEN),
            },
    {
        if dst.len() != PENDING_UPDATE_ACCOUNT_LEN {
            return Err(RecordError::MalformedRecord);
        }
        if self.new_address.bytes.len() != 32 {
            return Err(RecordError::MalformedRecord);
        }
        let mut out: Vec<u8> = Vec::new();
        out.push(if self.is_initialized { 1u8 } else { 0u8 });
        push_bytes(&mut out, &self.new_address.bytes);
        proof {
            assert(out@ =~= spec_pack_pending_update_account(self@));
        }
        *dst = out;
        Ok(())
    }

    /// Decodes a record from the buffer; fails with `MalformedRecord` exactly
    /// when the buffer does not fit the fixed layout.
    pub fn unpack_from_slice(src: &Vec<u8>) -> (r: Result<PendingUpdateAccount, RecordError>)
        ensures
            match r {
                Ok(rec) => spec_unpack_pending_update_account(src@) == Some(rec@)
                    && rec@.storable(),
                Err(e) => e == RecordError::MalformedRecord && spec_unpack_pending_update_account(
                    src@,
                ) is None,
            },
    {
        if src.len() != PENDING_UPDATE_ACCOUNT_LEN {
            return Err(RecordError::MalformedRecord);
        }
        let flag = src[0];
        if flag > 1 {
            return Err(RecordError::MalformedRecord);
        }
        let rec = PendingUpdateAccount {
            is_initialized: flag == 1,
            new_address: Address { bytes: copy_range(src, 1, 32) },
        };
        proof {
            let s = spec_unpack_pending_update_account(src@);
            assert(s matches Some(v) && v =~= rec@);
        }
        Ok(rec)
    }
}

/// Packing a storable escrow record and unpacking it again yields the record.
pub proof fn lemma_pending_update_account_roundtrip(v: PendingUpdateAccountV)
    requires
        v.storable(),
    ensures
        spec_unpack_pending_update_account(spec_pack_pending_update_account(v)) == Some(v),
{
    let b = spec_pack_pending_update_account(v);
    assert(b.len() == PENDING_UPDATE_ACCOUNT_LEN);
    assert(b.subrange(1, 33) =~= v.new_address);
    assert(spec_unpack_pending_update_account(b) matches Some(w) && w =~= v);
}

impl ProgramConfigV {
    /// The record fits its fixed layout: 32-byte addresses.
    pub open spec fn storable(self) -> bool {
        self.owner.len() == 32 && self.pending_owner.len() == 32
    }

    /// The record's invariant: it fits its layout, and once initialized a
    /// real address administers the registry. The pending field may hold the
    /// sentinel, which stands for "no handoff in flight".
    pub open spec fn wf(self) -> bool {
        self.storable() && (self.is_initialized ==> self.owner != spec_zero_address())
    }
}

/// The bytes the config record is stored as.
pub open spec fn spec_pack_program_config(v: ProgramConfigV) -> Seq<u8>
    recommends
        v.storable(),
{
    seq![spec_bool_byte(v.is_initialized)] + v.owner + v.pending_owner + spec_u64_to_le_bytes(
        v.registration_fee,
    )
}

/// The config record a buffer decodes to, or `None` when it is malformed.
pub open spec fn spec_unpack_program_config(b: Seq<u8>) -> Option<ProgramConfigV> {
    if b.len() != PROGRAM_CONFIG_LEN {
        None
    } else if b[0] != 0 && b[0] != 1 {
        None
    } else {
        Some(
            ProgramConfigV {
                is_initialized: b[0] == 1,
                owner: b.subrange(1, 33),
                pending_owner: b.subrange(33, 65),
                registration_fee: spec_u64_from_le_bytes(b.subrange(65, 73)),
            },
        )
    }
}

impl ProgramConfig {
    /// Writes this record over the whole buffer; fails with `MalformedRecord`,
    /// changing nothing, when the buffer size or the record does not fit the
    /// fixed layout.
    pub fn pack_into_slice(&self, dst: &mut Vec<u8>) -> (r: Result<(), RecordError>)
        ensures
            match r {
                Ok(()) => self@.storable() && old(dst)@.len() == PROGRAM_CONFIG_LEN && final(dst)@ == spec_pack_program_config(self@),
                Err(e) => e == RecordError::MalformedRecord && *final(dst) == *old(dst) && !(
                self@.storable() && old(dst)@.len() == PROGRAM_CONFIG_LEN),
            },
    {
        if dst.len() != PROGRAM_CONFIG_LEN {
            return Err(RecordError::MalformedRecord);
        }
        if self.owner.bytes.len() != 32 || self.pending_owner.bytes.len() != 32 {
            return Err(RecordError::MalformedRecord);
        }
        let mut out: Vec<u8> = Vec::new();
        out.push(if self.is_initialized { 1u8 } else { 0u8 });
        push_bytes(&mut out, &self.owner.bytes);
        push_bytes(&mut out, &self.pending_owner.bytes);
        let fee_bytes = u64_to_le_bytes(self.registration_fee);
        push_bytes(&mut out, &fee_bytes);
        proof {
            assert(out@ =~= spec_pack_program_config(self@));
        }
        *dst = out;
        Ok(())
    }

    /// Decodes a record from the buffer; fails with `MalformedRecord` exactly
    /// when the buffer does not fit the fixed layout.
    pub fn unpack_from_slice(src: &Vec<u8>) -> (r: Result<ProgramConfig, RecordError>)
        ensures
            match r {
                Ok(rec) => spec_unpack_program_config(src@) == Some(rec@) && rec@.storable(),
                Err(e) => e == RecordError::MalformedRecord && spec_unpack_program_config(src@)
                    is None,
            },
    {
        if src.len() != PROGRAM_CONFIG_LEN {
            return Err(RecordError::MalformedRecord);
        }
        let flag = src[0];
        if flag > 1 {
            return Err(RecordError::MalformedRecord);
        }
        let rec = ProgramConfig {
            is_initialized: flag == 1,
            owner: Address { bytes: copy_range(src, 1, 32) },
            pending_owner: Address { bytes: copy_range(src, 33, 32) },
            registration_fee: read_u64_le(src, 65),
        };
        proof {
            let s = spec_unpack_program_config(src@);
            assert(s matches Some(v) && v =~= rec@);
        }
        Ok(rec)
    }
}

/// Packing a storable config record and unpacking it again yields the record.
pub proof fn lemma_program_config_roundtrip(v: ProgramConfigV)
    requires
        v.storable(),
    ensures
        spec_unpack_program_config(spec_pack_program_config(v)) == Some(v),
{
    lemma_auto_spec_u64_to_from_le_bytes();
    let b = spec_pack_program_config(v);
    assert(b.len() == PROGRAM_CONFIG_LEN);
    assert(b.subrange(1, 33) =~= v.owner);
    assert(b.subrange(33, 65) =~= v.pending_owner);
    assert(b.subrange(65, 73) =~= spec_u64_to_le_bytes(v.registration_fee));
    assert(spec_unpack_program_config(b) matches Some(w) && w =~= v);
}

} // verus!
