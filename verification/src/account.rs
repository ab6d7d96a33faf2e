//! Account records and the type tag that leads their data.
//!
//! The data of an account that holds state begins with a tag of
//! [`TAG_LEN`] bytes that names the logical type of the record, followed by
//! the record's fields. An account that holds no state yet has no data at
//! all, or carries the all-zero tag.

use vstd::prelude::*;
use vstd::slice::slice_subrange;
use vstd::bytes::{spec_u64_from_le_bytes, spec_u64_to_le_bytes, u64_from_le_bytes, u64_to_le_bytes};
use crate::address::Address;

verus! {

/// Width in bytes of the type tag at the start of an account's data.
pub const TAG_LEN: usize = 8;

/// An account as the runtime hands it to an instruction.
#[derive(Clone, Debug, PartialEq, Eq)]
pub struct AccountRecord {
    pub address: Address,
    pub owner: Address,
    pub lamports: u64,
    pub data: Vec<u8>,
    pub is_signer: bool,
    pub is_writable: bool,
    pub is_executable: bool,
}

/// The mathematical content of an [`AccountRecord`].
pub ghost struct AccountView {
    pub address: Address,
    pub owner: Address,
    pub lamports: u64,
    pub data: Seq<u8>,
    pub is_signer: bool,
    pub is_writable: bool,
    pub is_executable: bool,
}

impl View for AccountRecord {
    type V = AccountView;

    open spec fn view(&self) -> AccountView {
        AccountView {
            address: self.address,
            owner: self.owner,
            lamports: self.lamports,
            data: self.data@,
            is_signer: self.is_signer,
            is_writable: self.is_writable,
            is_executable: self.is_executable,
        }
    }
}

/// The tag of an account that holds no state: all zero.
pub open spec fn empty_tag() -> Seq<u8> {
    Seq::new(8, |i: int| 0u8)
}

/// The tag that leads the data, where the data is long enough to hold one.
pub open spec fn stored_tag(data: Seq<u8>) -> Option<Seq<u8>> {
    if data.len() >= 8 {
        Some(data.take(8))
    } else {
        None
    }
}

/// The data holds no state: it is empty, or it carries the empty tag.
pub open spec fn is_blank(data: Seq<u8>) -> bool {
    data.len() == 0 || stored_tag(data) == Some(empty_tag())
}

/// The data is led by exactly the given tag.
pub open spec fn carries_tag(data: Seq<u8>, tag: Seq<u8>) -> bool {
    stored_tag(data) == Some(tag)
}

impl AccountRecord {
    /// Whether the account holds no state yet.
    pub fn is_uninitialized(&self) -> (blank: bool)
        ensures
            blank == is_blank(self@.data),
    {
        if self.data.len() == 0 {
            return true;
        }
        if self.data.len() < TAG_LEN {
            return false;
        }
        let mut i: usize = 0;
        while i < TAG_LEN
            invariant
                i <= TAG_LEN,
                self.data.len() >= TAG_LEN,
                forall|j: int| 0 <= j < i ==> self.data@[j] == 0,
            decreases TAG_LEN - i,
        {
            if self.data[i] != 0 {
                assert(self.data@.take(8)[i as int] != empty_tag()[i as int]);
                return false;
            }
            i = i + 1;
        }
        assert(self.data@.take(8) =~= empty_tag());
        true
    }

    /// Whether the account's data is led by `tag`.
    pub fn has_tag(&self, tag: &[u8; 8]) -> (same: bool)
        ensures
            same == carries_tag(self@.data, tag@),
    {
        if self.data.len() < TAG_LEN {
            return false;
        }
        let mut i: usize = 0;
        while i < TAG_LEN
            invariant
                i <= TAG_LEN,
                self.data.len() >= TAG_LEN,
                forall|j: int| 0 <= j < i ==> self.data@[j] == tag@[j],
            decreases TAG_LEN - i,
        {
            if self.data[i] != tag[i] {
                assert(self.data@.take(8)[i as int] != tag@[i as int]);
                return false;
            }
            i = i + 1;
        }
        assert(self.data@.take(8) =~= tag@);
        true
    }
}

/// No data carries two different tags.
pub proof fn law_one_tag_only(data: Seq<u8>, a: Seq<u8>, b: Seq<u8>)
    requires
        carries_tag(data, a),
        a != b,
    ensures
        !carries_tag(data, b),
{
}

/// Data led by a tag other than the empty one is not blank.
pub proof fn law_tagged_is_not_blank(data: Seq<u8>, tag: Seq<u8>)
    requires
        carries_tag(data, tag),
        tag != empty_tag(),
    ensures
        !is_blank(data),
{
}

/// The SHA-256 digest of the data.
pub uninterp spec fn sha256(data: Seq<u8>) -> Seq<u8>;

/// Calls `hash::hash` of the ledger's SDK, which returns the SHA-256 digest
/// of the data: 32 bytes that depend on the data alone, named [`sha256`].
#[verifier::external_body]
fn sha256_digest(data: &Vec<u8>) -> (digest: [u8; 32])
    ensures
        digest@ == sha256(data@),
{
    anchor_lang::solana_program::hash::hash(data.as_slice()).to_bytes()
}

/// What is hashed for the tag of the logical type `name`: the namespace
/// `account:` and the name.
pub open spec fn tag_preimage(name: Seq<u8>) -> Seq<u8> {
    seq![97u8, 99u8, 99u8, 111u8, 117u8, 110u8, 116u8, 58u8] + name
}

/// The tag of the logical type `name`: the first [`TAG_LEN`] bytes of the
/// digest of its preimage.
pub open spec fn type_tag_spec(name: Seq<u8>) -> Seq<u8> {
    sha256(tag_preimage(name)).take(8)
}

/// The tag that a digest yields: its first [`TAG_LEN`] bytes.
pub fn leading_tag(digest: &[u8; 32]) -> (tag: [u8; 8])
    ensures
        tag@ == digest@.take(8),
{
    let mut tag = [0u8; 8];
    let mut i: usize = 0;
    while i < TAG_LEN
        invariant
            i <= TAG_LEN,
            forall|j: int| 0 <= j < i ==> tag@[j] == digest@[j],
        decreases TAG_LEN - i,
    {
        tag[i] = digest[i];
        i = i + 1;
    }
    assert(tag@ =~= digest@.take(8));
    tag
}

/// The tag under which records of the logical type `name` are stored.
pub fn type_tag(name: &[u8]) -> (tag: [u8; 8])
    ensures
        tag@ == type_tag_spec(name@),
{
    let mut preimage: Vec<u8> = Vec::new();
    preimage.push(97);
    preimage.push(99);
    preimage.push(99);
    preimage.push(111);
    preimage.push(117);
    preimage.push(110);
    preimage.push(116);
    preimage.push(58);
    let mut i: usize = 0;
    while i < name.len()
        invariant
            i <= name.len(),
            preimage@ == tag_preimage(name@.take(i as int)),
        decreases name.len() - i,
    {
        preimage.push(name[i]);
        assert(name@.take(i + 1) =~= name@.take(i as int).push(name@[i as int]));
        i = i + 1;
    }
    assert(name@.take(name@.len() as int) =~= name@);
    let digest = sha256_digest(&preimage);
    leading_tag(&digest)
}

/// The tag of [`State`] records: that of the type name `State`.
pub const STATE_TAG: [u8; 8] = [216, 146, 107, 94, 104, 75, 182, 177];

/// Length in bytes of a stored [`State`]: the tag and the counter.
pub const STATE_LEN: usize = 16;

/// The state record of the vault programs: a counter.
#[derive(Clone, Copy, Debug, PartialEq, Eq)]
pub struct State {
    pub count: u64,
}

impl State {
    /// The stored form: the tag, then the counter in little-endian order.
    pub open spec fn encoding(self) -> Seq<u8> {
        STATE_TAG@ + spec_u64_to_le_bytes(self.count)
    }

    /// The record that the data holds. The tag is checked before anything
    /// else is read; bytes after the counter are ignored.
    pub open spec fn decoding(data: Seq<u8>) -> Option<State> {
        if data.len() >= 16 && carries_tag(data, STATE_TAG@) {
            Some(State { count: spec_u64_from_le_bytes(data.subrange(8, 16)) })
        } else {
            None
        }
    }

    /// Serializes the record.
    pub fn to_bytes(&self) -> (bytes: Vec<u8>)
        ensures
            bytes@ == self.encoding(),
    {
        let mut bytes: Vec<u8> = Vec::new();
        let mut i: usize = 0;
        while i < TAG_LEN
            invariant
                i <= TAG_LEN,
                bytes@ == STATE_TAG@.take(i as int),
            decreases TAG_LEN - i,
        {
            bytes.push(STATE_TAG[i]);
            i = i + 1;
        }
        assert(bytes@ == STATE_TAG@);
        let mut count = u64_to_le_bytes(self.count);
        bytes.append(&mut count);
        bytes
    }

    /// Reads a record from account data.
    pub fn from_bytes(data: &[u8]) -> (state: Option<State>)
        ensures
            state == Self::decoding(data@),
    {
        if data.len() < STATE_LEN {
            return None;
        }
        let mut i: usize = 0;
        while i < TAG_LEN
            invariant
                i <= TAG_LEN,
                data.len() >= STATE_LEN,
                forall|j: int| 0 <= j < i ==> data@[j] == STATE_TAG@[j],
            decreases TAG_LEN - i,
        {
            if data[i] != STATE_TAG[i] {
                assert(data@.take(8)[i as int] != STATE_TAG@[i as int]);
                return None;
            }
            i = i + 1;
        }
        assert(data@.take(8) =~= STATE_TAG@);
        let count = u64_from_le_bytes(slice_subrange(data, TAG_LEN, STATE_LEN));
        Some(State { count })
    }

    /// Writes the record into the account's data, replacing what was there.
    pub fn store(&self, record: &mut AccountRecord)
        ensures
            final(record)@ == (AccountView { data: self.encoding(), ..old(record)@ }),
    {
        record.data = self.to_bytes();
    }

    /// Makes the account the state account of `program`: the program owns
    /// it and its data is the stored record. Address, balance and flags stay
    /// as they are.
    pub fn install(&self, record: &mut AccountRecord, program: &Address)
        ensures
            final(record)@ == (AccountView {
                owner: *program,
                data: self.encoding(),
                ..old(record)@
            }),
    {
        record.owner = *program;
        record.data = self.to_bytes();
    }
}

/// A stored state record reads back as what was stored.
pub proof fn law_state_round_trip(state: State)
    ensures
        State::decoding(state.encoding()) == Some(state),
{
    vstd::bytes::lemma_auto_spec_u64_to_from_le_bytes();
    let data = state.encoding();
    assert(spec_u64_to_le_bytes(state.count).len() == 8);
    assert(data.take(8) =~= STATE_TAG@);
    assert(data.subrange(8, 16) =~= spec_u64_to_le_bytes(state.count));
}

/// A stored state record takes [`STATE_LEN`] bytes and is led by the state
/// tag, and an account that holds it is no longer blank.
pub proof fn law_stored_state_is_not_blank(state: State)
    ensures
        state.encoding().len() == STATE_LEN,
        !is_blank(state.encoding()),
        carries_tag(state.encoding(), STATE_TAG@),
{
    let data = state.encoding();
    vstd::bytes::lemma_auto_spec_u64_to_from_le_bytes();
    assert(spec_u64_to_le_bytes(state.count).len() == 8);
    assert(data.take(8) =~= STATE_TAG@);
    assert(STATE_TAG@[0] == 216);
    assert(empty_tag()[0] == 0);
}

} // verus!
