//! The account store: the one persisted record and the accounts that hold it.
//!
//! A record occupies sixteen bytes of an account: an eight-byte header that tells
//! the record type, then the counter in eight bytes. The size is fixed when the
//! account is created and never changes.

use vstd::prelude::*;
use vstd::slice::slice_subrange;
use crate::error::ErrorCode;
use crate::pubkey::{id, spec_id, spec_system_program_id, system_program_id, Pubkey};
use crate::wire::{decode_u64, encode_u64, le_value, starts_with, u64_layout};
use crate::wire::{lemma_le_bytes_len, lemma_u64_layout_round_trip};

verus! {

/// The header that marks an account's data as a counter record.
pub const DISCRIMINATOR: [u8; 8] = [40, 211, 202, 62, 107, 136, 143, 189];

/// The size of the header, in bytes.
pub const DISCRIMINATOR_LEN: usize = 8;

/// The size of a counter record's storage, in bytes: header and payload.
pub const SPACE: usize = 16;

/// The persisted record: one unsigned counter.
#[derive(Clone, Copy, Debug, PartialEq, Eq, Structural)]
pub struct CpiReturnAccount {
    pub value: u64,
}

impl CpiReturnAccount {
    /// The bytes that store this record: the header, then the counter.
    pub open spec fn layout(self) -> Seq<u8> {
        DISCRIMINATOR@ + u64_layout(self.value)
    }

    /// The record that `data` stores, or the reason why it stores none. Bytes after
    /// the sixteenth are not part of the record.
    pub open spec fn parse(data: Seq<u8>) -> Result<CpiReturnAccount, ErrorCode> {
        if data.len() < 8 {
            Err(ErrorCode::AccountDiscriminatorNotFound)
        } else if data.subrange(0, 8) != DISCRIMINATOR@ {
            Err(ErrorCode::AccountDiscriminatorMismatch)
        } else if data.len() < 16 {
            Err(ErrorCode::AccountDidNotDeserialize)
        } else {
            Ok(CpiReturnAccount { value: le_value(data.subrange(8, 16)) as u64 })
        }
    }

    /// Writes the record down: always sixteen bytes.
    pub fn serialize(&self) -> (bytes: Vec<u8>)
        ensures
            bytes@ == self.layout(),
            bytes@.len() == SPACE,
    {
        let mut bytes: Vec<u8> = Vec::new();
        let mut i: usize = 0;
        while i < 8
            invariant
                i <= 8,
                bytes@ == DISCRIMINATOR@.subrange(0, i as int),
            decreases 8 - i,
        {
            bytes.push(DISCRIMINATOR[i]);
            i += 1;
        }
        assert(bytes@ == DISCRIMINATOR@);
        let mut payload = encode_u64(self.value);
        bytes.append(&mut payload);
        bytes
    }

    /// Reads a record from an account's data.
    pub fn deserialize(data: &[u8]) -> (out: Result<CpiReturnAccount, ErrorCode>)
        ensures
            out == Self::parse(data@),
    {
        if data.len() < DISCRIMINATOR_LEN {
            return Err(ErrorCode::AccountDiscriminatorNotFound);
        }
        if !starts_with(data, DISCRIMINATOR.as_slice()) {
            return Err(ErrorCode::AccountDiscriminatorMismatch);
        }
        let payload = slice_subrange(data, DISCRIMINATOR_LEN, data.len());
        match decode_u64(payload) {
            Some(value) => {
                proof {
                    assert(payload@.subrange(0, 8) =~= data@.subrange(8, 16));
                    lemma_u64_layout_round_trip(value, payload@);
                }
                Ok(CpiReturnAccount { value })
            },
            None => Err(ErrorCode::AccountDidNotDeserialize),
        }
    }

    /// What `serialize` writes, `deserialize` reads back as the same record,
    /// whatever bytes follow it.
    pub proof fn lemma_parse_layout(self, tail: Seq<u8>)
        ensures
            Self::parse(self.layout() + tail) == Ok::<CpiReturnAccount, ErrorCode>(self),
    {
        let data = self.layout() + tail;
        lemma_le_bytes_len(self.value as nat, 8);
        assert(data.subrange(0, 8) =~= DISCRIMINATOR@);
        assert(data.subrange(8, 16) =~= u64_layout(self.value));
        assert(u64_layout(self.value).subrange(0, 8) =~= u64_layout(self.value));
        lemma_u64_layout_round_trip(self.value, u64_layout(self.value));
    }
}

/// An account as the host hands it to the program: its address, the program that
/// owns it, its balance, its data, and the rights that the caller granted on it.
#[derive(Debug, PartialEq, Eq)]
pub struct AccountInfo {
    pub key: Pubkey,
    pub owner: Pubkey,
    pub lamports: u64,
    pub data: Vec<u8>,
    pub is_signer: bool,
    pub is_writable: bool,
    pub executable: bool,
}

/// What an `AccountInfo` holds, as a mathematical value.
pub struct AccountView {
    pub key: Pubkey,
    pub owner: Pubkey,
    pub lamports: u64,
    pub data: Seq<u8>,
    pub is_signer: bool,
    pub is_writable: bool,
    pub executable: bool,
}

impl View for AccountInfo {
    type V = AccountView;

    open spec fn view(&self) -> AccountView {
        AccountView {
            key: self.key,
            owner: self.owner,
            lamports: self.lamports,
            data: self.data@,
            is_signer: self.is_signer,
            is_writable: self.is_writable,
            executable: self.executable,
        }
    }
}

impl AccountView {
    /// An address that nobody has put anything at: no balance, no data, and still
    /// in the hands of the system program.
    pub open spec fn is_vacant(self) -> bool {
        self.owner == spec_system_program_id() && self.lamports == 0 && self.data.len() == 0
    }

    /// The counter record that the account holds, or the reason why it holds none.
    pub open spec fn record(self) -> Result<CpiReturnAccount, ErrorCode> {
        if self.owner == spec_system_program_id() && self.lamports == 0 {
            Err(ErrorCode::AccountNotInitialized)
        } else if self.owner != spec_id() {
            Err(ErrorCode::AccountOwnedByWrongProgram)
        } else {
            CpiReturnAccount::parse(self.data)
        }
    }
}

impl AccountInfo {
    /// Reads the counter record that the account holds. An account that was never
    /// created, one of another program and one with other data hold none.
    pub fn load(&self) -> (out: Result<CpiReturnAccount, ErrorCode>)
        ensures
            out == self@.record(),
    {
        if self.owner.same(&system_program_id()) && self.lamports == 0 {
            return Err(ErrorCode::AccountNotInitialized);
        }
        if !self.owner.same(&id()) {
            return Err(ErrorCode::AccountOwnedByWrongProgram);
        }
        CpiReturnAccount::deserialize(self.data.as_slice())
    }

    /// A second value that holds the same as this one.
    pub fn duplicate(&self) -> (copy: AccountInfo)
        ensures
            copy@ == self@,
    {
        let mut data: Vec<u8> = Vec::new();
        let mut i: usize = 0;
        while i < self.data.len()
            invariant
                i <= self.data@.len(),
                data@ == self.data@.subrange(0, i as int),
            decreases self.data@.len() - i,
        {
            data.push(self.data[i]);
            i += 1;
        }
        assert(data@ == self.data@);
        AccountInfo {
            key: self.key,
            owner: self.owner,
            lamports: self.lamports,
            data,
            is_signer: self.is_signer,
            is_writable: self.is_writable,
            executable: self.executable,
        }
    }
}

} // verus!
