//! The entry point: from a call's identifier and accounts to the operation it
//! names, and from the operation's result to the bytes for the return channel.

use vstd::prelude::*;
use vstd::pervasive::unreached;
use crate::account::{AccountInfo, AccountView};
use crate::error::ErrorCode;
use crate::instructions::{initialize, return_struct, return_u64, return_u64_from_account};
use crate::instructions::{return_vec, sequence, CpiReturn, Initialize, InitializeView};
use crate::instructions::{StructReturn, RECORD_FIELD, SCALAR};
use crate::pubkey::{id, spec_id, Pubkey};
use crate::wire::{encode_i32_seq, encode_u64, i32_seq_layout, starts_with, u64_layout};

verus! {

/// The identifier of `initialize`.
pub const INITIALIZE: [u8; 8] = [175, 175, 109, 31, 13, 152, 155, 237];

/// The identifier of `return_u64`.
pub const RETURN_U64: [u8; 8] = [167, 200, 227, 13, 97, 69, 109, 118];

/// The identifier of `return_struct`.
pub const RETURN_STRUCT: [u8; 8] = [9, 102, 186, 167, 74, 33, 51, 214];

/// The identifier of `return_vec`.
pub const RETURN_VEC: [u8; 8] = [70, 181, 23, 25, 230, 66, 102, 217];

/// The identifier of `return_u64_from_account`.
pub const RETURN_U64_FROM_ACCOUNT: [u8; 8] = [244, 176, 91, 90, 244, 222, 227, 210];

/// The most bytes that the host's return channel takes from one call.
pub const MAX_RETURN_DATA: usize = 1024;

/// The operations that a caller can select.
#[derive(Clone, Copy, Debug, PartialEq, Eq, Structural)]
pub enum Instruction {
    Initialize,
    ReturnU64,
    ReturnStruct,
    ReturnVec,
    ReturnU64FromAccount,
}

impl Instruction {
    /// The eight bytes by which a caller selects this operation.
    pub open spec fn discriminator(self) -> Seq<u8> {
        match self {
            Instruction::Initialize => INITIALIZE@,
            Instruction::ReturnU64 => RETURN_U64@,
            Instruction::ReturnStruct => RETURN_STRUCT@,
            Instruction::ReturnVec => RETURN_VEC@,
            Instruction::ReturnU64FromAccount => RETURN_U64_FROM_ACCOUNT@,
        }
    }

    /// How many accounts the operation takes.
    pub open spec fn account_count(self) -> nat {
        match self {
            Instruction::Initialize => 3,
            _ => 1,
        }
    }

    /// The operation that the call data selects: the one whose identifier the data
    /// begins with. What follows the identifier is not looked at.
    pub open spec fn select(data: Seq<u8>) -> Option<Instruction> {
        if INITIALIZE@.is_prefix_of(data) {
            Some(Instruction::Initialize)
        } else if RETURN_U64@.is_prefix_of(data) {
            Some(Instruction::ReturnU64)
        } else if RETURN_STRUCT@.is_prefix_of(data) {
            Some(Instruction::ReturnStruct)
        } else if RETURN_VEC@.is_prefix_of(data) {
            Some(Instruction::ReturnVec)
        } else if RETURN_U64_FROM_ACCOUNT@.is_prefix_of(data) {
            Some(Instruction::ReturnU64FromAccount)
        } else {
            None
        }
    }

    /// Finds the operation that the call data selects.
    pub fn from_data(data: &[u8]) -> (out: Option<Instruction>)
        ensures
            out == Self::select(data@),
    {
        if starts_with(data, INITIALIZE.as_slice()) {
            Some(Instruction::Initialize)
        } else if starts_with(data, RETURN_U64.as_slice()) {
            Some(Instruction::ReturnU64)
        } else if starts_with(data, RETURN_STRUCT.as_slice()) {
            Some(Instruction::ReturnStruct)
        } else if starts_with(data, RETURN_VEC.as_slice()) {
            Some(Instruction::ReturnVec)
        } else if starts_with(data, RETURN_U64_FROM_ACCOUNT.as_slice()) {
            Some(Instruction::ReturnU64FromAccount)
        } else {
            None
        }
    }

    /// The call data that selects this operation and carries nothing else.
    pub fn data(self) -> (data: Vec<u8>)
        ensures
            data@ == self.discriminator(),
            Self::select(data@) == Some(self),
    {
        let bytes: [u8; 8] = match self {
            Instruction::Initialize => INITIALIZE,
            Instruction::ReturnU64 => RETURN_U64,
            Instruction::ReturnStruct => RETURN_STRUCT,
            Instruction::ReturnVec => RETURN_VEC,
            Instruction::ReturnU64FromAccount => RETURN_U64_FROM_ACCOUNT,
        };
        let mut data: Vec<u8> = Vec::new();
        let mut i: usize = 0;
        while i < 8
            invariant
                i <= 8,
                data@ == bytes@.subrange(0, i as int),
            decreases 8 - i,
        {
            data.push(bytes[i]);
            i += 1;
        }
        assert(data@ == bytes@);
        proof {
            self.lemma_select_discriminator(Seq::empty());
            assert(self.discriminator() + Seq::<u8>::empty() =~= self.discriminator());
        }
        data
    }

    /// Call data that begins with an operation's identifier selects that operation
    /// and no other: no two identifiers are the same.
    pub proof fn lemma_select_discriminator(self, tail: Seq<u8>)
        ensures
            Self::select(self.discriminator() + tail) == Some(self),
    {
        let data = self.discriminator() + tail;
        assert(data.subrange(0, 8) =~= self.discriminator());
        assert(INITIALIZE@[0] == 175 && RETURN_U64@[0] == 167 && RETURN_STRUCT@[0] == 9);
        assert(RETURN_VEC@[0] == 70 && RETURN_U64_FROM_ACCOUNT@[0] == 244);
        assert(data[0] == self.discriminator()[0]);
    }
}

/// A value that an operation produces for its caller, tagged with its shape.
#[derive(Debug, PartialEq, Eq)]
pub enum ReturnValue {
    /// An unsigned 64-bit scalar.
    Scalar(u64),
    /// A record with one field.
    Record(StructReturn),
    /// A sequence of signed 32-bit numbers.
    Sequence(Vec<i32>),
}

impl ReturnValue {
    /// The bytes that carry the value to the caller: a scalar and a record at
    /// their fixed width, a sequence behind its length.
    pub open spec fn layout(self) -> Seq<u8> {
        match self {
            ReturnValue::Scalar(value) => u64_layout(value),
            ReturnValue::Record(record) => record.layout(),
            ReturnValue::Sequence(items) => i32_seq_layout(items@),
        }
    }

    /// How many bytes `layout` takes.
    pub open spec fn layout_len(self) -> nat {
        match self {
            ReturnValue::Scalar(_) => 8,
            ReturnValue::Record(_) => 8,
            ReturnValue::Sequence(items) => 4 + 4 * items@.len(),
        }
    }

    /// Encodes the value for the return channel. A value is encoded exactly when
    /// its bytes fit in the channel; one that does not fit is not forwarded.
    pub fn encode(&self) -> (out: Option<Vec<u8>>)
        ensures
            match out {
                Some(bytes) => bytes@ == self.layout() && bytes@.len() == self.layout_len()
                    && bytes@.len() <= MAX_RETURN_DATA,
                None => self.layout_len() > MAX_RETURN_DATA,
            },
    {
        match self {
            ReturnValue::Scalar(value) => Some(encode_u64(*value)),
            ReturnValue::Record(record) => Some(record.serialize()),
            ReturnValue::Sequence(items) => {
                if items.len() > (MAX_RETURN_DATA - 4) / 4 {
                    return None;
                }
                encode_i32_seq(items)
            },
        }
    }
}

/// What a call leaves behind: the accounts as they are afterwards, and either the
/// bytes for the return channel (none for an operation without a result) or the
/// reason for which the call failed.
pub struct Outcome {
    pub accounts: Seq<AccountView>,
    pub result: Result<Option<Seq<u8>>, ErrorCode>,
}

/// The accounts of a call, each as a mathematical value.
pub open spec fn views(accounts: Seq<AccountInfo>) -> Seq<AccountView> {
    accounts.map_values(|account: AccountInfo| account@)
}

/// The bytes that a reading operation hands to the return channel when it is
/// given `account`, or the reason for which it fails.
pub open spec fn reply(instruction: Instruction, account: AccountView) -> Result<Seq<u8>, ErrorCode> {
    match account.record() {
        Err(error) => Err(error),
        Ok(record) => Ok(
            match instruction {
                Instruction::ReturnU64 => u64_layout(SCALAR),
                Instruction::ReturnStruct => (StructReturn { value: RECORD_FIELD }).layout(),
                Instruction::ReturnVec => i32_seq_layout(sequence()),
                _ => u64_layout(record.value),
            },
        ),
    }
}

/// What a call does, as a function of the accounts and the call data.
///
/// The data selects the operation; the first accounts of the list are taken in the
/// operation's roles and any further ones are left alone. `initialize` changes
/// the record's account and the payer and hands nothing back; the other
/// operations change nothing and hand back their encoded result. A call that
/// fails changes nothing.
pub open spec fn process(accounts: Seq<AccountView>, data: Seq<u8>, minimum_balance: u64) -> Outcome {
    match Instruction::select(data) {
        None => Outcome { accounts, result: Err(ErrorCode::InstructionFallbackNotFound) },
        Some(instruction) => if accounts.len() < instruction.account_count() {
            Outcome { accounts, result: Err(ErrorCode::AccountNotEnoughKeys) }
        } else if instruction == Instruction::Initialize {
            let ctx = InitializeView {
                account: accounts[0],
                user: accounts[1],
                system_program: accounts[2],
            };
            match ctx.refusal(minimum_balance) {
                Some(error) => Outcome { accounts, result: Err(error) },
                None => Outcome {
                    accounts: accounts.update(0, ctx.initialized(minimum_balance).account).update(
                        1,
                        ctx.initialized(minimum_balance).user,
                    ),
                    result: Ok(None),
                },
            }
        } else {
            match reply(instruction, accounts[0]) {
                Ok(bytes) => Outcome { accounts, result: Ok(Some(bytes)) },
                Err(error) => Outcome { accounts, result: Err(error) },
            }
        },
    }
}

/// Whether `out` is `expected`, byte for byte.
pub open spec fn is_result(
    out: Result<Option<Vec<u8>>, ErrorCode>,
    expected: Result<Option<Seq<u8>>, ErrorCode>,
) -> bool {
    match (out, expected) {
        (Ok(Some(bytes)), Ok(Some(layout))) => bytes@ == layout,
        (Ok(None), Ok(None)) => true,
        (Err(error), Err(reason)) => error == reason,
        _ => false,
    }
}

/// Runs the operation that `data` selects on `accounts`, and encodes what it
/// produces for the return channel. `minimum_balance` is the balance that the host
/// asks of an account of `SPACE` bytes.
pub fn dispatch(accounts: &mut Vec<AccountInfo>, data: &[u8], minimum_balance: u64) -> (out: Result<
    Option<Vec<u8>>,
    ErrorCode,
>)
    ensures
        views(final(accounts)@) == process(views(old(accounts)@), data@, minimum_balance).accounts,
        is_result(out, process(views(old(accounts)@), data@, minimum_balance).result),
        out matches Ok(Some(bytes)) ==> bytes@.len() <= MAX_RETURN_DATA,
{
    let instruction = match Instruction::from_data(data) {
        Some(instruction) => instruction,
        None => {
            return Err(ErrorCode::InstructionFallbackNotFound);
        },
    };
    let needed: usize = match instruction {
        Instruction::Initialize => 3,
        _ => 1,
    };
    if accounts.len() < needed {
        return Err(ErrorCode::AccountNotEnoughKeys);
    }
    if let Instruction::Initialize = instruction {
        let mut ctx = Initialize {
            account: accounts[0].duplicate(),
            user: accounts[1].duplicate(),
            system_program: accounts[2].duplicate(),
        };
        let ghost before = views(accounts@);
        let ghost after = ctx@.initialized(minimum_balance);
        match initialize(&mut ctx, minimum_balance) {
            Ok(()) => {
                let Initialize { account, user, system_program: _ } = ctx;
                accounts.set(0, account);
                accounts.set(1, user);
                assert(views(accounts@) =~= before.update(0, after.account).update(1, after.user));
                Ok(None)
            },
            Err(error) => Err(error),
        }
    } else {
        let ctx = CpiReturn { account: accounts[0].duplicate() };
        let value = match instruction {
            Instruction::ReturnU64 => match return_u64(&ctx) {
                Ok(value) => ReturnValue::Scalar(value),
                Err(error) => {
                    return Err(error);
                },
            },
            Instruction::ReturnStruct => match return_struct(&ctx) {
                Ok(record) => ReturnValue::Record(record),
                Err(error) => {
                    return Err(error);
                },
            },
            Instruction::ReturnVec => match return_vec(&ctx) {
                Ok(items) => ReturnValue::Sequence(items),
                Err(error) => {
                    return Err(error);
                },
            },
            _ => match return_u64_from_account(&ctx) {
                Ok(value) => ReturnValue::Scalar(value),
                Err(error) => {
                    return Err(error);
                },
            },
        };
        match value.encode() {
            Some(bytes) => Ok(Some(bytes)),
            None => unreached(),
        }
    }
}

/// What a call addressed to `program_id` does: `process`, if the address is this
/// program's; else nothing but a refusal.
pub open spec fn enter(
    program_id: Pubkey,
    accounts: Seq<AccountView>,
    data: Seq<u8>,
    minimum_balance: u64,
) -> Outcome {
    if program_id == spec_id() {
        process(accounts, data, minimum_balance)
    } else {
        Outcome { accounts, result: Err(ErrorCode::DeclaredProgramIdMismatch) }
    }
}

/// The program's entry point. A call that was addressed to another program is
/// refused; any other is dispatched.
pub fn entry(
    program_id: &Pubkey,
    accounts: &mut Vec<AccountInfo>,
    data: &[u8],
    minimum_balance: u64,
) -> (out: Result<Option<Vec<u8>>, ErrorCode>)
    ensures
        views(final(accounts)@) == enter(
            *program_id,
            views(old(accounts)@),
            data@,
            minimum_balance,
        ).accounts,
        is_result(out, enter(*program_id, views(old(accounts)@), data@, minimum_balance).result),
        out matches Ok(Some(bytes)) ==> bytes@.len() <= MAX_RETURN_DATA,
{
    if !program_id.same(&id()) {
        return Err(ErrorCode::DeclaredProgramIdMismatch);
    }
    dispatch(accounts, data, minimum_balance)
}

} // verus!
