//! The five operations of the program.
//!
//! `initialize` creates the counter record; the other four take an existing record
//! and produce a value for the caller. Each operation first holds the accounts it
//! was given to the roles it expects of them, and fails without any effect when
//! they do not fit.

use vstd::prelude::*;
use crate::account::{AccountInfo, AccountView, CpiReturnAccount};
use crate::error::ErrorCode;
use crate::pubkey::{id, spec_id, spec_system_program_id, system_program_id};
use crate::wire::{encode_u64, u64_layout};

verus! {

/// The counter of a record that was just created.
pub const INITIAL_VALUE: u64 = 10;

/// The scalar that `return_u64` produces.
pub const SCALAR: u64 = 30;

/// The field of the record that `return_struct` produces.
pub const RECORD_FIELD: u64 = 11;

/// The sequence that `return_vec` produces.
pub open spec fn sequence() -> Seq<i32> {
    seq![12i32, -46i32, 32i32, 87i32]
}

/// A result with one field.
#[derive(Clone, Copy, Debug, PartialEq, Eq, Structural)]
pub struct StructReturn {
    pub value: u64,
}

impl StructReturn {
    /// The bytes that carry this record to the caller: its field, and nothing else.
    pub open spec fn layout(self) -> Seq<u8> {
        u64_layout(self.value)
    }

    /// Encodes the record: always eight bytes.
    pub fn serialize(&self) -> (bytes: Vec<u8>)
        ensures
            bytes@ == self.layout(),
            bytes@.len() == 8,
    {
        encode_u64(self.value)
    }
}

/// The accounts of the four operations that read: the record.
#[derive(Debug, PartialEq, Eq)]
pub struct CpiReturn {
    pub account: AccountInfo,
}

/// What a `CpiReturn` holds, as a mathematical value.
pub struct CpiReturnView {
    pub account: AccountView,
}

impl View for CpiReturn {
    type V = CpiReturnView;

    open spec fn view(&self) -> CpiReturnView {
        CpiReturnView { account: self.account@ }
    }
}

/// The accounts of `initialize`: the record to create, the payer who funds its
/// storage, and the system program that allocates it.
#[derive(Debug, PartialEq, Eq)]
pub struct Initialize {
    pub account: AccountInfo,
    pub user: AccountInfo,
    pub system_program: AccountInfo,
}

/// What an `Initialize` holds, as a mathematical value.
pub struct InitializeView {
    pub account: AccountView,
    pub user: AccountView,
    pub system_program: AccountView,
}

impl View for Initialize {
    type V = InitializeView;

    open spec fn view(&self) -> InitializeView {
        InitializeView {
            account: self.account@,
            user: self.user@,
            system_program: self.system_program@,
        }
    }
}

/// What the payer hands over to an address that holds `balance`, so that the new
/// account holds `minimum_balance`, the balance that the host asks of an account of
/// this size. An address with no balance gets all of it; one that was funded
/// beforehand gets what it lacks.
pub open spec fn funding(balance: u64, minimum_balance: u64) -> u64 {
    if balance == 0 {
        minimum_balance
    } else if balance < minimum_balance {
        (minimum_balance - balance) as u64
    } else {
        0
    }
}

impl InitializeView {
    /// What the payer hands over to the new account.
    pub open spec fn funding(self, minimum_balance: u64) -> u64 {
        funding(self.account.lamports, minimum_balance)
    }

    /// The first reason, in this order, for which `initialize` refuses the
    /// accounts; `None` when it accepts them.
    pub open spec fn refusal(self, minimum_balance: u64) -> Option<ErrorCode> {
        if !self.user.is_signer {
            Some(ErrorCode::AccountNotSigner)
        } else if self.system_program.key != spec_system_program_id() {
            Some(ErrorCode::InvalidProgramId)
        } else if !self.system_program.executable {
            Some(ErrorCode::InvalidProgramExecutable)
        } else if self.user.key == self.account.key {
            Some(ErrorCode::TryingToInitPayerAsProgramAccount)
        } else if !self.account.is_signer {
            Some(ErrorCode::ConstraintSigner)
        } else if self.account.data.len() != 0 || self.account.owner != spec_system_program_id() {
            Some(ErrorCode::AccountAlreadyInUse)
        } else if self.user.lamports < self.funding(minimum_balance) {
            Some(ErrorCode::InsufficientFunds)
        } else if !self.account.is_writable || !self.user.is_writable {
            Some(ErrorCode::ConstraintMut)
        } else {
            None
        }
    }

    /// The accounts after `initialize` has accepted them: the payer has funded the
    /// new account, which now belongs to this program and stores a record whose
    /// counter is `INITIAL_VALUE`.
    pub open spec fn initialized(self, minimum_balance: u64) -> InitializeView {
        InitializeView {
            account: AccountView {
                owner: spec_id(),
                lamports: (self.account.lamports + self.funding(minimum_balance)) as u64,
                data: (CpiReturnAccount { value: INITIAL_VALUE }).layout(),
                ..self.account
            },
            user: AccountView {
                lamports: (self.user.lamports - self.funding(minimum_balance)) as u64,
                ..self.user
            },
            system_program: self.system_program,
        }
    }
}

/// Creates the counter record: allocates the account's storage at the payer's
/// cost, hands the account to this program and sets the counter to
/// `INITIAL_VALUE`. `minimum_balance` is the balance that the host asks of an
/// account of `SPACE` bytes.
///
/// The call fails, and changes nothing, when the payer did not sign or cannot fund
/// the allocation, when the account exists already, or when an account does not
/// fit its role.
pub fn initialize(ctx: &mut Initialize, minimum_balance: u64) -> (out: Result<(), ErrorCode>)
    ensures
        match old(ctx)@.refusal(minimum_balance) {
            Some(error) => out == Err::<(), ErrorCode>(error) && final(ctx)@ == old(ctx)@,
            None => out == Ok::<(), ErrorCode>(()) && final(ctx)@ == old(ctx)@.initialized(
                minimum_balance,
            ),
        },
{
    if !ctx.user.is_signer {
        return Err(ErrorCode::AccountNotSigner);
    }
    if !ctx.system_program.key.same(&system_program_id()) {
        return Err(ErrorCode::InvalidProgramId);
    }
    if !ctx.system_program.executable {
        return Err(ErrorCode::InvalidProgramExecutable);
    }
    if ctx.user.key.same(&ctx.account.key) {
        return Err(ErrorCode::TryingToInitPayerAsProgramAccount);
    }
    if !ctx.account.is_signer {
        return Err(ErrorCode::ConstraintSigner);
    }
    if ctx.account.data.len() != 0 || !ctx.account.owner.same(&system_program_id()) {
        return Err(ErrorCode::AccountAlreadyInUse);
    }
    let amount = funding_for(ctx.account.lamports, minimum_balance);
    if ctx.user.lamports < amount {
        return Err(ErrorCode::InsufficientFunds);
    }
    if !ctx.account.is_writable || !ctx.user.is_writable {
        return Err(ErrorCode::ConstraintMut);
    }
    let record = CpiReturnAccount { value: INITIAL_VALUE };
    ctx.user.lamports = ctx.user.lamports - amount;
    ctx.account.lamports = ctx.account.lamports + amount;
    ctx.account.owner = id();
    ctx.account.data = record.serialize();
    Ok(())
}

/// Computes what the payer hands over to an address that holds `balance`.
pub fn funding_for(balance: u64, minimum_balance: u64) -> (amount: u64)
    ensures
        amount == funding(balance, minimum_balance),
        balance + amount <= u64::MAX,
{
    if balance == 0 {
        minimum_balance
    } else if balance < minimum_balance {
        minimum_balance - balance
    } else {
        0
    }
}

/// Produces the scalar `SCALAR`, whatever the record's counter is. Fails when the
/// account holds no record.
pub fn return_u64(ctx: &CpiReturn) -> (out: Result<u64, ErrorCode>)
    ensures
        out == match ctx@.account.record() {
            Ok(_) => Ok::<u64, ErrorCode>(SCALAR),
            Err(error) => Err::<u64, ErrorCode>(error),
        },
{
    match ctx.account.load() {
        Ok(_) => Ok(SCALAR),
        Err(error) => Err(error),
    }
}

/// Produces a record whose field is `RECORD_FIELD`, whatever the stored counter
/// is. Fails when the account holds no record.
pub fn return_struct(ctx: &CpiReturn) -> (out: Result<StructReturn, ErrorCode>)
    ensures
        out == match ctx@.account.record() {
            Ok(_) => Ok::<StructReturn, ErrorCode>(StructReturn { value: RECORD_FIELD }),
            Err(error) => Err::<StructReturn, ErrorCode>(error),
        },
{
    match ctx.account.load() {
        Ok(_) => Ok(StructReturn { value: RECORD_FIELD }),
        Err(error) => Err(error),
    }
}

/// Produces the four numbers of `sequence()`, in that order, whatever the stored
/// counter is. Fails when the account holds no record.
pub fn return_vec(ctx: &CpiReturn) -> (out: Result<Vec<i32>, ErrorCode>)
    ensures
        match out {
            Ok(items) => ctx@.account.record() is Ok && items@ == sequence(),
            Err(error) => ctx@.account.record() == Err::<CpiReturnAccount, ErrorCode>(error),
        },
{
    match ctx.account.load() {
        Ok(_) => {
            let mut items: Vec<i32> = Vec::new();
            items.push(12);
            items.push(-46);
            items.push(32);
            items.push(87);
            assert(items@ =~= sequence());
            Ok(items)
        },
        Err(error) => Err(error),
    }
}

/// Produces the counter that the record stores. Fails when the account holds no
/// record: when it was never created, belongs to another program or stores
/// something else.
pub fn return_u64_from_account(ctx: &CpiReturn) -> (out: Result<u64, ErrorCode>)
    ensures
        out == match ctx@.account.record() {
            Ok(record) => Ok::<u64, ErrorCode>(record.value),
            Err(error) => Err::<u64, ErrorCode>(error),
        },
{
    match ctx.account.load() {
        Ok(record) => Ok(record.value),
        Err(error) => Err(error),
    }
}

} // verus!
