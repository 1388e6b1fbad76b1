//! What holds of the operations taken together.

use vstd::prelude::*;
use crate::account::{AccountView, CpiReturnAccount};
use crate::dispatch::{process, reply, Instruction};
use crate::error::ErrorCode;
use crate::instructions::{sequence, InitializeView, StructReturn, INITIAL_VALUE, RECORD_FIELD, SCALAR};
use crate::pubkey::{lemma_id_is_not_system_program, spec_system_program_id};
use crate::wire::{i32_seq_layout, lemma_le_bytes_len, u64_layout};

verus! {

/// `initialize` accepts a vacant address whenever the accounts are in their roles:
/// the payer signed, is writable, is another account and holds the balance that
/// the host asks for; the new account signed and is writable; and the system
/// program is the one that was given.
pub proof fn lemma_initialize_accepts_vacant_account(ctx: InitializeView, minimum_balance: u64)
    requires
        ctx.account.is_vacant(),
        ctx.account.is_signer && ctx.account.is_writable,
        ctx.user.is_signer && ctx.user.is_writable,
        ctx.user.key != ctx.account.key,
        ctx.user.lamports >= minimum_balance,
        ctx.system_program.key == spec_system_program_id() && ctx.system_program.executable,
    ensures
        ctx.refusal(minimum_balance) is None,
{
}

/// After `initialize` has accepted the accounts, the new account holds a record
/// whose counter is `INITIAL_VALUE`, in storage of exactly sixteen bytes.
pub proof fn lemma_initialize_sets_counter(ctx: InitializeView, minimum_balance: u64)
    requires
        ctx.refusal(minimum_balance) is None,
    ensures
        ctx.initialized(minimum_balance).account.record() == Ok::<CpiReturnAccount, ErrorCode>(
            CpiReturnAccount { value: INITIAL_VALUE },
        ),
        ctx.initialized(minimum_balance).account.data.len() == 16,
{
    let record = CpiReturnAccount { value: INITIAL_VALUE };
    lemma_id_is_not_system_program();
    record.lemma_parse_layout(Seq::empty());
    assert(record.layout() + Seq::<u8>::empty() =~= record.layout());
    lemma_le_bytes_len(INITIAL_VALUE as nat, 8);
}

/// An account that `initialize` has created cannot be created again: a second
/// `initialize` on it fails, whoever pays and in whatever rights the account is
/// passed.
pub proof fn lemma_initialize_twice_fails(
    first: InitializeView,
    first_balance: u64,
    second: InitializeView,
    second_balance: u64,
)
    requires
        first.refusal(first_balance) is None,
        second.account.owner == first.initialized(first_balance).account.owner,
        second.account.data == first.initialized(first_balance).account.data,
    ensures
        second.refusal(second_balance) is Some,
{
    lemma_id_is_not_system_program();
}

/// The counter that `return_u64_from_account` hands back after `initialize` is
/// the one that `initialize` has set.
pub proof fn lemma_counter_reads_back(ctx: InitializeView, minimum_balance: u64)
    requires
        ctx.refusal(minimum_balance) is None,
    ensures
        reply(Instruction::ReturnU64FromAccount, ctx.initialized(minimum_balance).account) == Ok::<
            Seq<u8>,
            ErrorCode,
        >(u64_layout(INITIAL_VALUE)),
{
    lemma_initialize_sets_counter(ctx, minimum_balance);
}

/// On an account that was never created, every reading operation fails, and says
/// that the account is not there.
pub proof fn lemma_reading_a_vacant_account_fails(instruction: Instruction, account: AccountView)
    requires
        instruction != Instruction::Initialize,
        account.is_vacant(),
    ensures
        reply(instruction, account) == Err::<Seq<u8>, ErrorCode>(ErrorCode::AccountNotInitialized),
{
}

/// On an account that holds a record, the three operations with a fixed result
/// hand back that result whatever the record's counter is.
pub proof fn lemma_fixed_results(account: AccountView)
    requires
        account.record() is Ok,
    ensures
        reply(Instruction::ReturnU64, account) == Ok::<Seq<u8>, ErrorCode>(u64_layout(SCALAR)),
        reply(Instruction::ReturnStruct, account) == Ok::<Seq<u8>, ErrorCode>(
            (StructReturn { value: RECORD_FIELD }).layout(),
        ),
        reply(Instruction::ReturnVec, account) == Ok::<Seq<u8>, ErrorCode>(
            i32_seq_layout(sequence()),
        ),
{
}

/// The state of the accounts after the same call was made `times` times in a row.
pub open spec fn accounts_after(
    accounts: Seq<AccountView>,
    data: Seq<u8>,
    minimum_balance: u64,
    times: nat,
) -> Seq<AccountView>
    decreases times,
{
    if times == 0 {
        accounts
    } else {
        process(
            accounts_after(accounts, data, minimum_balance, (times - 1) as nat),
            data,
            minimum_balance,
        ).accounts
    }
}

/// A reading operation changes no account, so however often it was invoked
/// before, it yields what it yielded the first time.
pub proof fn lemma_reading_is_idempotent(
    accounts: Seq<AccountView>,
    data: Seq<u8>,
    minimum_balance: u64,
    times: nat,
)
    requires
        Instruction::select(data) != Some(Instruction::Initialize),
    ensures
        accounts_after(accounts, data, minimum_balance, times) == accounts,
        process(accounts_after(accounts, data, minimum_balance, times), data, minimum_balance)
            == process(accounts, data, minimum_balance),
    decreases times,
{
    if times > 0 {
        lemma_reading_is_idempotent(accounts, data, minimum_balance, (times - 1) as nat);
    }
}

/// A call that fails changes no account.
pub proof fn lemma_failure_changes_nothing(
    accounts: Seq<AccountView>,
    data: Seq<u8>,
    minimum_balance: u64,
)
    requires
        process(accounts, data, minimum_balance).result is Err,
    ensures
        process(accounts, data, minimum_balance).accounts == accounts,
{
}

/// The balance that `initialize` takes from the payer is the balance that it adds
/// to the new account.
pub proof fn lemma_initialize_moves_the_funding(ctx: InitializeView, minimum_balance: u64)
    requires
        ctx.refusal(minimum_balance) is None,
    ensures
        ctx.initialized(minimum_balance).account.lamports + ctx.initialized(
            minimum_balance,
        ).user.lamports == ctx.account.lamports + ctx.user.lamports,
        ctx.initialized(minimum_balance).account.lamports >= minimum_balance,
{
}

/// No call resizes or rewrites data that an account holds already: a record, once
/// created, keeps its sixteen bytes and its counter, and the list of accounts
/// keeps its length.
pub proof fn lemma_stored_data_never_changes(
    accounts: Seq<AccountView>,
    data: Seq<u8>,
    minimum_balance: u64,
    index: int,
)
    requires
        0 <= index < accounts.len(),
        accounts[index].data.len() != 0,
    ensures
        process(accounts, data, minimum_balance).accounts.len() == accounts.len(),
        process(accounts, data, minimum_balance).accounts[index].data == accounts[index].data,
        process(accounts, data, minimum_balance).accounts[index].owner == accounts[index].owner,
{
}

} // verus!
