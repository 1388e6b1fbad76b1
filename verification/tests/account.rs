use callee::account::{DISCRIMINATOR, DISCRIMINATOR_LEN, SPACE};
use callee::pubkey::{id, system_program_id, ID_BYTES, SYSTEM_PROGRAM_ID_BYTES};
use callee::{AccountInfo, CpiReturnAccount, ErrorCode, ErrorKind, Pubkey};
use std::str::FromStr;

fn stored(value: u64) -> Vec<u8> {
    let mut data = DISCRIMINATOR.to_vec();
    data.extend_from_slice(&value.to_le_bytes());
    data
}

fn account(owner: Pubkey, lamports: u64, data: Vec<u8>) -> AccountInfo {
    AccountInfo {
        key: Pubkey { bytes: [7; 32] },
        owner,
        lamports,
        data,
        is_signer: false,
        is_writable: false,
        executable: false,
    }
}

#[test]
fn record_storage_is_header_and_payload() {
    assert_eq!(DISCRIMINATOR_LEN, 8);
    assert_eq!(SPACE, 8 + 8);
    let bytes = CpiReturnAccount { value: 10 }.serialize();
    assert_eq!(bytes.len(), SPACE);
    assert_eq!(
        bytes,
        vec![40, 211, 202, 62, 107, 136, 143, 189, 10, 0, 0, 0, 0, 0, 0, 0]
    );
}

#[test]
fn record_round_trips() {
    for value in [0u64, 10, 30, 1 << 33, u64::MAX] {
        let record = CpiReturnAccount { value };
        assert_eq!(CpiReturnAccount::deserialize(&record.serialize()), Ok(record));
    }
}

#[test]
fn record_ignores_what_follows_it() {
    let mut data = stored(42);
    data.extend_from_slice(&[1, 2, 3]);
    assert_eq!(CpiReturnAccount::deserialize(&data), Ok(CpiReturnAccount { value: 42 }));
}

#[test]
fn short_data_has_no_header() {
    assert_eq!(
        CpiReturnAccount::deserialize(&[]),
        Err(ErrorCode::AccountDiscriminatorNotFound)
    );
    assert_eq!(
        CpiReturnAccount::deserialize(&DISCRIMINATOR[..7]),
        Err(ErrorCode::AccountDiscriminatorNotFound)
    );
}

#[test]
fn other_header_is_another_record() {
    assert_eq!(
        CpiReturnAccount::deserialize(&[0; 16]),
        Err(ErrorCode::AccountDiscriminatorMismatch)
    );
    let mut data = stored(10);
    data[7] ^= 1;
    assert_eq!(
        CpiReturnAccount::deserialize(&data),
        Err(ErrorCode::AccountDiscriminatorMismatch)
    );
}

#[test]
fn header_without_payload_does_not_deserialize() {
    assert_eq!(
        CpiReturnAccount::deserialize(&DISCRIMINATOR),
        Err(ErrorCode::AccountDidNotDeserialize)
    );
    assert_eq!(
        CpiReturnAccount::deserialize(&stored(10)[..15]),
        Err(ErrorCode::AccountDidNotDeserialize)
    );
}

#[test]
fn load_reads_the_counter() {
    assert_eq!(account(id(), 1, stored(10)).load(), Ok(CpiReturnAccount { value: 10 }));
    assert_eq!(account(id(), 0, stored(77)).load(), Ok(CpiReturnAccount { value: 77 }));
}

#[test]
fn load_of_a_vacant_address_finds_nothing() {
    let vacant = account(system_program_id(), 0, Vec::new());
    assert_eq!(vacant.load(), Err(ErrorCode::AccountNotInitialized));
    assert_eq!(ErrorCode::AccountNotInitialized.kind(), ErrorKind::AccountNotFound);
}

#[test]
fn load_refuses_another_program_s_account() {
    let funded = account(system_program_id(), 5, Vec::new());
    assert_eq!(funded.load(), Err(ErrorCode::AccountOwnedByWrongProgram));
    let foreign = account(Pubkey { bytes: [9; 32] }, 5, stored(10));
    assert_eq!(foreign.load(), Err(ErrorCode::AccountOwnedByWrongProgram));
}

#[test]
fn load_refuses_other_data() {
    assert_eq!(
        account(id(), 5, Vec::new()).load(),
        Err(ErrorCode::AccountDiscriminatorNotFound)
    );
    assert_eq!(
        account(id(), 5, vec![0; 16]).load(),
        Err(ErrorCode::AccountDiscriminatorMismatch)
    );
    assert_eq!(
        account(id(), 5, DISCRIMINATOR.to_vec()).load(),
        Err(ErrorCode::AccountDidNotDeserialize)
    );
}

#[test]
fn duplicate_holds_the_same() {
    let source = AccountInfo {
        key: Pubkey { bytes: [3; 32] },
        owner: id(),
        lamports: 99,
        data: stored(10),
        is_signer: true,
        is_writable: false,
        executable: true,
    };
    assert_eq!(source.duplicate(), source);
}

#[test]
fn keys_compare_byte_for_byte() {
    let a = Pubkey { bytes: [1; 32] };
    let mut other = [1; 32];
    assert!(a.same(&Pubkey { bytes: other }));
    other[31] = 2;
    assert!(!a.same(&Pubkey { bytes: other }));
    other[31] = 1;
    other[0] = 0;
    assert!(!a.same(&Pubkey { bytes: other }));
    assert!(!id().same(&system_program_id()));
}

#[test]
fn program_address_is_the_declared_one() {
    let declared =
        anchor_lang::prelude::Pubkey::from_str("BJYS8QEhSCk4pgtn6oArSEYNScMeTJmrNCVAzsEHaba3")
            .unwrap();
    assert_eq!(ID_BYTES, declared.to_bytes());
    assert_eq!(id().bytes, ID_BYTES);
}

#[test]
fn system_program_address_is_the_host_s() {
    assert_eq!(SYSTEM_PROGRAM_ID_BYTES, anchor_lang::system_program::ID.to_bytes());
    assert_eq!(system_program_id().bytes, SYSTEM_PROGRAM_ID_BYTES);
}

#[test]
fn failures_fall_into_three_families() {
    let authorization = [
        ErrorCode::AccountNotSigner,
        ErrorCode::ConstraintSigner,
        ErrorCode::InsufficientFunds,
    ];
    for error in authorization {
        assert_eq!(error.kind(), ErrorKind::AuthorizationFailure);
    }
    let precondition = [
        ErrorCode::DeclaredProgramIdMismatch,
        ErrorCode::InstructionFallbackNotFound,
        ErrorCode::AccountNotEnoughKeys,
        ErrorCode::InvalidProgramId,
        ErrorCode::InvalidProgramExecutable,
        ErrorCode::ConstraintMut,
        ErrorCode::TryingToInitPayerAsProgramAccount,
        ErrorCode::AccountAlreadyInUse,
        ErrorCode::AccountOwnedByWrongProgram,
        ErrorCode::AccountDiscriminatorNotFound,
        ErrorCode::AccountDiscriminatorMismatch,
        ErrorCode::AccountDidNotDeserialize,
    ];
    for error in precondition {
        assert_eq!(error.kind(), ErrorKind::PreconditionViolation);
    }
    assert_eq!(ErrorCode::AccountNotInitialized.kind(), ErrorKind::AccountNotFound);
}
