use callee::account::DISCRIMINATOR;
use callee::dispatch::{INITIALIZE, RETURN_STRUCT, RETURN_U64, RETURN_U64_FROM_ACCOUNT, RETURN_VEC};
use sha2::{Digest, Sha256};

fn sighash(preimage: &str) -> [u8; 8] {
    let digest = Sha256::digest(preimage.as_bytes());
    let mut front = [0u8; 8];
    front.copy_from_slice(&digest[..8]);
    front
}

#[test]
fn operation_identifiers_are_the_hashes_of_their_names() {
    assert_eq!(INITIALIZE, sighash("global:initialize"));
    assert_eq!(RETURN_U64, sighash("global:return_u64"));
    assert_eq!(RETURN_STRUCT, sighash("global:return_struct"));
    assert_eq!(RETURN_VEC, sighash("global:return_vec"));
    assert_eq!(RETURN_U64_FROM_ACCOUNT, sighash("global:return_u64_from_account"));
}

#[test]
fn record_header_is_the_hash_of_its_name() {
    assert_eq!(DISCRIMINATOR, sighash("account:CpiReturnAccount"));
}

#[test]
fn identifiers_differ_in_their_first_byte() {
    let first = [INITIALIZE[0], RETURN_U64[0], RETURN_STRUCT[0], RETURN_VEC[0], RETURN_U64_FROM_ACCOUNT[0]];
    for i in 0..first.len() {
        for j in 0..i {
            assert_ne!(first[i], first[j]);
        }
    }
}
