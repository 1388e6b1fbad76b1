//! Addresses of accounts and programs.

use vstd::prelude::*;

verus! {

/// The bytes of the address under which this program is deployed.
pub const ID_BYTES: [u8; 32] = [
    153, 19, 72, 225, 101, 132, 128, 75, 246, 53, 42, 180, 11, 147, 176, 246,
    244, 175, 232, 150, 99, 165, 251, 237, 181, 137, 182, 129, 136, 11, 35, 140,
];

/// The bytes of the address of the host's system program, which allocates accounts.
pub const SYSTEM_PROGRAM_ID_BYTES: [u8; 32] = [
    0, 0, 0, 0, 0, 0, 0, 0, 0, 0, 0, 0, 0, 0, 0, 0,
    0, 0, 0, 0, 0, 0, 0, 0, 0, 0, 0, 0, 0, 0, 0, 0,
];

/// An address on the ledger.
#[derive(Clone, Copy, Debug, PartialEq, Eq, Hash)]
pub struct Pubkey {
    pub bytes: [u8; 32],
}

impl Pubkey {
    /// Whether two addresses are the same, byte for byte.
    pub fn same(&self, other: &Pubkey) -> (equal: bool)
        ensures
            equal == (*self == *other),
    {
        let mut i: usize = 0;
        while i < 32
            invariant
                i <= 32,
                forall|j: int| 0 <= j < i ==> self.bytes@[j] == other.bytes@[j],
            decreases 32 - i,
        {
            if self.bytes[i] != other.bytes[i] {
                return false;
            }
            i += 1;
        }
        proof {
            assert(self.bytes@ =~= other.bytes@);
            broadcast use vstd::array::axiom_array_ext_equal;
            assert(self.bytes == other.bytes);
        }
        true
    }
}

/// The address under which this program is deployed.
pub open spec fn spec_id() -> Pubkey {
    Pubkey { bytes: ID_BYTES }
}

/// The address under which this program is deployed.
#[verifier::when_used_as_spec(spec_id)]
pub fn id() -> (key: Pubkey)
    ensures
        key == spec_id(),
{
    Pubkey { bytes: ID_BYTES }
}

/// The address of the host's system program.
pub open spec fn spec_system_program_id() -> Pubkey {
    Pubkey { bytes: SYSTEM_PROGRAM_ID_BYTES }
}

/// The address of the host's system program.
#[verifier::when_used_as_spec(spec_system_program_id)]
pub fn system_program_id() -> (key: Pubkey)
    ensures
        key == spec_system_program_id(),
{
    Pubkey { bytes: SYSTEM_PROGRAM_ID_BYTES }
}

/// This program is not the system program.
pub proof fn lemma_id_is_not_system_program()
    ensures
        spec_id() != spec_system_program_id(),
{
    assert(ID_BYTES@[0] == 153);
    assert(SYSTEM_PROGRAM_ID_BYTES@[0] == 0);
}

} // verus!
