//! The byte layout of the values that cross the program boundary.
//!
//! Every integer is written in little-endian order at its fixed width; a sequence is
//! written as its length in four bytes followed by its items. The layout is stated
//! here as spec functions over mathematical integers, and the encoders are held to
//! them.

use vstd::prelude::*;

verus! {

/// The `width` lowest base-256 digits of `value`, least significant digit first.
pub open spec fn le_bytes(value: nat, width: nat) -> Seq<u8>
    decreases width,
{
    if width == 0 {
        Seq::empty()
    } else {
        seq![(value % 256) as u8] + le_bytes(value / 256, (width - 1) as nat)
    }
}

/// The number whose base-256 digits, least significant first, are `bytes`.
pub open spec fn le_value(bytes: Seq<u8>) -> nat
    decreases bytes.len(),
{
    if bytes.len() == 0 {
        0
    } else {
        bytes[0] as nat + 256 * le_value(bytes.drop_first())
    }
}

/// 256 to the power `width`.
pub open spec fn radix_pow(width: nat) -> nat
    decreases width,
{
    if width == 0 {
        1
    } else {
        256 * radix_pow((width - 1) as nat)
    }
}

/// The unsigned 32-bit number that has the same bits as `value` in two's complement.
pub open spec fn twos_complement_32(value: i32) -> nat {
    if value >= 0 {
        value as nat
    } else {
        (value + 0x1_0000_0000) as nat
    }
}

/// Eight bytes, little-endian.
pub open spec fn u64_layout(value: u64) -> Seq<u8> {
    le_bytes(value as nat, 8)
}

/// Four bytes, little-endian two's complement.
pub open spec fn i32_layout(value: i32) -> Seq<u8> {
    le_bytes(twos_complement_32(value), 4)
}

/// The items one after another, four bytes each.
pub open spec fn i32_items_layout(items: Seq<i32>) -> Seq<u8>
    decreases items.len(),
{
    if items.len() == 0 {
        Seq::empty()
    } else {
        i32_items_layout(items.drop_last()) + i32_layout(items.last())
    }
}

/// The length in four bytes, then the items.
pub open spec fn i32_seq_layout(items: Seq<i32>) -> Seq<u8> {
    le_bytes(items.len(), 4) + i32_items_layout(items)
}

/// `le_bytes` yields exactly `width` bytes.
pub proof fn lemma_le_bytes_len(value: nat, width: nat)
    ensures
        le_bytes(value, width).len() == width,
    decreases width,
{
    if width > 0 {
        lemma_le_bytes_len(value / 256, (width - 1) as nat);
    }
}

/// Reading back what `le_bytes` wrote gives the value again, as long as the value
/// fits in `width` bytes.
pub proof fn lemma_le_round_trip(value: nat, width: nat)
    requires
        value < radix_pow(width),
    ensures
        le_value(le_bytes(value, width)) == value,
    decreases width,
{
    if width > 0 {
        let rest = le_bytes(value / 256, (width - 1) as nat);
        let all = le_bytes(value, width);
        lemma_le_round_trip(value / 256, (width - 1) as nat);
        assert(all.drop_first() =~= rest);
        assert(all[0] == (value % 256) as u8);
    }
}

/// The items of a sequence of `n` numbers take `4 * n` bytes.
pub proof fn lemma_i32_items_layout_len(items: Seq<i32>)
    ensures
        i32_items_layout(items).len() == 4 * items.len(),
    decreases items.len(),
{
    if items.len() > 0 {
        lemma_i32_items_layout_len(items.drop_last());
        lemma_le_bytes_len(twos_complement_32(items.last()), 4);
    }
}

/// Writing down the number that `bytes` spell gives `bytes` again, and that number
/// fits in as many bytes.
pub proof fn lemma_le_value_round_trip(bytes: Seq<u8>)
    ensures
        le_value(bytes) < radix_pow(bytes.len()),
        le_bytes(le_value(bytes), bytes.len()) == bytes,
    decreases bytes.len(),
{
    if bytes.len() > 0 {
        let rest = bytes.drop_first();
        lemma_le_value_round_trip(rest);
        let value = le_value(bytes);
        assert(value == bytes[0] as nat + 256 * le_value(rest));
        assert(value % 256 == bytes[0] as nat);
        assert(value / 256 == le_value(rest));
        assert(le_bytes(value, bytes.len()) =~= bytes);
    } else {
        assert(le_bytes(0, 0) =~= bytes);
    }
}

/// Calls `<u64 as anchor_lang::AnchorSerialize>::serialize` on an empty vector.
/// Trusted: the call appends the eight bytes of `value.to_le_bytes()` and nothing
/// else; writing into a vector does not fail.
#[verifier::external_body]
fn serialize_u64(value: u64) -> (bytes: Vec<u8>)
    ensures
        bytes@ == u64_layout(value),
{
    let mut bytes = Vec::new();
    let _ = anchor_lang::AnchorSerialize::serialize(&value, &mut bytes);
    bytes
}

/// Calls `<Vec<i32> as anchor_lang::AnchorSerialize>::serialize` on an empty vector.
/// Trusted: the call writes the length as a little-endian `u32`, then each item's
/// `to_le_bytes()` in order, and it refuses a vector whose length does not fit in a
/// `u32`.
#[verifier::external_body]
fn serialize_i32_seq(items: &Vec<i32>) -> (out: Option<Vec<u8>>)
    ensures
        match out {
            Some(bytes) => items@.len() <= u32::MAX && bytes@ == i32_seq_layout(items@),
            None => items@.len() > u32::MAX,
        },
{
    let mut bytes = Vec::new();
    match anchor_lang::AnchorSerialize::serialize(items, &mut bytes) {
        Ok(()) => Some(bytes),
        Err(_) => None,
    }
}

/// Calls `<u64 as anchor_lang::AnchorDeserialize>::deserialize`.
/// Trusted: the call reads the first eight bytes with `u64::from_le_bytes`, leaves
/// what follows them alone, and fails when fewer than eight bytes are there.
#[verifier::external_body]
fn deserialize_u64(bytes: &[u8]) -> (out: Option<u64>)
    ensures
        match out {
            Some(value) => bytes@.len() >= 8 && value as nat == le_value(bytes@.subrange(0, 8)),
            None => bytes@.len() < 8,
        },
{
    let mut rest = bytes;
    let read: Result<u64, _> = anchor_lang::AnchorDeserialize::deserialize(&mut rest);
    read.ok()
}

/// Encodes an unsigned 64-bit scalar: always eight bytes.
pub fn encode_u64(value: u64) -> (bytes: Vec<u8>)
    ensures
        bytes@ == u64_layout(value),
        bytes@.len() == 8,
{
    proof {
        lemma_le_bytes_len(value as nat, 8);
    }
    serialize_u64(value)
}

/// Encodes a sequence of signed 32-bit numbers: four bytes of length, then four
/// bytes for each item. A sequence too long for the length field has no encoding.
pub fn encode_i32_seq(items: &Vec<i32>) -> (out: Option<Vec<u8>>)
    ensures
        match out {
            Some(bytes) => {
                &&& items@.len() <= u32::MAX
                &&& bytes@ == i32_seq_layout(items@)
                &&& bytes@.len() == 4 + 4 * items@.len()
            },
            None => items@.len() > u32::MAX,
        },
{
    proof {
        lemma_le_bytes_len(items@.len(), 4);
        lemma_i32_items_layout_len(items@);
    }
    serialize_i32_seq(items)
}

/// Decodes the unsigned 64-bit scalar at the front of `bytes`. Bytes after the
/// eighth are not looked at; fewer than eight bytes decode to nothing.
pub fn decode_u64(bytes: &[u8]) -> (out: Option<u64>)
    ensures
        match out {
            Some(value) => {
                &&& bytes@.len() >= 8
                &&& value as nat == le_value(bytes@.subrange(0, 8))
                &&& u64_layout(value) == bytes@.subrange(0, 8)
            },
            None => bytes@.len() < 8,
        },
{
    let out = deserialize_u64(bytes);
    proof {
        if bytes@.len() >= 8 {
            lemma_le_value_round_trip(bytes@.subrange(0, 8));
        }
    }
    out
}

/// Decoding an encoded scalar gives the scalar back, whatever follows it.
pub proof fn lemma_u64_layout_round_trip(value: u64, bytes: Seq<u8>)
    requires
        bytes.len() >= 8,
        bytes.subrange(0, 8) == u64_layout(value),
    ensures
        le_value(bytes.subrange(0, 8)) == value as nat,
{
    assert(radix_pow(8) == 0x1_0000_0000_0000_0000) by {
        reveal_with_fuel(radix_pow, 9);
    }
    lemma_le_round_trip(value as nat, 8);
}

/// Whether `bytes` begins with `prefix`.
pub fn starts_with(bytes: &[u8], prefix: &[u8]) -> (yes: bool)
    ensures
        yes == prefix@.is_prefix_of(bytes@),
{
    if prefix.len() > bytes.len() {
        return false;
    }
    let mut i: usize = 0;
    while i < prefix.len()
        invariant
            i <= prefix@.len() <= bytes@.len(),
            forall|j: int| 0 <= j < i ==> prefix@[j] == bytes@[j],
        decreases prefix@.len() - i,
    {
        if prefix[i] != bytes[i] {
            assert(bytes@.subrange(0, prefix@.len() as int)[i as int] != prefix@[i as int]);
            return false;
        }
        i += 1;
    }
    assert(prefix@ =~= bytes@.subrange(0, prefix@.len() as int));
    true
}

} // verus!
