//! Positional reading of fixed-width fields from a record's bytes.
//!
//! Integers are little-endian. An identifier is a raw span of 32 bytes. A
//! flag is one byte, 0 or 1.

use crate::identifier::Identifier;
use vstd::prelude::*;
use vstd::slice::slice_subrange;

verus! {

/// Where a record comes from: a program's log, the data of an
/// instruction, or the data of an account.
#[derive(Clone, Copy, Debug, PartialEq, Eq, Structural)]
pub enum RecordCategory {
    Log,
    Instruction,
    Account,
}

/// The number whose base-256 digits, lowest first, are `bytes`.
pub open spec fn le_value(bytes: Seq<u8>) -> nat
    decreases bytes.len(),
{
    if bytes.len() == 0 {
        0
    } else {
        bytes[0] as nat + 256 * le_value(bytes.drop_first())
    }
}

/// Whether `width` bytes lie at offset `at` of `data`.
pub open spec fn in_bounds(data: Seq<u8>, at: int, width: int) -> bool {
    0 <= at && at + width <= data.len()
}

/// The `width` bytes at offset `at`.
pub open spec fn span(data: Seq<u8>, at: int, width: int) -> Seq<u8> {
    data.subrange(at, at + width)
}

/// A field that lies within the first `size` bytes is the same in any
/// two inputs that agree on those bytes.
pub proof fn lemma_span_within(data: Seq<u8>, other: Seq<u8>, size: int, at: int, width: int)
    requires
        0 <= at,
        0 <= width,
        at + width <= size,
        size <= data.len(),
        size <= other.len(),
        data.subrange(0, size) == other.subrange(0, size),
    ensures
        span(data, at, width) == span(other, at, width),
        width > 0 ==> data[at] == other[at],
{
    assert forall|i: int| 0 <= i < size implies data[i] == other[i] by {
        assert(data.subrange(0, size)[i] == data[i]);
        assert(other.subrange(0, size)[i] == other[i]);
    }
    assert(span(data, at, width) =~= span(other, at, width));
}

/// The unsigned 64-bit integer at offset `at`.
pub open spec fn le_u64(data: Seq<u8>, at: int) -> nat {
    le_value(span(data, at, 8))
}

/// The unsigned 16-bit integer at offset `at`.
pub open spec fn le_u16(data: Seq<u8>, at: int) -> nat {
    le_value(span(data, at, 2))
}

/// The signed integer that eight bytes hold in two's complement, lowest
/// byte first.
pub open spec fn le_signed(bytes: Seq<u8>) -> int {
    let raw = le_value(bytes);
    if raw >= 0x8000_0000_0000_0000 {
        raw - 0x1_0000_0000_0000_0000
    } else {
        raw as int
    }
}

/// The signed 64-bit integer at offset `at`.
pub open spec fn le_i64(data: Seq<u8>, at: int) -> int {
    le_signed(span(data, at, 8))
}

/// The flag that a byte encodes, if it encodes one.
pub open spec fn flag_of(byte: u8) -> Option<bool> {
    if byte == 0 {
        Some(false)
    } else if byte == 1 {
        Some(true)
    } else {
        None
    }
}

/// Calls `borsh::from_slice::<u64>`, which succeeds on exactly 8 bytes and
/// gives the integer that they hold in little-endian order.
#[verifier::external_body]
fn borsh_u64(bytes: &[u8]) -> (value: Option<u64>)
    ensures
        value is Some <==> bytes@.len() == 8,
        value matches Some(v) ==> v == le_value(bytes@),
{
    borsh::from_slice::<u64>(bytes).ok()
}

/// Calls `borsh::from_slice::<i64>`, which succeeds on exactly 8 bytes and
/// gives the two's-complement integer that they hold in little-endian
/// order.
#[verifier::external_body]
fn borsh_i64(bytes: &[u8]) -> (value: Option<i64>)
    ensures
        value is Some <==> bytes@.len() == 8,
        value matches Some(v) ==> v == le_signed(bytes@),
{
    borsh::from_slice::<i64>(bytes).ok()
}

/// Calls `borsh::from_slice::<u16>`, which succeeds on exactly 2 bytes and
/// gives the integer that they hold in little-endian order.
#[verifier::external_body]
fn borsh_u16(bytes: &[u8]) -> (value: Option<u16>)
    ensures
        value is Some <==> bytes@.len() == 2,
        value matches Some(v) ==> v == le_value(bytes@),
{
    borsh::from_slice::<u16>(bytes).ok()
}

/// Calls `borsh::from_slice::<u8>`, which succeeds on exactly 1 byte and
/// gives that byte.
#[verifier::external_body]
fn borsh_u8(bytes: &[u8]) -> (value: Option<u8>)
    ensures
        value is Some <==> bytes@.len() == 1,
        value matches Some(v) ==> v == bytes@[0],
{
    borsh::from_slice::<u8>(bytes).ok()
}

/// Calls `borsh::from_slice::<bool>`, which succeeds on exactly 1 byte
/// that is 0 or 1, and gives `false` for 0 and `true` for 1.
#[verifier::external_body]
fn borsh_bool(bytes: &[u8]) -> (value: Option<bool>)
    ensures
        bytes@.len() == 1 ==> value == flag_of(bytes@[0]),
        bytes@.len() != 1 ==> value is None,
{
    borsh::from_slice::<bool>(bytes).ok()
}

/// Calls `borsh::from_slice::<[u8; 32]>`, which succeeds on exactly 32
/// bytes and gives them unchanged.
#[verifier::external_body]
fn borsh_key(bytes: &[u8]) -> (value: Option<[u8; 32]>)
    ensures
        value is Some <==> bytes@.len() == 32,
        value matches Some(key) ==> key@ == bytes@,
{
    borsh::from_slice::<[u8; 32]>(bytes).ok()
}

/// The `width` bytes at offset `at`, if `data` holds them.
pub fn field_bytes(data: &[u8], at: usize, width: usize) -> (bytes: Option<&[u8]>)
    ensures
        bytes is Some <==> in_bounds(data@, at as int, width as int),
        bytes matches Some(found) ==> found@ == span(data@, at as int, width as int),
{
    if at > data.len() || data.len() - at < width {
        None
    } else {
        Some(slice_subrange(data, at, at + width))
    }
}

/// Reads the unsigned 64-bit integer at offset `at`.
pub fn read_u64(data: &[u8], at: usize) -> (value: Option<u64>)
    ensures
        value is Some <==> in_bounds(data@, at as int, 8),
        value matches Some(v) ==> v == le_u64(data@, at as int),
{
    borsh_u64(field_bytes(data, at, 8)?)
}

/// Reads the signed 64-bit integer at offset `at`.
pub fn read_i64(data: &[u8], at: usize) -> (value: Option<i64>)
    ensures
        value is Some <==> in_bounds(data@, at as int, 8),
        value matches Some(v) ==> v == le_i64(data@, at as int),
{
    borsh_i64(field_bytes(data, at, 8)?)
}

/// Reads the unsigned 16-bit integer at offset `at`.
pub fn read_u16(data: &[u8], at: usize) -> (value: Option<u16>)
    ensures
        value is Some <==> in_bounds(data@, at as int, 2),
        value matches Some(v) ==> v == le_u16(data@, at as int),
{
    borsh_u16(field_bytes(data, at, 2)?)
}

/// Reads the byte at offset `at`.
pub fn read_u8(data: &[u8], at: usize) -> (value: Option<u8>)
    ensures
        value is Some <==> in_bounds(data@, at as int, 1),
        value matches Some(v) ==> v == data@[at as int],
{
    borsh_u8(field_bytes(data, at, 1)?)
}

/// Reads the flag at offset `at`. A byte other than 0 and 1 is no flag.
pub fn read_flag(data: &[u8], at: usize) -> (value: Option<bool>)
    ensures
        in_bounds(data@, at as int, 1) ==> value == flag_of(data@[at as int]),
        !in_bounds(data@, at as int, 1) ==> value is None,
{
    borsh_bool(field_bytes(data, at, 1)?)
}

/// Reads the identifier at offset `at`.
pub fn read_identifier(data: &[u8], at: usize) -> (value: Option<Identifier>)
    ensures
        value is Some <==> in_bounds(data@, at as int, 32),
        value matches Some(id) ==> id@ == span(data@, at as int, 32),
{
    match borsh_key(field_bytes(data, at, 32)?) {
        Some(bytes) => Some(Identifier::new(bytes)),
        None => None,
    }
}

/// Whether `data` begins with `prefix`.
pub open spec fn has_prefix(data: Seq<u8>, prefix: Seq<u8>) -> bool {
    prefix.len() <= data.len() && data.subrange(0, prefix.len() as int) == prefix
}

/// Whether `data` begins with exactly the bytes of `prefix`.
pub fn starts_with(data: &[u8], prefix: &[u8]) -> (yes: bool)
    ensures
        yes == has_prefix(data@, prefix@),
{
    if prefix.len() > data.len() {
        return false;
    }
    let mut i: usize = 0;
    while i < prefix.len()
        invariant
            i <= prefix.len() <= data.len(),
            forall|j: int| 0 <= j < i ==> data@[j] == prefix@[j],
        decreases prefix.len() - i,
    {
        if data[i] != prefix[i] {
            assert(data@.subrange(0, prefix@.len() as int)[i as int] != prefix@[i as int]);
            return false;
        }
        i += 1;
    }
    assert(data@.subrange(0, prefix@.len() as int) =~= prefix@);
    true
}

} // verus!
