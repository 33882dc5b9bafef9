//! The record stored in a greeting account and its wire format.
//!
//! A record is a single unsigned 32-bit counter, stored as exactly four
//! bytes, least significant byte first, with no header and no version.

use crate::error::Error;
use borsh::{BorshDeserialize, BorshSerialize};
use vstd::prelude::*;

verus! {

/// Length in bytes of an encoded record.
pub const RECORD_SIZE: usize = 4;

/// The state kept in a greeting account.
#[derive(Clone, Copy, Debug, PartialEq, Eq, Structural)]
pub struct GreetingAccount {
    /// The number of greetings that have been sent to this account.
    pub counter: u32,
}

/// The wire form of a counter: its four bytes, least significant first.
pub open spec fn encoded(value: u32) -> Seq<u8> {
    seq![
        (value % 256) as u8,
        ((value / 256) % 256) as u8,
        ((value / 65536) % 256) as u8,
        (value / 16777216) as u8,
    ]
}

/// The number that four bytes stand for, read least significant byte first.
pub open spec fn little_endian(bytes: Seq<u8>) -> int
    recommends
        bytes.len() == 4,
{
    bytes[0] + 256 * bytes[1] + 65536 * bytes[2] + 16777216 * bytes[3]
}

/// What decoding makes of a byte sequence: the counter when the sequence has
/// the length of a record, a mismatch that names both lengths otherwise.
pub open spec fn decoded(bytes: Seq<u8>) -> Result<u32, Error> {
    if bytes.len() == RECORD_SIZE {
        Ok(little_endian(bytes) as u32)
    } else {
        Err(Error::SchemaMismatchError { expected: RECORD_SIZE, actual: bytes.len() as usize })
    }
}

/// `std::io::Error`, which Borsh reports its failures with.
#[verifier::external_type_specification]
#[verifier::external_body]
pub struct ExIoError(std::io::Error);

/// `borsh::BorshSerialize::try_to_vec` for `u32`.  Borsh writes an integer as
/// its little-endian bytes into a fresh vector, a write that cannot fail, so
/// the result is always `Ok` and holds the four bytes of `value`.
#[verifier::external_body]
fn borsh_to_vec(value: u32) -> (r: Result<Vec<u8>, std::io::Error>)
    ensures
        r is Ok,
        r->Ok_0@ == encoded(value),
{
    value.try_to_vec()
}

/// `borsh::BorshDeserialize::try_from_slice` for `u32`.  Borsh reads four
/// little-endian bytes and then insists that nothing is left over, so the
/// call succeeds exactly on slices of length four.
#[verifier::external_body]
fn borsh_from_slice(data: &[u8]) -> (r: Result<u32, std::io::Error>)
    ensures
        r is Ok <==> data@.len() == 4,
        r is Ok ==> r->Ok_0 == little_endian(data@),
{
    u32::try_from_slice(data)
}

/// Returns the fixed length in bytes of an encoded record.
pub fn record_size() -> (size: usize)
    ensures
        size == RECORD_SIZE,
        forall|value: u32| #[trigger] encoded(value).len() == size,
{
    RECORD_SIZE
}

/// Encodes a counter into its wire form.
pub fn encode_counter(value: u32) -> (bytes: Vec<u8>)
    ensures
        bytes@ == encoded(value),
        bytes@.len() == RECORD_SIZE,
        decoded(bytes@) == Ok::<u32, Error>(value),
{
    proof {
        lemma_decode_encode(value);
    }
    match borsh_to_vec(value) {
        Ok(bytes) => bytes,
        Err(_) => unreached(),
    }
}

/// Decodes a counter from its wire form.  A slice that is shorter or longer
/// than a record is turned down.
pub fn decode_counter(bytes: &[u8]) -> (r: Result<u32, Error>)
    ensures
        r == decoded(bytes@),
        r is Ok <==> bytes@.len() == RECORD_SIZE,
        bytes@.len() != RECORD_SIZE ==> r == Err::<u32, Error>(
            Error::SchemaMismatchError { expected: RECORD_SIZE, actual: bytes@.len() as usize },
        ),
{
    match borsh_from_slice(bytes) {
        Ok(value) => Ok(value),
        Err(_) => Err(Error::SchemaMismatchError { expected: RECORD_SIZE, actual: bytes.len() }),
    }
}

/// The number that the bytes of a counter stand for is that counter.
pub proof fn lemma_little_endian_of_encoded(value: u32)
    ensures
        encoded(value).len() == RECORD_SIZE,
        little_endian(encoded(value)) == value,
{
}

/// Decoding what was encoded gives the counter back, for every counter.
pub proof fn lemma_decode_encode(value: u32)
    ensures
        decoded(encoded(value)) == Ok::<u32, Error>(value),
{
    lemma_little_endian_of_encoded(value);
}

/// Encoding what was decoded gives the bytes back, for every record-sized
/// byte sequence: no two byte sequences stand for the same counter.
pub proof fn lemma_encode_decode(bytes: Seq<u8>)
    requires
        bytes.len() == RECORD_SIZE,
    ensures
        decoded(bytes) is Ok,
        encoded(decoded(bytes)->Ok_0) == bytes,
{
    let number = little_endian(bytes);
    assert(0 <= number < 0x1_0000_0000);
    let value = number as u32;
    assert(value % 256 == bytes[0]);
    assert((value / 256) % 256 == bytes[1]);
    assert((value / 65536) % 256 == bytes[2]);
    assert(value / 16777216 == bytes[3]);
    assert(encoded(value) =~= bytes);
}

/// A byte sequence of any other length than a record's is a schema mismatch.
pub proof fn lemma_decode_rejects_other_lengths(bytes: Seq<u8>)
    requires
        bytes.len() != RECORD_SIZE,
        bytes.len() <= usize::MAX,
    ensures
        decoded(bytes) == Err::<u32, Error>(
            Error::SchemaMismatchError { expected: RECORD_SIZE, actual: bytes.len() as usize },
        ),
{
}

} // verus!
