//! Account addresses and how the storage address is derived.
//!
//! The storage account has no key pair of its own.  Its address is computed
//! from the payer's key, a seed string and the key of the program that will
//! own it, so that it can be found again on every later run without being
//! stored anywhere.

use crate::error::DerivationFault;
use crate::error::Error;
use solana_program::pubkey::Pubkey;
use solana_program::pubkey::PubkeyError;
use vstd::prelude::*;
use vstd::utf8::encode_utf8;

verus! {

/// Number of bytes in an address.
pub const ADDRESS_BYTES: usize = 32;

/// The longest seed, in bytes, that a derivation accepts.
pub const MAX_SEED_LEN: usize = 32;

/// A public key: the address of an account or of a program.
#[derive(Clone, Copy, Debug, PartialEq, Eq, Hash)]
pub struct Address {
    pub bytes: [u8; 32],
}

impl View for Address {
    type V = Seq<u8>;

    open spec fn view(&self) -> Seq<u8> {
        self.bytes@
    }
}

/// The bytes of `ProgramDerivedAddress`, which no owner key may end in.
pub open spec fn reserved_suffix() -> Seq<u8> {
    seq![
        80u8, 114u8, 111u8, 103u8, 114u8, 97u8, 109u8, 68u8, 101u8, 114u8, 105u8, 118u8, 101u8,
        100u8, 65u8, 100u8, 100u8, 114u8, 101u8, 115u8, 115u8,
    ]
}

/// Whether an owner key ends in the reserved marker.
pub open spec fn is_reserved_owner(owner: Seq<u8>) -> bool {
    owner.len() >= reserved_suffix().len() && owner.subrange(
        owner.len() - reserved_suffix().len(),
        owner.len() as int,
    ) == reserved_suffix()
}

/// The address that base key, seed and owner key hash to.
pub uninterp spec fn seeded_address(base: Seq<u8>, seed: Seq<char>, owner: Seq<u8>) -> Seq<u8>;

/// The length of a seed, counted in the bytes of its UTF-8 form.
pub open spec fn seed_len(seed: Seq<char>) -> nat {
    encode_utf8(seed).len()
}

/// What a derivation yields: the seeded address, unless the seed is too long
/// or the owner is reserved.  A seed that is too long is reported first.
pub open spec fn derivation(base: Seq<u8>, seed: Seq<char>, owner: Seq<u8>) -> Result<
    Seq<u8>,
    DerivationFault,
> {
    if seed_len(seed) > MAX_SEED_LEN {
        Err(DerivationFault::MaxSeedLengthExceeded)
    } else if is_reserved_owner(owner) {
        Err(DerivationFault::IllegalOwner)
    } else {
        Ok(seeded_address(base, seed, owner))
    }
}

/// `solana_program::pubkey::Pubkey::create_with_seed`.  It turns down a seed
/// of more than 32 bytes, then an owner that ends in the reserved marker, and
/// otherwise returns the SHA-256 digest of base, seed and owner, which the
/// contract names `seeded_address`.
#[verifier::external_body]
fn pubkey_create_with_seed(base: &Address, seed: &str, owner: &Address) -> (r: Result<
    Address,
    DerivationFault,
>)
    ensures
        match r {
            Ok(address) => seed_len(seed@) <= MAX_SEED_LEN && !is_reserved_owner(owner@)
                && address@ == seeded_address(base@, seed@, owner@),
            Err(fault) => derivation(base@, seed@, owner@) == Err::<
                Seq<u8>,
                DerivationFault,
            >(fault),
        },
{
    match Pubkey::create_with_seed(&Pubkey::from(base.bytes), seed, &Pubkey::from(owner.bytes)) {
        Ok(key) => Ok(Address { bytes: key.to_bytes() }),
        Err(PubkeyError::MaxSeedLengthExceeded) => Err(DerivationFault::MaxSeedLengthExceeded),
        Err(PubkeyError::InvalidSeeds) => Err(DerivationFault::InvalidSeeds),
        Err(PubkeyError::IllegalOwner) => Err(DerivationFault::IllegalOwner),
    }
}

/// What `derive_storage_address` returns for the given keys and seed.
pub open spec fn derived_address(base: Seq<u8>, seed: Seq<char>, owner: Seq<u8>) -> Result<
    Seq<u8>,
    Error,
> {
    match derivation(base, seed, owner) {
        Ok(address) => Ok(address),
        Err(fault) => Err(Error::AddressDerivationError(fault)),
    }
}

/// Whether `r` is the outcome `expected`, the address taken by its bytes.
pub open spec fn is_outcome(r: Result<Address, Error>, expected: Result<Seq<u8>, Error>) -> bool {
    match r {
        Ok(address) => expected == Ok::<Seq<u8>, Error>(address@),
        Err(error) => expected == Err::<Seq<u8>, Error>(error),
    }
}

/// Derives the address of the account that `base_key` keeps under `seed` for
/// the program `owner_key`.
pub fn derive_storage_address(base_key: &Address, seed: &str, owner_key: &Address) -> (r: Result<
    Address,
    Error,
>)
    ensures
        is_outcome(r, derived_address(base_key@, seed@, owner_key@)),
        r is Ok <==> seed_len(seed@) <= MAX_SEED_LEN && !is_reserved_owner(owner_key@),
        r is Ok ==> r->Ok_0@ == seeded_address(base_key@, seed@, owner_key@),
        seed_len(seed@) > MAX_SEED_LEN ==> r == Err::<Address, Error>(
            Error::AddressDerivationError(DerivationFault::MaxSeedLengthExceeded),
        ),
        seed_len(seed@) <= MAX_SEED_LEN && is_reserved_owner(owner_key@) ==> r == Err::<
            Address,
            Error,
        >(Error::AddressDerivationError(DerivationFault::IllegalOwner)),
{
    match pubkey_create_with_seed(base_key, seed, owner_key) {
        Ok(address) => Ok(address),
        Err(fault) => Err(Error::from(fault)),
    }
}

/// Compares two addresses byte by byte.
pub fn same_address(a: &Address, b: &Address) -> (same: bool)
    ensures
        same <==> a@ == b@,
{
    let mut i: usize = 0;
    while i < ADDRESS_BYTES
        invariant
            i <= ADDRESS_BYTES,
            forall|j: int| 0 <= j < i ==> a.bytes@[j] == b.bytes@[j],
        decreases ADDRESS_BYTES - i,
    {
        if a.bytes[i] != b.bytes[i] {
            return false;
        }
        i += 1;
    }
    assert(a@ =~= b@);
    true
}

/// Two derivations from the same keys and seed end the same way: either both
/// fail with the same fault or both give the same address.
pub proof fn lemma_derivation_is_deterministic(
    base: Address,
    seed: Seq<char>,
    owner: Address,
    first: Result<Address, Error>,
    second: Result<Address, Error>,
)
    requires
        is_outcome(first, derived_address(base@, seed, owner@)),
        is_outcome(second, derived_address(base@, seed, owner@)),
    ensures
        first is Ok <==> second is Ok,
        first is Ok ==> first->Ok_0@ == second->Ok_0@,
        first is Err ==> first == second,
{
}

} // verus!
