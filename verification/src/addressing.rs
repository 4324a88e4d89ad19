//! Deterministic record addressing.
//!
//! Every record lives at an address derived, by a cryptographic digest, from
//! a fixed namespace tag, the record's parent, its human-chosen name, and a
//! canonical auxiliary seed. The derivation is pure and publicly
//! reproducible: any caller who knows the plaintext inputs and the seed on
//! file re-derives the same address. A wrong seed derives a different
//! address, so a lookup under it fails closed instead of resolving to
//! another record.

use crate::identity::AccountId;
use vstd::prelude::*;

verus! {

/// Number of bytes in a derived record address.
pub const ADDRESS_LEN: usize = 32;

/// The canonical auxiliary seed persisted with every record at creation.
pub const CANONICAL_SEED: u8 = 255;

/// The SHA-256 digest of a byte string.
pub uninterp spec fn sha256_of(data: Seq<u8>) -> Seq<u8>;

/// Relies on `solana_sha256_hasher::hashv`: the returned digest is the
/// 32-byte SHA-256 of the concatenation of the given slices, a function of
/// those bytes alone.
#[verifier::external_body]
fn hash_parts(tag: &Vec<u8>, parent: &Vec<u8>, name: &Vec<u8>, seed: u8) -> (r: Vec<u8>)
    ensures
        r@ == sha256_of(tag@ + parent@ + name@ + seq![seed]),
        r@.len() == 32,
{
    let digest = solana_sha256_hasher::hashv(&[
        tag.as_slice(),
        parent.as_slice(),
        name.as_slice(),
        &[seed],
    ]);
    digest.to_bytes().to_vec()
}

/// Namespace tag of vault records: the bytes of `"vault"`.
pub open spec fn vault_tag() -> Seq<u8> {
    seq![118u8, 97u8, 117u8, 108u8, 116u8]
}

/// Namespace tag of item records: the bytes of `"item"`.
pub open spec fn item_tag() -> Seq<u8> {
    seq![105u8, 116u8, 101u8, 109u8]
}

fn vault_tag_bytes() -> (r: Vec<u8>)
    ensures
        r@ == vault_tag(),
{
    let mut r: Vec<u8> = Vec::new();
    r.push(118);
    r.push(97);
    r.push(117);
    r.push(108);
    r.push(116);
    proof {
        assert(r@ =~= vault_tag());
    }
    r
}

fn item_tag_bytes() -> (r: Vec<u8>)
    ensures
        r@ == item_tag(),
{
    let mut r: Vec<u8> = Vec::new();
    r.push(105);
    r.push(116);
    r.push(101);
    r.push(109);
    proof {
        assert(r@ =~= item_tag());
    }
    r
}

/// The address of the vault of `custodian` named `vault_name`, under `seed`.
pub open spec fn vault_address_of(custodian: Seq<u8>, vault_name: Seq<u8>, seed: u8) -> Seq<u8> {
    sha256_of(vault_tag() + custodian + vault_name + seq![seed])
}

/// The address of the item named `item_id` inside the vault stored at
/// `vault_address`, under `seed`.
pub open spec fn item_address_of(vault_address: Seq<u8>, item_id: Seq<u8>, seed: u8) -> Seq<u8> {
    sha256_of(item_tag() + vault_address + item_id + seq![seed])
}

/// Derive the storage address of a vault from its custodian, its name and a
/// seed.
pub fn derive_vault_address(custodian: &AccountId, vault_name: &Vec<u8>, seed: u8) -> (r: Vec<
    u8,
>)
    ensures
        r@ == vault_address_of(custodian@, vault_name@, seed),
        r@.len() == ADDRESS_LEN,
{
    let tag = vault_tag_bytes();
    hash_parts(&tag, &custodian.bytes, vault_name, seed)
}

/// Derive the storage address of an item from its vault's address, its
/// identifier and a seed.
pub fn derive_item_address(vault_address: &Vec<u8>, item_id: &Vec<u8>, seed: u8) -> (r: Vec<u8>)
    ensures
        r@ == item_address_of(vault_address@, item_id@, seed),
        r@.len() == ADDRESS_LEN,
{
    let tag = item_tag_bytes();
    hash_parts(&tag, vault_address, item_id, seed)
}

} // verus!
