//! The persisted records and their byte budgets.
//!
//! A vault record represents one custodian's issuing namespace; an item
//! record represents one deposited asset's claim. The byte budgets are hard
//! validation limits: inputs exceeding them are rejected before any
//! mutation.

use crate::identity::{AccountId, IDENTITY_LEN};
use vstd::prelude::*;

verus! {

/// Longest allowed vault name, in bytes.
pub const MAX_VAULT_NAME_LEN: usize = 64;

/// Longest allowed item identifier, in bytes.
pub const MAX_ITEM_ID_LEN: usize = 64;

/// Longest allowed metadata reference, in bytes.
pub const MAX_METADATA_LEN: usize = 200;

/// Fixed byte budget of a stored vault record: an 8-byte tag, the 32-byte
/// custodian, a 4-byte length prefix plus at most 64 name bytes, and the
/// 1-byte seed.
pub const VAULT_ACCOUNT_SPACE: usize = 8 + 32 + 4 + 64 + 1;

/// Fixed byte budget of a stored item record: an 8-byte tag, a 4-byte length
/// prefix plus at most 64 identifier bytes, the 32-byte custodian, the
/// 32-byte owner, the 8-byte deposit timestamp, the 1-byte redemption flag,
/// the optional metadata reference (1 + 4 + at most 200 bytes), the optional
/// redemption timestamp (1 + 8 bytes), and the 1-byte seed.
pub const ITEM_RECORD_SPACE: usize = 8 + 4 + 64 + 32 + 32 + 8 + 1 + 1 + 4 + 200 + 1 + 8 + 1;

/// One custodian's issuing namespace. Immutable after creation.
#[derive(Debug)]
pub struct VaultAccount {
    /// The account authorized to issue and redeem claims under this vault.
    pub custodian: AccountId,
    /// Human-chosen label, at most 64 bytes, part of the vault's address.
    pub vault_name: Vec<u8>,
    /// The addressing seed fixed at creation.
    pub bump: u8,
}

/// One deposited asset's claim.
#[derive(Debug)]
pub struct ItemRecord {
    /// Human-chosen label, at most 64 bytes, unique within its vault.
    pub item_id: Vec<u8>,
    /// Copied from the owning vault at issuance; the only party allowed to
    /// redeem.
    pub custodian: AccountId,
    /// The current claim holder: the depositor at issuance, then whoever the
    /// claim was last transferred to.
    pub depositor: AccountId,
    /// Time of issuance.
    pub deposit_ts: i64,
    /// Monotonic: set once, never cleared.
    pub redeemed: bool,
    /// Optional opaque reference, at most 200 bytes, fixed at issuance.
    pub metadata: Option<Vec<u8>>,
    /// Set exactly once, at redemption.
    pub redeem_ts: Option<i64>,
    /// The addressing seed fixed at creation.
    pub bump: u8,
}

/// Number of bytes a vault record occupies when serialized: an 8-byte tag,
/// the custodian, a 4-byte length prefix plus the name bytes, the seed.
pub open spec fn vault_serialized_size(custodian: Seq<u8>, vault_name: Seq<u8>) -> int {
    8 + custodian.len() as int + 4 + vault_name.len() as int + 1
}

/// Number of bytes an item record occupies when serialized.
pub open spec fn item_serialized_size(
    item_id: Seq<u8>,
    custodian: Seq<u8>,
    owner: Seq<u8>,
    metadata: Option<Seq<u8>>,
    redeem_ts: Option<i64>,
) -> int {
    8 + 4 + item_id.len() as int + custodian.len() as int + owner.len() as int + 8 + 1 + (
    match metadata {
        Some(m) => 1 + 4 + m.len() as int,
        None => 1int,
    }) + (match redeem_ts {
        Some(_) => 1 + 8int,
        None => 1int,
    }) + 1
}

/// A vault record within the field bounds fits its fixed byte budget.
pub proof fn lemma_vault_fits_space(custodian: Seq<u8>, vault_name: Seq<u8>)
    requires
        custodian.len() == IDENTITY_LEN,
        vault_name.len() <= MAX_VAULT_NAME_LEN,
    ensures
        vault_serialized_size(custodian, vault_name) <= VAULT_ACCOUNT_SPACE,
{
}

/// An item record within the field bounds fits its fixed byte budget.
pub proof fn lemma_item_fits_space(
    item_id: Seq<u8>,
    custodian: Seq<u8>,
    owner: Seq<u8>,
    metadata: Option<Seq<u8>>,
    redeem_ts: Option<i64>,
)
    requires
        item_id.len() <= MAX_ITEM_ID_LEN,
        custodian.len() == IDENTITY_LEN,
        owner.len() == IDENTITY_LEN,
        match metadata {
            Some(m) => m.len() <= MAX_METADATA_LEN,
            None => true,
        },
    ensures
        item_serialized_size(item_id, custodian, owner, metadata, redeem_ts)
            <= ITEM_RECORD_SPACE,
{
}

} // verus!
