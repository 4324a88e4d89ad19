//! Account identities.
//!
//! An identity names a party on the ledger: a custodian, a depositor, an
//! owner, a redeemer. The ledger never interprets an identity; it only
//! compares identities and copies them into records and events. The
//! substrate that verifies signatures is outside this crate: an identity
//! parameter of an operation stands for a verified signature of that party.

use crate::bytes::{bytes_eq, copy_bytes};
use vstd::prelude::*;

verus! {

/// Number of bytes in a canonical account identity.
pub const IDENTITY_LEN: usize = 32;

/// The identity of an account, as a canonical 32-byte value.
#[derive(Debug, PartialEq, Eq)]
pub struct AccountId {
    pub bytes: Vec<u8>,
}

impl View for AccountId {
    type V = Seq<u8>;

    open spec fn view(&self) -> Seq<u8> {
        self.bytes@
    }
}

impl AccountId {
    /// Whether the identity is canonical: exactly 32 bytes.
    pub open spec fn wf(&self) -> bool {
        self@.len() == IDENTITY_LEN
    }

    /// Wrap raw identity bytes.
    pub fn new(bytes: Vec<u8>) -> (r: AccountId)
        ensures
            r@ == bytes@,
    {
        AccountId { bytes }
    }

    /// A fresh identity holding the same bytes.
    pub fn duplicate(&self) -> (r: AccountId)
        ensures
            r@ == self@,
    {
        AccountId { bytes: copy_bytes(&self.bytes) }
    }

    /// Whether two identities name the same account.
    pub fn same_as(&self, other: &AccountId) -> (r: bool)
        ensures
            r == (self@ == other@),
    {
        bytes_eq(&self.bytes, &other.bytes)
    }
}

} // verus!
