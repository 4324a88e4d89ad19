//! The typed errors of the ledger.
//!
//! Every failure is a caller-input or authorization violation; none is
//! transient. A violated precondition aborts the whole operation with no
//! partial effect.

use vstd::prelude::*;

verus! {

/// Why a ledger operation was rejected.
#[derive(Clone, Copy, Debug, PartialEq, Eq, Structural)]
pub enum ErrorCode {
    /// A vault name longer than the 64-byte bound was supplied.
    NameTooLong,
    /// An item identifier longer than the 64-byte bound was supplied.
    IdTooLong,
    /// A metadata reference longer than the 200-byte bound was supplied.
    MetadataTooLong,
    /// The item is terminal: it was redeemed earlier and can change no more.
    AlreadyRedeemed,
    /// The issuance was not signed by the vault's recorded custodian.
    UnauthorizedIssuance,
    /// The transfer was not signed by the item's current owner.
    UnauthorizedTransfer,
    /// The redemption was not signed by the vault's recorded custodian.
    UnauthorizedRedemption,
    /// No record lives at the given address.
    RecordNotFound,
    /// A record already lives at the derived address.
    RecordAlreadyExists,
}

impl ErrorCode {
    /// A short human-readable description of the error.
    pub fn message(&self) -> (r: &'static str)
        ensures
            self is NameTooLong ==> r@ == "Vault name too long"@,
            self is IdTooLong ==> r@ == "Item id too long"@,
            self is MetadataTooLong ==> r@ == "Metadata reference too long"@,
            self is AlreadyRedeemed ==> r@ == "Item already redeemed"@,
            self is UnauthorizedIssuance ==> r@ == "Unauthorized issuance attempt"@,
            self is UnauthorizedTransfer ==> r@ == "Unauthorized transfer attempt"@,
            self is UnauthorizedRedemption ==> r@ == "Unauthorized redemption attempt"@,
            self is RecordNotFound ==> r@ == "No record at the derived address"@,
            self is RecordAlreadyExists ==> r@ == "A record already exists at the derived address"@,
    {
        match self {
            ErrorCode::NameTooLong => "Vault name too long",
            ErrorCode::IdTooLong => "Item id too long",
            ErrorCode::MetadataTooLong => "Metadata reference too long",
            ErrorCode::AlreadyRedeemed => "Item already redeemed",
            ErrorCode::UnauthorizedIssuance => "Unauthorized issuance attempt",
            ErrorCode::UnauthorizedTransfer => "Unauthorized transfer attempt",
            ErrorCode::UnauthorizedRedemption => "Unauthorized redemption attempt",
            ErrorCode::RecordNotFound => "No record at the derived address",
            ErrorCode::RecordAlreadyExists => "A record already exists at the derived address",
        }
    }
}

} // verus!
