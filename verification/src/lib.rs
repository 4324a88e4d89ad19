//! A custody-claim ledger.
//!
//! The ledger records the deposit of an external asset with a trusted
//! custodian, issues a transferable claim on the deposited asset, and lets
//! the custodian later redeem (extinguish) the claim when the asset is
//! returned. Records are stored at deterministically derived addresses, every
//! mutating operation is gated by the correct signer, and each record's
//! lifecycle is strictly monotonic: no un-redeeming, no re-issuing under the
//! same identifier, no transferring after redemption.

pub mod addressing;
pub mod bytes;
pub mod errors;
pub mod events;
pub mod identity;
pub mod laws;
pub mod ledger;
pub mod model;
pub mod records;
