//! Emitted events.
//!
//! Events are append-only notifications of successful transitions, consumed
//! by external observers. An event is recorded exactly when the operation
//! that emits it commits. Vault initialization deliberately emits none.

use crate::identity::AccountId;
use crate::model::EventV;
use vstd::prelude::*;

verus! {

/// A claim was issued for a newly deposited item.
#[derive(Debug)]
pub struct ItemDeposited {
    pub item_account: Vec<u8>,
    pub item_id: Vec<u8>,
    pub depositor: AccountId,
    pub custodian: AccountId,
}

/// A claim changed owner.
#[derive(Debug)]
pub struct ClaimTransferred {
    pub item_account: Vec<u8>,
    pub old_owner: AccountId,
    pub new_owner: AccountId,
}

/// A claim was redeemed and is now terminal.
#[derive(Debug)]
pub struct ItemRedeemed {
    pub item_account: Vec<u8>,
    pub item_id: Vec<u8>,
    pub redeemer: AccountId,
    pub custodian: AccountId,
}

/// One entry of the ledger's event log.
#[derive(Debug)]
pub enum Event {
    Deposited(ItemDeposited),
    Transferred(ClaimTransferred),
    Redeemed(ItemRedeemed),
}

impl View for Event {
    type V = EventV;

    open spec fn view(&self) -> EventV {
        match self {
            Event::Deposited(e) => EventV::Deposited {
                item_account: e.item_account@,
                item_id: e.item_id@,
                depositor: e.depositor@,
                custodian: e.custodian@,
            },
            Event::Transferred(e) => EventV::Transferred {
                item_account: e.item_account@,
                old_owner: e.old_owner@,
                new_owner: e.new_owner@,
            },
            Event::Redeemed(e) => EventV::Redeemed {
                item_account: e.item_account@,
                item_id: e.item_id@,
                redeemer: e.redeemer@,
                custodian: e.custodian@,
            },
        }
    }
}

} // verus!
