//! The mathematical model of the ledger.
//!
//! The ledger is modelled as a key-addressed store of records: a sequence of
//! vault records, a sequence of item records, and the append-only sequence
//! of emitted events. Each of the four operations is described by a pair of
//! specification functions: one gives the returned value, the other the
//! ledger after the call. The executable ledger's contracts state that it
//! behaves exactly as these functions say.

use crate::addressing::{item_address_of, vault_address_of, CANONICAL_SEED};
use crate::errors::ErrorCode;
use crate::identity::IDENTITY_LEN;
use crate::records::{MAX_ITEM_ID_LEN, MAX_METADATA_LEN, MAX_VAULT_NAME_LEN};
use vstd::prelude::*;

verus! {

/// A stored vault record together with its address.
#[verifier::ext_equal]
pub struct VaultV {
    pub addr: Seq<u8>,
    pub custodian: Seq<u8>,
    pub vault_name: Seq<u8>,
    pub bump: u8,
}

/// A stored item record together with its address and its parent vault's
/// address.
#[verifier::ext_equal]
pub struct ItemV {
    pub addr: Seq<u8>,
    pub vault: Seq<u8>,
    pub item_id: Seq<u8>,
    pub custodian: Seq<u8>,
    pub owner: Seq<u8>,
    pub deposit_ts: i64,
    pub redeemed: bool,
    pub metadata: Option<Seq<u8>>,
    pub redeem_ts: Option<i64>,
    pub bump: u8,
}

/// An emitted event.
#[verifier::ext_equal]
pub enum EventV {
    Deposited { item_account: Seq<u8>, item_id: Seq<u8>, depositor: Seq<u8>, custodian: Seq<u8> },
    Transferred { item_account: Seq<u8>, old_owner: Seq<u8>, new_owner: Seq<u8> },
    Redeemed { item_account: Seq<u8>, item_id: Seq<u8>, redeemer: Seq<u8>, custodian: Seq<u8> },
}

/// The whole ledger.
#[verifier::ext_equal]
pub struct LedgerV {
    pub vaults: Seq<VaultV>,
    pub items: Seq<ItemV>,
    pub events: Seq<EventV>,
}

impl VaultV {
    /// Field bounds of a stored vault record.
    pub open spec fn wf(self) -> bool {
        &&& self.custodian.len() == IDENTITY_LEN
        &&& self.vault_name.len() <= MAX_VAULT_NAME_LEN
    }
}

impl ItemV {
    /// Field bounds and the redemption invariant of a stored item record:
    /// the record is redeemed exactly when its redemption timestamp is set.
    pub open spec fn wf(self) -> bool {
        &&& self.custodian.len() == IDENTITY_LEN
        &&& self.owner.len() == IDENTITY_LEN
        &&& self.item_id.len() <= MAX_ITEM_ID_LEN
        &&& match self.metadata {
            Some(m) => m.len() <= MAX_METADATA_LEN,
            None => true,
        }
        &&& (self.redeemed <==> self.redeem_ts is Some)
    }
}

impl LedgerV {
    /// Whether a vault record lives at `addr`.
    pub open spec fn has_vault(self, addr: Seq<u8>) -> bool {
        exists|i: int| 0 <= i < self.vaults.len() && (#[trigger] self.vaults[i]).addr == addr
    }

    /// The position of the vault record living at `addr`.
    pub open spec fn vault_index(self, addr: Seq<u8>) -> int {
        choose|i: int| 0 <= i < self.vaults.len() && (#[trigger] self.vaults[i]).addr == addr
    }

    /// The vault record living at `addr`.
    pub open spec fn vault_at(self, addr: Seq<u8>) -> VaultV {
        self.vaults[self.vault_index(addr)]
    }

    /// Whether an item record lives at `addr`.
    pub open spec fn has_item(self, addr: Seq<u8>) -> bool {
        exists|i: int| 0 <= i < self.items.len() && (#[trigger] self.items[i]).addr == addr
    }

    /// The position of the item record living at `addr`.
    pub open spec fn item_index(self, addr: Seq<u8>) -> int {
        choose|i: int| 0 <= i < self.items.len() && (#[trigger] self.items[i]).addr == addr
    }

    /// The item record living at `addr`.
    pub open spec fn item_at(self, addr: Seq<u8>) -> ItemV {
        self.items[self.item_index(addr)]
    }

    /// Whether any record lives at `addr`. Creation at a taken address must
    /// fail: this is the ledger's sole idempotency guard against double
    /// initialization and double issuance.
    pub open spec fn addr_taken(self, addr: Seq<u8>) -> bool {
        self.has_vault(addr) || self.has_item(addr)
    }

    /// Well-formedness of the store: every record within its field bounds,
    /// every address holding at most one record, and every item carrying the
    /// custodian of its (existing) parent vault.
    pub open spec fn wf(self) -> bool {
        &&& forall|i: int| 0 <= i < self.vaults.len() ==> (#[trigger] self.vaults[i]).wf()
        &&& forall|i: int| 0 <= i < self.items.len() ==> (#[trigger] self.items[i]).wf()
        &&& forall|i: int, j: int|
            0 <= i < self.vaults.len() && 0 <= j < self.vaults.len() && i != j
                ==> (#[trigger] self.vaults[i]).addr != (#[trigger] self.vaults[j]).addr
        &&& forall|i: int, j: int|
            0 <= i < self.items.len() && 0 <= j < self.items.len() && i != j
                ==> (#[trigger] self.items[i]).addr != (#[trigger] self.items[j]).addr
        &&& forall|i: int, j: int|
            0 <= i < self.vaults.len() && 0 <= j < self.items.len()
                ==> (#[trigger] self.vaults[i]).addr != (#[trigger] self.items[j]).addr
        &&& forall|j: int|
            0 <= j < self.items.len() ==> {
                &&& self.has_vault((#[trigger] self.items[j]).vault)
                &&& self.vault_at(self.items[j].vault).custodian == self.items[j].custodian
            }
    }

    /// Every record sits at the address derived from its own fields and its
    /// seed on file: the store never holds a record that its plaintext
    /// inputs would not re-derive.
    pub open spec fn addressed(self) -> bool {
        &&& forall|i: int|
            0 <= i < self.vaults.len() ==> (#[trigger] self.vaults[i]).addr == vault_address_of(
                self.vaults[i].custodian,
                self.vaults[i].vault_name,
                self.vaults[i].bump,
            )
        &&& forall|j: int|
            0 <= j < self.items.len() ==> (#[trigger] self.items[j]).addr == item_address_of(
                self.items[j].vault,
                self.items[j].item_id,
                self.items[j].bump,
            )
    }

    /// The empty ledger.
    pub open spec fn empty() -> LedgerV {
        LedgerV { vaults: Seq::empty(), items: Seq::empty(), events: Seq::empty() }
    }
}

/// The vault record living at `l.vaults[k]` is found again by its address.
pub proof fn lemma_vault_at_index(l: LedgerV, k: int)
    requires
        l.wf(),
        0 <= k < l.vaults.len(),
    ensures
        l.has_vault(l.vaults[k].addr),
        l.vault_index(l.vaults[k].addr) == k,
        l.vault_at(l.vaults[k].addr) == l.vaults[k],
{
    assert(l.has_vault(l.vaults[k].addr));
    let j = l.vault_index(l.vaults[k].addr);
    if j != k {
        assert(l.vaults[j].addr != l.vaults[k].addr);
        assert(false);
    }
}

/// The item record living at `l.items[k]` is found again by its address.
pub proof fn lemma_item_at_index(l: LedgerV, k: int)
    requires
        l.wf(),
        0 <= k < l.items.len(),
    ensures
        l.has_item(l.items[k].addr),
        l.item_index(l.items[k].addr) == k,
        l.item_at(l.items[k].addr) == l.items[k],
{
    assert(l.has_item(l.items[k].addr));
    let j = l.item_index(l.items[k].addr);
    if j != k {
        assert(l.items[j].addr != l.items[k].addr);
        assert(false);
    }
}

/// A fresh address is no stored vault's and no stored item's address.
pub proof fn lemma_fresh_addr(l: LedgerV, a: Seq<u8>)
    requires
        !l.addr_taken(a),
    ensures
        forall|i: int| 0 <= i < l.vaults.len() ==> (#[trigger] l.vaults[i]).addr != a,
        forall|j: int| 0 <= j < l.items.len() ==> (#[trigger] l.items[j]).addr != a,
{
    assert forall|i: int| 0 <= i < l.vaults.len() implies (#[trigger] l.vaults[i]).addr != a by {
        if l.vaults[i].addr == a {
            assert(l.has_vault(a));
        }
    }
    assert forall|j: int| 0 <= j < l.items.len() implies (#[trigger] l.items[j]).addr != a by {
        if l.items[j].addr == a {
            assert(l.has_item(a));
        }
    }
}

/// What `initialize_vault` returns.
pub open spec fn initialize_vault_result(
    l: LedgerV,
    custodian: Seq<u8>,
    vault_name: Seq<u8>,
) -> Result<(), ErrorCode> {
    if vault_name.len() > MAX_VAULT_NAME_LEN {
        Err(ErrorCode::NameTooLong)
    } else if l.addr_taken(vault_address_of(custodian, vault_name, CANONICAL_SEED)) {
        Err(ErrorCode::RecordAlreadyExists)
    } else {
        Ok(())
    }
}

/// The ledger after `initialize_vault`: unchanged on failure; on success,
/// one new vault record for `custodian` under `vault_name`, stored at its
/// derived address with the canonical seed. No event is emitted.
pub open spec fn initialize_vault_post(
    l: LedgerV,
    custodian: Seq<u8>,
    vault_name: Seq<u8>,
) -> LedgerV {
    if initialize_vault_result(l, custodian, vault_name) is Ok {
        LedgerV {
            vaults: l.vaults.push(
                VaultV {
                    addr: vault_address_of(custodian, vault_name, CANONICAL_SEED),
                    custodian,
                    vault_name,
                    bump: CANONICAL_SEED,
                },
            ),
            ..l
        }
    } else {
        l
    }
}

/// What `deposit_and_issue` returns. The custodian signs acceptance of the
/// deposit and must be the custodian named on the target vault; the issued
/// record copies its custodian from the vault.
pub open spec fn deposit_and_issue_result(
    l: LedgerV,
    custodian: Seq<u8>,
    vault: Seq<u8>,
    item_id: Seq<u8>,
    metadata: Option<Seq<u8>>,
) -> Result<(), ErrorCode> {
    if item_id.len() > MAX_ITEM_ID_LEN {
        Err(ErrorCode::IdTooLong)
    } else if match metadata {
        Some(m) => m.len() > MAX_METADATA_LEN,
        None => false,
    } {
        Err(ErrorCode::MetadataTooLong)
    } else if !l.has_vault(vault) {
        Err(ErrorCode::RecordNotFound)
    } else if l.addr_taken(item_address_of(vault, item_id, CANONICAL_SEED)) {
        Err(ErrorCode::RecordAlreadyExists)
    } else if l.vault_at(vault).custodian != custodian {
        Err(ErrorCode::UnauthorizedIssuance)
    } else {
        Ok(())
    }
}

/// The ledger after `deposit_and_issue`: unchanged on failure; on success,
/// one new active item record owned by the depositor, and one `Deposited`
/// event.
pub open spec fn deposit_and_issue_post(
    l: LedgerV,
    custodian: Seq<u8>,
    depositor: Seq<u8>,
    vault: Seq<u8>,
    item_id: Seq<u8>,
    metadata: Option<Seq<u8>>,
    now: i64,
) -> LedgerV {
    if deposit_and_issue_result(l, custodian, vault, item_id, metadata) is Ok {
        let addr = item_address_of(vault, item_id, CANONICAL_SEED);
        let vault_custodian = l.vault_at(vault).custodian;
        LedgerV {
            items: l.items.push(
                ItemV {
                    addr,
                    vault,
                    item_id,
                    custodian: vault_custodian,
                    owner: depositor,
                    deposit_ts: now,
                    redeemed: false,
                    metadata,
                    redeem_ts: None,
                    bump: CANONICAL_SEED,
                },
            ),
            events: l.events.push(
                EventV::Deposited {
                    item_account: addr,
                    item_id,
                    depositor,
                    custodian: vault_custodian,
                },
            ),
            ..l
        }
    } else {
        l
    }
}

/// What `transfer_claim` returns.
pub open spec fn transfer_claim_result(
    l: LedgerV,
    current_owner: Seq<u8>,
    vault: Seq<u8>,
    item: Seq<u8>,
) -> Result<(), ErrorCode> {
    if !l.has_item(item) {
        Err(ErrorCode::RecordNotFound)
    } else if l.item_at(item).vault != vault {
        Err(ErrorCode::RecordNotFound)
    } else if l.item_at(item).redeemed {
        Err(ErrorCode::AlreadyRedeemed)
    } else if l.item_at(item).owner != current_owner {
        Err(ErrorCode::UnauthorizedTransfer)
    } else {
        Ok(())
    }
}

/// The ledger after `transfer_claim`: unchanged on failure; on success, the
/// item's owner is `new_owner`, every other field is kept, and one
/// `Transferred` event is emitted.
pub open spec fn transfer_claim_post(
    l: LedgerV,
    current_owner: Seq<u8>,
    vault: Seq<u8>,
    item: Seq<u8>,
    new_owner: Seq<u8>,
) -> LedgerV {
    if transfer_claim_result(l, current_owner, vault, item) is Ok {
        let k = l.item_index(item);
        let before = l.items[k];
        LedgerV {
            items: l.items.update(k, ItemV { owner: new_owner, ..before }),
            events: l.events.push(
                EventV::Transferred {
                    item_account: item,
                    old_owner: before.owner,
                    new_owner,
                },
            ),
            ..l
        }
    } else {
        l
    }
}

/// What `redeem_item` returns. The custodian is re-validated against the
/// vault's recorded custodian, not merely the item's; the redeemer co-signs
/// presentation and is deliberately not required to equal the owner.
pub open spec fn redeem_item_result(
    l: LedgerV,
    custodian: Seq<u8>,
    vault: Seq<u8>,
    item: Seq<u8>,
) -> Result<(), ErrorCode> {
    if !l.has_item(item) {
        Err(ErrorCode::RecordNotFound)
    } else if l.item_at(item).vault != vault {
        Err(ErrorCode::RecordNotFound)
    } else if l.item_at(item).redeemed {
        Err(ErrorCode::AlreadyRedeemed)
    } else if l.vault_at(vault).custodian != custodian {
        Err(ErrorCode::UnauthorizedRedemption)
    } else {
        Ok(())
    }
}

/// The ledger after `redeem_item`: unchanged on failure; on success, the
/// item is terminal — redeemed, with its redemption timestamp set and every
/// other field kept — and one `Redeemed` event is emitted.
pub open spec fn redeem_item_post(
    l: LedgerV,
    custodian: Seq<u8>,
    redeemer: Seq<u8>,
    vault: Seq<u8>,
    item: Seq<u8>,
    now: i64,
) -> LedgerV {
    if redeem_item_result(l, custodian, vault, item) is Ok {
        let k = l.item_index(item);
        let before = l.items[k];
        LedgerV {
            items: l.items.update(
                k,
                ItemV { redeemed: true, redeem_ts: Some(now), ..before },
            ),
            events: l.events.push(
                EventV::Redeemed {
                    item_account: item,
                    item_id: before.item_id,
                    redeemer,
                    custodian,
                },
            ),
            ..l
        }
    } else {
        l
    }
}

/// `initialize_vault` preserves well-formedness and derived addressing.
pub proof fn lemma_initialize_vault_preserves(l: LedgerV, custodian: Seq<u8>, vault_name: Seq<u8>)
    requires
        l.wf(),
        custodian.len() == IDENTITY_LEN,
    ensures
        initialize_vault_post(l, custodian, vault_name).wf(),
        l.addressed() ==> initialize_vault_post(l, custodian, vault_name).addressed(),
{
    let post = initialize_vault_post(l, custodian, vault_name);
    if initialize_vault_result(l, custodian, vault_name) is Ok {
        let a = vault_address_of(custodian, vault_name, CANONICAL_SEED);
        let n = l.vaults.len() as int;
        lemma_fresh_addr(l, a);
        assert(forall|i: int| 0 <= i < n ==> post.vaults[i] == l.vaults[i]);
        assert(post.vaults[n].wf());
        assert forall|j: int|
            0 <= j < post.items.len() implies {
                &&& post.has_vault((#[trigger] post.items[j]).vault)
                &&& post.vault_at(post.items[j].vault).custodian == post.items[j].custodian
            } by {
            let it = l.items[j];
            assert(l.has_vault(it.vault));
            let vi = l.vault_index(it.vault);
            lemma_vault_at_index(l, vi);
            assert(post.vaults[vi].addr == it.vault);
            assert(post.has_vault(it.vault));
            let pj = post.vault_index(it.vault);
            assert(0 <= pj < n + 1 && post.vaults[pj].addr == it.vault);
            if pj == n {
                assert(false);
            }
            if pj != vi {
                assert(l.vaults[pj].addr != l.vaults[vi].addr);
                assert(false);
            }
        }
    }
}

/// `deposit_and_issue` preserves well-formedness and derived addressing.
pub proof fn lemma_deposit_and_issue_preserves(
    l: LedgerV,
    custodian: Seq<u8>,
    depositor: Seq<u8>,
    vault: Seq<u8>,
    item_id: Seq<u8>,
    metadata: Option<Seq<u8>>,
    now: i64,
)
    requires
        l.wf(),
        depositor.len() == IDENTITY_LEN,
    ensures
        deposit_and_issue_post(l, custodian, depositor, vault, item_id, metadata, now).wf(),
        l.addressed() ==> deposit_and_issue_post(
            l,
            custodian,
            depositor,
            vault,
            item_id,
            metadata,
            now,
        ).addressed(),
{
    let post = deposit_and_issue_post(l, custodian, depositor, vault, item_id, metadata, now);
    if deposit_and_issue_result(l, custodian, vault, item_id, metadata) is Ok {
        let a = item_address_of(vault, item_id, CANONICAL_SEED);
        let n = l.items.len() as int;
        lemma_fresh_addr(l, a);
        assert(l.has_vault(vault));
        let vi = l.vault_index(vault);
        lemma_vault_at_index(l, vi);
        assert(l.vaults[vi].wf());
        assert(forall|j: int| 0 <= j < n ==> post.items[j] == l.items[j]);
        assert(post.items[n].wf());
        assert(post.vaults == l.vaults);
        assert forall|j: int|
            0 <= j < post.items.len() implies {
                &&& post.has_vault((#[trigger] post.items[j]).vault)
                &&& post.vault_at(post.items[j].vault).custodian == post.items[j].custodian
            } by {
            let it = post.items[j];
            assert(l.has_vault(it.vault));
            assert(post.has_vault(it.vault));
            assert(post.vault_index(it.vault) == l.vault_index(it.vault));
            if j < n {
                assert(l.vault_at(it.vault).custodian == it.custodian);
            } else {
                assert(it.vault == vault);
                assert(it.custodian == l.vault_at(vault).custodian);
            }
        }
    }
}

/// `transfer_claim` preserves well-formedness and derived addressing.
pub proof fn lemma_transfer_claim_preserves(
    l: LedgerV,
    current_owner: Seq<u8>,
    vault: Seq<u8>,
    item: Seq<u8>,
    new_owner: Seq<u8>,
)
    requires
        l.wf(),
        new_owner.len() == IDENTITY_LEN,
    ensures
        transfer_claim_post(l, current_owner, vault, item, new_owner).wf(),
        l.addressed() ==> transfer_claim_post(l, current_owner, vault, item, new_owner).addressed(),
{
    let post = transfer_claim_post(l, current_owner, vault, item, new_owner);
    if transfer_claim_result(l, current_owner, vault, item) is Ok {
        let k = l.item_index(item);
        assert(l.has_item(item));
        assert(0 <= k < l.items.len() && l.items[k].addr == item);
        assert(post.items.len() == l.items.len());
        assert(forall|i: int| 0 <= i < l.items.len() && i != k ==> post.items[i] == l.items[i]);
        assert(post.items[k].wf());
        assert(post.vaults == l.vaults);
        assert forall|j: int|
            0 <= j < post.items.len() implies {
                &&& post.has_vault((#[trigger] post.items[j]).vault)
                &&& post.vault_at(post.items[j].vault).custodian == post.items[j].custodian
            } by {
            assert(post.items[j].vault == l.items[j].vault);
            assert(post.items[j].custodian == l.items[j].custodian);
            assert(l.has_vault(l.items[j].vault));
            assert(post.has_vault(l.items[j].vault));
            assert(post.vault_index(l.items[j].vault) == l.vault_index(l.items[j].vault));
        }
        assert(forall|i: int|
            0 <= i < post.items.len() ==> (#[trigger] post.items[i]).addr == l.items[i].addr);
    }
}

/// `redeem_item` preserves well-formedness and derived addressing.
pub proof fn lemma_redeem_item_preserves(
    l: LedgerV,
    custodian: Seq<u8>,
    redeemer: Seq<u8>,
    vault: Seq<u8>,
    item: Seq<u8>,
    now: i64,
)
    requires
        l.wf(),
    ensures
        redeem_item_post(l, custodian, redeemer, vault, item, now).wf(),
        l.addressed() ==> redeem_item_post(l, custodian, redeemer, vault, item, now).addressed(),
{
    let post = redeem_item_post(l, custodian, redeemer, vault, item, now);
    if redeem_item_result(l, custodian, vault, item) is Ok {
        let k = l.item_index(item);
        assert(l.has_item(item));
        assert(0 <= k < l.items.len() && l.items[k].addr == item);
        assert(post.items.len() == l.items.len());
        assert(forall|i: int| 0 <= i < l.items.len() && i != k ==> post.items[i] == l.items[i]);
        assert(post.items[k].wf());
        assert(post.vaults == l.vaults);
        assert forall|j: int|
            0 <= j < post.items.len() implies {
                &&& post.has_vault((#[trigger] post.items[j]).vault)
                &&& post.vault_at(post.items[j].vault).custodian == post.items[j].custodian
            } by {
            assert(post.items[j].vault == l.items[j].vault);
            assert(post.items[j].custodian == l.items[j].custodian);
            assert(l.has_vault(l.items[j].vault));
            assert(post.has_vault(l.items[j].vault));
            assert(post.vault_index(l.items[j].vault) == l.vault_index(l.items[j].vault));
        }
        assert(forall|i: int|
            0 <= i < post.items.len() ==> (#[trigger] post.items[i]).addr == l.items[i].addr);
    }
}

} // verus!
