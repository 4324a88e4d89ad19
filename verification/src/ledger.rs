//! The executable ledger and its four operations.
//!
//! The ledger is a key-addressed store of vault and item records plus the
//! append-only event log. Each operation is a pure function of the current
//! store and its inputs: it validates lengths, resolves the addressed
//! records, checks the required signers, and either mutates the store and
//! emits the operation's event, or returns a typed error and leaves the
//! store untouched. The contracts state that each operation behaves exactly
//! as the model's `_result` and `_post` functions say.

use crate::addressing::{derive_item_address, derive_vault_address, CANONICAL_SEED};
use crate::bytes::{bytes_eq, copy_bytes};
use crate::errors::ErrorCode;
use crate::events::{ClaimTransferred, Event, ItemDeposited, ItemRedeemed};
use crate::identity::{AccountId, IDENTITY_LEN};
use crate::model::{
    deposit_and_issue_post, deposit_and_issue_result, initialize_vault_post,
    initialize_vault_result, lemma_deposit_and_issue_preserves, lemma_initialize_vault_preserves,
    lemma_item_at_index, lemma_redeem_item_preserves, lemma_transfer_claim_preserves,
    lemma_vault_at_index, redeem_item_post, redeem_item_result, transfer_claim_post,
    transfer_claim_result, ItemV, LedgerV, VaultV,
};
use crate::records::{ItemRecord, VaultAccount, MAX_ITEM_ID_LEN, MAX_METADATA_LEN,
    MAX_VAULT_NAME_LEN};
use vstd::prelude::*;

verus! {

/// The signer of a vault initialization: the would-be custodian.
pub struct InitializeVault {
    pub custodian: AccountId,
}

/// The signers and target of an issuance: the custodian — who must be the
/// custodian named on the target vault — signs acceptance of the deposit,
/// the depositor receives the claim, and `vault` addresses the custodian's
/// vault record.
pub struct DepositAndIssue {
    pub custodian: AccountId,
    pub depositor: AccountId,
    pub vault: Vec<u8>,
}

/// The signer and target of a transfer: the current owner signs, and the
/// item record is addressed by its vault's address and its own.
pub struct TransferClaim {
    pub current_owner: AccountId,
    pub vault: Vec<u8>,
    pub item: Vec<u8>,
}

/// The signers and target of a redemption: the custodian confirms release
/// of the asset, the redeemer presents the claim.
pub struct RedeemItem {
    pub custodian: AccountId,
    pub redeemer: AccountId,
    pub vault: Vec<u8>,
    pub item: Vec<u8>,
}

/// A stored vault record keyed by its derived address.
#[derive(Debug)]
pub struct VaultEntry {
    pub address: Vec<u8>,
    pub account: VaultAccount,
}

impl View for VaultEntry {
    type V = VaultV;

    open spec fn view(&self) -> VaultV {
        VaultV {
            addr: self.address@,
            custodian: self.account.custodian@,
            vault_name: self.account.vault_name@,
            bump: self.account.bump,
        }
    }
}

/// A stored item record keyed by its derived address, with the address of
/// its parent vault.
#[derive(Debug)]
pub struct ItemEntry {
    pub address: Vec<u8>,
    pub vault: Vec<u8>,
    pub record: ItemRecord,
}

impl View for ItemEntry {
    type V = ItemV;

    open spec fn view(&self) -> ItemV {
        ItemV {
            addr: self.address@,
            vault: self.vault@,
            item_id: self.record.item_id@,
            custodian: self.record.custodian@,
            owner: self.record.depositor@,
            deposit_ts: self.record.deposit_ts,
            redeemed: self.record.redeemed,
            metadata: self.record.metadata.deep_view(),
            redeem_ts: self.record.redeem_ts,
            bump: self.record.bump,
        }
    }
}

/// The whole store: vault records, item records, and the event log.
#[derive(Debug)]
pub struct Ledger {
    pub vaults: Vec<VaultEntry>,
    pub items: Vec<ItemEntry>,
    pub events: Vec<Event>,
}

impl View for Ledger {
    type V = LedgerV;

    open spec fn view(&self) -> LedgerV {
        LedgerV {
            vaults: self.vaults@.map_values(|e: VaultEntry| e@),
            items: self.items@.map_values(|e: ItemEntry| e@),
            events: self.events@.map_values(|e: Event| e@),
        }
    }
}

/// The position of the vault entry stored at `addr`, if any.
fn find_vault(vaults: &Vec<VaultEntry>, addr: &Vec<u8>) -> (r: Option<usize>)
    ensures
        match r {
            Some(i) => i < vaults@.len() && vaults@[i as int].address@ == addr@,
            None => forall|i: int| 0 <= i < vaults@.len() ==> vaults@[i].address@ != addr@,
        },
{
    let mut i: usize = 0;
    while i < vaults.len()
        invariant
            i <= vaults@.len(),
            forall|j: int| 0 <= j < i ==> vaults@[j].address@ != addr@,
        decreases vaults@.len() - i,
    {
        if bytes_eq(&vaults[i].address, addr) {
            return Some(i);
        }
        i = i + 1;
    }
    None
}

/// The position of the item entry stored at `addr`, if any.
fn find_item(items: &Vec<ItemEntry>, addr: &Vec<u8>) -> (r: Option<usize>)
    ensures
        match r {
            Some(i) => i < items@.len() && items@[i as int].address@ == addr@,
            None => forall|i: int| 0 <= i < items@.len() ==> items@[i].address@ != addr@,
        },
{
    let mut i: usize = 0;
    while i < items.len()
        invariant
            i <= items@.len(),
            forall|j: int| 0 <= j < i ==> items@[j].address@ != addr@,
        decreases items@.len() - i,
    {
        if bytes_eq(&items[i].address, addr) {
            return Some(i);
        }
        i = i + 1;
    }
    None
}

impl Ledger {
    /// The vault record stored at `address`, if any.
    pub fn vault_record(&self, address: &Vec<u8>) -> (r: Option<&VaultAccount>)
        requires
            self@.wf(),
        ensures
            match r {
                Some(v) => self@.has_vault(address@) && self@.vault_at(address@) == (VaultV {
                    addr: address@,
                    custodian: v.custodian@,
                    vault_name: v.vault_name@,
                    bump: v.bump,
                }),
                None => !self@.has_vault(address@),
            },
    {
        match find_vault(&self.vaults, address) {
            Some(i) => {
                proof {
                    lemma_vault_at_index(self@, i as int);
                }
                Some(&self.vaults[i].account)
            },
            None => {
                proof {
                    if self@.has_vault(address@) {
                        let i = self@.vault_index(address@);
                        assert(self.vaults@[i].address@ == address@);
                        assert(false);
                    }
                }
                None
            },
        }
    }

    /// The item record stored at `address`, if any.
    pub fn item_record(&self, address: &Vec<u8>) -> (r: Option<&ItemRecord>)
        requires
            self@.wf(),
        ensures
            match r {
                Some(it) => self@.has_item(address@) && self@.item_at(address@) == (ItemV {
                    addr: address@,
                    vault: self@.item_at(address@).vault,
                    item_id: it.item_id@,
                    custodian: it.custodian@,
                    owner: it.depositor@,
                    deposit_ts: it.deposit_ts,
                    redeemed: it.redeemed,
                    metadata: it.metadata.deep_view(),
                    redeem_ts: it.redeem_ts,
                    bump: it.bump,
                }),
                None => !self@.has_item(address@),
            },
    {
        match find_item(&self.items, address) {
            Some(i) => {
                proof {
                    lemma_item_at_index(self@, i as int);
                }
                Some(&self.items[i].record)
            },
            None => {
                proof {
                    if self@.has_item(address@) {
                        let i = self@.item_index(address@);
                        assert(self.items@[i].address@ == address@);
                        assert(false);
                    }
                }
                None
            },
        }
    }

    /// The empty ledger: no records, no events.
    pub fn new() -> (r: Ledger)
        ensures
            r@ == LedgerV::empty(),
            r@.wf(),
            r@.addressed(),
    {
        let r = Ledger { vaults: Vec::new(), items: Vec::new(), events: Vec::new() };
        proof {
            assert(r@ =~~= LedgerV::empty());
        }
        r
    }

    /// Create the custodian's vault named `vault_name`.
    ///
    /// Fails with `NameTooLong` on a name over 64 bytes, and with
    /// `RecordAlreadyExists` when the derived address already holds a
    /// record; otherwise stores the new vault record at its derived address
    /// under the canonical seed. No event is emitted.
    pub fn initialize_vault(&mut self, ctx: InitializeVault, vault_name: Vec<u8>) -> (r: Result<
        (),
        ErrorCode,
    >)
        requires
            old(self)@.wf(),
            ctx.custodian@.len() == IDENTITY_LEN,
        ensures
            final(self)@.wf(),
            old(self)@.addressed() ==> final(self)@.addressed(),
            r == initialize_vault_result(old(self)@, ctx.custodian@, vault_name@),
            final(self)@ == initialize_vault_post(old(self)@, ctx.custodian@, vault_name@),
    {
        if vault_name.len() > MAX_VAULT_NAME_LEN {
            return Err(ErrorCode::NameTooLong);
        }
        let address = derive_vault_address(&ctx.custodian, &vault_name, CANONICAL_SEED);
        let vhit = find_vault(&self.vaults, &address);
        let ihit = find_item(&self.items, &address);
        if vhit.is_some() || ihit.is_some() {
            proof {
                let pre = old(self)@;
                if vhit is Some {
                    let i = vhit->0 as int;
                    assert(pre.vaults[i].addr == address@);
                    assert(pre.has_vault(address@));
                } else {
                    let i = ihit->0 as int;
                    assert(pre.items[i].addr == address@);
                    assert(pre.has_item(address@));
                }
            }
            return Err(ErrorCode::RecordAlreadyExists);
        }
        proof {
            let pre = old(self)@;
            if pre.has_vault(address@) {
                let i = pre.vault_index(address@);
                assert(pre.vaults[i].addr == address@);
                assert(self.vaults@[i].address@ == address@);
                assert(false);
            }
            if pre.has_item(address@) {
                let i = pre.item_index(address@);
                assert(pre.items[i].addr == address@);
                assert(self.items@[i].address@ == address@);
                assert(false);
            }
        }
        self.vaults.push(
            VaultEntry {
                address,
                account: VaultAccount {
                    custodian: ctx.custodian,
                    vault_name,
                    bump: CANONICAL_SEED,
                },
            },
        );
        proof {
            let pre = old(self)@;
            let post = initialize_vault_post(pre, ctx.custodian@, vault_name@);
            lemma_initialize_vault_preserves(pre, ctx.custodian@, vault_name@);
            assert(self@.vaults =~~= post.vaults);
            assert(self@.items =~~= post.items);
            assert(self@.events =~~= post.events);
            assert(self@ =~~= post);
        }
        Ok(())
    }

    /// Issue a claim for a newly deposited item in the vault at `ctx.vault`.
    ///
    /// Fails with `IdTooLong` on an identifier over 64 bytes, with
    /// `MetadataTooLong` on a metadata reference over 200 bytes, with
    /// `RecordNotFound` when no vault record lives at `ctx.vault`, with
    /// `RecordAlreadyExists` when the derived item address already holds a
    /// record, and with `UnauthorizedIssuance` when `ctx.custodian` is not
    /// the custodian named on the target vault. Otherwise stores a new
    /// active item record — custodian copied from the vault, owned by the
    /// depositor, deposited at `now` — and emits the `Deposited` event.
    pub fn deposit_and_issue(
        &mut self,
        ctx: DepositAndIssue,
        item_id: Vec<u8>,
        metadata: Option<Vec<u8>>,
        now: i64,
    ) -> (r: Result<(), ErrorCode>)
        requires
            old(self)@.wf(),
            ctx.depositor@.len() == IDENTITY_LEN,
        ensures
            final(self)@.wf(),
            old(self)@.addressed() ==> final(self)@.addressed(),
            r == deposit_and_issue_result(
                old(self)@,
                ctx.custodian@,
                ctx.vault@,
                item_id@,
                metadata.deep_view(),
            ),
            final(self)@ == deposit_and_issue_post(
                old(self)@,
                ctx.custodian@,
                ctx.depositor@,
                ctx.vault@,
                item_id@,
                metadata.deep_view(),
                now,
            ),
    {
        if item_id.len() > MAX_ITEM_ID_LEN {
            return Err(ErrorCode::IdTooLong);
        }
        if let Some(m) = &metadata {
            if m.len() > MAX_METADATA_LEN {
                proof {
                    assert(m.deep_view() =~= m@);
                }
                return Err(ErrorCode::MetadataTooLong);
            }
        }
        proof {
            if metadata is Some {
                assert(metadata->0.deep_view() =~= metadata->0@);
            }
        }
        let vi = match find_vault(&self.vaults, &ctx.vault) {
            Some(i) => i,
            None => {
                proof {
                    let pre = old(self)@;
                    if pre.has_vault(ctx.vault@) {
                        let i = pre.vault_index(ctx.vault@);
                        assert(pre.vaults[i].addr == ctx.vault@);
                        assert(self.vaults@[i].address@ == ctx.vault@);
                        assert(false);
                    }
                }
                return Err(ErrorCode::RecordNotFound);
            },
        };
        proof {
            lemma_vault_at_index(old(self)@, vi as int);
        }
        let item_address = derive_item_address(&ctx.vault, &item_id, CANONICAL_SEED);
        let vhit = find_vault(&self.vaults, &item_address);
        let ihit = find_item(&self.items, &item_address);
        if vhit.is_some() || ihit.is_some() {
            proof {
                let pre = old(self)@;
                if vhit is Some {
                    let i = vhit->0 as int;
                    assert(pre.vaults[i].addr == item_address@);
                    assert(pre.has_vault(item_address@));
                } else {
                    let i = ihit->0 as int;
                    assert(pre.items[i].addr == item_address@);
                    assert(pre.has_item(item_address@));
                }
            }
            return Err(ErrorCode::RecordAlreadyExists);
        }
        proof {
            let pre = old(self)@;
            if pre.has_vault(item_address@) {
                let i = pre.vault_index(item_address@);
                assert(pre.vaults[i].addr == item_address@);
                assert(self.vaults@[i].address@ == item_address@);
                assert(false);
            }
            if pre.has_item(item_address@) {
                let i = pre.item_index(item_address@);
                assert(pre.items[i].addr == item_address@);
                assert(self.items@[i].address@ == item_address@);
                assert(false);
            }
        }
        if !self.vaults[vi].account.custodian.same_as(&ctx.custodian) {
            return Err(ErrorCode::UnauthorizedIssuance);
        }
        let custodian = self.vaults[vi].account.custodian.duplicate();
        let event = Event::Deposited(
            ItemDeposited {
                item_account: copy_bytes(&item_address),
                item_id: copy_bytes(&item_id),
                depositor: ctx.depositor.duplicate(),
                custodian: custodian.duplicate(),
            },
        );
        let record = ItemRecord {
            item_id,
            custodian,
            depositor: ctx.depositor,
            deposit_ts: now,
            redeemed: false,
            metadata,
            redeem_ts: None,
            bump: CANONICAL_SEED,
        };
        self.items.push(ItemEntry { address: item_address, vault: ctx.vault, record });
        self.events.push(event);
        proof {
            let pre = old(self)@;
            let post = deposit_and_issue_post(
                pre,
                ctx.custodian@,
                ctx.depositor@,
                ctx.vault@,
                item_id@,
                metadata.deep_view(),
                now,
            );
            lemma_deposit_and_issue_preserves(
                pre,
                ctx.custodian@,
                ctx.depositor@,
                ctx.vault@,
                item_id@,
                metadata.deep_view(),
                now,
            );
            assert(self@.vaults =~~= post.vaults);
            assert(self@.items =~~= post.items);
            assert(self@.events =~~= post.events);
            assert(self@ =~~= post);
        }
        Ok(())
    }

    /// Transfer the claim on the item at `ctx.item` to `new_owner`.
    ///
    /// Fails with `RecordNotFound` when no item record lives at `ctx.item`
    /// or when the record does not belong to the vault at `ctx.vault`, with
    /// `AlreadyRedeemed` when the item is terminal, and with
    /// `UnauthorizedTransfer` when `ctx.current_owner` is not the item's
    /// current owner. Otherwise sets the owner to `new_owner`, changes no
    /// other field, and emits the `Transferred` event.
    pub fn transfer_claim(&mut self, ctx: TransferClaim, new_owner: AccountId) -> (r: Result<
        (),
        ErrorCode,
    >)
        requires
            old(self)@.wf(),
            new_owner@.len() == IDENTITY_LEN,
        ensures
            final(self)@.wf(),
            old(self)@.addressed() ==> final(self)@.addressed(),
            r == transfer_claim_result(old(self)@, ctx.current_owner@, ctx.vault@, ctx.item@),
            final(self)@ == transfer_claim_post(
                old(self)@,
                ctx.current_owner@,
                ctx.vault@,
                ctx.item@,
                new_owner@,
            ),
    {
        let ii = match find_item(&self.items, &ctx.item) {
            Some(i) => i,
            None => {
                proof {
                    let pre = old(self)@;
                    if pre.has_item(ctx.item@) {
                        let i = pre.item_index(ctx.item@);
                        assert(pre.items[i].addr == ctx.item@);
                        assert(self.items@[i].address@ == ctx.item@);
                        assert(false);
                    }
                }
                return Err(ErrorCode::RecordNotFound);
            },
        };
        proof {
            lemma_item_at_index(old(self)@, ii as int);
        }
        if !bytes_eq(&self.items[ii].vault, &ctx.vault) {
            return Err(ErrorCode::RecordNotFound);
        }
        if self.items[ii].record.redeemed {
            return Err(ErrorCode::AlreadyRedeemed);
        }
        if !self.items[ii].record.depositor.same_as(&ctx.current_owner) {
            return Err(ErrorCode::UnauthorizedTransfer);
        }
        let entry = self.items.remove(ii);
        let ItemEntry { address, vault, record } = entry;
        let ItemRecord { item_id, custodian, depositor, deposit_ts, redeemed, metadata, redeem_ts, bump } =
            record;
        let event = Event::Transferred(
            ClaimTransferred {
                item_account: copy_bytes(&address),
                old_owner: depositor,
                new_owner: new_owner.duplicate(),
            },
        );
        let record = ItemRecord {
            item_id,
            custodian,
            depositor: new_owner,
            deposit_ts,
            redeemed,
            metadata,
            redeem_ts,
            bump,
        };
        self.items.insert(ii, ItemEntry { address, vault, record });
        self.events.push(event);
        proof {
            let pre = old(self)@;
            let post = transfer_claim_post(
                pre,
                ctx.current_owner@,
                ctx.vault@,
                ctx.item@,
                new_owner@,
            );
            lemma_transfer_claim_preserves(
                pre,
                ctx.current_owner@,
                ctx.vault@,
                ctx.item@,
                new_owner@,
            );
            let k = ii as int;
            assert(self.items@ =~= old(self).items@.update(k, self.items@[k]));
            assert(self@.items =~~= post.items);
            assert(self@.events =~~= post.events);
            assert(self@ =~~= post);
        }
        Ok(())
    }

    /// Redeem the item at `ctx.item` and make it terminal.
    ///
    /// Fails with `RecordNotFound` when no item record lives at `ctx.item`
    /// or when the record does not belong to the vault at `ctx.vault`, with
    /// `AlreadyRedeemed` when the item was redeemed before — whoever calls —
    /// and with `UnauthorizedRedemption` when `ctx.custodian` is not the
    /// vault's recorded custodian. The redeemer co-signs presentation and is
    /// deliberately not required to equal the owner. On success sets
    /// `redeemed` and the redemption timestamp to `now`, changes no other
    /// field, and emits the `Redeemed` event.
    pub fn redeem_item(&mut self, ctx: RedeemItem, now: i64) -> (r: Result<(), ErrorCode>)
        requires
            old(self)@.wf(),
        ensures
            final(self)@.wf(),
            old(self)@.addressed() ==> final(self)@.addressed(),
            r == redeem_item_result(old(self)@, ctx.custodian@, ctx.vault@, ctx.item@),
            final(self)@ == redeem_item_post(
                old(self)@,
                ctx.custodian@,
                ctx.redeemer@,
                ctx.vault@,
                ctx.item@,
                now,
            ),
    {
        let ii = match find_item(&self.items, &ctx.item) {
            Some(i) => i,
            None => {
                proof {
                    let pre = old(self)@;
                    if pre.has_item(ctx.item@) {
                        let i = pre.item_index(ctx.item@);
                        assert(pre.items[i].addr == ctx.item@);
                        assert(self.items@[i].address@ == ctx.item@);
                        assert(false);
                    }
                }
                return Err(ErrorCode::RecordNotFound);
            },
        };
        proof {
            lemma_item_at_index(old(self)@, ii as int);
        }
        if !bytes_eq(&self.items[ii].vault, &ctx.vault) {
            return Err(ErrorCode::RecordNotFound);
        }
        if self.items[ii].record.redeemed {
            return Err(ErrorCode::AlreadyRedeemed);
        }
        let vi = match find_vault(&self.vaults, &ctx.vault) {
            Some(i) => i,
            None => {
                proof {
                    let pre = old(self)@;
                    assert(pre.has_vault(pre.items[ii as int].vault));
                    let j = pre.vault_index(ctx.vault@);
                    assert(pre.vaults[j].addr == ctx.vault@);
                    assert(self.vaults@[j].address@ == ctx.vault@);
                    assert(false);
                }
                return Err(ErrorCode::RecordNotFound);
            },
        };
        proof {
            lemma_vault_at_index(old(self)@, vi as int);
        }
        if !self.vaults[vi].account.custodian.same_as(&ctx.custodian) {
            return Err(ErrorCode::UnauthorizedRedemption);
        }
        let entry = self.items.remove(ii);
        let ItemEntry { address, vault, record } = entry;
        let ItemRecord { item_id, custodian, depositor, deposit_ts, redeemed: _, metadata, redeem_ts: _, bump } =
            record;
        let event = Event::Redeemed(
            ItemRedeemed {
                item_account: copy_bytes(&address),
                item_id: copy_bytes(&item_id),
                redeemer: ctx.redeemer,
                custodian: ctx.custodian,
            },
        );
        let record = ItemRecord {
            item_id,
            custodian,
            depositor,
            deposit_ts,
            redeemed: true,
            metadata,
            redeem_ts: Some(now),
            bump,
        };
        self.items.insert(ii, ItemEntry { address, vault, record });
        self.events.push(event);
        proof {
            let pre = old(self)@;
            let post = redeem_item_post(
                pre,
                ctx.custodian@,
                ctx.redeemer@,
                ctx.vault@,
                ctx.item@,
                now,
            );
            lemma_redeem_item_preserves(
                pre,
                ctx.custodian@,
                ctx.redeemer@,
                ctx.vault@,
                ctx.item@,
                now,
            );
            let k = ii as int;
            assert(self.items@ =~= old(self).items@.update(k, self.items@[k]));
            assert(self@.items =~~= post.items);
            assert(self@.events =~~= post.events);
            assert(self@ =~~= post);
        }
        Ok(())
    }
}

} // verus!
