//! The laws of the ledger.
//!
//! Each proof function states one property of the lifecycle state machine
//! over the model's transition functions, so a reader sees what holds of
//! every reachable store, not only of the examples in the tests.

use crate::addressing::{item_address_of, vault_address_of, CANONICAL_SEED};
use crate::errors::ErrorCode;
use crate::identity::IDENTITY_LEN;
use crate::model::{
    deposit_and_issue_post, deposit_and_issue_result, initialize_vault_post,
    initialize_vault_result, lemma_item_at_index, lemma_transfer_claim_preserves,
    redeem_item_post, redeem_item_result, transfer_claim_post, transfer_claim_result, ItemV,
    LedgerV,
};
use crate::records::MAX_METADATA_LEN;
use vstd::prelude::*;

verus! {

/// In a store whose item at position `k` alone carries the address `a`,
/// looking `a` up finds exactly that item.
proof fn lemma_item_lookup(l: LedgerV, a: Seq<u8>, k: int)
    requires
        0 <= k < l.items.len(),
        l.items[k].addr == a,
        forall|i: int| 0 <= i < l.items.len() && i != k ==> (#[trigger] l.items[i]).addr != a,
    ensures
        l.has_item(a),
        l.item_index(a) == k,
        l.item_at(a) == l.items[k],
{
    assert(l.has_item(a));
    let j = l.item_index(a);
    assert(l.items[j].addr == a);
    if j != k {
        assert(false);
    }
}

/// A vault is initialized at most once per custodian and name: when a call
/// succeeds, a second call with identical inputs fails with the
/// address-collision error.
pub proof fn lemma_initialize_vault_once(l: LedgerV, custodian: Seq<u8>, vault_name: Seq<u8>)
    requires
        l.wf(),
    ensures
        initialize_vault_result(l, custodian, vault_name) is Ok ==> initialize_vault_result(
            initialize_vault_post(l, custodian, vault_name),
            custodian,
            vault_name,
        ) == Err::<(), ErrorCode>(ErrorCode::RecordAlreadyExists),
{
    if initialize_vault_result(l, custodian, vault_name) is Ok {
        let post = initialize_vault_post(l, custodian, vault_name);
        let a = vault_address_of(custodian, vault_name, CANONICAL_SEED);
        let n = l.vaults.len() as int;
        assert(post.vaults[n].addr == a);
        assert(post.has_vault(a));
    }
}

/// An item is issued at most once per vault and identifier: when a call
/// succeeds, a second call under the same identifier fails with the
/// address-collision error and changes nothing — whoever signs the retry
/// and whatever (valid) metadata it carries.
pub proof fn lemma_deposit_and_issue_once(
    l: LedgerV,
    custodian: Seq<u8>,
    depositor: Seq<u8>,
    vault: Seq<u8>,
    item_id: Seq<u8>,
    metadata: Option<Seq<u8>>,
    now: i64,
    custodian2: Seq<u8>,
    depositor2: Seq<u8>,
    metadata2: Option<Seq<u8>>,
    now2: i64,
)
    requires
        l.wf(),
    ensures
        deposit_and_issue_result(l, custodian, vault, item_id, metadata) is Ok && (match metadata2 {
            Some(m) => m.len() <= MAX_METADATA_LEN,
            None => true,
        }) ==> {
            let post = deposit_and_issue_post(l, custodian, depositor, vault, item_id, metadata, now);
            &&& deposit_and_issue_result(post, custodian2, vault, item_id, metadata2)
                == Err::<(), ErrorCode>(ErrorCode::RecordAlreadyExists)
            &&& deposit_and_issue_post(post, custodian2, depositor2, vault, item_id, metadata2, now2)
                == post
        },
{
    if deposit_and_issue_result(l, custodian, vault, item_id, metadata) is Ok && (match metadata2 {
        Some(m) => m.len() <= MAX_METADATA_LEN,
        None => true,
    }) {
        let post = deposit_and_issue_post(l, custodian, depositor, vault, item_id, metadata, now);
        let a = item_address_of(vault, item_id, CANONICAL_SEED);
        let n = l.items.len() as int;
        assert(post.items[n].addr == a);
        assert(post.has_item(a));
        assert(post.vaults == l.vaults);
        assert(post.has_vault(vault));
    }
}

/// Redemption fails idempotently: after a successful redemption, redeeming
/// the same item again fails with `AlreadyRedeemed`, regardless of which
/// custodian or redeemer signs the second call.
pub proof fn lemma_redeem_item_idempotent_failure(
    l: LedgerV,
    custodian: Seq<u8>,
    redeemer: Seq<u8>,
    vault: Seq<u8>,
    item: Seq<u8>,
    now: i64,
    custodian2: Seq<u8>,
)
    requires
        l.wf(),
    ensures
        redeem_item_result(l, custodian, vault, item) is Ok ==> redeem_item_result(
            redeem_item_post(l, custodian, redeemer, vault, item, now),
            custodian2,
            vault,
            item,
        ) == Err::<(), ErrorCode>(ErrorCode::AlreadyRedeemed),
{
    if redeem_item_result(l, custodian, vault, item) is Ok {
        let post = redeem_item_post(l, custodian, redeemer, vault, item, now);
        let k = l.item_index(item);
        lemma_item_at_index(l, k);
        assert(post.items[k].addr == item);
        assert forall|i: int|
            0 <= i < post.items.len() && i != k implies (#[trigger] post.items[i]).addr
            != item by {
            assert(post.items[i].addr == l.items[i].addr);
            assert(l.items[i].addr != l.items[k].addr);
        }
        lemma_item_lookup(post, item, k);
        assert(post.item_at(item).redeemed);
        assert(post.item_at(item).vault == vault);
    }
}

/// A successful transfer makes `new_owner` the item's owner and changes
/// none of the item's other fields.
pub proof fn lemma_transfer_claim_sets_owner(
    l: LedgerV,
    current_owner: Seq<u8>,
    vault: Seq<u8>,
    item: Seq<u8>,
    new_owner: Seq<u8>,
)
    requires
        l.wf(),
    ensures
        transfer_claim_result(l, current_owner, vault, item) is Ok ==> {
            let post = transfer_claim_post(l, current_owner, vault, item, new_owner);
            &&& post.has_item(item)
            &&& post.item_at(item) == ItemV { owner: new_owner, ..l.item_at(item) }
        },
{
    if transfer_claim_result(l, current_owner, vault, item) is Ok {
        let post = transfer_claim_post(l, current_owner, vault, item, new_owner);
        let k = l.item_index(item);
        lemma_item_at_index(l, k);
        assert(post.items[k].addr == item);
        assert forall|i: int|
            0 <= i < post.items.len() && i != k implies (#[trigger] post.items[i]).addr
            != item by {
            assert(post.items[i].addr == l.items[i].addr);
            assert(l.items[i].addr != l.items[k].addr);
        }
        lemma_item_lookup(post, item, k);
    }
}

/// A transfer not signed by the item's current owner fails with
/// `UnauthorizedTransfer` and leaves the whole ledger — the owner included —
/// unchanged.
pub proof fn lemma_transfer_claim_unauthorized(
    l: LedgerV,
    signer: Seq<u8>,
    vault: Seq<u8>,
    item: Seq<u8>,
    new_owner: Seq<u8>,
)
    requires
        l.wf(),
    ensures
        l.has_item(item) && l.item_at(item).vault == vault && !l.item_at(item).redeemed
            && l.item_at(item).owner != signer ==> transfer_claim_result(l, signer, vault, item)
            == Err::<(), ErrorCode>(ErrorCode::UnauthorizedTransfer) && transfer_claim_post(
            l,
            signer,
            vault,
            item,
            new_owner,
        ) == l,
{
}

/// The ledger after transferring the item at `item` along a chain of new
/// owners, each step signed by the owner the store shows at its turn.
pub open spec fn apply_transfers(
    l: LedgerV,
    vault: Seq<u8>,
    item: Seq<u8>,
    owners: Seq<Seq<u8>>,
) -> LedgerV
    decreases owners.len(),
{
    if owners.len() == 0 {
        l
    } else {
        let l1 = transfer_claim_post(l, l.item_at(item).owner, vault, item, owners[0]);
        apply_transfers(l1, vault, item, owners.drop_first())
    }
}

/// Ownership follows the transfer chain: starting from an active item,
/// after a sequence of transfers each signed by the owner at its turn, the
/// owner is the last new owner of the chain, and every transfer of the
/// chain succeeded.
pub proof fn lemma_transfer_chain(l: LedgerV, vault: Seq<u8>, item: Seq<u8>, owners: Seq<Seq<u8>>)
    requires
        l.wf(),
    ensures
        (l.has_item(item) && l.item_at(item).vault == vault && !l.item_at(item).redeemed
            && owners.len() > 0 && (forall|i: int|
            0 <= i < owners.len() ==> (#[trigger] owners[i]).len() == IDENTITY_LEN)) ==> {
            let end = apply_transfers(l, vault, item, owners);
            &&& end.wf()
            &&& end.has_item(item)
            &&& end.item_at(item).owner == owners.last()
            &&& end.item_at(item).vault == vault
            &&& !end.item_at(item).redeemed
        },
    decreases owners.len(),
{
    if l.has_item(item) && l.item_at(item).vault == vault && !l.item_at(item).redeemed
        && owners.len() > 0 && (forall|i: int|
        0 <= i < owners.len() ==> (#[trigger] owners[i]).len() == IDENTITY_LEN) {
        let signer = l.item_at(item).owner;
        assert(transfer_claim_result(l, signer, vault, item) is Ok);
        let l1 = transfer_claim_post(l, signer, vault, item, owners[0]);
        lemma_transfer_claim_preserves(l, signer, vault, item, owners[0]);
        lemma_transfer_claim_sets_owner(l, signer, vault, item, owners[0]);
        assert(l1.item_at(item).owner == owners[0]);
        assert(l1.item_at(item).vault == vault);
        assert(!l1.item_at(item).redeemed);
        if owners.len() == 1 {
            assert(apply_transfers(l1, vault, item, owners.drop_first()) == l1);
        } else {
            lemma_transfer_chain(l1, vault, item, owners.drop_first());
            assert(owners.drop_first().last() == owners.last());
        }
    }
}

/// In a store whose vault at position `k` alone carries the address `a`,
/// looking `a` up finds exactly that vault.
proof fn lemma_vault_lookup(l: LedgerV, a: Seq<u8>, k: int)
    requires
        0 <= k < l.vaults.len(),
        l.vaults[k].addr == a,
        forall|i: int| 0 <= i < l.vaults.len() && i != k ==> (#[trigger] l.vaults[i]).addr != a,
    ensures
        l.has_vault(a),
        l.vault_index(a) == k,
        l.vault_at(a) == l.vaults[k],
{
    assert(l.has_vault(a));
    let j = l.vault_index(a);
    assert(l.vaults[j].addr == a);
    if j != k {
        assert(false);
    }
}

/// Vault records are immutable: once created, no operation changes a
/// stored vault record or moves it from its address.
pub proof fn lemma_vault_records_immutable(
    l: LedgerV,
    a: Seq<u8>,
    custodian1: Seq<u8>,
    vault_name1: Seq<u8>,
    custodian2: Seq<u8>,
    depositor2: Seq<u8>,
    vault2: Seq<u8>,
    item_id2: Seq<u8>,
    metadata2: Option<Seq<u8>>,
    now2: i64,
    owner3: Seq<u8>,
    vault3: Seq<u8>,
    item3: Seq<u8>,
    new_owner3: Seq<u8>,
    custodian4: Seq<u8>,
    redeemer4: Seq<u8>,
    vault4: Seq<u8>,
    item4: Seq<u8>,
    now4: i64,
)
    requires
        l.wf(),
    ensures
        l.has_vault(a) ==> {
            let after_init = initialize_vault_post(l, custodian1, vault_name1);
            let after_deposit = deposit_and_issue_post(
                l,
                custodian2,
                depositor2,
                vault2,
                item_id2,
                metadata2,
                now2,
            );
            let after_transfer = transfer_claim_post(l, owner3, vault3, item3, new_owner3);
            let after_redeem = redeem_item_post(l, custodian4, redeemer4, vault4, item4, now4);
            &&& after_init.has_vault(a) && after_init.vault_at(a) == l.vault_at(a)
            &&& after_deposit.has_vault(a) && after_deposit.vault_at(a) == l.vault_at(a)
            &&& after_transfer.has_vault(a) && after_transfer.vault_at(a) == l.vault_at(a)
            &&& after_redeem.has_vault(a) && after_redeem.vault_at(a) == l.vault_at(a)
        },
{
    if l.has_vault(a) {
        let k = l.vault_index(a);
        assert(l.vaults[k].addr == a);

        // Initialization only appends a vault at a fresh address.
        let after_init = initialize_vault_post(l, custodian1, vault_name1);
        if initialize_vault_result(l, custodian1, vault_name1) is Ok {
            let fresh = vault_address_of(custodian1, vault_name1, CANONICAL_SEED);
            assert(!l.addr_taken(fresh));
            assert(fresh != a) by {
                if fresh == a {
                    assert(l.has_vault(a));
                }
            }
            assert forall|i: int|
                0 <= i < after_init.vaults.len() && i != k implies (
                #[trigger] after_init.vaults[i]).addr != a by {
                if i < l.vaults.len() {
                    assert(after_init.vaults[i] == l.vaults[i]);
                    assert(l.vaults[i].addr != l.vaults[k].addr);
                } else {
                    assert(after_init.vaults[i].addr == fresh);
                }
            }
            assert(after_init.vaults[k] == l.vaults[k]);
            lemma_vault_lookup(after_init, a, k);
        }
        assert(after_init.has_vault(a) && after_init.vault_at(a) == l.vault_at(a));

        // The other three operations leave the vault store untouched.
        let after_deposit = deposit_and_issue_post(
            l,
            custodian2,
            depositor2,
            vault2,
            item_id2,
            metadata2,
            now2,
        );
        assert(after_deposit.vaults == l.vaults);
        assert(after_deposit.has_vault(a) && after_deposit.vault_at(a) == l.vault_at(a));
        let after_transfer = transfer_claim_post(l, owner3, vault3, item3, new_owner3);
        assert(after_transfer.vaults == l.vaults);
        assert(after_transfer.has_vault(a) && after_transfer.vault_at(a) == l.vault_at(a));
        let after_redeem = redeem_item_post(l, custodian4, redeemer4, vault4, item4, now4);
        assert(after_redeem.vaults == l.vaults);
        assert(after_redeem.has_vault(a) && after_redeem.vault_at(a) == l.vault_at(a));
    }
}

/// Terminal immutability: once an item is redeemed, no operation — a vault
/// initialization, an issuance, a transfer, a redemption, aimed at any
/// record — changes any field of that item's record.
pub proof fn lemma_terminal_immutability(
    l: LedgerV,
    a: Seq<u8>,
    custodian1: Seq<u8>,
    vault_name1: Seq<u8>,
    custodian2: Seq<u8>,
    depositor2: Seq<u8>,
    vault2: Seq<u8>,
    item_id2: Seq<u8>,
    metadata2: Option<Seq<u8>>,
    now2: i64,
    owner3: Seq<u8>,
    vault3: Seq<u8>,
    item3: Seq<u8>,
    new_owner3: Seq<u8>,
    custodian4: Seq<u8>,
    redeemer4: Seq<u8>,
    vault4: Seq<u8>,
    item4: Seq<u8>,
    now4: i64,
)
    requires
        l.wf(),
    ensures
        l.has_item(a) && l.item_at(a).redeemed ==> {
            let after_init = initialize_vault_post(l, custodian1, vault_name1);
            let after_deposit = deposit_and_issue_post(
                l,
                custodian2,
                depositor2,
                vault2,
                item_id2,
                metadata2,
                now2,
            );
            let after_transfer = transfer_claim_post(l, owner3, vault3, item3, new_owner3);
            let after_redeem = redeem_item_post(l, custodian4, redeemer4, vault4, item4, now4);
            &&& after_init.has_item(a) && after_init.item_at(a) == l.item_at(a)
            &&& after_deposit.has_item(a) && after_deposit.item_at(a) == l.item_at(a)
            &&& after_transfer.has_item(a) && after_transfer.item_at(a) == l.item_at(a)
            &&& after_redeem.has_item(a) && after_redeem.item_at(a) == l.item_at(a)
        },
{
    if l.has_item(a) && l.item_at(a).redeemed {
        let k = l.item_index(a);
        lemma_item_at_index(l, k);

        // Vault initialization touches no item record.
        let after_init = initialize_vault_post(l, custodian1, vault_name1);
        assert(after_init.items == l.items);
        assert(after_init.has_item(a) && after_init.item_at(a) == l.item_at(a));

        // An issuance only appends an item at a fresh address.
        let after_deposit = deposit_and_issue_post(
            l,
            custodian2,
            depositor2,
            vault2,
            item_id2,
            metadata2,
            now2,
        );
        if deposit_and_issue_result(l, custodian2, vault2, item_id2, metadata2) is Ok {
            let fresh = item_address_of(vault2, item_id2, CANONICAL_SEED);
            assert(!l.addr_taken(fresh));
            assert(fresh != a) by {
                if fresh == a {
                    assert(l.has_item(a));
                }
            }
            assert forall|i: int|
                0 <= i < after_deposit.items.len() && i != k implies (#[trigger] after_deposit.items[i]).addr
                != a by {
                if i < l.items.len() {
                    assert(after_deposit.items[i] == l.items[i]);
                    assert(l.items[i].addr != l.items[k].addr);
                } else {
                    assert(after_deposit.items[i].addr == fresh);
                }
            }
            assert(after_deposit.items[k] == l.items[k]);
            lemma_item_lookup(after_deposit, a, k);
        }
        assert(after_deposit.has_item(a) && after_deposit.item_at(a) == l.item_at(a));

        // A transfer of this very item fails on the terminal check; one of
        // another item updates another position.
        let after_transfer = transfer_claim_post(l, owner3, vault3, item3, new_owner3);
        if transfer_claim_result(l, owner3, vault3, item3) is Ok {
            let k3 = l.item_index(item3);
            lemma_item_at_index(l, k3);
            assert(k3 != k) by {
                if k3 == k {
                    assert(l.item_at(item3).redeemed);
                }
            }
            assert forall|i: int|
                0 <= i < after_transfer.items.len() && i != k implies (#[trigger] after_transfer.items[i]).addr
                != a by {
                assert(after_transfer.items[i].addr == l.items[i].addr);
                assert(l.items[i].addr != l.items[k].addr);
            }
            assert(after_transfer.items[k] == l.items[k]);
            lemma_item_lookup(after_transfer, a, k);
        }
        assert(after_transfer.has_item(a) && after_transfer.item_at(a) == l.item_at(a));

        // A redemption of this very item fails on the terminal check; one of
        // another item updates another position.
        let after_redeem = redeem_item_post(l, custodian4, redeemer4, vault4, item4, now4);
        if redeem_item_result(l, custodian4, vault4, item4) is Ok {
            let k4 = l.item_index(item4);
            lemma_item_at_index(l, k4);
            assert(k4 != k) by {
                if k4 == k {
                    assert(l.item_at(item4).redeemed);
                }
            }
            assert forall|i: int|
                0 <= i < after_redeem.items.len() && i != k implies (#[trigger] after_redeem.items[i]).addr
                != a by {
                assert(after_redeem.items[i].addr == l.items[i].addr);
                assert(l.items[i].addr != l.items[k].addr);
            }
            assert(after_redeem.items[k] == l.items[k]);
            lemma_item_lookup(after_redeem, a, k);
        }
        assert(after_redeem.has_item(a) && after_redeem.item_at(a) == l.item_at(a));
    }
}

} // verus!
