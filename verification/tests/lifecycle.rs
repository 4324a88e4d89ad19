use vault_receipt::addressing::{derive_item_address, derive_vault_address, CANONICAL_SEED};
use vault_receipt::errors::ErrorCode;
use vault_receipt::events::Event;
use vault_receipt::identity::AccountId;
use vault_receipt::ledger::{
    DepositAndIssue, InitializeVault, Ledger, RedeemItem, TransferClaim,
};

fn acct(b: u8) -> AccountId {
    AccountId::new(vec![b; 32])
}

/// A ledger holding vault "V" of custodian `acct(1)` with one active item
/// "item-1" deposited by `acct(2)` at time 1000.
fn ledger_with_item() -> (Ledger, Vec<u8>, Vec<u8>) {
    let mut ledger = Ledger::new();
    let custodian = acct(1);
    let depositor = acct(2);
    let r = ledger.initialize_vault(InitializeVault { custodian: acct(1) }, b"V".to_vec());
    assert_eq!(r, Ok(()));
    let vault = derive_vault_address(&custodian, &b"V".to_vec(), CANONICAL_SEED);
    let r = ledger.deposit_and_issue(
        DepositAndIssue { custodian: acct(1), depositor, vault: vault.clone() },
        b"item-1".to_vec(),
        None,
        1000,
    );
    assert_eq!(r, Ok(()));
    let item = derive_item_address(&vault, &b"item-1".to_vec(), CANONICAL_SEED);
    (ledger, vault, item)
}

#[test]
fn initialize_vault_creates_record() {
    let mut ledger = Ledger::new();
    let r = ledger.initialize_vault(InitializeVault { custodian: acct(1) }, b"V".to_vec());
    assert_eq!(r, Ok(()));
    assert_eq!(ledger.vaults.len(), 1);
    let entry = &ledger.vaults[0];
    assert_eq!(entry.account.custodian, acct(1));
    assert_eq!(entry.account.vault_name, b"V".to_vec());
    assert_eq!(entry.account.bump, CANONICAL_SEED);
    let expected = derive_vault_address(&acct(1), &b"V".to_vec(), CANONICAL_SEED);
    assert_eq!(entry.address, expected);
    // Vault initialization emits no event.
    assert_eq!(ledger.events.len(), 0);
}

#[test]
fn initialize_vault_twice_fails() {
    let mut ledger = Ledger::new();
    let r = ledger.initialize_vault(InitializeVault { custodian: acct(1) }, b"V".to_vec());
    assert_eq!(r, Ok(()));
    let r = ledger.initialize_vault(InitializeVault { custodian: acct(1) }, b"V".to_vec());
    assert_eq!(r, Err(ErrorCode::RecordAlreadyExists));
    assert_eq!(ledger.vaults.len(), 1);
}

#[test]
fn distinct_vaults_coexist() {
    let mut ledger = Ledger::new();
    let r = ledger.initialize_vault(InitializeVault { custodian: acct(1) }, b"V".to_vec());
    assert_eq!(r, Ok(()));
    let r = ledger.initialize_vault(InitializeVault { custodian: acct(1) }, b"W".to_vec());
    assert_eq!(r, Ok(()));
    let r = ledger.initialize_vault(InitializeVault { custodian: acct(9) }, b"V".to_vec());
    assert_eq!(r, Ok(()));
    assert_eq!(ledger.vaults.len(), 3);
}

#[test]
fn deposit_creates_item_and_event() {
    let (ledger, vault, item) = ledger_with_item();
    assert_eq!(ledger.items.len(), 1);
    let entry = &ledger.items[0];
    assert_eq!(entry.address, item);
    assert_eq!(entry.vault, vault);
    assert_eq!(entry.record.item_id, b"item-1".to_vec());
    assert_eq!(entry.record.custodian, acct(1));
    assert_eq!(entry.record.depositor, acct(2));
    assert_eq!(entry.record.deposit_ts, 1000);
    assert!(!entry.record.redeemed);
    assert_eq!(entry.record.metadata, None);
    assert_eq!(entry.record.redeem_ts, None);
    assert_eq!(entry.record.bump, CANONICAL_SEED);
    assert_eq!(ledger.events.len(), 1);
    match &ledger.events[0] {
        Event::Deposited(e) => {
            assert_eq!(e.item_account, item);
            assert_eq!(e.item_id, b"item-1".to_vec());
            assert_eq!(e.depositor, acct(2));
            assert_eq!(e.custodian, acct(1));
        },
        other => panic!("wrong event: {:?}", other),
    }
}

#[test]
fn deposit_stores_metadata() {
    let mut ledger = Ledger::new();
    ledger.initialize_vault(InitializeVault { custodian: acct(1) }, b"V".to_vec()).unwrap();
    let vault = derive_vault_address(&acct(1), &b"V".to_vec(), CANONICAL_SEED);
    let r = ledger.deposit_and_issue(
        DepositAndIssue { custodian: acct(1), depositor: acct(2), vault },
        b"item-1".to_vec(),
        Some(b"ipfs://metadata".to_vec()),
        7,
    );
    assert_eq!(r, Ok(()));
    assert_eq!(ledger.items[0].record.metadata, Some(b"ipfs://metadata".to_vec()));
}

#[test]
fn deposit_same_id_twice_fails() {
    let (mut ledger, vault, _) = ledger_with_item();
    let r = ledger.deposit_and_issue(
        DepositAndIssue { custodian: acct(1), depositor: acct(3), vault: vault.clone() },
        b"item-1".to_vec(),
        None,
        2000,
    );
    assert_eq!(r, Err(ErrorCode::RecordAlreadyExists));
    // The collision guard fires whoever retries.
    let r = ledger.deposit_and_issue(
        DepositAndIssue { custodian: acct(9), depositor: acct(3), vault },
        b"item-1".to_vec(),
        None,
        2000,
    );
    assert_eq!(r, Err(ErrorCode::RecordAlreadyExists));
    assert_eq!(ledger.items.len(), 1);
    assert_eq!(ledger.events.len(), 1);
}

#[test]
fn deposit_by_non_custodian_fails() {
    let mut ledger = Ledger::new();
    ledger.initialize_vault(InitializeVault { custodian: acct(1) }, b"V".to_vec()).unwrap();
    let vault = derive_vault_address(&acct(1), &b"V".to_vec(), CANONICAL_SEED);
    // A signer other than the vault's recorded custodian cannot mint a
    // claim under the vault.
    let r = ledger.deposit_and_issue(
        DepositAndIssue { custodian: acct(9), depositor: acct(2), vault },
        b"item-1".to_vec(),
        None,
        1000,
    );
    assert_eq!(r, Err(ErrorCode::UnauthorizedIssuance));
    assert_eq!(ledger.items.len(), 0);
    assert_eq!(ledger.events.len(), 0);
}

#[test]
fn deposit_into_unknown_vault_fails() {
    let mut ledger = Ledger::new();
    let vault = derive_vault_address(&acct(1), &b"V".to_vec(), CANONICAL_SEED);
    let r = ledger.deposit_and_issue(
        DepositAndIssue { custodian: acct(1), depositor: acct(2), vault },
        b"item-1".to_vec(),
        None,
        1000,
    );
    assert_eq!(r, Err(ErrorCode::RecordNotFound));
    assert_eq!(ledger.items.len(), 0);
    assert_eq!(ledger.events.len(), 0);
}

#[test]
fn transfer_sets_owner_and_emits() {
    let (mut ledger, vault, item) = ledger_with_item();
    let r = ledger.transfer_claim(
        TransferClaim { current_owner: acct(2), vault, item: item.clone() },
        acct(3),
    );
    assert_eq!(r, Ok(()));
    assert_eq!(ledger.items[0].record.depositor, acct(3));
    // Every other field is kept.
    assert_eq!(ledger.items[0].record.custodian, acct(1));
    assert_eq!(ledger.items[0].record.deposit_ts, 1000);
    assert!(!ledger.items[0].record.redeemed);
    assert_eq!(ledger.events.len(), 2);
    match &ledger.events[1] {
        Event::Transferred(e) => {
            assert_eq!(e.item_account, item);
            assert_eq!(e.old_owner, acct(2));
            assert_eq!(e.new_owner, acct(3));
        },
        other => panic!("wrong event: {:?}", other),
    }
}

#[test]
fn transfer_chain_tracks_last_owner() {
    let (mut ledger, vault, item) = ledger_with_item();
    let owners = [3u8, 4, 5, 6];
    let mut current = 2u8;
    for next in owners {
        let r = ledger.transfer_claim(
            TransferClaim {
                current_owner: acct(current),
                vault: vault.clone(),
                item: item.clone(),
            },
            acct(next),
        );
        assert_eq!(r, Ok(()));
        current = next;
    }
    assert_eq!(ledger.items[0].record.depositor, acct(6));
}

#[test]
fn transfer_by_non_owner_fails() {
    let (mut ledger, vault, item) = ledger_with_item();
    let r = ledger.transfer_claim(
        TransferClaim { current_owner: acct(9), vault, item },
        acct(3),
    );
    assert_eq!(r, Err(ErrorCode::UnauthorizedTransfer));
    // The owner is unchanged.
    assert_eq!(ledger.items[0].record.depositor, acct(2));
    assert_eq!(ledger.events.len(), 1);
}

#[test]
fn transfer_unknown_item_fails() {
    let (mut ledger, vault, _) = ledger_with_item();
    let missing = derive_item_address(&vault, &b"other".to_vec(), CANONICAL_SEED);
    let r = ledger.transfer_claim(
        TransferClaim { current_owner: acct(2), vault, item: missing },
        acct(3),
    );
    assert_eq!(r, Err(ErrorCode::RecordNotFound));
}

#[test]
fn transfer_under_wrong_vault_fails() {
    let (mut ledger, _, item) = ledger_with_item();
    let wrong_vault = derive_vault_address(&acct(1), &b"W".to_vec(), CANONICAL_SEED);
    let r = ledger.transfer_claim(
        TransferClaim { current_owner: acct(2), vault: wrong_vault, item },
        acct(3),
    );
    assert_eq!(r, Err(ErrorCode::RecordNotFound));
    assert_eq!(ledger.items[0].record.depositor, acct(2));
}

#[test]
fn redeem_marks_terminal_and_emits() {
    let (mut ledger, vault, item) = ledger_with_item();
    let r = ledger.redeem_item(
        RedeemItem {
            custodian: acct(1),
            redeemer: acct(7),
            vault,
            item: item.clone(),
        },
        2000,
    );
    assert_eq!(r, Ok(()));
    assert!(ledger.items[0].record.redeemed);
    assert_eq!(ledger.items[0].record.redeem_ts, Some(2000));
    // Every other field is kept.
    assert_eq!(ledger.items[0].record.depositor, acct(2));
    assert_eq!(ledger.items[0].record.custodian, acct(1));
    assert_eq!(ledger.items[0].record.deposit_ts, 1000);
    match &ledger.events[1] {
        Event::Redeemed(e) => {
            assert_eq!(e.item_account, item);
            assert_eq!(e.item_id, b"item-1".to_vec());
            assert_eq!(e.redeemer, acct(7));
            assert_eq!(e.custodian, acct(1));
        },
        other => panic!("wrong event: {:?}", other),
    }
}

#[test]
fn redeemer_need_not_be_owner() {
    // The redeemer only co-signs presentation: a redeemer different from
    // the current owner is deliberately accepted.
    let (mut ledger, vault, item) = ledger_with_item();
    let r = ledger.redeem_item(
        RedeemItem { custodian: acct(1), redeemer: acct(200), vault, item },
        2000,
    );
    assert_eq!(r, Ok(()));
}

#[test]
fn redeem_by_non_custodian_fails() {
    let (mut ledger, vault, item) = ledger_with_item();
    let r = ledger.redeem_item(
        RedeemItem { custodian: acct(2), redeemer: acct(7), vault, item },
        2000,
    );
    assert_eq!(r, Err(ErrorCode::UnauthorizedRedemption));
    assert!(!ledger.items[0].record.redeemed);
    assert_eq!(ledger.events.len(), 1);
}

#[test]
fn redeem_twice_fails_regardless_of_caller() {
    let (mut ledger, vault, item) = ledger_with_item();
    let r = ledger.redeem_item(
        RedeemItem {
            custodian: acct(1),
            redeemer: acct(7),
            vault: vault.clone(),
            item: item.clone(),
        },
        2000,
    );
    assert_eq!(r, Ok(()));
    // Same custodian again.
    let r = ledger.redeem_item(
        RedeemItem {
            custodian: acct(1),
            redeemer: acct(7),
            vault: vault.clone(),
            item: item.clone(),
        },
        3000,
    );
    assert_eq!(r, Err(ErrorCode::AlreadyRedeemed));
    // A different caller gets the same terminal error.
    let r = ledger.redeem_item(
        RedeemItem { custodian: acct(9), redeemer: acct(8), vault, item },
        4000,
    );
    assert_eq!(r, Err(ErrorCode::AlreadyRedeemed));
    // The first redemption's timestamp is kept.
    assert_eq!(ledger.items[0].record.redeem_ts, Some(2000));
    assert_eq!(ledger.events.len(), 2);
}

#[test]
fn transfer_after_redeem_fails() {
    let (mut ledger, vault, item) = ledger_with_item();
    ledger
        .redeem_item(
            RedeemItem {
                custodian: acct(1),
                redeemer: acct(7),
                vault: vault.clone(),
                item: item.clone(),
            },
            2000,
        )
        .unwrap();
    let r = ledger.transfer_claim(
        TransferClaim { current_owner: acct(2), vault, item },
        acct(3),
    );
    assert_eq!(r, Err(ErrorCode::AlreadyRedeemed));
    // Terminal immutability: nothing about the record changed.
    assert_eq!(ledger.items[0].record.depositor, acct(2));
    assert_eq!(ledger.items[0].record.redeem_ts, Some(2000));
    assert_eq!(ledger.events.len(), 2);
}

#[test]
fn full_scenario() {
    // Custodian C initializes vault "V"; C and depositor D issue "item-1";
    // D transfers to E; C and a redeemer redeem; E can no longer transfer.
    let mut ledger = Ledger::new();
    let c = acct(1);
    let d = acct(2);
    ledger.initialize_vault(InitializeVault { custodian: acct(1) }, b"V".to_vec()).unwrap();
    let vault = derive_vault_address(&c, &b"V".to_vec(), CANONICAL_SEED);
    ledger
        .deposit_and_issue(
            DepositAndIssue { custodian: acct(1), depositor: d, vault: vault.clone() },
            b"item-1".to_vec(),
            None,
            10,
        )
        .unwrap();
    let item = derive_item_address(&vault, &b"item-1".to_vec(), CANONICAL_SEED);
    ledger
        .transfer_claim(
            TransferClaim {
                current_owner: acct(2),
                vault: vault.clone(),
                item: item.clone(),
            },
            acct(3),
        )
        .unwrap();
    assert_eq!(ledger.items[0].record.depositor, acct(3));
    ledger
        .redeem_item(
            RedeemItem {
                custodian: acct(1),
                redeemer: acct(3),
                vault: vault.clone(),
                item: item.clone(),
            },
            20,
        )
        .unwrap();
    assert!(ledger.items[0].record.redeemed);
    let r = ledger.transfer_claim(
        TransferClaim { current_owner: acct(3), vault, item },
        acct(4),
    );
    assert_eq!(r, Err(ErrorCode::AlreadyRedeemed));
    assert_eq!(ledger.events.len(), 3);
}
