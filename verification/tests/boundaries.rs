use vault_receipt::addressing::{derive_vault_address, CANONICAL_SEED};
use vault_receipt::errors::ErrorCode;
use vault_receipt::identity::AccountId;
use vault_receipt::ledger::{DepositAndIssue, InitializeVault, Ledger};

fn acct(b: u8) -> AccountId {
    AccountId::new(vec![b; 32])
}

fn ledger_with_vault() -> (Ledger, Vec<u8>) {
    let mut ledger = Ledger::new();
    ledger.initialize_vault(InitializeVault { custodian: acct(1) }, b"V".to_vec()).unwrap();
    let vault = derive_vault_address(&acct(1), &b"V".to_vec(), CANONICAL_SEED);
    (ledger, vault)
}

#[test]
fn vault_name_of_64_bytes_succeeds() {
    let mut ledger = Ledger::new();
    let r = ledger.initialize_vault(InitializeVault { custodian: acct(1) }, vec![b'n'; 64]);
    assert_eq!(r, Ok(()));
    assert_eq!(ledger.vaults.len(), 1);
}

#[test]
fn vault_name_of_65_bytes_fails_before_creation() {
    let mut ledger = Ledger::new();
    let r = ledger.initialize_vault(InitializeVault { custodian: acct(1) }, vec![b'n'; 65]);
    assert_eq!(r, Err(ErrorCode::NameTooLong));
    assert_eq!(ledger.vaults.len(), 0);
}

#[test]
fn item_id_of_64_bytes_succeeds() {
    let (mut ledger, vault) = ledger_with_vault();
    let r = ledger.deposit_and_issue(
        DepositAndIssue { custodian: acct(1), depositor: acct(2), vault },
        vec![b'i'; 64],
        None,
        1,
    );
    assert_eq!(r, Ok(()));
    assert_eq!(ledger.items.len(), 1);
}

#[test]
fn item_id_of_65_bytes_fails_before_creation() {
    let (mut ledger, vault) = ledger_with_vault();
    let r = ledger.deposit_and_issue(
        DepositAndIssue { custodian: acct(1), depositor: acct(2), vault },
        vec![b'i'; 65],
        None,
        1,
    );
    assert_eq!(r, Err(ErrorCode::IdTooLong));
    assert_eq!(ledger.items.len(), 0);
    assert_eq!(ledger.events.len(), 0);
}

#[test]
fn metadata_of_200_bytes_succeeds() {
    let (mut ledger, vault) = ledger_with_vault();
    let r = ledger.deposit_and_issue(
        DepositAndIssue { custodian: acct(1), depositor: acct(2), vault },
        b"item-1".to_vec(),
        Some(vec![b'm'; 200]),
        1,
    );
    assert_eq!(r, Ok(()));
}

#[test]
fn metadata_of_201_bytes_fails_before_creation() {
    let (mut ledger, vault) = ledger_with_vault();
    let r = ledger.deposit_and_issue(
        DepositAndIssue { custodian: acct(1), depositor: acct(2), vault },
        b"item-1".to_vec(),
        Some(vec![b'm'; 201]),
        1,
    );
    assert_eq!(r, Err(ErrorCode::MetadataTooLong));
    assert_eq!(ledger.items.len(), 0);
    assert_eq!(ledger.events.len(), 0);
}
