use vault_receipt::addressing::{
    derive_item_address, derive_vault_address, ADDRESS_LEN, CANONICAL_SEED,
};
use vault_receipt::errors::ErrorCode;
use vault_receipt::identity::AccountId;
use vault_receipt::ledger::{InitializeVault, Ledger, TransferClaim};

fn acct(b: u8) -> AccountId {
    AccountId::new(vec![b; 32])
}

#[test]
fn vault_address_is_reproducible() {
    let a = derive_vault_address(&acct(1), &b"V".to_vec(), CANONICAL_SEED);
    let b = derive_vault_address(&acct(1), &b"V".to_vec(), CANONICAL_SEED);
    assert_eq!(a, b);
    assert_eq!(a.len(), ADDRESS_LEN);
}

#[test]
fn vault_address_is_the_sha256_of_the_derivation_inputs() {
    // The derivation must be reproducible by any caller who knows the
    // plaintext inputs: tag, custodian, name, seed, concatenated and
    // digested.
    let custodian = acct(1);
    let mut data: Vec<u8> = Vec::new();
    data.extend_from_slice(b"vault");
    data.extend_from_slice(&custodian.bytes);
    data.extend_from_slice(b"V");
    data.push(CANONICAL_SEED);
    let expected = solana_sha256_hasher::hash(&data).to_bytes().to_vec();
    let derived = derive_vault_address(&custodian, &b"V".to_vec(), CANONICAL_SEED);
    assert_eq!(derived, expected);
}

#[test]
fn distinct_inputs_derive_distinct_addresses() {
    let a = derive_vault_address(&acct(1), &b"V".to_vec(), CANONICAL_SEED);
    let b = derive_vault_address(&acct(1), &b"W".to_vec(), CANONICAL_SEED);
    let c = derive_vault_address(&acct(2), &b"V".to_vec(), CANONICAL_SEED);
    assert_ne!(a, b);
    assert_ne!(a, c);
    assert_ne!(b, c);
}

#[test]
fn item_address_depends_on_vault_and_id_and_seed() {
    let vault_a = derive_vault_address(&acct(1), &b"V".to_vec(), CANONICAL_SEED);
    let vault_b = derive_vault_address(&acct(1), &b"W".to_vec(), CANONICAL_SEED);
    let i1 = derive_item_address(&vault_a, &b"item-1".to_vec(), CANONICAL_SEED);
    let i2 = derive_item_address(&vault_b, &b"item-1".to_vec(), CANONICAL_SEED);
    let i3 = derive_item_address(&vault_a, &b"item-2".to_vec(), CANONICAL_SEED);
    let i4 = derive_item_address(&vault_a, &b"item-1".to_vec(), 254);
    assert_ne!(i1, i2);
    assert_ne!(i1, i3);
    assert_ne!(i1, i4);
    assert_eq!(i1.len(), ADDRESS_LEN);
}

#[test]
fn wrong_seed_fails_closed() {
    // A lookup under the wrong seed derives a different address and finds
    // nothing, instead of resolving to another record.
    let mut ledger = Ledger::new();
    ledger.initialize_vault(InitializeVault { custodian: acct(1) }, b"V".to_vec()).unwrap();
    let wrong_vault = derive_vault_address(&acct(1), &b"V".to_vec(), 7);
    let item = derive_item_address(&wrong_vault, &b"item-1".to_vec(), CANONICAL_SEED);
    let r = ledger.transfer_claim(
        TransferClaim { current_owner: acct(2), vault: wrong_vault, item },
        acct(3),
    );
    assert_eq!(r, Err(ErrorCode::RecordNotFound));
}
