use gem_farm::bank::{
    remove_from_whitelist, set_vault_lock, Bank, Vault, WhitelistProof, FREEZE_VAULTS,
    WHITELIST_CREATOR, WHITELIST_MINT,
};
use gem_farm::error::ErrorCode;

#[test]
fn test_set_vault_lock() {
    let bank = Bank { flags: 0, whitelisted_mints: 0, whitelisted_creators: 0 };
    let mut vault = Vault { locked: false };
    set_vault_lock(&bank, &mut vault, true).unwrap();
    assert!(vault.locked);
    set_vault_lock(&bank, &mut vault, false).unwrap();
    assert!(!vault.locked);
}

#[test]
fn test_vault_access_suspended() {
    let bank = Bank { flags: FREEZE_VAULTS, whitelisted_mints: 0, whitelisted_creators: 0 };
    let mut vault = Vault { locked: false };
    let r = set_vault_lock(&bank, &mut vault, true);
    assert_eq!(r, Err(ErrorCode::VaultAccessSuspended));
    assert!(!vault.locked);
}

#[test]
fn test_remove_from_whitelist() {
    let mut bank = Bank { flags: 0, whitelisted_mints: 2, whitelisted_creators: 1 };
    let entry = WhitelistProof { whitelist_type: WHITELIST_MINT };
    remove_from_whitelist(&mut bank, &entry).unwrap();
    assert_eq!(bank.whitelisted_mints, 1);
    assert_eq!(bank.whitelisted_creators, 1);

    let both = WhitelistProof { whitelist_type: WHITELIST_MINT | WHITELIST_CREATOR };
    remove_from_whitelist(&mut bank, &both).unwrap();
    assert_eq!(bank.whitelisted_mints, 0);
    assert_eq!(bank.whitelisted_creators, 0);

    // removing once more than was added fails and changes nothing
    let r = remove_from_whitelist(&mut bank, &both);
    assert_eq!(r, Err(ErrorCode::ArithmeticError));
    assert_eq!(bank.whitelisted_mints, 0);
}
