//! Decision logic of the custody bank's vault-lock and whitelist-removal
//! instructions. The account plumbing around these lives outside the
//! library; it hands in flag and counter values and persists the results.

use vstd::prelude::*;

use crate::error::ErrorCode;
use crate::try_math::TrySub;

verus! {

/// Bank flag: all vaults are frozen; no vault lock may change.
pub const FREEZE_VAULTS: u32 = 1;

/// Whitelist entry covers a creator address.
pub const WHITELIST_CREATOR: u8 = 1;

/// Whitelist entry covers a mint address.
pub const WHITELIST_MINT: u8 = 2;

/// The counters and flags of a custody bank that these decisions read.
#[derive(Clone, Copy, Debug, PartialEq, Eq, Structural)]
pub struct Bank {
    pub flags: u32,
    pub whitelisted_mints: u64,
    pub whitelisted_creators: u64,
}

/// A vault's lock state.
#[derive(Clone, Copy, Debug, PartialEq, Eq, Structural)]
pub struct Vault {
    pub locked: bool,
}

/// One whitelist entry: which address kinds it covers, as a bit set.
#[derive(Clone, Copy, Debug, PartialEq, Eq, Structural)]
pub struct WhitelistProof {
    pub whitelist_type: u8,
}

/// Sets a vault's lock, unless the bank has frozen all vaults.
pub fn set_vault_lock(bank: &Bank, vault: &mut Vault, vault_locked: bool) -> (r: Result<
    (),
    ErrorCode,
>)
    ensures
        bank.flags & FREEZE_VAULTS != 0 ==> r == Err::<(), ErrorCode>(
            ErrorCode::VaultAccessSuspended,
        ) && *final(vault) == *old(vault),
        bank.flags & FREEZE_VAULTS == 0 ==> r == Ok::<(), ErrorCode>(()) && final(vault).locked
            == vault_locked,
{
    if bank.flags & FREEZE_VAULTS != 0 {
        return Err(ErrorCode::VaultAccessSuspended);
    }
    vault.locked = vault_locked;
    Ok(())
}

/// Removes one whitelist entry from the bank's books: each counter the
/// entry covers goes down by one. Fails, leaving the bank untouched, when a
/// covered counter is already zero. The caller deletes the entry itself.
pub fn remove_from_whitelist(bank: &mut Bank, whitelist_proof: &WhitelistProof) -> (r: Result<
    (),
    ErrorCode,
>)
    ensures
        ({
            let covers_mint = whitelist_proof.whitelist_type & WHITELIST_MINT != 0;
            let covers_creator = whitelist_proof.whitelist_type & WHITELIST_CREATOR != 0;
            &&& (r is Ok <==> (covers_mint ==> old(bank).whitelisted_mints >= 1) && (
            covers_creator ==> old(bank).whitelisted_creators >= 1))
            &&& (r is Ok ==> ({
                &&& final(bank).whitelisted_mints == if covers_mint {
                    old(bank).whitelisted_mints - 1
                } else {
                    old(bank).whitelisted_mints as int
                }
                &&& final(bank).whitelisted_creators == if covers_creator {
                    old(bank).whitelisted_creators - 1
                } else {
                    old(bank).whitelisted_creators as int
                }
                &&& final(bank).flags == old(bank).flags
            }))
            &&& (r is Err ==> r == Err::<(), ErrorCode>(ErrorCode::ArithmeticError)
                && *final(bank) == *old(bank))
        }),
{
    let covers_mint = whitelist_proof.whitelist_type & WHITELIST_MINT != 0;
    let covers_creator = whitelist_proof.whitelist_type & WHITELIST_CREATOR != 0;
    let new_mints = if covers_mint {
        match bank.whitelisted_mints.try_sub(1) {
            Ok(v) => v,
            Err(e) => {
                return Err(e);
            },
        }
    } else {
        bank.whitelisted_mints
    };
    let new_creators = if covers_creator {
        match bank.whitelisted_creators.try_sub(1) {
            Ok(v) => v,
            Err(e) => {
                return Err(e);
            },
        }
    } else {
        bank.whitelisted_creators
    };
    bank.whitelisted_mints = new_mints;
    bank.whitelisted_creators = new_creators;
    Ok(())
}

} // verus!
