use anchor_vault::addresses::derive_address;
use anchor_vault::addresses::state_tag_bytes;
use anchor_vault::addresses::vault_tag_bytes;
use anchor_vault::keys::Pubkey;
use anchor_vault::vault::deposit;
use anchor_vault::vault::initialize;
use anchor_vault::vault::withdraw;
use anchor_vault::vault::Deposit;
use anchor_vault::vault::Initialize;
use anchor_vault::vault::Vault;
use anchor_vault::vault::VaultError;
use anchor_vault::vault::VaultState;
use anchor_vault::vault::Withdraw;

const RENT: u64 = 890_880;

fn key(b: u8) -> Pubkey {
    Pubkey { bytes: [b; 32] }
}

/// Derives the two account addresses the operations after `initialize`
/// must be handed.
fn vault_addresses(owner: &Pubkey) -> (Pubkey, Pubkey) {
    let (state_address, _) = derive_address(&state_tag_bytes(), owner).unwrap();
    let (vault_address, _) = derive_address(&vault_tag_bytes(), &state_address).unwrap();
    (state_address, vault_address)
}

fn initialized_vault(owner: &Pubkey) -> Vault {
    let mut v = Vault::new();
    let r = initialize(&Initialize { user: *owner }, &mut v, RENT);
    assert_eq!(r, Ok(()));
    v
}

fn deposit_ctx(payer: &Pubkey, owner: &Pubkey) -> Deposit {
    let (state_address, vault_address) = vault_addresses(owner);
    Deposit { user: *payer, state_address, vault_address }
}

fn withdraw_ctx(caller: &Pubkey, owner: &Pubkey) -> Withdraw {
    let (state_address, vault_address) = vault_addresses(owner);
    Withdraw { user: *caller, state_address, vault_address }
}

#[test]
fn initialize_starts_at_zero() {
    let owner = key(7);
    let v = initialized_vault(&owner);
    let s = v.state.unwrap();
    assert_eq!(s.vault_amount, 0);
    assert_eq!(s.vault_owner.bytes, owner.bytes);
    assert_eq!(v.reserve, RENT);
    assert_eq!(v.funds_lamports, RENT);
}

#[test]
fn initialize_records_canonical_bumps() {
    let owner = key(9);
    let v = initialized_vault(&owner);
    let s = v.state.unwrap();
    let (state_address, state_bump) = derive_address(&state_tag_bytes(), &owner).unwrap();
    let (_, vault_bump) = derive_address(&vault_tag_bytes(), &state_address).unwrap();
    assert_eq!(s.state_bump, state_bump);
    assert_eq!(s.vault_bump, vault_bump);
}

#[test]
fn initialize_twice_fails_and_preserves_state() {
    let owner = key(7);
    let mut v = initialized_vault(&owner);
    let before = v;
    let r = initialize(&Initialize { user: owner }, &mut v, RENT);
    assert_eq!(r, Err(VaultError::AlreadyInitialized));
    assert_eq!(v.state.unwrap().vault_amount, before.state.unwrap().vault_amount);
    assert_eq!(v.state.unwrap().vault_owner.bytes, before.state.unwrap().vault_owner.bytes);
    assert_eq!(v.funds_lamports, before.funds_lamports);
    assert_eq!(v.reserve, before.reserve);
}

#[test]
fn scenario_deposits_then_withdrawals() {
    let owner = key(1);
    let stranger = key(2);
    let mut v = initialized_vault(&owner);

    let d = deposit_ctx(&owner, &owner);
    assert_eq!(deposit(&d, &mut v, 1000), Ok(()));
    assert_eq!(deposit(&d, &mut v, 500), Ok(()));
    assert_eq!(v.state.unwrap().vault_amount, 1500);

    let w = withdraw_ctx(&owner, &owner);
    assert_eq!(withdraw(&w, &mut v, 1500), Ok(()));
    assert_eq!(v.state.unwrap().vault_amount, 0);

    assert_eq!(withdraw(&w, &mut v, 1), Err(VaultError::InsufficientFunds));

    let w2 = withdraw_ctx(&stranger, &owner);
    assert_eq!(withdraw(&w2, &mut v, 0), Err(VaultError::Unauthorized));
}

#[test]
fn deposit_then_withdraw_restores_balances() {
    let owner = key(3);
    let payer = key(4);
    let mut v = initialized_vault(&owner);
    let amount_before = v.state.unwrap().vault_amount;
    let funds_before = v.funds_lamports;

    let d = deposit_ctx(&payer, &owner);
    assert_eq!(deposit(&d, &mut v, 777), Ok(()));
    assert_eq!(v.state.unwrap().vault_amount, amount_before + 777);
    assert_eq!(v.funds_lamports, funds_before + 777);

    let w = withdraw_ctx(&owner, &owner);
    assert_eq!(withdraw(&w, &mut v, 777), Ok(()));
    assert_eq!(v.state.unwrap().vault_amount, amount_before);
    assert_eq!(v.funds_lamports, funds_before);
    assert_eq!(v.reserve, RENT);
}

#[test]
fn withdraw_by_non_owner_fails_regardless_of_amount() {
    let owner = key(5);
    let stranger = key(6);
    let mut v = initialized_vault(&owner);
    let d = deposit_ctx(&owner, &owner);
    assert_eq!(deposit(&d, &mut v, 50), Ok(()));

    let w = withdraw_ctx(&stranger, &owner);
    for amount in [0u64, 1, 50, u64::MAX] {
        assert_eq!(withdraw(&w, &mut v, amount), Err(VaultError::Unauthorized));
        assert_eq!(v.state.unwrap().vault_amount, 50);
    }
}

#[test]
fn withdraw_more_than_recorded_fails_and_changes_nothing() {
    let owner = key(8);
    let mut v = initialized_vault(&owner);
    let d = deposit_ctx(&owner, &owner);
    assert_eq!(deposit(&d, &mut v, 200), Ok(()));
    let funds_before = v.funds_lamports;

    let w = withdraw_ctx(&owner, &owner);
    assert_eq!(withdraw(&w, &mut v, 201), Err(VaultError::InsufficientFunds));
    assert_eq!(v.state.unwrap().vault_amount, 200);
    assert_eq!(v.funds_lamports, funds_before);
}

#[test]
fn deposit_overflow_fails_closed() {
    let owner = key(10);
    let mut v = Vault::new();
    // No reserve, so the recorded amount can reach the maximum exactly.
    assert_eq!(initialize(&Initialize { user: owner }, &mut v, 0), Ok(()));
    let d = deposit_ctx(&owner, &owner);
    assert_eq!(deposit(&d, &mut v, u64::MAX), Ok(()));
    assert_eq!(v.state.unwrap().vault_amount, u64::MAX);

    assert_eq!(deposit(&d, &mut v, 1), Err(VaultError::ArithmeticOverflow));
    assert_eq!(v.state.unwrap().vault_amount, u64::MAX);
    assert_eq!(v.funds_lamports, u64::MAX);
}

#[test]
fn deposit_with_wrong_state_address_fails() {
    let owner = key(11);
    let mut v = initialized_vault(&owner);
    let (_, vault_address) = vault_addresses(&owner);
    let d = Deposit { user: owner, state_address: key(12), vault_address };
    assert_eq!(deposit(&d, &mut v, 10), Err(VaultError::InvalidAddress));
    assert_eq!(v.state.unwrap().vault_amount, 0);
}

#[test]
fn withdraw_with_wrong_vault_address_fails() {
    let owner = key(13);
    let mut v = initialized_vault(&owner);
    let d = deposit_ctx(&owner, &owner);
    assert_eq!(deposit(&d, &mut v, 25), Ok(()));
    let (state_address, _) = vault_addresses(&owner);
    let w = Withdraw { user: owner, state_address, vault_address: key(14) };
    assert_eq!(withdraw(&w, &mut v, 5), Err(VaultError::InvalidAddress));
    assert_eq!(v.state.unwrap().vault_amount, 25);
}

#[test]
fn withdraw_below_reserve_is_refused_by_the_ledger_model() {
    // A vault whose bookkeeping promises more than the funds account can
    // pay over its reserve; only a hand-built value can be in this state.
    let owner = key(15);
    let (state_address, state_bump) = derive_address(&state_tag_bytes(), &owner).unwrap();
    let (vault_address, vault_bump) = derive_address(&vault_tag_bytes(), &state_address).unwrap();
    let mut v = Vault {
        state: Some(VaultState { vault_owner: owner, vault_amount: 100, vault_bump, state_bump }),
        funds_lamports: 50,
        reserve: 10,
    };
    let w = Withdraw { user: owner, state_address, vault_address };
    assert_eq!(withdraw(&w, &mut v, 100), Err(VaultError::ReserveViolation));
    assert_eq!(v.state.unwrap().vault_amount, 100);
    assert_eq!(v.funds_lamports, 50);
}

#[test]
fn derivation_is_deterministic_and_not_the_parent() {
    let owner = key(21);
    let (a1, b1) = derive_address(&state_tag_bytes(), &owner).unwrap();
    let (a2, b2) = derive_address(&state_tag_bytes(), &owner).unwrap();
    assert_eq!(a1.bytes, a2.bytes);
    assert_eq!(b1, b2);
    // The derived address is a hash of the seeds, never the parent itself.
    assert_ne!(a1.bytes, owner.bytes);

    // Different tags and different parents give different addresses.
    let (a3, _) = derive_address(&vault_tag_bytes(), &owner).unwrap();
    assert_ne!(a1.bytes, a3.bytes);
    let (a4, _) = derive_address(&state_tag_bytes(), &key(22)).unwrap();
    assert_ne!(a1.bytes, a4.bytes);
}

#[test]
fn operations_reject_addresses_for_another_owner() {
    // Addresses derived for one owner never validate for another's vault.
    let owner = key(23);
    let other = key(24);
    let mut v = initialized_vault(&owner);
    let d = deposit_ctx(&owner, &other);
    assert_eq!(deposit(&d, &mut v, 10), Err(VaultError::InvalidAddress));
}

#[test]
fn operations_reject_a_wrong_recorded_bump() {
    // A bump other than the recorded canonical one derives a different
    // address (or none), so the supplied addresses no longer re-derive.
    let owner = key(30);
    let (state_address, state_bump) = derive_address(&state_tag_bytes(), &owner).unwrap();
    let (vault_address, vault_bump) = derive_address(&vault_tag_bytes(), &state_address).unwrap();
    let mut v = Vault {
        state: Some(VaultState {
            vault_owner: owner,
            vault_amount: 5,
            vault_bump,
            state_bump: state_bump.wrapping_sub(1),
        }),
        funds_lamports: 100,
        reserve: 10,
    };
    let d = Deposit { user: owner, state_address, vault_address };
    assert_eq!(deposit(&d, &mut v, 1), Err(VaultError::InvalidAddress));
}
