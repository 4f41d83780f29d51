//! The vault's state machine: `initialize`, `deposit` and `withdraw`, each a
//! single atomic transition over the pair of derived accounts.
//!
//! The host ledger executes one operation per atomic transaction and
//! serializes all transactions touching the same accounts, so each operation
//! is modelled as one transition over a [`Vault`] value: it either updates
//! the vault or returns an error and leaves it untouched.

use vstd::prelude::*;

use crate::addresses::canonical_bump;
use crate::addresses::canonically_derivable;
use crate::addresses::check_derived;
use crate::addresses::derivation_address;
use crate::addresses::derivation_ok;
use crate::addresses::derive_address;
use crate::addresses::state_tag;
use crate::addresses::state_tag_bytes;
use crate::addresses::vault_tag;
use crate::addresses::vault_tag_bytes;
use crate::keys::key_eq;
use crate::keys::Pubkey;

verus! {

/// Why an operation was rejected. Every error is detected before any
/// mutation, so a failed operation leaves the vault exactly as it was.
#[derive(Clone, Copy, Debug, PartialEq, Eq, Structural)]
pub enum VaultError {
    /// A withdrawal by an identity other than the recorded owner.
    Unauthorized,
    /// A withdrawal of more than the recorded balance.
    InsufficientFunds,
    /// An `initialize` for an owner whose vault already exists.
    AlreadyInitialized,
    /// A balance update would leave the representable range.
    ArithmeticOverflow,
    /// A supplied account address does not re-derive from its seeds, or no
    /// address can be derived for them at all.
    InvalidAddress,
    /// A transfer out of the funds account would drop it below the minimum
    /// reserve the ledger demands of it.
    ReserveViolation,
}

/// The metadata record kept in the state account, one per owner.
#[derive(Clone, Copy, Debug)]
pub struct VaultState {
    /// The only identity permitted to withdraw; set once at initialization.
    pub vault_owner: Pubkey,
    /// The balance the vault believes is withdrawable, in native units.
    pub vault_amount: u64,
    /// The bump recorded for the funds account's derivation.
    pub vault_bump: u8,
    /// The bump recorded for the state account's derivation.
    pub state_bump: u8,
}

/// The pair of ledger accounts one vault occupies, as the program observes
/// them within an atomic transaction.
#[derive(Clone, Copy, Debug)]
pub struct Vault {
    /// The state account's record; `None` until `initialize` has run.
    pub state: Option<VaultState>,
    /// The actual balance of the funds account, in native units.
    pub funds_lamports: u64,
    /// The minimum balance the funds account must keep to remain valid in
    /// the ledger; paid in at initialization and never vault-spendable.
    pub reserve: u64,
}

impl Vault {
    /// The vault's bookkeeping never promises more than the funds account
    /// can actually pay out over its reserve.
    pub open spec fn well_formed(self) -> bool {
        match self.state {
            Some(s) => s.vault_amount + self.reserve <= self.funds_lamports,
            None => true,
        }
    }

    /// The balance the funds account holds beyond its reserve.
    pub open spec fn spendable(self) -> int {
        self.funds_lamports - self.reserve
    }

    /// A vault that has not been initialized: no state record, and an empty
    /// funds account with no reserve demanded of it yet.
    pub fn new() -> (r: Vault)
        ensures
            r.state is None,
            r.funds_lamports == 0,
            r.reserve == 0,
            r.well_formed(),
    {
        Vault { state: None, funds_lamports: 0, reserve: 0 }
    }
}

/// Proof of control over the funds account: the seeds that re-derive its
/// address, presented to the ledger in place of a signature. The funds
/// account has no signing key, so reconstructing its derivation is the only
/// way value ever leaves it.
pub struct AuthorityProof {
    /// The state account's address, the parent key of the derivation.
    pub parent: Pubkey,
    /// The recorded bump of the funds account's derivation.
    pub bump: u8,
}

impl AuthorityProof {
    /// Whether the ledger accepts this proof as control over `address`:
    /// exactly when the seeds re-derive that address.
    pub open spec fn authorizes(self, address: Seq<u8>) -> bool {
        derivation_ok(vault_tag(), self.parent@, self.bump) && derivation_address(
            vault_tag(),
            self.parent@,
            self.bump,
        ) == address
    }
}

/// The ledger's transfer primitive for value leaving the funds account. It
/// accepts the transfer only on a valid authority proof for the account's
/// address, and only if the account keeps at least its reserve.
pub fn transfer_from_vault(
    vault: &mut Vault,
    authority: &AuthorityProof,
    vault_address: &Pubkey,
    amount: u64,
) -> (r: Result<(), VaultError>)
    ensures
        !authority.authorizes(vault_address@) ==> r == Err::<(), VaultError>(VaultError::InvalidAddress)
            && *final(vault) == *old(vault),
        authority.authorizes(vault_address@) && old(vault).funds_lamports < amount + old(vault).reserve
            ==> r == Err::<(), VaultError>(VaultError::ReserveViolation) && *final(vault) == *old(
            vault,
        ),
        authority.authorizes(vault_address@) && old(vault).funds_lamports >= amount + old(
            vault,
        ).reserve ==> r == Ok::<(), VaultError>(()) && *final(vault) == (Vault {
            state: old(vault).state,
            funds_lamports: (old(vault).funds_lamports - amount) as u64,
            reserve: old(vault).reserve,
        }),
{
    let tag = vault_tag_bytes();
    if !check_derived(&tag, &authority.parent, authority.bump, vault_address) {
        return Err(VaultError::InvalidAddress);
    }
    if vault.funds_lamports < amount || vault.funds_lamports - amount < vault.reserve {
        return Err(VaultError::ReserveViolation);
    }
    vault.funds_lamports = vault.funds_lamports - amount;
    Ok(())
}

/// Accounts of `initialize`: the signing user, who becomes the owner and
/// pays the reserve into the funds account.
#[derive(Clone, Copy, Debug)]
pub struct Initialize {
    /// The caller: a signing principal able to fund the reserve.
    pub user: Pubkey,
}

/// Accounts of `deposit`: the paying user (any identity, not only the
/// owner) and the addresses it supplies for the two vault accounts.
#[derive(Clone, Copy, Debug)]
pub struct Deposit {
    /// The payer of the deposited amount.
    pub user: Pubkey,
    /// The address supplied for the state account.
    pub state_address: Pubkey,
    /// The address supplied for the funds account.
    pub vault_address: Pubkey,
}

/// Accounts of `withdraw`: the caller, who must be the recorded owner, and
/// the addresses it supplies for the two vault accounts.
#[derive(Clone, Copy, Debug)]
pub struct Withdraw {
    /// The caller, paid on success; must equal the recorded owner.
    pub user: Pubkey,
    /// The address supplied for the state account.
    pub state_address: Pubkey,
    /// The address supplied for the funds account.
    pub vault_address: Pubkey,
}

/// Whether the supplied state and funds addresses re-derive from the
/// recorded owner and bumps, as every operation after `initialize` demands.
pub open spec fn addresses_check(
    s: VaultState,
    state_address: Seq<u8>,
    vault_address: Seq<u8>,
) -> bool {
    &&& derivation_ok(state_tag(), s.vault_owner@, s.state_bump)
    &&& derivation_address(state_tag(), s.vault_owner@, s.state_bump) == state_address
    &&& derivation_ok(vault_tag(), state_address, s.vault_bump)
    &&& derivation_address(vault_tag(), state_address, s.vault_bump) == vault_address
}

/// The transition `initialize` makes: on a vault with no state record, it
/// derives both addresses, moves the reserve in, and records the owner, a
/// zero balance and both bumps.
pub open spec fn init_step(v: Vault, ctx: Initialize, rent_exempt: u64) -> (Vault, Result<
    (),
    VaultError,
>) {
    if v.state is Some {
        (v, Err(VaultError::AlreadyInitialized))
    } else if !canonically_derivable(state_tag(), ctx.user@) {
        (v, Err(VaultError::InvalidAddress))
    } else {
        let state_bump = canonical_bump(state_tag(), ctx.user@);
        let state_address = derivation_address(state_tag(), ctx.user@, state_bump);
        if !canonically_derivable(vault_tag(), state_address) {
            (v, Err(VaultError::InvalidAddress))
        } else {
            let vault_bump = canonical_bump(vault_tag(), state_address);
            if v.funds_lamports + rent_exempt > u64::MAX {
                (v, Err(VaultError::ArithmeticOverflow))
            } else {
                (
                    Vault {
                        state: Some(
                            VaultState {
                                vault_owner: ctx.user,
                                vault_amount: 0,
                                vault_bump,
                                state_bump,
                            },
                        ),
                        funds_lamports: (v.funds_lamports + rent_exempt) as u64,
                        reserve: rent_exempt,
                    },
                    Ok(()),
                )
            }
        }
    }
}

/// The transition `deposit` makes: with re-derived addresses, it moves
/// `amount` from the payer into the funds account and raises the recorded
/// balance by the same amount, failing closed on overflow.
pub open spec fn deposit_step(v: Vault, ctx: Deposit, amount: u64) -> (Vault, Result<
    (),
    VaultError,
>)
    recommends
        v.state is Some,
{
    let s = v.state->Some_0;
    if !addresses_check(s, ctx.state_address@, ctx.vault_address@) {
        (v, Err(VaultError::InvalidAddress))
    } else if s.vault_amount + amount > u64::MAX || v.funds_lamports + amount > u64::MAX {
        (v, Err(VaultError::ArithmeticOverflow))
    } else {
        (
            Vault {
                state: Some(
                    VaultState {
                        vault_owner: s.vault_owner,
                        vault_amount: (s.vault_amount + amount) as u64,
                        vault_bump: s.vault_bump,
                        state_bump: s.state_bump,
                    },
                ),
                funds_lamports: (v.funds_lamports + amount) as u64,
                reserve: v.reserve,
            },
            Ok(()),
        )
    }
}

/// The transition `withdraw` makes: only the recorded owner, only up to the
/// recorded balance, only through a valid authority proof, and only while
/// the funds account keeps its reserve.
pub open spec fn withdraw_step(v: Vault, ctx: Withdraw, amount: u64) -> (Vault, Result<
    (),
    VaultError,
>)
    recommends
        v.state is Some,
{
    let s = v.state->Some_0;
    if ctx.user@ != s.vault_owner@ {
        (v, Err(VaultError::Unauthorized))
    } else if amount > s.vault_amount {
        (v, Err(VaultError::InsufficientFunds))
    } else if !addresses_check(s, ctx.state_address@, ctx.vault_address@) {
        (v, Err(VaultError::InvalidAddress))
    } else if v.funds_lamports < amount + v.reserve {
        (v, Err(VaultError::ReserveViolation))
    } else {
        (
            Vault {
                state: Some(
                    VaultState {
                        vault_owner: s.vault_owner,
                        vault_amount: (s.vault_amount - amount) as u64,
                        vault_bump: s.vault_bump,
                        state_bump: s.state_bump,
                    },
                ),
                funds_lamports: (v.funds_lamports - amount) as u64,
                reserve: v.reserve,
            },
            Ok(()),
        )
    }
}

impl Initialize {
    /// Creates the vault for `self.user`: derives the state and funds
    /// addresses, transfers the reserve of `rent_exempt` from the user into
    /// the funds account, and records the owner, a zero balance and both
    /// bumps. Fails if the vault already exists, and then changes nothing.
    pub fn initialize(&self, vault: &mut Vault, rent_exempt: u64) -> (r: Result<(), VaultError>)
        ensures
            *final(vault) == init_step(*old(vault), *self, rent_exempt).0,
            r == init_step(*old(vault), *self, rent_exempt).1,
            old(vault).state is Some ==> r == Err::<(), VaultError>(VaultError::AlreadyInitialized)
                && *final(vault) == *old(vault),
            r is Ok ==> final(vault).state == Some(
                VaultState {
                    vault_owner: self.user,
                    vault_amount: 0,
                    vault_bump: final(vault).state->Some_0.vault_bump,
                    state_bump: final(vault).state->Some_0.state_bump,
                },
            ) && final(vault).reserve == rent_exempt,
            r is Err ==> *final(vault) == *old(vault),
            r is Ok ==> final(vault).well_formed(),
            old(vault).well_formed() ==> final(vault).well_formed(),
    {
        if vault.state.is_some() {
            return Err(VaultError::AlreadyInitialized);
        }
        let state_seed = state_tag_bytes();
        let (state_address, state_bump) = match derive_address(&state_seed, &self.user) {
            Some(kb) => kb,
            None => {
                return Err(VaultError::InvalidAddress);
            },
        };
        let vault_seed = vault_tag_bytes();
        let (_vault_address, vault_bump) = match derive_address(&vault_seed, &state_address) {
            Some(kb) => kb,
            None => {
                return Err(VaultError::InvalidAddress);
            },
        };
        let new_funds = match vault.funds_lamports.checked_add(rent_exempt) {
            Some(f) => f,
            None => {
                return Err(VaultError::ArithmeticOverflow);
            },
        };
        vault.funds_lamports = new_funds;
        vault.reserve = rent_exempt;
        vault.state = Some(
            VaultState { vault_owner: self.user, vault_amount: 0, vault_bump, state_bump },
        );
        Ok(())
    }
}

impl Deposit {
    /// Moves `amount` from the payer into the funds account and raises the
    /// recorded balance by the same amount. Any payer may top up the vault;
    /// no ownership check is made. Fails closed on overflow, and any
    /// failure changes nothing.
    pub fn deposit(&self, vault: &mut Vault, amount: u64) -> (r: Result<(), VaultError>)
        requires
            old(vault).state is Some,
        ensures
            *final(vault) == deposit_step(*old(vault), *self, amount).0,
            r == deposit_step(*old(vault), *self, amount).1,
            old(vault).state->Some_0.vault_amount + amount > u64::MAX && addresses_check(
                old(vault).state->Some_0,
                self.state_address@,
                self.vault_address@,
            ) ==> r == Err::<(), VaultError>(VaultError::ArithmeticOverflow),
            r is Err ==> *final(vault) == *old(vault),
            r is Ok ==> final(vault).state->Some_0.vault_amount == old(
                vault,
            ).state->Some_0.vault_amount + amount,
            old(vault).well_formed() ==> final(vault).well_formed(),
    {
        let s = match vault.state {
            Some(s) => s,
            None => unreached(),
        };
        let state_seed = state_tag_bytes();
        let vault_seed = vault_tag_bytes();
        let state_ok = check_derived(&state_seed, &s.vault_owner, s.state_bump, &self.state_address);
        let vault_ok = check_derived(
            &vault_seed,
            &self.state_address,
            s.vault_bump,
            &self.vault_address,
        );
        if !state_ok || !vault_ok {
            return Err(VaultError::InvalidAddress);
        }
        let new_amount = match s.vault_amount.checked_add(amount) {
            Some(a) => a,
            None => {
                return Err(VaultError::ArithmeticOverflow);
            },
        };
        let new_funds = match vault.funds_lamports.checked_add(amount) {
            Some(f) => f,
            None => {
                return Err(VaultError::ArithmeticOverflow);
            },
        };
        vault.funds_lamports = new_funds;
        vault.state = Some(
            VaultState {
                vault_owner: s.vault_owner,
                vault_amount: new_amount,
                vault_bump: s.vault_bump,
                state_bump: s.state_bump,
            },
        );
        Ok(())
    }
}

impl Withdraw {
    /// Pays `amount` from the funds account to the caller, authorized by an
    /// authority proof built from the recorded derivation seeds, and lowers
    /// the recorded balance by the same amount. Only the recorded owner may
    /// withdraw, and only up to the recorded balance; any failure changes
    /// nothing.
    pub fn withdraw(&self, vault: &mut Vault, amount: u64) -> (r: Result<(), VaultError>)
        requires
            old(vault).state is Some,
        ensures
            *final(vault) == withdraw_step(*old(vault), *self, amount).0,
            r == withdraw_step(*old(vault), *self, amount).1,
            self.user@ != old(vault).state->Some_0.vault_owner@ ==> r == Err::<
                (),
                VaultError,
            >(VaultError::Unauthorized) && *final(vault) == *old(vault),
            self.user@ == old(vault).state->Some_0.vault_owner@ && amount > old(
                vault,
            ).state->Some_0.vault_amount ==> r == Err::<(), VaultError>(
                VaultError::InsufficientFunds,
            ) && *final(vault) == *old(vault),
            r is Err ==> *final(vault) == *old(vault),
            r is Ok ==> final(vault).state->Some_0.vault_amount == old(
                vault,
            ).state->Some_0.vault_amount - amount && final(vault).spendable() == old(
                vault,
            ).spendable() - amount,
            old(vault).well_formed() ==> final(vault).well_formed(),
    {
        let s = match vault.state {
            Some(s) => s,
            None => unreached(),
        };
        if !key_eq(&self.user, &s.vault_owner) {
            return Err(VaultError::Unauthorized);
        }
        if amount > s.vault_amount {
            return Err(VaultError::InsufficientFunds);
        }
        let state_seed = state_tag_bytes();
        let vault_seed = vault_tag_bytes();
        let state_ok = check_derived(&state_seed, &s.vault_owner, s.state_bump, &self.state_address);
        let vault_ok = check_derived(
            &vault_seed,
            &self.state_address,
            s.vault_bump,
            &self.vault_address,
        );
        if !state_ok || !vault_ok {
            return Err(VaultError::InvalidAddress);
        }
        let authority = AuthorityProof { parent: self.state_address, bump: s.vault_bump };
        match transfer_from_vault(vault, &authority, &self.vault_address, amount) {
            Ok(()) => {},
            Err(e) => {
                return Err(e);
            },
        }
        vault.state = Some(
            VaultState {
                vault_owner: s.vault_owner,
                vault_amount: s.vault_amount - amount,
                vault_bump: s.vault_bump,
                state_bump: s.state_bump,
            },
        );
        Ok(())
    }
}

/// Entry point of the initialize operation; forwards to
/// [`Initialize::initialize`].
pub fn initialize(ctx: &Initialize, vault: &mut Vault, rent_exempt: u64) -> (r: Result<
    (),
    VaultError,
>)
    ensures
        *final(vault) == init_step(*old(vault), *ctx, rent_exempt).0,
        r == init_step(*old(vault), *ctx, rent_exempt).1,
{
    ctx.initialize(vault, rent_exempt)
}

/// Entry point of the deposit operation; forwards to [`Deposit::deposit`].
pub fn deposit(ctx: &Deposit, vault: &mut Vault, amount: u64) -> (r: Result<(), VaultError>)
    requires
        old(vault).state is Some,
    ensures
        *final(vault) == deposit_step(*old(vault), *ctx, amount).0,
        r == deposit_step(*old(vault), *ctx, amount).1,
{
    ctx.deposit(vault, amount)
}

/// Entry point of the withdraw operation; forwards to
/// [`Withdraw::withdraw`].
pub fn withdraw(ctx: &Withdraw, vault: &mut Vault, amount: u64) -> (r: Result<(), VaultError>)
    requires
        old(vault).state is Some,
    ensures
        *final(vault) == withdraw_step(*old(vault), *ctx, amount).0,
        r == withdraw_step(*old(vault), *ctx, amount).1,
{
    ctx.withdraw(vault, amount)
}

} // verus!
