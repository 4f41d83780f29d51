//! Laws that relate the vault's operations to one another.

use vstd::prelude::*;

use crate::vault::deposit_step;
use crate::vault::withdraw_step;
use crate::vault::Deposit;
use crate::vault::Vault;
use crate::vault::VaultError;
use crate::vault::Withdraw;

verus! {

/// Law: a deposit followed by a withdrawal of the same amount by the owner
/// succeeds and restores both the recorded balance and the funds account's
/// spendable balance to their values before the deposit.
pub proof fn lemma_deposit_withdraw_round_trip(v: Vault, d: Deposit, w: Withdraw, amount: u64)
    requires
        v.well_formed(),
        v.state is Some,
        deposit_step(v, d, amount).1 is Ok,
        w.user@ == v.state->Some_0.vault_owner@,
        w.state_address@ == d.state_address@,
        w.vault_address@ == d.vault_address@,
    ensures
        ({
            let v1 = deposit_step(v, d, amount).0;
            let (v2, r2) = withdraw_step(v1, w, amount);
            &&& r2 is Ok
            &&& v2.state->Some_0.vault_amount == v.state->Some_0.vault_amount
            &&& v2.state->Some_0.vault_owner == v.state->Some_0.vault_owner
            &&& v2.spendable() == v.spendable()
            &&& v2.funds_lamports == v.funds_lamports
            &&& v2.reserve == v.reserve
        }),
{
}

/// Law: the owner and both recorded bumps are write-once: whatever a
/// deposit or a withdrawal does, it never changes them, nor the reserve.
pub proof fn lemma_metadata_write_once(v: Vault, d: Deposit, w: Withdraw, amount: u64)
    requires
        v.state is Some,
    ensures
        ({
            let vd = deposit_step(v, d, amount).0;
            &&& vd.state is Some
            &&& vd.state->Some_0.vault_owner == v.state->Some_0.vault_owner
            &&& vd.state->Some_0.vault_bump == v.state->Some_0.vault_bump
            &&& vd.state->Some_0.state_bump == v.state->Some_0.state_bump
            &&& vd.reserve == v.reserve
        }),
        ({
            let vw = withdraw_step(v, w, amount).0;
            &&& vw.state is Some
            &&& vw.state->Some_0.vault_owner == v.state->Some_0.vault_owner
            &&& vw.state->Some_0.vault_bump == v.state->Some_0.vault_bump
            &&& vw.state->Some_0.state_bump == v.state->Some_0.state_bump
            &&& vw.reserve == v.reserve
        }),
{
}

/// Law: on a well-formed vault, a withdrawal is never stopped by the
/// ledger's reserve: the recorded balance never promises more than the
/// funds account can pay out over its reserve.
pub proof fn lemma_well_formed_withdraw_never_hits_reserve(v: Vault, ctx: Withdraw, amount: u64)
    requires
        v.well_formed(),
        v.state is Some,
    ensures
        withdraw_step(v, ctx, amount).1 != Err::<(), VaultError>(VaultError::ReserveViolation),
{
}

} // verus!
