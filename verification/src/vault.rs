//! The ledger-side deposit vault, modeled: a keyed account that stores its
//! owner and holds a balance, with deposits moving funds in from the owner
//! and withdrawals moving them back out, never below zero.
//!
//! On the ledger this state machine runs inside the on-chain runtime; the
//! dispatcher reaches it only through transaction submission. The rules it
//! enforces are stated and proved here over plain balances.

use vstd::prelude::*;
use crate::model::Address;

verus! {

/// The datum stored in the vault account: who owns it.
pub struct Vault {
    pub owner: Address,
}

/// The vault account: its stored datum and its balance in base units.
pub struct VaultAccount {
    pub data: Vault,
    pub lamports: u64,
}

/// The user's own account: its identity and its balance in base units.
pub struct UserAccount {
    pub key: Address,
    pub lamports: u64,
}

/// The accounts an initialization touches: a fresh vault and the user who
/// pays for and owns it.
pub struct Initialize {
    pub vault: VaultAccount,
    pub user: UserAccount,
}

/// The accounts a deposit touches.
pub struct Deposit {
    pub vault: VaultAccount,
    pub user: UserAccount,
}

/// The accounts a withdrawal touches.
pub struct Withdraw {
    pub vault: VaultAccount,
    pub user: UserAccount,
}

/// Why a vault instruction was rejected.
#[derive(Clone, Copy, PartialEq, Eq, Structural, Debug)]
pub enum VaultError {
    /// The debited account does not hold the requested amount.
    InsufficientFunds,
}

/// Records the caller as the vault's owner; balances are untouched.
pub fn initialize(ctx: &mut Initialize) -> (r: Result<(), VaultError>)
    ensures
        r is Ok,
        final(ctx).vault.data.owner == old(ctx).user.key,
        final(ctx).vault.lamports == old(ctx).vault.lamports,
        final(ctx).user == old(ctx).user,
{
    ctx.vault.data.owner = ctx.user.key;
    Ok(())
}

/// Moves `amount` from the user's account into the vault: rejected, with
/// both balances untouched, exactly when the user does not hold `amount`.
/// The two balances' sum is preserved.
pub fn deposit(ctx: &mut Deposit, amount: u64) -> (r: Result<(), VaultError>)
    requires
        old(ctx).vault.lamports + amount <= u64::MAX,
    ensures
        r is Ok <==> old(ctx).user.lamports >= amount,
        r is Ok ==> final(ctx).user.lamports == old(ctx).user.lamports - amount
            && final(ctx).vault.lamports == old(ctx).vault.lamports + amount,
        r is Err ==> *final(ctx) == *old(ctx) && r == Result::<(), VaultError>::Err(
            VaultError::InsufficientFunds,
        ),
        final(ctx).vault.data == old(ctx).vault.data,
        final(ctx).user.key == old(ctx).user.key,
        final(ctx).vault.lamports + final(ctx).user.lamports == old(ctx).vault.lamports + old(
            ctx,
        ).user.lamports,
{
    if ctx.user.lamports >= amount {
        ctx.user.lamports = ctx.user.lamports - amount;
        ctx.vault.lamports = ctx.vault.lamports + amount;
        Ok(())
    } else {
        Err(VaultError::InsufficientFunds)
    }
}

/// Moves `amount` from the vault back to its owner: only the owner's own
/// account may receive, and the instruction is rejected, with both balances
/// untouched, exactly when the vault does not hold `amount`. The two
/// balances' sum is preserved.
pub fn withdraw(ctx: &mut Withdraw, amount: u64) -> (r: Result<(), VaultError>)
    requires
        old(ctx).vault.data.owner == old(ctx).user.key,
        old(ctx).user.lamports + amount <= u64::MAX,
    ensures
        r is Ok <==> old(ctx).vault.lamports >= amount,
        r is Ok ==> final(ctx).vault.lamports == old(ctx).vault.lamports - amount
            && final(ctx).user.lamports == old(ctx).user.lamports + amount,
        r is Err ==> *final(ctx) == *old(ctx) && r == Result::<(), VaultError>::Err(
            VaultError::InsufficientFunds,
        ),
        final(ctx).vault.data == old(ctx).vault.data,
        final(ctx).user.key == old(ctx).user.key,
        final(ctx).vault.lamports + final(ctx).user.lamports == old(ctx).vault.lamports + old(
            ctx,
        ).user.lamports,
{
    if ctx.vault.lamports >= amount {
        ctx.vault.lamports = ctx.vault.lamports - amount;
        ctx.user.lamports = ctx.user.lamports + amount;
        Ok(())
    } else {
        Err(VaultError::InsufficientFunds)
    }
}

} // verus!
