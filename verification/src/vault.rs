//! The custody vault: deposits and withdrawals of native-currency balances
//! under a lock flag and an authority check.
//!
//! Each entry point is a pure transition over the participating account
//! records. The host runtime authenticates the signer, hands the records in,
//! and commits or discards the whole call; on any error the records are
//! returned unchanged. Events are returned to the caller, standing for the
//! host's append-only event sink.

use vstd::prelude::*;

use crate::AccountId;

verus! {

/// The custody record: a balance in native units, a lock flag, and the one
/// identity allowed to withdraw.
#[derive(Clone, Copy, PartialEq, Eq, Structural, Debug)]
pub struct Vault {
    pub key: AccountId,
    pub balance: u64,
    pub locked: bool,
    pub vault_authority: AccountId,
}

/// A plain ledger account: its identity and its spendable balance.
#[derive(Clone, Copy, PartialEq, Eq, Structural, Debug)]
pub struct LedgerAccount {
    pub key: AccountId,
    pub balance: u64,
}

/// The rejection reasons of the vault entry points.
#[derive(Clone, Copy, PartialEq, Eq, Structural, Debug)]
pub enum VaultError {
    /// The vault's lock flag is set; no transfer may touch it.
    VaultLocked,
    /// The paying side does not hold the required balance.
    InsufficientBalance,
    /// The caller is not the vault's withdrawal authority.
    Unauthorized,
}

/// Record of a completed deposit, for off-ledger observability.
#[derive(Clone, Copy, PartialEq, Eq, Structural, Debug)]
pub struct DepositEvent {
    pub vault: AccountId,
    pub user: AccountId,
    pub amount: u64,
}

/// Record of a completed withdrawal, for off-ledger observability.
#[derive(Clone, Copy, PartialEq, Eq, Structural, Debug)]
pub struct WithdrawEvent {
    pub amount: u64,
    pub vault: AccountId,
    pub vault_authority: AccountId,
}

/// Participants of a deposit call; the host has already authenticated `user`.
#[derive(Clone, Copy, PartialEq, Eq, Structural, Debug)]
pub struct Deposit {
    pub user: LedgerAccount,
    pub vault: Vault,
}

/// Participants of a withdrawal; the host has already authenticated
/// `vault_authority` as the signer (but not as the vault's authority:
/// that relation is checked here).
#[derive(Clone, Copy, PartialEq, Eq, Structural, Debug)]
pub struct Withdraw {
    pub vault_authority: LedgerAccount,
    pub vault: Vault,
}

/// The complete outcome of a deposit: the vault must be unlocked and the
/// depositor must hold strictly more than the amount (the strict `>` reserves
/// the depositor's own minimum operating balance). On success the amount
/// moves from depositor to vault.
pub open spec fn deposit_transition(
    v: Vault,
    user: LedgerAccount,
    amount: u64,
) -> Result<(Vault, LedgerAccount, DepositEvent), VaultError> {
    if v.locked {
        Err(VaultError::VaultLocked)
    } else if user.balance <= amount {
        Err(VaultError::InsufficientBalance)
    } else {
        Ok(
            (
                Vault { balance: (v.balance + amount) as u64, ..v },
                LedgerAccount { balance: (user.balance - amount) as u64, ..user },
                DepositEvent { vault: v.key, user: user.key, amount },
            ),
        )
    }
}

/// The complete outcome of a withdrawal: the caller must be the vault's
/// authority, the vault unlocked, and the vault balance at least the amount
/// (`>=`, not `>`: draining the vault is legal). On success the amount moves
/// from vault to authority.
pub open spec fn withdraw_transition(
    v: Vault,
    caller: LedgerAccount,
    amount: u64,
) -> Result<(Vault, LedgerAccount, WithdrawEvent), VaultError> {
    if caller.key != v.vault_authority {
        Err(VaultError::Unauthorized)
    } else if v.locked {
        Err(VaultError::VaultLocked)
    } else if v.balance < amount {
        Err(VaultError::InsufficientBalance)
    } else {
        Ok(
            (
                Vault { balance: (v.balance - amount) as u64, ..v },
                LedgerAccount { balance: (caller.balance + amount) as u64, ..caller },
                WithdrawEvent { amount, vault: v.key, vault_authority: caller.key },
            ),
        )
    }
}

/// Move `amount` from the depositor to the vault, after checking the lock
/// flag and the depositor's balance. On success the deposit event is
/// returned; on failure nothing changes on either side.
pub fn _deposit(ctx: &mut Deposit, amount: u64) -> (result: Result<DepositEvent, VaultError>)
    requires
        old(ctx).vault.balance + amount <= u64::MAX,
    ensures
        (match deposit_transition(old(ctx).vault, old(ctx).user, amount) {
            Ok(t) => final (ctx).vault == t.0 && final (ctx).user == t.1 && result == Ok::<
                DepositEvent,
                VaultError,
            >(t.2),
            Err(e) => *final (ctx) == *old(ctx) && result == Err::<DepositEvent, VaultError>(e),
        }),
{
    if ctx.vault.locked {
        return Err(VaultError::VaultLocked);
    }
    if ctx.user.balance <= amount {
        return Err(VaultError::InsufficientBalance);
    }
    // the host's delegated transfer primitive: both balances re-validated
    ctx.user.balance = ctx.user.balance - amount;
    ctx.vault.balance = ctx.vault.balance + amount;
    Ok(DepositEvent { vault: ctx.vault.key, user: ctx.user.key, amount })
}

/// Move `amount` from the vault to its authority, after checking that the
/// caller is the authority, that the vault is unlocked and that it holds at
/// least `amount`. On success the withdraw event is returned; on failure
/// nothing changes on either side.
pub fn _withdraw(ctx: &mut Withdraw, amount: u64) -> (result: Result<WithdrawEvent, VaultError>)
    requires
        old(ctx).vault_authority.balance + amount <= u64::MAX,
    ensures
        (match withdraw_transition(old(ctx).vault, old(ctx).vault_authority, amount) {
            Ok(t) => final (ctx).vault == t.0 && final (ctx).vault_authority == t.1 && result
                == Ok::<WithdrawEvent, VaultError>(t.2),
            Err(e) => *final (ctx) == *old(ctx) && result == Err::<WithdrawEvent, VaultError>(e),
        }),
{
    if ctx.vault_authority.key != ctx.vault.vault_authority {
        return Err(VaultError::Unauthorized);
    }
    if ctx.vault.locked {
        return Err(VaultError::VaultLocked);
    }
    if ctx.vault.balance < amount {
        return Err(VaultError::InsufficientBalance);
    }
    // direct ledger adjustment: the vault itself is the authorizing party
    ctx.vault.balance = ctx.vault.balance - amount;
    ctx.vault_authority.balance = ctx.vault_authority.balance + amount;
    Ok(WithdrawEvent { amount, vault: ctx.vault.key, vault_authority: ctx.vault_authority.key })
}

/// A deposit against a locked vault, or by a depositor holding no more than
/// the requested amount, is refused — locked vaults with `VaultLocked`,
/// short balances with `InsufficientBalance` — and the refusal leaves both
/// balances unchanged (see the `Err` case of `_deposit`'s contract).
pub proof fn lemma_deposit_rejected(v: Vault, user: LedgerAccount, amount: u64)
    requires
        v.locked || user.balance <= amount,
    ensures
        deposit_transition(v, user, amount) is Err,
        v.locked ==> deposit_transition(v, user, amount) == Err::<
            (Vault, LedgerAccount, DepositEvent),
            VaultError,
        >(VaultError::VaultLocked),
        !v.locked ==> deposit_transition(v, user, amount) == Err::<
            (Vault, LedgerAccount, DepositEvent),
            VaultError,
        >(VaultError::InsufficientBalance),
{
}

/// A withdrawal by anyone but the vault's authority is refused with
/// `Unauthorized`, whatever the amount and the lock flag.
pub proof fn lemma_withdraw_unauthorized(v: Vault, caller: LedgerAccount, amount: u64)
    requires
        caller.key != v.vault_authority,
    ensures
        withdraw_transition(v, caller, amount) == Err::<
            (Vault, LedgerAccount, WithdrawEvent),
            VaultError,
        >(VaultError::Unauthorized),
{
}

/// A withdrawal of more than the vault holds is refused.
pub proof fn lemma_withdraw_insufficient(v: Vault, caller: LedgerAccount, amount: u64)
    requires
        v.balance < amount,
    ensures
        withdraw_transition(v, caller, amount) is Err,
{
}

/// Withdrawing exactly the vault's balance is legal for the unlocked vault's
/// authority and leaves the vault empty.
pub proof fn lemma_withdraw_full_balance(v: Vault, caller: LedgerAccount)
    requires
        caller.key == v.vault_authority,
        !v.locked,
    ensures
        withdraw_transition(v, caller, v.balance) matches Ok(t) && t.0.balance == 0,
{
}

} // verus!
