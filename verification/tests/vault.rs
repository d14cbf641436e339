use vault_twitter::vault::{
    Deposit, DepositEvent, LedgerAccount, Vault, VaultError, Withdraw, WithdrawEvent, _deposit,
    _withdraw,
};
use vault_twitter::AccountId;

fn vault(balance: u64, locked: bool, authority: u64) -> Vault {
    Vault { key: AccountId(100), balance, locked, vault_authority: AccountId(authority) }
}

#[test]
fn deposit_succeeds_below_balance() {
    let mut ctx = Deposit {
        user: LedgerAccount { key: AccountId(1), balance: 50 },
        vault: vault(10, false, 7),
    };
    let r = _deposit(&mut ctx, 49);
    assert_eq!(
        r,
        Ok(DepositEvent { vault: AccountId(100), user: AccountId(1), amount: 49 })
    );
    assert_eq!(ctx.user.balance, 1);
    assert_eq!(ctx.vault.balance, 59);
}

#[test]
fn deposit_fails_on_exact_balance() {
    let mut ctx = Deposit {
        user: LedgerAccount { key: AccountId(1), balance: 50 },
        vault: vault(10, false, 7),
    };
    let r = _deposit(&mut ctx, 50);
    assert_eq!(r, Err(VaultError::InsufficientBalance));
    assert_eq!(ctx.user.balance, 50);
    assert_eq!(ctx.vault.balance, 10);
}

#[test]
fn deposit_fails_when_locked() {
    let mut ctx = Deposit {
        user: LedgerAccount { key: AccountId(1), balance: 1000 },
        vault: vault(10, true, 7),
    };
    let r = _deposit(&mut ctx, 5);
    assert_eq!(r, Err(VaultError::VaultLocked));
    assert_eq!(ctx.user.balance, 1000);
    assert_eq!(ctx.vault.balance, 10);
}

#[test]
fn withdraw_full_balance_then_fails() {
    let mut ctx = Withdraw {
        vault_authority: LedgerAccount { key: AccountId(7), balance: 5 },
        vault: vault(100, false, 7),
    };
    let r = _withdraw(&mut ctx, 100);
    assert_eq!(
        r,
        Ok(WithdrawEvent { amount: 100, vault: AccountId(100), vault_authority: AccountId(7) })
    );
    assert_eq!(ctx.vault.balance, 0);
    assert_eq!(ctx.vault_authority.balance, 105);

    let r2 = _withdraw(&mut ctx, 1);
    assert_eq!(r2, Err(VaultError::InsufficientBalance));
    assert_eq!(ctx.vault.balance, 0);
    assert_eq!(ctx.vault_authority.balance, 105);
}

#[test]
fn withdraw_fails_for_non_authority() {
    // rejected whatever the amount and the lock flag
    for locked in [false, true] {
        for amount in [0u64, 1, 100, u64::MAX] {
            let mut ctx = Withdraw {
                vault_authority: LedgerAccount { key: AccountId(8), balance: 0 },
                vault: vault(100, locked, 7),
            };
            let r = _withdraw(&mut ctx, amount);
            assert_eq!(r, Err(VaultError::Unauthorized));
            assert_eq!(ctx.vault.balance, 100);
            assert_eq!(ctx.vault_authority.balance, 0);
        }
    }
}

#[test]
fn withdraw_fails_when_locked() {
    let mut ctx = Withdraw {
        vault_authority: LedgerAccount { key: AccountId(7), balance: 0 },
        vault: vault(100, true, 7),
    };
    let r = _withdraw(&mut ctx, 10);
    assert_eq!(r, Err(VaultError::VaultLocked));
    assert_eq!(ctx.vault.balance, 100);
}

#[test]
fn withdraw_fails_above_balance() {
    let mut ctx = Withdraw {
        vault_authority: LedgerAccount { key: AccountId(7), balance: 0 },
        vault: vault(100, false, 7),
    };
    let r = _withdraw(&mut ctx, 101);
    assert_eq!(r, Err(VaultError::InsufficientBalance));
    assert_eq!(ctx.vault.balance, 100);
    assert_eq!(ctx.vault_authority.balance, 0);
}
