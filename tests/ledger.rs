use std::collections::HashMap;

use bank_ledger::account::{Transaction, UserAccount};
use bank_ledger::amount::{Amount, TxError};
use bank_ledger::registry::{handle_transaction, TransactionType};

fn registry(ids: &[u64]) -> HashMap<u64, UserAccount> {
    let mut accounts = HashMap::new();
    for &id in ids {
        accounts.insert(id, UserAccount::new(id));
    }
    accounts
}

fn balance_of(accounts: &HashMap<u64, UserAccount>, id: u64) -> u64 {
    accounts.get(&id).unwrap().balance().value()
}

fn ledger_of(accounts: &HashMap<u64, UserAccount>, id: u64) -> Vec<Transaction> {
    accounts.get(&id).unwrap().ledger().clone()
}

#[test]
fn amount_try_from_rejects_zero() {
    assert_eq!(Amount::try_from(0), Err(TxError::InvalidAmount));
    assert_eq!(Amount::try_from(7).map(|a| a.value()), Ok(7));
}

#[test]
fn amount_checked_add() {
    assert_eq!(Amount(2).checked_add(Amount(3)), Ok(Amount(5)));
    assert_eq!(Amount(u64::MAX).checked_add(Amount(0)), Ok(Amount(u64::MAX)));
    assert_eq!(Amount(u64::MAX).checked_add(Amount(1)), Err(TxError::Overflow));
}

#[test]
fn amount_checked_sub() {
    assert_eq!(Amount(5).checked_sub(Amount(5)), Ok(Amount(0)));
    assert_eq!(Amount(9).checked_sub(Amount(4)), Ok(Amount(5)));
    assert_eq!(Amount(4).checked_sub(Amount(9)), Err(TxError::InsufficientFunds));
}

#[test]
fn new_account_is_empty() {
    let acc = UserAccount::new(42);
    assert_eq!(acc.id(), 42);
    assert_eq!(acc.balance(), Amount::zero());
    assert!(acc.ledger().is_empty());
}

#[test]
fn deposit_then_withdraw_returns_to_zero() {
    for raw in [1u64, 100, u64::MAX] {
        let mut acc = UserAccount::new(1);
        assert_eq!(acc.deposit(Amount(raw)), Ok(()));
        assert_eq!(acc.withdraw(Amount(raw)), Ok(()));
        assert_eq!(acc.balance().value(), 0);
        assert_eq!(
            acc.ledger().clone(),
            vec![
                Transaction::Deposit { to: 1, amount: Amount(raw) },
                Transaction::Withdraw { from: 1, amount: Amount(raw) },
            ]
        );
    }
}

#[test]
fn zero_deposit_and_withdraw_are_refused() {
    let mut acc = UserAccount::new(3);
    acc.deposit(Amount(10)).unwrap();
    assert_eq!(acc.deposit(Amount(0)), Err(TxError::InvalidAmount));
    assert_eq!(acc.withdraw(Amount(0)), Err(TxError::InvalidAmount));
    assert_eq!(acc.balance().value(), 10);
    assert_eq!(acc.ledger().len(), 1);

    let mut accounts = registry(&[1]);
    assert_eq!(
        handle_transaction(&mut accounts, 1, TransactionType::Deposit(0)),
        Err(TxError::InvalidAmount)
    );
    assert_eq!(
        handle_transaction(&mut accounts, 1, TransactionType::Withdraw(0)),
        Err(TxError::InvalidAmount)
    );
    assert_eq!(balance_of(&accounts, 1), 0);
    assert!(ledger_of(&accounts, 1).is_empty());
}

#[test]
fn overdraw_is_refused() {
    let mut acc = UserAccount::new(1);
    acc.deposit(Amount(30)).unwrap();
    assert_eq!(acc.withdraw(Amount(31)), Err(TxError::InsufficientFunds));
    assert_eq!(acc.balance().value(), 30);
    assert_eq!(acc.ledger().len(), 1);
}

#[test]
fn self_transfer_is_refused() {
    let mut a = UserAccount::new(5);
    let mut b = UserAccount::new(5);
    a.deposit(Amount(100)).unwrap();
    assert_eq!(a.transfer(&mut b, Amount(10)), Err(TxError::CannotTransferToSelf));
    assert_eq!(a.balance().value(), 100);
    assert_eq!(b.balance().value(), 0);

    let mut accounts = registry(&[1, 2]);
    handle_transaction(&mut accounts, 1, TransactionType::Deposit(100)).unwrap();
    for raw in [0u64, 10, 1000] {
        assert_eq!(
            handle_transaction(&mut accounts, 1, TransactionType::Transfer { target_id: 1, amount: raw }),
            Err(TxError::CannotTransferToSelf)
        );
    }
    // refused even when the account does not exist
    assert_eq!(
        handle_transaction(&mut accounts, 9, TransactionType::Transfer { target_id: 9, amount: 0 }),
        Err(TxError::CannotTransferToSelf)
    );
    assert_eq!(balance_of(&accounts, 1), 100);
    assert_eq!(ledger_of(&accounts, 1).len(), 1);
}

#[test]
fn transfer_moves_amount_and_records_both_sides() {
    let mut x = UserAccount::new(1);
    let mut y = UserAccount::new(2);
    x.deposit(Amount(70)).unwrap();
    y.deposit(Amount(5)).unwrap();
    assert_eq!(x.transfer(&mut y, Amount(20)), Ok(()));
    assert_eq!(x.balance().value(), 50);
    assert_eq!(y.balance().value(), 25);
    let tx = Transaction::Transfer { from: 1, to: 2, amount: Amount(20) };
    assert_eq!(x.ledger().last(), Some(&tx));
    assert_eq!(y.ledger().last(), Some(&tx));
    assert_eq!(x.ledger().len(), 2);
    assert_eq!(y.ledger().len(), 2);
}

#[test]
fn failed_transfers_change_nothing() {
    let mut accounts = registry(&[1, 2]);
    handle_transaction(&mut accounts, 1, TransactionType::Deposit(40)).unwrap();
    handle_transaction(&mut accounts, 2, TransactionType::Deposit(u64::MAX)).unwrap();
    let before1 = ledger_of(&accounts, 1);
    let before2 = ledger_of(&accounts, 2);

    assert_eq!(
        handle_transaction(&mut accounts, 1, TransactionType::Transfer { target_id: 2, amount: 41 }),
        Err(TxError::InsufficientFunds)
    );
    assert_eq!(
        handle_transaction(&mut accounts, 1, TransactionType::Transfer { target_id: 3, amount: 10 }),
        Err(TxError::TargetNotFound)
    );
    assert_eq!(
        handle_transaction(&mut accounts, 3, TransactionType::Transfer { target_id: 1, amount: 10 }),
        Err(TxError::UserNotFound)
    );
    assert_eq!(
        handle_transaction(&mut accounts, 1, TransactionType::Transfer { target_id: 2, amount: 10 }),
        Err(TxError::Overflow)
    );
    assert_eq!(
        handle_transaction(&mut accounts, 1, TransactionType::Transfer { target_id: 2, amount: 0 }),
        Err(TxError::InvalidAmount)
    );

    assert_eq!(accounts.len(), 2);
    assert_eq!(accounts.get(&1).unwrap().id(), 1);
    assert_eq!(accounts.get(&2).unwrap().id(), 2);
    assert_eq!(balance_of(&accounts, 1), 40);
    assert_eq!(balance_of(&accounts, 2), u64::MAX);
    assert_eq!(ledger_of(&accounts, 1), before1);
    assert_eq!(ledger_of(&accounts, 2), before2);
}

#[test]
fn missing_account_is_reported() {
    let mut accounts = registry(&[1]);
    assert_eq!(
        handle_transaction(&mut accounts, 2, TransactionType::Deposit(5)),
        Err(TxError::UserNotFound)
    );
    assert_eq!(
        handle_transaction(&mut accounts, 2, TransactionType::Withdraw(5)),
        Err(TxError::UserNotFound)
    );
    assert_eq!(accounts.len(), 1);
    assert_eq!(balance_of(&accounts, 1), 0);
}

#[test]
fn deposit_transfer_withdraw_scenario() {
    let mut accounts = registry(&[1, 2]);

    handle_transaction(&mut accounts, 1, TransactionType::Deposit(100)).unwrap();
    assert_eq!(balance_of(&accounts, 1), 100);

    handle_transaction(&mut accounts, 1, TransactionType::Transfer { target_id: 2, amount: 50 })
        .unwrap();
    assert_eq!(balance_of(&accounts, 1), 50);
    assert_eq!(balance_of(&accounts, 2), 50);

    handle_transaction(&mut accounts, 2, TransactionType::Withdraw(30)).unwrap();
    assert_eq!(balance_of(&accounts, 2), 20);

    assert_eq!(
        ledger_of(&accounts, 1),
        vec![
            Transaction::Deposit { to: 1, amount: Amount(100) },
            Transaction::Transfer { from: 1, to: 2, amount: Amount(50) },
        ]
    );
    assert_eq!(
        ledger_of(&accounts, 2),
        vec![
            Transaction::Transfer { from: 1, to: 2, amount: Amount(50) },
            Transaction::Withdraw { from: 2, amount: Amount(30) },
        ]
    );
}

#[test]
fn deposit_at_max_balance_overflows() {
    let mut accounts = registry(&[1]);
    handle_transaction(&mut accounts, 1, TransactionType::Deposit(u64::MAX)).unwrap();
    for raw in [1u64, 2, u64::MAX] {
        assert_eq!(
            handle_transaction(&mut accounts, 1, TransactionType::Deposit(raw)),
            Err(TxError::Overflow)
        );
        assert_eq!(balance_of(&accounts, 1), u64::MAX);
        assert_eq!(ledger_of(&accounts, 1).len(), 1);
    }

    let mut acc = UserAccount::new(4);
    acc.deposit(Amount(u64::MAX)).unwrap();
    assert_eq!(acc.deposit(Amount(1)), Err(TxError::Overflow));
    assert_eq!(acc.balance().value(), u64::MAX);
}

#[test]
fn transfer_at_target_limit_succeeds() {
    let mut accounts = registry(&[1, 2]);
    handle_transaction(&mut accounts, 1, TransactionType::Deposit(10)).unwrap();
    handle_transaction(&mut accounts, 2, TransactionType::Deposit(u64::MAX - 10)).unwrap();
    assert_eq!(
        handle_transaction(&mut accounts, 1, TransactionType::Transfer { target_id: 2, amount: 10 }),
        Ok(())
    );
    assert_eq!(balance_of(&accounts, 1), 0);
    assert_eq!(balance_of(&accounts, 2), u64::MAX);
}
