use vstd::prelude::*;

use crate::amount::{Amount, TxError};

verus! {

/// One completed ledger event, as recorded in an account's history.
#[derive(Debug, Clone, Copy, PartialEq, Eq, Structural)]
pub enum Transaction {
    Deposit { to: u64, amount: Amount },
    Withdraw { from: u64, amount: Amount },
    Transfer { from: u64, to: u64, amount: Amount },
}

/// The abstract state of an account: its identifier, its balance and its
/// history, oldest record first.
pub struct AccountView {
    pub id: u64,
    pub balance: nat,
    pub ledger: Seq<Transaction>,
}

/// One participant of the ledger. Its history only ever grows at the end.
#[derive(Debug)]
pub struct UserAccount {
    id: u64,
    balance: Amount,
    ledger: Vec<Transaction>,
}

impl View for UserAccount {
    type V = AccountView;

    closed spec fn view(&self) -> AccountView {
        AccountView { id: self.id, balance: self.balance@, ledger: self.ledger@ }
    }
}

/// The account after a deposit of `amount`, or the reason it is refused.
pub open spec fn deposit_outcome(acc: AccountView, amount: Amount) -> Result<AccountView, TxError> {
    if amount@ == 0 {
        Err(TxError::InvalidAmount)
    } else if acc.balance + amount@ > u64::MAX {
        Err(TxError::Overflow)
    } else {
        Ok(
            AccountView {
                balance: acc.balance + amount@,
                ledger: acc.ledger.push(Transaction::Deposit { to: acc.id, amount }),
                ..acc
            },
        )
    }
}

/// The account after a withdrawal of `amount`, or the reason it is refused.
pub open spec fn withdraw_outcome(acc: AccountView, amount: Amount) -> Result<
    AccountView,
    TxError,
> {
    if amount@ == 0 {
        Err(TxError::InvalidAmount)
    } else if amount@ > acc.balance {
        Err(TxError::InsufficientFunds)
    } else {
        Ok(
            AccountView {
                balance: (acc.balance - amount@) as nat,
                ledger: acc.ledger.push(Transaction::Withdraw { from: acc.id, amount }),
                ..acc
            },
        )
    }
}

/// Source and target after a transfer of `amount`, or the reason it is
/// refused. Both histories gain the same record.
pub open spec fn transfer_outcome(src: AccountView, dst: AccountView, amount: Amount) -> Result<
    (AccountView, AccountView),
    TxError,
> {
    let tx = Transaction::Transfer { from: src.id, to: dst.id, amount };
    if src.id == dst.id {
        Err(TxError::CannotTransferToSelf)
    } else if amount@ == 0 {
        Err(TxError::InvalidAmount)
    } else if amount@ > src.balance {
        Err(TxError::InsufficientFunds)
    } else if dst.balance + amount@ > u64::MAX {
        Err(TxError::Overflow)
    } else {
        Ok(
            (
                AccountView {
                    balance: (src.balance - amount@) as nat,
                    ledger: src.ledger.push(tx),
                    ..src
                },
                AccountView { balance: dst.balance + amount@, ledger: dst.ledger.push(tx), ..dst },
            ),
        )
    }
}

/// `r` and the account's new state agree with `outcome`; a refused
/// operation leaves the account exactly as it was.
pub open spec fn settles(
    r: Result<(), TxError>,
    before: UserAccount,
    after: UserAccount,
    outcome: Result<AccountView, TxError>,
) -> bool {
    match outcome {
        Ok(v) => r is Ok && after@ == v,
        Err(e) => r == Err::<(), TxError>(e) && after == before,
    }
}

impl UserAccount {
    /// A fresh account with a zero balance and an empty history.
    pub fn new(id: u64) -> (r: UserAccount)
        ensures
            r@ == (AccountView { id, balance: 0, ledger: Seq::empty() }),
    {
        UserAccount { id, balance: Amount::zero(), ledger: Vec::new() }
    }

    pub fn id(&self) -> (r: u64)
        ensures
            r == self@.id,
    {
        self.id
    }

    pub fn balance(&self) -> (r: Amount)
        ensures
            r@ == self@.balance,
    {
        self.balance
    }

    /// The account's history, oldest record first.
    pub fn ledger(&self) -> (r: &Vec<Transaction>)
        ensures
            r@ == self@.ledger,
    {
        &self.ledger
    }

    /// Credits `amount` and records the deposit.
    pub fn deposit(&mut self, amount: Amount) -> (r: Result<(), TxError>)
        ensures
            settles(r, *old(self), *final(self), deposit_outcome(old(self)@, amount)),
    {
        if amount.0 == 0 {
            return Err(TxError::InvalidAmount);
        }
        match self.balance.checked_add(amount) {
            Ok(b) => {
                self.balance = b;
                self.ledger.push(Transaction::Deposit { to: self.id, amount });
                Ok(())
            },
            Err(e) => Err(e),
        }
    }

    /// Debits `amount` and records the withdrawal.
    pub fn withdraw(&mut self, amount: Amount) -> (r: Result<(), TxError>)
        ensures
            settles(r, *old(self), *final(self), withdraw_outcome(old(self)@, amount)),
    {
        if amount.0 == 0 {
            return Err(TxError::InvalidAmount);
        }
        match self.balance.checked_sub(amount) {
            Ok(b) => {
                self.balance = b;
                self.ledger.push(Transaction::Withdraw { from: self.id, amount });
                Ok(())
            },
            Err(e) => Err(e),
        }
    }

    /// Moves `amount` from this account to `target`. Both new balances are
    /// computed before either account is changed, so a refused transfer
    /// changes neither; a completed one appends the same record to both
    /// histories.
    pub fn transfer(&mut self, target: &mut UserAccount, amount: Amount) -> (r: Result<(), TxError>)
        ensures
            match transfer_outcome(old(self)@, old(target)@, amount) {
                Ok((s, t)) => r is Ok && final(self)@ == s && final(target)@ == t,
                Err(e) => {
                    &&& r == Err::<(), TxError>(e)
                    &&& *final(self) == *old(self)
                    &&& *final(target) == *old(target)
                },
            },
    {
        if self.id == target.id {
            return Err(TxError::CannotTransferToSelf);
        }
        if amount.0 == 0 {
            return Err(TxError::InvalidAmount);
        }
        let new_from_balance = match self.balance.checked_sub(amount) {
            Ok(b) => b,
            Err(e) => return Err(e),
        };
        let new_to_balance = match target.balance.checked_add(amount) {
            Ok(b) => b,
            Err(e) => return Err(e),
        };
        self.balance = new_from_balance;
        target.balance = new_to_balance;
        let tx = Transaction::Transfer { from: self.id, to: target.id, amount };
        self.ledger.push(tx);
        target.ledger.push(tx);
        Ok(())
    }
}

/// A deposit of a non-zero amount into a fresh account, followed by a
/// withdrawal of the same amount, brings the balance back to zero and leaves
/// exactly two records in the history.
pub proof fn lemma_deposit_then_withdraw(id: u64, amount: Amount)
    requires
        amount@ > 0,
    ensures
        ({
            let fresh = AccountView { id, balance: 0, ledger: Seq::empty() };
            &&& deposit_outcome(fresh, amount) is Ok
            &&& withdraw_outcome(deposit_outcome(fresh, amount)->Ok_0, amount) is Ok
            &&& withdraw_outcome(deposit_outcome(fresh, amount)->Ok_0, amount)->Ok_0.balance == 0
            &&& withdraw_outcome(deposit_outcome(fresh, amount)->Ok_0, amount)->Ok_0.ledger.len()
                == 2
        }),
{
}

/// A zero amount is refused by deposit and withdrawal alike.
pub proof fn lemma_zero_amount_refused(acc: AccountView)
    ensures
        deposit_outcome(acc, Amount(0)) == Err::<AccountView, TxError>(TxError::InvalidAmount),
        withdraw_outcome(acc, Amount(0)) == Err::<AccountView, TxError>(TxError::InvalidAmount),
{
}

/// Withdrawing more than the balance is refused for insufficient funds.
pub proof fn lemma_overdraw_refused(acc: AccountView, amount: Amount)
    requires
        amount@ > acc.balance,
    ensures
        withdraw_outcome(acc, amount) == Err::<AccountView, TxError>(TxError::InsufficientFunds),
{
}

/// On a balance at the largest representable value, every positive deposit
/// overflows.
pub proof fn lemma_deposit_at_max_overflows(acc: AccountView, amount: Amount)
    requires
        acc.balance == u64::MAX,
        amount@ > 0,
    ensures
        deposit_outcome(acc, amount) == Err::<AccountView, TxError>(TxError::Overflow),
{
}

/// A transfer between two accounts with the same identifier is refused,
/// whatever the amount and the balances.
pub proof fn lemma_self_transfer_refused(src: AccountView, dst: AccountView, amount: Amount)
    requires
        src.id == dst.id,
    ensures
        transfer_outcome(src, dst, amount) == Err::<(AccountView, AccountView), TxError>(
            TxError::CannotTransferToSelf,
        ),
{
}

/// A transfer of a positive amount that the source covers and the target can
/// hold succeeds: the source loses the amount, the target gains it, and each
/// history gains the one same record at its end.
pub proof fn lemma_transfer_moves_amount(src: AccountView, dst: AccountView, amount: Amount)
    requires
        src.id != dst.id,
        0 < amount@ <= src.balance,
        dst.balance + amount@ <= u64::MAX,
    ensures
        ({
            let tx = Transaction::Transfer { from: src.id, to: dst.id, amount };
            &&& transfer_outcome(src, dst, amount) is Ok
            &&& transfer_outcome(src, dst, amount)->Ok_0.0 == (AccountView {
                balance: (src.balance - amount@) as nat,
                ledger: src.ledger.push(tx),
                ..src
            })
            &&& transfer_outcome(src, dst, amount)->Ok_0.1 == (AccountView {
                balance: dst.balance + amount@,
                ledger: dst.ledger.push(tx),
                ..dst
            })
        }),
{
}

} // verus!
