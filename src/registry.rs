use vstd::prelude::*;

use std::collections::HashMap;

use crate::account::{
    deposit_outcome, transfer_outcome, withdraw_outcome, AccountView, Transaction, UserAccount,
};
use crate::amount::{Amount, TxError};

verus! {

broadcast use vstd::std_specs::hash::group_hash_axioms;

/// A request against the registry, made on behalf of one account, with a
/// raw amount that still has to be validated.
#[derive(Debug, Clone, Copy, PartialEq, Eq, Structural)]
pub enum TransactionType {
    Deposit(u64),
    Withdraw(u64),
    Transfer { target_id: u64, amount: u64 },
}

/// The registry's accounts seen through their abstract state.
pub open spec fn accounts_view(m: Map<u64, UserAccount>) -> Map<u64, AccountView> {
    m.map_values(|a: UserAccount| a@)
}

/// Every account of the registry is stored under its own identifier.
pub open spec fn well_formed(reg: Map<u64, AccountView>) -> bool {
    forall|k: u64| #[trigger] reg.contains_key(k) ==> reg[k].id == k
}

/// The registry after one request from `user_id`, or the reason it is
/// refused. A self-transfer is refused before anything else, then a zero
/// amount, then a missing initiating account, then a missing target.
pub open spec fn transaction_outcome(
    reg: Map<u64, AccountView>,
    user_id: u64,
    tx: TransactionType,
) -> Result<Map<u64, AccountView>, TxError> {
    match tx {
        TransactionType::Deposit(raw) => {
            if raw == 0 {
                Err(TxError::InvalidAmount)
            } else if !reg.contains_key(user_id) {
                Err(TxError::UserNotFound)
            } else {
                match deposit_outcome(reg[user_id], Amount(raw)) {
                    Ok(v) => Ok(reg.insert(user_id, v)),
                    Err(e) => Err(e),
                }
            }
        },
        TransactionType::Withdraw(raw) => {
            if raw == 0 {
                Err(TxError::InvalidAmount)
            } else if !reg.contains_key(user_id) {
                Err(TxError::UserNotFound)
            } else {
                match withdraw_outcome(reg[user_id], Amount(raw)) {
                    Ok(v) => Ok(reg.insert(user_id, v)),
                    Err(e) => Err(e),
                }
            }
        },
        TransactionType::Transfer { target_id, amount: raw } => {
            if user_id == target_id {
                Err(TxError::CannotTransferToSelf)
            } else if raw == 0 {
                Err(TxError::InvalidAmount)
            } else if !reg.contains_key(user_id) {
                Err(TxError::UserNotFound)
            } else if !reg.contains_key(target_id) {
                Err(TxError::TargetNotFound)
            } else {
                match transfer_outcome(reg[user_id], reg[target_id], Amount(raw)) {
                    Ok((s, t)) => Ok(reg.insert(user_id, s).insert(target_id, t)),
                    Err(e) => Err(e),
                }
            }
        },
    }
}

/// Validates and applies one request from account `user_id`. On success the
/// registry holds what `transaction_outcome` gives; on failure it is left
/// exactly as it was, every account present under its own identifier.
pub fn handle_transaction(
    accounts: &mut HashMap<u64, UserAccount>,
    user_id: u64,
    tx: TransactionType,
) -> (r: Result<(), TxError>)
    ensures
        match transaction_outcome(accounts_view(old(accounts)@), user_id, tx) {
            Ok(m) => r is Ok && accounts_view(final(accounts)@) == m,
            Err(e) => r == Err::<(), TxError>(e) && final(accounts)@ == old(accounts)@,
        },
{
    let ghost before = accounts@;
    match tx {
        TransactionType::Deposit(raw) => {
            let amount = match Amount::try_from(raw) {
                Ok(a) => a,
                Err(e) => return Err(e),
            };
            let mut user = match accounts.remove(&user_id) {
                Some(u) => u,
                None => return Err(TxError::UserNotFound),
            };
            let result = user.deposit(amount);
            accounts.insert(user_id, user);
            proof {
                assert(accounts@ =~= before.insert(user_id, user));
                assert(accounts_view(accounts@) =~= accounts_view(before).insert(user_id, user@));
                if result is Err {
                    assert(accounts@ =~= before);
                }
            }
            result
        },
        TransactionType::Withdraw(raw) => {
            let amount = match Amount::try_from(raw) {
                Ok(a) => a,
                Err(e) => return Err(e),
            };
            let mut user = match accounts.remove(&user_id) {
                Some(u) => u,
                None => return Err(TxError::UserNotFound),
            };
            let result = user.withdraw(amount);
            accounts.insert(user_id, user);
            proof {
                assert(accounts@ =~= before.insert(user_id, user));
                assert(accounts_view(accounts@) =~= accounts_view(before).insert(user_id, user@));
                if result is Err {
                    assert(accounts@ =~= before);
                }
            }
            result
        },
        TransactionType::Transfer { target_id, amount: raw } => {
            if user_id == target_id {
                return Err(TxError::CannotTransferToSelf);
            }
            let amount = match Amount::try_from(raw) {
                Ok(a) => a,
                Err(e) => return Err(e),
            };
            let mut from = match accounts.remove(&user_id) {
                Some(u) => u,
                None => return Err(TxError::UserNotFound),
            };
            let mut to = match accounts.remove(&target_id) {
                Some(u) => u,
                None => {
                    accounts.insert(user_id, from);
                    proof {
                        assert(accounts@ =~= before);
                    }
                    return Err(TxError::TargetNotFound);
                },
            };
            let result = from.transfer(&mut to, amount);
            accounts.insert(user_id, from);
            accounts.insert(target_id, to);
            proof {
                assert(accounts@ =~= before.insert(user_id, from).insert(target_id, to));
                assert(accounts_view(accounts@) =~= accounts_view(before).insert(
                    user_id,
                    from@,
                ).insert(target_id, to@));
                if result is Err {
                    assert(accounts@ =~= before);
                }
            }
            result
        },
    }
}

/// A request with a zero amount is refused, whoever makes it.
pub proof fn lemma_zero_request_refused(reg: Map<u64, AccountView>, user_id: u64, target_id: u64)
    requires
        user_id != target_id,
    ensures
        transaction_outcome(reg, user_id, TransactionType::Deposit(0)) == Err::<
            Map<u64, AccountView>,
            TxError,
        >(TxError::InvalidAmount),
        transaction_outcome(reg, user_id, TransactionType::Withdraw(0)) == Err::<
            Map<u64, AccountView>,
            TxError,
        >(TxError::InvalidAmount),
        transaction_outcome(reg, user_id, TransactionType::Transfer { target_id, amount: 0 })
            == Err::<Map<u64, AccountView>, TxError>(TxError::InvalidAmount),
{
}

/// A transfer to oneself is refused before anything else is looked at.
pub proof fn lemma_self_transfer_request_refused(
    reg: Map<u64, AccountView>,
    user_id: u64,
    raw: u64,
)
    ensures
        transaction_outcome(reg, user_id, TransactionType::Transfer { target_id: user_id, amount: raw })
            == Err::<Map<u64, AccountView>, TxError>(TxError::CannotTransferToSelf),
{
}

/// A request that succeeds keeps every account of the registry under its
/// identifier and adds none.
pub proof fn lemma_outcome_keeps_accounts(
    reg: Map<u64, AccountView>,
    user_id: u64,
    tx: TransactionType,
)
    requires
        transaction_outcome(reg, user_id, tx) is Ok,
    ensures
        transaction_outcome(reg, user_id, tx)->Ok_0.dom() == reg.dom(),
{
    match tx {
        TransactionType::Transfer { target_id, amount: _ } => {
            assert(transaction_outcome(reg, user_id, tx)->Ok_0.dom() =~= reg.dom());
        },
        _ => {
            assert(transaction_outcome(reg, user_id, tx)->Ok_0.dom() =~= reg.dom());
        },
    }
}

/// A request that succeeds on a well-formed registry leaves it well formed.
pub proof fn lemma_outcome_keeps_well_formed(
    reg: Map<u64, AccountView>,
    user_id: u64,
    tx: TransactionType,
)
    requires
        well_formed(reg),
        transaction_outcome(reg, user_id, tx) is Ok,
    ensures
        well_formed(transaction_outcome(reg, user_id, tx)->Ok_0),
{
}

/// On a well-formed registry, a transfer between two registered accounts
/// whose source covers the amount and whose target can hold it moves the
/// amount, and both histories gain the same record.
pub proof fn lemma_transfer_request_moves_amount(
    reg: Map<u64, AccountView>,
    user_id: u64,
    target_id: u64,
    raw: u64,
)
    requires
        well_formed(reg),
        user_id != target_id,
        reg.contains_key(user_id),
        reg.contains_key(target_id),
        0 < raw <= reg[user_id].balance,
        reg[target_id].balance + raw <= u64::MAX,
    ensures
        ({
            let out = transaction_outcome(
                reg,
                user_id,
                TransactionType::Transfer { target_id, amount: raw },
            );
            let tx = Transaction::Transfer { from: user_id, to: target_id, amount: Amount(raw) };
            &&& out is Ok
            &&& out->Ok_0[user_id].balance == reg[user_id].balance - raw
            &&& out->Ok_0[target_id].balance == reg[target_id].balance + raw
            &&& out->Ok_0[user_id].ledger == reg[user_id].ledger.push(tx)
            &&& out->Ok_0[target_id].ledger == reg[target_id].ledger.push(tx)
        }),
{
}

} // verus!
