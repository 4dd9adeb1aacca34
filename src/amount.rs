use vstd::prelude::*;

verus! {

/// Why a ledger operation was refused.
#[derive(Debug, Clone, Copy, PartialEq, Eq, Structural)]
pub enum TxError {
    Overflow,
    InsufficientFunds,
    InvalidAmount,
    CannotTransferToSelf,
    UserNotFound,
    TargetNotFound,
}

/// A non-negative monetary quantity. An amount built from a raw value with
/// `try_from` is never zero; a zero amount stands for an empty balance, and
/// the account operations refuse it as the amount of a transaction.
#[derive(Debug, Clone, Copy, PartialEq, Eq, Structural)]
pub struct Amount(pub u64);

impl View for Amount {
    type V = nat;

    open spec fn view(&self) -> nat {
        self.0 as nat
    }
}

/// What `checked_add` gives on two amounts.
pub open spec fn add_result(a: nat, b: nat) -> Result<nat, TxError> {
    if a + b > u64::MAX {
        Err(TxError::Overflow)
    } else {
        Ok(a + b)
    }
}

/// What `checked_sub` gives on two amounts.
pub open spec fn sub_result(a: nat, b: nat) -> Result<nat, TxError> {
    if b > a {
        Err(TxError::InsufficientFunds)
    } else {
        Ok((a - b) as nat)
    }
}

/// Lifts a result over raw quantities to one over amounts.
pub open spec fn same_outcome(r: Result<Amount, TxError>, s: Result<nat, TxError>) -> bool {
    match (r, s) {
        (Ok(x), Ok(n)) => x@ == n,
        (Err(e), Err(f)) => e == f,
        _ => false,
    }
}

impl Amount {
    /// The numeric value of the amount.
    pub fn value(&self) -> (r: u64)
        ensures
            r == self@,
    {
        self.0
    }

    /// The zero amount, used as an account's opening balance.
    pub fn zero() -> (r: Amount)
        ensures
            r@ == 0,
    {
        Amount(0)
    }

    /// The sum of two amounts, or `Overflow` when it does not fit in a `u64`.
    pub fn checked_add(self, other: Amount) -> (r: Result<Amount, TxError>)
        ensures
            same_outcome(r, add_result(self@, other@)),
    {
        match self.0.checked_add(other.0) {
            Some(v) => Ok(Amount(v)),
            None => Err(TxError::Overflow),
        }
    }

    /// The difference of two amounts, or `InsufficientFunds` when `other`
    /// exceeds `self`.
    pub fn checked_sub(self, other: Amount) -> (r: Result<Amount, TxError>)
        ensures
            same_outcome(r, sub_result(self@, other@)),
    {
        if self.0 < other.0 {
            return Err(TxError::InsufficientFunds);
        }
        Ok(Amount(self.0 - other.0))
    }
}

/// What building an amount from a raw value gives.
pub open spec fn amount_of(raw: u64) -> Result<Amount, TxError> {
    if raw == 0 {
        Err(TxError::InvalidAmount)
    } else {
        Ok(Amount(raw))
    }
}

impl TryFrom<u64> for Amount {
    type Error = TxError;

    /// Builds a transaction amount; zero is refused with `InvalidAmount`.
    fn try_from(value: u64) -> (r: Result<Amount, TxError>)
        ensures
            r == amount_of(value),
    {
        if value == 0 {
            Err(TxError::InvalidAmount)
        } else {
            Ok(Amount(value))
        }
    }
}

impl vstd::std_specs::convert::TryFromSpecImpl<u64> for Amount {
    open spec fn obeys_try_from_spec() -> bool {
        true
    }

    open spec fn try_from_spec(value: u64) -> Result<Amount, TxError> {
        amount_of(value)
    }
}

} // verus!
