use vstd::prelude::*;

verus! {

/// An amount of one native denomination.
#[derive(Debug)]
pub struct Coin {
    pub denom: String,
    pub amount: u128,
}

impl Coin {
    pub fn new(amount: u128, denom: &str) -> (r: Coin)
        ensures
            r.amount == amount,
            r.denom@ == denom@,
    {
        Coin { denom: denom.to_owned(), amount }
    }

    /// A copy of this coin.
    pub fn copy(&self) -> (r: Coin)
        ensures
            r.amount == self.amount,
            r.denom@ == self.denom@,
    {
        Coin { denom: self.denom.clone(), amount: self.amount }
    }
}

/// A transfer of `amount` of `denom` to `recipient`.
#[derive(Debug)]
pub struct Payment {
    pub recipient: String,
    pub denom: String,
    pub amount: u128,
}

/// Why the attached payment does not match what is owed.
#[derive(Debug, PartialEq, Eq)]
pub enum FundsError {
    /// No coin, or more than one, was attached.
    MissingFunds,
    /// The single coin attached is of another denomination.
    InvalidDenom { got: String, expected: String },
    /// The single coin attached is of the right denomination but not the right amount.
    InvalidFunds { got: u128, expected: u128 },
}

/// Whether `funds` pays exactly `amount` of `denom`: one coin, of that
/// denomination and that amount.
pub open spec fn funds_ok(funds: Seq<Coin>, denom: Seq<char>, amount: u128) -> bool {
    funds.len() == 1 && funds[0].denom@ == denom && funds[0].amount == amount
}

/// The error that a payment `funds` owing `amount` of `denom` fails with.
pub open spec fn funds_fault(e: FundsError, funds: Seq<Coin>, denom: Seq<char>, amount: u128) -> bool {
    if funds.len() != 1 {
        e == FundsError::MissingFunds
    } else if funds[0].denom@ != denom {
        e matches FundsError::InvalidDenom { got, expected } && got@ == funds[0].denom@ && expected@
            == denom
    } else {
        e == FundsError::InvalidFunds { got: funds[0].amount, expected: amount }
    }
}

/// Checks that exactly one coin of `amount` in `denom` is attached.
pub fn check_funds(funds: &Vec<Coin>, denom: &String, amount: u128) -> (r: Result<(), FundsError>)
    ensures
        r is Ok <==> funds_ok(funds@, denom@, amount),
        r matches Err(e) ==> funds_fault(e, funds@, denom@, amount),
{
    if funds.len() != 1 {
        return Err(FundsError::MissingFunds);
    }
    let sent = &funds[0];
    if sent.denom != *denom {
        return Err(FundsError::InvalidDenom { got: sent.denom.clone(), expected: denom.clone() });
    }
    if sent.amount != amount {
        return Err(FundsError::InvalidFunds { got: sent.amount, expected: amount });
    }
    Ok(())
}

} // verus!
