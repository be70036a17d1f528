//! Value movements that operations ask the host ledger to carry out.
use vstd::prelude::*;
use crate::errors::ErrorCode;

verus! {

/// A holder of value, as seen from one operation.
#[derive(Debug, Clone, Copy, PartialEq, Eq, Structural)]
pub enum Party {
    /// The account paying for the transaction.
    Payer,
    /// The treasury, or its token account for token transfers.
    Treasury,
    /// The beneficiary of the stream, or its token account.
    Beneficiary,
    /// The account adding funds to a treasury.
    Contributor,
    /// The protocol's fee account, or its token account.
    FeeTreasury,
    /// The destination of funds leaving a treasury.
    Destination,
}

/// What is moved: the treasury's funding token, or lamports for flat fees.
#[derive(Debug, Clone, Copy, PartialEq, Eq, Structural)]
pub enum Currency {
    Token,
    Lamports,
}

/// One movement of `amount` from `from` to `to`.
#[derive(Debug, Clone, Copy, PartialEq, Eq, Structural)]
pub struct Transfer {
    pub currency: Currency,
    pub from: Party,
    pub to: Party,
    pub amount: u64,
}

pub open spec fn token_transfer(from: Party, to: Party, amount: u64) -> Transfer {
    Transfer { currency: Currency::Token, from, to, amount }
}

/// A flat fee in lamports, paid by the treasury or by the payer.
pub open spec fn flat_fee(paid_by_treasury: bool, amount: u64) -> Transfer {
    Transfer {
        currency: Currency::Lamports,
        from: if paid_by_treasury {
            Party::Treasury
        } else {
            Party::Payer
        },
        to: Party::FeeTreasury,
        amount,
    }
}

impl Transfer {
    pub fn token(from: Party, to: Party, amount: u64) -> (r: Transfer)
        ensures
            r == token_transfer(from, to, amount),
    {
        Transfer { currency: Currency::Token, from, to, amount }
    }

    pub fn fee(paid_by_treasury: bool, amount: u64) -> (r: Transfer)
        ensures
            r == flat_fee(paid_by_treasury, amount),
    {
        let from = if paid_by_treasury {
            Party::Treasury
        } else {
            Party::Payer
        };
        Transfer { currency: Currency::Lamports, from, to: Party::FeeTreasury, amount }
    }
}

/// Lamports of a treasury above its rent-exempt minimum.
pub open spec fn available_lamports(lamports: u64, rent_exempt_minimum: u64) -> int {
    if lamports > rent_exempt_minimum {
        lamports - rent_exempt_minimum
    } else {
        0
    }
}

/// Moves `amount` lamports out of a treasury holding `treasury_lamports`, never
/// below its rent-exempt minimum, to an account holding `to_lamports`. Returns
/// the two new balances.
pub fn treasury_transfer_sol_amount(
    treasury_lamports: u64,
    rent_exempt_minimum: u64,
    to_lamports: u64,
    amount: u64,
) -> (r: Result<(u64, u64), ErrorCode>)
    ensures
        amount > available_lamports(treasury_lamports, rent_exempt_minimum) ==> r == Err::<
            (u64, u64),
            ErrorCode,
        >(ErrorCode::InsufficientLamports),
        amount <= available_lamports(treasury_lamports, rent_exempt_minimum) && to_lamports
            + amount > u64::MAX ==> r == Err::<(u64, u64), ErrorCode>(ErrorCode::InvalidArgument),
        amount <= available_lamports(treasury_lamports, rent_exempt_minimum) && to_lamports
            + amount <= u64::MAX ==> r == Ok::<(u64, u64), ErrorCode>(
            ((treasury_lamports - amount) as u64, (to_lamports + amount) as u64),
        ),
{
    let available = if treasury_lamports > rent_exempt_minimum {
        treasury_lamports - rent_exempt_minimum
    } else {
        0
    };
    if amount > available {
        return Err(ErrorCode::InsufficientLamports);
    }
    if to_lamports > u64::MAX - amount {
        return Err(ErrorCode::InvalidArgument);
    }
    Ok((treasury_lamports - amount, to_lamports + amount))
}

} // verus!
