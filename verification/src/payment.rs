use vstd::prelude::*;

use crate::error::PaymentError;
use crate::msg::{coins_view, CoinView, MessageInfo};

verus! {

/// The amount paid by funds that must be exactly one non-zero coin of `denom`.
pub open spec fn paid_amount(funds: Seq<CoinView>, denom: Seq<char>) -> Result<
    u128,
    PaymentError,
> {
    if funds.len() == 0 {
        Err(PaymentError::NoFunds)
    } else if funds.len() > 1 {
        Err(PaymentError::MultipleDenoms)
    } else if funds[0].amount == 0 {
        Err(PaymentError::NoFunds)
    } else if funds[0].denom != denom {
        Err(PaymentError::MissingDenom)
    } else {
        Ok(funds[0].amount)
    }
}

/// Checks the funds of a message with `cw_utils::must_pay`.
///
/// Trusted: `must_pay` looks at the funds alone. With no coin, or one coin of
/// amount zero, it answers `NoFunds`; with more than one coin,
/// `MultipleDenoms`; with one coin of another denomination, `MissingDenom`;
/// otherwise the coin's amount.
#[verifier::external_body]
fn must_pay(info: &MessageInfo, denom: &str) -> (r: Result<u128, PaymentError>)
    ensures
        r == paid_amount(coins_view(info.funds@), denom@),
{
    let funds = info.funds.iter().map(|c| cosmwasm_std::Coin::new(c.amount, c.denom.clone()));
    let sender = cosmwasm_std::Addr::unchecked(info.sender.clone());
    match cw_utils::must_pay(&cosmwasm_std::MessageInfo { sender, funds: funds.collect() }, denom) {
        Ok(amount) => Ok(amount.u128()),
        Err(cw_utils::PaymentError::MissingDenom(_)) => Err(PaymentError::MissingDenom),
        Err(cw_utils::PaymentError::ExtraDenom(_)) => Err(PaymentError::ExtraDenom),
        Err(cw_utils::PaymentError::MultipleDenoms {}) => Err(PaymentError::MultipleDenoms),
        Err(cw_utils::PaymentError::NoFunds {}) => Err(PaymentError::NoFunds),
        Err(cw_utils::PaymentError::NonPayable {}) => Err(PaymentError::NonPayable),
    }
}

/// The stake that comes with a request. Funds that pay nothing, that is no
/// coin or a single coin of amount zero, are a stake of zero; otherwise the
/// funds must be exactly one coin of `denom`, and its amount is the stake.
pub open spec fn stake_sent(funds: Seq<CoinView>, denom: Seq<char>) -> Result<u128, PaymentError> {
    match paid_amount(funds, denom) {
        Err(PaymentError::NoFunds) => Ok(0),
        paid => paid,
    }
}

/// The stake that comes with the message of `info`, for a calendar whose
/// stakes are held in `denom`.
pub fn sent_stake(info: &MessageInfo, denom: &str) -> (r: Result<u128, PaymentError>)
    ensures
        r == stake_sent(coins_view(info.funds@), denom@),
{
    match must_pay(info, denom) {
        Err(PaymentError::NoFunds) => Ok(0),
        paid => paid,
    }
}

} // verus!
