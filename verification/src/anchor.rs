//! The lending-market leg: deposits of the stable asset for the
//! yield-bearing receipt asset, and redemptions back. Each function builds
//! the outbound call and names the completion that will resume the machine.

use vstd::prelude::*;

use crate::SubmsgIds;
use crate::msg::{Action, Response, SubMsg};
use crate::state::Config;

verus! {

/// Deposit `amount` of stable into the lending market; the completion
/// reports the receipt amount received.
pub fn deposit_stable(config: &Config, amount: u64) -> (r: Response)
    ensures
        r == (Response {
            submsg: Some(
                SubMsg {
                    action: Action::DepositStable {
                        market: config.anchor_market_contract,
                        stable_denom: config.stable_denom,
                        amount,
                    },
                    reply_id: SubmsgIds::DepositStable.spec_id(),
                },
            ),
            message: None,
        }),
{
    Response {
        submsg: Some(
            SubMsg {
                action: Action::DepositStable {
                    market: config.anchor_market_contract,
                    stable_denom: config.stable_denom,
                    amount,
                },
                reply_id: SubmsgIds::DepositStable.id(),
            },
        ),
        message: None,
    }
}

/// Redeem `amount` of the receipt asset back into stable; the completion
/// reports the stable amount received.
pub fn redeem_stable(config: &Config, amount: u64) -> (r: Response)
    ensures
        r == (Response {
            submsg: Some(
                SubMsg {
                    action: Action::RedeemStable {
                        aterra_addr: config.aterra_addr,
                        market: config.anchor_market_contract,
                        amount,
                    },
                    reply_id: SubmsgIds::RedeemStable.spec_id(),
                },
            ),
            message: None,
        }),
{
    Response {
        submsg: Some(
            SubMsg {
                action: Action::RedeemStable {
                    aterra_addr: config.aterra_addr,
                    market: config.anchor_market_contract,
                    amount,
                },
                reply_id: SubmsgIds::RedeemStable.id(),
            },
        ),
        message: None,
    }
}

} // verus!
