//! The exchange leg: selling freshly minted synthetic asset for stable
//! during lever-up, and repurchasing it during unwind. Each builder names
//! the completion that will resume the machine; the terminal sell of a
//! ladder resumes finalization instead of another iteration.

use vstd::prelude::*;

use crate::SubmsgIds;
use crate::msg::{Action, Response, SubMsg};
use crate::state::{Config, DepositState, WithdrawState};

verus! {

/// Sell the minted synthetic amount for stable, proceeds to the contract.
/// The terminal sell of a ladder is tagged so that its completion finalizes
/// instead of looping into another iteration.
pub fn sell_masset(contract_addr: u64, state: &DepositState, minted_amount: u64, terminal: bool)
    -> (r: Response)
    ensures
        r == (Response {
            submsg: Some(
                SubMsg {
                    action: Action::Sell {
                        masset_token: state.masset_token,
                        pair_addr: state.pair_addr,
                        amount: minted_amount,
                        recipient: contract_addr,
                    },
                    reply_id: if terminal {
                        SubmsgIds::Exit.spec_id()
                    } else {
                        SubmsgIds::SellMAsset.spec_id()
                    },
                },
            ),
            message: None,
        }),
{
    let reply_id = if terminal {
        SubmsgIds::Exit.id()
    } else {
        SubmsgIds::SellMAsset.id()
    };
    Response {
        submsg: Some(
            SubMsg {
                action: Action::Sell {
                    masset_token: state.masset_token,
                    pair_addr: state.pair_addr,
                    amount: minted_amount,
                    recipient: contract_addr,
                },
                reply_id,
            },
        ),
        message: None,
    }
}

/// Spend stable repurchasing the synthetic asset, proceeds to the contract;
/// the completion reports the synthetic amount received.
pub fn buy_masset(config: &Config, state: &WithdrawState, contract_addr: u64, offer_amount: u64)
    -> (r: Response)
    ensures
        r == (Response {
            submsg: Some(
                SubMsg {
                    action: Action::Buy {
                        pair_addr: state.pair_addr,
                        stable_denom: config.stable_denom,
                        amount: offer_amount,
                        recipient: contract_addr,
                    },
                    reply_id: SubmsgIds::BuyMAsset.spec_id(),
                },
            ),
            message: None,
        }),
{
    Response {
        submsg: Some(
            SubMsg {
                action: Action::Buy {
                    pair_addr: state.pair_addr,
                    stable_denom: config.stable_denom,
                    amount: offer_amount,
                    recipient: contract_addr,
                },
                reply_id: SubmsgIds::BuyMAsset.id(),
            },
        ),
        message: None,
    }
}

} // verus!
