//! The CDP-market leg: data shapes of the facility's queries, and the
//! outbound calls that open a facility, post collateral, mint, burn and
//! withdraw. Each builder names the completion that will resume the machine.

use vstd::prelude::*;

use crate::SubmsgIds;
use crate::math::Decimal;
use crate::msg::{Action, Response, SubMsg};
use crate::state::{Config, DepositState};

verus! {

/// Parameters of an asset still in its pre-listing phase.
#[derive(Clone, Copy, Debug, PartialEq, Eq, Structural)]
pub struct IPOParams {
    pub mint_end: u64,
    pub pre_ipo_price: Decimal,
    pub min_collateral_ratio_after_ipo: Decimal,
}

/// What the CDP market reports about one synthetic asset.
#[derive(Clone, Copy, Debug, PartialEq)]
pub struct MirrorAssetConfigResponse {
    pub token: u64,
    pub auction_discount: Decimal,
    pub min_collateral_ratio: Decimal,
    pub end_price: Option<Decimal>,
    pub ipo_params: Option<IPOParams>,
}

/// The balances of one facility as the CDP market reports them.
#[derive(Clone, Copy, Debug, PartialEq, Eq, Structural)]
pub struct CDPState {
    pub collateral_amount: u64,
    pub loan_amount: u64,
}

/// The CDP market's configuration query.
#[derive(Clone, Copy, Debug, PartialEq, Eq, Structural)]
pub enum MirrorMintQueryMsg {
    Config {},
}

/// The collateral oracle's price query.
#[derive(Debug, PartialEq)]
pub enum MirrorCollateralOracleQueryMsg {
    CollateralPrice { asset: String, block_height: Option<u64> },
}

/// The asset oracle's price query.
#[derive(Debug, PartialEq)]
pub enum MirrorOracleQueryMsg {
    Price { base_asset: String, quote_asset: String },
}

/// Open a new facility backed by the received receipt amount; the completion
/// reports the facility index and the collateral posted.
pub fn open_cdp(config: &Config, state: &DepositState, received_aterra_amount: u64) -> (r: Response)
    ensures
        r == (Response {
            submsg: Some(
                SubMsg {
                    action: Action::OpenPosition {
                        aterra_addr: config.aterra_addr,
                        mirror_mint: config.mirror_mint_contract,
                        masset_token: state.masset_token,
                        collateral_amount: received_aterra_amount,
                        collateral_ratio: state.aim_collateral_ratio,
                    },
                    reply_id: SubmsgIds::OpenCDP.spec_id(),
                },
            ),
            message: None,
        }),
{
    Response {
        submsg: Some(
            SubMsg {
                action: Action::OpenPosition {
                    aterra_addr: config.aterra_addr,
                    mirror_mint: config.mirror_mint_contract,
                    masset_token: state.masset_token,
                    collateral_amount: received_aterra_amount,
                    collateral_ratio: state.aim_collateral_ratio,
                },
                reply_id: SubmsgIds::OpenCDP.id(),
            },
        ),
        message: None,
    }
}

/// Post the received receipt amount as collateral to an existing facility;
/// the completion reports the amount deposited.
pub fn deposit_to_cdp(config: &Config, cdp_idx: u64, received_aterra_amount: u64) -> (r: Response)
    ensures
        r == (Response {
            submsg: Some(
                SubMsg {
                    action: Action::DepositCollateral {
                        aterra_addr: config.aterra_addr,
                        mirror_mint: config.mirror_mint_contract,
                        cdp_idx,
                        amount: received_aterra_amount,
                    },
                    reply_id: SubmsgIds::DepositToCDP.spec_id(),
                },
            ),
            message: None,
        }),
{
    Response {
        submsg: Some(
            SubMsg {
                action: Action::DepositCollateral {
                    aterra_addr: config.aterra_addr,
                    mirror_mint: config.mirror_mint_contract,
                    cdp_idx,
                    amount: received_aterra_amount,
                },
                reply_id: SubmsgIds::DepositToCDP.id(),
            },
        ),
        message: None,
    }
}

/// Mint the computed amount of the synthetic asset against the facility; the
/// completion reports the amount minted.
pub fn mint_asset(config: &Config, cdp_idx: u64, masset_token: u64, amount_to_mint: u64) -> (r:
    Response)
    ensures
        r == (Response {
            submsg: Some(
                SubMsg {
                    action: Action::Mint {
                        mirror_mint: config.mirror_mint_contract,
                        cdp_idx,
                        masset_token,
                        amount: amount_to_mint,
                    },
                    reply_id: SubmsgIds::MintMAsset.spec_id(),
                },
            ),
            message: None,
        }),
{
    Response {
        submsg: Some(
            SubMsg {
                action: Action::Mint {
                    mirror_mint: config.mirror_mint_contract,
                    cdp_idx,
                    masset_token,
                    amount: amount_to_mint,
                },
                reply_id: SubmsgIds::MintMAsset.id(),
            },
        ),
        message: None,
    }
}

/// Withdraw receipt-asset collateral from the facility; the completion
/// reports the amount withdrawn.
pub fn withdraw_collateral(config: &Config, cdp_idx: u64, amount_to_withdraw: u64) -> (r: Response)
    ensures
        r == (Response {
            submsg: Some(
                SubMsg {
                    action: Action::WithdrawCollateral {
                        mirror_mint: config.mirror_mint_contract,
                        aterra_addr: config.aterra_addr,
                        cdp_idx,
                        amount: amount_to_withdraw,
                    },
                    reply_id: SubmsgIds::WithdrawCollateral.spec_id(),
                },
            ),
            message: None,
        }),
{
    Response {
        submsg: Some(
            SubMsg {
                action: Action::WithdrawCollateral {
                    mirror_mint: config.mirror_mint_contract,
                    aterra_addr: config.aterra_addr,
                    cdp_idx,
                    amount: amount_to_withdraw,
                },
                reply_id: SubmsgIds::WithdrawCollateral.id(),
            },
        ),
        message: None,
    }
}

/// Burn the repurchased synthetic amount against the facility; the
/// completion reports the amount burned.
pub fn burn_asset(config: &Config, masset_token: u64, cdp_idx: u64, return_amount: u64) -> (r:
    Response)
    ensures
        r == (Response {
            submsg: Some(
                SubMsg {
                    action: Action::Burn {
                        mirror_mint: config.mirror_mint_contract,
                        masset_token,
                        cdp_idx,
                        amount: return_amount,
                    },
                    reply_id: SubmsgIds::BurnMAsset.spec_id(),
                },
            ),
            message: None,
        }),
{
    Response {
        submsg: Some(
            SubMsg {
                action: Action::Burn {
                    mirror_mint: config.mirror_mint_contract,
                    masset_token,
                    cdp_idx,
                    amount: return_amount,
                },
                reply_id: SubmsgIds::BurnMAsset.id(),
            },
        ),
        message: None,
    }
}

} // verus!
