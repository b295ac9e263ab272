//! Inbound requests, outbound actions and the response shape. Addresses and
//! denominations appear as plain numeric identifiers; the host keeps the
//! mapping to real addresses and turns each [`Action`] into the wire message
//! of the service it is addressed to.

use vstd::prelude::*;

use crate::math::Decimal;

verus! {

/// Everything needed to create the configuration record.
#[derive(Clone, Copy, Debug, PartialEq, Eq, Structural)]
pub struct InstantiateMsg {
    pub stable_denom: u64,
    pub governance_contract: u64,
    pub mirror_mint_contract: u64,
    pub anchor_market_contract: u64,
    pub aterra_addr: u64,
    pub nexus_treasury: u64,
    pub protocol_fee: Decimal,
    pub min_over_collateralization: Decimal,
}

/// An inbound operation request.
#[derive(Clone, Copy, Debug, PartialEq)]
pub enum ExecuteMsg {
    /// Open a new leverage ladder, or top up an existing position when
    /// `leverage` is absent.
    Deposit { masset_token: u64, leverage: Option<u8>, aim_collateral_ratio: Decimal },
    /// Unwind toward an aim collateral and ratio.
    Withdraw { masset_token: u64, aim_collateral: u64, aim_collateral_ratio: Decimal },
    /// Redeem collateral down to `amount` without repurchasing debt.
    RawWithdraw { masset_token: u64, amount: u64 },
    /// Full unwind to zero collateral.
    ClosePosition { masset_token: u64 },
}

/// An inbound query.
#[derive(Clone, Copy, Debug, PartialEq, Eq, Structural)]
pub enum QueryMsg {
    Config {},
    Position { farmer_addr: u64, masset_token: u64 },
    FarmersPositions { farmer_addr: u64 },
}

/// A price query understood by the oracle hub.
#[derive(Debug, PartialEq)]
pub enum HubQueryMsg {
    Price { asset_token: String, timeframe: Option<u64> },
}

/// One outbound call to an external service, with every argument the wire
/// message will carry.
#[derive(Clone, Copy, Debug, PartialEq, Eq, Structural)]
pub enum Action {
    /// Lending market: deposit `amount` of the stable denomination for
    /// receipt asset.
    DepositStable { market: u64, stable_denom: u64, amount: u64 },
    /// Lending market, through the receipt token: redeem `amount` of receipt
    /// asset back into stable.
    RedeemStable { aterra_addr: u64, market: u64, amount: u64 },
    /// CDP market, through the receipt token: open a facility backed by
    /// `collateral_amount` at `collateral_ratio`.
    OpenPosition {
        aterra_addr: u64,
        mirror_mint: u64,
        masset_token: u64,
        collateral_amount: u64,
        collateral_ratio: Decimal,
    },
    /// CDP market, through the receipt token: post `amount` of collateral to
    /// facility `cdp_idx`.
    DepositCollateral { aterra_addr: u64, mirror_mint: u64, cdp_idx: u64, amount: u64 },
    /// CDP market: mint `amount` of the synthetic asset against facility
    /// `cdp_idx`.
    Mint { mirror_mint: u64, cdp_idx: u64, masset_token: u64, amount: u64 },
    /// CDP market, through the synthetic token: burn `amount` against
    /// facility `cdp_idx`.
    Burn { mirror_mint: u64, masset_token: u64, cdp_idx: u64, amount: u64 },
    /// CDP market: withdraw `amount` of receipt-asset collateral from
    /// facility `cdp_idx`.
    WithdrawCollateral { mirror_mint: u64, aterra_addr: u64, cdp_idx: u64, amount: u64 },
    /// Exchange, through the synthetic token: sell `amount` of the synthetic
    /// asset for stable, proceeds to `recipient`.
    Sell { masset_token: u64, pair_addr: u64, amount: u64, recipient: u64 },
    /// Exchange: spend `amount` of stable buying the synthetic asset,
    /// proceeds to `recipient`.
    Buy { pair_addr: u64, stable_denom: u64, amount: u64, recipient: u64 },
    /// Bank: send `amount` of the stable denomination to `recipient`.
    Send { recipient: u64, stable_denom: u64, amount: u64 },
}

/// An outbound call whose completion is delivered back under `reply_id`.
#[derive(Clone, Copy, Debug, PartialEq, Eq, Structural)]
pub struct SubMsg {
    pub action: Action,
    pub reply_id: u64,
}

/// What an operation hands back to the host: at most one call awaiting a
/// completion, and at most one fire-and-forget message.
#[derive(Clone, Copy, Debug, PartialEq, Eq, Structural)]
pub struct Response {
    pub submsg: Option<SubMsg>,
    pub message: Option<Action>,
}

} // verus!
