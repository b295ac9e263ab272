//! The resume dispatcher and its handlers: one handler per call identifier,
//! each reading the single in-flight job, computing the next amounts and
//! either issuing the next call or finalizing. No handler writes to the
//! position ledger; balances move only inside the two finalizers.

use vstd::prelude::*;

use crate::Error;
use crate::SubmsgIds;
use crate::anchor::{deposit_stable, redeem_stable};
use crate::commands::{
    close_position, deposit, exit, job_collateral, job_loan, pending_deposit, pending_withdraw,
    raw_withdraw, return_stable, the_deposit, the_withdraw, withdraw,
    withdraw_finalize_fails_with, withdraw_finalized, MAX_UNWIND_ITERATIONS,
};
use crate::math::{Decimal, decimal_division, get_taxed, min_safe_collateral_spec, mul_ceil,
    repay_value, scale, tax_deducted};
use crate::mirror::{MirrorAssetConfigResponse, burn_asset, deposit_to_cdp, mint_asset, open_cdp,
    withdraw_collateral};
use crate::msg::{Action, ExecuteMsg, InstantiateMsg, QueryMsg, Response, SubMsg};
use crate::state::{
    Config, DepositState, Job, Position, Storage, WithdrawState, has_position,
    load_deposit_state, load_position, load_positions_by_farmer_addr, load_withdraw_state,
    may_load_position, save_deposit_state, save_withdraw_state, spec_position,
};
use crate::utils::Event;

verus! {

/// What the host must supply with each delivered completion: values that
/// only it can observe at that moment.
#[derive(Clone, Copy, Debug, PartialEq, Eq, Structural)]
pub struct ReplyCtx {
    /// This contract's own address, the recipient of swap proceeds.
    pub contract_addr: u64,
    /// The contract's current balance of the stable denomination.
    pub stable_balance: u64,
    /// The chain's transfer tax rate.
    pub tax_rate: Decimal,
    /// The chain's transfer tax cap.
    pub tax_cap: u64,
}

/// The call identifier a job is suspended on.
pub open spec fn job_pending(j: Job) -> u64 {
    match j {
        Job::Deposit(d) => d.pending,
        Job::Withdraw(w) => w.pending,
    }
}

/// The loan that would put the job's collateral exactly at its aim ratio.
pub open spec fn deposit_target_loan(s: Storage, d: DepositState) -> int {
    (job_collateral(s, d) * scale()) / mul_ceil(
        d.aim_collateral_ratio.units as int,
        d.asset_price_in_collateral_asset.units as int,
    )
}

/// The exact transition of the lending-deposit resume handler.
pub open spec fn resume_deposit_stable_post(
    pre: Storage,
    post: Storage,
    received_aterra_amount: u64,
    r: Result<Response, Error>,
) -> bool {
    &&& post.config == pre.config
    &&& post.positions == pre.positions
    &&& post.cdps == pre.cdps
    &&& ({
            let d = the_deposit(pre);
            match r {
                Ok(resp) => {
                    &&& pending_deposit(pre, SubmsgIds::DepositStable.spec_id())
                    &&& (d.cdp_idx matches Some(idx) ==> {
                        &&& post.job == Some(
                            Job::Deposit(
                                DepositState { pending: SubmsgIds::DepositToCDP.spec_id(), ..d },
                            ),
                        )
                        &&& resp == (Response {
                            submsg: Some(
                                SubMsg {
                                    action: Action::DepositCollateral {
                                        aterra_addr: pre.config.aterra_addr,
                                        mirror_mint: pre.config.mirror_mint_contract,
                                        cdp_idx: idx,
                                        amount: received_aterra_amount,
                                    },
                                    reply_id: SubmsgIds::DepositToCDP.spec_id(),
                                },
                            ),
                            message: None,
                        })
                    })
                    &&& (d.cdp_idx is None ==> {
                        &&& post.job == Some(
                            Job::Deposit(
                                DepositState { pending: SubmsgIds::OpenCDP.spec_id(), ..d },
                            ),
                        )
                        &&& resp == (Response {
                            submsg: Some(
                                SubMsg {
                                    action: Action::OpenPosition {
                                        aterra_addr: pre.config.aterra_addr,
                                        mirror_mint: pre.config.mirror_mint_contract,
                                        masset_token: d.masset_token,
                                        collateral_amount: received_aterra_amount,
                                        collateral_ratio: d.aim_collateral_ratio,
                                    },
                                    reply_id: SubmsgIds::OpenCDP.spec_id(),
                                },
                            ),
                            message: None,
                        })
                    })
                },
                Err(e) => {
                    &&& post == pre
                    &&& e == Error::UnexpectedCompletion
                    &&& !pending_deposit(pre, SubmsgIds::DepositStable.spec_id())
                },
            }
    })
}

/// Resume handler of the lending-market deposit completion: the received
/// receipt amount goes to the debt facility, opening one first if none is
/// known yet.
pub fn resume_deposit_stable(storage: &mut Storage, received_aterra_amount: u64) -> (r: Result<
    Response,
    Error,
>)
    requires
        old(storage).wf(),
    ensures
        final(storage).wf(),
        resume_deposit_stable_post(
            *old(storage),
            *final(storage),
            received_aterra_amount,
            r,
        ),
{
    let d = match load_deposit_state(storage) {
        Ok(d) => d,
        Err(e) => {
            return Err(e);
        },
    };
    if d.pending != SubmsgIds::DepositStable.id() {
        return Err(Error::UnexpectedCompletion);
    }
    match d.cdp_idx {
        Some(idx) => {
            let nd = DepositState { pending: SubmsgIds::DepositToCDP.id(), ..d };
            save_deposit_state(storage, &nd);
            Ok(deposit_to_cdp(&storage.config, idx, received_aterra_amount))
        },
        None => {
            let nd = DepositState { pending: SubmsgIds::OpenCDP.id(), ..d };
            save_deposit_state(storage, &nd);
            Ok(open_cdp(&storage.config, &nd, received_aterra_amount))
        },
    }
}

/// Applies a stepped deposit job and issues its mint leg: the amount that
/// lifts the job's loan to the target for its aim ratio, a non-positive
/// delta being a fatal bookkeeping fault.
fn advance_deposit_iteration(storage: &mut Storage, d2: DepositState, cdp_idx: u64) -> (r: Result<
    Response,
    Error,
>)
    requires
        old(storage).wf(),
        d2.cdp_idx == Some(cdp_idx),
    ensures
        final(storage).wf(),
        final(storage).config == old(storage).config,
        final(storage).positions == old(storage).positions,
        final(storage).cdps == old(storage).cdps,
        ({
            let cl = job_loan(*old(storage), d2);
            let cc = job_collateral(*old(storage), d2);
            let q = mul_ceil(
                d2.aim_collateral_ratio.units as int,
                d2.asset_price_in_collateral_asset.units as int,
            );
            let target = deposit_target_loan(*old(storage), d2);
            match r {
                Ok(resp) => {
                    &&& cl <= u64::MAX
                    &&& cc <= u64::MAX
                    &&& q > 0
                    &&& target <= u64::MAX
                    &&& target > cl
                    &&& final(storage).job == Some(
                        Job::Deposit(
                            DepositState { pending: SubmsgIds::MintMAsset.spec_id(), ..d2 },
                        ),
                    )
                    &&& resp == (Response {
                        submsg: Some(
                            SubMsg {
                                action: Action::Mint {
                                    mirror_mint: old(storage).config.mirror_mint_contract,
                                    cdp_idx,
                                    masset_token: d2.masset_token,
                                    amount: (target - cl) as u64,
                                },
                                reply_id: SubmsgIds::MintMAsset.spec_id(),
                            },
                        ),
                        message: None,
                    })
                },
                Err(e) => {
                    &&& *final(storage) == *old(storage)
                    &&& if cl > u64::MAX || cc > u64::MAX {
                        e == Error::ArithmeticError
                    } else if q == 0 {
                        e == Error::DivideByZero
                    } else if target > u64::MAX {
                        e == Error::ArithmeticError
                    } else if target <= cl {
                        e == Error::InvalidState
                    } else {
                        false
                    }
                },
            }
        }),
{
    let (base_l, base_c): (u64, u64) = match may_load_position(
        storage,
        d2.farmer_addr,
        d2.masset_token,
    ) {
        Some(p) => (p.loan, p.collateral),
        None => (0, 0),
    };
    let cl128: u128 = (base_l as u128) + (d2.loan_delta as u128);
    let cc128: u128 = (base_c as u128) + (d2.collateral_delta as u128);
    if cl128 > u64::MAX as u128 || cc128 > u64::MAX as u128 {
        return Err(Error::ArithmeticError);
    }
    let current_loan = cl128 as u64;
    let current_collateral = cc128 as u64;
    let target = match crate::math::target_loan_for_ratio(
        current_collateral,
        &d2.aim_collateral_ratio,
        &d2.asset_price_in_collateral_asset,
    ) {
        Ok(v) => v,
        Err(e) => {
            return Err(e);
        },
    };
    let mint_amount = match crate::math::mint_amount_this_iteration(current_loan, target) {
        Ok(v) => v,
        Err(e) => {
            return Err(e);
        },
    };
    let d3 = DepositState { pending: SubmsgIds::MintMAsset.id(), ..d2 };
    save_deposit_state(storage, &d3);
    Ok(mint_asset(&storage.config, cdp_idx, d3.masset_token, mint_amount))
}

/// The exact transition of the facility-open resume handler.
pub open spec fn resume_open_cdp_post(
    pre: Storage,
    post: Storage,
    cdp_idx: u64,
    collateral_amount: u64,
    r: Result<Response, Error>,
) -> bool {
    &&& post.config == pre.config
    &&& post.positions == pre.positions
    &&& post.cdps == pre.cdps
    &&& ({
            let d = the_deposit(pre);
            let d2 = DepositState {
                cdp_idx: Some(cdp_idx),
                collateral_delta: (d.collateral_delta + collateral_amount) as u64,
                cur_iteration_index: (d.cur_iteration_index + 1) as u8,
                ..d
            };
            match r {
                Ok(resp) => {
                    &&& pending_deposit(pre, SubmsgIds::OpenCDP.spec_id())
                    &&& d.collateral_delta + collateral_amount <= u64::MAX
                    &&& d.cur_iteration_index < u8::MAX
                    &&& post.job == Some(
                        Job::Deposit(
                            DepositState { pending: SubmsgIds::MintMAsset.spec_id(), ..d2 },
                        ),
                    )
                    &&& deposit_target_loan(pre, d2) > job_loan(pre, d2)
                    &&& resp == (Response {
                        submsg: Some(
                            SubMsg {
                                action: Action::Mint {
                                    mirror_mint: pre.config.mirror_mint_contract,
                                    cdp_idx,
                                    masset_token: d.masset_token,
                                    amount: (deposit_target_loan(pre, d2) - job_loan(
                                        pre,
                                        d2,
                                    )) as u64,
                                },
                                reply_id: SubmsgIds::MintMAsset.spec_id(),
                            },
                        ),
                        message: None,
                    })
                },
                Err(e) => {
                    &&& post == pre
                    &&& if !pending_deposit(pre, SubmsgIds::OpenCDP.spec_id()) {
                        e == Error::UnexpectedCompletion
                    } else if d.collateral_delta + collateral_amount > u64::MAX
                        || d.cur_iteration_index == u8::MAX {
                        e == Error::ArithmeticError
                    } else if job_loan(pre, d2) > u64::MAX || job_collateral(
                        pre,
                        d2,
                    ) > u64::MAX {
                        e == Error::ArithmeticError
                    } else if mul_ceil(
                        d.aim_collateral_ratio.units as int,
                        d.asset_price_in_collateral_asset.units as int,
                    ) == 0 {
                        e == Error::DivideByZero
                    } else if deposit_target_loan(pre, d2) > u64::MAX {
                        e == Error::ArithmeticError
                    } else if deposit_target_loan(pre, d2) <= job_loan(
                        pre,
                        d2,
                    ) {
                        e == Error::InvalidState
                    } else {
                        false
                    }
                },
            }
    })
}

/// Resume handler of the facility-open completion: records the facility
/// index, credits the posted collateral to the job, steps the iteration
/// index and issues the mint leg.
pub fn resume_open_cdp(storage: &mut Storage, cdp_idx: u64, collateral_amount: u64) -> (r: Result<
    Response,
    Error,
>)
    requires
        old(storage).wf(),
    ensures
        final(storage).wf(),
        resume_open_cdp_post(
            *old(storage),
            *final(storage),
            cdp_idx,
            collateral_amount,
            r,
        ),
{
    let d = match load_deposit_state(storage) {
        Ok(d) => d,
        Err(e) => {
            return Err(e);
        },
    };
    if d.pending != SubmsgIds::OpenCDP.id() {
        return Err(Error::UnexpectedCompletion);
    }
    let collateral_delta = match d.collateral_delta.checked_add(collateral_amount) {
        Some(v) => v,
        None => {
            return Err(Error::ArithmeticError);
        },
    };
    if d.cur_iteration_index == u8::MAX {
        return Err(Error::ArithmeticError);
    }
    let d2 = DepositState {
        cdp_idx: Some(cdp_idx),
        collateral_delta,
        cur_iteration_index: d.cur_iteration_index + 1,
        ..d
    };
    advance_deposit_iteration(storage, d2, cdp_idx)
}

/// The exact transition of the collateral-deposit resume handler.
pub open spec fn resume_deposit_to_cdp_post(
    pre: Storage,
    post: Storage,
    deposit_amount: u64,
    r: Result<Response, Error>,
) -> bool {
    &&& post.config == pre.config
    &&& post.positions == pre.positions
    &&& post.cdps == pre.cdps
    &&& ({
            let d = the_deposit(pre);
            let d2 = DepositState {
                collateral_delta: (d.collateral_delta + deposit_amount) as u64,
                cur_iteration_index: (d.cur_iteration_index + 1) as u8,
                ..d
            };
            match r {
                Ok(resp) => {
                    &&& pending_deposit(pre, SubmsgIds::DepositToCDP.spec_id())
                    &&& d.cdp_idx is Some
                    &&& d.collateral_delta + deposit_amount <= u64::MAX
                    &&& d.cur_iteration_index < u8::MAX
                    &&& post.job == Some(
                        Job::Deposit(
                            DepositState { pending: SubmsgIds::MintMAsset.spec_id(), ..d2 },
                        ),
                    )
                    &&& deposit_target_loan(pre, d2) > job_loan(pre, d2)
                    &&& resp == (Response {
                        submsg: Some(
                            SubMsg {
                                action: Action::Mint {
                                    mirror_mint: pre.config.mirror_mint_contract,
                                    cdp_idx: d.cdp_idx->Some_0,
                                    masset_token: d.masset_token,
                                    amount: (deposit_target_loan(pre, d2) - job_loan(
                                        pre,
                                        d2,
                                    )) as u64,
                                },
                                reply_id: SubmsgIds::MintMAsset.spec_id(),
                            },
                        ),
                        message: None,
                    })
                },
                Err(e) => {
                    &&& post == pre
                    &&& if !pending_deposit(pre, SubmsgIds::DepositToCDP.spec_id()) {
                        e == Error::UnexpectedCompletion
                    } else if d.cdp_idx is None {
                        e == Error::InvalidState
                    } else if d.collateral_delta + deposit_amount > u64::MAX
                        || d.cur_iteration_index == u8::MAX {
                        e == Error::ArithmeticError
                    } else if job_loan(pre, d2) > u64::MAX || job_collateral(
                        pre,
                        d2,
                    ) > u64::MAX {
                        e == Error::ArithmeticError
                    } else if mul_ceil(
                        d.aim_collateral_ratio.units as int,
                        d.asset_price_in_collateral_asset.units as int,
                    ) == 0 {
                        e == Error::DivideByZero
                    } else if deposit_target_loan(pre, d2) > u64::MAX {
                        e == Error::ArithmeticError
                    } else if deposit_target_loan(pre, d2) <= job_loan(
                        pre,
                        d2,
                    ) {
                        e == Error::InvalidState
                    } else {
                        false
                    }
                },
            }
    })
}

/// Resume handler of the collateral-deposit completion: credits the posted
/// collateral to the job, steps the iteration index and issues the mint
/// leg.
pub fn resume_deposit_to_cdp(storage: &mut Storage, deposit_amount: u64) -> (r: Result<
    Response,
    Error,
>)
    requires
        old(storage).wf(),
    ensures
        final(storage).wf(),
        resume_deposit_to_cdp_post(
            *old(storage),
            *final(storage),
            deposit_amount,
            r,
        ),
{
    let d = match load_deposit_state(storage) {
        Ok(d) => d,
        Err(e) => {
            return Err(e);
        },
    };
    if d.pending != SubmsgIds::DepositToCDP.id() {
        return Err(Error::UnexpectedCompletion);
    }
    let cdp_idx = match d.cdp_idx {
        Some(idx) => idx,
        None => {
            return Err(Error::InvalidState);
        },
    };
    let collateral_delta = match d.collateral_delta.checked_add(deposit_amount) {
        Some(v) => v,
        None => {
            return Err(Error::ArithmeticError);
        },
    };
    if d.cur_iteration_index == u8::MAX {
        return Err(Error::ArithmeticError);
    }
    let d2 = DepositState {
        collateral_delta,
        cur_iteration_index: d.cur_iteration_index + 1,
        ..d
    };
    advance_deposit_iteration(storage, d2, cdp_idx)
}

/// The exact transition of the mint resume handler.
pub open spec fn resume_mint_masset_post(
    pre: Storage,
    post: Storage,
    minted_amount: u64,
    contract_addr: u64,
    r: Result<Response, Error>,
) -> bool {
    &&& post.config == pre.config
    &&& post.positions == pre.positions
    &&& post.cdps == pre.cdps
    &&& ({
            let d = the_deposit(pre);
            let terminal = d.cur_iteration_index >= d.leverage;
            let next_id = if terminal {
                SubmsgIds::Exit.spec_id()
            } else {
                SubmsgIds::SellMAsset.spec_id()
            };
            match r {
                Ok(resp) => {
                    &&& pending_deposit(pre, SubmsgIds::MintMAsset.spec_id())
                    &&& d.loan_delta + minted_amount <= u64::MAX
                    &&& post.job == Some(
                        Job::Deposit(
                            DepositState {
                                loan_delta: (d.loan_delta + minted_amount) as u64,
                                pending: next_id,
                                ..d
                            },
                        ),
                    )
                    &&& resp == (Response {
                        submsg: Some(
                            SubMsg {
                                action: Action::Sell {
                                    masset_token: d.masset_token,
                                    pair_addr: d.pair_addr,
                                    amount: minted_amount,
                                    recipient: contract_addr,
                                },
                                reply_id: next_id,
                            },
                        ),
                        message: None,
                    })
                },
                Err(e) => {
                    &&& post == pre
                    &&& if !pending_deposit(pre, SubmsgIds::MintMAsset.spec_id()) {
                        e == Error::UnexpectedCompletion
                    } else if d.loan_delta + minted_amount > u64::MAX {
                        e == Error::ArithmeticError
                    } else {
                        false
                    }
                },
            }
    })
}

/// Resume handler of the mint completion: credits the minted amount to the
/// job's loan delta and issues the sell leg; the terminal iteration's sell
/// resumes finalization instead of another loop.
pub fn resume_mint_masset(storage: &mut Storage, minted_amount: u64, contract_addr: u64) -> (r:
    Result<Response, Error>)
    requires
        old(storage).wf(),
    ensures
        final(storage).wf(),
        resume_mint_masset_post(
            *old(storage),
            *final(storage),
            minted_amount,
            contract_addr,
            r,
        ),
{
    let d = match load_deposit_state(storage) {
        Ok(d) => d,
        Err(e) => {
            return Err(e);
        },
    };
    if d.pending != SubmsgIds::MintMAsset.id() {
        return Err(Error::UnexpectedCompletion);
    }
    let loan_delta = match d.loan_delta.checked_add(minted_amount) {
        Some(v) => v,
        None => {
            return Err(Error::ArithmeticError);
        },
    };
    let terminal = d.cur_iteration_index >= d.leverage;
    let next_id = if terminal {
        SubmsgIds::Exit.id()
    } else {
        SubmsgIds::SellMAsset.id()
    };
    let d2 = DepositState { loan_delta, pending: next_id, ..d };
    save_deposit_state(storage, &d2);
    Ok(crate::terraswap::sell_masset(contract_addr, &d2, minted_amount, terminal))
}

/// The exact transition of the non-terminal sell resume handler.
pub open spec fn resume_sell_masset_post(
    pre: Storage,
    post: Storage,
    return_amount: u64,
    tax_rate: Decimal,
    tax_cap: u64,
    r: Result<Response, Error>,
) -> bool {
    &&& post.config == pre.config
    &&& post.positions == pre.positions
    &&& post.cdps == pre.cdps
    &&& ({
            let d = the_deposit(pre);
            let proceeds = if return_amount == 0 {
                0int
            } else {
                tax_deducted(return_amount as int, tax_rate.units as int, tax_cap as int)
            };
            match r {
                Ok(resp) => {
                    &&& pending_deposit(pre, SubmsgIds::SellMAsset.spec_id())
                    &&& post.job == Some(
                        Job::Deposit(
                            DepositState { pending: SubmsgIds::DepositStable.spec_id(), ..d },
                        ),
                    )
                    &&& resp == (Response {
                        submsg: Some(
                            SubMsg {
                                action: Action::DepositStable {
                                    market: pre.config.anchor_market_contract,
                                    stable_denom: pre.config.stable_denom,
                                    amount: proceeds as u64,
                                },
                                reply_id: SubmsgIds::DepositStable.spec_id(),
                            },
                        ),
                        message: None,
                    })
                },
                Err(e) => {
                    &&& post == pre
                    &&& if !pending_deposit(pre, SubmsgIds::SellMAsset.spec_id()) {
                        e == Error::UnexpectedCompletion
                    } else if scale() + tax_rate.units > u64::MAX {
                        e == Error::ArithmeticError
                    } else {
                        false
                    }
                },
            }
    })
}

/// Resume handler of a non-terminal sell completion: deducts the transfer
/// tax from the proceeds and feeds what remains into the next
/// lending-market deposit.
pub fn resume_sell_masset(
    storage: &mut Storage,
    return_amount: u64,
    tax_rate: &Decimal,
    tax_cap: u64,
) -> (r: Result<Response, Error>)
    requires
        old(storage).wf(),
    ensures
        final(storage).wf(),
        resume_sell_masset_post(
            *old(storage),
            *final(storage),
            return_amount,
            *tax_rate,
            tax_cap,
            r,
        ),
{
    let d = match load_deposit_state(storage) {
        Ok(d) => d,
        Err(e) => {
            return Err(e);
        },
    };
    if d.pending != SubmsgIds::SellMAsset.id() {
        return Err(Error::UnexpectedCompletion);
    }
    let proceeds = match get_taxed(return_amount, tax_rate, tax_cap) {
        Ok(v) => v,
        Err(e) => {
            return Err(e);
        },
    };
    let d2 = DepositState { pending: SubmsgIds::DepositStable.id(), ..d };
    save_deposit_state(storage, &d2);
    Ok(deposit_stable(&storage.config, proceeds))
}

/// The exact transition of the collateral-withdraw resume handler.
pub open spec fn resume_withdraw_collateral_post(
    pre: Storage,
    post: Storage,
    received_aterra_amount: u64,
    r: Result<Response, Error>,
) -> bool {
    &&& post.config == pre.config
    &&& post.positions == pre.positions
    &&& post.cdps == pre.cdps
    &&& ({
            let w = the_withdraw(pre);
            match r {
                Ok(resp) => {
                    &&& pending_withdraw(pre, SubmsgIds::WithdrawCollateral.spec_id())
                    &&& w.collateral_delta + received_aterra_amount <= u64::MAX
                    &&& post.job == Some(
                        Job::Withdraw(
                            WithdrawState {
                                collateral_delta: (w.collateral_delta + received_aterra_amount) as u64,
                                pending: SubmsgIds::RedeemStable.spec_id(),
                                ..w
                            },
                        ),
                    )
                    &&& resp == (Response {
                        submsg: Some(
                            SubMsg {
                                action: Action::RedeemStable {
                                    aterra_addr: pre.config.aterra_addr,
                                    market: pre.config.anchor_market_contract,
                                    amount: received_aterra_amount,
                                },
                                reply_id: SubmsgIds::RedeemStable.spec_id(),
                            },
                        ),
                        message: None,
                    })
                },
                Err(e) => {
                    &&& post == pre
                    &&& if !pending_withdraw(
                        pre,
                        SubmsgIds::WithdrawCollateral.spec_id(),
                    ) {
                        e == Error::UnexpectedCompletion
                    } else if w.collateral_delta + received_aterra_amount > u64::MAX {
                        e == Error::ArithmeticError
                    } else {
                        false
                    }
                },
            }
    })
}

/// Resume handler of the collateral-withdraw completion: credits the
/// redeemed amount to the job and hands the receipt asset to the lending
/// market for redemption into stable.
pub fn resume_withdraw_collateral(storage: &mut Storage, received_aterra_amount: u64) -> (r: Result<
    Response,
    Error,
>)
    requires
        old(storage).wf(),
    ensures
        final(storage).wf(),
        resume_withdraw_collateral_post(
            *old(storage),
            *final(storage),
            received_aterra_amount,
            r,
        ),
{
    let w = match load_withdraw_state(storage) {
        Ok(w) => w,
        Err(e) => {
            return Err(e);
        },
    };
    if w.pending != SubmsgIds::WithdrawCollateral.id() {
        return Err(Error::UnexpectedCompletion);
    }
    let collateral_delta = match w.collateral_delta.checked_add(received_aterra_amount) {
        Some(v) => v,
        None => {
            return Err(Error::ArithmeticError);
        },
    };
    let w2 = WithdrawState {
        collateral_delta,
        pending: SubmsgIds::RedeemStable.id(),
        ..w
    };
    save_withdraw_state(storage, &w2);
    Ok(redeem_stable(&storage.config, received_aterra_amount))
}

/// The exact transition of the stable-redemption resume handler.
pub open spec fn resume_redeem_stable_post(
    pre: Storage,
    post: Storage,
    contract_addr: u64,
    stable_balance: u64,
    r: Result<Response, Error>,
) -> bool {
    &&& post.config == pre.config
    &&& ({
            let w = the_withdraw(pre);
            let known = has_position(pre.positions@, w.farmer_addr, w.masset_token);
            let pos = spec_position(pre.positions@, w.farmer_addr, w.masset_token);
            let cl = pos.loan - w.loan_delta;
            let cc = pos.collateral - w.collateral_delta;
            let at_aim = cc == w.aim_collateral && cl == w.aim_loan;
            let repay = mul_ceil((cl - w.aim_loan) as int, w.masset_price.units as int);
            let offer = if stable_balance <= repay {
                stable_balance as int
            } else {
                repay
            };
            match r {
                Ok(resp) => {
                    &&& pending_withdraw(pre, SubmsgIds::RedeemStable.spec_id())
                    &&& if w.is_raw || at_aim {
                        withdraw_finalized(pre, post, stable_balance, resp)
                    } else {
                        &&& known
                        &&& cl >= 0
                        &&& cc >= 0
                        &&& cl >= w.aim_loan
                        &&& post.positions == pre.positions
                        &&& post.cdps == pre.cdps
                        &&& post.job == Some(
                            Job::Withdraw(
                                WithdrawState { pending: SubmsgIds::BuyMAsset.spec_id(), ..w },
                            ),
                        )
                        &&& resp == (Response {
                            submsg: Some(
                                SubMsg {
                                    action: Action::Buy {
                                        pair_addr: w.pair_addr,
                                        stable_denom: pre.config.stable_denom,
                                        amount: offer as u64,
                                        recipient: contract_addr,
                                    },
                                    reply_id: SubmsgIds::BuyMAsset.spec_id(),
                                },
                            ),
                            message: None,
                        })
                    }
                },
                Err(e) => {
                    &&& post == pre
                    &&& if !pending_withdraw(pre, SubmsgIds::RedeemStable.spec_id()) {
                        e == Error::UnexpectedCompletion
                    } else if w.is_raw {
                        withdraw_finalize_fails_with(pre, e)
                    } else if !known {
                        e == Error::NoPosition
                    } else if cl < 0 || cc < 0 {
                        e == Error::ArithmeticError
                    } else if at_aim {
                        withdraw_finalize_fails_with(pre, e)
                    } else if cl < w.aim_loan {
                        e == Error::ArithmeticError
                    } else if repay > u64::MAX {
                        e == Error::ArithmeticError
                    } else {
                        false
                    }
                },
            }
    })
}

/// Resume handler of the stable-redemption completion: a raw job or one
/// already at its aim state finalizes, returning the stable balance to the
/// owner; otherwise a repurchase sized to the outstanding repay value is
/// issued, capped by the balance at hand.
pub fn resume_redeem_stable(storage: &mut Storage, contract_addr: u64, stable_balance: u64) -> (r:
    Result<Response, Error>)
    requires
        old(storage).wf(),
    ensures
        final(storage).wf(),
        resume_redeem_stable_post(
            *old(storage),
            *final(storage),
            contract_addr,
            stable_balance,
            r,
        ),
{
    let w = match load_withdraw_state(storage) {
        Ok(w) => w,
        Err(e) => {
            return Err(e);
        },
    };
    if w.pending != SubmsgIds::RedeemStable.id() {
        return Err(Error::UnexpectedCompletion);
    }
    if w.is_raw {
        return return_stable(storage, stable_balance);
    }
    let pos = match load_position(storage, w.farmer_addr, w.masset_token) {
        Ok(p) => p,
        Err(e) => {
            return Err(e);
        },
    };
    if w.loan_delta > pos.loan || w.collateral_delta > pos.collateral {
        return Err(Error::ArithmeticError);
    }
    let current = Position {
        loan: pos.loan - w.loan_delta,
        collateral: pos.collateral - w.collateral_delta,
        ..pos
    };
    if crate::commands::is_aim_state(&current, &w) {
        return return_stable(storage, stable_balance);
    }
    let repay_to_aim_value = match repay_value(current.loan, w.aim_loan, &w.masset_price) {
        Ok(v) => v,
        Err(e) => {
            return Err(e);
        },
    };
    let offer_amount = if stable_balance <= repay_to_aim_value {
        stable_balance
    } else {
        repay_to_aim_value
    };
    let w2 = WithdrawState { pending: SubmsgIds::BuyMAsset.id(), ..w };
    save_withdraw_state(storage, &w2);
    Ok(crate::terraswap::buy_masset(&storage.config, &w2, contract_addr, offer_amount))
}

/// The exact transition of the repurchase resume handler.
pub open spec fn resume_buy_masset_post(
    pre: Storage,
    post: Storage,
    return_amount: u64,
    r: Result<Response, Error>,
) -> bool {
    &&& post.config == pre.config
    &&& post.positions == pre.positions
    &&& post.cdps == pre.cdps
    &&& ({
            let w = the_withdraw(pre);
            let known = has_position(pre.positions@, w.farmer_addr, w.masset_token);
            let pos = spec_position(pre.positions@, w.farmer_addr, w.masset_token);
            match r {
                Ok(resp) => {
                    &&& pending_withdraw(pre, SubmsgIds::BuyMAsset.spec_id())
                    &&& known
                    &&& post.job == Some(
                        Job::Withdraw(
                            WithdrawState { pending: SubmsgIds::BurnMAsset.spec_id(), ..w },
                        ),
                    )
                    &&& resp == (Response {
                        submsg: Some(
                            SubMsg {
                                action: Action::Burn {
                                    mirror_mint: pre.config.mirror_mint_contract,
                                    masset_token: w.masset_token,
                                    cdp_idx: pos.cdp_idx,
                                    amount: return_amount,
                                },
                                reply_id: SubmsgIds::BurnMAsset.spec_id(),
                            },
                        ),
                        message: None,
                    })
                },
                Err(e) => {
                    &&& post == pre
                    &&& if !pending_withdraw(pre, SubmsgIds::BuyMAsset.spec_id()) {
                        e == Error::UnexpectedCompletion
                    } else if !known {
                        e == Error::NoPosition
                    } else {
                        false
                    }
                },
            }
    })
}

/// Resume handler of the repurchase completion: hands the synthetic amount
/// received to the facility to be burned.
pub fn resume_buy_masset(storage: &mut Storage, return_amount: u64) -> (r: Result<Response, Error>)
    requires
        old(storage).wf(),
    ensures
        final(storage).wf(),
        resume_buy_masset_post(
            *old(storage),
            *final(storage),
            return_amount,
            r,
        ),
{
    let w = match load_withdraw_state(storage) {
        Ok(w) => w,
        Err(e) => {
            return Err(e);
        },
    };
    if w.pending != SubmsgIds::BuyMAsset.id() {
        return Err(Error::UnexpectedCompletion);
    }
    let pos = match load_position(storage, w.farmer_addr, w.masset_token) {
        Ok(p) => p,
        Err(e) => {
            return Err(e);
        },
    };
    let w2 = WithdrawState { pending: SubmsgIds::BurnMAsset.id(), ..w };
    save_withdraw_state(storage, &w2);
    Ok(burn_asset(&storage.config, w.masset_token, pos.cdp_idx, return_amount))
}

/// The exact transition of the burn resume handler.
pub open spec fn resume_burn_masset_post(
    pre: Storage,
    post: Storage,
    burn_amount: u64,
    stable_balance: u64,
    r: Result<Response, Error>,
) -> bool {
    &&& post.config == pre.config
    // Errors never reach the ledger, though a failed finalization may have
    // already stepped the job's deltas.
    &&& (r is Err ==> post.positions == pre.positions && post.cdps == pre.cdps)
    &&& ({
            let w = the_withdraw(pre);
            let w2 = WithdrawState {
                loan_delta: (w.loan_delta + burn_amount) as u64,
                unwind_iterations: (w.unwind_iterations + 1) as u8,
                ..w
            };
            let mid = Storage { job: Some(Job::Withdraw(w2)), ..pre };
            let known = has_position(pre.positions@, w.farmer_addr, w.masset_token);
            let pos = spec_position(pre.positions@, w.farmer_addr, w.masset_token);
            let cl = pos.loan - w2.loan_delta;
            let cc = pos.collateral - w2.collateral_delta;
            let at_aim = cc == w.aim_collateral && cl == w.aim_loan;
            let price_units = crate::math::div_floor(
                w.collateral_price.units as int,
                w.masset_price.units as int,
            );
            let m = min_safe_collateral_spec(
                cl,
                price_units,
                w.safe_collateral_ratio.units as int,
            );
            let amount = if w.aim_collateral < m {
                if m >= cc {
                    0int
                } else {
                    cc - m
                }
            } else {
                cc - w.aim_collateral
            };
            match r {
                Ok(resp) => {
                    &&& pending_withdraw(pre, SubmsgIds::BurnMAsset.spec_id())
                    &&& w.loan_delta + burn_amount <= u64::MAX
                    &&& w.unwind_iterations + 1 <= MAX_UNWIND_ITERATIONS
                    &&& if at_aim {
                        withdraw_finalized(mid, post, stable_balance, resp)
                    } else {
                        &&& known
                        &&& cl >= 0
                        &&& cc >= 0
                        &&& post.positions == pre.positions
                        &&& post.cdps == pre.cdps
                        &&& post.job == Some(
                            Job::Withdraw(
                                WithdrawState {
                                    pending: SubmsgIds::WithdrawCollateral.spec_id(),
                                    ..w2
                                },
                            ),
                        )
                        &&& resp == (Response {
                            submsg: Some(
                                SubMsg {
                                    action: Action::WithdrawCollateral {
                                        mirror_mint: pre.config.mirror_mint_contract,
                                        aterra_addr: pre.config.aterra_addr,
                                        cdp_idx: pos.cdp_idx,
                                        amount: amount as u64,
                                    },
                                    reply_id: SubmsgIds::WithdrawCollateral.spec_id(),
                                },
                            ),
                            message: None,
                        })
                        // The next redeem keeps the position at or above the safe bound.
                        &&& m <= cc ==> cc - amount >= m
                    }
                },
                Err(e) => if !pending_withdraw(pre, SubmsgIds::BurnMAsset.spec_id()) {
                    e == Error::UnexpectedCompletion
                } else if w.loan_delta + burn_amount > u64::MAX {
                    e == Error::ArithmeticError
                } else if w.unwind_iterations + 1 > MAX_UNWIND_ITERATIONS {
                    e == Error::UnwindDidNotConverge
                } else if at_aim {
                    withdraw_finalize_fails_with(mid, e)
                } else if !known {
                    e == Error::NoPosition
                } else if cl < 0 || cc < 0 {
                    e == Error::ArithmeticError
                } else if w.masset_price.units == 0 {
                    e == Error::DivideByZero
                } else if price_units > u64::MAX {
                    e == Error::ArithmeticError
                } else if mul_ceil(cl, price_units) > u64::MAX || m > u64::MAX {
                    e == Error::ArithmeticError
                } else if w.aim_collateral >= m && w.aim_collateral > cc {
                    e == Error::InvalidTarget
                } else {
                    false
                },
            }
    })
}

/// Resume handler of the burn completion: credits the burned amount to the
/// job's loan delta and either finalizes (aim state reached) or issues the
/// next redeem, which again stops at the safe bound. The cycle count is
/// capped; each cycle strictly reduces the outstanding loan, but an
/// implementation must fail rather than loop unboundedly.
pub fn resume_burn_masset(storage: &mut Storage, burn_amount: u64, stable_balance: u64) -> (r:
    Result<Response, Error>)
    requires
        old(storage).wf(),
    ensures
        final(storage).wf(),
        resume_burn_masset_post(
            *old(storage),
            *final(storage),
            burn_amount,
            stable_balance,
            r,
        ),
{
    let w = match load_withdraw_state(storage) {
        Ok(w) => w,
        Err(e) => {
            return Err(e);
        },
    };
    if w.pending != SubmsgIds::BurnMAsset.id() {
        return Err(Error::UnexpectedCompletion);
    }
    let loan_delta = match w.loan_delta.checked_add(burn_amount) {
        Some(v) => v,
        None => {
            return Err(Error::ArithmeticError);
        },
    };
    if w.unwind_iterations >= MAX_UNWIND_ITERATIONS {
        return Err(Error::UnwindDidNotConverge);
    }
    let w2 = WithdrawState {
        loan_delta,
        unwind_iterations: w.unwind_iterations + 1,
        ..w
    };
    let at_aim = {
        match may_load_position(storage, w.farmer_addr, w.masset_token) {
            Some(pos) => w2.loan_delta <= pos.loan && w2.collateral_delta <= pos.collateral
                && pos.loan - w2.loan_delta == w.aim_loan && pos.collateral - w2.collateral_delta
                == w.aim_collateral,
            None => false,
        }
    };
    if at_aim {
        save_withdraw_state(storage, &w2);
        return return_stable(storage, stable_balance);
    }
    let pos = match load_position(storage, w.farmer_addr, w.masset_token) {
        Ok(p) => p,
        Err(e) => {
            return Err(e);
        },
    };
    if w2.loan_delta > pos.loan || w2.collateral_delta > pos.collateral {
        return Err(Error::ArithmeticError);
    }
    let current_loan = pos.loan - w2.loan_delta;
    let current_collateral = pos.collateral - w2.collateral_delta;
    let masset_price_in_collateral_asset = match decimal_division(
        w.collateral_price,
        w.masset_price,
    ) {
        Ok(d) => d,
        Err(e) => {
            return Err(e);
        },
    };
    let amount_to_withdraw = match crate::commands::calculate_withdraw_amount(
        current_collateral,
        current_loan,
        w.aim_collateral,
        &masset_price_in_collateral_asset,
        &w.safe_collateral_ratio,
    ) {
        Ok(v) => v,
        Err(e) => {
            return Err(e);
        },
    };
    let w3 = WithdrawState { pending: SubmsgIds::WithdrawCollateral.id(), ..w2 };
    save_withdraw_state(storage, &w3);
    Ok(withdraw_collateral(&storage.config, pos.cdp_idx, amount_to_withdraw))
}

/// Reads the amount reported verbatim under `name` in a completion's events.
fn parse_raw_amount(events: &Vec<Event>, name: &String) -> (r: Result<u64, Error>)
    ensures
        r == crate::utils::raw_amount_result(events@, name@),
{
    let raw = match crate::utils::get_amount_from_response_raw_attr(events, name) {
        Ok(s) => s,
        Err(e) => {
            return Err(e);
        },
    };
    match crate::utils::parse_uint(raw.as_str()) {
        Ok(v) => Ok(v),
        Err(e) => Err(e),
    }
}

/// Reads the amount reported as an asset string under `name` in a
/// completion's events.
fn parse_asset_amount(events: &Vec<Event>, name: &String) -> (r: Result<u64, Error>)
    ensures
        r == crate::utils::asset_amount_result(events@, name@),
{
    let raw = match crate::utils::get_amount_from_response_asset_as_string_attr(events, name) {
        Ok(s) => s,
        Err(e) => {
            return Err(e);
        },
    };
    match crate::utils::parse_uint(raw.as_str()) {
        Ok(v) => Ok(v),
        Err(e) => Err(e),
    }
}

/// The resume dispatcher: maps a delivered completion identifier to its
/// handler, reading the reported amounts out of the completion's events.
/// The identifier must match the pending step of the single in-flight job —
/// anything else is a fatal `UnexpectedCompletion` — and the position ledger
/// changes only when the dispatched handler finalizes the job (the job slot
/// comes back empty exactly then).
pub fn reply(storage: &mut Storage, ctx: &ReplyCtx, msg_id: u64, events: &Vec<Event>) -> (r: Result<
    Response,
    Error,
>)
    requires
        old(storage).wf(),
    ensures
        final(storage).wf(),
        final(storage).config == old(storage).config,
        old(storage).job is None ==> r is Err,
        // Errors never reach the ledger.
        r is Err ==> final(storage).positions == old(storage).positions && final(storage).cdps
            == old(storage).cdps,
        // Deltas stay in the job until finalization clears the slot.
        final(storage).job is Some ==> final(storage).positions == old(storage).positions
            && final(storage).cdps == old(storage).cdps,
        // The machine suspends exactly on the call it issued.
        match r {
            Ok(resp) => {
                &&& (final(storage).job matches Some(j) ==> resp.submsg matches Some(sm)
                    && sm.reply_id == job_pending(j))
                &&& (final(storage).job is None ==> resp.submsg is None)
            },
            Err(_) => true,
        },
        // An identifier that names no step is fatal and changes nothing.
        msg_id > 9 ==> r == Err::<Response, Error>(Error::UnexpectedCompletion) && *final(storage)
            == *old(storage),
        // Each step's completion either fails on its reported amount, with
        // nothing changed, or takes exactly its handler's transition. A
        // matching identifier with a well-formed completion therefore
        // succeeds whenever the handler's own success conditions hold.
        msg_id == SubmsgIds::DepositStable.spec_id() ==> match crate::utils::raw_amount_result(
            events@,
            "mint_amount"@,
        ) {
            Ok(a) => resume_deposit_stable_post(*old(storage), *final(storage), a, r),
            Err(pe) => r == Err::<Response, Error>(pe) && *final(storage) == *old(storage),
        },
        msg_id == SubmsgIds::OpenCDP.spec_id() ==> match crate::utils::raw_amount_result(
            events@,
            "position_idx"@,
        ) {
            Ok(idx) => match crate::utils::asset_amount_result(events@, "collateral_amount"@) {
                Ok(a) => resume_open_cdp_post(*old(storage), *final(storage), idx, a, r),
                Err(pe) => r == Err::<Response, Error>(pe) && *final(storage) == *old(storage),
            },
            Err(pe) => r == Err::<Response, Error>(pe) && *final(storage) == *old(storage),
        },
        msg_id == SubmsgIds::DepositToCDP.spec_id() ==> match crate::utils::asset_amount_result(
            events@,
            "deposit_amount"@,
        ) {
            Ok(a) => resume_deposit_to_cdp_post(*old(storage), *final(storage), a, r),
            Err(pe) => r == Err::<Response, Error>(pe) && *final(storage) == *old(storage),
        },
        msg_id == SubmsgIds::MintMAsset.spec_id() ==> match crate::utils::asset_amount_result(
            events@,
            "mint_amount"@,
        ) {
            Ok(a) => resume_mint_masset_post(
                *old(storage),
                *final(storage),
                a,
                ctx.contract_addr,
                r,
            ),
            Err(pe) => r == Err::<Response, Error>(pe) && *final(storage) == *old(storage),
        },
        msg_id == SubmsgIds::SellMAsset.spec_id() ==> match crate::utils::raw_amount_result(
            events@,
            "return_amount"@,
        ) {
            Ok(a) => resume_sell_masset_post(
                *old(storage),
                *final(storage),
                a,
                ctx.tax_rate,
                ctx.tax_cap,
                r,
            ),
            Err(pe) => r == Err::<Response, Error>(pe) && *final(storage) == *old(storage),
        },
        msg_id == SubmsgIds::Exit.spec_id() ==> crate::commands::exit_post(
            *old(storage),
            *final(storage),
            r,
        ),
        msg_id == SubmsgIds::WithdrawCollateral.spec_id()
            ==> match crate::utils::asset_amount_result(events@, "withdraw_amount"@) {
            Ok(a) => resume_withdraw_collateral_post(*old(storage), *final(storage), a, r),
            Err(pe) => r == Err::<Response, Error>(pe) && *final(storage) == *old(storage),
        },
        msg_id == SubmsgIds::RedeemStable.spec_id() ==> resume_redeem_stable_post(
            *old(storage),
            *final(storage),
            ctx.contract_addr,
            ctx.stable_balance,
            r,
        ),
        msg_id == SubmsgIds::BuyMAsset.spec_id() ==> match crate::utils::raw_amount_result(
            events@,
            "return_amount"@,
        ) {
            Ok(a) => resume_buy_masset_post(*old(storage), *final(storage), a, r),
            Err(pe) => r == Err::<Response, Error>(pe) && *final(storage) == *old(storage),
        },
        msg_id == SubmsgIds::BurnMAsset.spec_id() ==> match crate::utils::asset_amount_result(
            events@,
            "burn_amount"@,
        ) {
            Ok(a) => resume_burn_masset_post(
                *old(storage),
                *final(storage),
                a,
                ctx.stable_balance,
                r,
            ),
            Err(pe) => r == Err::<Response, Error>(pe) && *final(storage) == *old(storage),
        },
{
    let submessage_enum = match SubmsgIds::try_from(msg_id) {
        Ok(s) => s,
        Err(e) => {
            return Err(e);
        },
    };
    match submessage_enum {
        SubmsgIds::DepositStable => {
            let name = ("mint_amount").to_owned();
            let received_aterra_amount = match parse_raw_amount(events, &name) {
                Ok(v) => v,
                Err(e) => {
                    return Err(e);
                },
            };
            resume_deposit_stable(storage, received_aterra_amount)
        },
        SubmsgIds::OpenCDP => {
            let idx_name = ("position_idx").to_owned();
            let cdp_idx = match parse_raw_amount(events, &idx_name) {
                Ok(v) => v,
                Err(e) => {
                    return Err(e);
                },
            };
            let coll_name = ("collateral_amount").to_owned();
            let collateral_amount = match parse_asset_amount(events, &coll_name) {
                Ok(v) => v,
                Err(e) => {
                    return Err(e);
                },
            };
            resume_open_cdp(storage, cdp_idx, collateral_amount)
        },
        SubmsgIds::DepositToCDP => {
            let name = ("deposit_amount").to_owned();
            let deposit_amount = match parse_asset_amount(events, &name) {
                Ok(v) => v,
                Err(e) => {
                    return Err(e);
                },
            };
            resume_deposit_to_cdp(storage, deposit_amount)
        },
        SubmsgIds::MintMAsset => {
            let name = ("mint_amount").to_owned();
            let minted_amount = match parse_asset_amount(events, &name) {
                Ok(v) => v,
                Err(e) => {
                    return Err(e);
                },
            };
            resume_mint_masset(storage, minted_amount, ctx.contract_addr)
        },
        SubmsgIds::SellMAsset => {
            let name = ("return_amount").to_owned();
            let return_amount = match parse_raw_amount(events, &name) {
                Ok(v) => v,
                Err(e) => {
                    return Err(e);
                },
            };
            resume_sell_masset(storage, return_amount, &ctx.tax_rate, ctx.tax_cap)
        },
        SubmsgIds::Exit => exit(storage),
        SubmsgIds::WithdrawCollateral => {
            let name = ("withdraw_amount").to_owned();
            let received_aterra_amount = match parse_asset_amount(events, &name) {
                Ok(v) => v,
                Err(e) => {
                    return Err(e);
                },
            };
            resume_withdraw_collateral(storage, received_aterra_amount)
        },
        SubmsgIds::RedeemStable => resume_redeem_stable(
            storage,
            ctx.contract_addr,
            ctx.stable_balance,
        ),
        SubmsgIds::BuyMAsset => {
            let name = ("return_amount").to_owned();
            let return_amount = match parse_raw_amount(events, &name) {
                Ok(v) => v,
                Err(e) => {
                    return Err(e);
                },
            };
            resume_buy_masset(storage, return_amount)
        },
        SubmsgIds::BurnMAsset => {
            let name = ("burn_amount").to_owned();
            let burn_amount = match parse_asset_amount(events, &name) {
                Ok(v) => v,
                Err(e) => {
                    return Err(e);
                },
            };
            resume_burn_masset(storage, burn_amount, ctx.stable_balance)
        },
    }
}

/// The market data an inbound operation needs, read by the host immediately
/// before dispatching: the asset's facility parameters, the two oracle
/// prices and the exchange pair.
#[derive(Clone, Copy, Debug, PartialEq)]
pub struct MarketSnapshot {
    pub masset_config: MirrorAssetConfigResponse,
    pub collateral_price: Decimal,
    pub asset_price: Decimal,
    pub pair_addr: u64,
}

/// The inbound dispatcher. Whatever the operation, starting it while a job
/// is pending fails fast with `JobInProgress`, and nothing reaches the
/// position ledger before the job finalizes.
pub fn execute(
    storage: &mut Storage,
    info_sender: u64,
    deposit_funds: u64,
    msg: &ExecuteMsg,
    snapshot: &MarketSnapshot,
) -> (r: Result<Response, Error>)
    requires
        old(storage).wf(),
    ensures
        final(storage).wf(),
        final(storage).config == old(storage).config,
        final(storage).positions == old(storage).positions,
        final(storage).cdps == old(storage).cdps,
        // Single-flight: a pending job refuses every new operation.
        old(storage).job is Some ==> (r matches Err(e) && e == Error::JobInProgress
            && final(storage).job == old(storage).job),
        r is Err ==> final(storage).job == old(storage).job,
        match r {
            Ok(resp) => {
                &&& old(storage).job is None
                &&& final(storage).job matches Some(j)
                &&& resp.submsg matches Some(sm) && sm.reply_id == job_pending(j)
            },
            Err(_) => true,
        },
        // Each request takes exactly its command's transition: on valid
        // inputs success and the full result are forced by the command's
        // contract.
        match *msg {
            ExecuteMsg::Deposit { masset_token, leverage, aim_collateral_ratio } => {
                crate::commands::deposit_post(
                    *old(storage),
                    *final(storage),
                    info_sender,
                    masset_token,
                    leverage,
                    aim_collateral_ratio,
                    deposit_funds,
                    snapshot.masset_config,
                    snapshot.collateral_price,
                    snapshot.asset_price,
                    snapshot.pair_addr,
                    r,
                )
            },
            ExecuteMsg::Withdraw { masset_token, aim_collateral, aim_collateral_ratio } => {
                crate::commands::withdraw_post(
                    *old(storage),
                    *final(storage),
                    info_sender,
                    masset_token,
                    aim_collateral,
                    aim_collateral_ratio,
                    snapshot.masset_config,
                    snapshot.collateral_price,
                    snapshot.asset_price,
                    snapshot.pair_addr,
                    r,
                )
            },
            ExecuteMsg::RawWithdraw { masset_token, amount } => {
                crate::commands::raw_withdraw_post(
                    *old(storage),
                    *final(storage),
                    info_sender,
                    masset_token,
                    amount,
                    snapshot.masset_config,
                    snapshot.collateral_price,
                    snapshot.asset_price,
                    snapshot.pair_addr,
                    r,
                )
            },
            ExecuteMsg::ClosePosition { masset_token } => {
                crate::commands::close_position_post(
                    *old(storage),
                    *final(storage),
                    info_sender,
                    masset_token,
                    snapshot.masset_config,
                    snapshot.collateral_price,
                    snapshot.asset_price,
                    snapshot.pair_addr,
                    r,
                )
            },
        },
{
    match msg {
        ExecuteMsg::Deposit { masset_token, leverage, aim_collateral_ratio } => deposit(
            storage,
            info_sender,
            *masset_token,
            *leverage,
            *aim_collateral_ratio,
            deposit_funds,
            &snapshot.masset_config,
            snapshot.collateral_price,
            snapshot.asset_price,
            snapshot.pair_addr,
        ),
        ExecuteMsg::Withdraw { masset_token, aim_collateral, aim_collateral_ratio } => withdraw(
            storage,
            info_sender,
            *masset_token,
            *aim_collateral,
            *aim_collateral_ratio,
            &snapshot.masset_config,
            snapshot.collateral_price,
            snapshot.asset_price,
            snapshot.pair_addr,
        ),
        ExecuteMsg::RawWithdraw { masset_token, amount } => raw_withdraw(
            storage,
            info_sender,
            *masset_token,
            *amount,
            &snapshot.masset_config,
            snapshot.collateral_price,
            snapshot.asset_price,
            snapshot.pair_addr,
        ),
        ExecuteMsg::ClosePosition { masset_token } => close_position(
            storage,
            info_sender,
            *masset_token,
            &snapshot.masset_config,
            snapshot.collateral_price,
            snapshot.asset_price,
            snapshot.pair_addr,
        ),
    }
}

/// What a query answers with.
#[derive(Debug, PartialEq)]
pub enum QueryAnswer {
    Config(Config),
    Position(Position),
    FarmersPositions(Vec<Position>),
}

/// The read-only dispatcher over the configuration and the position ledger.
pub fn query(storage: &Storage, msg: &QueryMsg) -> (r: Result<QueryAnswer, Error>)
    requires
        storage.wf(),
    ensures
        match msg {
            QueryMsg::Config {  } => r == Ok::<QueryAnswer, Error>(
                QueryAnswer::Config(storage.config),
            ),
            QueryMsg::Position { farmer_addr, masset_token } => if has_position(
                storage.positions@,
                *farmer_addr,
                *masset_token,
            ) {
                r == Ok::<QueryAnswer, Error>(
                    QueryAnswer::Position(
                        spec_position(storage.positions@, *farmer_addr, *masset_token),
                    ),
                )
            } else {
                r == Err::<QueryAnswer, Error>(Error::NoPosition)
            },
            QueryMsg::FarmersPositions { farmer_addr } => {
                &&& r matches Ok(QueryAnswer::FarmersPositions(v))
                &&& (r matches Ok(QueryAnswer::FarmersPositions(v)) ==> {
                    &&& forall|k: int|
                        0 <= k < v@.len() ==> (#[trigger] v@[k]).farmer_addr == farmer_addr
                    &&& forall|k: int|
                        0 <= k < storage.positions@.len() && (
                        #[trigger] storage.positions@[k]).farmer_addr == farmer_addr
                            ==> v@.contains(storage.positions@[k])
                })
            },
        },
{
    match msg {
        QueryMsg::Config {  } => Ok(QueryAnswer::Config(storage.config)),
        QueryMsg::Position { farmer_addr, masset_token } => {
            match may_load_position(storage, *farmer_addr, *masset_token) {
                Some(p) => Ok(QueryAnswer::Position(p)),
                None => Err(Error::NoPosition),
            }
        },
        QueryMsg::FarmersPositions { farmer_addr } => Ok(
            QueryAnswer::FarmersPositions(load_positions_by_farmer_addr(storage, *farmer_addr)),
        ),
    }
}

/// Creates the store around the supplied configuration; the ledgers start
/// empty and no job is pending.
pub fn instantiate(msg: &InstantiateMsg) -> (s: Storage)
    ensures
        s.wf(),
        s.config == (Config {
            stable_denom: msg.stable_denom,
            governance_contract: msg.governance_contract,
            mirror_mint_contract: msg.mirror_mint_contract,
            anchor_market_contract: msg.anchor_market_contract,
            aterra_addr: msg.aterra_addr,
            nexus_treasury: msg.nexus_treasury,
            protocol_fee: msg.protocol_fee,
            min_over_collateralization: msg.min_over_collateralization,
        }),
        s.positions@.len() == 0,
        s.cdps@.len() == 0,
        s.job is None,
{
    Storage::new(
        Config {
            stable_denom: msg.stable_denom,
            governance_contract: msg.governance_contract,
            mirror_mint_contract: msg.mirror_mint_contract,
            anchor_market_contract: msg.anchor_market_contract,
            aterra_addr: msg.aterra_addr,
            nexus_treasury: msg.nexus_treasury,
            protocol_fee: msg.protocol_fee,
            min_over_collateralization: msg.min_over_collateralization,
        },
    )
}

} // verus!
