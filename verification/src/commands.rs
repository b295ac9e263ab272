//! Entry points of the two state machines and their single commit points.
//! `deposit` seeds a lever-up job, `withdraw`, `raw_withdraw` and
//! `close_position` seed a lever-down job; `exit` and `return_stable` are
//! the only places a job's accumulated deltas reach the position ledger.
//!
//! Every entry point fails fast with `JobInProgress` while a job is pending,
//! and leaves the store untouched on any error.

use vstd::prelude::*;

use crate::Error;
use crate::SubmsgIds;
use crate::anchor::deposit_stable;
use crate::math::{
    Decimal, decimal_division, min_safe_collateral, min_safe_collateral_spec, min_safe_ratio,
    mul_ceil, ratio_satisfied, scale, target_loan_for_ratio,
};
use crate::mirror::MirrorAssetConfigResponse;
use crate::mirror::withdraw_collateral;
use crate::msg::{Action, Response, SubMsg};
use crate::state::{
    DepositState, Job, Position, Storage, WithdrawState, add_farmer_to_cdp, clear_job,
    farmers_after_add, farmers_after_remove, has_cdp, has_position, may_load_cdp,
    may_load_position, position_index, remove_farmer_from_cdp, remove_position,
    save_deposit_state, save_withdraw_state, spec_cdp, spec_position, upsert_delta,
};

verus! {

/// The unwind loop's iteration cap; exceeding it fails the job with
/// `UnwindDidNotConverge` instead of looping unboundedly.
pub const MAX_UNWIND_ITERATIONS: u8 = 32;

/// The deposit job held in the slot; meaningful only when the slot holds one.
pub open spec fn the_deposit(s: Storage) -> DepositState {
    s.job->Some_0->Deposit_0
}

/// The withdraw job held in the slot; meaningful only when the slot holds
/// one.
pub open spec fn the_withdraw(s: Storage) -> WithdrawState {
    s.job->Some_0->Withdraw_0
}

/// Whether the slot holds a deposit job suspended on call identifier `id`.
pub open spec fn pending_deposit(s: Storage, id: u64) -> bool {
    s.job matches Some(Job::Deposit(d)) && d.pending == id
}

/// Whether the slot holds a withdraw job suspended on call identifier `id`.
pub open spec fn pending_withdraw(s: Storage, id: u64) -> bool {
    s.job matches Some(Job::Withdraw(w)) && w.pending == id
}

/// The ledger's loan balance under a deposit job: zero until the first
/// finalization creates the record.
pub open spec fn base_loan(s: Storage, d: DepositState) -> int {
    if has_position(s.positions@, d.farmer_addr, d.masset_token) {
        spec_position(s.positions@, d.farmer_addr, d.masset_token).loan as int
    } else {
        0
    }
}

/// The ledger's collateral balance under a deposit job.
pub open spec fn base_collateral(s: Storage, d: DepositState) -> int {
    if has_position(s.positions@, d.farmer_addr, d.masset_token) {
        spec_position(s.positions@, d.farmer_addr, d.masset_token).collateral as int
    } else {
        0
    }
}

/// The position's loan as the in-flight deposit job sees it: ledger base
/// plus the job's accumulated delta.
pub open spec fn job_loan(s: Storage, d: DepositState) -> int {
    base_loan(s, d) + d.loan_delta
}

/// The position's collateral as the in-flight deposit job sees it.
pub open spec fn job_collateral(s: Storage, d: DepositState) -> int {
    base_collateral(s, d) + d.collateral_delta
}

/// Whether `aim` lies strictly above the ratio the position currently has,
/// `collateral / (loan * price)`; trivially false while the loan's value is
/// zero, where the current ratio is unbounded.
pub open spec fn aim_exceeds_current(aim: int, collateral: int, loan: int, price: int) -> bool {
    loan > 0 && price > 0 && aim * loan * price > collateral * scale() * scale()
}

fn ratio_exceeds_current(aim: &Decimal, collateral: u64, loan: u64, price: &Decimal) -> (r: bool)
    ensures
        r == aim_exceeds_current(aim.units as int, collateral as int, loan as int, price.units as int),
{
    if loan == 0 || price.units == 0 {
        return false;
    }
    proof {
        assert(scale() == 1000000000);
        crate::math::lemma_scale_square_fits(collateral as int);
        crate::math::lemma_mul_le(aim.units as int, loan as int, u64::MAX as int, u64::MAX as int);
    }
    let b: u128 = (collateral as u128) * (crate::math::DECIMAL_FRACTIONAL as u128)
        * (crate::math::DECIMAL_FRACTIONAL as u128);
    let x: u128 = (aim.units as u128) * (loan as u128);
    let q: u128 = b / (price.units as u128);
    proof {
        crate::math::lemma_mul_div_gt_iff(
            x as int,
            price.units as int,
            collateral as int * scale() * scale(),
        );
    }
    x > q
}

/// Rejects assets that are delisted, migrated, or still pre-IPO.
pub fn validate_masset(masset_config: &MirrorAssetConfigResponse) -> (r: Result<(), Error>)
    ensures
        match r {
            Ok(_) => masset_config.end_price is None && masset_config.ipo_params is None,
            Err(e) => e == Error::InvalidAsset && (masset_config.end_price is Some
                || masset_config.ipo_params is Some),
        },
{
    if masset_config.end_price.is_some() {
        return Err(Error::InvalidAsset);
    }
    if masset_config.ipo_params.is_some() {
        return Err(Error::InvalidAsset);
    }
    Ok(())
}

/// Whether the position has reached the withdraw job's aim state exactly.
pub fn is_aim_state(position: &Position, state: &WithdrawState) -> (r: bool)
    ensures
        r == (position.collateral == state.aim_collateral && position.loan == state.aim_loan),
{
    position.collateral == state.aim_collateral && position.loan == state.aim_loan
}

/// How much collateral the next redeem may release. When the aim collateral
/// lies at or above the safe bound `loan * price * safe_ratio`, one redeem
/// reaches it (the Simple unwind); when it lies below, the redeem stops at
/// the safe bound and the repurchase/burn leg must run first (the Double
/// unwind). Either way the remaining collateral never drops below the safe
/// bound.
pub fn calculate_withdraw_amount(
    collateral: u64,
    loan: u64,
    aim_collateral: u64,
    masset_price_in_collateral_asset: &Decimal,
    safe_collateral_ratio: &Decimal,
) -> (r: Result<u64, Error>)
    ensures
        ({
            let m = min_safe_collateral_spec(
                loan as int,
                masset_price_in_collateral_asset.units as int,
                safe_collateral_ratio.units as int,
            );
            match r {
                Ok(v) => {
                    &&& m <= u64::MAX
                    &&& v == if aim_collateral < m {
                        if m >= collateral {
                            0int
                        } else {
                            collateral - m
                        }
                    } else {
                        collateral - aim_collateral
                    }
                    &&& v <= collateral
                    &&& m <= collateral ==> collateral - v >= m
                },
                Err(e) => if mul_ceil(
                    loan as int,
                    masset_price_in_collateral_asset.units as int,
                ) > u64::MAX || m > u64::MAX {
                    e == Error::ArithmeticError
                } else {
                    e == Error::InvalidTarget && m <= aim_collateral && aim_collateral > collateral
                },
            }
        }),
{
    let m = match min_safe_collateral(loan, masset_price_in_collateral_asset, safe_collateral_ratio) {
        Ok(m) => m,
        Err(e) => {
            return Err(e);
        },
    };
    if aim_collateral < m {
        if m >= collateral {
            Ok(0)
        } else {
            Ok(collateral - m)
        }
    } else {
        if aim_collateral > collateral {
            Err(Error::InvalidTarget)
        } else {
            Ok(collateral - aim_collateral)
        }
    }
}

/// The total of a sequence of reported amounts.
pub open spec fn sum_amounts(amounts: Seq<u64>) -> int
    decreases amounts.len(),
{
    if amounts.len() == 0 {
        0
    } else {
        sum_amounts(amounts.drop_last()) + amounts.last()
    }
}

/// A job delta credited one completion at a time, exactly as the resume
/// handlers do.
pub open spec fn credited_delta(initial: u64, amounts: Seq<u64>) -> int
    decreases amounts.len(),
{
    if amounts.len() == 0 {
        initial as int
    } else {
        credited_delta(initial, amounts.drop_last()) + amounts.last()
    }
}

/// Delta conservation: the delta a job accumulates across its resumes is
/// exactly the sum of the amounts the completions reported, so the single
/// fold at finalization applies to the ledger precisely the total of what
/// the resumes recorded — no resume writes to the ledger itself.
pub proof fn lemma_delta_conservation(initial: u64, amounts: Seq<u64>)
    ensures
        credited_delta(initial, amounts) == initial + sum_amounts(amounts),
    decreases amounts.len(),
{
    if amounts.len() > 0 {
        lemma_delta_conservation(initial, amounts.drop_last());
    }
}

/// The ladder parameters a deposit runs under: an existing position's stored
/// ratio, or the freshly supplied one.
pub open spec fn effective_aim_ratio(
    s: Storage,
    farmer_addr: u64,
    masset_token: u64,
    aim_collateral_ratio: Decimal,
) -> Decimal {
    if has_position(s.positions@, farmer_addr, masset_token) {
        spec_position(s.positions@, farmer_addr, masset_token).aim_collateral_ratio
    } else {
        aim_collateral_ratio
    }
}

/// The iteration target a deposit runs under: an existing position's stored
/// ladder height, or the freshly supplied one.
pub open spec fn effective_leverage(
    s: Storage,
    farmer_addr: u64,
    masset_token: u64,
    leverage: Option<u8>,
) -> u8 {
    if has_position(s.positions@, farmer_addr, masset_token) {
        spec_position(s.positions@, farmer_addr, masset_token).leverage
    } else {
        leverage->Some_0
    }
}

/// The debt facility a deposit will use, when one is already known.
pub open spec fn effective_cdp_idx(s: Storage, farmer_addr: u64, masset_token: u64) -> Option<u64> {
    if has_position(s.positions@, farmer_addr, masset_token) {
        Some(spec_position(s.positions@, farmer_addr, masset_token).cdp_idx)
    } else if has_cdp(s.cdps@, masset_token) {
        Some(spec_cdp(s.cdps@, masset_token).idx)
    } else {
        None
    }
}

/// The exact transition of the lever-up entry: everything `deposit`
/// validates, seeds and returns, for every input.
pub open spec fn deposit_post(
    pre: Storage,
    post: Storage,
    info_sender: u64,
    masset_token: u64,
    leverage: Option<u8>,
    aim_collateral_ratio: Decimal,
    deposit_amount: u64,
    masset_config: MirrorAssetConfigResponse,
    collateral_price: Decimal,
    asset_price: Decimal,
    pair_addr: u64,
    r: Result<Response, Error>,
) -> bool {
    &&& post.config == pre.config
    &&& post.positions == pre.positions
    &&& post.cdps == pre.cdps
    &&& ({
            let price_units = crate::math::div_floor(
                collateral_price.units as int,
                asset_price.units as int,
            );
            let min_units = mul_ceil(
                masset_config.min_collateral_ratio.units as int,
                pre.config.min_over_collateralization.units as int,
            );
            let known = has_position(pre.positions@, info_sender, masset_token);
            let eff_ratio = effective_aim_ratio(
                pre,
                info_sender,
                masset_token,
                aim_collateral_ratio,
            );
            let eff_leverage = effective_leverage(
                pre,
                info_sender,
                masset_token,
                leverage,
            );
            match r {
                Ok(resp) => {
                    &&& pre.job is None
                    &&& asset_price.units > 0
                    // The request passed every validation of the lever-up entry.
                    &&& eff_ratio.units >= min_units
                    &&& deposit_amount > 0
                    &&& masset_config.end_price is None
                    &&& masset_config.ipo_params is None
                    &&& (known || (leverage matches Some(l) && 1 <= l <= 5))
                    &&& post.job == Some(
                        Job::Deposit(
                            DepositState {
                                farmer_addr: info_sender,
                                masset_token,
                                leverage: eff_leverage,
                                cur_iteration_index: 0,
                                asset_price_in_collateral_asset: Decimal {
                                    units: price_units as u64,
                                },
                                pair_addr,
                                aim_collateral_ratio: eff_ratio,
                                cdp_idx: effective_cdp_idx(
                                    pre,
                                    info_sender,
                                    masset_token,
                                ),
                                loan_delta: 0,
                                collateral_delta: 0,
                                pending: SubmsgIds::DepositStable.spec_id(),
                            },
                        ),
                    )
                    &&& resp == (Response {
                        submsg: Some(
                            SubMsg {
                                action: Action::DepositStable {
                                    market: pre.config.anchor_market_contract,
                                    stable_denom: pre.config.stable_denom,
                                    amount: deposit_amount,
                                },
                                reply_id: SubmsgIds::DepositStable.spec_id(),
                            },
                        ),
                        message: None,
                    })
                },
                Err(e) => {
                    &&& post.job == pre.job
                    &&& if pre.job is Some {
                        e == Error::JobInProgress
                    } else if asset_price.units == 0 {
                        e == Error::DivideByZero
                    } else if price_units > u64::MAX {
                        e == Error::ArithmeticError
                    } else if min_units > u64::MAX {
                        e == Error::ArithmeticError
                    } else if eff_ratio.units < min_units {
                        e == Error::RatioTooLow
                    } else if deposit_amount == 0 {
                        e == Error::ZeroAmount
                    } else if masset_config.end_price is Some || masset_config.ipo_params is Some {
                        e == Error::InvalidAsset
                    } else if !known && leverage is None {
                        e == Error::NoPosition
                    } else if !known && !(1 <= leverage->Some_0 <= 5) {
                        e == Error::InvalidLeverage
                    } else {
                        false
                    }
                },
            }
    })
}

/// Starts a lever-up: validates the request, seeds the deposit job and
/// issues the first lending-market call. A deposit onto an existing position
/// reuses the stored ladder parameters and ignores freshly supplied ones;
/// opening a new ladder requires a leverage between 1 and 5. The job is
/// persisted before the call goes out, and nothing else changes until
/// finalization.
pub fn deposit(
    storage: &mut Storage,
    info_sender: u64,
    masset_token: u64,
    leverage: Option<u8>,
    aim_collateral_ratio: Decimal,
    deposit_amount: u64,
    masset_config: &MirrorAssetConfigResponse,
    collateral_price: Decimal,
    asset_price: Decimal,
    pair_addr: u64,
) -> (r: Result<Response, Error>)
    requires
        old(storage).wf(),
    ensures
        final(storage).wf(),
        deposit_post(
            *old(storage),
            *final(storage),
            info_sender,
            masset_token,
            leverage,
            aim_collateral_ratio,
            deposit_amount,
            *masset_config,
            collateral_price,
            asset_price,
            pair_addr,
            r,
        ),
{
    if storage.job.is_some() {
        return Err(Error::JobInProgress);
    }
    let asset_price_in_collateral_asset = match decimal_division(collateral_price, asset_price) {
        Ok(d) => d,
        Err(e) => {
            return Err(e);
        },
    };
    let min_collateral_ratio = match min_safe_ratio(
        &masset_config.min_collateral_ratio,
        &storage.config.min_over_collateralization,
    ) {
        Ok(d) => d,
        Err(e) => {
            return Err(e);
        },
    };
    let existing = may_load_position(storage, info_sender, masset_token);
    let eff_ratio = match &existing {
        Some(p) => p.aim_collateral_ratio,
        None => aim_collateral_ratio,
    };
    if eff_ratio.units < min_collateral_ratio.units {
        return Err(Error::RatioTooLow);
    }
    if deposit_amount == 0 {
        return Err(Error::ZeroAmount);
    }
    match validate_masset(masset_config) {
        Ok(_) => {},
        Err(e) => {
            return Err(e);
        },
    }
    let (eff_leverage, eff_cdp_idx): (u8, Option<u64>) = match &existing {
        Some(p) => (p.leverage, Some(p.cdp_idx)),
        None => {
            let lv = match leverage {
                Some(lv) => lv,
                None => {
                    return Err(Error::NoPosition);
                },
            };
            if lv < 1 || lv > 5 {
                return Err(Error::InvalidLeverage);
            }
            let cdp_idx = match may_load_cdp(storage, masset_token) {
                Some(c) => Some(c.idx),
                None => None,
            };
            (lv, cdp_idx)
        },
    };
    let state = DepositState {
        farmer_addr: info_sender,
        masset_token,
        leverage: eff_leverage,
        cur_iteration_index: 0,
        asset_price_in_collateral_asset,
        pair_addr,
        aim_collateral_ratio: eff_ratio,
        cdp_idx: eff_cdp_idx,
        loan_delta: 0,
        collateral_delta: 0,
        pending: SubmsgIds::DepositStable.id(),
    };
    save_deposit_state(storage, &state);
    Ok(deposit_stable(&storage.config, deposit_amount))
}

/// The exact transition of the lever-down entry: everything `withdraw`
/// validates, seeds and returns, for every input.
pub open spec fn withdraw_post(
    pre: Storage,
    post: Storage,
    info_sender: u64,
    masset_token: u64,
    aim_collateral: u64,
    aim_collateral_ratio: Decimal,
    masset_config: MirrorAssetConfigResponse,
    collateral_price: Decimal,
    masset_price: Decimal,
    pair_addr: u64,
    r: Result<Response, Error>,
) -> bool {
    &&& post.config == pre.config
    &&& post.positions == pre.positions
    &&& post.cdps == pre.cdps
    &&& ({
            let pos = spec_position(pre.positions@, info_sender, masset_token);
            let known = has_position(pre.positions@, info_sender, masset_token);
            let safe_units = mul_ceil(
                masset_config.min_collateral_ratio.units as int,
                pre.config.min_over_collateralization.units as int,
            );
            let price_units = crate::math::div_floor(
                collateral_price.units as int,
                masset_price.units as int,
            );
            let aim_loan = (aim_collateral * scale()) / mul_ceil(
                aim_collateral_ratio.units as int,
                price_units,
            );
            let m = min_safe_collateral_spec(pos.loan as int, price_units, safe_units);
            let amount = if aim_collateral < m {
                if m >= pos.collateral {
                    0int
                } else {
                    pos.collateral - m
                }
            } else {
                pos.collateral - aim_collateral
            };
            match r {
                Ok(resp) => {
                    &&& pre.job is None
                    &&& known
                    &&& aim_collateral <= pos.collateral
                    // The aim ratio sits between the safe floor and the
                    // position's current ratio: the unwinder only reduces
                    // leverage.
                    &&& aim_collateral_ratio.units >= safe_units
                    &&& !aim_exceeds_current(
                        aim_collateral_ratio.units as int,
                        pos.collateral as int,
                        pos.loan as int,
                        price_units,
                    )
                    &&& masset_price.units > 0
                    &&& post.job == Some(
                        Job::Withdraw(
                            WithdrawState {
                                is_raw: false,
                                farmer_addr: info_sender,
                                masset_token,
                                aim_collateral,
                                aim_loan: aim_loan as u64,
                                pair_addr,
                                collateral_price,
                                masset_price,
                                safe_collateral_ratio: Decimal { units: safe_units as u64 },
                                loan_delta: 0,
                                collateral_delta: 0,
                                unwind_iterations: 0,
                                pending: SubmsgIds::WithdrawCollateral.spec_id(),
                            },
                        ),
                    )
                    &&& resp == (Response {
                        submsg: Some(
                            SubMsg {
                                action: Action::WithdrawCollateral {
                                    mirror_mint: pre.config.mirror_mint_contract,
                                    aterra_addr: pre.config.aterra_addr,
                                    cdp_idx: pos.cdp_idx,
                                    amount: amount as u64,
                                },
                                reply_id: SubmsgIds::WithdrawCollateral.spec_id(),
                            },
                        ),
                        message: None,
                    })
                    // The first redeem keeps the position at or above the safe bound.
                    &&& m <= pos.collateral ==> pos.collateral - amount >= m
                },
                Err(e) => {
                    &&& post.job == pre.job
                    &&& if pre.job is Some {
                        e == Error::JobInProgress
                    } else if !known {
                        e == Error::NoPosition
                    } else if aim_collateral > pos.collateral {
                        e == Error::InvalidTarget
                    } else if safe_units > u64::MAX {
                        e == Error::ArithmeticError
                    } else if aim_collateral_ratio.units < safe_units {
                        e == Error::RatioTooLow
                    } else if masset_price.units == 0 {
                        e == Error::DivideByZero
                    } else if price_units > u64::MAX {
                        e == Error::ArithmeticError
                    } else if aim_exceeds_current(
                        aim_collateral_ratio.units as int,
                        pos.collateral as int,
                        pos.loan as int,
                        price_units,
                    ) {
                        e == Error::RatioIncreaseUnsupported
                    } else if aim_collateral_ratio.units * price_units == 0 {
                        e == Error::DivideByZero
                    } else if aim_loan > u64::MAX {
                        e == Error::ArithmeticError
                    } else if mul_ceil(pos.loan as int, price_units) > u64::MAX || m > u64::MAX {
                        e == Error::ArithmeticError
                    } else {
                        false
                    }
                },
            }
    })
}

/// Starts a lever-down toward `aim_collateral` at `aim_collateral_ratio`:
/// validates the aim against the position's current state and the safe
/// floor, seeds the withdraw job and issues the first redeem-collateral
/// call. That first redeem never takes the remaining collateral below the
/// safe bound `loan * price * safe_ratio`; when the aim lies below that
/// bound, the repurchase/burn leg must run before the rest is released.
pub fn withdraw(
    storage: &mut Storage,
    info_sender: u64,
    masset_token: u64,
    aim_collateral: u64,
    aim_collateral_ratio: Decimal,
    masset_config: &MirrorAssetConfigResponse,
    collateral_price: Decimal,
    masset_price: Decimal,
    pair_addr: u64,
) -> (r: Result<Response, Error>)
    requires
        old(storage).wf(),
    ensures
        final(storage).wf(),
        withdraw_post(
            *old(storage),
            *final(storage),
            info_sender,
            masset_token,
            aim_collateral,
            aim_collateral_ratio,
            *masset_config,
            collateral_price,
            masset_price,
            pair_addr,
            r,
        ),
{
    if storage.job.is_some() {
        return Err(Error::JobInProgress);
    }
    let position = match may_load_position(storage, info_sender, masset_token) {
        Some(p) => p,
        None => {
            return Err(Error::NoPosition);
        },
    };
    if aim_collateral > position.collateral {
        return Err(Error::InvalidTarget);
    }
    let safe_collateral_ratio = match min_safe_ratio(
        &masset_config.min_collateral_ratio,
        &storage.config.min_over_collateralization,
    ) {
        Ok(d) => d,
        Err(e) => {
            return Err(e);
        },
    };
    if aim_collateral_ratio.units < safe_collateral_ratio.units {
        return Err(Error::RatioTooLow);
    }
    let masset_price_in_collateral_asset = match decimal_division(collateral_price, masset_price) {
        Ok(d) => d,
        Err(e) => {
            return Err(e);
        },
    };
    if ratio_exceeds_current(
        &aim_collateral_ratio,
        position.collateral,
        position.loan,
        &masset_price_in_collateral_asset,
    ) {
        return Err(Error::RatioIncreaseUnsupported);
    }
    let aim_loan = match target_loan_for_ratio(
        aim_collateral,
        &aim_collateral_ratio,
        &masset_price_in_collateral_asset,
    ) {
        Ok(v) => v,
        Err(e) => {
            return Err(e);
        },
    };
    let amount_to_withdraw = match calculate_withdraw_amount(
        position.collateral,
        position.loan,
        aim_collateral,
        &masset_price_in_collateral_asset,
        &safe_collateral_ratio,
    ) {
        Ok(v) => v,
        Err(e) => {
            return Err(e);
        },
    };
    let state = WithdrawState {
        is_raw: false,
        farmer_addr: info_sender,
        masset_token,
        aim_collateral,
        aim_loan,
        pair_addr,
        collateral_price,
        masset_price,
        safe_collateral_ratio,
        loan_delta: 0,
        collateral_delta: 0,
        unwind_iterations: 0,
        pending: SubmsgIds::WithdrawCollateral.id(),
    };
    save_withdraw_state(storage, &state);
    Ok(withdraw_collateral(&storage.config, position.cdp_idx, amount_to_withdraw))
}

/// The exact transition of the raw lever-down entry.
pub open spec fn raw_withdraw_post(
    pre: Storage,
    post: Storage,
    info_sender: u64,
    masset_token: u64,
    amount: u64,
    masset_config: MirrorAssetConfigResponse,
    collateral_price: Decimal,
    masset_price: Decimal,
    pair_addr: u64,
    r: Result<Response, Error>,
) -> bool {
    &&& post.config == pre.config
    &&& post.positions == pre.positions
    &&& post.cdps == pre.cdps
    &&& ({
            let pos = spec_position(pre.positions@, info_sender, masset_token);
            let known = has_position(pre.positions@, info_sender, masset_token);
            let safe_units = mul_ceil(
                masset_config.min_collateral_ratio.units as int,
                pre.config.min_over_collateralization.units as int,
            );
            let price_units = crate::math::div_floor(
                collateral_price.units as int,
                masset_price.units as int,
            );
            let m = min_safe_collateral_spec(pos.loan as int, price_units, safe_units);
            let m_aim = min_safe_collateral_spec(
                pos.loan as int,
                price_units,
                pos.aim_collateral_ratio.units as int,
            );
            match r {
                Ok(resp) => {
                    &&& pre.job is None
                    &&& known
                    &&& amount <= pos.collateral
                    &&& m <= amount
                    &&& m_aim <= amount
                    &&& post.job == Some(
                        Job::Withdraw(
                            WithdrawState {
                                is_raw: true,
                                farmer_addr: info_sender,
                                masset_token,
                                aim_collateral: amount,
                                aim_loan: 0,
                                pair_addr,
                                collateral_price,
                                masset_price,
                                safe_collateral_ratio: Decimal { units: safe_units as u64 },
                                loan_delta: 0,
                                collateral_delta: 0,
                                unwind_iterations: 0,
                                pending: SubmsgIds::WithdrawCollateral.spec_id(),
                            },
                        ),
                    )
                    &&& resp == (Response {
                        submsg: Some(
                            SubMsg {
                                action: Action::WithdrawCollateral {
                                    mirror_mint: pre.config.mirror_mint_contract,
                                    aterra_addr: pre.config.aterra_addr,
                                    cdp_idx: pos.cdp_idx,
                                    amount: (pos.collateral - amount) as u64,
                                },
                                reply_id: SubmsgIds::WithdrawCollateral.spec_id(),
                            },
                        ),
                        message: None,
                    })
                },
                Err(e) => {
                    &&& post.job == pre.job
                    &&& if pre.job is Some {
                        e == Error::JobInProgress
                    } else if !known {
                        e == Error::NoPosition
                    } else if amount > pos.collateral {
                        e == Error::InvalidTarget
                    } else if masset_price.units == 0 {
                        e == Error::DivideByZero
                    } else if price_units > u64::MAX {
                        e == Error::ArithmeticError
                    } else if safe_units > u64::MAX {
                        e == Error::ArithmeticError
                    } else if mul_ceil(pos.loan as int, price_units) > u64::MAX || m > u64::MAX {
                        e == Error::ArithmeticError
                    } else if amount < m {
                        e == Error::InvalidTarget
                    } else if m_aim > u64::MAX {
                        e == Error::ArithmeticError
                    } else if amount < m_aim {
                        e == Error::InvalidTarget
                    } else {
                        false
                    }
                },
            }
    })
}

/// Starts a raw lever-down: redeems collateral down to `amount` and returns
/// the proceeds without repurchasing any debt. Refused when the remainder
/// would no longer cover the loan's value at the safe ratio, or would cross
/// below the position's own declared target ratio.
pub fn raw_withdraw(
    storage: &mut Storage,
    info_sender: u64,
    masset_token: u64,
    amount: u64,
    masset_config: &MirrorAssetConfigResponse,
    collateral_price: Decimal,
    masset_price: Decimal,
    pair_addr: u64,
) -> (r: Result<Response, Error>)
    requires
        old(storage).wf(),
    ensures
        final(storage).wf(),
        raw_withdraw_post(
            *old(storage),
            *final(storage),
            info_sender,
            masset_token,
            amount,
            *masset_config,
            collateral_price,
            masset_price,
            pair_addr,
            r,
        ),
{
    if storage.job.is_some() {
        return Err(Error::JobInProgress);
    }
    let position = match may_load_position(storage, info_sender, masset_token) {
        Some(p) => p,
        None => {
            return Err(Error::NoPosition);
        },
    };
    if amount > position.collateral {
        return Err(Error::InvalidTarget);
    }
    let masset_price_in_collateral_asset = match decimal_division(collateral_price, masset_price) {
        Ok(d) => d,
        Err(e) => {
            return Err(e);
        },
    };
    let safe_collateral_ratio = match min_safe_ratio(
        &masset_config.min_collateral_ratio,
        &storage.config.min_over_collateralization,
    ) {
        Ok(d) => d,
        Err(e) => {
            return Err(e);
        },
    };
    let min_safe = match min_safe_collateral(
        position.loan,
        &masset_price_in_collateral_asset,
        &safe_collateral_ratio,
    ) {
        Ok(v) => v,
        Err(e) => {
            return Err(e);
        },
    };
    if amount < min_safe {
        return Err(Error::InvalidTarget);
    }
    let min_aim = match min_safe_collateral(
        position.loan,
        &masset_price_in_collateral_asset,
        &position.aim_collateral_ratio,
    ) {
        Ok(v) => v,
        Err(e) => {
            return Err(e);
        },
    };
    if amount < min_aim {
        return Err(Error::InvalidTarget);
    }
    let state = WithdrawState {
        is_raw: true,
        farmer_addr: info_sender,
        masset_token,
        aim_collateral: amount,
        aim_loan: 0,
        pair_addr,
        collateral_price,
        masset_price,
        safe_collateral_ratio,
        loan_delta: 0,
        collateral_delta: 0,
        unwind_iterations: 0,
        pending: SubmsgIds::WithdrawCollateral.id(),
    };
    save_withdraw_state(storage, &state);
    Ok(withdraw_collateral(&storage.config, position.cdp_idx, position.collateral - amount))
}

/// The exact transition of the full-unwind entry.
pub open spec fn close_position_post(
    pre: Storage,
    post: Storage,
    info_sender: u64,
    masset_token: u64,
    masset_config: MirrorAssetConfigResponse,
    collateral_price: Decimal,
    masset_price: Decimal,
    pair_addr: u64,
    r: Result<Response, Error>,
) -> bool {
    &&& post.config == pre.config
    &&& post.positions == pre.positions
    &&& post.cdps == pre.cdps
    &&& ({
            let pos = spec_position(pre.positions@, info_sender, masset_token);
            let known = has_position(pre.positions@, info_sender, masset_token);
            let safe_units = mul_ceil(
                masset_config.min_collateral_ratio.units as int,
                pre.config.min_over_collateralization.units as int,
            );
            let price_units = crate::math::div_floor(
                collateral_price.units as int,
                masset_price.units as int,
            );
            let m = min_safe_collateral_spec(pos.loan as int, price_units, safe_units);
            let amount = if 0 < m {
                if m >= pos.collateral {
                    0int
                } else {
                    pos.collateral - m
                }
            } else {
                pos.collateral as int
            };
            match r {
                Ok(resp) => {
                    &&& pre.job is None
                    &&& known
                    &&& post.job == Some(
                        Job::Withdraw(
                            WithdrawState {
                                is_raw: false,
                                farmer_addr: info_sender,
                                masset_token,
                                aim_collateral: 0,
                                aim_loan: 0,
                                pair_addr,
                                collateral_price,
                                masset_price,
                                safe_collateral_ratio: Decimal { units: safe_units as u64 },
                                loan_delta: 0,
                                collateral_delta: 0,
                                unwind_iterations: 0,
                                pending: SubmsgIds::WithdrawCollateral.spec_id(),
                            },
                        ),
                    )
                    &&& resp == (Response {
                        submsg: Some(
                            SubMsg {
                                action: Action::WithdrawCollateral {
                                    mirror_mint: pre.config.mirror_mint_contract,
                                    aterra_addr: pre.config.aterra_addr,
                                    cdp_idx: pos.cdp_idx,
                                    amount: amount as u64,
                                },
                                reply_id: SubmsgIds::WithdrawCollateral.spec_id(),
                            },
                        ),
                        message: None,
                    })
                    // The first redeem keeps the position at or above the safe bound.
                    &&& m <= pos.collateral ==> pos.collateral - amount >= m
                },
                Err(e) => {
                    &&& post.job == pre.job
                    &&& if pre.job is Some {
                        e == Error::JobInProgress
                    } else if !known {
                        e == Error::NoPosition
                    } else if masset_price.units == 0 {
                        e == Error::DivideByZero
                    } else if price_units > u64::MAX {
                        e == Error::ArithmeticError
                    } else if safe_units > u64::MAX {
                        e == Error::ArithmeticError
                    } else if mul_ceil(pos.loan as int, price_units) > u64::MAX || m > u64::MAX {
                        e == Error::ArithmeticError
                    } else {
                        false
                    }
                },
            }
    })
}

/// Starts a full unwind to zero collateral: seeds a withdraw job whose aim
/// state is empty and issues the first redeem. With an outstanding loan the
/// first redeem stops at the safe bound and the repurchase/burn loop brings
/// the loan to zero; finalization then removes the position and its
/// facility-participant entry.
pub fn close_position(
    storage: &mut Storage,
    info_sender: u64,
    masset_token: u64,
    masset_config: &MirrorAssetConfigResponse,
    collateral_price: Decimal,
    masset_price: Decimal,
    pair_addr: u64,
) -> (r: Result<Response, Error>)
    requires
        old(storage).wf(),
    ensures
        final(storage).wf(),
        close_position_post(
            *old(storage),
            *final(storage),
            info_sender,
            masset_token,
            *masset_config,
            collateral_price,
            masset_price,
            pair_addr,
            r,
        ),
{
    if storage.job.is_some() {
        return Err(Error::JobInProgress);
    }
    let position = match may_load_position(storage, info_sender, masset_token) {
        Some(p) => p,
        None => {
            return Err(Error::NoPosition);
        },
    };
    let masset_price_in_collateral_asset = match decimal_division(collateral_price, masset_price) {
        Ok(d) => d,
        Err(e) => {
            return Err(e);
        },
    };
    let safe_collateral_ratio = match min_safe_ratio(
        &masset_config.min_collateral_ratio,
        &storage.config.min_over_collateralization,
    ) {
        Ok(d) => d,
        Err(e) => {
            return Err(e);
        },
    };
    let amount_to_withdraw = match calculate_withdraw_amount(
        position.collateral,
        position.loan,
        0,
        &masset_price_in_collateral_asset,
        &safe_collateral_ratio,
    ) {
        Ok(v) => v,
        Err(e) => {
            return Err(e);
        },
    };
    let state = WithdrawState {
        is_raw: false,
        farmer_addr: info_sender,
        masset_token,
        aim_collateral: 0,
        aim_loan: 0,
        pair_addr,
        collateral_price,
        masset_price,
        safe_collateral_ratio,
        loan_delta: 0,
        collateral_delta: 0,
        unwind_iterations: 0,
        pending: SubmsgIds::WithdrawCollateral.id(),
    };
    save_withdraw_state(storage, &state);
    Ok(withdraw_collateral(&storage.config, position.cdp_idx, amount_to_withdraw))
}

/// The exact transition of the deposit finalizer: the fold, the ratio
/// guard, the participant registration and the cleared slot, or the exact
/// error with the store untouched.
pub open spec fn exit_post(pre: Storage, post: Storage, r: Result<Response, Error>) -> bool {
    &&& post.config == pre.config
    &&& ({
            let d = the_deposit(pre);
            let nl = base_loan(pre, d) + d.loan_delta;
            let nc = base_collateral(pre, d) + d.collateral_delta;
            let m = min_safe_collateral_spec(
                nl,
                d.asset_price_in_collateral_asset.units as int,
                d.aim_collateral_ratio.units as int,
            );
            let known = has_position(pre.positions@, d.farmer_addr, d.masset_token);
            let folded = if known {
                Position {
                    loan: nl as u64,
                    collateral: nc as u64,
                    ..spec_position(pre.positions@, d.farmer_addr, d.masset_token)
                }
            } else {
                Position {
                    farmer_addr: d.farmer_addr,
                    masset_token: d.masset_token,
                    cdp_idx: d.cdp_idx->Some_0,
                    leverage: d.leverage,
                    loan: nl as u64,
                    collateral: nc as u64,
                    aim_collateral_ratio: d.aim_collateral_ratio,
                }
            };
            match r {
                Ok(resp) => {
                    &&& pending_deposit(pre, SubmsgIds::Exit.spec_id())
                    &&& d.cdp_idx is Some
                    &&& nl <= u64::MAX
                    &&& nc <= u64::MAX
                    &&& m <= nc
                    // The monotonic ratio invariant holds of the committed position.
                    &&& ratio_satisfied(
                        nc,
                        nl,
                        d.asset_price_in_collateral_asset.units as int,
                        d.aim_collateral_ratio.units as int,
                    )
                    &&& if known {
                        post.positions@ == pre.positions@.update(
                            position_index(pre.positions@, d.farmer_addr, d.masset_token),
                            folded,
                        )
                    } else {
                        post.positions@ == pre.positions@.push(folded)
                    }
                    &&& has_position(post.positions@, d.farmer_addr, d.masset_token)
                    &&& spec_position(post.positions@, d.farmer_addr, d.masset_token)
                        == folded
                    &&& has_cdp(post.cdps@, d.masset_token)
                    &&& if has_cdp(pre.cdps@, d.masset_token) {
                        &&& post.cdps@.len() == pre.cdps@.len()
                        &&& spec_cdp(post.cdps@, d.masset_token).idx == spec_cdp(
                            pre.cdps@,
                            d.masset_token,
                        ).idx
                        &&& spec_cdp(post.cdps@, d.masset_token).farmers@
                            == farmers_after_add(
                            spec_cdp(pre.cdps@, d.masset_token).farmers@,
                            d.farmer_addr,
                        )
                    } else {
                        &&& post.cdps@.len() == pre.cdps@.len() + 1
                        &&& spec_cdp(post.cdps@, d.masset_token).idx == d.cdp_idx->Some_0
                        &&& spec_cdp(post.cdps@, d.masset_token).farmers@ == seq![
                            d.farmer_addr,
                        ]
                    }
                    &&& spec_cdp(post.cdps@, d.masset_token).farmers@.contains(
                        d.farmer_addr,
                    )
                    &&& post.job is None
                    &&& resp == (Response { submsg: None, message: None })
                },
                Err(e) => {
                    &&& post == pre
                    &&& if !pending_deposit(pre, SubmsgIds::Exit.spec_id()) {
                        e == Error::UnexpectedCompletion
                    } else if d.cdp_idx is None {
                        e == Error::InvalidState
                    } else if nl > u64::MAX || nc > u64::MAX {
                        e == Error::ArithmeticError
                    } else if mul_ceil(nl, d.asset_price_in_collateral_asset.units as int)
                        > u64::MAX || m > u64::MAX {
                        e == Error::ArithmeticError
                    } else if m > nc {
                        e == Error::InvalidState
                    } else {
                        false
                    }
                },
            }
    })
}

/// Finalizes a completed deposit ladder: folds the job's accumulated deltas
/// into the position ledger (creating the record on a first deposit),
/// registers the owner as a facility participant, and clears the job slot.
/// This is the single commit point of the lever-up machine; nothing reaches
/// the ledger before it. The folded position must still satisfy its declared
/// ratio at the job's price snapshot — a violation is a fatal internal
/// error, never silently accepted.
pub fn exit(storage: &mut Storage) -> (r: Result<Response, Error>)
    requires
        old(storage).wf(),
    ensures
        final(storage).wf(),
        exit_post(*old(storage), *final(storage), r),
{
    let d = match crate::state::load_deposit_state(storage) {
        Ok(d) => d,
        Err(e) => {
            return Err(e);
        },
    };
    if d.pending != SubmsgIds::Exit.id() {
        return Err(Error::UnexpectedCompletion);
    }
    let cdp_idx = match d.cdp_idx {
        Some(idx) => idx,
        None => {
            return Err(Error::InvalidState);
        },
    };
    let (base_l, base_c): (u64, u64) = match may_load_position(storage, d.farmer_addr, d.masset_token) {
        Some(p) => (p.loan, p.collateral),
        None => (0, 0),
    };
    let nl128: u128 = (base_l as u128) + (d.loan_delta as u128);
    let nc128: u128 = (base_c as u128) + (d.collateral_delta as u128);
    if nl128 > u64::MAX as u128 || nc128 > u64::MAX as u128 {
        return Err(Error::ArithmeticError);
    }
    let nl = nl128 as u64;
    let nc = nc128 as u64;
    let m = match min_safe_collateral(
        nl,
        &d.asset_price_in_collateral_asset,
        &d.aim_collateral_ratio,
    ) {
        Ok(v) => v,
        Err(e) => {
            return Err(e);
        },
    };
    if m > nc {
        return Err(Error::InvalidState);
    }
    proof {
        assert(nc as int * 1000000000 * 1000000000 >= m as int * 1000000000 * 1000000000)
            by (nonlinear_arith)
            requires
                m <= nc;
        assert(scale() == 1000000000);
    }
    let defaults = Position {
        farmer_addr: d.farmer_addr,
        masset_token: d.masset_token,
        cdp_idx,
        leverage: d.leverage,
        loan: 0,
        collateral: 0,
        aim_collateral_ratio: d.aim_collateral_ratio,
    };
    match upsert_delta(
        storage,
        d.farmer_addr,
        d.masset_token,
        d.loan_delta as i128,
        d.collateral_delta as i128,
        &defaults,
    ) {
        Ok(_) => {},
        Err(_) => {
            return Err(Error::ArithmeticError);
        },
    }
    add_farmer_to_cdp(storage, cdp_idx, d.farmer_addr, d.masset_token);
    proof {
        let fs = spec_cdp(storage.cdps@, d.masset_token).farmers@;
        if has_cdp(old(storage).cdps@, d.masset_token) {
            crate::state::lemma_farmers_after_add_idempotent(
                spec_cdp(old(storage).cdps@, d.masset_token).farmers@,
                d.farmer_addr,
            );
        } else {
            assert(fs[0] == d.farmer_addr);
            assert(fs.contains(d.farmer_addr));
        }
    }
    clear_job(storage);
    Ok(Response { submsg: None, message: None })
}

/// Finalizes a withdrawal: folds the job's accumulated decreases into the
/// position ledger, clears the job slot, and sends the contract's whole
/// stable balance to the owner. A position whose collateral reached zero is
/// removed together with its facility-participant entry. This is the single
/// commit point of the lever-down machine. The remaining position must
/// still satisfy its declared ratio at the job's price snapshot — a
/// violation is a fatal internal error, never silently accepted.
/// What a successful withdraw finalization guarantees: deltas folded
/// exactly once, the declared ratio respected at the job's price snapshot,
/// a zero-collateral position removed together with its participant entry,
/// the job slot cleared, and the whole stable balance sent to the owner.
pub open spec fn withdraw_finalized(
    pre: Storage,
    post: Storage,
    stable_balance: u64,
    resp: Response,
) -> bool {
    let w = the_withdraw(pre);
    let known = has_position(pre.positions@, w.farmer_addr, w.masset_token);
    let pos = spec_position(pre.positions@, w.farmer_addr, w.masset_token);
    let nl = pos.loan - w.loan_delta;
    let nc = pos.collateral - w.collateral_delta;
    let price_units = crate::math::div_floor(
        w.collateral_price.units as int,
        w.masset_price.units as int,
    );
    let m = min_safe_collateral_spec(nl, price_units, pos.aim_collateral_ratio.units as int);
    &&& pre.job matches Some(Job::Withdraw(_))
    &&& known
    &&& w.loan_delta <= pos.loan
    &&& w.collateral_delta <= pos.collateral
    &&& w.masset_price.units > 0
    &&& m <= nc
    &&& ratio_satisfied(nc, nl, price_units, pos.aim_collateral_ratio.units as int)
    &&& if nc == 0 {
        &&& post.positions@ == pre.positions@.remove(
            position_index(pre.positions@, w.farmer_addr, w.masset_token),
        )
        &&& !has_position(post.positions@, w.farmer_addr, w.masset_token)
        &&& has_cdp(pre.cdps@, w.masset_token)
        &&& spec_cdp(post.cdps@, w.masset_token).farmers@ == farmers_after_remove(
            spec_cdp(pre.cdps@, w.masset_token).farmers@,
            w.farmer_addr,
        )
        &&& !spec_cdp(post.cdps@, w.masset_token).farmers@.contains(w.farmer_addr)
    } else {
        &&& post.positions@ == pre.positions@.update(
            position_index(pre.positions@, w.farmer_addr, w.masset_token),
            Position { loan: nl as u64, collateral: nc as u64, ..pos },
        )
        &&& post.cdps == pre.cdps
    }
    &&& post.job is None
    &&& resp == (Response {
        submsg: None,
        message: Some(
            Action::Send {
                recipient: w.farmer_addr,
                stable_denom: pre.config.stable_denom,
                amount: stable_balance,
            },
        ),
    })
}

/// Which error a withdraw finalization fails with, on the state it was
/// attempted against.
pub open spec fn withdraw_finalize_fails_with(pre: Storage, e: Error) -> bool {
    let w = the_withdraw(pre);
    let known = has_position(pre.positions@, w.farmer_addr, w.masset_token);
    let pos = spec_position(pre.positions@, w.farmer_addr, w.masset_token);
    let nl = pos.loan - w.loan_delta;
    let nc = pos.collateral - w.collateral_delta;
    let price_units = crate::math::div_floor(
        w.collateral_price.units as int,
        w.masset_price.units as int,
    );
    let m = min_safe_collateral_spec(nl, price_units, pos.aim_collateral_ratio.units as int);
    if !(pre.job matches Some(Job::Withdraw(_))) {
        e == Error::UnexpectedCompletion
    } else if !known {
        e == Error::NoPosition
    } else if w.loan_delta > pos.loan || w.collateral_delta > pos.collateral {
        e == Error::ArithmeticError
    } else if w.masset_price.units == 0 {
        e == Error::DivideByZero
    } else if price_units > u64::MAX {
        e == Error::ArithmeticError
    } else if mul_ceil(nl, price_units) > u64::MAX || m > u64::MAX {
        e == Error::ArithmeticError
    } else if m > nc {
        e == Error::InvalidState
    } else if nc == 0 && !has_cdp(pre.cdps@, w.masset_token) {
        e == Error::NoCdp
    } else {
        false
    }
}

/// Round-trip residue: a finalization that takes the collateral all the way
/// to zero leaves neither a position record nor a facility-participant entry
/// behind.
pub proof fn lemma_no_residual_after_full_unwind(
    pre: Storage,
    post: Storage,
    stable_balance: u64,
    resp: Response,
)
    requires
        withdraw_finalized(pre, post, stable_balance, resp),
        spec_position(
            pre.positions@,
            the_withdraw(pre).farmer_addr,
            the_withdraw(pre).masset_token,
        ).collateral == the_withdraw(pre).collateral_delta,
    ensures
        !has_position(post.positions@, the_withdraw(pre).farmer_addr, the_withdraw(pre).masset_token),
        !spec_cdp(post.cdps@, the_withdraw(pre).masset_token).farmers@.contains(
            the_withdraw(pre).farmer_addr,
        ),
{
}

/// The exact transition of the withdraw finalizer: the fold and closure of
/// `withdraw_finalized`, or the exact error with the store untouched.
pub open spec fn return_stable_post(
    pre: Storage,
    post: Storage,
    stable_balance: u64,
    r: Result<Response, Error>,
) -> bool {
    &&& post.config == pre.config
    &&& match r {
        Ok(resp) => withdraw_finalized(pre, post, stable_balance, resp),
        Err(e) => post == pre && withdraw_finalize_fails_with(pre, e),
    }
}

pub fn return_stable(storage: &mut Storage, stable_balance: u64) -> (r: Result<Response, Error>)
    requires
        old(storage).wf(),
    ensures
        final(storage).wf(),
        return_stable_post(*old(storage), *final(storage), stable_balance, r),
{
    let w = match crate::state::load_withdraw_state(storage) {
        Ok(w) => w,
        Err(e) => {
            return Err(e);
        },
    };
    let pos = match crate::state::load_position(storage, w.farmer_addr, w.masset_token) {
        Ok(p) => p,
        Err(e) => {
            return Err(e);
        },
    };
    if w.loan_delta > pos.loan || w.collateral_delta > pos.collateral {
        return Err(Error::ArithmeticError);
    }
    let nl = pos.loan - w.loan_delta;
    let nc = pos.collateral - w.collateral_delta;
    let price_ratio = match decimal_division(w.collateral_price, w.masset_price) {
        Ok(d) => d,
        Err(e) => {
            return Err(e);
        },
    };
    let m = match min_safe_collateral(nl, &price_ratio, &pos.aim_collateral_ratio) {
        Ok(v) => v,
        Err(e) => {
            return Err(e);
        },
    };
    if m > nc {
        return Err(Error::InvalidState);
    }
    proof {
        assert(nc as int * 1000000000 * 1000000000 >= m as int * 1000000000 * 1000000000)
            by (nonlinear_arith)
            requires
                m <= nc;
        assert(scale() == 1000000000);
    }
    if nc == 0 {
        match may_load_cdp(storage, w.masset_token) {
            Some(_) => {},
            None => {
                return Err(Error::NoCdp);
            },
        }
    }
    let ghost old_positions = storage.positions@;
    let updated = Position { loan: nl, collateral: nc, ..pos };
    crate::state::save_position(storage, &updated);
    proof {
        crate::state::lemma_position_index_is(
            old_positions,
            w.farmer_addr,
            w.masset_token,
            position_index(old_positions, w.farmer_addr, w.masset_token),
        );
    }
    if nc == 0 {
        remove_position(storage, w.farmer_addr, w.masset_token);
        proof {
            let i = position_index(old_positions, w.farmer_addr, w.masset_token);
            assert(storage.positions@ =~= old_positions.remove(i));
        }
        match remove_farmer_from_cdp(storage, w.farmer_addr, w.masset_token) {
            Ok(_) => {},
            Err(_) => {
                return Err(Error::NoCdp);
            },
        }
        proof {
            crate::state::lemma_farmers_after_remove(
                spec_cdp(old(storage).cdps@, w.masset_token).farmers@,
                w.farmer_addr,
            );
        }
    }
    clear_job(storage);
    Ok(
        Response {
            submsg: None,
            message: Some(
                Action::Send {
                    recipient: w.farmer_addr,
                    stable_denom: storage.config.stable_denom,
                    amount: stable_balance,
                },
            ),
        },
    )
}

} // verus!
