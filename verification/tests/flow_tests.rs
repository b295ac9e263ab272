use structured_note::commands::exit;
use structured_note::contract::{execute, instantiate, query, reply, MarketSnapshot, QueryAnswer, ReplyCtx};
use structured_note::math::{Decimal, DECIMAL_FRACTIONAL};
use structured_note::mirror::{IPOParams, MirrorAssetConfigResponse};
use structured_note::msg::{Action, ExecuteMsg, InstantiateMsg, QueryMsg, SubMsg};
use structured_note::state::{
    add_farmer_to_cdp, load_cdp, may_load_position, save_deposit_state, save_position,
    save_withdraw_state, DepositState, Position, Storage, WithdrawState,
};
use structured_note::utils::{Attribute, Event};
use structured_note::Error;

const ONE: u64 = DECIMAL_FRACTIONAL;
const OWNER: u64 = 10;
const MASSET: u64 = 20;
const PAIR: u64 = 40;
const CONTRACT: u64 = 99;

fn dec(units: u64) -> Decimal {
    Decimal { units }
}

fn fresh_storage() -> Storage {
    instantiate(&InstantiateMsg {
        stable_denom: 1,
        governance_contract: 2,
        mirror_mint_contract: 3,
        anchor_market_contract: 4,
        aterra_addr: 5,
        nexus_treasury: 6,
        protocol_fee: Decimal { units: 0 },
        min_over_collateralization: Decimal { units: ONE },
    })
}

fn market(min_ratio_units: u64) -> MarketSnapshot {
    MarketSnapshot {
        masset_config: MirrorAssetConfigResponse {
            token: MASSET,
            auction_discount: dec(0),
            min_collateral_ratio: dec(min_ratio_units),
            end_price: None,
            ipo_params: None,
        },
        collateral_price: dec(ONE),
        asset_price: dec(ONE),
        pair_addr: PAIR,
    }
}

fn ctx(stable_balance: u64) -> ReplyCtx {
    ReplyCtx { contract_addr: CONTRACT, stable_balance, tax_rate: dec(0), tax_cap: 0 }
}

fn events(pairs: &[(&str, &str)]) -> Vec<Event> {
    let mut attributes = Vec::new();
    for (k, v) in pairs {
        attributes.push(Attribute { key: k.to_string(), value: v.to_string() });
    }
    vec![Event { attributes }]
}

fn submsg_action(s: &Storage, r: &structured_note::msg::Response) -> (Action, u64) {
    let _ = s;
    let SubMsg { action, reply_id } = r.submsg.expect("an outbound call was expected");
    (action, reply_id)
}

#[test]
fn two_iteration_ladder_builds_the_expected_position() {
    let mut s = fresh_storage();
    let snap = market(3 * ONE / 2);
    // deposit 1000 stable with a two-iteration ladder at aim ratio 2.0
    let msg = ExecuteMsg::Deposit {
        masset_token: MASSET,
        leverage: Some(2),
        aim_collateral_ratio: dec(2 * ONE),
    };
    let r = execute(&mut s, OWNER, 1000, &msg, &snap).unwrap();
    let (action, id) = submsg_action(&s, &r);
    assert_eq!(id, 0);
    assert_eq!(action, Action::DepositStable { market: 4, stable_denom: 1, amount: 1000 });

    // lending deposit completes with 1000 receipt units; no facility yet
    let r = reply(&mut s, &ctx(0), 0, &events(&[("mint_amount", "1000")])).unwrap();
    let (action, id) = submsg_action(&s, &r);
    assert_eq!(id, 1);
    assert_eq!(
        action,
        Action::OpenPosition {
            aterra_addr: 5,
            mirror_mint: 3,
            masset_token: MASSET,
            collateral_amount: 1000,
            collateral_ratio: dec(2 * ONE),
        }
    );

    // facility opens; first iteration mints 1000 / (2.0 * 1.0) = 500
    let r = reply(
        &mut s,
        &ctx(0),
        1,
        &events(&[("position_idx", "7"), ("collateral_amount", "1000uusd")]),
    )
    .unwrap();
    let (action, id) = submsg_action(&s, &r);
    assert_eq!(id, 3);
    assert_eq!(
        action,
        Action::Mint { mirror_mint: 3, cdp_idx: 7, masset_token: MASSET, amount: 500 }
    );

    // mint completes; the 500 minted go to the exchange
    let r = reply(&mut s, &ctx(0), 3, &events(&[("mint_amount", "500terra1xyz")])).unwrap();
    let (action, id) = submsg_action(&s, &r);
    assert_eq!(id, 4);
    assert_eq!(
        action,
        Action::Sell { masset_token: MASSET, pair_addr: PAIR, amount: 500, recipient: CONTRACT }
    );

    // sale completes; proceeds minus the one-unit transfer fee loop back
    let r = reply(&mut s, &ctx(0), 4, &events(&[("return_amount", "500")])).unwrap();
    let (action, id) = submsg_action(&s, &r);
    assert_eq!(id, 0);
    assert_eq!(action, Action::DepositStable { market: 4, stable_denom: 1, amount: 499 });

    // second lending deposit completes; the facility is known now
    let r = reply(&mut s, &ctx(0), 0, &events(&[("mint_amount", "499")])).unwrap();
    let (action, id) = submsg_action(&s, &r);
    assert_eq!(id, 2);
    assert_eq!(
        action,
        Action::DepositCollateral { aterra_addr: 5, mirror_mint: 3, cdp_idx: 7, amount: 499 }
    );

    // collateral grows to 1499; the target loan is 749, so 249 more are minted
    let r = reply(&mut s, &ctx(0), 2, &events(&[("deposit_amount", "499uusd")])).unwrap();
    let (action, id) = submsg_action(&s, &r);
    assert_eq!(id, 3);
    assert_eq!(
        action,
        Action::Mint { mirror_mint: 3, cdp_idx: 7, masset_token: MASSET, amount: 249 }
    );

    // the terminal iteration's sell resumes finalization
    let r = reply(&mut s, &ctx(0), 3, &events(&[("mint_amount", "249terra1xyz")])).unwrap();
    let (action, id) = submsg_action(&s, &r);
    assert_eq!(id, 5);
    assert_eq!(
        action,
        Action::Sell { masset_token: MASSET, pair_addr: PAIR, amount: 249, recipient: CONTRACT }
    );

    // finalize: exactly one position, with the accumulated totals
    let r = reply(&mut s, &ctx(0), 5, &events(&[])).unwrap();
    assert_eq!(r.submsg, None);
    assert!(s.job.is_none());
    let p = may_load_position(&s, OWNER, MASSET).expect("the ladder creates one position");
    assert_eq!(s.positions.len(), 1);
    assert_eq!(p.leverage, 2);
    assert_eq!(p.collateral, 1499);
    assert_eq!(p.loan, 749);
    // ratio >= 2.0 at price 1.0: collateral covers loan * 2
    assert!(p.collateral as u128 >= p.loan as u128 * 2);
    assert_eq!(load_cdp(&s, MASSET).unwrap().farmers, vec![OWNER]);
    match query(&s, &QueryMsg::Position { farmer_addr: OWNER, masset_token: MASSET }).unwrap() {
        QueryAnswer::Position(q) => assert_eq!(q, p),
        _ => panic!("a position answer was expected"),
    }
}

#[test]
fn second_job_is_refused_while_one_is_pending() {
    let mut s = fresh_storage();
    let snap = market(3 * ONE / 2);
    let msg = ExecuteMsg::Deposit {
        masset_token: MASSET,
        leverage: Some(2),
        aim_collateral_ratio: dec(2 * ONE),
    };
    execute(&mut s, OWNER, 1000, &msg, &snap).unwrap();
    // whatever the operation, a pending job refuses it
    assert_eq!(
        execute(&mut s, OWNER, 500, &msg, &snap),
        Err(Error::JobInProgress)
    );
    let withdraw = ExecuteMsg::Withdraw {
        masset_token: MASSET,
        aim_collateral: 1,
        aim_collateral_ratio: dec(2 * ONE),
    };
    assert_eq!(execute(&mut s, OWNER, 0, &withdraw, &snap), Err(Error::JobInProgress));
    let raw = ExecuteMsg::RawWithdraw { masset_token: MASSET, amount: 1 };
    assert_eq!(execute(&mut s, OWNER, 0, &raw, &snap), Err(Error::JobInProgress));
    let close = ExecuteMsg::ClosePosition { masset_token: MASSET };
    assert_eq!(execute(&mut s, OWNER, 0, &close, &snap), Err(Error::JobInProgress));
}

#[test]
fn low_aim_ratio_is_rejected_without_a_job() {
    let mut s = fresh_storage();
    // safe floor is 1.5 * 1.0; an aim of 1.2 is below it
    let snap = market(3 * ONE / 2);
    let msg = ExecuteMsg::Deposit {
        masset_token: MASSET,
        leverage: Some(2),
        aim_collateral_ratio: dec(12 * ONE / 10),
    };
    assert_eq!(execute(&mut s, OWNER, 1000, &msg, &snap), Err(Error::RatioTooLow));
    assert!(s.job.is_none());
}

fn seeded_position(s: &mut Storage, loan: u64, collateral: u64) {
    save_position(
        s,
        &Position {
            farmer_addr: OWNER,
            masset_token: MASSET,
            cdp_idx: 7,
            leverage: 2,
            loan,
            collateral,
            aim_collateral_ratio: dec(2 * ONE),
        },
    );
    add_farmer_to_cdp(s, 7, OWNER, MASSET);
}

#[test]
fn close_position_runs_the_double_unwind() {
    let mut s = fresh_storage();
    seeded_position(&mut s, 200, 500);
    let snap = market(12 * ONE / 10);
    // closing forces the double path: the first redeem stops at the safe
    // bound 200 * 1.0 * 1.2 = 240, releasing only 260 of 500
    let r = execute(&mut s, OWNER, 0, &ExecuteMsg::ClosePosition { masset_token: MASSET }, &snap)
        .unwrap();
    let (action, id) = submsg_action(&s, &r);
    assert_eq!(id, 6);
    assert_eq!(
        action,
        Action::WithdrawCollateral { mirror_mint: 3, aterra_addr: 5, cdp_idx: 7, amount: 260 }
    );

    // redeem the receipt units into stable
    let r = reply(&mut s, &ctx(0), 6, &events(&[("withdraw_amount", "260uusd")])).unwrap();
    let (action, id) = submsg_action(&s, &r);
    assert_eq!(id, 7);
    assert_eq!(action, Action::RedeemStable { aterra_addr: 5, market: 4, amount: 260 });

    // repurchase the outstanding 200 of debt value
    let r = reply(&mut s, &ctx(260), 7, &events(&[])).unwrap();
    let (action, id) = submsg_action(&s, &r);
    assert_eq!(id, 8);
    assert_eq!(
        action,
        Action::Buy { pair_addr: PAIR, stable_denom: 1, amount: 200, recipient: CONTRACT }
    );

    // burn what was repurchased
    let r = reply(&mut s, &ctx(60), 8, &events(&[("return_amount", "200")])).unwrap();
    let (action, id) = submsg_action(&s, &r);
    assert_eq!(id, 9);
    assert_eq!(
        action,
        Action::Burn { mirror_mint: 3, masset_token: MASSET, cdp_idx: 7, amount: 200 }
    );

    // with the loan at zero the rest of the collateral is released
    let r = reply(&mut s, &ctx(60), 9, &events(&[("burn_amount", "200terra1xyz")])).unwrap();
    let (action, id) = submsg_action(&s, &r);
    assert_eq!(id, 6);
    assert_eq!(
        action,
        Action::WithdrawCollateral { mirror_mint: 3, aterra_addr: 5, cdp_idx: 7, amount: 240 }
    );

    let r = reply(&mut s, &ctx(60), 6, &events(&[("withdraw_amount", "240uusd")])).unwrap();
    let (action, id) = submsg_action(&s, &r);
    assert_eq!(id, 7);
    assert_eq!(action, Action::RedeemStable { aterra_addr: 5, market: 4, amount: 240 });

    // the aim state is reached: the whole balance goes back to the owner,
    // and neither the position nor the participant entry remains
    let r = reply(&mut s, &ctx(300), 7, &events(&[])).unwrap();
    assert_eq!(r.submsg, None);
    assert_eq!(
        r.message,
        Some(Action::Send { recipient: OWNER, stable_denom: 1, amount: 300 })
    );
    assert!(300 >= 500 - 200);
    assert_eq!(may_load_position(&s, OWNER, MASSET), None);
    assert_eq!(load_cdp(&s, MASSET).unwrap().farmers.len(), 0);
    assert!(s.job.is_none());
}

#[test]
fn deposit_then_close_returns_no_more_than_was_put_in() {
    let mut s = fresh_storage();
    let snap = market(3 * ONE / 2);
    // one-iteration ladder of 1000 at aim ratio 2.0, price 1.0 throughout
    let msg = ExecuteMsg::Deposit {
        masset_token: MASSET,
        leverage: Some(1),
        aim_collateral_ratio: dec(2 * ONE),
    };
    execute(&mut s, OWNER, 1000, &msg, &snap).unwrap();
    reply(&mut s, &ctx(0), 0, &events(&[("mint_amount", "1000")])).unwrap();
    reply(
        &mut s,
        &ctx(0),
        1,
        &events(&[("position_idx", "7"), ("collateral_amount", "1000uusd")]),
    )
    .unwrap();
    let r = reply(&mut s, &ctx(0), 3, &events(&[("mint_amount", "500terra1xyz")])).unwrap();
    // the one-iteration ladder's sell is terminal
    assert_eq!(r.submsg.unwrap().reply_id, 5);
    reply(&mut s, &ctx(0), 5, &events(&[])).unwrap();
    // the terminal sale left 500 stable in the contract
    let mut balance: u64 = 500;

    execute(&mut s, OWNER, 0, &ExecuteMsg::ClosePosition { masset_token: MASSET }, &snap)
        .unwrap();
    // safe bound 500 * 1.5 = 750; redeem 250 of 1000
    reply(&mut s, &ctx(balance), 6, &events(&[("withdraw_amount", "250uusd")])).unwrap();
    balance += 250;
    let r = reply(&mut s, &ctx(balance), 7, &events(&[])).unwrap();
    match submsg_action(&s, &r) {
        (Action::Buy { amount, .. }, 8) => {
            assert_eq!(amount, 500);
            balance -= amount;
        }
        other => panic!("a repurchase was expected, got {:?}", other),
    }
    reply(&mut s, &ctx(balance), 8, &events(&[("return_amount", "500")])).unwrap();
    reply(&mut s, &ctx(balance), 9, &events(&[("burn_amount", "500terra1xyz")])).unwrap();
    reply(&mut s, &ctx(balance), 6, &events(&[("withdraw_amount", "750uusd")])).unwrap();
    balance += 750;
    let r = reply(&mut s, &ctx(balance), 7, &events(&[])).unwrap();
    match r.message {
        Some(Action::Send { recipient, amount, .. }) => {
            assert_eq!(recipient, OWNER);
            // never more comes back than was deposited
            assert!(amount <= 1000);
            assert_eq!(amount, 1000);
        }
        other => panic!("the close must return the stable balance, got {:?}", other),
    }
    // no residual position or participant entry
    assert_eq!(may_load_position(&s, OWNER, MASSET), None);
    assert_eq!(load_cdp(&s, MASSET).unwrap().farmers.len(), 0);
}

#[test]
fn withdraw_below_safe_bound_forces_double_path() {
    let mut s = fresh_storage();
    seeded_position(&mut s, 200, 500);
    let snap = market(12 * ONE / 10);
    // aim collateral 100 lies below the safe bound 240: the first redeem
    // must stop at the bound instead of reaching the aim directly
    let msg = ExecuteMsg::Withdraw {
        masset_token: MASSET,
        aim_collateral: 100,
        aim_collateral_ratio: dec(3 * ONE / 2),
    };
    let r = execute(&mut s, OWNER, 0, &msg, &snap).unwrap();
    let (action, _) = submsg_action(&s, &r);
    match action {
        Action::WithdrawCollateral { amount, .. } => {
            assert_eq!(amount, 260);
            // the remainder stays at the safe bound, never below it
            assert!(500 - amount >= 240);
            assert_ne!(amount, 400);
        }
        other => panic!("a collateral withdrawal was expected, got {:?}", other),
    }
}

#[test]
fn withdraw_validation_errors() {
    let mut s = fresh_storage();
    let snap = market(12 * ONE / 10);
    let msg = ExecuteMsg::Withdraw {
        masset_token: MASSET,
        aim_collateral: 100,
        aim_collateral_ratio: dec(3 * ONE / 2),
    };
    // without a position nothing can be withdrawn
    assert_eq!(execute(&mut s, OWNER, 0, &msg, &snap), Err(Error::NoPosition));
    seeded_position(&mut s, 200, 500);
    // an aim above the current collateral is invalid
    let msg = ExecuteMsg::Withdraw {
        masset_token: MASSET,
        aim_collateral: 600,
        aim_collateral_ratio: dec(3 * ONE / 2),
    };
    assert_eq!(execute(&mut s, OWNER, 0, &msg, &snap), Err(Error::InvalidTarget));
    // an aim ratio below the safe floor is rejected
    let msg = ExecuteMsg::Withdraw {
        masset_token: MASSET,
        aim_collateral: 400,
        aim_collateral_ratio: dec(ONE),
    };
    assert_eq!(execute(&mut s, OWNER, 0, &msg, &snap), Err(Error::RatioTooLow));
    // the unwinder only ever reduces leverage: the current ratio is 2.5
    let msg = ExecuteMsg::Withdraw {
        masset_token: MASSET,
        aim_collateral: 400,
        aim_collateral_ratio: dec(3 * ONE),
    };
    assert_eq!(
        execute(&mut s, OWNER, 0, &msg, &snap),
        Err(Error::RatioIncreaseUnsupported)
    );
}

#[test]
fn raw_withdraw_stays_above_the_safe_bound() {
    let mut s = fresh_storage();
    seeded_position(&mut s, 200, 500);
    let snap = market(12 * ONE / 10);
    // the position's own target ratio of 2.0 puts the raw floor at 400;
    // anything below is refused even though the facility would allow 240
    let msg = ExecuteMsg::RawWithdraw { masset_token: MASSET, amount: 239 };
    assert_eq!(execute(&mut s, OWNER, 0, &msg, &snap), Err(Error::InvalidTarget));
    let msg = ExecuteMsg::RawWithdraw { masset_token: MASSET, amount: 399 };
    assert_eq!(execute(&mut s, OWNER, 0, &msg, &snap), Err(Error::InvalidTarget));
    let msg = ExecuteMsg::RawWithdraw { masset_token: MASSET, amount: 400 };
    let r = execute(&mut s, OWNER, 0, &msg, &snap).unwrap();
    let (action, id) = submsg_action(&s, &r);
    assert_eq!(id, 6);
    assert_eq!(
        action,
        Action::WithdrawCollateral { mirror_mint: 3, aterra_addr: 5, cdp_idx: 7, amount: 100 }
    );
    // a raw job returns the proceeds right after the redemption
    reply(&mut s, &ctx(0), 6, &events(&[("withdraw_amount", "100uusd")])).unwrap();
    let r = reply(&mut s, &ctx(100), 7, &events(&[])).unwrap();
    assert_eq!(
        r.message,
        Some(Action::Send { recipient: OWNER, stable_denom: 1, amount: 100 })
    );
    // the position keeps its loan; only collateral left
    let p = may_load_position(&s, OWNER, MASSET).unwrap();
    assert_eq!(p.loan, 200);
    assert_eq!(p.collateral, 400);
}

#[test]
fn deposit_validation_errors() {
    let mut s = fresh_storage();
    let snap = market(3 * ONE / 2);
    // a fresh ladder needs a leverage
    let msg = ExecuteMsg::Deposit {
        masset_token: MASSET,
        leverage: None,
        aim_collateral_ratio: dec(2 * ONE),
    };
    assert_eq!(execute(&mut s, OWNER, 1000, &msg, &snap), Err(Error::NoPosition));
    // the iteration count is capped
    let msg = ExecuteMsg::Deposit {
        masset_token: MASSET,
        leverage: Some(6),
        aim_collateral_ratio: dec(2 * ONE),
    };
    assert_eq!(execute(&mut s, OWNER, 1000, &msg, &snap), Err(Error::InvalidLeverage));
    let msg = ExecuteMsg::Deposit {
        masset_token: MASSET,
        leverage: Some(0),
        aim_collateral_ratio: dec(2 * ONE),
    };
    assert_eq!(execute(&mut s, OWNER, 1000, &msg, &snap), Err(Error::InvalidLeverage));
    // nothing can be deposited without funds
    let msg = ExecuteMsg::Deposit {
        masset_token: MASSET,
        leverage: Some(2),
        aim_collateral_ratio: dec(2 * ONE),
    };
    assert_eq!(execute(&mut s, OWNER, 0, &msg, &snap), Err(Error::ZeroAmount));
    // a zero asset price cannot be divided by
    let mut bad = market(3 * ONE / 2);
    bad.asset_price = dec(0);
    assert_eq!(execute(&mut s, OWNER, 1000, &msg, &bad), Err(Error::DivideByZero));
    // a delisted or pre-listing asset is refused
    let mut delisted = market(3 * ONE / 2);
    delisted.masset_config.end_price = Some(dec(ONE));
    assert_eq!(execute(&mut s, OWNER, 1000, &msg, &delisted), Err(Error::InvalidAsset));
    let mut pre_ipo = market(3 * ONE / 2);
    pre_ipo.masset_config.ipo_params = Some(IPOParams {
        mint_end: 1,
        pre_ipo_price: dec(ONE),
        min_collateral_ratio_after_ipo: dec(ONE),
    });
    assert_eq!(execute(&mut s, OWNER, 1000, &msg, &pre_ipo), Err(Error::InvalidAsset));
}

#[test]
fn deposit_validates_ratio_then_amount_then_ladder() {
    let mut s = fresh_storage();
    let snap = market(3 * ONE / 2);
    // on a request with several faults the ratio floor is reported first
    let msg = ExecuteMsg::Deposit {
        masset_token: MASSET,
        leverage: Some(9),
        aim_collateral_ratio: dec(ONE),
    };
    assert_eq!(execute(&mut s, OWNER, 0, &msg, &snap), Err(Error::RatioTooLow));
    // with the ratio in order, the amount is reported before the ladder shape
    let msg = ExecuteMsg::Deposit {
        masset_token: MASSET,
        leverage: Some(9),
        aim_collateral_ratio: dec(2 * ONE),
    };
    assert_eq!(execute(&mut s, OWNER, 0, &msg, &snap), Err(Error::ZeroAmount));
    assert!(s.job.is_none());
}

#[test]
fn unknown_or_mismatched_completions_are_fatal() {
    let mut s = fresh_storage();
    // an identifier no step uses
    assert_eq!(
        reply(&mut s, &ctx(0), 99, &events(&[])),
        Err(Error::UnexpectedCompletion)
    );
    // a known identifier with no job pending
    assert_eq!(
        reply(&mut s, &ctx(0), 0, &events(&[("mint_amount", "10")])),
        Err(Error::UnexpectedCompletion)
    );
    // a withdraw completion while a deposit is pending
    let snap = market(3 * ONE / 2);
    let msg = ExecuteMsg::Deposit {
        masset_token: MASSET,
        leverage: Some(2),
        aim_collateral_ratio: dec(2 * ONE),
    };
    execute(&mut s, OWNER, 1000, &msg, &snap).unwrap();
    assert_eq!(
        reply(&mut s, &ctx(0), 6, &events(&[("withdraw_amount", "10uusd")])),
        Err(Error::UnexpectedCompletion)
    );
}

#[test]
fn malformed_completions_are_reported() {
    let mut s = fresh_storage();
    // the expected attribute is absent
    assert_eq!(reply(&mut s, &ctx(0), 0, &events(&[])), Err(Error::MissingAttribute));
    // the attribute is present but carries no amount
    assert_eq!(
        reply(&mut s, &ctx(0), 2, &events(&[("deposit_amount", "abcuusd")])),
        Err(Error::InvalidAttribute)
    );
}

#[test]
fn unwind_iteration_cap_is_enforced() {
    let mut s = fresh_storage();
    seeded_position(&mut s, 200, 500);
    save_withdraw_state(
        &mut s,
        &WithdrawState {
            is_raw: false,
            farmer_addr: OWNER,
            masset_token: MASSET,
            aim_collateral: 0,
            aim_loan: 0,
            pair_addr: PAIR,
            collateral_price: dec(ONE),
            masset_price: dec(ONE),
            safe_collateral_ratio: dec(12 * ONE / 10),
            loan_delta: 0,
            collateral_delta: 0,
            unwind_iterations: 32,
            pending: 9,
        },
    );
    assert_eq!(
        reply(&mut s, &ctx(0), 9, &events(&[("burn_amount", "1terra1xyz")])),
        Err(Error::UnwindDidNotConverge)
    );
}

#[test]
fn finalize_refuses_an_under_collateralized_ladder() {
    let mut s = fresh_storage();
    // a job that accumulated far more loan than collateral
    save_deposit_state(
        &mut s,
        &DepositState {
            farmer_addr: OWNER,
            masset_token: MASSET,
            leverage: 1,
            cur_iteration_index: 1,
            asset_price_in_collateral_asset: dec(ONE),
            pair_addr: PAIR,
            aim_collateral_ratio: dec(2 * ONE),
            cdp_idx: Some(7),
            loan_delta: 1000,
            collateral_delta: 100,
            pending: 5,
        },
    );
    assert_eq!(exit(&mut s), Err(Error::InvalidState));
    // nothing reached the ledger
    assert_eq!(may_load_position(&s, OWNER, MASSET), None);
    assert!(s.job.is_some());
}

#[test]
fn top_up_reuses_the_stored_ladder_parameters() {
    let mut s = fresh_storage();
    seeded_position(&mut s, 200, 500);
    let snap = market(12 * ONE / 10);
    // the supplied ratio and leverage are ignored on a top-up
    let msg = ExecuteMsg::Deposit {
        masset_token: MASSET,
        leverage: Some(5),
        aim_collateral_ratio: dec(3 * ONE),
    };
    execute(&mut s, OWNER, 100, &msg, &snap).unwrap();
    match s.job {
        Some(structured_note::state::Job::Deposit(d)) => {
            assert_eq!(d.leverage, 2);
            assert_eq!(d.aim_collateral_ratio, dec(2 * ONE));
            assert_eq!(d.cdp_idx, Some(7));
        }
        _ => panic!("a deposit job was expected"),
    }
}
