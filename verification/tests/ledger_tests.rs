use structured_note::math::{Decimal, DECIMAL_FRACTIONAL};
use structured_note::msg::InstantiateMsg;
use structured_note::state::{
    add_farmer_to_cdp, clear_job, decrease_position_collateral, decrease_position_loan,
    increase_iteration_index, increase_position_collateral, increase_position_loan,
    load_all_cdps, load_all_positions, load_cdp, load_config, load_deposit_state, load_position,
    load_positions_by_farmer_addr, load_withdraw_state, may_load_cdp, may_load_position,
    remove_cdp, remove_farmer_from_cdp, remove_position, save_cdp, save_config,
    save_deposit_state, save_position, upsert_delta, DepositState, Position, Storage, CDP,
};
use structured_note::contract::instantiate;
use structured_note::Error;

const ONE: u64 = DECIMAL_FRACTIONAL;

fn fresh_storage() -> Storage {
    instantiate(&InstantiateMsg {
        stable_denom: 1,
        governance_contract: 2,
        mirror_mint_contract: 3,
        anchor_market_contract: 4,
        aterra_addr: 5,
        nexus_treasury: 6,
        protocol_fee: Decimal { units: 0 },
        min_over_collateralization: Decimal { units: ONE },
    })
}

fn position(owner: u64, token: u64, loan: u64, collateral: u64) -> Position {
    Position {
        farmer_addr: owner,
        masset_token: token,
        cdp_idx: 7,
        leverage: 2,
        loan,
        collateral,
        aim_collateral_ratio: Decimal { units: 2 * ONE },
    }
}

#[test]
fn positions_are_keyed_by_owner_and_asset() {
    let mut s = fresh_storage();
    assert_eq!(may_load_position(&s, 10, 20), None);
    save_position(&mut s, &position(10, 20, 100, 300));
    save_position(&mut s, &position(10, 21, 1, 2));
    save_position(&mut s, &position(11, 20, 3, 4));
    assert_eq!(may_load_position(&s, 10, 20).unwrap().collateral, 300);
    assert_eq!(may_load_position(&s, 10, 21).unwrap().collateral, 2);
    assert_eq!(may_load_position(&s, 11, 20).unwrap().loan, 3);
    assert_eq!(load_all_positions(&s).len(), 3);
    assert_eq!(load_positions_by_farmer_addr(&s, 10).len(), 2);
    // replacing under the same key does not grow the ledger
    save_position(&mut s, &position(10, 20, 100, 350));
    assert_eq!(load_all_positions(&s).len(), 3);
    assert_eq!(load_position(&s, 10, 20).unwrap().collateral, 350);
}

#[test]
fn balance_changes_are_delta_based() {
    let mut s = fresh_storage();
    save_position(&mut s, &position(10, 20, 100, 300));
    let p = increase_position_collateral(&mut s, 10, 20, 50).unwrap();
    assert_eq!(p.collateral, 350);
    let p = decrease_position_collateral(&mut s, 10, 20, 150).unwrap();
    assert_eq!(p.collateral, 200);
    let p = increase_position_loan(&mut s, 10, 20, 11).unwrap();
    assert_eq!(p.loan, 111);
    let p = decrease_position_loan(&mut s, 10, 20, 111).unwrap();
    assert_eq!(p.loan, 0);
}

#[test]
fn delta_underflow_is_fatal_not_clamped() {
    let mut s = fresh_storage();
    save_position(&mut s, &position(10, 20, 100, 300));
    assert_eq!(
        decrease_position_loan(&mut s, 10, 20, 101),
        Err(Error::ArithmeticError)
    );
    assert_eq!(
        decrease_position_collateral(&mut s, 10, 20, 301),
        Err(Error::ArithmeticError)
    );
    // the failed decrease left the balances untouched
    assert_eq!(load_position(&s, 10, 20).unwrap().loan, 100);
    assert_eq!(load_position(&s, 10, 20).unwrap().collateral, 300);
}

#[test]
fn delta_without_position_is_reported() {
    let mut s = fresh_storage();
    assert_eq!(
        increase_position_collateral(&mut s, 10, 20, 50),
        Err(Error::NoPosition)
    );
}

#[test]
fn upsert_delta_creates_from_defaults() {
    let mut s = fresh_storage();
    let defaults = position(10, 20, 0, 0);
    let p = upsert_delta(&mut s, 10, 20, 500, 1000, &defaults).unwrap();
    assert_eq!(p.loan, 500);
    assert_eq!(p.collateral, 1000);
    // a second upsert applies deltas to the existing record
    let p = upsert_delta(&mut s, 10, 20, -200, -300, &defaults).unwrap();
    assert_eq!(p.loan, 300);
    assert_eq!(p.collateral, 700);
    assert_eq!(load_all_positions(&s).len(), 1);
}

#[test]
fn upsert_delta_refuses_negative_balances() {
    let mut s = fresh_storage();
    let defaults = position(10, 20, 0, 0);
    assert_eq!(
        upsert_delta(&mut s, 10, 20, -1, 0, &defaults),
        Err(Error::ArithmeticError)
    );
}

#[test]
fn remove_position_deletes_the_record() {
    let mut s = fresh_storage();
    save_position(&mut s, &position(10, 20, 0, 0));
    remove_position(&mut s, 10, 20);
    assert_eq!(may_load_position(&s, 10, 20), None);
}

#[test]
fn add_participant_is_idempotent() {
    let mut s = fresh_storage();
    add_farmer_to_cdp(&mut s, 7, 10, 20);
    assert_eq!(load_cdp(&s, 20).unwrap().farmers, vec![10]);
    // adding the same owner again leaves the participant set unchanged
    add_farmer_to_cdp(&mut s, 7, 10, 20);
    assert_eq!(load_cdp(&s, 20).unwrap().farmers.len(), 1);
    add_farmer_to_cdp(&mut s, 7, 11, 20);
    assert_eq!(load_cdp(&s, 20).unwrap().farmers, vec![10, 11]);
    add_farmer_to_cdp(&mut s, 7, 10, 20);
    assert_eq!(load_cdp(&s, 20).unwrap().farmers.len(), 2);
}

#[test]
fn remove_participant_is_idempotent() {
    let mut s = fresh_storage();
    add_farmer_to_cdp(&mut s, 7, 10, 20);
    add_farmer_to_cdp(&mut s, 7, 11, 20);
    remove_farmer_from_cdp(&mut s, 10, 20).unwrap();
    assert_eq!(load_cdp(&s, 20).unwrap().farmers, vec![11]);
    // removing an absent owner is a no-op, not an error
    remove_farmer_from_cdp(&mut s, 10, 20).unwrap();
    assert_eq!(load_cdp(&s, 20).unwrap().farmers, vec![11]);
    // only an unknown facility is an error
    assert_eq!(remove_farmer_from_cdp(&mut s, 10, 99), Err(Error::NoCdp));
}

#[test]
fn job_slot_holds_one_job() {
    let mut s = fresh_storage();
    assert!(load_deposit_state(&s).is_err());
    assert!(load_withdraw_state(&s).is_err());
    let d = DepositState {
        farmer_addr: 10,
        masset_token: 20,
        leverage: 2,
        cur_iteration_index: 0,
        asset_price_in_collateral_asset: Decimal { units: ONE },
        pair_addr: 40,
        aim_collateral_ratio: Decimal { units: 2 * ONE },
        cdp_idx: None,
        loan_delta: 0,
        collateral_delta: 0,
        pending: 0,
    };
    save_deposit_state(&mut s, &d);
    assert_eq!(load_deposit_state(&s).unwrap(), d);
    // a deposit job is not a withdraw job
    assert_eq!(load_withdraw_state(&s), Err(Error::UnexpectedCompletion));
    let stepped = increase_iteration_index(&mut s).unwrap();
    assert_eq!(stepped.cur_iteration_index, 1);
    assert_eq!(load_deposit_state(&s).unwrap().cur_iteration_index, 1);
    clear_job(&mut s);
    assert!(s.job.is_none());
    assert_eq!(increase_iteration_index(&mut s), Err(Error::UnexpectedCompletion));
}

#[test]
fn config_is_stored_and_replaced() {
    let mut s = fresh_storage();
    assert_eq!(load_config(&s).stable_denom, 1);
    let mut c = *load_config(&s);
    c.stable_denom = 9;
    save_config(&mut s, &c);
    assert_eq!(load_config(&s).stable_denom, 9);
}

#[test]
fn cdps_are_keyed_by_asset() {
    let mut s = fresh_storage();
    save_cdp(&mut s, CDP { idx: 7, masset_token: 20, farmers: vec![10] });
    save_cdp(&mut s, CDP { idx: 8, masset_token: 21, farmers: vec![] });
    assert_eq!(load_cdp(&s, 20).unwrap().idx, 7);
    assert_eq!(may_load_cdp(&s, 22), None);
    assert_eq!(load_all_cdps(&s).len(), 2);
    assert_eq!(load_cdp(&s, 99), Err(Error::NoCdp));
    remove_cdp(&mut s, 21);
    assert_eq!(may_load_cdp(&s, 21), None);
    assert_eq!(load_all_cdps(&s).len(), 1);
}
