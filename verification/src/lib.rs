//! Leveraged-position manager: an iterative leverage construction/unwind
//! state machine with exact collateral-ratio accounting.
//!
//! A deposit of a stable asset is compounded through repeated
//! deposit -> collateralize -> mint -> sell iterations against three external
//! services (a lending market, a CDP market and a spot exchange); a withdrawal
//! runs the pipeline in reverse. Each external call suspends the machine; the
//! host delivers the completion back through [`contract::reply`], which reads
//! the single persisted job record, computes the next amounts and either
//! issues the next call or folds the job's accumulated deltas into the
//! position ledger.

use vstd::prelude::*;

pub mod math;
pub mod state;
pub mod utils;
pub mod msg;
pub mod mirror;
pub mod anchor;
pub mod terraswap;
pub mod commands;
pub mod contract;

verus! {

/// Everything a public operation can fail with. Validation errors surface to
/// the caller with no state mutated; `JobInProgress` and
/// `UnexpectedCompletion` signal a protocol violation by the host; arithmetic
/// errors signal miscomputed collateral math and are never masked by clamping.
#[derive(Clone, Copy, Debug, PartialEq, Eq, Structural)]
pub enum Error {
    /// The requested target collateral ratio is below the safe floor.
    RatioTooLow,
    /// The requested target collateral ratio is above the position's current
    /// ratio; the unwinder only ever reduces leverage.
    RatioIncreaseUnsupported,
    /// A deposit of zero was attempted.
    ZeroAmount,
    /// The aim collateral exceeds the position's current collateral, or lies
    /// below the safe bound of a raw withdrawal.
    InvalidTarget,
    /// The leverage iteration count is outside the accepted 1..=5 band.
    InvalidLeverage,
    /// The named asset is delisted, migrated or still pre-IPO.
    InvalidAsset,
    /// No position exists for the (owner, asset) pair.
    NoPosition,
    /// No debt facility record exists for the asset.
    NoCdp,
    /// A job is already pending; at most one may be in flight.
    JobInProgress,
    /// A completion was delivered whose identifier matches no pending step.
    UnexpectedCompletion,
    /// A dispatched external call reported failure; the whole enclosing
    /// operation is aborted, and no partial ledger mutation persists.
    ExternalCallFailed,
    /// Division by a zero ratio or price.
    DivideByZero,
    /// Overflow or underflow in balance accounting; fatal, never clamped.
    ArithmeticError,
    /// A bookkeeping impossibility, e.g. a non-positive mint delta or a
    /// finalized position below its declared target ratio.
    InvalidState,
    /// The unwind loop exceeded its iteration cap without reaching the aim.
    UnwindDidNotConverge,
    /// An expected attribute is absent from the completion's events.
    MissingAttribute,
    /// An attribute was present but could not be parsed as an amount.
    InvalidAttribute,
}

/// Identifier attached to each outbound call so the matching resume handler
/// can be selected when the host delivers the completion.
#[derive(Clone, Copy, Debug, PartialEq, Eq, Structural)]
pub enum SubmsgIds {
    // Deposit pipeline
    DepositStable,
    OpenCDP,
    DepositToCDP,
    MintMAsset,
    SellMAsset,
    Exit,
    // Withdraw pipeline
    WithdrawCollateral,
    RedeemStable,
    BuyMAsset,
    BurnMAsset,
}

impl SubmsgIds {
    /// The wire identifier of this step.
    pub open spec fn spec_id(&self) -> u64 {
        match self {
            SubmsgIds::DepositStable => 0,
            SubmsgIds::OpenCDP => 1,
            SubmsgIds::DepositToCDP => 2,
            SubmsgIds::MintMAsset => 3,
            SubmsgIds::SellMAsset => 4,
            SubmsgIds::Exit => 5,
            SubmsgIds::WithdrawCollateral => 6,
            SubmsgIds::RedeemStable => 7,
            SubmsgIds::BuyMAsset => 8,
            SubmsgIds::BurnMAsset => 9,
        }
    }

    #[verifier::when_used_as_spec(spec_id)]
    pub fn id(&self) -> (r: u64)
        ensures
            r == self.spec_id(),
    {
        match self {
            SubmsgIds::DepositStable => 0,
            SubmsgIds::OpenCDP => 1,
            SubmsgIds::DepositToCDP => 2,
            SubmsgIds::MintMAsset => 3,
            SubmsgIds::SellMAsset => 4,
            SubmsgIds::Exit => 5,
            SubmsgIds::WithdrawCollateral => 6,
            SubmsgIds::RedeemStable => 7,
            SubmsgIds::BuyMAsset => 8,
            SubmsgIds::BurnMAsset => 9,
        }
    }

    /// Maps a delivered completion identifier back to its step; an identifier
    /// that matches no step is a fatal protocol violation.
    pub fn try_from(v: u64) -> (r: Result<SubmsgIds, Error>)
        ensures
            match r {
                Ok(s) => s.spec_id() == v,
                Err(e) => v > 9 && e == Error::UnexpectedCompletion,
            },
    {
        match v {
            0 => Ok(SubmsgIds::DepositStable),
            1 => Ok(SubmsgIds::OpenCDP),
            2 => Ok(SubmsgIds::DepositToCDP),
            3 => Ok(SubmsgIds::MintMAsset),
            4 => Ok(SubmsgIds::SellMAsset),
            5 => Ok(SubmsgIds::Exit),
            6 => Ok(SubmsgIds::WithdrawCollateral),
            7 => Ok(SubmsgIds::RedeemStable),
            8 => Ok(SubmsgIds::BuyMAsset),
            9 => Ok(SubmsgIds::BurnMAsset),
            _ => Err(Error::UnexpectedCompletion),
        }
    }
}

/// Joins a storage namespace and a key into one raw key.
pub fn concat(namespace: &[u8], key: &[u8]) -> (r: Vec<u8>)
    ensures
        r@ == namespace@ + key@,
{
    let mut k = vstd::slice::slice_to_vec(namespace);
    k.extend_from_slice(key);
    proof {
        assert(k@ =~= namespace@ + key@);
    }
    k
}

} // verus!
