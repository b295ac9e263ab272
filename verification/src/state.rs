//! Position ledger and continuation state: per-(owner, asset) `Position`
//! records, per-asset `CDP` records with their participant sets, and the
//! single in-flight job slot. Owners, asset tokens and contract addresses are
//! held as plain numeric identifiers; the host keeps the mapping to real
//! addresses.
//!
//! All balance mutation is delta-based: a position changes only by applying a
//! signed delta, and the state-machine drivers apply deltas only when a job
//! is finalized.

use vstd::prelude::*;

use crate::Error;
use crate::math::Decimal;

verus! {

/// Immutable configuration, loaded read-only by every operation.
#[derive(Clone, Copy, Debug, PartialEq, Eq, Structural)]
pub struct Config {
    pub stable_denom: u64,
    pub governance_contract: u64,
    pub mirror_mint_contract: u64,
    pub anchor_market_contract: u64,
    pub aterra_addr: u64,
    pub nexus_treasury: u64,
    pub protocol_fee: Decimal,
    pub min_over_collateralization: Decimal,
}

/// One shared debt facility per synthetic-asset type, with the set of owners
/// currently participating in it.
#[derive(Debug, PartialEq)]
pub struct CDP {
    pub idx: u64,
    pub masset_token: u64,
    pub farmers: Vec<u64>,
}

/// One leveraged position per (owner, synthetic asset). `loan` and
/// `collateral` are running totals, never recomputed from scratch.
#[derive(Clone, Copy, Debug, PartialEq, Eq, Structural)]
pub struct Position {
    pub farmer_addr: u64,
    pub masset_token: u64,
    pub cdp_idx: u64,
    pub leverage: u8,
    pub loan: u64,
    pub collateral: u64,
    pub aim_collateral_ratio: Decimal,
}

/// Continuation state of an in-flight deposit: everything needed to resume
/// after an external call completes, plus the job-scoped running deltas that
/// are folded into the position only at finalization.
#[derive(Clone, Copy, Debug, PartialEq)]
pub struct DepositState {
    pub farmer_addr: u64,
    pub masset_token: u64,
    pub leverage: u8,
    pub cur_iteration_index: u8,
    pub asset_price_in_collateral_asset: Decimal,
    pub pair_addr: u64,
    pub aim_collateral_ratio: Decimal,
    /// The debt facility, once known; `None` until the open call completes.
    pub cdp_idx: Option<u64>,
    /// Loan minted so far within this job.
    pub loan_delta: u64,
    /// Collateral posted so far within this job.
    pub collateral_delta: u64,
    /// The call identifier the machine is suspended on.
    pub pending: u64,
}

/// Continuation state of an in-flight withdrawal; deltas are magnitudes of
/// decrease, folded into the position only at finalization.
#[derive(Clone, Copy, Debug, PartialEq)]
pub struct WithdrawState {
    pub is_raw: bool,
    pub farmer_addr: u64,
    pub masset_token: u64,
    pub aim_collateral: u64,
    pub aim_loan: u64,
    pub pair_addr: u64,
    pub collateral_price: Decimal,
    pub masset_price: Decimal,
    pub safe_collateral_ratio: Decimal,
    /// Loan burned so far within this job.
    pub loan_delta: u64,
    /// Collateral redeemed so far within this job.
    pub collateral_delta: u64,
    /// Completed redeem-repurchase-burn cycles, to cap the unwind loop.
    pub unwind_iterations: u8,
    /// The call identifier the machine is suspended on.
    pub pending: u64,
}

/// The single in-flight job; at most one exists at any time.
#[derive(Clone, Copy, Debug, PartialEq)]
pub enum Job {
    Deposit(DepositState),
    Withdraw(WithdrawState),
}

/// The durable store: one config, the two ledgers and the job slot.
pub struct Storage {
    pub config: Config,
    pub cdps: Vec<CDP>,
    pub positions: Vec<Position>,
    pub job: Option<Job>,
}

/// Whether `p` is the record of `(farmer_addr, masset_token)`.
pub open spec fn is_position_for(p: Position, farmer_addr: u64, masset_token: u64) -> bool {
    p.farmer_addr == farmer_addr && p.masset_token == masset_token
}

pub open spec fn has_position(ps: Seq<Position>, farmer_addr: u64, masset_token: u64) -> bool {
    exists|i: int| 0 <= i < ps.len() && is_position_for(ps[i], farmer_addr, masset_token)
}

/// The index of the unique record of `(farmer_addr, masset_token)`;
/// meaningful only when `has_position` holds.
pub open spec fn position_index(ps: Seq<Position>, farmer_addr: u64, masset_token: u64) -> int {
    choose|i: int| 0 <= i < ps.len() && is_position_for(ps[i], farmer_addr, masset_token)
}

/// The unique record of `(farmer_addr, masset_token)`; meaningful only when
/// `has_position` holds.
pub open spec fn spec_position(ps: Seq<Position>, farmer_addr: u64, masset_token: u64) -> Position {
    ps[position_index(ps, farmer_addr, masset_token)]
}

/// No two records share an (owner, asset) key.
pub open spec fn positions_unique(ps: Seq<Position>) -> bool {
    forall|i: int, j: int|
        #![trigger ps[i], ps[j]]
        0 <= i < ps.len() && 0 <= j < ps.len() && i != j ==> !(ps[i].farmer_addr
            == ps[j].farmer_addr && ps[i].masset_token == ps[j].masset_token)
}

pub open spec fn has_cdp(cs: Seq<CDP>, masset_token: u64) -> bool {
    exists|i: int| 0 <= i < cs.len() && cs[i].masset_token == masset_token
}

/// The index of the unique facility of `masset_token`; meaningful only when
/// `has_cdp` holds.
pub open spec fn cdp_index(cs: Seq<CDP>, masset_token: u64) -> int {
    choose|i: int| 0 <= i < cs.len() && cs[i].masset_token == masset_token
}

/// The unique facility of `masset_token`; meaningful only when `has_cdp`
/// holds.
pub open spec fn spec_cdp(cs: Seq<CDP>, masset_token: u64) -> CDP {
    cs[cdp_index(cs, masset_token)]
}

/// No two facilities share an asset, and no participant is listed twice.
pub open spec fn cdps_unique(cs: Seq<CDP>) -> bool {
    &&& forall|i: int, j: int|
        #![trigger cs[i], cs[j]]
        0 <= i < cs.len() && 0 <= j < cs.len() && i != j ==> cs[i].masset_token
            != cs[j].masset_token
    &&& forall|k: int| 0 <= k < cs.len() ==> nodup_u64(#[trigger] cs[k].farmers@)
}

pub open spec fn nodup_u64(s: Seq<u64>) -> bool {
    forall|i: int, j: int| #![trigger s[i], s[j]] 0 <= i < s.len() && 0 <= j < s.len() && i != j ==> s[i] != s[j]
}

/// A participant set after adding one owner: unchanged if already present.
pub open spec fn farmers_after_add(fs: Seq<u64>, farmer_addr: u64) -> Seq<u64> {
    if fs.contains(farmer_addr) {
        fs
    } else {
        fs.push(farmer_addr)
    }
}

/// A participant set after removing every occurrence of one owner.
pub open spec fn farmers_after_remove(fs: Seq<u64>, farmer_addr: u64) -> Seq<u64>
    decreases fs.len(),
{
    if fs.len() == 0 {
        fs
    } else {
        let rest = farmers_after_remove(fs.drop_last(), farmer_addr);
        if fs.last() == farmer_addr {
            rest
        } else {
            rest.push(fs.last())
        }
    }
}

/// Adding an owner twice changes the participant set exactly once.
pub proof fn lemma_farmers_after_add_idempotent(fs: Seq<u64>, farmer_addr: u64)
    ensures
        farmers_after_add(farmers_after_add(fs, farmer_addr), farmer_addr) == farmers_after_add(
            fs,
            farmer_addr,
        ),
        farmers_after_add(fs, farmer_addr).contains(farmer_addr),
{
    let once = farmers_after_add(fs, farmer_addr);
    if fs.contains(farmer_addr) {
    } else {
        assert(once[fs.len() as int] == farmer_addr);
        assert(once.contains(farmer_addr));
    }
}

/// Removal keeps exactly the other owners and never introduces duplicates.
pub proof fn lemma_farmers_after_remove(fs: Seq<u64>, farmer_addr: u64)
    ensures
        forall|x: u64|
            #[trigger] farmers_after_remove(fs, farmer_addr).contains(x) <==> (fs.contains(x) && x
                != farmer_addr),
        nodup_u64(fs) ==> nodup_u64(farmers_after_remove(fs, farmer_addr)),
        farmers_after_remove(fs, farmer_addr).len() <= fs.len(),
    decreases fs.len(),
{
    let out = farmers_after_remove(fs, farmer_addr);
    if fs.len() == 0 {
        assert forall|x: u64| #[trigger] out.contains(x) implies (fs.contains(x) && x
            != farmer_addr) by {
            let i = choose|i: int| 0 <= i < out.len() && out[i] == x;
            assert(false);
        }
    } else {
        let head = fs.drop_last();
        let last = fs.last();
        lemma_farmers_after_remove(head, farmer_addr);
        let sub = farmers_after_remove(head, farmer_addr);
        assert forall|x: u64| #[trigger] out.contains(x) implies (fs.contains(x) && x
            != farmer_addr) by {
            let i = choose|i: int| 0 <= i < out.len() && out[i] == x;
            if last != farmer_addr && i == out.len() - 1 {
                assert(x == last);
                assert(fs[fs.len() - 1] == x);
            } else {
                assert(sub.contains(x));
                assert(head.contains(x));
                let j = choose|j: int| 0 <= j < head.len() && head[j] == x;
                assert(fs[j] == x);
            }
        }
        assert forall|x: u64| fs.contains(x) && x != farmer_addr implies #[trigger] out.contains(
            x,
        ) by {
            let i = choose|i: int| 0 <= i < fs.len() && fs[i] == x;
            if i == fs.len() - 1 {
                assert(out[out.len() - 1] == x);
            } else {
                assert(head[i] == x);
                assert(head.contains(x));
                assert(sub.contains(x));
                let j = choose|j: int| 0 <= j < sub.len() && sub[j] == x;
                assert(out[j] == x);
            }
        }
        if nodup_u64(fs) {
            assert(nodup_u64(head)) by {
                assert forall|i: int, j: int|
                    0 <= i < head.len() && 0 <= j < head.len() && i != j implies head[i]
                    != head[j] by {
                    assert(fs[i] == head[i] && fs[j] == head[j]);
                }
            }
            if last != farmer_addr {
                assert(!sub.contains(last)) by {
                    if sub.contains(last) {
                        assert(head.contains(last));
                        let j = choose|j: int| 0 <= j < head.len() && head[j] == last;
                        assert(fs[j] == fs[fs.len() - 1]);
                    }
                }
                assert forall|a: int, b: int|
                    0 <= a < out.len() && 0 <= b < out.len() && a != b implies out[a] != out[b] by {
                    if a < sub.len() && b < sub.len() {
                        assert(out[a] == sub[a] && out[b] == sub[b]);
                    } else if a < sub.len() {
                        assert(out[b] == last);
                        if sub[a] == last {
                            assert(sub.contains(last));
                        }
                    } else if b < sub.len() {
                        assert(out[a] == last);
                        if sub[b] == last {
                            assert(sub.contains(last));
                        }
                    }
                }
            }
        }
    }
}

impl Storage {
    /// Both ledgers are keyed consistently.
    pub open spec fn wf(&self) -> bool {
        positions_unique(self.positions@) && cdps_unique(self.cdps@)
    }

    /// An empty store around a configuration.
    pub fn new(config: Config) -> (s: Storage)
        ensures
            s.wf(),
            s.config == config,
            s.cdps@.len() == 0,
            s.positions@.len() == 0,
            s.job.is_none(),
    {
        Storage { config, cdps: Vec::new(), positions: Vec::new(), job: None }
    }
}

/// Any index whose record matches the key is the key's index.
pub proof fn lemma_position_index_is(ps: Seq<Position>, farmer_addr: u64, masset_token: u64, i: int)
    requires
        positions_unique(ps),
        0 <= i < ps.len(),
        is_position_for(ps[i], farmer_addr, masset_token),
    ensures
        has_position(ps, farmer_addr, masset_token),
        position_index(ps, farmer_addr, masset_token) == i,
        spec_position(ps, farmer_addr, masset_token) == ps[i],
{
    assert(has_position(ps, farmer_addr, masset_token));
    let k = position_index(ps, farmer_addr, masset_token);
    assert(0 <= k < ps.len() && is_position_for(ps[k], farmer_addr, masset_token));
    assert(k == i);
}

/// Any index whose facility matches the asset is the asset's index.
pub proof fn lemma_cdp_index_is(cs: Seq<CDP>, masset_token: u64, i: int)
    requires
        cdps_unique(cs),
        0 <= i < cs.len(),
        cs[i].masset_token == masset_token,
    ensures
        has_cdp(cs, masset_token),
        cdp_index(cs, masset_token) == i,
        spec_cdp(cs, masset_token) == cs[i],
{
    assert(has_cdp(cs, masset_token));
    let k = cdp_index(cs, masset_token);
    assert(0 <= k < cs.len() && cs[k].masset_token == masset_token);
    assert(k == i);
}

pub fn load_config(storage: &Storage) -> (r: &Config)
    ensures
        *r == storage.config,
{
    &storage.config
}

pub fn save_config(storage: &mut Storage, config: &Config)
    ensures
        final(storage).config == *config,
        final(storage).cdps == old(storage).cdps,
        final(storage).positions == old(storage).positions,
        final(storage).job == old(storage).job,
{
    storage.config = *config;
}

/// Index of the facility of `masset_token` in the store, if any.
fn find_cdp(storage: &Storage, masset_token: u64) -> (r: Option<usize>)
    requires
        storage.wf(),
    ensures
        match r {
            Some(i) => {
                &&& i < storage.cdps@.len()
                &&& storage.cdps@[i as int].masset_token == masset_token
                &&& has_cdp(storage.cdps@, masset_token)
                &&& cdp_index(storage.cdps@, masset_token) == i
            },
            None => !has_cdp(storage.cdps@, masset_token),
        },
{
    let n = storage.cdps.len();
    let mut i: usize = 0;
    while i < n
        invariant
            i <= n,
            n == storage.cdps@.len(),
            storage.wf(),
            forall|k: int| 0 <= k < i ==> storage.cdps@[k].masset_token != masset_token,
        decreases n - i,
    {
        if storage.cdps[i].masset_token == masset_token {
            proof {
                lemma_cdp_index_is(storage.cdps@, masset_token, i as int);
            }
            return Some(i);
        }
        i += 1;
    }
    None
}

/// A value copy of a facility record.
fn clone_cdp(c: &CDP) -> (r: CDP)
    ensures
        r.idx == c.idx,
        r.masset_token == c.masset_token,
        r.farmers@ == c.farmers@,
{
    let mut farmers: Vec<u64> = Vec::new();
    let n = c.farmers.len();
    let mut i: usize = 0;
    while i < n
        invariant
            i <= n,
            n == c.farmers@.len(),
            farmers@ == c.farmers@.take(i as int),
        decreases n - i,
    {
        farmers.push(c.farmers[i]);
        proof {
            assert(farmers@ =~= c.farmers@.take(i + 1 as int));
        }
        i += 1;
    }
    proof {
        assert(c.farmers@.take(n as int) =~= c.farmers@);
    }
    CDP { idx: c.idx, masset_token: c.masset_token, farmers }
}

pub fn may_load_cdp(storage: &Storage, masset_token: u64) -> (r: Option<CDP>)
    requires
        storage.wf(),
    ensures
        match r {
            Some(c) => {
                &&& has_cdp(storage.cdps@, masset_token)
                &&& c.idx == spec_cdp(storage.cdps@, masset_token).idx
                &&& c.masset_token == masset_token
                &&& c.farmers@ == spec_cdp(storage.cdps@, masset_token).farmers@
            },
            None => !has_cdp(storage.cdps@, masset_token),
        },
{
    match find_cdp(storage, masset_token) {
        Some(i) => Some(clone_cdp(&storage.cdps[i])),
        None => None,
    }
}

pub fn load_cdp(storage: &Storage, masset_token: u64) -> (r: Result<CDP, Error>)
    requires
        storage.wf(),
    ensures
        match r {
            Ok(c) => {
                &&& has_cdp(storage.cdps@, masset_token)
                &&& c.idx == spec_cdp(storage.cdps@, masset_token).idx
                &&& c.masset_token == masset_token
                &&& c.farmers@ == spec_cdp(storage.cdps@, masset_token).farmers@
            },
            Err(e) => e == Error::NoCdp && !has_cdp(storage.cdps@, masset_token),
        },
{
    match may_load_cdp(storage, masset_token) {
        Some(c) => Ok(c),
        None => Err(Error::NoCdp),
    }
}

pub fn load_all_cdps(storage: &Storage) -> (r: Vec<CDP>)
    ensures
        r@.len() == storage.cdps@.len(),
        forall|i: int|
            0 <= i < r@.len() ==> {
                &&& (#[trigger] r@[i]).idx == storage.cdps@[i].idx
                &&& r@[i].masset_token == storage.cdps@[i].masset_token
                &&& r@[i].farmers@ == storage.cdps@[i].farmers@
            },
{
    let mut out: Vec<CDP> = Vec::new();
    let n = storage.cdps.len();
    let mut i: usize = 0;
    while i < n
        invariant
            i <= n,
            n == storage.cdps@.len(),
            out@.len() == i,
            forall|k: int|
                0 <= k < i ==> {
                    &&& (#[trigger] out@[k]).idx == storage.cdps@[k].idx
                    &&& out@[k].masset_token == storage.cdps@[k].masset_token
                    &&& out@[k].farmers@ == storage.cdps@[k].farmers@
                },
        decreases n - i,
    {
        out.push(clone_cdp(&storage.cdps[i]));
        i += 1;
    }
    out
}

/// Inserts or replaces the facility record keyed by its asset.
pub fn save_cdp(storage: &mut Storage, cdp: CDP)
    requires
        old(storage).wf(),
        nodup_u64(cdp.farmers@),
    ensures
        final(storage).wf(),
        final(storage).config == old(storage).config,
        final(storage).positions == old(storage).positions,
        final(storage).job == old(storage).job,
        if has_cdp(old(storage).cdps@, cdp.masset_token) {
            final(storage).cdps@ == old(storage).cdps@.update(
                cdp_index(old(storage).cdps@, cdp.masset_token),
                cdp,
            )
        } else {
            final(storage).cdps@ == old(storage).cdps@.push(cdp)
        },
        has_cdp(final(storage).cdps@, cdp.masset_token),
{
    let ghost old_cdps = storage.cdps@;
    let token = cdp.masset_token;
    match find_cdp(storage, token) {
        Some(i) => {
            storage.cdps[i] = cdp;
            proof {
                assert(positions_unique(storage.positions@));
                assert(cdps_unique(storage.cdps@));
                lemma_cdp_index_is(storage.cdps@, token, i as int);
            }
        },
        None => {
            let ghost n = storage.cdps@.len() as int;
            storage.cdps.push(cdp);
            proof {
                assert forall|i: int, j: int|
                    0 <= i < storage.cdps@.len() && 0 <= j < storage.cdps@.len() && i != j implies (
                #[trigger] storage.cdps@[i]).masset_token != (#[trigger] storage.cdps@[j]).masset_token by {
                    if i < n && j < n {
                        assert(old_cdps[i].masset_token != old_cdps[j].masset_token);
                    }
                }
                assert(cdps_unique(storage.cdps@));
                lemma_cdp_index_is(storage.cdps@, token, n);
            }
        },
    }
}

/// Deletes a facility; per the ledger's rules a facility is only deleted
/// once no participant remains.
pub fn remove_cdp(storage: &mut Storage, masset_token: u64)
    requires
        old(storage).wf(),
        has_cdp(old(storage).cdps@, masset_token) ==> spec_cdp(
            old(storage).cdps@,
            masset_token,
        ).farmers@.len() == 0,
    ensures
        final(storage).wf(),
        final(storage).config == old(storage).config,
        final(storage).positions == old(storage).positions,
        final(storage).job == old(storage).job,
        if has_cdp(old(storage).cdps@, masset_token) {
            final(storage).cdps@ == old(storage).cdps@.remove(
                cdp_index(old(storage).cdps@, masset_token),
            )
        } else {
            final(storage).cdps@ == old(storage).cdps@
        },
{
    match find_cdp(storage, masset_token) {
        Some(i) => {
            let ghost old_cdps = storage.cdps@;
            storage.cdps.remove(i);
            proof {
                assert forall|a: int, b: int|
                    0 <= a < storage.cdps@.len() && 0 <= b < storage.cdps@.len() && a != b implies (
                #[trigger] storage.cdps@[a]).masset_token != (#[trigger] storage.cdps@[b]).masset_token by {
                    let a0 = if a < i as int { a } else { a + 1 };
                    let b0 = if b < i as int { b } else { b + 1 };
                    assert(storage.cdps@[a] == old_cdps[a0]);
                    assert(storage.cdps@[b] == old_cdps[b0]);
                }
                assert forall|k: int| 0 <= k < storage.cdps@.len() implies nodup_u64(
                    #[trigger] storage.cdps@[k].farmers@,
                ) by {
                    let k0 = if k < i as int { k } else { k + 1 };
                    assert(storage.cdps@[k] == old_cdps[k0]);
                }
            }
        },
        None => {},
    }
}

/// Whether `x` occurs in `v`.
fn contains_u64(v: &Vec<u64>, x: u64) -> (r: bool)
    ensures
        r == v@.contains(x),
{
    let n = v.len();
    let mut i: usize = 0;
    while i < n
        invariant
            i <= n,
            n == v@.len(),
            forall|k: int| 0 <= k < i ==> v@[k] != x,
        decreases n - i,
    {
        if v[i] == x {
            assert(v@.contains(x));
            return true;
        }
        i += 1;
    }
    assert(!v@.contains(x));
    false
}

/// Registers an owner as a participant of the asset's facility, creating the
/// facility if it does not exist yet. Adding an owner that is already
/// present leaves the participant set unchanged.
pub fn add_farmer_to_cdp(storage: &mut Storage, cdp_idx: u64, farmer_addr: u64, masset_token: u64)
    requires
        old(storage).wf(),
    ensures
        final(storage).wf(),
        final(storage).config == old(storage).config,
        final(storage).positions == old(storage).positions,
        final(storage).job == old(storage).job,
        has_cdp(final(storage).cdps@, masset_token),
        if has_cdp(old(storage).cdps@, masset_token) {
            {
                let i = cdp_index(old(storage).cdps@, masset_token);
                let c = old(storage).cdps@[i];
                &&& final(storage).cdps@.len() == old(storage).cdps@.len()
                &&& cdp_index(final(storage).cdps@, masset_token) == i
                &&& spec_cdp(final(storage).cdps@, masset_token).idx == c.idx
                &&& spec_cdp(final(storage).cdps@, masset_token).masset_token == masset_token
                &&& spec_cdp(final(storage).cdps@, masset_token).farmers@ == farmers_after_add(
                    c.farmers@,
                    farmer_addr,
                )
                &&& forall|k: int|
                    0 <= k < old(storage).cdps@.len() && k != i ==> final(storage).cdps@[k] == old(
                        storage,
                    ).cdps@[k]
            }
        } else {
            {
                &&& final(storage).cdps@.len() == old(storage).cdps@.len() + 1
                &&& final(storage).cdps@.subrange(0, old(storage).cdps@.len() as int) == old(
                    storage,
                ).cdps@
                &&& spec_cdp(final(storage).cdps@, masset_token).idx == cdp_idx
                &&& spec_cdp(final(storage).cdps@, masset_token).farmers@ == seq![farmer_addr]
            }
        },
{
    match find_cdp(storage, masset_token) {
        Some(i) => {
            let ghost old_cdps = storage.cdps@;
            let already = contains_u64(&storage.cdps[i].farmers, farmer_addr);
            if !already {
                storage.cdps[i].farmers.push(farmer_addr);
                proof {
                    assert(storage.cdps@.len() == old_cdps.len());
                    assert(storage.cdps@ == old_cdps.update(
                        i as int,
                        storage.cdps@[i as int],
                    ));
                    assert(storage.cdps@[i as int].farmers@ == old_cdps[i as int].farmers@.push(
                        farmer_addr,
                    ));
                    assert forall|a: int, b: int|
                        0 <= a < storage.cdps@.len() && 0 <= b < storage.cdps@.len() && a
                            != b implies storage.cdps@[a].masset_token
                        != storage.cdps@[b].masset_token by {
                        assert(old_cdps[a].masset_token != old_cdps[b].masset_token);
                    }
                    assert forall|k: int| 0 <= k < storage.cdps@.len() implies nodup_u64(
                        storage.cdps@[k].farmers@,
                    ) by {
                        assert(nodup_u64(old_cdps[k].farmers@));
                        if k == i as int {
                            let fs = old_cdps[i as int].farmers@;
                            assert(!fs.contains(farmer_addr));
                            assert forall|a: int, b: int|
                                0 <= a < fs.len() + 1 && 0 <= b < fs.len() + 1 && a
                                    != b implies fs.push(farmer_addr)[a] != fs.push(
                                farmer_addr,
                            )[b] by {
                                if a < fs.len() && b < fs.len() {
                                } else if a < fs.len() {
                                    if fs[a] == farmer_addr {
                                        assert(fs.contains(farmer_addr));
                                    }
                                } else if b < fs.len() {
                                    if fs[b] == farmer_addr {
                                        assert(fs.contains(farmer_addr));
                                    }
                                }
                            }
                        }
                    }
                    lemma_cdp_index_is(storage.cdps@, masset_token, i as int);
                }
            } else {
                proof {
                    lemma_cdp_index_is(storage.cdps@, masset_token, i as int);
                }
            }
        },
        None => {
            let ghost old_cdps = storage.cdps@;
            let mut farmers: Vec<u64> = Vec::new();
            farmers.push(farmer_addr);
            let cdp = CDP { idx: cdp_idx, masset_token, farmers };
            let ghost n = storage.cdps@.len() as int;
            storage.cdps.push(cdp);
            proof {
                assert forall|a: int, b: int|
                    0 <= a < storage.cdps@.len() && 0 <= b < storage.cdps@.len() && a
                        != b implies storage.cdps@[a].masset_token
                    != storage.cdps@[b].masset_token by {
                    if a < n && b < n {
                        assert(old_cdps[a].masset_token != old_cdps[b].masset_token);
                    }
                }
                assert forall|k: int| 0 <= k < storage.cdps@.len() implies nodup_u64(
                    storage.cdps@[k].farmers@,
                ) by {
                    if k < n {
                        assert(nodup_u64(old_cdps[k].farmers@));
                        assert(storage.cdps@[k] == old_cdps[k]);
                    } else {
                        assert(storage.cdps@[k].farmers@ =~= seq![farmer_addr]);
                    }
                }
                lemma_cdp_index_is(storage.cdps@, masset_token, n);
                assert(storage.cdps@.subrange(0, n) =~= old_cdps);
                assert(storage.cdps@[n].farmers@ =~= seq![farmer_addr]);
            }
        },
    }
}

/// Removes an owner from the asset's participant set; removing an owner that
/// is not present leaves the set unchanged. Fails only when the facility
/// itself is unknown.
pub fn remove_farmer_from_cdp(storage: &mut Storage, farmer_addr: u64, masset_token: u64) -> (r:
    Result<(), Error>)
    requires
        old(storage).wf(),
    ensures
        final(storage).wf(),
        final(storage).config == old(storage).config,
        final(storage).positions == old(storage).positions,
        final(storage).job == old(storage).job,
        match r {
            Ok(_) => {
                let i = cdp_index(old(storage).cdps@, masset_token);
                let c = old(storage).cdps@[i];
                &&& has_cdp(old(storage).cdps@, masset_token)
                &&& final(storage).cdps@.len() == old(storage).cdps@.len()
                &&& cdp_index(final(storage).cdps@, masset_token) == i
                &&& spec_cdp(final(storage).cdps@, masset_token).idx == c.idx
                &&& spec_cdp(final(storage).cdps@, masset_token).masset_token == masset_token
                &&& spec_cdp(final(storage).cdps@, masset_token).farmers@ == farmers_after_remove(
                    c.farmers@,
                    farmer_addr,
                )
                &&& forall|k: int|
                    0 <= k < old(storage).cdps@.len() && k != i ==> final(storage).cdps@[k] == old(
                        storage,
                    ).cdps@[k]
            },
            Err(e) => {
                &&& e == Error::NoCdp
                &&& !has_cdp(old(storage).cdps@, masset_token)
                &&& final(storage).cdps@ == old(storage).cdps@
            },
        },
{
    match find_cdp(storage, masset_token) {
        None => Err(Error::NoCdp),
        Some(i) => {
            let ghost old_cdps = storage.cdps@;
            let ghost fs = storage.cdps@[i as int].farmers@;
            let mut kept: Vec<u64> = Vec::new();
            let n = storage.cdps[i].farmers.len();
            let mut k: usize = 0;
            while k < n
                invariant
                    k <= n,
                    i < storage.cdps@.len(),
                    n == fs.len(),
                    storage.cdps@ == old_cdps,
                    fs == storage.cdps@[i as int].farmers@,
                    kept@ == farmers_after_remove(fs.take(k as int), farmer_addr),
                decreases n - k,
            {
                let x = storage.cdps[i].farmers[k];
                proof {
                    assert(fs.take(k + 1 as int).drop_last() =~= fs.take(k as int));
                    assert(fs.take(k + 1 as int).last() == fs[k as int]);
                }
                if x != farmer_addr {
                    kept.push(x);
                }
                proof {
                    assert(kept@ =~= farmers_after_remove(fs.take(k + 1 as int), farmer_addr));
                }
                k += 1;
            }
            proof {
                assert(fs.take(n as int) =~= fs);
            }
            storage.cdps[i].farmers = kept;
            proof {
                assert(storage.cdps@.len() == old_cdps.len());
                assert(storage.cdps@ == old_cdps.update(i as int, storage.cdps@[i as int]));
                assert(storage.cdps@[i as int].farmers@ == farmers_after_remove(fs, farmer_addr));
                assert forall|a: int, b: int|
                    0 <= a < storage.cdps@.len() && 0 <= b < storage.cdps@.len() && a
                        != b implies storage.cdps@[a].masset_token
                    != storage.cdps@[b].masset_token by {
                    assert(old_cdps[a].masset_token != old_cdps[b].masset_token);
                }
                assert forall|k2: int| 0 <= k2 < storage.cdps@.len() implies nodup_u64(
                    storage.cdps@[k2].farmers@,
                ) by {
                    assert(nodup_u64(old_cdps[k2].farmers@));
                    if k2 == i as int {
                        lemma_farmers_after_remove(fs, farmer_addr);
                    }
                }
                lemma_cdp_index_is(storage.cdps@, masset_token, i as int);
            }
            Ok(())
        },
    }
}

/// Index of the record of `(farmer_addr, masset_token)`, if any.
fn find_position(storage: &Storage, farmer_addr: u64, masset_token: u64) -> (r: Option<usize>)
    requires
        storage.wf(),
    ensures
        match r {
            Some(i) => {
                &&& i < storage.positions@.len()
                &&& is_position_for(storage.positions@[i as int], farmer_addr, masset_token)
                &&& has_position(storage.positions@, farmer_addr, masset_token)
                &&& position_index(storage.positions@, farmer_addr, masset_token) == i
            },
            None => !has_position(storage.positions@, farmer_addr, masset_token),
        },
{
    let n = storage.positions.len();
    let mut i: usize = 0;
    while i < n
        invariant
            i <= n,
            n == storage.positions@.len(),
            storage.wf(),
            forall|k: int|
                0 <= k < i ==> !is_position_for(storage.positions@[k], farmer_addr, masset_token),
        decreases n - i,
    {
        let p = &storage.positions[i];
        if p.farmer_addr == farmer_addr && p.masset_token == masset_token {
            proof {
                lemma_position_index_is(storage.positions@, farmer_addr, masset_token, i as int);
            }
            return Some(i);
        }
        i += 1;
    }
    None
}

pub fn may_load_position(storage: &Storage, farmer_addr: u64, masset_token: u64) -> (r: Option<
    Position,
>)
    requires
        storage.wf(),
    ensures
        r == if has_position(storage.positions@, farmer_addr, masset_token) {
            Some(spec_position(storage.positions@, farmer_addr, masset_token))
        } else {
            None::<Position>
        },
{
    match find_position(storage, farmer_addr, masset_token) {
        Some(i) => Some(storage.positions[i]),
        None => None,
    }
}

pub fn load_position(storage: &Storage, farmer_addr: u64, masset_token: u64) -> (r: Result<
    Position,
    Error,
>)
    requires
        storage.wf(),
    ensures
        match r {
            Ok(p) => has_position(storage.positions@, farmer_addr, masset_token) && p
                == spec_position(storage.positions@, farmer_addr, masset_token),
            Err(e) => e == Error::NoPosition && !has_position(
                storage.positions@,
                farmer_addr,
                masset_token,
            ),
        },
{
    match may_load_position(storage, farmer_addr, masset_token) {
        Some(p) => Ok(p),
        None => Err(Error::NoPosition),
    }
}

/// Inserts or replaces the record keyed by `(farmer_addr, masset_token)`.
pub fn save_position(storage: &mut Storage, position: &Position)
    requires
        old(storage).wf(),
    ensures
        final(storage).wf(),
        final(storage).config == old(storage).config,
        final(storage).cdps == old(storage).cdps,
        final(storage).job == old(storage).job,
        if has_position(old(storage).positions@, position.farmer_addr, position.masset_token) {
            final(storage).positions@ == old(storage).positions@.update(
                position_index(
                    old(storage).positions@,
                    position.farmer_addr,
                    position.masset_token,
                ),
                *position,
            )
        } else {
            final(storage).positions@ == old(storage).positions@.push(*position)
        },
        has_position(final(storage).positions@, position.farmer_addr, position.masset_token),
        spec_position(final(storage).positions@, position.farmer_addr, position.masset_token)
            == *position,
{
    let ghost old_ps = storage.positions@;
    match find_position(storage, position.farmer_addr, position.masset_token) {
        Some(i) => {
            storage.positions[i] = *position;
            proof {
                assert forall|a: int, b: int|
                    0 <= a < storage.positions@.len() && 0 <= b < storage.positions@.len() && a
                        != b implies !(storage.positions@[a].farmer_addr
                    == storage.positions@[b].farmer_addr && storage.positions@[a].masset_token
                    == storage.positions@[b].masset_token) by {
                    assert(!(old_ps[a].farmer_addr == old_ps[b].farmer_addr
                        && old_ps[a].masset_token == old_ps[b].masset_token));
                }
                lemma_position_index_is(
                    storage.positions@,
                    position.farmer_addr,
                    position.masset_token,
                    i as int,
                );
            }
        },
        None => {
            let ghost n = storage.positions@.len() as int;
            storage.positions.push(*position);
            proof {
                assert forall|a: int, b: int|
                    0 <= a < storage.positions@.len() && 0 <= b < storage.positions@.len() && a
                        != b implies !(storage.positions@[a].farmer_addr
                    == storage.positions@[b].farmer_addr && storage.positions@[a].masset_token
                    == storage.positions@[b].masset_token) by {
                    if a < n && b < n {
                        assert(!(old_ps[a].farmer_addr == old_ps[b].farmer_addr
                            && old_ps[a].masset_token == old_ps[b].masset_token));
                    }
                }
                lemma_position_index_is(
                    storage.positions@,
                    position.farmer_addr,
                    position.masset_token,
                    n,
                );
            }
        },
    }
}

/// Deletes the record of `(farmer_addr, masset_token)`; per the ledger's
/// rules a position is only deleted once its collateral has reached zero.
pub fn remove_position(storage: &mut Storage, farmer_addr: u64, masset_token: u64)
    requires
        old(storage).wf(),
        has_position(old(storage).positions@, farmer_addr, masset_token) ==> spec_position(
            old(storage).positions@,
            farmer_addr,
            masset_token,
        ).collateral == 0,
    ensures
        final(storage).wf(),
        final(storage).config == old(storage).config,
        final(storage).cdps == old(storage).cdps,
        final(storage).job == old(storage).job,
        if has_position(old(storage).positions@, farmer_addr, masset_token) {
            final(storage).positions@ == old(storage).positions@.remove(
                position_index(old(storage).positions@, farmer_addr, masset_token),
            )
        } else {
            final(storage).positions@ == old(storage).positions@
        },
        !has_position(final(storage).positions@, farmer_addr, masset_token),
{
    let ghost old_ps = storage.positions@;
    match find_position(storage, farmer_addr, masset_token) {
        Some(i) => {
            storage.positions.remove(i);
            proof {
                assert forall|a: int, b: int|
                    0 <= a < storage.positions@.len() && 0 <= b < storage.positions@.len() && a
                        != b implies !(storage.positions@[a].farmer_addr
                    == storage.positions@[b].farmer_addr && storage.positions@[a].masset_token
                    == storage.positions@[b].masset_token) by {
                    let a0 = if a < i as int {
                        a
                    } else {
                        a + 1
                    };
                    let b0 = if b < i as int {
                        b
                    } else {
                        b + 1
                    };
                    assert(storage.positions@[a] == old_ps[a0]);
                    assert(storage.positions@[b] == old_ps[b0]);
                }
                assert forall|k: int| 0 <= k < storage.positions@.len() implies !is_position_for(
                    storage.positions@[k],
                    farmer_addr,
                    masset_token,
                ) by {
                    let k0 = if k < i as int {
                        k
                    } else {
                        k + 1
                    };
                    assert(storage.positions@[k] == old_ps[k0]);
                }
            }
        },
        None => {},
    }
}

pub fn load_all_positions(storage: &Storage) -> (r: Vec<Position>)
    ensures
        r@ == storage.positions@,
{
    let mut out: Vec<Position> = Vec::new();
    let n = storage.positions.len();
    let mut i: usize = 0;
    while i < n
        invariant
            i <= n,
            n == storage.positions@.len(),
            out@ == storage.positions@.take(i as int),
        decreases n - i,
    {
        out.push(storage.positions[i]);
        proof {
            assert(out@ =~= storage.positions@.take(i + 1 as int));
        }
        i += 1;
    }
    proof {
        assert(storage.positions@.take(n as int) =~= storage.positions@);
    }
    out
}

pub fn load_positions_by_farmer_addr(storage: &Storage, farmer_addr: u64) -> (r: Vec<Position>)
    ensures
        r@.len() <= storage.positions@.len(),
        forall|k: int| 0 <= k < r@.len() ==> (#[trigger] r@[k]).farmer_addr == farmer_addr,
        forall|k: int|
            0 <= k < storage.positions@.len() && (#[trigger] storage.positions@[k]).farmer_addr
                == farmer_addr ==> r@.contains(storage.positions@[k]),
        forall|k: int| 0 <= k < r@.len() ==> storage.positions@.contains(#[trigger] r@[k]),
{
    let mut out: Vec<Position> = Vec::new();
    let n = storage.positions.len();
    let mut i: usize = 0;
    while i < n
        invariant
            i <= n,
            n == storage.positions@.len(),
            out@.len() <= i,
            forall|k: int| 0 <= k < out@.len() ==> (#[trigger] out@[k]).farmer_addr == farmer_addr,
            forall|k: int|
                0 <= k < i && (#[trigger] storage.positions@[k]).farmer_addr == farmer_addr
                    ==> out@.contains(storage.positions@[k]),
            forall|k: int| 0 <= k < out@.len() ==> storage.positions@.contains(#[trigger] out@[k]),
        decreases n - i,
    {
        let p = storage.positions[i];
        if p.farmer_addr == farmer_addr {
            let ghost prev = out@;
            out.push(p);
            proof {
                assert(out@[out@.len() - 1] == p);
                assert(storage.positions@.contains(p));
                assert forall|k: int|
                    0 <= k < i + 1 && (#[trigger] storage.positions@[k]).farmer_addr
                        == farmer_addr implies out@.contains(storage.positions@[k]) by {
                    if k < i {
                        assert(prev.contains(storage.positions@[k]));
                        let j = choose|j: int|
                            0 <= j < prev.len() && prev[j] == storage.positions@[k];
                        assert(out@[j] == storage.positions@[k]);
                    } else {
                        assert(out@[out@.len() - 1] == storage.positions@[k]);
                    }
                }
            }
        }
        i += 1;
    }
    out
}

/// Applies a signed delta to an existing record's balances; creation is the
/// business of `upsert_delta`.
fn position_apply_delta(
    storage: &mut Storage,
    farmer_addr: u64,
    masset_token: u64,
    loan_delta: i128,
    collateral_delta: i128,
) -> (r: Result<Position, Error>)
    requires
        old(storage).wf(),
    ensures
        final(storage).wf(),
        final(storage).config == old(storage).config,
        final(storage).cdps == old(storage).cdps,
        final(storage).job == old(storage).job,
        match r {
            Ok(p) => {
                let prev = spec_position(old(storage).positions@, farmer_addr, masset_token);
                &&& has_position(old(storage).positions@, farmer_addr, masset_token)
                &&& 0 <= prev.loan + loan_delta <= u64::MAX
                &&& 0 <= prev.collateral + collateral_delta <= u64::MAX
                &&& p == Position {
                    loan: (prev.loan + loan_delta) as u64,
                    collateral: (prev.collateral + collateral_delta) as u64,
                    ..prev
                }
                &&& final(storage).positions@ == old(storage).positions@.update(
                    position_index(old(storage).positions@, farmer_addr, masset_token),
                    p,
                )
            },
            Err(e) => {
                &&& final(storage).positions@ == old(storage).positions@
                &&& if !has_position(old(storage).positions@, farmer_addr, masset_token) {
                    e == Error::NoPosition
                } else {
                    let prev = spec_position(old(storage).positions@, farmer_addr, masset_token);
                    e == Error::ArithmeticError && !(0 <= prev.loan + loan_delta <= u64::MAX && 0
                        <= prev.collateral + collateral_delta <= u64::MAX)
                }
            },
        },
{
    let i = match find_position(storage, farmer_addr, masset_token) {
        Some(i) => i,
        None => {
            return Err(Error::NoPosition);
        },
    };
    let prev = storage.positions[i];
    let new_loan = match (prev.loan as i128).checked_add(loan_delta) {
        Some(v) => v,
        None => {
            return Err(Error::ArithmeticError);
        },
    };
    let new_collateral = match (prev.collateral as i128).checked_add(collateral_delta) {
        Some(v) => v,
        None => {
            return Err(Error::ArithmeticError);
        },
    };
    if new_loan < 0 || new_loan > u64::MAX as i128 || new_collateral < 0 || new_collateral
        > u64::MAX as i128 {
        return Err(Error::ArithmeticError);
    }
    let p = Position {
        loan: new_loan as u64,
        collateral: new_collateral as u64,
        ..prev
    };
    let ghost old_ps = storage.positions@;
    storage.positions[i] = p;
    proof {
        assert forall|a: int, b: int|
            0 <= a < storage.positions@.len() && 0 <= b < storage.positions@.len() && a
                != b implies !(storage.positions@[a].farmer_addr
            == storage.positions@[b].farmer_addr && storage.positions@[a].masset_token
            == storage.positions@[b].masset_token) by {
            assert(!(old_ps[a].farmer_addr == old_ps[b].farmer_addr && old_ps[a].masset_token
                == old_ps[b].masset_token));
        }
    }
    Ok(p)
}

/// The single way balances enter the ledger: creates the record from
/// `defaults` when absent, then applies the signed deltas. The commit point
/// of every finalized job.
pub fn upsert_delta(
    storage: &mut Storage,
    farmer_addr: u64,
    masset_token: u64,
    loan_delta: i128,
    collateral_delta: i128,
    defaults: &Position,
) -> (r: Result<Position, Error>)
    requires
        old(storage).wf(),
        defaults.farmer_addr == farmer_addr,
        defaults.masset_token == masset_token,
    ensures
        final(storage).wf(),
        final(storage).config == old(storage).config,
        final(storage).cdps == old(storage).cdps,
        final(storage).job == old(storage).job,
        match r {
            Ok(p) => {
                let base = if has_position(old(storage).positions@, farmer_addr, masset_token) {
                    spec_position(old(storage).positions@, farmer_addr, masset_token)
                } else {
                    *defaults
                };
                &&& 0 <= base.loan + loan_delta <= u64::MAX
                &&& 0 <= base.collateral + collateral_delta <= u64::MAX
                &&& p == Position {
                    loan: (base.loan + loan_delta) as u64,
                    collateral: (base.collateral + collateral_delta) as u64,
                    ..base
                }
                &&& if has_position(old(storage).positions@, farmer_addr, masset_token) {
                    final(storage).positions@ == old(storage).positions@.update(
                        position_index(old(storage).positions@, farmer_addr, masset_token),
                        p,
                    )
                } else {
                    final(storage).positions@ == old(storage).positions@.push(p)
                }
                &&& has_position(final(storage).positions@, farmer_addr, masset_token)
                &&& spec_position(final(storage).positions@, farmer_addr, masset_token) == p
            },
            Err(e) => {
                let base = if has_position(old(storage).positions@, farmer_addr, masset_token) {
                    spec_position(old(storage).positions@, farmer_addr, masset_token)
                } else {
                    *defaults
                };
                &&& e == Error::ArithmeticError
                &&& !(0 <= base.loan + loan_delta <= u64::MAX && 0 <= base.collateral
                    + collateral_delta <= u64::MAX)
                &&& final(storage).positions@ == old(storage).positions@
            },
        },
{
    let base = match may_load_position(storage, farmer_addr, masset_token) {
        Some(p) => p,
        None => *defaults,
    };
    let new_loan = match (base.loan as i128).checked_add(loan_delta) {
        Some(v) => v,
        None => {
            return Err(Error::ArithmeticError);
        },
    };
    let new_collateral = match (base.collateral as i128).checked_add(collateral_delta) {
        Some(v) => v,
        None => {
            return Err(Error::ArithmeticError);
        },
    };
    if new_loan < 0 || new_loan > u64::MAX as i128 || new_collateral < 0 || new_collateral
        > u64::MAX as i128 {
        return Err(Error::ArithmeticError);
    }
    let p = Position {
        loan: new_loan as u64,
        collateral: new_collateral as u64,
        ..base
    };
    save_position(storage, &p);
    Ok(p)
}

pub fn increase_position_collateral(
    storage: &mut Storage,
    farmer_addr: u64,
    masset_token: u64,
    diff: u64,
) -> (r: Result<Position, Error>)
    requires
        old(storage).wf(),
    ensures
        final(storage).wf(),
        final(storage).config == old(storage).config,
        final(storage).cdps == old(storage).cdps,
        final(storage).job == old(storage).job,
        match r {
            Ok(p) => {
                let prev = spec_position(old(storage).positions@, farmer_addr, masset_token);
                &&& has_position(old(storage).positions@, farmer_addr, masset_token)
                &&& prev.collateral + diff <= u64::MAX
                &&& p == Position { collateral: (prev.collateral + diff) as u64, ..prev }
                &&& final(storage).positions@ == old(storage).positions@.update(
                    position_index(old(storage).positions@, farmer_addr, masset_token),
                    p,
                )
            },
            Err(e) => {
                &&& final(storage).positions@ == old(storage).positions@
                &&& if !has_position(old(storage).positions@, farmer_addr, masset_token) {
                    e == Error::NoPosition
                } else {
                    e == Error::ArithmeticError && spec_position(
                        old(storage).positions@,
                        farmer_addr,
                        masset_token,
                    ).collateral + diff > u64::MAX
                }
            },
        },
{
    position_apply_delta(storage, farmer_addr, masset_token, 0, diff as i128)
}

pub fn decrease_position_collateral(
    storage: &mut Storage,
    farmer_addr: u64,
    masset_token: u64,
    diff: u64,
) -> (r: Result<Position, Error>)
    requires
        old(storage).wf(),
    ensures
        final(storage).wf(),
        final(storage).config == old(storage).config,
        final(storage).cdps == old(storage).cdps,
        final(storage).job == old(storage).job,
        match r {
            Ok(p) => {
                let prev = spec_position(old(storage).positions@, farmer_addr, masset_token);
                &&& has_position(old(storage).positions@, farmer_addr, masset_token)
                &&& prev.collateral >= diff
                &&& p == Position { collateral: (prev.collateral - diff) as u64, ..prev }
                &&& final(storage).positions@ == old(storage).positions@.update(
                    position_index(old(storage).positions@, farmer_addr, masset_token),
                    p,
                )
            },
            Err(e) => {
                &&& final(storage).positions@ == old(storage).positions@
                &&& if !has_position(old(storage).positions@, farmer_addr, masset_token) {
                    e == Error::NoPosition
                } else {
                    e == Error::ArithmeticError && spec_position(
                        old(storage).positions@,
                        farmer_addr,
                        masset_token,
                    ).collateral < diff
                }
            },
        },
{
    position_apply_delta(storage, farmer_addr, masset_token, 0, -(diff as i128))
}

pub fn increase_position_loan(
    storage: &mut Storage,
    farmer_addr: u64,
    masset_token: u64,
    diff: u64,
) -> (r: Result<Position, Error>)
    requires
        old(storage).wf(),
    ensures
        final(storage).wf(),
        final(storage).config == old(storage).config,
        final(storage).cdps == old(storage).cdps,
        final(storage).job == old(storage).job,
        match r {
            Ok(p) => {
                let prev = spec_position(old(storage).positions@, farmer_addr, masset_token);
                &&& has_position(old(storage).positions@, farmer_addr, masset_token)
                &&& prev.loan + diff <= u64::MAX
                &&& p == Position { loan: (prev.loan + diff) as u64, ..prev }
                &&& final(storage).positions@ == old(storage).positions@.update(
                    position_index(old(storage).positions@, farmer_addr, masset_token),
                    p,
                )
            },
            Err(e) => {
                &&& final(storage).positions@ == old(storage).positions@
                &&& if !has_position(old(storage).positions@, farmer_addr, masset_token) {
                    e == Error::NoPosition
                } else {
                    e == Error::ArithmeticError && spec_position(
                        old(storage).positions@,
                        farmer_addr,
                        masset_token,
                    ).loan + diff > u64::MAX
                }
            },
        },
{
    position_apply_delta(storage, farmer_addr, masset_token, diff as i128, 0)
}

pub fn decrease_position_loan(
    storage: &mut Storage,
    farmer_addr: u64,
    masset_token: u64,
    diff: u64,
) -> (r: Result<Position, Error>)
    requires
        old(storage).wf(),
    ensures
        final(storage).wf(),
        final(storage).config == old(storage).config,
        final(storage).cdps == old(storage).cdps,
        final(storage).job == old(storage).job,
        match r {
            Ok(p) => {
                let prev = spec_position(old(storage).positions@, farmer_addr, masset_token);
                &&& has_position(old(storage).positions@, farmer_addr, masset_token)
                &&& prev.loan >= diff
                &&& p == Position { loan: (prev.loan - diff) as u64, ..prev }
                &&& final(storage).positions@ == old(storage).positions@.update(
                    position_index(old(storage).positions@, farmer_addr, masset_token),
                    p,
                )
            },
            Err(e) => {
                &&& final(storage).positions@ == old(storage).positions@
                &&& if !has_position(old(storage).positions@, farmer_addr, masset_token) {
                    e == Error::NoPosition
                } else {
                    e == Error::ArithmeticError && spec_position(
                        old(storage).positions@,
                        farmer_addr,
                        masset_token,
                    ).loan < diff
                }
            },
        },
{
    position_apply_delta(storage, farmer_addr, masset_token, -(diff as i128), 0)
}

pub fn load_deposit_state(storage: &Storage) -> (r: Result<DepositState, Error>)
    ensures
        match r {
            Ok(d) => storage.job == Some(Job::Deposit(d)),
            Err(e) => e == Error::UnexpectedCompletion && !(storage.job matches Some(
                Job::Deposit(_),
            )),
        },
{
    match &storage.job {
        Some(Job::Deposit(d)) => Ok(*d),
        _ => Err(Error::UnexpectedCompletion),
    }
}

pub fn save_deposit_state(storage: &mut Storage, data: &DepositState)
    ensures
        final(storage).job == Some(Job::Deposit(*data)),
        final(storage).config == old(storage).config,
        final(storage).cdps == old(storage).cdps,
        final(storage).positions == old(storage).positions,
{
    storage.job = Some(Job::Deposit(*data));
}

pub fn load_withdraw_state(storage: &Storage) -> (r: Result<WithdrawState, Error>)
    ensures
        match r {
            Ok(w) => storage.job == Some(Job::Withdraw(w)),
            Err(e) => e == Error::UnexpectedCompletion && !(storage.job matches Some(
                Job::Withdraw(_),
            )),
        },
{
    match &storage.job {
        Some(Job::Withdraw(w)) => Ok(*w),
        _ => Err(Error::UnexpectedCompletion),
    }
}

pub fn save_withdraw_state(storage: &mut Storage, data: &WithdrawState)
    ensures
        final(storage).job == Some(Job::Withdraw(*data)),
        final(storage).config == old(storage).config,
        final(storage).cdps == old(storage).cdps,
        final(storage).positions == old(storage).positions,
{
    storage.job = Some(Job::Withdraw(*data));
}

/// Empties the job slot; the final step of every finalization.
pub fn clear_job(storage: &mut Storage)
    ensures
        final(storage).job.is_none(),
        final(storage).config == old(storage).config,
        final(storage).cdps == old(storage).cdps,
        final(storage).positions == old(storage).positions,
{
    storage.job = None;
}

/// Steps the pending deposit job to its next iteration index.
pub fn increase_iteration_index(storage: &mut Storage) -> (r: Result<DepositState, Error>)
    ensures
        final(storage).config == old(storage).config,
        final(storage).cdps == old(storage).cdps,
        final(storage).positions == old(storage).positions,
        match r {
            Ok(d) => {
                &&& old(storage).job matches Some(Job::Deposit(prev)) && d == DepositState {
                    cur_iteration_index: (prev.cur_iteration_index + 1) as u8,
                    ..prev
                } && prev.cur_iteration_index < u8::MAX
                &&& final(storage).job == Some(Job::Deposit(d))
            },
            Err(e) => {
                &&& final(storage).job == old(storage).job
                &&& (old(storage).job matches Some(Job::Deposit(prev)) ==> e
                    == Error::ArithmeticError && prev.cur_iteration_index == u8::MAX)
                &&& (!(old(storage).job matches Some(Job::Deposit(_))) ==> e
                    == Error::UnexpectedCompletion)
            },
        },
{
    let d = match load_deposit_state(storage) {
        Ok(d) => d,
        Err(e) => {
            return Err(e);
        },
    };
    if d.cur_iteration_index == u8::MAX {
        return Err(Error::ArithmeticError);
    }
    let stepped = DepositState { cur_iteration_index: d.cur_iteration_index + 1, ..d };
    save_deposit_state(storage, &stepped);
    Ok(stepped)
}

} // verus!
