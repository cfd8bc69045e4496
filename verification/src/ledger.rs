//! The system as a whole: one configuration record, its pools and the
//! positions in them, and what sequences of requests do to it.
//!
//! The operations in [`crate::instructions`] work on the records they are
//! handed. The properties that span records and requests are stated here,
//! over a model that keeps all records side by side and applies each request
//! to the records it addresses.

use crate::errors::EconomicsError;
use crate::instructions::initialize::initial_pool;
use crate::instructions::initialize::pool_rejection;
use crate::instructions::rewards::claim_outcome;
use crate::instructions::stake::emergency_unstake_outcome;
use crate::instructions::stake::stake_outcome;
use crate::instructions::stake::unstake_amount;
use crate::instructions::stake::unstake_outcome;
use crate::state::StakingPool;
use crate::state::TokenEconomics;
use crate::state::UserStake;
use crate::utils::accrued_reward_per_share;
use crate::utils::lemma_reward_debt_monotone;
use crate::utils::lemma_reward_per_share_delta_nonnegative;
use crate::utils::pending_reward;
use crate::utils::reward_debt_for;
use crate::utils::reward_per_share_delta;
use crate::utils::stored;
use anchor_lang::prelude::Pubkey;
use vstd::prelude::*;

verus! {

/// Every record of the system.
pub struct Ledger {
    pub economics: TokenEconomics,
    pub pools: Seq<StakingPool>,
    pub positions: Seq<UserStake>,
}

/// A request to the system. `pool` and `position` say which records it
/// addresses.
pub enum Operation {
    CreatePool {
        economics_key: Pubkey,
        authority: Pubkey,
        pool_id: u8,
        reward_multiplier: u16,
        min_stake_period: i64,
        max_capacity: u64,
        bump: u8,
        now: i64,
    },
    OpenPosition { user: Pubkey, pool_id: u8 },
    Stake {
        pool: int,
        position: int,
        user: Pubkey,
        pool_id: u8,
        bump: u8,
        amount: u64,
        now: i64,
    },
    Unstake { pool: int, position: int, user: Pubkey, amount: u64, now: i64 },
    Claim { pool: int, position: int, user: Pubkey, now: i64 },
    EmergencyUnstake { pool: int, position: int, user: Pubkey },
    Accrue { pool: int, now: i64 },
    SetPauseState { authority: Pubkey, is_paused: bool },
    SetEmergencyMode { authority: Pubkey, emergency_mode: bool },
    UpdateRewardRate { authority: Pubkey, new_rate: u64 },
}

impl Operation {
    /// The time at which the request accrues its pool, if it accrues one.
    pub open spec fn accrual_time(self) -> Option<i64> {
        match self {
            Operation::Stake { now, .. } => Some(now),
            Operation::Unstake { now, .. } => Some(now),
            Operation::Claim { now, .. } => Some(now),
            Operation::Accrue { now, .. } => Some(now),
            _ => None,
        }
    }
}

/// Principal summed over pools.
pub open spec fn pooled_principal(pools: Seq<StakingPool>) -> int
    decreases pools.len(),
{
    if pools.len() == 0 {
        0
    } else {
        pooled_principal(pools.drop_last()) + pools.last().total_staked
    }
}

/// Principal summed over positions.
pub open spec fn held_principal(positions: Seq<UserStake>) -> int
    decreases positions.len(),
{
    if positions.len() == 0 {
        0
    } else {
        held_principal(positions.drop_last()) + positions.last().total_staked
    }
}

/// Active stakers summed over pools.
pub open spec fn pooled_stakers(pools: Seq<StakingPool>) -> int
    decreases pools.len(),
{
    if pools.len() == 0 {
        0
    } else {
        pooled_stakers(pools.drop_last()) + pools.last().active_stakers
    }
}

/// One if the position holds principal, zero if not.
pub open spec fn activity(stake: UserStake) -> int {
    if stake.total_staked > 0 {
        1
    } else {
        0
    }
}

/// Number of positions that hold principal.
pub open spec fn active_positions(positions: Seq<UserStake>) -> int
    decreases positions.len(),
{
    if positions.len() == 0 {
        0
    } else {
        active_positions(positions.drop_last()) + activity(positions.last())
    }
}

/// The position's debt is what its principal is entitled to at the pool's
/// reward per share, so that nothing is pending for it.
pub open spec fn rebaselined(pool: StakingPool, user_stake: UserStake) -> bool {
    &&& user_stake.reward_debt == reward_debt_for(
        user_stake.total_staked as int,
        pool.accumulated_reward_per_token as int,
    )
    &&& pending_reward(
        user_stake.total_staked as int,
        pool.accumulated_reward_per_token as int,
        user_stake.reward_debt as int,
    ) == 0
}

impl Ledger {
    /// Whether `pool` and `position` address records of this ledger.
    pub open spec fn addresses(self, pool: int, position: int) -> bool {
        0 <= pool < self.pools.len() && 0 <= position < self.positions.len()
    }

    /// The ledger with the three records an operation worked on replaced.
    pub open spec fn with_records(
        self,
        pool: int,
        position: int,
        records: (TokenEconomics, StakingPool, UserStake),
    ) -> Ledger {
        Ledger {
            economics: records.0,
            pools: self.pools.update(pool, records.1),
            positions: self.positions.update(position, records.2),
        }
    }

    /// The ledger after one request. A request that is rejected, or that
    /// addresses a record the ledger does not hold, leaves it as it is.
    pub open spec fn step(self, operation: Operation) -> Ledger {
        match operation {
            Operation::CreatePool {
                economics_key,
                authority,
                pool_id,
                reward_multiplier,
                min_stake_period,
                max_capacity,
                bump,
                now,
            } => {
                if pool_rejection(self.economics, authority, reward_multiplier, min_stake_period)
                    is None {
                    Ledger {
                        pools: self.pools.push(
                            initial_pool(
                                economics_key,
                                pool_id,
                                reward_multiplier,
                                min_stake_period,
                                max_capacity,
                                bump,
                                now,
                            ),
                        ),
                        ..self
                    }
                } else {
                    self
                }
            },
            Operation::OpenPosition { user, pool_id } => Ledger {
                positions: self.positions.push(UserStake::empty(user, pool_id)),
                ..self
            },
            Operation::Stake { pool, position, user, pool_id, bump, amount, now } => {
                if self.addresses(pool, position) {
                    match stake_outcome(
                        self.economics,
                        self.pools[pool],
                        self.positions[position],
                        user,
                        pool_id,
                        bump,
                        amount,
                        now,
                    ) {
                        Ok(records) => self.with_records(pool, position, records),
                        Err(_) => self,
                    }
                } else {
                    self
                }
            },
            Operation::Unstake { pool, position, user, amount, now } => {
                if self.addresses(pool, position) {
                    match unstake_outcome(
                        self.economics,
                        self.pools[pool],
                        self.positions[position],
                        user,
                        amount,
                        now,
                    ) {
                        Ok(records) => self.with_records(pool, position, records),
                        Err(_) => self,
                    }
                } else {
                    self
                }
            },
            Operation::Claim { pool, position, user, now } => {
                if self.addresses(pool, position) {
                    match claim_outcome(
                        self.economics,
                        self.pools[pool],
                        self.positions[position],
                        user,
                        now,
                    ) {
                        Ok(records) => self.with_records(pool, position, records),
                        Err(_) => self,
                    }
                } else {
                    self
                }
            },
            Operation::EmergencyUnstake { pool, position, user } => {
                if self.addresses(pool, position) {
                    match emergency_unstake_outcome(
                        self.economics,
                        self.pools[pool],
                        self.positions[position],
                        user,
                    ) {
                        Ok(records) => self.with_records(pool, position, records),
                        Err(_) => self,
                    }
                } else {
                    self
                }
            },
            Operation::Accrue { pool, now } => {
                if 0 <= pool < self.pools.len() {
                    match stored(accrued_reward_per_share(self.economics, self.pools[pool], now)) {
                        Ok(per_share) => Ledger {
                            economics: TokenEconomics {
                                last_reward_update_time: now,
                                ..self.economics
                            },
                            pools: self.pools.update(
                                pool,
                                StakingPool {
                                    accumulated_reward_per_token: per_share,
                                    ..self.pools[pool]
                                },
                            ),
                            ..self
                        },
                        Err(_) => self,
                    }
                } else {
                    self
                }
            },
            Operation::SetPauseState { authority, is_paused } => {
                if self.economics.authority == authority {
                    Ledger { economics: TokenEconomics { is_paused, ..self.economics }, ..self }
                } else {
                    self
                }
            },
            Operation::SetEmergencyMode { authority, emergency_mode } => {
                if self.economics.authority == authority {
                    Ledger {
                        economics: TokenEconomics { emergency_mode, ..self.economics },
                        ..self
                    }
                } else {
                    self
                }
            },
            Operation::UpdateRewardRate { authority, new_rate } => {
                if self.economics.authority == authority {
                    Ledger {
                        economics: TokenEconomics {
                            reward_rate_per_second: new_rate,
                            ..self.economics
                        },
                        ..self
                    }
                } else {
                    self
                }
            },
        }
    }

    /// The ledger after a sequence of requests, applied in order.
    pub open spec fn run(self, operations: Seq<Operation>) -> Ledger
        decreases operations.len(),
    {
        if operations.len() == 0 {
            self
        } else {
            self.run(operations.drop_last()).step(operations.last())
        }
    }

    /// A system that has just been set up: a well-formed configuration with
    /// nothing staked and no active stakers, and neither pools nor positions
    /// yet.
    pub open spec fn fresh(self) -> bool {
        &&& self.economics.well_formed()
        &&& self.economics.total_staked == 0
        &&& self.economics.active_stakers == 0
        &&& self.pools.len() == 0
        &&& self.positions.len() == 0
    }

    /// The three views of the staked principal agree: the system total, the
    /// sum over the pools and the sum over the positions.
    pub open spec fn conserved(self) -> bool {
        &&& self.economics.total_staked == pooled_principal(self.pools)
        &&& self.economics.total_staked == held_principal(self.positions)
    }

    /// The staker counts are right: the system's count and the sum of the
    /// pools' counts both equal the number of positions that hold principal.
    /// The configuration is well formed, so that no stake adds nothing.
    pub open spec fn stakers_counted(self) -> bool {
        &&& self.economics.well_formed()
        &&& self.economics.active_stakers == active_positions(self.positions)
        &&& pooled_stakers(self.pools) == active_positions(self.positions)
    }
}

/// Replacing one pool changes the sums over the pools by the difference
/// between the two pools.
proof fn lemma_replace_pool(pools: Seq<StakingPool>, at: int, pool: StakingPool)
    requires
        0 <= at < pools.len(),
    ensures
        pooled_principal(pools.update(at, pool)) == pooled_principal(pools)
            - pools[at].total_staked + pool.total_staked,
        pooled_stakers(pools.update(at, pool)) == pooled_stakers(pools) - pools[at].active_stakers
            + pool.active_stakers,
    decreases pools.len(),
{
    let updated = pools.update(at, pool);
    if at == pools.len() - 1 {
        assert(updated.drop_last() =~= pools.drop_last());
    } else {
        assert(updated.drop_last() =~= pools.drop_last().update(at, pool));
        lemma_replace_pool(pools.drop_last(), at, pool);
    }
}

/// Replacing one position changes the sums over the positions by the
/// difference between the two positions.
proof fn lemma_replace_position(positions: Seq<UserStake>, at: int, stake: UserStake)
    requires
        0 <= at < positions.len(),
    ensures
        held_principal(positions.update(at, stake)) == held_principal(positions)
            - positions[at].total_staked + stake.total_staked,
        active_positions(positions.update(at, stake)) == active_positions(positions) - activity(
            positions[at],
        ) + activity(stake),
    decreases positions.len(),
{
    let updated = positions.update(at, stake);
    if at == positions.len() - 1 {
        assert(updated.drop_last() =~= positions.drop_last());
    } else {
        assert(updated.drop_last() =~= positions.drop_last().update(at, stake));
        lemma_replace_position(positions.drop_last(), at, stake);
    }
}

/// What a request does to the sums over the records it replaced or added.
proof fn lemma_step_sums(ledger: Ledger, operation: Operation)
    ensures
        ({
            let after = ledger.step(operation);
            match operation {
                Operation::CreatePool { .. } => {
                    &&& pooled_principal(after.pools) == pooled_principal(ledger.pools)
                    &&& pooled_stakers(after.pools) == pooled_stakers(ledger.pools)
                },
                Operation::OpenPosition { .. } => {
                    &&& held_principal(after.positions) == held_principal(ledger.positions)
                    &&& active_positions(after.positions) == active_positions(ledger.positions)
                },
                Operation::Stake { pool, position, .. }
                | Operation::Unstake { pool, position, .. }
                | Operation::Claim { pool, position, .. }
                | Operation::EmergencyUnstake { pool, position, .. } => ledger.addresses(pool, position) ==> {
                    &&& pooled_principal(after.pools) == pooled_principal(ledger.pools)
                        - ledger.pools[pool].total_staked + after.pools[pool].total_staked
                    &&& pooled_stakers(after.pools) == pooled_stakers(ledger.pools)
                        - ledger.pools[pool].active_stakers + after.pools[pool].active_stakers
                    &&& held_principal(after.positions) == held_principal(ledger.positions)
                        - ledger.positions[position].total_staked
                        + after.positions[position].total_staked
                    &&& active_positions(after.positions) == active_positions(ledger.positions)
                        - activity(ledger.positions[position]) + activity(
                        after.positions[position],
                    )
                },
                Operation::Accrue { pool, .. } => {
                    &&& pooled_principal(after.pools) == pooled_principal(ledger.pools)
                    &&& pooled_stakers(after.pools) == pooled_stakers(ledger.pools)
                },
                _ => true,
            }
        }),
{
    let after = ledger.step(operation);
    match operation {
        Operation::CreatePool { .. } => {
            if after.pools.len() > ledger.pools.len() {
                assert(after.pools.drop_last() =~= ledger.pools);
            }
        },
        Operation::OpenPosition { .. } => {
            assert(after.positions.drop_last() =~= ledger.positions);
        },
        Operation::Stake { pool, position, .. }
        | Operation::Unstake { pool, position, .. }
        | Operation::Claim { pool, position, .. }
        | Operation::EmergencyUnstake { pool, position, .. } => {
            if ledger.addresses(pool, position) {
                lemma_replace_pool(ledger.pools, pool, after.pools[pool]);
                lemma_replace_position(ledger.positions, position, after.positions[position]);
                assert(after.pools =~= ledger.pools.update(pool, after.pools[pool]));
                assert(after.positions =~= ledger.positions.update(
                    position,
                    after.positions[position],
                ));
            }
        },
        Operation::Accrue { pool, .. } => {
            if 0 <= pool < ledger.pools.len() {
                lemma_replace_pool(ledger.pools, pool, after.pools[pool]);
                assert(after.pools =~= ledger.pools.update(pool, after.pools[pool]));
            }
        },
        _ => {},
    }
}

/// Conservation, one step: a request of any kind, accepted or rejected,
/// keeps the three views of the staked principal in agreement.
pub proof fn lemma_step_conserves(ledger: Ledger, operation: Operation)
    requires
        ledger.conserved(),
    ensures
        ledger.step(operation).conserved(),
{
    lemma_step_sums(ledger, operation);
}

/// Conservation: after any sequence of requests of any kind, and so after
/// any sequence of stakes and withdrawals, the system total, the sum of the
/// pools' principal and the sum of the positions' principal are equal,
/// provided they were equal before.
pub proof fn lemma_conservation(ledger: Ledger, operations: Seq<Operation>)
    requires
        ledger.conserved(),
    ensures
        ledger.run(operations).conserved(),
    decreases operations.len(),
{
    if operations.len() > 0 {
        lemma_conservation(ledger, operations.drop_last());
        lemma_step_conserves(ledger.run(operations.drop_last()), operations.last());
    }
}

/// Staker counts, one step: a request of any kind, accepted or rejected,
/// keeps the staker counts right.
pub proof fn lemma_step_counts_stakers(ledger: Ledger, operation: Operation)
    requires
        ledger.stakers_counted(),
    ensures
        ledger.step(operation).stakers_counted(),
{
    lemma_step_sums(ledger, operation);
}

/// Staker counts: after any sequence of requests of any kind, the system's
/// staker count and the sum of the pools' counts both equal the number of
/// positions that hold principal, provided they did before.
pub proof fn lemma_staker_counts(ledger: Ledger, operations: Seq<Operation>)
    requires
        ledger.stakers_counted(),
    ensures
        ledger.run(operations).stakers_counted(),
    decreases operations.len(),
{
    if operations.len() > 0 {
        lemma_staker_counts(ledger, operations.drop_last());
        lemma_step_counts_stakers(ledger.run(operations.drop_last()), operations.last());
    }
}

/// The books of a system that is run from its setup always add up, whatever
/// is asked of it: the principal is conserved and the stakers are counted.
pub proof fn lemma_books_from_start(ledger: Ledger, operations: Seq<Operation>)
    requires
        ledger.fresh(),
    ensures
        ledger.run(operations).conserved(),
        ledger.run(operations).stakers_counted(),
{
    lemma_conservation(ledger, operations);
    lemma_staker_counts(ledger, operations);
}

/// Monotone accumulator, one step: no request of any kind lowers any pool's
/// reward per share or removes a pool.
pub proof fn lemma_step_keeps_accumulators(ledger: Ledger, operation: Operation)
    ensures
        ledger.step(operation).pools.len() >= ledger.pools.len(),
        forall|i: int|
            0 <= i < ledger.pools.len() ==> (#[trigger] ledger.step(
                operation,
            ).pools[i]).accumulated_reward_per_token >= ledger.pools[i].accumulated_reward_per_token,
{
    match operation {
        Operation::Stake { pool, .. }
        | Operation::Unstake { pool, .. }
        | Operation::Claim { pool, .. }
        | Operation::Accrue { pool, .. } => {
            if 0 <= pool < ledger.pools.len() {
                lemma_reward_per_share_delta_nonnegative(
                    ledger.economics.reward_rate_per_second as int,
                    operation.accrual_time()->Some_0 - ledger.economics.last_reward_update_time,
                    ledger.pools[pool].reward_multiplier as int,
                    ledger.pools[pool].total_staked as int,
                );
            }
        },
        _ => {},
    }
}

/// Monotone accumulator: over any sequence of requests of any kind, no
/// pool's reward per share ever decreases.
pub proof fn lemma_accumulator_monotone(ledger: Ledger, operations: Seq<Operation>)
    ensures
        ledger.run(operations).pools.len() >= ledger.pools.len(),
        forall|i: int|
            0 <= i < ledger.pools.len() ==> (#[trigger] ledger.run(
                operations,
            ).pools[i]).accumulated_reward_per_token >= ledger.pools[i].accumulated_reward_per_token,
    decreases operations.len(),
{
    if operations.len() > 0 {
        let before = ledger.run(operations.drop_last());
        lemma_accumulator_monotone(ledger, operations.drop_last());
        lemma_step_keeps_accumulators(before, operations.last());
        assert forall|i: int| 0 <= i < ledger.pools.len() implies (#[trigger] ledger.run(
            operations,
        ).pools[i]).accumulated_reward_per_token
            >= ledger.pools[i].accumulated_reward_per_token by {
            assert(before.step(operations.last()).pools[i].accumulated_reward_per_token
                >= before.pools[i].accumulated_reward_per_token);
        }
    }
}

impl Ledger {
    /// Every pool has admissible parameters and is within its capacity.
    pub open spec fn pools_well_formed(self) -> bool {
        forall|i: int| 0 <= i < self.pools.len() ==> (#[trigger] self.pools[i]).well_formed()
    }
}

/// Capacity, one step: no request of any kind takes a pool beyond its
/// capacity or changes its parameters to inadmissible ones.
pub proof fn lemma_step_keeps_pools_well_formed(ledger: Ledger, operation: Operation)
    requires
        ledger.pools_well_formed(),
    ensures
        ledger.step(operation).pools_well_formed(),
{
    let after = ledger.step(operation);
    assert forall|i: int| 0 <= i < after.pools.len() implies (#[trigger] after.pools[i])
        .well_formed() by {
        if i < ledger.pools.len() {
            assert(ledger.pools[i].well_formed());
        }
    }
}

/// Capacity: over any sequence of requests of any kind, every pool stays
/// within its capacity and keeps admissible parameters, provided all pools
/// did to begin with.
pub proof fn lemma_pools_stay_well_formed(ledger: Ledger, operations: Seq<Operation>)
    requires
        ledger.pools_well_formed(),
    ensures
        ledger.run(operations).pools_well_formed(),
    decreases operations.len(),
{
    if operations.len() > 0 {
        lemma_pools_stay_well_formed(ledger, operations.drop_last());
        lemma_step_keeps_pools_well_formed(ledger.run(operations.drop_last()), operations.last());
    }
}

/// A change of the emission rate leaves every pool and every position as it
/// is, so nothing that has accrued is recomputed. No pool is ticked either:
/// the next accrual of a pool applies the new rate to the whole interval
/// since the last tick, including the part that passed under the old rate.
pub proof fn lemma_rate_change_keeps_accrued(
    ledger: Ledger,
    authority: Pubkey,
    new_rate: u64,
)
    requires
        ledger.economics.authority == authority,
    ensures
        ({
            let after = ledger.step(Operation::UpdateRewardRate { authority, new_rate });
            &&& after.pools == ledger.pools
            &&& after.positions == ledger.positions
            &&& after.economics.last_reward_update_time
                == ledger.economics.last_reward_update_time
            &&& forall|i: int, now: i64|
                0 <= i < ledger.pools.len() ==> #[trigger] accrued_reward_per_share(
                    after.economics,
                    after.pools[i],
                    now,
                ) == ledger.pools[i].accumulated_reward_per_token + reward_per_share_delta(
                    new_rate as int,
                    now - ledger.economics.last_reward_update_time,
                    ledger.pools[i].reward_multiplier as int,
                    ledger.pools[i].total_staked as int,
                )
        }),
{
}

/// Debt re-baseline: whenever a stake, a withdrawal or a claim is accepted,
/// the position's debt afterwards is exactly what its principal afterwards is
/// entitled to at the pool's reward per share afterwards, so that nothing is
/// pending for it beyond what was settled.
pub proof fn lemma_debt_rebaselined(
    economics: TokenEconomics,
    pool: StakingPool,
    user_stake: UserStake,
    user: Pubkey,
    pool_id: u8,
    bump: u8,
    amount: u64,
    now: i64,
)
    ensures
        stake_outcome(economics, pool, user_stake, user, pool_id, bump, amount, now) matches Ok(
            (_, pool_after, stake_after),
        ) ==> rebaselined(pool_after, stake_after),
        unstake_outcome(economics, pool, user_stake, user, amount, now) matches Ok(
            (_, pool_after, stake_after),
        ) ==> rebaselined(pool_after, stake_after),
        claim_outcome(economics, pool, user_stake, user, now) matches Ok(
            (_, pool_after, stake_after),
        ) ==> rebaselined(pool_after, stake_after),
{
    lemma_reward_per_share_delta_nonnegative(
        economics.reward_rate_per_second as int,
        now - economics.last_reward_update_time,
        pool.reward_multiplier as int,
        pool.total_staked as int,
    );
    let per_share = accrued_reward_per_share(economics, pool, now);
    if per_share <= u64::MAX {
        let taken = unstake_amount(user_stake, amount);
        if taken <= user_stake.total_staked {
            lemma_reward_debt_monotone(
                user_stake.total_staked - taken,
                user_stake.total_staked as int,
                per_share,
            );
        }
    }
}

/// Emergency bypass: in emergency mode the owner of a position that holds
/// principal gets all of it back and forfeits what was pending, while the
/// ordinary withdrawal is closed. How long the position has been held, the
/// pool's minimum holding period and the state of its accumulator are not
/// consulted. The totals must cover the position and the staker counts must
/// include it, as they do wherever the books add up.
pub proof fn lemma_emergency_bypass(
    economics: TokenEconomics,
    pool: StakingPool,
    user_stake: UserStake,
    user: Pubkey,
)
    requires
        economics.emergency_mode,
        user_stake.user == user,
        user_stake.total_staked > 0,
        economics.total_staked >= user_stake.total_staked,
        pool.total_staked >= user_stake.total_staked,
        economics.active_stakers >= 1,
        pool.active_stakers >= 1,
    ensures
        emergency_unstake_outcome(economics, pool, user_stake, user) matches Ok(
            (economics_after, pool_after, stake_after),
        ) && stake_after.total_staked == 0 && stake_after.pending_rewards == 0
            && stake_after.reward_debt == 0 && economics_after.total_staked
            == economics.total_staked - user_stake.total_staked && pool_after.total_staked
            == pool.total_staked - user_stake.total_staked && economics_after.active_stakers
            == economics.active_stakers - 1 && pool_after.active_stakers == pool.active_stakers
            - 1 && pool_after.accumulated_reward_per_token == pool.accumulated_reward_per_token,
        forall|other: StakingPool|
            other.total_staked == pool.total_staked && other.active_stakers
                == pool.active_stakers ==> (#[trigger] emergency_unstake_outcome(
                economics,
                other,
                user_stake,
                user,
            )) is Ok,
        forall|amount: u64, now: i64|
            (#[trigger] unstake_outcome(economics, pool, user_stake, user, amount, now)) == Err::<
                (TokenEconomics, StakingPool, UserStake),
                EconomicsError,
            >(EconomicsError::EmergencyMode),
{
}

} // verus!
