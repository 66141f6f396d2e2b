//! Winner determination and prize distribution. Every matching ticket earns
//! one winner record; the pool is handed out under a two-tier policy (a
//! fixed prize when the pool suffices, an equal split otherwise) so that all
//! winners always receive the same amount.

use vstd::prelude::*;

use crate::error::ContractError;
use crate::lottery_logic::{count_in, LotteryLogic};
use crate::state::{Participant, ParticipantModel, Winner, WinnerModel};

verus! {

/// The fixed per-winner prize, paid whenever the pool covers it.
pub const FIXED_REWARD_PER_WINNER: u128 = 800;

/// How many tickets of a participant match the winning number (none unless
/// the participant revealed).
pub open spec fn participant_matches(p: ParticipantModel, winning_number: u16) -> int {
    if p.revealed {
        count_in(p.lucky_numbers, winning_number)
    } else {
        0
    }
}

/// `k` identical top-tier winner records for one address, prizes unset.
pub open spec fn winner_records(address: Seq<char>, k: int) -> Seq<WinnerModel>
    decreases k,
{
    if k <= 0 {
        Seq::empty()
    } else {
        winner_records(address, k - 1).push(
            WinnerModel { address, level: 1, match_count: 1, reward_amount: 0 },
        )
    }
}

/// The winner records of a whole roster, in roster order: one record per
/// matching ticket of each revealed participant.
pub open spec fn winners_of(ps: Seq<ParticipantModel>, winning_number: u16) -> Seq<WinnerModel>
    decreases ps.len(),
{
    if ps.len() == 0 {
        Seq::empty()
    } else {
        winners_of(ps.drop_last(), winning_number) + winner_records(
            ps.last().address,
            participant_matches(ps.last(), winning_number),
        )
    }
}

/// The per-winner prize: the fixed prize when the pool covers one for every
/// winner, an equal integer split of the pool otherwise.
pub open spec fn reward_per_winner(count: int, pool: u128) -> int
    recommends
        count >= 1,
{
    if pool >= count * FIXED_REWARD_PER_WINNER {
        FIXED_REWARD_PER_WINNER as int
    } else {
        (pool as int) / count
    }
}

/// The same winner records with every prize set to `amount`.
pub open spec fn with_reward(ws: Seq<WinnerModel>, amount: u128) -> Seq<WinnerModel> {
    ws.map_values(
        |w: WinnerModel|
            WinnerModel {
                address: w.address,
                level: w.level,
                match_count: w.match_count,
                reward_amount: amount,
            },
    )
}

/// The total of all distributed prizes.
pub open spec fn sum_rewards(ws: Seq<WinnerModel>) -> int
    decreases ws.len(),
{
    if ws.len() == 0 {
        0
    } else {
        sum_rewards(ws.drop_last()) + ws.last().reward_amount
    }
}

/// How many records carry a given level.
pub open spec fn count_level(ws: Seq<WinnerModel>, level: u8) -> int
    decreases ws.len(),
{
    if ws.len() == 0 {
        0
    } else {
        count_level(ws.drop_last(), level) + if ws.last().level == level {
            1int
        } else {
            0int
        }
    }
}

/// The split of a pool into service fee and reward pool.
#[derive(Clone, Copy, Debug, PartialEq, Eq, Structural)]
pub struct RewardDistribution {
    pub total_pool: u128,
    pub service_fee: u128,
    pub reward_pool: u128,
}

/// Aggregate facts about a winner list. The level table holds one counter
/// per possible level.
#[derive(Clone, Debug, PartialEq, Eq)]
pub struct WinnerStatistics {
    pub total_winners: u32,
    pub level_counts: Vec<u32>,
    pub total_rewards: u128,
}

impl WinnerStatistics {
    pub fn get_level_count(&self, level: u8) -> (r: u32)
        ensures
            r == if (level as int) < self.level_counts@.len() {
                self.level_counts@[level as int]
            } else {
                0u32
            },
    {
        if (level as usize) < self.level_counts.len() {
            self.level_counts[level as usize]
        } else {
            0
        }
    }

    pub fn get_first_prize_count(&self) -> (r: u32)
        ensures
            r == if 1 < self.level_counts@.len() {
                self.level_counts@[1]
            } else {
                0u32
            },
    {
        self.get_level_count(1)
    }

    pub fn get_second_prize_count(&self) -> (r: u32)
        ensures
            r == if 2 < self.level_counts@.len() {
                self.level_counts@[2]
            } else {
                0u32
            },
    {
        self.get_level_count(2)
    }

    pub fn get_third_prize_count(&self) -> (r: u32)
        ensures
            r == if 3 < self.level_counts@.len() {
                self.level_counts@[3]
            } else {
                0u32
            },
    {
        self.get_level_count(3)
    }
}

pub struct RewardSystem;

impl RewardSystem {
    /// Determine the winners: one record per matching ticket of every
    /// revealed participant, prizes still unset.
    pub fn calculate_winners(participants: &[Participant], winning_number: u16) -> (r: Result<
        Vec<Winner>,
        ContractError,
    >)
        requires
            forall|i: int|
                0 <= i < participants@.len() ==> #[trigger] participants@[i].lucky_numbers@.len()
                    <= u32::MAX,
        ensures
            r is Ok,
            r->Ok_0@.map_values(|w: Winner| w@) == winners_of(
                participants@.map_values(|p: Participant| p@),
                winning_number,
            ),
    {
        let ghost models = participants@.map_values(|p: Participant| p@);
        let mut winners: Vec<Winner> = Vec::new();
        let n = participants.len();
        assert(models.subrange(0, 0) =~= Seq::<ParticipantModel>::empty());
        assert(winners@.map_values(|w: Winner| w@) =~= winners_of(
            models.subrange(0, 0),
            winning_number,
        ));
        for i in 0..n
            invariant
                n == participants@.len(),
                models == participants@.map_values(|p: Participant| p@),
                forall|j: int|
                    0 <= j < participants@.len()
                        ==> #[trigger] participants@[j].lucky_numbers@.len() <= u32::MAX,
                winners@.map_values(|w: Winner| w@) == winners_of(
                    models.subrange(0, i as int),
                    winning_number,
                ),
        {
            let ghost prefix = models.subrange(0, i as int);
            let p = &participants[i];
            if p.revealed {
                let match_count = LotteryLogic::count_matches(
                    p.lucky_numbers.as_slice(),
                    winning_number,
                );
                if match_count > 0 {
                    let level = match LotteryLogic::determine_winner_level(match_count) {
                        Ok(l) => l,
                        Err(e) => {
                            return Err(e);
                        },
                    };
                    let ghost base = winners@.map_values(|w: Winner| w@);
                    let mut k: u32 = 0;
                    while k < match_count
                        invariant
                            k <= match_count,
                            level == 1,
                            p == &participants@[i as int],
                            match_count == count_in(p.lucky_numbers@, winning_number),
                            winners@.map_values(|w: Winner| w@) == base + winner_records(
                                p.address@,
                                k as int,
                            ),
                        decreases match_count - k,
                    {
                        let record = Winner {
                            address: p.address.clone(),
                            level,
                            match_count: 1,
                            reward_amount: 0,
                        };
                        let ghost before = winners@.map_values(|w: Winner| w@);
                        winners.push(record);
                        proof {
                            assert(winners@.map_values(|w: Winner| w@) =~= before.push(record@));
                            assert(before.push(record@) =~= base + winner_records(
                                p.address@,
                                k + 1int,
                            ));
                        }
                        k = k + 1;
                    }
                }
            }
            proof {
                let next = models.subrange(0, i + 1);
                assert(next.drop_last() =~= prefix);
                assert(next.last() == models[i as int]);
                assert(models[i as int] == participants@[i as int]@);
                if !(models[i as int].revealed && count_in(
                    models[i as int].lucky_numbers,
                    winning_number,
                ) > 0) {
                    assert(winner_records(
                        models[i as int].address,
                        participant_matches(models[i as int], winning_number),
                    ) =~= Seq::<WinnerModel>::empty());
                    assert(winners@.map_values(|w: Winner| w@) =~= winners_of(
                        next,
                        winning_number,
                    ));
                } else {
                    assert(winners@.map_values(|w: Winner| w@) =~= winners_of(
                        next,
                        winning_number,
                    ));
                }
            }
        }
        proof {
            assert(models.subrange(0, n as int) =~= models);
        }
        Ok(winners)
    }

    /// Distribute the reward pool: when it covers the fixed prize for every
    /// winner, each receives exactly that prize; otherwise each receives the
    /// same integer share of the pool, the remainder staying in the pool.
    pub fn distribute_rewards(winners: &mut Vec<Winner>, total_reward_pool: u128) -> (r: Result<
        Vec<Winner>,
        ContractError,
    >)
        ensures
            r is Ok,
            old(winners)@.len() == 0 ==> r->Ok_0@.len() == 0 && final(winners)@ == old(winners)@,
            old(winners)@.len() > 0 ==> {
                let per = reward_per_winner(old(winners)@.len() as int, total_reward_pool);
                &&& final(winners)@.map_values(|w: Winner| w@) == with_reward(
                    old(winners)@.map_values(|w: Winner| w@),
                    per as u128,
                )
                &&& r->Ok_0@.map_values(|w: Winner| w@) == with_reward(
                    old(winners)@.map_values(|w: Winner| w@),
                    per as u128,
                )
                &&& 0 <= per <= FIXED_REWARD_PER_WINNER || per <= total_reward_pool
            },
    {
        if winners.len() == 0 {
            return Ok(Vec::new());
        }
        let winner_count = winners.len();
        let count128: u128 = winner_count as u128;
        proof {
            assert(count128 * FIXED_REWARD_PER_WINNER <= u128::MAX) by {
                vstd::arithmetic::mul::lemma_mul_inequality(
                    count128 as int,
                    0xFFFF_FFFF_FFFF_FFFFu64 as int,
                    FIXED_REWARD_PER_WINNER as int,
                );
            }
        }
        let total_fixed: u128 = count128 * FIXED_REWARD_PER_WINNER;
        let per: u128 = if total_reward_pool >= total_fixed {
            FIXED_REWARD_PER_WINNER
        } else {
            proof {
                vstd::arithmetic::div_mod::lemma_div_is_ordered(
                    0,
                    total_reward_pool as int,
                    count128 as int,
                );
                vstd::arithmetic::div_mod::lemma_div_nonincreasing(
                    total_reward_pool as int,
                    count128 as int,
                );
            }
            total_reward_pool / count128
        };
        let ghost old_models = old(winners)@.map_values(|w: Winner| w@);
        let mut updated: Vec<Winner> = Vec::new();
        let mut result: Vec<Winner> = Vec::new();
        for i in 0..winner_count
            invariant
                winner_count == winners@.len(),
                winners@ == old(winners)@,
                old_models == old(winners)@.map_values(|w: Winner| w@),
                per == reward_per_winner(old(winners)@.len() as int, total_reward_pool),
                updated@.map_values(|w: Winner| w@) =~= with_reward(
                    old_models.subrange(0, i as int),
                    per,
                ),
                result@.map_values(|w: Winner| w@) =~= with_reward(
                    old_models.subrange(0, i as int),
                    per,
                ),
        {
            let w = &winners[i];
            let first = Winner {
                address: w.address.clone(),
                level: w.level,
                match_count: w.match_count,
                reward_amount: per,
            };
            let second = Winner {
                address: w.address.clone(),
                level: w.level,
                match_count: w.match_count,
                reward_amount: per,
            };
            let ghost record = first@;
            let ghost prev_updated = updated@.map_values(|w: Winner| w@);
            let ghost prev_result = result@.map_values(|w: Winner| w@);
            proof {
                let idx = i as int;
                assert(old_models[idx] == old(winners)@[idx]@);
                assert(second@ == record);
                assert(record == (WinnerModel {
                    address: old_models[idx].address,
                    level: old_models[idx].level,
                    match_count: old_models[idx].match_count,
                    reward_amount: per,
                }));
            }
            updated.push(first);
            result.push(second);
            proof {
                let idx = i as int;
                assert(updated@.map_values(|w: Winner| w@) =~= prev_updated.push(record));
                assert(result@.map_values(|w: Winner| w@) =~= prev_result.push(record));
                assert(with_reward(old_models.subrange(0, idx + 1), per)[idx] == record);
                assert(prev_updated.push(record) =~= with_reward(
                    old_models.subrange(0, idx + 1),
                    per,
                ));
                assert(prev_result.push(record) =~= with_reward(
                    old_models.subrange(0, idx + 1),
                    per,
                ));
            }
        }
        proof {
            assert(old_models.subrange(0, winner_count as int) =~= old_models);
        }
        *winners = updated;
        Ok(result)
    }

    /// Split a pool into its service fee and the remaining reward pool.
    pub fn calculate_reward_distribution(total_pool: u128, service_fee_rate: crate::state::FeeRate)
        -> (r: Result<RewardDistribution, ContractError>)
        requires
            service_fee_rate.wf(),
        ensures
            r is Ok,
            r->Ok_0.total_pool == total_pool,
            r->Ok_0.service_fee == crate::arith::mul_ratio(total_pool, service_fee_rate.atomics),
            r->Ok_0.reward_pool == total_pool - r->Ok_0.service_fee,
    {
        let service_fee = crate::arith::multiply_ratio_floor(total_pool, service_fee_rate.atomics);
        let reward_pool = total_pool - service_fee;
        Ok(RewardDistribution { total_pool, service_fee, reward_pool })
    }

    /// Check that the distributed prizes do not exceed the pool.
    pub fn validate_reward_distribution(winners: &[Winner], total_reward_pool: u128) -> (r: Result<
        bool,
        ContractError,
    >)
        requires
            sum_rewards(winners@.map_values(|w: Winner| w@)) <= u128::MAX,
        ensures
            r == Ok::<bool, ContractError>(
                sum_rewards(winners@.map_values(|w: Winner| w@)) <= total_reward_pool,
            ),
    {
        let ghost models = winners@.map_values(|w: Winner| w@);
        let n = winners.len();
        let mut total: u128 = 0;
        proof {
            lemma_sum_rewards_nonneg(models);
            assert(models.subrange(0, 0) =~= Seq::<WinnerModel>::empty());
        }
        for i in 0..n
            invariant
                n == winners@.len(),
                models == winners@.map_values(|w: Winner| w@),
                sum_rewards(models) <= u128::MAX,
                total == sum_rewards(models.subrange(0, i as int)),
        {
            proof {
                let next = models.subrange(0, i + 1);
                assert(next.drop_last() =~= models.subrange(0, i as int));
                assert(next.last() == models[i as int]);
                lemma_sum_rewards_prefix(models, i + 1);
                lemma_sum_rewards_nonneg_from(models, i + 1);
            }
            total = total + winners[i].reward_amount;
        }
        proof {
            assert(models.subrange(0, n as int) =~= models);
        }
        Ok(total <= total_reward_pool)
    }

    /// Aggregate statistics over a winner list.
    pub fn get_winner_statistics(winners: &[Winner]) -> (stats: WinnerStatistics)
        requires
            winners@.len() <= u32::MAX,
            sum_rewards(winners@.map_values(|w: Winner| w@)) <= u128::MAX,
        ensures
            stats.total_winners == winners@.len(),
            stats.total_rewards == sum_rewards(winners@.map_values(|w: Winner| w@)),
            stats.level_counts@.len() == 256,
            forall|l: u8| #![auto]
                stats.level_counts@[l as int] == count_level(
                    winners@.map_values(|w: Winner| w@),
                    l,
                ),
    {
        let ghost models = winners@.map_values(|w: Winner| w@);
        let mut level_counts: Vec<u32> = Vec::new();
        while level_counts.len() < 256
            invariant
                level_counts@.len() <= 256,
                forall|j: int| 0 <= j < level_counts@.len() ==> level_counts@[j] == 0,
            decreases 256 - level_counts@.len(),
        {
            level_counts.push(0);
        }
        let n = winners.len();
        let mut total_rewards: u128 = 0;
        proof {
            lemma_sum_rewards_nonneg(models);
            assert(models.subrange(0, 0) =~= Seq::<WinnerModel>::empty());
        }
        for i in 0..n
            invariant
                n == winners@.len() <= u32::MAX,
                models == winners@.map_values(|w: Winner| w@),
                sum_rewards(models) <= u128::MAX,
                level_counts@.len() == 256,
                total_rewards == sum_rewards(models.subrange(0, i as int)),
                forall|l: u8| #![auto]
                    level_counts@[l as int] == count_level(models.subrange(0, i as int), l),
        {
            let ghost prefix = models.subrange(0, i as int);
            proof {
                let next = models.subrange(0, i + 1);
                assert(next.drop_last() =~= prefix);
                assert(next.last() == models[i as int]);
                lemma_sum_rewards_prefix(models, i + 1);
                lemma_sum_rewards_nonneg_from(models, i + 1);
                lemma_count_level_bounds(prefix, models[i as int].level);
            }
            let level = winners[i].level;
            let idx: usize = level as usize;
            let c = level_counts[idx];
            level_counts.set(idx, c + 1);
            total_rewards = total_rewards + winners[i].reward_amount;
            proof {
                let next = models.subrange(0, i + 1);
                assert(forall|l: u8| #![auto]
                    count_level(next, l) == count_level(prefix, l) + if level == l {
                        1int
                    } else {
                        0int
                    });
                assert(level as int == level as usize as int);
            }
        }
        proof {
            assert(models.subrange(0, n as int) =~= models);
        }
        WinnerStatistics { total_winners: n as u32, level_counts, total_rewards }
    }
}

pub proof fn lemma_sum_rewards_nonneg(ws: Seq<WinnerModel>)
    ensures
        sum_rewards(ws) >= 0,
    decreases ws.len(),
{
    if ws.len() > 0 {
        lemma_sum_rewards_nonneg(ws.drop_last());
    }
}

/// The total over a prefix never exceeds the total over the whole list.
pub proof fn lemma_sum_rewards_prefix(ws: Seq<WinnerModel>, k: int)
    requires
        0 <= k <= ws.len(),
    ensures
        sum_rewards(ws.subrange(0, k)) <= sum_rewards(ws),
    decreases ws.len() - k,
{
    if k == ws.len() {
        assert(ws.subrange(0, k) =~= ws);
    } else {
        lemma_sum_rewards_prefix(ws, k + 1);
        assert(ws.subrange(0, k + 1).drop_last() =~= ws.subrange(0, k));
        assert(ws.subrange(0, k + 1).last() == ws[k]);
    }
}

pub proof fn lemma_sum_rewards_nonneg_from(ws: Seq<WinnerModel>, k: int)
    requires
        0 <= k <= ws.len(),
    ensures
        sum_rewards(ws.subrange(0, k)) >= 0,
{
    lemma_sum_rewards_nonneg(ws.subrange(0, k));
}

pub proof fn lemma_count_level_bounds(ws: Seq<WinnerModel>, level: u8)
    ensures
        0 <= count_level(ws, level) <= ws.len(),
    decreases ws.len(),
{
    if ws.len() > 0 {
        lemma_count_level_bounds(ws.drop_last(), level);
    }
}

/// Reward equality: whatever the pool and winner list, every winner record
/// receives the same amount, and the distributed total never exceeds the
/// pool.
pub proof fn lemma_reward_equality(ws: Seq<WinnerModel>, pool: u128)
    requires
        ws.len() >= 1,
    ensures
        ({
            let per = reward_per_winner(ws.len() as int, pool) as u128;
            let paid = with_reward(ws, per);
            &&& forall|i: int, j: int|
                0 <= i < paid.len() && 0 <= j < paid.len() ==> #[trigger] paid[i].reward_amount
                    == #[trigger] paid[j].reward_amount
            &&& sum_rewards(paid) <= pool
        }),
{
    let count = ws.len() as int;
    let per = reward_per_winner(count, pool) as u128;
    let paid = with_reward(ws, per);
    lemma_sum_with_reward(ws, per);
    if pool >= count * FIXED_REWARD_PER_WINNER {
        assert(sum_rewards(paid) == count * FIXED_REWARD_PER_WINNER);
    } else {
        vstd::arithmetic::div_mod::lemma_fundamental_div_mod(pool as int, count);
        vstd::arithmetic::div_mod::lemma_mod_division_less_than_divisor(pool as int, count);
        assert(count * (pool as int / count) <= pool);
        assert(0 <= pool as int / count) by {
            vstd::arithmetic::div_mod::lemma_div_pos_is_pos(pool as int, count);
        }
        assert(sum_rewards(paid) == count * (pool as int / count));
    }
}

/// Setting every prize to `amount` makes the total exactly `count * amount`.
pub proof fn lemma_sum_with_reward(ws: Seq<WinnerModel>, amount: u128)
    ensures
        sum_rewards(with_reward(ws, amount)) == ws.len() * amount,
    decreases ws.len(),
{
    if ws.len() == 0 {
    } else {
        lemma_sum_with_reward(ws.drop_last(), amount);
        assert(with_reward(ws, amount).drop_last() =~= with_reward(ws.drop_last(), amount));
        assert(with_reward(ws, amount).last().reward_amount == amount);
        assert((ws.len() - 1) * amount + amount == ws.len() * amount) by {
            vstd::arithmetic::mul::lemma_mul_is_distributive_add_other_way(
                amount as int,
                ws.len() - 1,
                1,
            );
        }
    }
}

} // verus!
