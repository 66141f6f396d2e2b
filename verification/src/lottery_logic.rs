//! Lottery core rules: validation of lucky numbers, the commit-reveal hash
//! binding, match counting, and derivation of the winning number from all
//! revealed seeds.

use vstd::prelude::*;

use crate::crypto::{
    commitment_digest, compute_commitment_digest, is_hex64, str_eq,
};
use crate::error::{ContractError, LuckyNumbersError};
use crate::randomness::{combine_mod_1000, seed_to_u128, seed_value};
use crate::state::{Participant, ParticipantModel};

verus! {

/// How many betting codes a single reveal may carry at most.
pub const MAX_BETTING_CODES: usize = 1000000;

/// The largest value a lucky number may take.
pub const MAX_LUCKY_NUMBER: u16 = 999;

/// How often one value may occur in a single reveal (concentration cap).
pub const MAX_SINGLE_NUMBER_COUNT: u32 = 1000;

/// The smallest and largest bet amount the pre-validation accepts.
pub const MIN_COMMITMENT_BET: u128 = 1;

pub const MAX_COMMITMENT_BET: u128 = 1000000;

/// How often `value` occurs in `numbers`.
pub open spec fn count_in(numbers: Seq<u16>, value: u16) -> int
    decreases numbers.len(),
{
    if numbers.len() == 0 {
        0
    } else {
        count_in(numbers.drop_last(), value) + if numbers.last() == value {
            1int
        } else {
            0int
        }
    }
}

pub proof fn lemma_count_in_bounds(numbers: Seq<u16>, value: u16)
    ensures
        0 <= count_in(numbers, value) <= numbers.len(),
    decreases numbers.len(),
{
    if numbers.len() > 0 {
        lemma_count_in_bounds(numbers.drop_last(), value);
    }
}

/// Whether every entry lies in the allowed number range.
pub open spec fn all_in_range(numbers: Seq<u16>) -> bool {
    forall|i: int| 0 <= i < numbers.len() ==> #[trigger] numbers[i] <= MAX_LUCKY_NUMBER
}

/// Whether no value occurs more often than the concentration cap allows.
pub open spec fn within_concentration_cap(numbers: Seq<u16>) -> bool {
    forall|v: u16| count_in(numbers, v) <= MAX_SINGLE_NUMBER_COUNT
}

/// Whether a participant takes part in the draw: revealed, with a seed.
pub open spec fn has_revealed_seed(p: ParticipantModel) -> bool {
    p.revealed && p.random_seed is Some
}

/// The seed contributions of all revealed participants, in roster order.
pub open spec fn revealed_seed_values(ps: Seq<ParticipantModel>) -> Seq<int>
    decreases ps.len(),
{
    if ps.len() == 0 {
        Seq::empty()
    } else {
        let rest = revealed_seed_values(ps.drop_last());
        if has_revealed_seed(ps.last()) {
            rest.push(seed_value(ps.last().random_seed->0))
        } else {
            rest
        }
    }
}

/// The sum of the revealed seed contributions.
pub open spec fn sum_values(s: Seq<int>) -> int
    decreases s.len(),
{
    if s.len() == 0 {
        0
    } else {
        sum_values(s.drop_last()) + s.last()
    }
}

/// The winning number: the decentralized fold of all revealed seed
/// contributions, modulo the number range.
pub open spec fn winning_number_of(ps: Seq<ParticipantModel>) -> int {
    sum_values(revealed_seed_values(ps)) % 1000
}

pub struct LotteryLogic;

impl LotteryLogic {
    /// Count how many of the participant's lucky numbers equal the winning
    /// number: each match is one winning ticket.
    pub fn count_matches(lucky_numbers: &[u16], winning_number: u16) -> (count: u32)
        requires
            lucky_numbers@.len() <= u32::MAX,
        ensures
            count == count_in(lucky_numbers@, winning_number),
    {
        let ghost all = lucky_numbers@;
        let n = lucky_numbers.len();
        let mut count: u32 = 0;
        assert(all.subrange(0, 0) =~= Seq::<u16>::empty());
        for i in 0..n
            invariant
                n == all.len() <= u32::MAX,
                lucky_numbers@ == all,
                count == count_in(all.subrange(0, i as int), winning_number),
                count <= i,
        {
            proof {
                lemma_count_in_bounds(all.subrange(0, i as int), winning_number);
                assert(all.subrange(0, i + 1).drop_last() =~= all.subrange(0, i as int));
            }
            if lucky_numbers[i] == winning_number {
                count = count + 1;
            }
        }
        proof {
            assert(all.subrange(0, n as int) =~= all);
        }
        count
    }

    /// Every match is top tier; a zero match count has no tier.
    pub fn determine_winner_level(match_count: u32) -> (r: Result<u8, ContractError>)
        ensures
            match_count == 0 ==> r == Err::<u8, _>(ContractError::InvalidWinnerLevel { level: 0 }),
            match_count > 0 ==> r == Ok::<_, ContractError>(1u8),
    {
        match match_count {
            0 => Err(ContractError::InvalidWinnerLevel { level: 0 }),
            _ => Ok(1),
        }
    }

    /// The concentration cap: how often one value may appear in a reveal.
    pub fn get_max_lucky_number_count() -> (r: u32)
        ensures
            r == MAX_SINGLE_NUMBER_COUNT,
    {
        MAX_SINGLE_NUMBER_COUNT
    }

    /// Validate a list of betting codes: non-empty, at most
    /// `MAX_BETTING_CODES` entries, every value in range.
    pub fn validate_lucky_numbers(numbers: &[u16]) -> (r: Result<(), ContractError>)
        ensures
            r is Ok <==> 1 <= numbers@.len() <= MAX_BETTING_CODES && all_in_range(numbers@),
            numbers@.len() == 0 ==> r == Err::<(), _>(
                ContractError::InvalidLuckyNumbers { reason: LuckyNumbersError::Empty },
            ),
            numbers@.len() > MAX_BETTING_CODES ==> r == Err::<(), _>(
                ContractError::InvalidLuckyNumbers { reason: LuckyNumbersError::TooMany },
            ),
            1 <= numbers@.len() <= MAX_BETTING_CODES && !all_in_range(numbers@) ==> r == Err::<
                (),
                _,
            >(ContractError::InvalidLuckyNumbers { reason: LuckyNumbersError::OutOfRange }),
    {
        if numbers.len() == 0 {
            return Err(ContractError::invalid_lucky_numbers(LuckyNumbersError::Empty));
        }
        if numbers.len() > MAX_BETTING_CODES {
            return Err(ContractError::invalid_lucky_numbers(LuckyNumbersError::TooMany));
        }
        let n = numbers.len();
        for i in 0..n
            invariant
                n == numbers@.len(),
                1 <= n <= MAX_BETTING_CODES,
                forall|j: int| 0 <= j < i ==> #[trigger] numbers@[j] <= MAX_LUCKY_NUMBER,
        {
            if numbers[i] > MAX_LUCKY_NUMBER {
                return Err(ContractError::invalid_lucky_numbers(LuckyNumbersError::OutOfRange));
            }
        }
        Ok(())
    }

    /// Enforce the concentration cap: no single value may occur more often
    /// than `MAX_SINGLE_NUMBER_COUNT` times.
    pub fn validate_lucky_number_counts(numbers: &[u16]) -> (r: Result<(), ContractError>)
        ensures
            r is Ok <==> within_concentration_cap(numbers@),
            r is Err ==> r == Err::<(), _>(
                ContractError::InvalidLuckyNumbers { reason: LuckyNumbersError::OverCap },
            ),
    {
        let ghost all = numbers@;
        let mut counts: Vec<u64> = Vec::new();
        while counts.len() < 65536
            invariant
                counts@.len() <= 65536,
                forall|j: int| 0 <= j < counts@.len() ==> counts@[j] == 0,
            decreases 65536 - counts@.len(),
        {
            counts.push(0);
        }
        let n = numbers.len();
        assert(all.subrange(0, 0) =~= Seq::<u16>::empty());
        for i in 0..n
            invariant
                n == all.len(),
                numbers@ == all,
                counts@.len() == 65536,
                forall|v: u16| counts@[v as int] == count_in(all.subrange(0, i as int), v),
        {
            let ghost prefix = all.subrange(0, i as int);
            proof {
                lemma_count_in_bounds(prefix, all[i as int]);
            }
            let value = numbers[i];
            let idx: usize = value as usize;
            let c = counts[idx];
            counts.set(idx, c + 1);
            proof {
                let next = all.subrange(0, i + 1);
                assert(next.drop_last() =~= prefix);
                assert(forall|v: u16| count_in(next, v) == count_in(prefix, v) + if value == v {
                    1int
                } else {
                    0int
                });
            }
        }
        proof {
            assert(all.subrange(0, n as int) =~= all);
        }
        let mut v: usize = 0;
        while v < 65536
            invariant
                counts@.len() == 65536,
                v <= 65536,
                forall|w: u16| counts@[w as int] == count_in(all, w),
                numbers@ == all,
                forall|w: u16| (w as int) < v ==> count_in(all, w) <= MAX_SINGLE_NUMBER_COUNT,
            decreases 65536 - v,
        {
            if counts[v] > MAX_SINGLE_NUMBER_COUNT as u64 {
                proof {
                    assert(v as u16 as int == v as int);
                    assert(count_in(all, v as u16) > MAX_SINGLE_NUMBER_COUNT);
                }
                return Err(ContractError::invalid_lucky_numbers(LuckyNumbersError::OverCap));
            }
            v = v + 1;
        }
        Ok(())
    }

    /// Compute the commitment hash for a bet: SHA-256 over the canonical
    /// message, hex-encoded. Rejects out-of-range numbers and a bet amount
    /// that differs from the number of betting codes (one token buys exactly
    /// one code).
    pub fn generate_commitment_hash(
        bet_amount: u128,
        lucky_numbers: &[u16],
        random_seed: &str,
    ) -> (r: Result<String, ContractError>)
        ensures
            r is Ok <==> all_in_range(lucky_numbers@) && bet_amount == lucky_numbers@.len(),
            r is Ok ==> r->Ok_0@ == commitment_digest(bet_amount, lucky_numbers@, random_seed@),
            !all_in_range(lucky_numbers@) ==> r == Err::<String, _>(
                ContractError::InvalidLuckyNumbers { reason: LuckyNumbersError::OutOfRange },
            ),
            all_in_range(lucky_numbers@) && bet_amount != lucky_numbers@.len() ==> r == Err::<
                String,
                _,
            >(ContractError::InvalidLuckyNumbers { reason: LuckyNumbersError::CountMismatch }),
    {
        let n = lucky_numbers.len();
        for i in 0..n
            invariant
                n == lucky_numbers@.len(),
                forall|j: int| 0 <= j < i ==> #[trigger] lucky_numbers@[j] <= MAX_LUCKY_NUMBER,
        {
            if lucky_numbers[i] > MAX_LUCKY_NUMBER {
                return Err(ContractError::invalid_lucky_numbers(LuckyNumbersError::OutOfRange));
            }
        }
        if bet_amount != lucky_numbers.len() as u128 {
            return Err(ContractError::invalid_lucky_numbers(LuckyNumbersError::CountMismatch));
        }
        Ok(compute_commitment_digest(bet_amount, lucky_numbers, random_seed))
    }

    /// Recompute the commitment hash and compare it with the expected one.
    pub fn verify_commitment_hash(
        bet_amount: u128,
        lucky_numbers: &[u16],
        random_seed: &str,
        expected_hash: &str,
    ) -> (r: Result<bool, ContractError>)
        ensures
            r is Ok <==> all_in_range(lucky_numbers@) && bet_amount == lucky_numbers@.len(),
            r is Ok ==> r->Ok_0 == (commitment_digest(bet_amount, lucky_numbers@, random_seed@)
                == expected_hash@),
            r is Err ==> r == Err::<bool, _>(ContractError::InvalidLuckyNumbers {
                reason: if !all_in_range(lucky_numbers@) {
                    LuckyNumbersError::OutOfRange
                } else {
                    LuckyNumbersError::CountMismatch
                },
            }),
    {
        match Self::generate_commitment_hash(bet_amount, lucky_numbers, random_seed) {
            Ok(actual_hash) => Ok(str_eq(actual_hash.as_str(), expected_hash)),
            Err(e) => Err(e),
        }
    }

    /// Pre-validate a commitment at bet time: the hash must be 64 hex
    /// digits (its content cannot be checked yet, since numbers and seed are
    /// still secret) and the bet amount must be plausible.
    pub fn validate_commitment_consistency(bet_amount: u128, commitment_hash: &str) -> (r: Result<
        (),
        ContractError,
    >)
        ensures
            r is Ok <==> is_hex64(commitment_hash@) && MIN_COMMITMENT_BET <= bet_amount
                <= MAX_COMMITMENT_BET,
            !is_hex64(commitment_hash@) ==> r == Err::<(), _>(ContractError::InvalidCommitmentHash),
            is_hex64(commitment_hash@) && !(MIN_COMMITMENT_BET <= bet_amount
                <= MAX_COMMITMENT_BET) ==> r == Err::<(), _>(
                ContractError::InvalidBetAmount { amount: bet_amount },
            ),
    {
        if !crate::crypto::check_hex64(commitment_hash) {
            return Err(ContractError::InvalidCommitmentHash);
        }
        if bet_amount < MIN_COMMITMENT_BET {
            return Err(ContractError::invalid_bet_amount(bet_amount));
        }
        if bet_amount > MAX_COMMITMENT_BET {
            return Err(ContractError::invalid_bet_amount(bet_amount));
        }
        Ok(())
    }

    /// Full commit-reveal binding check, used at reveal time: the count must
    /// match the paid amount and the recomputed hash must equal the stored
    /// commitment hash exactly.
    pub fn validate_commitment_full_consistency(
        bet_amount: u128,
        lucky_numbers: &[u16],
        random_seed: &str,
        commitment_hash: &str,
    ) -> (r: Result<(), ContractError>)
        ensures
            r is Ok <==> bet_amount == lucky_numbers@.len() && all_in_range(lucky_numbers@)
                && commitment_digest(bet_amount, lucky_numbers@, random_seed@)
                == commitment_hash@,
            bet_amount != lucky_numbers@.len() ==> r == Err::<(), _>(
                ContractError::InvalidLuckyNumbers { reason: LuckyNumbersError::CountMismatch },
            ),
            bet_amount == lucky_numbers@.len() && !all_in_range(lucky_numbers@) ==> r == Err::<
                (),
                _,
            >(ContractError::InvalidLuckyNumbers { reason: LuckyNumbersError::OutOfRange }),
            bet_amount == lucky_numbers@.len() && all_in_range(lucky_numbers@)
                && commitment_digest(bet_amount, lucky_numbers@, random_seed@)
                != commitment_hash@ ==> r == Err::<(), _>(ContractError::CommitmentHashMismatch),
    {
        if bet_amount != lucky_numbers.len() as u128 {
            return Err(ContractError::invalid_lucky_numbers(LuckyNumbersError::CountMismatch));
        }
        let is_valid = match Self::verify_commitment_hash(
            bet_amount,
            lucky_numbers,
            random_seed,
            commitment_hash,
        ) {
            Ok(v) => v,
            Err(e) => {
                return Err(e);
            },
        };
        if !is_valid {
            return Err(ContractError::CommitmentHashMismatch);
        }
        Ok(())
    }

    /// Derive the winning number from all revealed seeds: each seed
    /// contributes a 128-bit value, and the decentralized combination
    /// primitive folds the contributions into one number below 1000.
    pub fn calculate_winning_number(participants: &[Participant]) -> (r: Result<
        u16,
        ContractError,
    >)
        ensures
            r is Ok <==> revealed_seed_values(
                participants@.map_values(|p: Participant| p@),
            ).len() > 0,
            r is Ok ==> r->Ok_0 == winning_number_of(participants@.map_values(|p: Participant| p@))
                && r->Ok_0 <= MAX_LUCKY_NUMBER,
            r is Err ==> r == Err::<u16, _>(ContractError::NoParticipants),
    {
        let ghost models = participants@.map_values(|p: Participant| p@);
        if participants.len() == 0 {
            return Err(ContractError::NoParticipants);
        }
        let n = participants.len();
        let mut acc: u128 = 0;
        let mut count: usize = 0;
        assert(models.subrange(0, 0) =~= Seq::<ParticipantModel>::empty());
        for i in 0..n
            invariant
                n == participants@.len(),
                models == participants@.map_values(|p: Participant| p@),
                models.len() == n,
                count == revealed_seed_values(models.subrange(0, i as int)).len(),
                acc == sum_values(revealed_seed_values(models.subrange(0, i as int))) % 1000,
                count <= i,
        {
            let ghost prefix = models.subrange(0, i as int);
            let ghost vals = revealed_seed_values(prefix);
            let p = &participants[i];
            if p.revealed {
                match &p.random_seed {
                    Some(seed) => {
                        let v = seed_to_u128(seed.as_str());
                        let w = v % 1000;
                        proof {
                            lemma_revealed_values_nonneg(prefix);
                            lemma_sum_values_nonnegative(vals);
                            vstd::arithmetic::div_mod::lemma_mod_division_less_than_divisor(
                                sum_values(vals),
                                1000,
                            );
                        }
                        let folded = match combine_mod_1000(acc, w) {
                            Ok(f) => f,
                            Err(e) => {
                                return Err(e);
                            },
                        };
                        proof {
                            let s = sum_values(vals);
                            vstd::arithmetic::div_mod::lemma_add_mod_noop(s, v as int, 1000);
                            assert(sum_values(vals.push(v as int)) == s + v) by {
                                assert(vals.push(v as int).drop_last() =~= vals);
                            }
                        }
                        acc = folded;
                        count = count + 1;
                    },
                    None => {},
                }
            }
            proof {
                let next = models.subrange(0, i + 1);
                assert(next.drop_last() =~= prefix);
                assert(next.last() == models[i as int]);
                assert(models[i as int] == participants@[i as int]@);
            }
        }
        proof {
            assert(models.subrange(0, n as int) =~= models);
        }
        if count == 0 {
            return Err(ContractError::NoParticipants);
        }
        proof {
            lemma_revealed_values_nonneg(models);
            lemma_sum_values_nonnegative(revealed_seed_values(models));
            vstd::arithmetic::div_mod::lemma_mod_division_less_than_divisor(
                sum_values(revealed_seed_values(models)),
                1000,
            );
        }
        Ok(acc as u16)
    }

    /// The display name of a winner level.
    pub fn get_winner_level_name(level: u8) -> (name: &'static str)
        ensures
            level == 1 ==> name@ == "first prize"@,
            level != 1 ==> name@ == "no prize"@,
    {
        match level {
            1 => "first prize",
            _ => "no prize",
        }
    }
}

pub proof fn lemma_sum_values_nonnegative(s: Seq<int>)
    requires
        forall|i: int| 0 <= i < s.len() ==> s[i] >= 0,
    ensures
        sum_values(s) >= 0,
    decreases s.len(),
{
    if s.len() > 0 {
        lemma_sum_values_nonnegative(s.drop_last());
    }
}

/// Every revealed seed contribution is nonnegative.
pub proof fn lemma_revealed_values_nonneg(ps: Seq<ParticipantModel>)
    ensures
        forall|i: int|
            0 <= i < revealed_seed_values(ps).len() ==> #[trigger] revealed_seed_values(ps)[i]
                >= 0,
    decreases ps.len(),
{
    if ps.len() > 0 {
        lemma_revealed_values_nonneg(ps.drop_last());
        let rest = revealed_seed_values(ps.drop_last());
        if has_revealed_seed(ps.last()) {
            crate::randomness::lemma_seed_value_nonneg(ps.last().random_seed->0);
            let x = seed_value(ps.last().random_seed->0);
            assert(revealed_seed_values(ps) == rest.push(x));
            assert forall|i: int| 0 <= i < revealed_seed_values(ps).len() implies #[trigger]
            revealed_seed_values(ps)[i] >= 0 by {
                if i < rest.len() {
                    assert(revealed_seed_values(ps)[i] == rest[i]);
                } else {
                    assert(revealed_seed_values(ps)[i] == x);
                }
            }
        } else {
            assert(revealed_seed_values(ps) == rest);
        }
    }
}

} // verus!
