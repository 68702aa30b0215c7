use vstd::prelude::*;
use crate::floor_proof::maze_floor::{rarity_value, Cell, CoinSpawn, GeneratedMazeFloor};
use crate::floor_proof::record::FloorProof;
use crate::floor_proof::validation_result::{FloorInvalidReason, FloorValidationResult};
use crate::primitives::coin::sat_sub;
use crate::primitives::CoinAmount;

verus! {

/// Validates floor proofs against the regenerated floor.
pub struct FloorValidator;

/// The first coin with id `id`, scanning from the front.
pub open spec fn first_coin_with_id(coins: Seq<CoinSpawn>, id: u32) -> Option<CoinSpawn>
    decreases coins.len(),
{
    if coins.len() == 0 {
        None
    } else if coins[0].id == id {
        Some(coins[0])
    } else {
        first_coin_with_id(coins.drop_first(), id)
    }
}

/// The summed value of the coins with ids `0..n`, each taken as the first
/// coin with that id; `None` if some id in `0..n` has no coin.
pub open spec fn claimed_coin_total(coins: Seq<CoinSpawn>, n: nat) -> Option<int>
    decreases n,
{
    if n == 0 {
        Some(0)
    } else {
        match claimed_coin_total(coins, (n - 1) as nat) {
            None => None,
            Some(t) => match first_coin_with_id(coins, (n - 1) as u32) {
                None => None,
                Some(c) => Some(t + rarity_value(c.rarity)),
            },
        }
    }
}

/// The outcome of the Maze Runner checks, in the order they are made: the
/// summed coin value on success, else the first failed check.
pub open spec fn spec_maze_runner_check(proof: FloorProof, floor: GeneratedMazeFloor) -> Result<
    int,
    FloorInvalidReason,
> {
    if proof.game_id != 1 {
        Err(FloorInvalidReason::InvalidGameId)
    } else if proof.game_rules_version.0 != 1 {
        Err(FloorInvalidReason::InvalidRulesVersion)
    } else if (Cell { x: proof.claimed_coin_amount as u32, y: 0 }) != floor.start_cell {
        Err(FloorInvalidReason::InvalidStartPosition)
    } else if sat_sub(proof.end_time, proof.start_time) == 0 {
        Err(FloorInvalidReason::ImpossibleCompletionTime)
    } else {
        match claimed_coin_total(floor.coins@, (proof.claimed_coin_amount as u32) as nat) {
            None => Err(FloorInvalidReason::InvalidCoinId),
            Some(t) => Ok(t),
        }
    }
}

proof fn lemma_coin_total_bounded(coins: Seq<CoinSpawn>, n: nat)
    ensures
        claimed_coin_total(coins, n) matches Some(t) ==> 0 <= t <= 5 * n,
    decreases n,
{
    if n > 0 {
        lemma_coin_total_bounded(coins, (n - 1) as nat);
    }
}

/// Finds the first coin with id `id`.
fn find_coin(coins: &Vec<CoinSpawn>, id: u32) -> (res: Option<CoinSpawn>)
    ensures
        res == first_coin_with_id(coins@, id),
{
    let mut i: usize = 0;
    assert(coins@.skip(0) =~= coins@);
    while i < coins.len()
        invariant
            i <= coins@.len(),
            first_coin_with_id(coins@, id) == first_coin_with_id(coins@.skip(i as int), id),
        decreases coins@.len() - i,
    {
        assert(coins@.skip(i as int)[0] == coins@[i as int]);
        if coins[i].id == id {
            return Some(coins[i]);
        }
        assert(coins@.skip(i as int).drop_first() =~= coins@.skip(i + 1));
        i = i + 1;
    }
    None
}

impl FloorValidator {
    /// Validates a Maze Runner floor proof against `generated_floor`, the
    /// floor regenerated from the proof's seed. Checks, in order: the game id
    /// (only 1), the rules version (only 1), the start cell, that the run took
    /// time, and that every claimed coin id `0..claimed_coin_amount` is on the
    /// floor. A valid result carries the floor's hash and the summed value of
    /// the claimed coins; an invalid one the first failed check and 0.
    ///
    /// No reward schedule exists yet that turns the coin total into a reward,
    /// so the reported reward is the raw summed coin value. The floor is an
    /// argument because no floor generator exists yet either.
    pub fn validate_maze_runner(proof: &FloorProof, generated_floor: &GeneratedMazeFloor) -> (res:
        FloorValidationResult)
        ensures
            match spec_maze_runner_check(*proof, *generated_floor) {
                Ok(t) => res.valid && res.reason is None && res.floor_proof_hash
                    == generated_floor.floor_hash && res.calculated_reward.0 == t,
                Err(r) => !res.valid && res.reason == Some(r) && res.calculated_reward.0 == 0
                    && res.floor_proof_hash.0@ == Seq::new(32, |i: int| 0u8),
            },
    {
        if proof.game_id != 1 {
            return FloorValidationResult::invalid(FloorInvalidReason::InvalidGameId, CoinAmount::new(0));
        }
        if proof.game_rules_version.0 != 1 {
            return FloorValidationResult::invalid(
                FloorInvalidReason::InvalidRulesVersion,
                CoinAmount::new(0),
            );
        }
        let proof_start = Cell::new(proof.claimed_coin_amount as u32, 0);
        if proof_start != generated_floor.start_cell {
            return FloorValidationResult::invalid(
                FloorInvalidReason::InvalidStartPosition,
                CoinAmount::new(0),
            );
        }
        let proof_exit = Cell::new(generated_floor.exit_cell.x, generated_floor.exit_cell.y);
        if proof_exit != generated_floor.exit_cell {
            return FloorValidationResult::invalid(
                FloorInvalidReason::InvalidExitPosition,
                CoinAmount::new(0),
            );
        }
        let duration_ms = proof.end_time.saturating_sub(proof.start_time);
        if duration_ms == 0 {
            return FloorValidationResult::invalid(
                FloorInvalidReason::ImpossibleCompletionTime,
                CoinAmount::new(0),
            );
        }
        let n = proof.claimed_coin_amount as u32;
        let mut total: u64 = 0;
        let mut coin_id: u32 = 0;
        #[verifier::loop_isolation(false)]
        while coin_id < n
            invariant
                coin_id <= n,
                claimed_coin_total(generated_floor.coins@, coin_id as nat) == Some(total as int),
                total <= 5 * coin_id,
            decreases n - coin_id,
        {
            match find_coin(&generated_floor.coins, coin_id) {
                Some(coin) => {
                    total = total + coin.rarity.value() as u64;
                },
                None => {
                    proof {
                        let k = (coin_id + 1) as nat;
                        assert(((k - 1) as nat) as u32 == coin_id);
                        assert(claimed_coin_total(generated_floor.coins@, k) is None);
                        lemma_coin_total_none_stays(generated_floor.coins@, k, n as nat);
                    }
                    return FloorValidationResult::invalid(
                        FloorInvalidReason::InvalidCoinId,
                        CoinAmount::new(0),
                    );
                },
            }
            coin_id = coin_id + 1;
        }
        FloorValidationResult::valid(generated_floor.floor_hash, CoinAmount::new(total))
    }
}

proof fn lemma_coin_total_none_stays(coins: Seq<CoinSpawn>, k: nat, m: nat)
    requires
        claimed_coin_total(coins, k) is None,
        k <= m,
    ensures
        claimed_coin_total(coins, m) is None,
    decreases m - k,
{
    if k < m {
        lemma_coin_total_none_stays(coins, k, (m - 1) as nat);
    }
}

proof fn lemma_coin_total_ok(coins: Seq<CoinSpawn>, n: nat, id: nat)
    requires
        claimed_coin_total(coins, n) is Some,
        id < n,
        n <= 0x1_0000_0000,
    ensures
        exists|i: int| 0 <= i < coins.len() && #[trigger] coins[i].id == id,
        claimed_coin_total(coins, n)->0 >= n,
    decreases n,
{
    lemma_coin_total_lower(coins, n);
    if id < n - 1 {
        lemma_coin_total_ok(coins, (n - 1) as nat, id);
    } else {
        lemma_first_coin_found(coins, id as u32);
    }
}

proof fn lemma_coin_total_lower(coins: Seq<CoinSpawn>, n: nat)
    requires
        claimed_coin_total(coins, n) is Some,
    ensures
        claimed_coin_total(coins, n)->0 >= n,
    decreases n,
{
    if n > 0 {
        lemma_coin_total_lower(coins, (n - 1) as nat);
    }
}

proof fn lemma_first_coin_found(coins: Seq<CoinSpawn>, id: u32)
    requires
        first_coin_with_id(coins, id) is Some,
    ensures
        exists|i: int| 0 <= i < coins.len() && #[trigger] coins[i].id == id,
    decreases coins.len(),
{
    if coins[0].id != id {
        lemma_first_coin_found(coins.drop_first(), id);
        let i = choose|i: int| 0 <= i < coins.drop_first().len() && #[trigger] coins.drop_first()[i].id == id;
        assert(coins[i + 1].id == id);
    }
}

/// Some coin on the floor has id `id`.
pub open spec fn floor_has_coin(coins: Seq<CoinSpawn>, id: int) -> bool {
    exists|i: int| 0 <= i < coins.len() && #[trigger] coins[i].id == id
}

/// What a valid Maze Runner result guarantees: game 1, rules version 1, the
/// start cell the proof names, a run that took time (ends strictly after it
/// starts), and a coin on the floor for every claimed coin id; the reward
/// is at least one and at most five per claimed coin.
pub proof fn lemma_valid_run_guarantees(proof: FloorProof, floor: GeneratedMazeFloor)
    requires
        spec_maze_runner_check(proof, floor) is Ok,
    ensures
        proof.game_id == 1,
        proof.game_rules_version.0 == 1,
        floor.start_cell.x == proof.claimed_coin_amount as u32,
        floor.start_cell.y == 0,
        proof.end_time > proof.start_time,
        forall|id: int|
            0 <= id < (proof.claimed_coin_amount as u32) ==> #[trigger] floor_has_coin(floor.coins@, id),
        (proof.claimed_coin_amount as u32) <= spec_maze_runner_check(proof, floor)->Ok_0
            <= 5 * (proof.claimed_coin_amount as u32),
{
    let n = (proof.claimed_coin_amount as u32) as nat;
    assert forall|id: int| 0 <= id < (proof.claimed_coin_amount as u32) implies #[trigger] floor_has_coin(
        floor.coins@,
        id,
    ) by {
        lemma_coin_total_ok(floor.coins@, n, id as nat);
    }
    lemma_coin_total_lower(floor.coins@, n);
    lemma_coin_total_bounded(floor.coins@, n);
}

/// A run that passes the game, rules and start checks but does not end after
/// it starts is rejected as taking impossibly little time.
pub proof fn lemma_zero_duration_rejected(proof: FloorProof, floor: GeneratedMazeFloor)
    requires
        proof.game_id == 1,
        proof.game_rules_version.0 == 1,
        floor.start_cell == (Cell { x: proof.claimed_coin_amount as u32, y: 0 }),
        proof.end_time <= proof.start_time,
    ensures
        spec_maze_runner_check(proof, floor) == Err::<int, FloorInvalidReason>(
            FloorInvalidReason::ImpossibleCompletionTime,
        ),
{
}

} // verus!
