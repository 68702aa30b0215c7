use vstd::prelude::*;
use crate::ledger::balance::{balances_granted, total_holdings};
use crate::ledger::supply::MAX_SUPPLY;
use crate::node::attestation_verifier::{spec_verify_claim, verify_claim_attestations};
use crate::node::state::ChainState;
use crate::primitives::claim_key::spec_claim_key;
use crate::primitives::{ClaimKey, FloorNumber};
use crate::tx::{ClaimFloorReward, TxError};

verus! {

/// The key a claim is recorded under.
pub open spec fn claim_key_of(tx: ClaimFloorReward) -> Seq<u8> {
    spec_claim_key(tx.player, tx.game_id, tx.run_id, FloorNumber(tx.floor_number))
}

/// The outcome of applying a claim: rejected if its floor was already
/// claimed, if verification fails, or if minting its reward would pass the
/// supply cap; accepted otherwise.
pub open spec fn spec_claim_outcome(s: ChainState, tx: ClaimFloorReward) -> Result<(), TxError> {
    if s.claimed_set().contains(claim_key_of(tx)) {
        Err(TxError::DuplicateFloorClaim)
    } else {
        match spec_verify_claim(s, tx) {
            Err(e) => Err(e),
            Ok(v) => if s.supply.circulating.0 + v.1 <= MAX_SUPPLY {
                Ok(())
            } else {
                Err(TxError::MaxSupplyExceeded)
            },
        }
    }
}

/// The supply check `circulating + reward <= MAX_SUPPLY` is made in `u64`;
/// when the claim gets that far, the sum must not overflow.
pub open spec fn claim_mint_fits(s: ChainState, tx: ClaimFloorReward) -> bool {
    (!s.claimed_set().contains(claim_key_of(tx)) && spec_verify_claim(s, tx) is Ok)
        ==> s.supply.circulating.0 + tx.claimed_reward.0 <= u64::MAX
}

/// `t` is `s` after an accepted claim: the floor is recorded as claimed, the
/// player's minted balance and the circulating supply both rise by the
/// reward, and nothing else changes.
pub open spec fn claim_applied(s: ChainState, tx: ClaimFloorReward, t: ChainState) -> bool {
    &&& t.claimed_set() == s.claimed_set().insert(claim_key_of(tx))
    &&& balances_granted(s.balances@, tx.player, tx.claimed_reward.0, t.balances@)
    &&& t.supply.circulating.0 == s.supply.circulating.0 + tx.claimed_reward.0
    &&& t.supply.burned == s.supply.burned
    &&& t.height == s.height
    &&& t.blocks == s.blocks
    &&& t.validators == s.validators
}

/// Applies a `ClaimFloorReward` transaction atomically: either every change
/// happens (floor recorded, reward minted to the player and to the supply)
/// or none does.
pub fn execute_claim_floor_reward(state: &mut ChainState, tx: &ClaimFloorReward) -> (res: Result<
    (),
    TxError,
>)
    requires
        old(state).wf(),
        claim_mint_fits(*old(state), *tx),
    ensures
        res == spec_claim_outcome(*old(state), *tx),
        res is Err ==> *final(state) == *old(state),
        res is Ok ==> claim_applied(*old(state), *tx, *final(state)),
        final(state).wf(),
{
    let claim_key = ClaimKey::new(tx.player, tx.game_id, tx.run_id, FloorNumber(tx.floor_number));
    if state.is_floor_claimed(&claim_key) {
        return Err(TxError::DuplicateFloorClaim);
    }
    let verified = match verify_claim_attestations(state, tx) {
        Ok(v) => v,
        Err(e) => {
            return Err(e);
        },
    };
    if verified.claim_key != claim_key {
        return Err(TxError::ClaimKeyMismatch);
    }
    if !state.supply.can_mint(verified.reward) {
        return Err(TxError::MaxSupplyExceeded);
    }
    let ghost s0 = *state;
    state.mark_floor_claimed(claim_key);
    let ghost before = state.balances@;
    let player_balance = state.balances.get_or_create(tx.player);
    player_balance.grant_mintable(verified.reward);
    proof {
        let after = state.balances@;
        assert(balances_granted(before, tx.player, tx.claimed_reward.0, after));
        assert forall|i: int, j: int|
            0 <= i < after.len() && 0 <= j < after.len() && #[trigger] after[i].spec_account_id().0@
                == #[trigger] after[j].spec_account_id().0@ implies i == j by {
            if exists|k: int| crate::ledger::balance::holds_account(before, tx.player.0@, k) {
                let k = choose|k: int| crate::ledger::balance::holds_account(before, tx.player.0@, k);
                assert(before[i].spec_account_id().0@ == after[i].spec_account_id().0@);
                assert(before[j].spec_account_id().0@ == after[j].spec_account_id().0@);
            } else {
                let n = before.len() as int;
                if i < n && j < n {
                    assert(before[i].spec_account_id().0@ == before[j].spec_account_id().0@);
                } else if i < n {
                    assert(!crate::ledger::balance::holds_account(before, tx.player.0@, i));
                } else if j < n {
                    assert(!crate::ledger::balance::holds_account(before, tx.player.0@, j));
                }
            }
        }
    }
    state.supply.mint(verified.reward);
    Ok(())
}

/// A floor cannot be claimed twice: once a claim has been applied, applying
/// the same claim again is rejected as a duplicate.
pub proof fn lemma_claim_not_repeatable(s: ChainState, tx: ClaimFloorReward, t: ChainState)
    requires
        claim_applied(s, tx, t),
    ensures
        spec_claim_outcome(t, tx) == Err::<(), TxError>(TxError::DuplicateFloorClaim),
{
    assert(t.claimed_set().contains(claim_key_of(tx)));
}

/// An accepted claim keeps circulation within the cap.
pub proof fn lemma_claim_respects_cap(s: ChainState, tx: ClaimFloorReward, t: ChainState)
    requires
        spec_claim_outcome(s, tx) is Ok,
        claim_applied(s, tx, t),
    ensures
        t.supply.circulating.0 <= MAX_SUPPLY,
{
}

/// Coins enter circulation only with a matching credit to a balance: the
/// coins held over all accounts equal the circulating supply, and the cap
/// holds.
pub open spec fn ledger_consistent(s: ChainState) -> bool {
    &&& total_holdings(s.balances@) == s.supply.circulating.0
    &&& s.supply.circulating.0 <= MAX_SUPPLY
}

/// Applying a claim, accepted or rejected, keeps the ledger consistent.
pub proof fn lemma_claim_keeps_ledger_consistent(s: ChainState, tx: ClaimFloorReward, t: ChainState)
    requires
        ledger_consistent(s),
        spec_claim_outcome(s, tx) is Ok ==> claim_applied(s, tx, t),
        spec_claim_outcome(s, tx) is Err ==> t == s,
    ensures
        ledger_consistent(t),
{
    if spec_claim_outcome(s, tx) is Ok {
        crate::ledger::balance::lemma_grant_adds_to_holdings(
            s.balances@,
            tx.player,
            tx.claimed_reward.0,
            t.balances@,
        );
    }
}

} // verus!
