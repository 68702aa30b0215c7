use vstd::prelude::*;
use crate::bytes::bytes32_eq;
use crate::consensus::validator_set::spec_is_active;
use crate::node::state::ChainState;
use crate::node::verified_claim::VerifiedClaim;
use crate::primitives::claim_key::spec_claim_key;
use crate::primitives::{ClaimKey, FloorNumber, ValidatorId};
use crate::tx::{ClaimFloorReward, SignedValidatorAttestation, TxError};

verus! {

/// The claim's own fields are acceptable: game 1, rules version 1, floor
/// 1..=100 and a positive reward; otherwise the first that is not.
pub open spec fn spec_claim_consistency(tx: ClaimFloorReward) -> Result<(), TxError> {
    if tx.game_id.0 != 1 {
        Err(TxError::InvalidGameId)
    } else if tx.game_rules_version.0 != 1 {
        Err(TxError::InvalidGameRulesVersion)
    } else if tx.floor_number == 0 || tx.floor_number > 100 {
        Err(TxError::InvalidFloorNumber)
    } else if tx.claimed_reward.0 == 0 {
        Err(TxError::InvalidRewardAmount)
    } else {
        Ok(())
    }
}

/// Attestation `i` is from an active validator that no earlier attestation
/// named; otherwise the error it raises.
pub open spec fn spec_check_attestation(
    state: ChainState,
    atts: Seq<SignedValidatorAttestation>,
    i: int,
) -> Result<(), TxError> {
    if !spec_is_active(state.validators.active@, atts[i].validator_id@) {
        Err(TxError::UnknownValidator)
    } else if exists|j: int| 0 <= j < i && atts[j].validator_id@ == atts[i].validator_id@ {
        Err(TxError::DuplicateValidatorSignature)
    } else {
        Ok(())
    }
}

/// Checking the first `n` attestations in order: the first error, if any.
pub open spec fn spec_check_attestations(
    state: ChainState,
    atts: Seq<SignedValidatorAttestation>,
    n: nat,
) -> Result<(), TxError>
    decreases n,
{
    if n == 0 {
        Ok(())
    } else {
        match spec_check_attestations(state, atts, (n - 1) as nat) {
            Err(e) => Err(e),
            Ok(()) => spec_check_attestation(state, atts, n - 1),
        }
    }
}

/// The outcome of verifying a claim: too few attestations for the
/// threshold, then each attestation in order, then the claim's own fields.
/// On success, the claim's key and reward, in reward epoch 1.
pub open spec fn spec_verify_claim(state: ChainState, tx: ClaimFloorReward) -> Result<
    (Seq<u8>, u64, u32),
    TxError,
> {
    if (tx.attestations@.len() as u32) < state.validators.threshold {
        Err(TxError::InsufficientValidatorSignatures)
    } else {
        match spec_check_attestations(state, tx.attestations@, tx.attestations@.len()) {
            Err(e) => Err(e),
            Ok(()) => match spec_claim_consistency(tx) {
                Err(e) => Err(e),
                Ok(()) => Ok(
                    (
                        spec_claim_key(tx.player, tx.game_id, tx.run_id, FloorNumber(tx.floor_number)),
                        tx.claimed_reward.0,
                        1u32,
                    ),
                ),
            },
        }
    }
}

/// Checks the claim's own fields.
fn validate_claim_consistency(tx: &ClaimFloorReward) -> (res: Result<(), TxError>)
    ensures
        res == spec_claim_consistency(*tx),
{
    if tx.game_id.0 != 1 {
        return Err(TxError::InvalidGameId);
    }
    if tx.game_rules_version.0 != 1 {
        return Err(TxError::InvalidGameRulesVersion);
    }
    if tx.floor_number == 0 || tx.floor_number > 100 {
        return Err(TxError::InvalidFloorNumber);
    }
    if tx.claimed_reward.0 == 0 {
        return Err(TxError::InvalidRewardAmount);
    }
    Ok(())
}

/// Whether `id` is among `seen`.
fn seen_contains(seen: &Vec<[u8; 32]>, id: &[u8; 32]) -> (res: bool)
    ensures
        res == exists|j: int| 0 <= j < seen@.len() && seen@[j]@ == id@,
{
    let mut i: usize = 0;
    while i < seen.len()
        invariant
            i <= seen@.len(),
            forall|j: int| 0 <= j < i ==> seen@[j]@ != id@,
        decreases seen@.len() - i,
    {
        if bytes32_eq(&seen[i], id) {
            return true;
        }
        i = i + 1;
    }
    false
}

proof fn lemma_check_prefix_ok(state: ChainState, atts: Seq<SignedValidatorAttestation>, k: nat, n: nat)
    requires
        k <= n,
        spec_check_attestations(state, atts, n) is Ok,
    ensures
        spec_check_attestations(state, atts, k) is Ok,
    decreases n - k,
{
    if k < n {
        lemma_check_prefix_ok(state, atts, k, (n - 1) as nat);
    }
}

proof fn lemma_check_err_stays(
    state: ChainState,
    atts: Seq<SignedValidatorAttestation>,
    k: nat,
    n: nat,
    e: TxError,
)
    requires
        k <= n,
        spec_check_attestations(state, atts, k) == Err::<(), TxError>(e),
    ensures
        spec_check_attestations(state, atts, n) == Err::<(), TxError>(e),
    decreases n - k,
{
    if k < n {
        lemma_check_err_stays(state, atts, k, (n - 1) as nat, e);
    }
}

/// Verifies that a claim's attestations meet the signature threshold, come
/// from distinct active validators, and that the claim itself is well formed.
/// Signatures are not checked cryptographically.
pub fn verify_claim_attestations(state: &ChainState, tx: &ClaimFloorReward) -> (res: Result<
    VerifiedClaim,
    TxError,
>)
    requires
        state.validators.wf(),
    ensures
        match res {
            Ok(v) => spec_verify_claim(*state, *tx) == Ok::<(Seq<u8>, u64, u32), TxError>(
                (v.claim_key.0@, v.reward.0, v.reward_epoch),
            ) && v.reward == tx.claimed_reward,
            Err(e) => spec_verify_claim(*state, *tx) == Err::<(Seq<u8>, u64, u32), TxError>(e),
        },
{
    if (#[verifier::truncate] (tx.attestations.len() as u32)) < state.validators.threshold {
        return Err(TxError::InsufficientValidatorSignatures);
    }
    let ghost atts = tx.attestations@;
    let n = tx.attestations.len();
    let mut seen: Vec<[u8; 32]> = Vec::new();
    let mut matching: usize = 0;
    let mut i: usize = 0;
    while i < n
        invariant
            n == atts.len(),
            atts == tx.attestations@,
            state.validators.wf(),
            i <= n,
            matching == i,
            seen@.len() == i,
            forall|j: int| 0 <= j < i ==> #[trigger] seen@[j]@ == atts[j].validator_id@,
            spec_check_attestations(*state, atts, i as nat) is Ok,
            !((atts.len() as u32) < state.validators.threshold),
        decreases n - i,
    {
        let validator_id = ValidatorId(tx.attestations[i].validator_id);
        if !state.validators.is_active(validator_id) {
            proof {
                lemma_check_err_stays(*state, atts, (i + 1) as nat, n as nat, TxError::UnknownValidator);
            }
            return Err(TxError::UnknownValidator);
        }
        if seen_contains(&seen, &validator_id.0) {
            proof {
                let j = choose|j: int| 0 <= j < seen@.len() && seen@[j]@ == validator_id.0@;
                assert(atts[j].validator_id@ == atts[i as int].validator_id@);
                lemma_check_err_stays(
                    *state,
                    atts,
                    (i + 1) as nat,
                    n as nat,
                    TxError::DuplicateValidatorSignature,
                );
            }
            return Err(TxError::DuplicateValidatorSignature);
        }
        proof {
            assert(!exists|j: int| 0 <= j < i && atts[j].validator_id@ == atts[i as int].validator_id@) by {
                if exists|j: int| 0 <= j < i && atts[j].validator_id@ == atts[i as int].validator_id@ {
                    let j = choose|j: int| 0 <= j < i && atts[j].validator_id@ == atts[i as int].validator_id@;
                    assert(seen@[j]@ == validator_id.0@);
                }
            }
        }
        seen.push(validator_id.0);
        matching = matching + 1;
        i = i + 1;
    }
    match validate_claim_consistency(tx) {
        Err(e) => {
            return Err(e);
        },
        Ok(()) => {},
    }
    if (#[verifier::truncate] (matching as u32)) < state.validators.threshold {
        return Err(TxError::InsufficientMatchingSignatures);
    }
    let claim_key = ClaimKey::new(tx.player, tx.game_id, tx.run_id, FloorNumber(tx.floor_number));
    Ok(VerifiedClaim::new(claim_key, tx.claimed_reward, 1))
}

/// Every accepted claim carries at least the threshold of attestations, each
/// from an active validator, no two from the same validator.
pub proof fn lemma_verified_claims_are_attested(state: ChainState, tx: ClaimFloorReward)
    requires
        spec_verify_claim(state, tx) is Ok,
    ensures
        (tx.attestations@.len() as u32) >= state.validators.threshold,
        forall|i: int|
            0 <= i < tx.attestations@.len() ==> spec_is_active(
                state.validators.active@,
                #[trigger] tx.attestations@[i].validator_id@,
            ),
        forall|i: int, j: int|
            0 <= i < j < tx.attestations@.len() ==> #[trigger] tx.attestations@[i].validator_id@
                != #[trigger] tx.attestations@[j].validator_id@,
{
    let atts = tx.attestations@;
    let n = atts.len();
    assert forall|i: int| 0 <= i < n implies spec_check_attestation(state, atts, i) is Ok by {
        lemma_check_prefix_ok(state, atts, (i + 1) as nat, n);
    }
    assert forall|i: int| 0 <= i < n implies spec_is_active(
        state.validators.active@,
        #[trigger] atts[i].validator_id@,
    ) by {
        assert(spec_check_attestation(state, atts, i) is Ok);
    }
    assert forall|i: int, j: int| 0 <= i < j < n implies #[trigger] atts[i].validator_id@
        != #[trigger] atts[j].validator_id@ by {
        assert(spec_check_attestation(state, atts, j) is Ok);
    }
}

} // verus!
