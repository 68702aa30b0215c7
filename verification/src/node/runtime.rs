use vstd::prelude::*;
use crate::consensus::validator_set::{first_index_of, validator_ids, ValidatorInfo, ValidatorSet};
use crate::crypto::{blake3, blake3_digest};
use crate::node::state::ChainState;
use crate::primitives::ValidatorId;
use vstd::utf8::encode_utf8;

verus! {

/// A validator as written in the genesis configuration.
#[derive(Debug, Clone)]
pub struct GenesisValidator {
    pub validator_id: String,
    pub public_key: String,
}

/// The validator section of the configuration.
#[derive(Debug, Clone)]
pub struct ValidatorSetConfig {
    pub threshold: u32,
    pub validators: Vec<GenesisValidator>,
}

/// Runtime configuration of a node.
#[derive(Debug, Clone)]
pub struct NodeConfig {
    pub chain_id: [u8; 32],
    pub listen_addr: String,
    pub listen_port: u16,
    pub data_dir: String,
    pub validators: Option<ValidatorSetConfig>,
}

impl Default for NodeConfig {
    fn default() -> (res: Self)
        ensures
            res.chain_id@ == Seq::new(32, |i: int| 0u8),
            res.listen_addr@ == "127.0.0.1"@,
            res.listen_port == 8080,
            res.data_dir@ == "./data"@,
            res.validators is None,
    {
        let chain_id = [0u8; 32];
        assert(chain_id@ =~= Seq::new(32, |i: int| 0u8));
        NodeConfig {
            chain_id,
            listen_addr: "127.0.0.1".to_string(),
            listen_port: 8080,
            data_dir: "./data".to_string(),
            validators: None,
        }
    }
}

/// The id and public key a genesis validator is registered with: the BLAKE3
/// hashes of the UTF-8 bytes of its two strings.
pub open spec fn genesis_entry(g: GenesisValidator) -> (Seq<u8>, Seq<u8>) {
    (blake3(encode_utf8(g.validator_id@)), blake3(encode_utf8(g.public_key@)))
}

/// The (id, public key) entries after registering `gs` in order; a later
/// validator with the same id replaces the earlier entry in place.
pub open spec fn genesis_entries(gs: Seq<GenesisValidator>) -> Seq<(Seq<u8>, Seq<u8>)>
    decreases gs.len(),
{
    if gs.len() == 0 {
        Seq::empty()
    } else {
        let prev = genesis_entries(gs.drop_last());
        let e = genesis_entry(gs.last());
        let k = first_index_of(prev.map_values(|p: (Seq<u8>, Seq<u8>)| p.0), e.0);
        if k >= 0 {
            prev.update(k, e)
        } else {
            prev.push(e)
        }
    }
}

/// The validator entries `s` are exactly `entries`, all active.
pub open spec fn entries_match(s: Seq<ValidatorInfo>, entries: Seq<(Seq<u8>, Seq<u8>)>) -> bool {
    &&& s.len() == entries.len()
    &&& forall|i: int|
        0 <= i < s.len() ==> {
            &&& #[trigger] s[i].validator_id.0@ == entries[i].0
            &&& s[i].public_key@ == entries[i].1
            &&& s[i].active
        }
}

impl NodeConfig {
    /// The validator set the configuration describes: its threshold and
    /// every listed validator, active, under the BLAKE3 hashes of its id and
    /// key strings. Without a validator section, an empty set with threshold 1.
    pub fn build_validator_set(&self) -> (res: ValidatorSet)
        ensures
            res.wf(),
            match self.validators {
                Some(vc) => res.threshold == vc.threshold && entries_match(
                    res.active@,
                    genesis_entries(vc.validators@),
                ),
                None => res.threshold == 1 && res.active@.len() == 0,
            },
    {
        match &self.validators {
            Some(vc) => {
                let mut vs = ValidatorSet::new(vc.threshold);
                let n = vc.validators.len();
                let mut i: usize = 0;
                while i < n
                    invariant
                        n == vc.validators@.len(),
                        i <= n,
                        vs.wf(),
                        vs.threshold == vc.threshold,
                        entries_match(vs.active@, genesis_entries(vc.validators@.take(i as int))),
                    decreases n - i,
                {
                    let v = &vc.validators[i];
                    let id_bytes = blake3_digest(v.validator_id.as_str().as_bytes());
                    let pk_bytes = blake3_digest(v.public_key.as_str().as_bytes());
                    let info = ValidatorInfo {
                        validator_id: ValidatorId(id_bytes),
                        public_key: pk_bytes,
                        active: true,
                    };
                    let ghost before = vs.active@;
                    vs.add_validator(info);
                    proof {
                        let gs = vc.validators@.take(i + 1);
                        assert(gs.drop_last() =~= vc.validators@.take(i as int));
                        let prev = genesis_entries(gs.drop_last());
                        assert(validator_ids(before) =~= prev.map_values(
                            |p: (Seq<u8>, Seq<u8>)| p.0,
                        ));
                        assert(gs.last() == vc.validators@[i as int]);
                        let e = genesis_entry(gs.last());
                        assert(info.validator_id.0@ == e.0);
                        assert(info.public_key@ == e.1);
                        let k = first_index_of(validator_ids(before), info.validator_id.0@);
                        let entries = genesis_entries(gs);
                        crate::consensus::validator_set::lemma_first_index_of_range(
                            validator_ids(before),
                            info.validator_id.0@,
                        );
                        if k >= 0 {
                            assert(entries == prev.update(k, e));
                        } else {
                            assert(entries == prev.push(e));
                        }
                        assert forall|j: int| 0 <= j < vs.active@.len() implies {
                            &&& #[trigger] vs.active@[j].validator_id.0@ == entries[j].0
                            &&& vs.active@[j].public_key@ == entries[j].1
                            &&& vs.active@[j].active
                        } by {
                            if j < before.len() && j != k {
                                assert(vs.active@[j] == before[j]);
                                assert(entries[j] == prev[j]);
                            }
                        }
                    }
                    i = i + 1;
                }
                assert(vc.validators@.take(n as int) =~= vc.validators@);
                vs
            },
            None => ValidatorSet::new(1),
        }
    }
}

/// A summary of the chain for clients.
#[derive(Debug, Clone, Copy)]
pub struct ChainInfo {
    pub height: u64,
    pub supply: u64,
    pub claimed_floors: usize,
}

impl<'a> From<&'a ChainState> for ChainInfo {
    /// The height, circulating supply and number of claimed floors of `state`.
    fn from(state: &'a ChainState) -> (res: Self) {
        ChainInfo {
            height: state.height,
            supply: state.supply.circulating.0,
            claimed_floors: state.claimed_floors.len(),
        }
    }
}

impl<'a> vstd::std_specs::convert::FromSpecImpl<&'a ChainState> for ChainInfo {
    open spec fn obeys_from_spec() -> bool {
        true
    }

    open spec fn from_spec(state: &'a ChainState) -> ChainInfo {
        ChainInfo {
            height: state.height,
            supply: state.supply.circulating.0,
            claimed_floors: state.claimed_floors@.len() as usize,
        }
    }
}

} // verus!
