use vstd::prelude::*;
use crate::block::Block;
use crate::node::state::ChainState;

verus! {

/// The chain's genesis record.
#[derive(Debug, Clone, Copy)]
pub struct Genesis {
    pub chain_id: [u8; 32],
    pub created_at_ms: u64,
}

impl Default for Genesis {
    fn default() -> (res: Self)
        ensures
            res.chain_id@ == Seq::new(32, |i: int| 0u8),
            res.created_at_ms == 0,
    {
        let chain_id = [0u8; 32];
        assert(chain_id@ =~= Seq::new(32, |i: int| 0u8));
        Genesis { chain_id, created_at_ms: 0 }
    }
}

/// Where a node keeps its data: an append-only block log and the genesis
/// file, both inside the data directory.
pub struct BlockStore {
    data_dir: String,
    block_log_path: String,
    genesis_path: String,
}

impl BlockStore {
    pub closed spec fn spec_data_dir(&self) -> Seq<char> {
        self.data_dir@
    }

    pub closed spec fn spec_block_log_path(&self) -> Seq<char> {
        self.block_log_path@
    }

    pub closed spec fn spec_genesis_path(&self) -> Seq<char> {
        self.genesis_path@
    }

    /// The store rooted at `data_dir`: blocks in `<data_dir>/blocks.log`,
    /// genesis in `<data_dir>/genesis.json`. Creates nothing on disk.
    pub fn at(data_dir: &str) -> (res: Self)
        ensures
            res.spec_data_dir() == data_dir@,
            res.spec_block_log_path() == data_dir@ + "/blocks.log"@,
            res.spec_genesis_path() == data_dir@ + "/genesis.json"@,
    {
        let mut block_log_path = data_dir.to_string();
        block_log_path.append("/blocks.log");
        let mut genesis_path = data_dir.to_string();
        genesis_path.append("/genesis.json");
        BlockStore { data_dir: data_dir.to_string(), block_log_path, genesis_path }
    }

    pub fn data_dir(&self) -> (res: &str)
        ensures
            res@ == self.spec_data_dir(),
    {
        self.data_dir.as_str()
    }

    pub fn block_log_path(&self) -> (res: &str)
        ensures
            res@ == self.spec_block_log_path(),
    {
        self.block_log_path.as_str()
    }

    pub fn genesis_path(&self) -> (res: &str)
        ensures
            res@ == self.spec_genesis_path(),
    {
        self.genesis_path.as_str()
    }
}

impl ChainState {
    /// Replays loaded blocks in order. Their transactions are not executed
    /// yet; the height becomes that of the last block.
    pub fn replay_blocks(&mut self, blocks: &Vec<Block>)
        ensures
            blocks@.len() > 0 ==> final(self).height == blocks@.last().header.height,
            blocks@.len() == 0 ==> final(self).height == old(self).height,
            final(self).blocks == old(self).blocks,
            final(self).balances == old(self).balances,
            final(self).supply == old(self).supply,
            final(self).claimed_floors == old(self).claimed_floors,
            final(self).validators == old(self).validators,
    {
        let mut i: usize = 0;
        while i < blocks.len()
            invariant
                i <= blocks@.len(),
                i > 0 ==> self.height == blocks@[i - 1].header.height,
                i == 0 ==> self.height == old(self).height,
                self.blocks == old(self).blocks,
                self.balances == old(self).balances,
                self.supply == old(self).supply,
                self.claimed_floors == old(self).claimed_floors,
                self.validators == old(self).validators,
            decreases blocks@.len() - i,
        {
            self.height = blocks[i].header.height;
            i = i + 1;
        }
    }
}

} // verus!
