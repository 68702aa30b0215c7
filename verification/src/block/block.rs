use vstd::prelude::*;
use crate::block::header::BlockHeader;
use crate::tx::Transaction;

verus! {

/// A block: its header and its transactions in order.
#[derive(Debug, Clone)]
pub struct Block {
    pub header: BlockHeader,
    pub transactions: Vec<Transaction>,
}

} // verus!
