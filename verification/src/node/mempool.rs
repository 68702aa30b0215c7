use vstd::prelude::*;
use crate::tx::Transaction;

verus! {

/// Transactions waiting for a block, in arrival order.
pub struct Mempool {
    transactions: Vec<Transaction>,
}

impl View for Mempool {
    type V = Seq<Transaction>;

    closed spec fn view(&self) -> Seq<Transaction> {
        self.transactions@
    }
}

impl Mempool {
    pub fn new() -> (res: Self)
        ensures
            res@ == Seq::<Transaction>::empty(),
    {
        Mempool { transactions: Vec::new() }
    }

    pub fn add_transaction(&mut self, tx: Transaction)
        ensures
            final(self)@ == old(self)@.push(tx),
    {
        self.transactions.push(tx);
    }

    /// The number of waiting transactions.
    pub fn len(&self) -> (res: usize)
        ensures
            res == self@.len(),
    {
        self.transactions.len()
    }
}

} // verus!
