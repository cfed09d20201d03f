//! The unit of work that is handed to a worker.

use vstd::prelude::*;

verus! {

/// A batch of wire-format transactions, sent to one peer as a whole.
pub struct TransactionBatch {
    wired_transactions: Vec<Vec<u8>>,
}

impl TransactionBatch {
    /// The transactions of the batch, in the order in which they were given.
    pub closed spec fn view(&self) -> Seq<Vec<u8>> {
        self.wired_transactions@
    }

    /// Makes a batch of the given transactions.
    pub fn new(wired_transactions: Vec<Vec<u8>>) -> (batch: Self)
        ensures
            batch@ == wired_transactions@,
    {
        TransactionBatch { wired_transactions }
    }

    /// Takes the batch apart into its transactions.
    pub fn into_wired_transactions(self) -> (wired_transactions: Vec<Vec<u8>>)
        ensures
            wired_transactions@ == self@,
    {
        self.wired_transactions
    }
}

} // verus!
