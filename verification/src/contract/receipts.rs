use crate::domain::batch_id::BatchId;
use std::collections::HashMap;
use vstd::prelude::*;

verus! {

broadcast use vstd::std_specs::hash::group_hash_axioms;

/// A change to a table of receipts that has yet to be made: the receipt to
/// store under a batch number, or `None` to delete what is stored there.
pub type Write<R> = (u128, Option<R>);

/// The table after one change.
pub open spec fn apply_write<R>(receipts: Map<u128, R>, write: Write<R>) -> Map<u128, R> {
    match write.1 {
        Some(receipt) => receipts.insert(write.0, receipt),
        None => receipts.remove(write.0),
    }
}

/// The table after a list of changes, made from the first to the last.
pub open spec fn apply_writes<R>(receipts: Map<u128, R>, writes: Seq<Write<R>>) -> Map<u128, R>
    decreases writes.len(),
{
    if writes.len() == 0 {
        receipts
    } else {
        apply_write(apply_writes(receipts, writes.drop_last()), writes.last())
    }
}

/// What a table holds under a batch number.
pub open spec fn lookup<R>(receipts: Map<u128, R>, batch_id: BatchId) -> Option<R> {
    if receipts.contains_key(batch_id.0) {
        Some(receipts[batch_id.0])
    } else {
        None
    }
}

/// The receipts of the batches that were run, each under the number of its
/// batch, for as long as something is left to claim on it.
pub struct ReceiptTable<R> {
    receipts: HashMap<u128, R>,
}

impl<R: Copy> ReceiptTable<R> {
    /// The receipts, by the number of their batch.
    pub closed spec fn view(&self) -> Map<u128, R> {
        self.receipts@
    }

    /// A table without receipts.
    pub fn new() -> (table: Self)
        ensures
            table@ == Map::<u128, R>::empty(),
    {
        ReceiptTable { receipts: HashMap::new() }
    }

    /// The receipt of the batch, if the table holds one.
    pub fn get(&self, batch_id: BatchId) -> (receipt: Option<R>)
        ensures
            receipt == lookup(self@, batch_id),
    {
        match self.receipts.get(&batch_id.0) {
            Some(receipt) => Some(*receipt),
            None => None,
        }
    }

    /// Stores the receipt of the batch, in place of any that was there.
    pub fn insert(&mut self, batch_id: BatchId, receipt: R)
        ensures
            final(self)@ == old(self)@.insert(batch_id.0, receipt),
    {
        self.receipts.insert(batch_id.0, receipt);
    }

    /// Deletes the receipt of the batch and returns it, if there was one.
    pub fn remove(&mut self, batch_id: BatchId) -> (receipt: Option<R>)
        ensures
            final(self)@ == old(self)@.remove(batch_id.0),
            receipt == lookup(old(self)@, batch_id),
    {
        self.receipts.remove(&batch_id.0)
    }

    /// The receipt that the table will hold for the batch once `writes` are made.
    pub fn get_after(&self, writes: &Vec<Write<R>>, batch_id: BatchId) -> (receipt: Option<R>)
        ensures
            receipt == lookup(apply_writes(self@, writes@), batch_id),
    {
        let mut i = writes.len();
        proof {
            assert(writes@.take(writes.len() as int) == writes@);
        }
        while i > 0
            invariant
                i <= writes.len(),
                lookup(apply_writes(self@, writes@), batch_id) == lookup(
                    apply_writes(self@, writes@.take(i as int)),
                    batch_id,
                ),
            decreases i,
        {
            let write = writes[i - 1];
            proof {
                let prefix = writes@.take(i as int);
                assert(prefix.drop_last() == writes@.take(i - 1));
                assert(prefix.last() == writes@[i - 1]);
            }
            if write.0 == batch_id.0 {
                return write.1;
            }
            i = i - 1;
        }
        proof {
            assert(writes@.take(0).len() == 0);
        }
        self.get(batch_id)
    }

    /// Makes the changes, from the first to the last.
    pub fn commit(&mut self, writes: &Vec<Write<R>>)
        ensures
            final(self)@ == apply_writes(old(self)@, writes@),
    {
        let mut i: usize = 0;
        while i < writes.len()
            invariant
                i <= writes.len(),
                self@ == apply_writes(old(self)@, writes@.take(i as int)),
            decreases writes.len() - i,
        {
            let write = writes[i];
            proof {
                let prefix = writes@.take(i + 1);
                assert(prefix.drop_last() == writes@.take(i as int));
                assert(prefix.last() == writes@[i as int]);
            }
            match write.1 {
                Some(receipt) => {
                    self.receipts.insert(write.0, receipt);
                },
                None => {
                    self.receipts.remove(&write.0);
                },
            }
            i = i + 1;
        }
        proof {
            assert(writes@.take(writes.len() as int) == writes@);
        }
    }
}

/// One more change at the end of a list is made after all the others.
pub proof fn lemma_apply_writes_push<R>(receipts: Map<u128, R>, writes: Seq<Write<R>>, write: Write<R>)
    ensures
        apply_writes(receipts, writes.push(write)) == apply_write(
            apply_writes(receipts, writes),
            write,
        ),
{
    assert(writes.push(write).drop_last() == writes);
}

} // verus!
