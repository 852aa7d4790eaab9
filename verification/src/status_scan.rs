//! Cuts a stream of rows into batches of a fixed size, for a scan that
//! sends each batch on as soon as it is full.

use vstd::prelude::*;

verus! {

/// Collects rows until a batch is full.
pub struct RowBatcher<R> {
    rows: Vec<R>,
    batch_size: usize,
}

impl<R> RowBatcher<R> {
    /// The rows that wait for their batch to fill, in the order in which
    /// they came.
    pub closed spec fn pending(&self) -> Seq<R> {
        self.rows@
    }

    /// How many rows make a batch.
    pub closed spec fn batch_size(&self) -> nat {
        self.batch_size as nat
    }

    /// Fewer rows wait than make a batch, and a batch holds a row at least.
    pub open spec fn wf(&self) -> bool {
        self.batch_size() > 0 && self.pending().len() < self.batch_size()
    }

    /// A batcher in which nothing waits.
    pub fn new(batch_size: usize) -> (batcher: Self)
        requires
            batch_size > 0,
        ensures
            batcher.wf(),
            batcher.batch_size() == batch_size,
            batcher.pending() == Seq::<R>::empty(),
    {
        RowBatcher { rows: Vec::new(), batch_size }
    }

    /// Whether no row waits.
    pub fn empty(&self) -> (empty: bool)
        ensures
            empty == (self.pending().len() == 0),
    {
        self.rows.len() == 0
    }

    /// Takes a row in. Where the row fills the batch, the batch is handed
    /// out, the rows in the order in which they came, and nothing waits.
    pub fn append(&mut self, row: R) -> (batch: Option<Vec<R>>)
        requires
            old(self).wf(),
        ensures
            final(self).wf(),
            final(self).batch_size() == old(self).batch_size(),
            old(self).pending().len() + 1 < old(self).batch_size() ==> {
                &&& batch is None
                &&& final(self).pending() == old(self).pending().push(row)
            },
            old(self).pending().len() + 1 == old(self).batch_size() ==> {
                &&& batch matches Some(rows)
                &&& rows@ == old(self).pending().push(row)
                &&& final(self).pending() == Seq::<R>::empty()
            },
    {
        self.rows.push(row);
        if self.rows.len() >= self.batch_size {
            let mut full: Vec<R> = Vec::new();
            std::mem::swap(&mut self.rows, &mut full);
            Some(full)
        } else {
            None
        }
    }

    /// Ends the scan: hands out the rows that still wait, if any does.
    pub fn finish(self) -> (batch: Option<Vec<R>>)
        ensures
            self.pending().len() == 0 ==> batch is None,
            self.pending().len() > 0 ==> (batch matches Some(rows) && rows@ == self.pending()),
    {
        if self.rows.len() == 0 {
            None
        } else {
            Some(self.rows)
        }
    }
}

} // verus!
