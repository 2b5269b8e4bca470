//! The bounded history of execution records: oldest first, the oldest
//! evicted once the capacity is exceeded.

use vstd::prelude::*;
use crate::execution::{JsExecutionResult, ResultModel};

verus! {

/// The capacity of a history made without one.
pub const DEFAULT_CAPACITY: usize = 100;

/// The records that a history holding `h` holds after one more, `r`.
pub open spec fn after_record(h: Seq<ResultModel>, capacity: nat, r: ResultModel) -> Seq<ResultModel> {
    let s = h.push(r);
    if s.len() > capacity {
        s.skip(1)
    } else {
        s
    }
}

/// The records that a history holding `h` holds after each of `rs` in turn.
pub open spec fn after_all(h: Seq<ResultModel>, capacity: nat, rs: Seq<ResultModel>) -> Seq<ResultModel>
    decreases rs.len(),
{
    if rs.len() == 0 {
        h
    } else {
        after_record(after_all(h, capacity, rs.drop_last()), capacity, rs.last())
    }
}

/// The last `n` records of `rs`, or all of them where there are fewer.
pub open spec fn last_n(rs: Seq<ResultModel>, n: nat) -> Seq<ResultModel> {
    if rs.len() > n {
        rs.skip(rs.len() - n)
    } else {
        rs
    }
}

/// A bounded sequence of execution records.
#[derive(Debug)]
pub struct History {
    records: Vec<JsExecutionResult>,
    capacity: usize,
}

impl History {
    pub closed spec fn view(&self) -> Seq<ResultModel> {
        self.records@.map_values(|r: JsExecutionResult| r.model())
    }

    pub closed spec fn capacity_view(&self) -> nat {
        self.capacity as nat
    }

    /// The history never holds more records than its capacity.
    #[verifier::type_invariant]
    spec fn within_capacity(&self) -> bool {
        self.records@.len() <= self.capacity
    }

    /// The history never holds more records than its capacity.
    pub open spec fn wf(&self) -> bool {
        self.view().len() <= self.capacity_view()
    }

    /// An empty history of the given capacity.
    pub fn new(capacity: usize) -> (r: Self)
        ensures
            r.wf(),
            r.view() == Seq::<ResultModel>::empty(),
            r.capacity_view() == capacity,
    {
        let r = History { records: Vec::new(), capacity };
        assert(r.view() =~= Seq::<ResultModel>::empty());
        r
    }

    pub fn capacity(&self) -> (r: usize)
        ensures
            r == self.capacity_view(),
    {
        self.capacity
    }

    /// Appends a record, evicting the oldest where the capacity is exceeded.
    pub fn record(&mut self, result: JsExecutionResult)
        ensures
            final(self).wf(),
            final(self).capacity_view() == old(self).capacity_view(),
            final(self).view() == after_record(old(self).view(), old(self).capacity_view(), result.model()),
    {
        proof {
            use_type_invariant(&*self);
        }
        let ghost m = result.model();
        let mut records = self.list();
        records.push(result);
        assert(records@.map_values(|x: JsExecutionResult| x.model()) =~= old(self).view().push(m));
        if records.len() > self.capacity {
            records.remove(0);
            assert(records@.map_values(|x: JsExecutionResult| x.model()) =~= old(self).view().push(m).skip(1));
        }
        *self = History { records, capacity: self.capacity };
    }

    /// A copy of the records, oldest first.
    pub fn list(&self) -> (r: Vec<JsExecutionResult>)
        ensures
            r@.map_values(|x: JsExecutionResult| x.model()) == self.view(),
    {
        let mut out: Vec<JsExecutionResult> = Vec::new();
        let mut i: usize = 0;
        while i < self.records.len()
            invariant
                i <= self.records@.len(),
                out@.len() == i,
                forall|k: int| 0 <= k < i ==> (#[trigger] out@[k]).model() == self.records@[k].model(),
            decreases self.records@.len() - i,
        {
            out.push(self.records[i].duplicate());
            i = i + 1;
        }
        assert(out@.map_values(|x: JsExecutionResult| x.model()) =~= self.view());
        out
    }

    /// Removes every record.
    pub fn clear(&mut self)
        ensures
            final(self).wf(),
            final(self).view() == Seq::<ResultModel>::empty(),
            final(self).capacity_view() == old(self).capacity_view(),
    {
        *self = History { records: Vec::new(), capacity: self.capacity };
        assert(self.view() =~= Seq::<ResultModel>::empty());
    }
}

impl Default for History {
    fn default() -> (r: Self)
        ensures
            r.wf(),
            r.view() == Seq::<ResultModel>::empty(),
            r.capacity_view() == DEFAULT_CAPACITY,
    {
        History::new(DEFAULT_CAPACITY)
    }
}

/// A history never holds more than its capacity, and after any run of
/// records from empty it holds exactly the most recent ones, as many as
/// fit, oldest first.
pub proof fn lemma_history_keeps_most_recent(capacity: nat, rs: Seq<ResultModel>)
    ensures
        after_all(Seq::empty(), capacity, rs).len() <= capacity,
        after_all(Seq::empty(), capacity, rs) == last_n(rs, capacity),
    decreases rs.len(),
{
    if rs.len() > 0 {
        lemma_history_keeps_most_recent(capacity, rs.drop_last());
        let prev = last_n(rs.drop_last(), capacity);
        let s = prev.push(rs.last());
        if rs.len() > capacity {
            assert(s.skip(1) =~= rs.skip(rs.len() - capacity));
        } else {
            assert(s =~= rs);
        }
    }
}

/// After capacity + 1 records into an empty history, the oldest is gone and
/// the newest is the last one held.
pub proof fn lemma_oldest_evicted(capacity: nat, rs: Seq<ResultModel>)
    requires
        rs.len() == capacity + 1,
    ensures
        after_all(Seq::empty(), capacity, rs) == rs.skip(1),
        capacity > 0 ==> after_all(Seq::empty(), capacity, rs).last() == rs.last(),
{
    lemma_history_keeps_most_recent(capacity, rs);
}

} // verus!
