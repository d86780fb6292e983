use std::collections::VecDeque;
use vstd::prelude::*;

use crate::config::METRICS_HISTORY;
use crate::rate::Rate;

verus! {

/// The last `n` elements of `s` (all of `s` when it is shorter).
pub open spec fn keep_last<T>(s: Seq<T>, n: nat) -> Seq<T> {
    if s.len() <= n {
        s
    } else {
        s.subrange(s.len() - n, s.len() as int)
    }
}

/// A history of capacity `cap` after `x` is appended: the oldest sample
/// leaves first once the history is full.
pub open spec fn bounded_push<T>(h: Seq<T>, cap: nat, x: T) -> Seq<T> {
    keep_last(h.push(x), cap)
}

/// A history of capacity `cap` after each of `xs` has been appended in turn.
pub open spec fn bounded_push_all<T>(h: Seq<T>, cap: nat, xs: Seq<T>) -> Seq<T>
    decreases xs.len(),
{
    if xs.len() == 0 {
        h
    } else {
        bounded_push(bounded_push_all(h, cap, xs.drop_last()), cap, xs.last())
    }
}

/// Appending samples one at a time to a history of capacity `cap` leaves
/// exactly the most recent `cap` of them, in insertion order; once more than
/// `cap` samples went in, the history holds exactly `cap`.
pub proof fn lemma_history_bound<T>(h: Seq<T>, cap: nat, xs: Seq<T>)
    requires
        h.len() <= cap,
    ensures
        bounded_push_all(h, cap, xs) == keep_last(h + xs, cap),
        bounded_push_all(h, cap, xs).len() <= cap,
        h.len() + xs.len() >= cap ==> bounded_push_all(h, cap, xs).len() == cap,
        xs.len() >= cap ==> bounded_push_all(h, cap, xs) == xs.subrange(
            xs.len() - cap,
            xs.len() as int,
        ),
    decreases xs.len(),
{
    if xs.len() == 0 {
        assert(h + xs =~= h);
    } else {
        let init = xs.drop_last();
        lemma_history_bound(h, cap, init);
        let a = h + init;
        assert(h + xs =~= a.push(xs.last()));
        assert(keep_last(keep_last(a, cap).push(xs.last()), cap) =~= keep_last(
            a.push(xs.last()),
            cap,
        ));
    }
    if xs.len() >= cap {
        assert(keep_last(h + xs, cap) =~= xs.subrange(xs.len() - cap, xs.len() as int));
    }
}

/// Per-node history of computed rates, one bounded sequence per window.
pub struct Metrics {
    tps_avg1: VecDeque<Rate>,
    tps_avg2: VecDeque<Rate>,
    capacity: usize,
}

impl Metrics {
    /// Short-window samples, oldest first.
    pub closed spec fn short(&self) -> Seq<Rate> {
        self.tps_avg1@
    }

    /// Long-window samples, oldest first.
    pub closed spec fn long(&self) -> Seq<Rate> {
        self.tps_avg2@
    }

    /// How many samples each window keeps.
    pub closed spec fn cap(&self) -> nat {
        self.capacity as nat
    }

    pub open spec fn wf(&self) -> bool {
        &&& self.cap() >= 1
        &&& self.short().len() <= self.cap()
        &&& self.long().len() <= self.cap()
        &&& forall|i: int| 0 <= i < self.short().len() ==> (#[trigger] self.short()[i]).wf()
        &&& forall|i: int| 0 <= i < self.long().len() ==> (#[trigger] self.long()[i]).wf()
    }

    /// An empty history keeping the standard number of samples per window.
    pub fn new() -> (m: Self)
        ensures
            m.wf(),
            m.cap() == METRICS_HISTORY,
            m.short() == Seq::<Rate>::empty(),
            m.long() == Seq::<Rate>::empty(),
    {
        Metrics::with_capacity(METRICS_HISTORY)
    }

    /// An empty history keeping `capacity` samples per window.
    pub fn with_capacity(capacity: usize) -> (m: Self)
        requires
            capacity >= 1,
        ensures
            m.wf(),
            m.cap() == capacity,
            m.short() == Seq::<Rate>::empty(),
            m.long() == Seq::<Rate>::empty(),
    {
        Metrics { tps_avg1: VecDeque::new(), tps_avg2: VecDeque::new(), capacity }
    }

    /// Appends one sample to each window, evicting the oldest of a full one.
    pub fn push_rates(&mut self, short: Rate, long: Rate)
        requires
            old(self).wf(),
            short.wf(),
            long.wf(),
        ensures
            final(self).wf(),
            final(self).cap() == old(self).cap(),
            final(self).short() == bounded_push(old(self).short(), old(self).cap(), short),
            final(self).long() == bounded_push(old(self).long(), old(self).cap(), long),
    {
        push_bounded(&mut self.tps_avg1, self.capacity, short);
        push_bounded(&mut self.tps_avg2, self.capacity, long);
    }

    /// The short-window samples, oldest first.
    pub fn short_history(&self) -> (r: Vec<Rate>)
        ensures
            r@ == self.short(),
    {
        copy_out(&self.tps_avg1)
    }

    /// The long-window samples, oldest first.
    pub fn long_history(&self) -> (r: Vec<Rate>)
        ensures
            r@ == self.long(),
    {
        copy_out(&self.tps_avg2)
    }

    /// The latest short-window sample, if any.
    pub fn latest_short(&self) -> (r: Option<Rate>)
        ensures
            r == (if self.short().len() == 0 { None } else { Some(self.short().last()) }),
    {
        let n = self.tps_avg1.len();
        if n == 0 {
            None
        } else {
            Some(self.tps_avg1[n - 1])
        }
    }

    /// The latest long-window sample, if any.
    pub fn latest_long(&self) -> (r: Option<Rate>)
        ensures
            r == (if self.long().len() == 0 { None } else { Some(self.long().last()) }),
    {
        let n = self.tps_avg2.len();
        if n == 0 {
            None
        } else {
            Some(self.tps_avg2[n - 1])
        }
    }
}

fn copy_out(q: &VecDeque<Rate>) -> (r: Vec<Rate>)
    ensures
        r@ == q@,
{
    let mut r: Vec<Rate> = Vec::new();
    let mut i: usize = 0;
    while i < q.len()
        invariant
            i <= q@.len(),
            r@ == q@.subrange(0, i as int),
        decreases q@.len() - i,
    {
        r.push(q[i]);
        i = i + 1;
        assert(r@ =~= q@.subrange(0, i as int));
    }
    assert(q@.subrange(0, i as int) =~= q@);
    r
}

fn push_bounded(q: &mut VecDeque<Rate>, cap: usize, x: Rate)
    requires
        cap >= 1,
        old(q)@.len() <= cap,
    ensures
        final(q)@ == bounded_push(old(q)@, cap as nat, x),
{
    if q.len() == cap {
        q.pop_front();
    }
    q.push_back(x);
    assert(q@ =~= bounded_push(old(q)@, cap as nat, x));
}

} // verus!
