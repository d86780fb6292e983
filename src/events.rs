use std::collections::VecDeque;
use vstd::prelude::*;

verus! {

// Instants throughout are milliseconds since process start.
/// Time order: no instant precedes an earlier-placed one.
pub open spec fn sorted(s: Seq<u64>) -> bool {
    forall|i: int, j: int| 0 <= i <= j < s.len() ==> s[i] <= s[j]
}

/// Number of leading instants of `s` that lie strictly before `cutoff`.
pub open spec fn leading_before(s: Seq<u64>, cutoff: int) -> nat
    decreases s.len(),
{
    if s.len() == 0 || s[0] >= cutoff {
        0
    } else {
        1 + leading_before(s.drop_first(), cutoff)
    }
}

/// What is left of `s` once its expired front has been removed.
pub open spec fn expire(s: Seq<u64>, cutoff: int) -> Seq<u64> {
    s.subrange(leading_before(s, cutoff) as int, s.len() as int)
}

proof fn lemma_leading_before_bound(s: Seq<u64>, cutoff: int)
    ensures
        leading_before(s, cutoff) <= s.len(),
        forall|i: int| 0 <= i < leading_before(s, cutoff) ==> s[i] < cutoff,
        leading_before(s, cutoff) < s.len() ==> s[leading_before(s, cutoff) as int] >= cutoff,
    decreases s.len(),
{
    if s.len() > 0 && s[0] < cutoff {
        lemma_leading_before_bound(s.drop_first(), cutoff);
        assert forall|i: int| 0 <= i < leading_before(s, cutoff) implies s[i] < cutoff by {
            if i > 0 {
                assert(s[i] == s.drop_first()[i - 1]);
            }
        }
    }
}

/// Eviction takes instants from the front only: every instant removed lay
/// before the cutoff, and, on a time-ordered sequence, every instant kept lies
/// at or after it.
pub proof fn lemma_expire_correct(s: Seq<u64>, cutoff: int)
    requires
        sorted(s),
    ensures
        ({
            let k = leading_before(s, cutoff) as int;
            &&& 0 <= k <= s.len()
            &&& expire(s, cutoff) == s.subrange(k, s.len() as int)
            &&& forall|i: int| 0 <= i < k ==> s[i] < cutoff
            &&& forall|i: int| 0 <= i < expire(s, cutoff).len() ==> expire(s, cutoff)[i] >= cutoff
        }),
{
    lemma_leading_before_bound(s, cutoff);
    let k = leading_before(s, cutoff) as int;
    assert forall|i: int| 0 <= i < expire(s, cutoff).len() implies expire(s, cutoff)[i]
        >= cutoff by {
        assert(s[k] <= s[k + i]);
    }
}

/// Removes from the front of `q` every instant strictly before `cutoff`.
fn evict_before(q: &mut VecDeque<u64>, cutoff: u64)
    ensures
        final(q)@ == expire(old(q)@, cutoff as int),
{
    proof {
        lemma_leading_before_bound(old(q)@, cutoff as int);
    }
    while q.len() > 0 && q[0] < cutoff
        invariant
            leading_before(old(q)@, cutoff as int) <= old(q)@.len(),
            q@.len() <= old(q)@.len(),
            old(q)@.len() - q@.len() <= leading_before(old(q)@, cutoff as int),
            q@ == old(q)@.subrange(old(q)@.len() - q@.len(), old(q)@.len() as int),
            leading_before(old(q)@, cutoff as int) == (old(q)@.len() - q@.len()) + leading_before(
                q@,
                cutoff as int,
            ),
        decreases q@.len(),
    {
        let ghost before = q@;
        q.pop_front();
        assert(q@ =~= old(q)@.subrange(old(q)@.len() - q@.len(), old(q)@.len() as int));
    }
}

/// Per-node arrival instants, kept once for each averaging window so that each
/// copy can be trimmed to its own horizon.
pub struct Events {
    timestamps1: VecDeque<u64>,
    timestamps2: VecDeque<u64>,
}

/// Whether `now` is no earlier than every instant of `s`.
pub open spec fn not_before_any(s: Seq<u64>, now: u64) -> bool {
    forall|i: int| 0 <= i < s.len() ==> s[i] <= now
}

impl Events {
    /// Arrivals kept for the short window, oldest first.
    pub closed spec fn short(&self) -> Seq<u64> {
        self.timestamps1@
    }

    /// Arrivals kept for the long window, oldest first.
    pub closed spec fn long(&self) -> Seq<u64> {
        self.timestamps2@
    }

    /// Both sequences are in arrival order.
    pub open spec fn wf(&self) -> bool {
        sorted(self.short()) && sorted(self.long())
    }

    /// Whether an arrival at `now` keeps both sequences in order.
    pub open spec fn accepts(&self, now: u64) -> bool {
        not_before_any(self.short(), now) && not_before_any(self.long(), now)
    }

    pub fn new() -> (e: Self)
        ensures
            e.wf(),
            e.short() == Seq::<u64>::empty(),
            e.long() == Seq::<u64>::empty(),
    {
        Events { timestamps1: VecDeque::new(), timestamps2: VecDeque::new() }
    }

    /// Records one arrival at `now` in both windows. An instant earlier than
    /// one already recorded (a clock that went backwards) is refused and
    /// nothing changes; the result tells which happened.
    pub fn record_arrival(&mut self, now: u64) -> (recorded: bool)
        requires
            old(self).wf(),
        ensures
            final(self).wf(),
            recorded == old(self).accepts(now),
            recorded ==> final(self).short() == old(self).short().push(now),
            recorded ==> final(self).long() == old(self).long().push(now),
            !recorded ==> *final(self) == *old(self),
    {
        let n1 = self.timestamps1.len();
        let n2 = self.timestamps2.len();
        if (n1 > 0 && self.timestamps1[n1 - 1] > now) || (n2 > 0 && self.timestamps2[n2 - 1]
            > now) {
            return false;
        }
        self.timestamps1.push_back(now);
        self.timestamps2.push_back(now);
        true
    }

    /// Drops, from each window, the arrivals older than its horizon as seen
    /// at `now`: those strictly before `now - horizon`.
    pub fn evict_expired(&mut self, now: u64, short_horizon_ms: u64, long_horizon_ms: u64)
        requires
            old(self).wf(),
        ensures
            final(self).wf(),
            final(self).short() == expire(old(self).short(), now - short_horizon_ms),
            final(self).long() == expire(old(self).long(), now - long_horizon_ms),
    {
        proof {
            lemma_expire_correct(self.short(), now - short_horizon_ms);
            lemma_expire_correct(self.long(), now - long_horizon_ms);
        }
        if now >= short_horizon_ms {
            evict_before(&mut self.timestamps1, now - short_horizon_ms);
        } else {
            proof {
                lemma_nothing_before_negative(self.short(), now - short_horizon_ms);
            }
        }
        if now >= long_horizon_ms {
            evict_before(&mut self.timestamps2, now - long_horizon_ms);
        } else {
            proof {
                lemma_nothing_before_negative(self.long(), now - long_horizon_ms);
            }
        }
    }

    /// Arrivals kept for the short window, oldest first.
    pub fn short_arrivals(&self) -> (r: Vec<u64>)
        ensures
            r@ == self.short(),
    {
        copy_out(&self.timestamps1)
    }

    /// Arrivals kept for the long window, oldest first.
    pub fn long_arrivals(&self) -> (r: Vec<u64>)
        ensures
            r@ == self.long(),
    {
        copy_out(&self.timestamps2)
    }

    /// Number of arrivals kept for the short window.
    pub fn short_count(&self) -> (n: usize)
        ensures
            n == self.short().len(),
    {
        self.timestamps1.len()
    }

    /// Number of arrivals kept for the long window.
    pub fn long_count(&self) -> (n: usize)
        ensures
            n == self.long().len(),
    {
        self.timestamps2.len()
    }
}

fn copy_out(q: &VecDeque<u64>) -> (r: Vec<u64>)
    ensures
        r@ == q@,
{
    let mut r: Vec<u64> = Vec::new();
    let mut i: usize = 0;
    while i < q.len()
        invariant
            i <= q@.len(),
            r@ == q@.subrange(0, i as int),
        decreases q@.len() - i,
    {
        r.push(q[i]);
        i = i + 1;
        assert(r@ =~= q@.subrange(0, i as int));
    }
    assert(q@.subrange(0, i as int) =~= q@);
    r
}

proof fn lemma_nothing_before_negative(s: Seq<u64>, cutoff: int)
    requires
        cutoff < 0,
    ensures
        expire(s, cutoff) == s,
{
    assert(leading_before(s, cutoff) == 0);
    assert(s.subrange(0, s.len() as int) =~= s);
}

} // verus!
