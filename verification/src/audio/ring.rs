//! The bounded ring as a mathematical object: what pushing and popping do
//! to its contents, and what follows for any run of pushes and pops.

use vstd::prelude::*;

verus! {

/// A bounded first-in, first-out ring: its capacity and what it holds,
/// oldest first.
pub struct RingState<T> {
    pub capacity: nat,
    pub items: Seq<T>,
}

impl<T> RingState<T> {
    /// An empty ring.
    pub open spec fn empty(capacity: nat) -> RingState<T> {
        RingState { capacity, items: Seq::empty() }
    }

    /// Whether the ring holds no more than its capacity.
    pub open spec fn wf(self) -> bool {
        self.items.len() <= self.capacity
    }

    /// Free places.
    pub open spec fn vacant(self) -> nat {
        (self.capacity - self.items.len()) as nat
    }

    /// Whether no place is free.
    pub open spec fn is_full(self) -> bool {
        self.items.len() >= self.capacity
    }

    /// How many of the offered items a push takes: as many as fit.
    pub open spec fn accepts(self, offered: Seq<T>) -> nat {
        if offered.len() <= self.vacant() {
            offered.len()
        } else {
            self.vacant()
        }
    }

    /// The ring after a push: the items that fit are appended in order;
    /// the rest of the offer is dropped.
    pub open spec fn push(self, offered: Seq<T>) -> RingState<T> {
        RingState { items: self.items + offered.take(self.accepts(offered) as int), ..self }
    }

    /// How many items a pop of up to `count` hands out.
    pub open spec fn yields(self, count: nat) -> nat {
        if count <= self.items.len() {
            count
        } else {
            self.items.len()
        }
    }

    /// The items a pop of up to `count` hands out: the oldest ones.
    pub open spec fn popped(self, count: nat) -> Seq<T> {
        self.items.take(self.yields(count) as int)
    }

    /// The ring after a pop of up to `count`.
    pub open spec fn pop(self, count: nat) -> RingState<T> {
        RingState { items: self.items.skip(self.yields(count) as int), ..self }
    }
}

/// One operation on a ring.
pub enum RingOp<T> {
    /// The producer offers these items.
    Push(Seq<T>),
    /// The consumer asks for up to this many items.
    Pop(nat),
}

/// A ring together with the record of what went through it.
pub struct RingTrace<T> {
    /// The ring now.
    pub ring: RingState<T>,
    /// Everything the producer offered, in order.
    pub offered: Seq<T>,
    /// Everything the ring took, in order.
    pub accepted: Seq<T>,
    /// Everything the consumer got, in order.
    pub delivered: Seq<T>,
}

impl<T> RingTrace<T> {
    /// An empty ring that nothing has gone through.
    pub open spec fn start(capacity: nat) -> RingTrace<T> {
        RingTrace {
            ring: RingState::empty(capacity),
            offered: Seq::empty(),
            accepted: Seq::empty(),
            delivered: Seq::empty(),
        }
    }

    /// The trace after one operation.
    pub open spec fn step(self, op: RingOp<T>) -> RingTrace<T> {
        match op {
            RingOp::Push(items) => RingTrace {
                ring: self.ring.push(items),
                offered: self.offered + items,
                accepted: self.accepted + items.take(self.ring.accepts(items) as int),
                delivered: self.delivered,
            },
            RingOp::Pop(count) => RingTrace {
                ring: self.ring.pop(count),
                offered: self.offered,
                accepted: self.accepted,
                delivered: self.delivered + self.ring.popped(count),
            },
        }
    }

    /// The trace after a run of operations.
    pub open spec fn run(self, ops: Seq<RingOp<T>>) -> RingTrace<T>
        decreases ops.len(),
    {
        if ops.len() == 0 {
            self
        } else {
            self.run(ops.drop_last()).step(ops.last())
        }
    }

    /// What holds of every trace: the ring is within its capacity, what
    /// was delivered and what the ring still holds are together what it
    /// took, and what it took is what was offered with some items left
    /// out.
    pub open spec fn inv(self) -> bool {
        &&& self.ring.wf()
        &&& self.delivered + self.ring.items == self.accepted
        &&& is_subsequence(self.accepted, self.offered)
    }
}

/// Whether `sub` is `whole` with some items left out: the items that stay
/// keep their order.
pub open spec fn is_subsequence<T>(sub: Seq<T>, whole: Seq<T>) -> bool
    decreases whole.len(),
{
    if sub.len() == 0 {
        true
    } else if whole.len() == 0 {
        false
    } else if sub.last() == whole.last() && is_subsequence(sub.drop_last(), whole.drop_last()) {
        true
    } else {
        is_subsequence(sub, whole.drop_last())
    }
}

/// Whether `head` is what `whole` begins with.
pub open spec fn is_prefix<T>(head: Seq<T>, whole: Seq<T>) -> bool {
    head.len() <= whole.len() && whole.take(head.len() as int) == head
}

/// Appending to the whole keeps a subsequence one.
pub proof fn lemma_subsequence_grow<T>(sub: Seq<T>, whole: Seq<T>, more: Seq<T>)
    requires
        is_subsequence(sub, whole),
    ensures
        is_subsequence(sub, whole + more),
    decreases more.len(),
{
    if more.len() == 0 {
        assert(whole + more =~= whole);
    } else {
        lemma_subsequence_grow(sub, whole, more.drop_last());
        assert((whole + more).drop_last() =~= whole + more.drop_last());
    }
}

/// Appending the same item to both keeps a subsequence one.
pub proof fn lemma_subsequence_push<T>(sub: Seq<T>, whole: Seq<T>, item: T)
    requires
        is_subsequence(sub, whole),
    ensures
        is_subsequence(sub.push(item), whole.push(item)),
{
    assert(sub.push(item).drop_last() =~= sub);
    assert(whole.push(item).drop_last() =~= whole);
}

/// A subsequence with the first `k` of `more` appended is a subsequence of
/// the whole with all of `more` appended.
pub proof fn lemma_subsequence_take<T>(sub: Seq<T>, whole: Seq<T>, more: Seq<T>, k: int)
    requires
        is_subsequence(sub, whole),
        0 <= k <= more.len(),
    ensures
        is_subsequence(sub + more.take(k), whole + more),
    decreases k,
{
    if k == 0 {
        assert(sub + more.take(0) =~= sub);
        lemma_subsequence_grow(sub, whole, more);
    } else {
        lemma_subsequence_take(sub, whole, more.take(k - 1), k - 1);
        assert(more.take(k - 1).take(k - 1) =~= more.take(k - 1));
        lemma_subsequence_push(
            sub + more.take(k - 1),
            whole + more.take(k - 1),
            more[k - 1],
        );
        assert((sub + more.take(k - 1)).push(more[k - 1]) =~= sub + more.take(k));
        assert((whole + more.take(k - 1)).push(more[k - 1]) =~= whole + more.take(k));
        lemma_subsequence_grow(sub + more.take(k), whole + more.take(k), more.skip(k));
        assert(whole + more.take(k) + more.skip(k) =~= whole + more);
    }
}

/// Every operation keeps the invariant.
pub proof fn lemma_step_keeps_inv<T>(trace: RingTrace<T>, op: RingOp<T>)
    requires
        trace.inv(),
    ensures
        trace.step(op).inv(),
{
    let next = trace.step(op);
    match op {
        RingOp::Push(items) => {
            let k = trace.ring.accepts(items) as int;
            assert(next.delivered + next.ring.items =~= next.accepted);
            lemma_subsequence_take(trace.accepted, trace.offered, items, k);
        },
        RingOp::Pop(count) => {
            assert(next.delivered + next.ring.items =~= next.accepted);
        },
    }
}

/// For any run of pushes and pops on a ring of any capacity, what the
/// consumer has observed is the beginning of what the ring took, and what
/// the ring took is what the producer offered with some items left out,
/// the order kept. The ring never holds more than its capacity.
pub proof fn lemma_ring_run<T>(capacity: nat, ops: Seq<RingOp<T>>)
    ensures
        ({
            let end = RingTrace::<T>::start(capacity).run(ops);
            &&& end.inv()
            &&& end.ring.capacity == capacity
            &&& is_prefix(end.delivered, end.accepted)
            &&& is_subsequence(end.accepted, end.offered)
        }),
    decreases ops.len(),
{
    let start = RingTrace::<T>::start(capacity);
    if ops.len() == 0 {
        assert(start.delivered + start.ring.items =~= start.accepted);
    } else {
        lemma_ring_run::<T>(capacity, ops.drop_last());
        lemma_step_keeps_inv(start.run(ops.drop_last()), ops.last());
    }
    let end = start.run(ops);
    assert(end.accepted.take(end.delivered.len() as int) =~= end.delivered);
}

/// What a push drops is one contiguous run, the end of the offer, and
/// something is dropped only where the ring is full once the push is done.
pub proof fn lemma_drops_only_when_full<T>(ring: RingState<T>, offered: Seq<T>)
    requires
        ring.wf(),
    ensures
        ring.push(offered).wf(),
        offered == offered.take(ring.accepts(offered) as int) + offered.skip(
            ring.accepts(offered) as int,
        ),
        ring.accepts(offered) < offered.len() ==> ring.push(offered).items.len() == ring.capacity,
        ring.accepts(offered) < offered.len() && offered.len() == 1 ==> ring.items.len()
            == ring.capacity,
{
    let k = ring.accepts(offered) as int;
    assert(offered =~= offered.take(k) + offered.skip(k));
}

/// Backpressure: a full ring takes nothing and stays as it is, whatever is
/// offered; once the consumer has taken an item out, the next offer that is
/// not empty gets an item in.
pub proof fn lemma_backpressure<T>(ring: RingState<T>, offered: Seq<T>, count: nat)
    requires
        ring.wf(),
        ring.is_full(),
    ensures
        ring.accepts(offered) == 0,
        ring.push(offered) == ring,
        ring.capacity > 0 && count > 0 && offered.len() > 0 ==> ring.pop(count).accepts(offered)
            > 0,
{
    assert(ring.items + offered.take(0) =~= ring.items);
}

} // verus!
