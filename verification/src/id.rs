//! Widget identifiers and the counter that issues them.

use vstd::prelude::*;

verus! {

/// Numeric type for widget identifiers.
pub type CounterType = u8;

/// The first identifier that a new counter issues.
pub const COUNTER_SEED: CounterType = 22;

/// The largest value a counter can hold. It is never issued: a counter that
/// has reached it is exhausted.
pub const COUNTER_LIMIT: CounterType = 255;

/// A monotonically increasing allocator of identifiers.
#[derive(Clone, Copy, Debug, PartialEq, Eq, Structural)]
pub struct Counter {
    next: CounterType,
}

impl Counter {
    /// The identifier that the counter issues next.
    pub closed spec fn view(&self) -> CounterType {
        self.next
    }

    /// Whether the counter has no identifier left to issue.
    pub open spec fn spec_is_exhausted(&self) -> bool {
        self@ == COUNTER_LIMIT
    }

    /// Create a new counter. It starts at [`COUNTER_SEED`].
    pub fn new() -> (c: Counter)
        ensures
            c@ == COUNTER_SEED,
    {
        Counter { next: COUNTER_SEED }
    }

    /// Whether the counter has no identifier left to issue.
    #[verifier::when_used_as_spec(spec_is_exhausted)]
    pub fn is_exhausted(&self) -> (b: bool)
        ensures
            b == self.spec_is_exhausted(),
    {
        self.next == COUNTER_LIMIT
    }

    /// Return the next value: the counter's current value, after which the
    /// counter stands one higher.
    pub fn next_nonzero(&mut self) -> (id: CounterType)
        requires
            !old(self).spec_is_exhausted(),
        ensures
            id == old(self)@,
            final(self)@ == old(self)@ + 1,
    {
        let count: CounterType = self.next;
        self.next = self.next + 1;
        count
    }

    /// Return the next value, or `None` and leave the counter as it is when
    /// the counter is exhausted.
    pub fn try_next(&mut self) -> (id: Option<CounterType>)
        ensures
            old(self).spec_is_exhausted() ==> id.is_none() && *final(self) == *old(self),
            !old(self).spec_is_exhausted() ==> id == Some(old(self)@) && final(self)@ == old(
                self,
            )@ + 1,
    {
        if self.is_exhausted() {
            None
        } else {
            Some(self.next_nonzero())
        }
    }
}

/// The identifiers that `n` calls in a row issue, starting from a counter
/// that stands at `start`.
pub open spec fn issued(start: int, n: nat) -> Seq<int>
    decreases n,
{
    if n == 0 {
        Seq::<int>::empty()
    } else {
        seq![start] + issued(start + 1, (n - 1) as nat)
    }
}

/// The `i`-th identifier issued is the starting value plus `i`.
pub proof fn lemma_issued_index(start: int, n: nat, i: int)
    requires
        0 <= i < n,
    ensures
        issued(start, n).len() == n,
        issued(start, n)[i] == start + i,
    decreases n,
{
    lemma_issued_len(start, n);
    if i > 0 {
        lemma_issued_index(start + 1, (n - 1) as nat, i - 1);
    }
}

/// `n` calls issue `n` identifiers.
pub proof fn lemma_issued_len(start: int, n: nat)
    ensures
        issued(start, n).len() == n,
    decreases n,
{
    if n > 0 {
        lemma_issued_len(start + 1, (n - 1) as nat);
    }
}

/// Identifiers issued in a row are strictly increasing, hence pairwise
/// distinct, and none of them reaches the counter's limit as long as the
/// counter is not exhausted on the way.
pub proof fn lemma_issued_ids_increase(start: int, n: nat, i: int, j: int)
    requires
        start + n <= COUNTER_LIMIT,
        0 <= i < j < n,
    ensures
        issued(start, n)[i] < issued(start, n)[j],
        issued(start, n)[i] != issued(start, n)[j],
        start <= issued(start, n)[i],
        issued(start, n)[j] < COUNTER_LIMIT,
{
    lemma_issued_index(start, n, i);
    lemma_issued_index(start, n, j);
}

/// A unique identifier for a single widget.
#[derive(Clone, Copy, Debug, PartialEq, Eq, Structural, Hash)]
pub struct WidgetId(pub CounterType);

impl WidgetId {
    /// Allocate a new, unique `WidgetId` from the counter.
    pub fn next(counter: &mut Counter) -> (id: WidgetId)
        requires
            !old(counter).spec_is_exhausted(),
        ensures
            id.0 == old(counter)@,
            final(counter)@ == old(counter)@ + 1,
    {
        WidgetId(counter.next_nonzero())
    }

    /// The identifier as a plain number.
    pub fn to_raw(self) -> (raw: CounterType)
        ensures
            raw == self.0,
    {
        self.0
    }
}

} // verus!
