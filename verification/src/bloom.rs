//! A small registry of widget identifiers with a fixed capacity.

use vstd::prelude::*;
use crate::id::{CounterType, WidgetId};

verus! {

/// The number of identifiers that a [`Bloom`] can hold.
pub const BLOOM_CAPACITY: usize = 10;

/// A `heapless::Vec` of identifiers with room for [`BLOOM_CAPACITY`] items.
#[verifier::external_body]
pub struct IdVec {
    items: heapless::Vec<CounterType, heapless::consts::U10>,
}

/// The identifiers that an [`IdVec`] holds, in the order in which they were pushed.
pub uninterp spec fn id_vec_items(v: IdVec) -> Seq<CounterType>;

/// `heapless::Vec::new`: the new vector holds nothing.
#[verifier::external_body]
fn id_vec_new() -> (v: IdVec)
    ensures
        id_vec_items(v) == Seq::<CounterType>::empty(),
{
    IdVec { items: heapless::Vec::new() }
}

/// The length of the slice that `heapless::Vec` derefs to: the number of
/// items pushed and not removed.
#[verifier::external_body]
fn id_vec_len(v: &IdVec) -> (n: usize)
    ensures
        n == id_vec_items(*v).len(),
{
    v.items.len()
}

/// Indexing the slice that `heapless::Vec` derefs to: the item at `i`.
#[verifier::external_body]
fn id_vec_get(v: &IdVec, i: usize) -> (id: CounterType)
    requires
        i < id_vec_items(*v).len(),
    ensures
        id == id_vec_items(*v)[i as int],
{
    v.items[i]
}

/// `heapless::Vec::push`: appends the item when the vector holds fewer
/// items than its capacity; a full vector is left as it is and hands the
/// item back, which is reported as `false`.
#[verifier::external_body]
fn id_vec_push(v: &mut IdVec, id: CounterType) -> (pushed: bool)
    ensures
        pushed == (id_vec_items(*old(v)).len() < BLOOM_CAPACITY),
        pushed ==> id_vec_items(*final(v)) == id_vec_items(*old(v)).push(id),
        !pushed ==> id_vec_items(*final(v)) == id_vec_items(*old(v)),
{
    v.items.push(id).is_ok()
}

/// `heapless::Vec::clear`: removes every item.
#[verifier::external_body]
fn id_vec_clear(v: &mut IdVec)
    ensures
        id_vec_items(*final(v)) == Seq::<CounterType>::empty(),
{
    v.items.clear()
}

/// `Clone` for `heapless::Vec`: the copy holds the same items in the same order.
#[verifier::external_body]
fn id_vec_clone(v: &IdVec) -> (copy: IdVec)
    ensures
        id_vec_items(copy) == id_vec_items(*v),
{
    IdVec { items: v.items.clone() }
}

/// The identifiers `s` with `id` appended, unless `s` is full.
pub open spec fn with_added(s: Seq<CounterType>, id: CounterType) -> Seq<CounterType> {
    if s.len() < BLOOM_CAPACITY {
        s.push(id)
    } else {
        s
    }
}

/// The identifiers `acc` followed by those of `other[from..]` that are not
/// held yet, each added in turn as long as there is room.
pub open spec fn merged(acc: Seq<CounterType>, other: Seq<CounterType>, from: int) -> Seq<
    CounterType,
>
    decreases other.len() - from,
{
    if from < 0 || from >= other.len() {
        acc
    } else if acc.contains(other[from]) {
        merged(acc, other, from + 1)
    } else {
        merged(with_added(acc, other[from]), other, from + 1)
    }
}

/// A set of widget identifiers, kept as a list of bounded length.
///
/// Membership is exact for the identifiers that were added while there was
/// room; an identifier added to a full registry is dropped.
pub struct Bloom {
    items: IdVec,
}

impl Clone for Bloom {
    fn clone(&self) -> (copy: Bloom)
        ensures
            copy@ == self@,
    {
        Bloom { items: id_vec_clone(&self.items) }
    }
}

impl Bloom {
    /// The identifiers held, in the order in which they were added.
    pub closed spec fn view(&self) -> Seq<CounterType> {
        id_vec_items(self.items)
    }

    /// Create a new registry that holds nothing.
    pub fn new() -> (b: Bloom)
        ensures
            b@ == Seq::<CounterType>::empty(),
    {
        Bloom { items: id_vec_new() }
    }

    /// Remove all entries.
    pub fn clear(&mut self)
        ensures
            final(self)@ == Seq::<CounterType>::empty(),
    {
        id_vec_clear(&mut self.items);
    }

    /// The number of identifiers held.
    pub fn len(&self) -> (n: usize)
        ensures
            n == self@.len(),
    {
        id_vec_len(&self.items)
    }

    /// Returns `true` if the identifier is held.
    pub fn may_contain(&self, id: &WidgetId) -> (found: bool)
        ensures
            found == self@.contains(id.0),
    {
        let n: usize = id_vec_len(&self.items);
        let mut i: usize = 0;
        while i < n
            invariant
                i <= n,
                n == self@.len(),
                forall|k: int| 0 <= k < i ==> self@[k] != id.0,
            decreases n - i,
        {
            if id_vec_get(&self.items, i) == id.0 {
                assert(self@[i as int] == id.0);
                return true;
            }
            i = i + 1;
        }
        false
    }

    /// Add an identifier. A registry that is full stays as it is.
    pub fn add(&mut self, id: &WidgetId)
        ensures
            final(self)@ == with_added(old(self)@, id.0),
    {
        let _ = id_vec_push(&mut self.items, id.0);
    }

    /// A registry with the entries of `self`, followed by the entries of
    /// `bloom` that `self` does not hold, as far as there is room.
    pub fn union(&self, bloom: Bloom) -> (result: Bloom)
        ensures
            result@ == merged(self@, bloom@, 0),
    {
        let mut result = Bloom { items: id_vec_clone(&self.items) };
        let n: usize = id_vec_len(&bloom.items);
        let mut i: usize = 0;
        while i < n
            invariant
                i <= n,
                n == bloom@.len(),
                merged(result@, bloom@, i as int) == merged(self@, bloom@, 0),
            decreases n - i,
        {
            let item = WidgetId(id_vec_get(&bloom.items, i));
            if !result.may_contain(&item) {
                result.add(&item);
            }
            i = i + 1;
        }
        result
    }
}

/// An identifier that was added while there was room is held afterwards,
/// and adding never removes an identifier.
pub proof fn lemma_added_is_held(s: Seq<CounterType>, id: CounterType, other: CounterType)
    ensures
        s.len() < BLOOM_CAPACITY ==> with_added(s, id).contains(id),
        s.contains(other) ==> with_added(s, id).contains(other),
{
    if s.len() < BLOOM_CAPACITY {
        assert(s.push(id)[s.len() as int] == id);
    }
    if s.contains(other) {
        let k = choose|k: int| 0 <= k < s.len() && s[k] == other;
        assert(with_added(s, id)[k] == other);
    }
}

/// A union holds every identifier that its first operand holds.
pub proof fn lemma_union_keeps_own(
    acc: Seq<CounterType>,
    other: Seq<CounterType>,
    from: int,
    id: CounterType,
)
    requires
        acc.contains(id),
    ensures
        merged(acc, other, from).contains(id),
    decreases other.len() - from,
{
    if 0 <= from < other.len() {
        if acc.contains(other[from]) {
            lemma_union_keeps_own(acc, other, from + 1, id);
        } else {
            lemma_added_is_held(acc, other[from], id);
            lemma_union_keeps_own(with_added(acc, other[from]), other, from + 1, id);
        }
    }
}

} // verus!
