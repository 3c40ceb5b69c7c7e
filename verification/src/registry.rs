//! Which connection workers are in flight.
//!
//! Every worker is known by an identifier. An identifier is handed out when a
//! connection is taken in, stays in the set until that worker is reported
//! finished, and is free for a later connection from then on. The set is kept
//! as an arena of slots, one per identifier.

use vstd::prelude::*;

verus! {

/// The least identifier from `from` on that `live` does not hold (the
/// greatest identifier there is, should all of them be taken).
pub open spec fn first_free(live: Set<usize>, from: usize) -> usize
    decreases usize::MAX - from,
{
    if !live.contains(from) || from == usize::MAX {
        from
    } else {
        first_free(live, (from + 1) as usize)
    }
}

/// The identifier that the next registered worker receives: the least one that
/// `live` does not hold.
pub open spec fn least_free(live: Set<usize>) -> usize {
    first_free(live, 0)
}

/// `id` is free in `live`, and every smaller identifier is taken.
pub open spec fn is_least_free(live: Set<usize>, id: usize) -> bool {
    &&& !live.contains(id)
    &&& forall|below: usize| below < id ==> #[trigger] live.contains(below)
}

/// The search from `from` finds `id` when `id` is free and every identifier
/// from `from` up to it is taken.
proof fn lemma_first_free_found(live: Set<usize>, from: usize, id: usize)
    requires
        from <= id,
        !live.contains(id),
        forall|between: usize| from <= between < id ==> #[trigger] live.contains(between),
    ensures
        first_free(live, from) == id,
    decreases id - from,
{
    if from < id {
        assert(live.contains(from));
        lemma_first_free_found(live, (from + 1) as usize, id);
    }
}

/// An identifier that is free, with every smaller one taken, is the one that
/// `least_free` names.
pub proof fn lemma_least_free_found(live: Set<usize>, id: usize)
    requires
        is_least_free(live, id),
    ensures
        least_free(live) == id,
{
    lemma_first_free_found(live, 0, id);
}

/// Where some identifier is free, `least_free` names the least free one.
pub proof fn lemma_least_free_exists(live: Set<usize>, free: usize)
    requires
        !live.contains(free),
    ensures
        is_least_free(live, least_free(live)),
        least_free(live) <= free,
    decreases free,
{
    if forall|below: usize| below < free ==> #[trigger] live.contains(below) {
        assert(is_least_free(live, free));
        lemma_least_free_found(live, free);
    } else {
        let below = choose|below: usize| below < free && !#[trigger] live.contains(below);
        lemma_least_free_exists(live, below);
    }
}

/// The identifiers whose slot is taken.
spec fn live_ids(slots: Seq<bool>) -> Set<usize> {
    Set::new(|id: usize| id < slots.len() && slots[id as int])
}

/// How many slots are taken.
spec fn taken(slots: Seq<bool>) -> nat
    decreases slots.len(),
{
    if slots.len() == 0 {
        0
    } else if slots.last() {
        taken(slots.drop_last()) + 1
    } else {
        taken(slots.drop_last())
    }
}

/// The taken slots are finitely many, and `taken` counts them.
proof fn lemma_live_ids_counted(slots: Seq<bool>)
    requires
        slots.len() <= usize::MAX,
    ensures
        live_ids(slots).finite(),
        live_ids(slots).len() == taken(slots),
        taken(slots) <= slots.len(),
    decreases slots.len(),
{
    if slots.len() == 0 {
        assert(live_ids(slots) =~= Set::<usize>::empty());
    } else {
        let rest = slots.drop_last();
        let top = (slots.len() - 1) as usize;
        lemma_live_ids_counted(rest);
        if slots.last() {
            assert(live_ids(slots) =~= live_ids(rest).insert(top));
        } else {
            assert(live_ids(slots) =~= live_ids(rest));
        }
    }
}

/// The workers in flight. The view is the set of their identifiers.
pub struct WorkerSet {
    slots: Vec<bool>,
}

impl View for WorkerSet {
    type V = Set<usize>;

    closed spec fn view(&self) -> Set<usize> {
        live_ids(self.slots@)
    }
}

impl WorkerSet {
    /// A set with no worker in it.
    pub fn new() -> (set: Self)
        ensures
            set@ == Set::<usize>::empty(),
    {
        let set = WorkerSet { slots: Vec::new() };
        assert(set@ =~= Set::<usize>::empty());
        set
    }

    /// The set holds finitely many workers.
    pub proof fn lemma_finite(&self)
        ensures
            self@.finite(),
    {
        assert(self.slots.len() == self.slots@.len());
        lemma_live_ids_counted(self.slots@);
    }

    /// Takes a worker into the set and returns its identifier: the least one
    /// that no worker in flight has.
    pub fn register(&mut self) -> (id: usize)
        ensures
            id == least_free(old(self)@),
            is_least_free(old(self)@, id),
            final(self)@ == old(self)@.insert(id),
    {
        let n = self.slots.len();
        let mut i: usize = 0;
        while i < n && self.slots[i]
            invariant
                n == self.slots@.len(),
                i <= n,
                self.slots@ == old(self).slots@,
                forall|k: int| 0 <= k < i ==> self.slots@[k],
            decreases n - i,
        {
            i = i + 1;
        }
        proof {
            assert forall|below: usize| below < i implies #[trigger] old(self)@.contains(
                below,
            ) by {
                assert(old(self).slots@[below as int]);
            }
            lemma_least_free_found(old(self)@, i);
        }
        if i < n {
            self.slots.set(i, true);
        } else {
            self.slots.push(true);
        }
        assert(self@ =~= old(self)@.insert(i));
        i
    }

    /// Takes the worker `id` out of the set. The result tells whether it was
    /// there; a set that did not hold it is left as it was.
    pub fn reap(&mut self, id: usize) -> (found: bool)
        ensures
            found == old(self)@.contains(id),
            final(self)@ == old(self)@.remove(id),
    {
        if id < self.slots.len() && self.slots[id] {
            self.slots.set(id, false);
            assert(self@ =~= old(self)@.remove(id));
            true
        } else {
            assert(self@ =~= old(self)@.remove(id));
            false
        }
    }

    /// Whether the worker `id` is in flight.
    pub fn contains(&self, id: usize) -> (found: bool)
        ensures
            found == self@.contains(id),
    {
        id < self.slots.len() && self.slots[id]
    }

    /// How many workers are in flight.
    pub fn len(&self) -> (count: usize)
        ensures
            self@.finite(),
            count == self@.len(),
    {
        let n = self.slots.len();
        let mut count: usize = 0;
        let mut i: usize = 0;
        while i < n
            invariant
                n == self.slots@.len(),
                i <= n,
                count == taken(self.slots@.take(i as int)),
                count <= i,
            decreases n - i,
        {
            proof {
                assert(self.slots@.take(i + 1).drop_last() =~= self.slots@.take(i as int));
            }
            if self.slots[i] {
                count = count + 1;
            }
            i = i + 1;
        }
        proof {
            assert(self.slots@.take(n as int) =~= self.slots@);
            lemma_live_ids_counted(self.slots@);
        }
        count
    }

    /// Whether no worker is in flight.
    pub fn is_empty(&self) -> (empty: bool)
        ensures
            empty == self@.is_empty(),
    {
        let n = self.slots.len();
        let mut i: usize = 0;
        while i < n
            invariant
                n == self.slots@.len(),
                i <= n,
                forall|k: int| 0 <= k < i ==> !self.slots@[k],
            decreases n - i,
        {
            if self.slots[i] {
                assert(self@.contains(i));
                return false;
            }
            i = i + 1;
        }
        assert(self@ =~= Set::<usize>::empty());
        true
    }
}

} // verus!
