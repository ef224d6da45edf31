use vstd::prelude::*;
use crate::event::Event;
use crate::time::Time;

verus! {

/// Entries are in strict delivery order.
pub open spec fn sorted<T>(s: Seq<Event<T>>) -> bool {
    forall|i: int, j: int| 0 <= i < j < s.len() ==> (#[trigger] s[i]).key_lt(#[trigger] s[j])
}

/// Where an entry at time `t` goes in a sorted sequence: after every entry
/// whose time is not later than `t`.
pub open spec fn place<T>(s: Seq<Event<T>>, t: Time) -> nat
    decreases s.len(),
{
    if s.len() == 0 {
        0
    } else if t.before(s.last().time) {
        place(s.drop_last(), t)
    } else {
        s.len()
    }
}

/// A stable priority queue: entries leave by time, and entries of equal time
/// leave in the order they were added.
pub struct EventQueue<T> {
    generation: u64,
    queue: Vec<Event<T>>,
}

impl<T> View for EventQueue<T> {
    type V = Seq<Event<T>>;

    /// The entries, in the order they will be delivered.
    closed spec fn view(&self) -> Seq<Event<T>> {
        self.queue@
    }
}

impl<T> EventQueue<T> {
    /// The insertion number handed to the latest entry (zero before any).
    pub closed spec fn last_generation(&self) -> u64 {
        self.generation
    }

    pub open spec fn wf(&self) -> bool {
        &&& sorted(self@)
        &&& forall|i: int| 0 <= i < self@.len() ==> (#[trigger] self@[i]).generation <= self.last_generation()
    }

    /// The entry `add(when, item)` inserts.
    pub open spec fn next_entry(&self, when: Time, item: T) -> Event<T> {
        Event { time: when, generation: (self.last_generation() + 1) as u64, item }
    }

    pub fn new() -> (r: EventQueue<T>)
        ensures
            r.wf(),
            r@ == Seq::<Event<T>>::empty(),
            r.last_generation() == 0,
    {
        EventQueue { generation: 0, queue: Vec::new() }
    }

    pub fn len(&self) -> (r: usize)
        ensures
            r == self@.len(),
    {
        self.queue.len()
    }

    pub fn is_empty(&self) -> (r: bool)
        ensures
            r == (self@.len() == 0),
    {
        self.queue.len() == 0
    }

    pub fn has_next(&self) -> (r: bool)
        ensures
            r == (self@.len() != 0),
    {
        self.queue.len() != 0
    }

    /// The entry that leaves next, left in place.
    pub fn peek(&self) -> (r: Option<(&Time, &T)>)
        ensures
            self@.len() == 0 ==> r is None,
            self@.len() > 0 ==> r == Some((&self@[0].time, &self@[0].item)),
    {
        if self.queue.len() == 0 {
            None
        } else {
            let e = &self.queue[0];
            Some((&e.time, &e.item))
        }
    }

    /// Inserts `item` at time `when` behind every entry not later than `when`.
    /// Running out of insertion numbers is fatal, so it is excluded.
    pub fn add(&mut self, when: Time, item: T)
        requires
            old(self).wf(),
            old(self).last_generation() < u64::MAX,
        ensures
            final(self).wf(),
            final(self).last_generation() == old(self).last_generation() + 1,
            final(self)@ == old(self)@.insert(place(old(self)@, when) as int, old(self).next_entry(when, item)),
    {
        let ghost s = self@;
        let generation = self.generation + 1;
        let mut i: usize = self.queue.len();
        proof {
            assert(s.take(s.len() as int) =~= s);
        }
        while i > 0 && when.is_before(&self.queue[i - 1].time)
            invariant
                self@ == s,
                self.wf(),
                i <= s.len(),
                place(s, when) == place(s.take(i as int), when),
                forall|k: int| i <= k < s.len() ==> when.before(#[trigger] s[k].time),
            decreases i,
        {
            proof {
                assert(s.take(i as int).drop_last() =~= s.take(i - 1));
            }
            i = i - 1;
        }
        proof {
            if i > 0 {
                assert(!when.before(s.take(i as int).last().time));
            }
        }
        let entry = Event { time: when, generation, item };
        let ghost added = entry;
        self.queue.insert(i, entry);
        self.generation = generation;
        proof {
            let n = self@;
            assert(n =~= s.insert(i as int, added));
            assert forall|a: int, b: int| 0 <= a < b < n.len() implies (#[trigger] n[a]).key_lt(#[trigger] n[b]) by {
                if b < i {
                    assert(s[a].key_lt(s[b]));
                } else if a > i {
                    assert(s[a - 1].key_lt(s[b - 1]));
                } else if a == i {
                    assert(when.before(s[b - 1].time));
                } else {
                    assert(!when.before(s[i - 1].time));
                    if a < i - 1 {
                        assert(s[a].key_lt(s[i - 1]));
                    }
                }
            }
        }
    }

    /// Removes and returns the entry that leaves next.
    pub fn next(&mut self) -> (r: Option<(Time, T)>)
        requires
            old(self).wf(),
        ensures
            final(self).wf(),
            final(self).last_generation() == old(self).last_generation(),
            old(self)@.len() == 0 ==> r is None && final(self)@ == old(self)@,
            old(self)@.len() > 0 ==> r == Some((old(self)@[0].time, old(self)@[0].item))
                && final(self)@ == old(self)@.drop_first(),
    {
        if self.queue.len() == 0 {
            None
        } else {
            let e = self.queue.remove(0);
            proof {
                assert(self@ =~= old(self)@.drop_first());
                assert forall|a: int, b: int| 0 <= a < b < self@.len() implies (#[trigger] self@[a]).key_lt(#[trigger] self@[b]) by {
                    assert(old(self)@[a + 1].key_lt(old(self)@[b + 1]));
                }
            }
            Some((e.time, e.item))
        }
    }
}

/// In a sorted sequence, the entries before `place(s, t)` are exactly those
/// whose time is not later than `t`.
pub proof fn lemma_place_splits<T>(s: Seq<Event<T>>, t: Time)
    requires
        sorted(s),
    ensures
        place(s, t) <= s.len(),
        forall|k: int| 0 <= k < s.len() ==> (k < place(s, t) <==> !t.before(#[trigger] s[k].time)),
    decreases s.len(),
{
    if s.len() > 0 {
        let last = s.len() - 1;
        if t.before(s.last().time) {
            let d = s.drop_last();
            assert forall|i: int, j: int| 0 <= i < j < d.len() implies (#[trigger] d[i]).key_lt(#[trigger] d[j]) by {
                assert(s[i].key_lt(s[j]));
            }
            lemma_place_splits(d, t);
            assert forall|k: int| 0 <= k < s.len() implies (k < place(s, t) <==> !t.before(#[trigger] s[k].time)) by {
                if k < last {
                    assert(d[k] == s[k]);
                }
            }
        } else {
            assert forall|k: int| 0 <= k < s.len() implies !t.before(#[trigger] s[k].time) by {
                if k < last {
                    assert(s[k].key_lt(s[last]));
                }
            }
        }
    }
}

/// Delivery order: entries leave the queue in non-decreasing time, and entries
/// of equal time leave in increasing insertion number, i.e. first in, first out.
pub proof fn lemma_delivery_order<T>(q: EventQueue<T>)
    requires
        q.wf(),
    ensures
        forall|i: int, j: int| 0 <= i < j < q@.len() ==> {
            &&& (#[trigger] q@[i]).time.not_after((#[trigger] q@[j]).time)
            &&& q@[i].time == q@[j].time ==> q@[i].generation < q@[j].generation
        },
{
    assert forall|i: int, j: int| 0 <= i < j < q@.len() implies {
        &&& (#[trigger] q@[i]).time.not_after((#[trigger] q@[j]).time)
        &&& q@[i].time == q@[j].time ==> q@[i].generation < q@[j].generation
    } by {
        assert(q@[i].key_lt(q@[j]));
    }
}

/// An entry added at time `when` leaves after every entry already present whose
/// time is not later than `when`, before every later one, and carries an
/// insertion number above all of theirs.
pub proof fn lemma_add_position<T>(q: EventQueue<T>, when: Time, item: T)
    requires
        q.wf(),
        q.last_generation() < u64::MAX,
    ensures
        place(q@, when) <= q@.len(),
        forall|k: int| 0 <= k < q@.len() ==> (k < place(q@, when) <==> !when.before(#[trigger] q@[k].time)),
        forall|k: int| 0 <= k < q@.len() ==> (#[trigger] q@[k]).generation < q.next_entry(when, item).generation,
{
    lemma_place_splits(q@, when);
}

impl<T> Default for EventQueue<T> {
    fn default() -> (r: EventQueue<T>)
        ensures
            r.wf(),
            r@ == Seq::<Event<T>>::empty(),
            r.last_generation() == 0,
    {
        EventQueue::new()
    }
}

} // verus!
