use vstd::prelude::*;
use crate::time::Time;

verus! {

/// An entry of the event queue: the payload, its time, and the insertion
/// number that breaks ties between entries of equal time.
pub struct Event<T> {
    pub time: Time,
    pub generation: u64,
    pub item: T,
}

impl<T> Event<T> {
    /// Delivery order: by time, then by insertion number.
    pub open spec fn key_lt(self, other: Event<T>) -> bool {
        self.time.before(other.time) || (self.time == other.time && self.generation < other.generation)
    }

    /// Whether `self` is delivered before `other`.
    pub fn precedes(&self, other: &Event<T>) -> (r: bool)
        ensures
            r == self.key_lt(*other),
    {
        self.time.is_before(&other.time) || (self.time == other.time && self.generation < other.generation)
    }
}

/// Two entries are equal when time and insertion number match; the payload is not compared.
impl<T> PartialEq for Event<T> {
    fn eq(&self, other: &Event<T>) -> (r: bool) {
        self.time == other.time && self.generation == other.generation
    }
}

impl<T> vstd::std_specs::cmp::PartialEqSpecImpl for Event<T> {
    open spec fn obeys_eq_spec() -> bool {
        true
    }

    open spec fn eq_spec(&self, other: &Event<T>) -> bool {
        self.time == other.time && self.generation == other.generation
    }
}

impl<T> Eq for Event<T> {
}

} // verus!
