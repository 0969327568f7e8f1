//! One-shot narrative events: what they say, and whether the player has
//! acknowledged them.

use vstd::prelude::*;
use vstd::std_specs::cmp::PartialEqSpecImpl;
use crate::registry::Key;
use crate::registry::Keyed;

verus! {

/// What an event says. Two specifications are the same event when their
/// identities are equal.
#[derive(Clone, Copy, Debug)]
pub struct EventSpec {
    pub id: i64,
    pub name: &'static str,
    pub desc: &'static str,
}

/// An event that has been triggered, pending until it is consumed.
#[derive(Clone, Copy, Debug)]
pub struct Event {
    pub spec: EventSpec,
    pub consumed: bool,
}

impl PartialEq for EventSpec {
    fn eq(&self, rhs: &Self) -> (r: bool) {
        self.id == rhs.id
    }
}

impl PartialEqSpecImpl for EventSpec {
    open spec fn obeys_eq_spec() -> bool {
        true
    }

    open spec fn eq_spec(&self, rhs: &Self) -> bool {
        self.id == rhs.id
    }
}

impl Eq for EventSpec {

}

impl EventSpec {
    /// The untitled event with the identity `id`.
    pub open spec fn blank(id: i64) -> EventSpec {
        EventSpec { id, name: "<untitled>", desc: "" }
    }

    /// The untitled event with the identity `id`.
    pub fn new(id: i64) -> (s: EventSpec)
        ensures
            s == EventSpec::blank(id),
    {
        EventSpec { id, name: "<untitled>", desc: "" }
    }

    /// A pending instance of the event.
    pub fn instantiate(&self) -> (e: Event)
        ensures
            e == (Event { spec: *self, consumed: false }),
    {
        Event { spec: *self, consumed: false }
    }
}

impl Key for Event {
    open spec fn key(&self) -> i64 {
        self.spec.id
    }
}

impl Keyed for Event {
    fn id(&self) -> (k: i64) {
        self.spec.id
    }
}

} // verus!
