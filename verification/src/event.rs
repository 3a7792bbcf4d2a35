//! Records of the device's event feed.

use vstd::prelude::*;
use vstd::std_specs::cmp::PartialEqSpec;

verus! {

/// How serious an event is. Only the alarm level drives a decision; every other
/// level keeps the code the device gave it, so that two records still compare
/// as the device's own records would.
#[derive(Clone, Copy, Debug, PartialEq, Eq, Structural)]
pub enum EventLevel {
    Alarm,
    Other(u16),
}

/// What an event reports. Over-current on a receptacle is the one kind that is
/// acted on.
#[derive(Clone, Copy, Debug, PartialEq, Eq, Structural)]
pub enum EventType {
    ReceptacleOverCurrent,
    Other(u16),
}

/// One record of the event feed: level, kind and the place it speaks of.
#[derive(Clone, Copy, Debug)]
pub struct Event {
    pub level: EventLevel,
    pub event: EventType,
    pub pdu: u8,
    pub branch: u8,
    pub receptacle: u8,
}

/// The event feed as the device reports it, in its order.
pub type EventList = Vec<Event>;

impl PartialEq for Event {
    fn eq(&self, other: &Self) -> (same: bool) {
        self.level == other.level && self.event == other.event && self.pdu == other.pdu
            && self.branch == other.branch && self.receptacle == other.receptacle
    }
}

impl Eq for Event {

}

impl vstd::std_specs::cmp::PartialEqSpecImpl for Event {
    open spec fn obeys_eq_spec() -> bool {
        true
    }

    open spec fn eq_spec(&self, other: &Self) -> bool {
        self.level == other.level && self.event == other.event && self.pdu == other.pdu
            && self.branch == other.branch && self.receptacle == other.receptacle
    }
}

impl Event {
    /// An alarm that says a receptacle draws too much current: the receptacle
    /// is to be switched off.
    pub open spec fn spec_calls_for_disable(&self) -> bool {
        self.level == EventLevel::Alarm && self.event == EventType::ReceptacleOverCurrent
    }

    /// Tells whether this event calls for switching its receptacle off.
    #[verifier::when_used_as_spec(spec_calls_for_disable)]
    pub fn calls_for_disable(&self) -> (yes: bool)
        ensures
            yes == self.spec_calls_for_disable(),
    {
        self.level == EventLevel::Alarm && self.event == EventType::ReceptacleOverCurrent
    }
}

/// Two feeds match place by place exactly when they are the same sequence of
/// events: equality of events is equality of all their fields.
pub proof fn lemma_feeds_match_when_equal(a: Seq<Event>, b: Seq<Event>)
    ensures
        Event::obeys_eq_spec(),
        (a.len() == b.len() && forall|i: int| 0 <= i < a.len() ==> (#[trigger] a[i]).eq_spec(&b[i]))
            <==> a == b,
{
    if a.len() == b.len() && forall|i: int| 0 <= i < a.len() ==> (#[trigger] a[i]).eq_spec(&b[i]) {
        assert(a =~= b);
    }
}

/// Compares two lists place by place: they match when they are equally long
/// and hold equal items at every index. The same items in another order do
/// not match.
pub fn do_vecs_match<T: PartialEq>(a: &Vec<T>, b: &Vec<T>) -> (same: bool)
    ensures
        T::obeys_eq_spec() ==> same == (a.len() == b.len() && forall|i: int|
            0 <= i < a.len() ==> (#[trigger] a[i]).eq_spec(&b[i])),
{
    if a.len() != b.len() {
        return false;
    }
    let mut i: usize = 0;
    while i < a.len()
        invariant
            a.len() == b.len(),
            i <= a.len(),
            T::obeys_eq_spec() ==> forall|j: int| 0 <= j < i ==> (#[trigger] a[j]).eq_spec(&b[j]),
        decreases a.len() - i,
    {
        if a[i] != b[i] {
            return false;
        }
        i += 1;
    }
    true
}

} // verus!
