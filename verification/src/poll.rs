//! What a task does with the answer to its query: publish what is new and
//! remember the whole.

use crate::cache::{Cache, CacheView};
use crate::event::{do_vecs_match, Event, EventList};
use crate::message::{msgs_view, MQTTMsgList};
use crate::mqttify::{BranchInfo, PDUInfo, ReceptacleInfo, ToMQTT};
use crate::registry::Address;
use crate::task::Task;
use crate::text::{decimal, decimal_string};
use vstd::prelude::*;
use vstd::string::*;

verus! {

/// The topic path of a PDU.
pub open spec fn pdu_path(pdu: u8) -> Seq<char> {
    "/pdu-"@ + decimal(pdu as nat)
}

/// The topic path of a branch.
pub open spec fn branch_path(pdu: u8, branch: u8) -> Seq<char> {
    pdu_path(pdu) + "/branch-"@ + decimal(branch as nat)
}

/// The topic path of a receptacle.
pub open spec fn receptacle_path(pdu: u8, branch: u8, receptacle: u8) -> Seq<char> {
    branch_path(pdu, branch) + "/receptacle-"@ + decimal(receptacle as nat)
}

/// Writes the topic path of a PDU.
pub fn pdu_path_string(pdu: u8) -> (path: String)
    ensures
        path@ == pdu_path(pdu),
{
    let mut path = String::from_str("/pdu-");
    path.append(decimal_string(pdu as u64).as_str());
    path
}

/// Writes the topic path of a branch.
pub fn branch_path_string(pdu: u8, branch: u8) -> (path: String)
    ensures
        path@ == branch_path(pdu, branch),
{
    let mut path = pdu_path_string(pdu);
    path.append("/branch-");
    path.append(decimal_string(branch as u64).as_str());
    path
}

/// Writes the topic path of a receptacle.
pub fn receptacle_path_string(pdu: u8, branch: u8, receptacle: u8) -> (path: String)
    ensures
        path@ == receptacle_path(pdu, branch, receptacle),
{
    let mut path = branch_path_string(pdu, branch);
    path.append("/receptacle-");
    path.append(decimal_string(receptacle as u64).as_str());
    path
}

/// What one event of a feed calls for.
#[derive(Clone, Copy, Debug, PartialEq, Eq)]
pub enum EventStep {
    /// The event is an alarm that reports over-current on this receptacle:
    /// the receptacle is switched off.
    Disable(Address),
    /// Nothing is done about the event but to report it as unhandled.
    Unhandled(Event),
}

/// The place that an event speaks of.
pub open spec fn event_address(e: Event) -> Address {
    Address { pdu: e.pdu, branch: e.branch, receptacle: e.receptacle }
}

/// What an event calls for.
pub open spec fn step_of(e: Event) -> EventStep {
    if e.spec_calls_for_disable() {
        EventStep::Disable(event_address(e))
    } else {
        EventStep::Unhandled(e)
    }
}

/// What a feed calls for when it is gone through as a whole: one step for
/// each event, in the order of the feed.
pub open spec fn event_plan(events: Seq<Event>) -> Seq<EventStep> {
    events.map_values(|e: Event| step_of(e))
}

/// What a fresh feed calls for against the cached one: nothing where the two
/// are equal place by place, else what the whole fresh feed calls for.
pub open spec fn event_actions(cache: CacheView, events: Seq<Event>) -> Seq<EventStep> {
    if cache == CacheView::EventSnapshot(events) {
        Seq::<EventStep>::empty()
    } else {
        event_plan(events)
    }
}

impl Task {
    /// Takes a fresh value snapshot: returns what it adds to the cached one,
    /// and caches the whole of it in place of the old.
    pub fn absorb(&mut self, new: MQTTMsgList) -> (result: MQTTMsgList)
        ensures
            msgs_view(result@) == old(self)@.cache.diff(msgs_view(new@)),
            final(self)@ == old(self)@.remembering(CacheView::ValueSnapshot(msgs_view(new@))),
    {
        let result = self.cache.get_modified(&new);
        self.cache = Cache::ValueSnapshot(new);
        result
    }
}

/// Takes the answer of a receptacle to its task's query: returns the
/// messages that changed since the last answer, and caches all of them.
pub fn read_receptacle(task: &mut Task, info: ReceptacleInfo) -> (result: MQTTMsgList)
    ensures
        ({
            let new = info.mqtt_view(
                receptacle_path(old(task).pdu, old(task).branch, old(task).receptacle),
            );
            &&& msgs_view(result@) == old(task)@.cache.diff(new)
            &&& final(task)@ == old(task)@.remembering(CacheView::ValueSnapshot(new))
        }),
{
    let path = receptacle_path_string(task.pdu, task.branch, task.receptacle);
    let new = info.to_mqtt(path.as_str());
    task.absorb(new)
}

/// Takes the answer of a branch to its task's query: returns the messages
/// that changed since the last answer, and caches all of them.
pub fn read_branch(task: &mut Task, info: BranchInfo) -> (result: MQTTMsgList)
    ensures
        ({
            let new = info.mqtt_view(branch_path(old(task).pdu, old(task).branch));
            &&& msgs_view(result@) == old(task)@.cache.diff(new)
            &&& final(task)@ == old(task)@.remembering(CacheView::ValueSnapshot(new))
        }),
{
    let path = branch_path_string(task.pdu, task.branch);
    let new = info.to_mqtt(path.as_str());
    task.absorb(new)
}

/// Takes the answer of a PDU to its task's query: returns the messages that
/// changed since the last answer, and caches all of them.
pub fn read_pdu(task: &mut Task, info: PDUInfo) -> (result: MQTTMsgList)
    ensures
        ({
            let new = info.mqtt_view(pdu_path(old(task).pdu));
            &&& msgs_view(result@) == old(task)@.cache.diff(new)
            &&& final(task)@ == old(task)@.remembering(CacheView::ValueSnapshot(new))
        }),
{
    let path = pdu_path_string(task.pdu);
    let new = info.to_mqtt(path.as_str());
    task.absorb(new)
}

/// Takes a fresh event feed. Where it equals the cached feed place by place,
/// nothing is to be done. Else the whole fresh feed is gone through: the
/// result holds one step for each event, in the feed's order. An alarm that
/// reports over-current on a receptacle has that receptacle switched off;
/// every other event is reported as unhandled. The fresh feed is what the
/// task remembers afterwards.
pub fn read_events(task: &mut Task, events: EventList) -> (plan: Vec<EventStep>)
    ensures
        plan@ == event_actions(old(task)@.cache, events@),
        final(task)@ == old(task)@.remembering(CacheView::EventSnapshot(events@)),
{
    let mut plan: Vec<EventStep> = Vec::new();
    let unchanged = match &task.cache {
        Cache::EventSnapshot(cached) => {
            let same = do_vecs_match(cached, &events);
            proof {
                if same {
                    assert(cached@ =~= events@);
                }
            }
            same
        },
        _ => false,
    };
    if unchanged {
        assert(task@ == old(task)@.remembering(CacheView::EventSnapshot(events@)));
        return plan;
    }
    let mut i: usize = 0;
    proof {
        assert(plan@ =~= event_plan(events@.take(0)));
    }
    while i < events.len()
        invariant
            i <= events.len(),
            plan@ == event_plan(events@.take(i as int)),
        decreases events.len() - i,
    {
        let event = events[i];
        let step = if event.calls_for_disable() {
            EventStep::Disable(
                Address { pdu: event.pdu, branch: event.branch, receptacle: event.receptacle },
            )
        } else {
            EventStep::Unhandled(event)
        };
        plan.push(step);
        proof {
            assert(events@.take(i + 1) =~= events@.take(i as int).push(event));
            assert(plan@ =~= event_plan(events@.take(i + 1)));
        }
        i += 1;
    }
    proof {
        assert(events@.take(events@.len() as int) =~= events@);
    }
    task.cache = Cache::EventSnapshot(events);
    plan
}

/// A feed that equals the cached one place by place calls for nothing.
pub proof fn lemma_same_feed_calls_for_nothing(events: Seq<Event>)
    ensures
        event_actions(CacheView::EventSnapshot(events), events) == Seq::<EventStep>::empty(),
{
}

/// A feed that differs from the cached one at some place, or in length, is
/// gone through as a whole, also where it holds the same events in another
/// order.
pub proof fn lemma_changed_feed_is_gone_through(cached: Seq<Event>, events: Seq<Event>)
    requires
        cached.len() != events.len() || exists|i: int|
            0 <= i < events.len() && cached[i] != events[i],
    ensures
        event_actions(CacheView::EventSnapshot(cached), events) == event_plan(events),
{
}

/// A feed that holds the events of the cached feed in another order counts as
/// changed, and is gone through as a whole again.
pub proof fn lemma_reordered_feed_is_gone_through(cached: Seq<Event>, events: Seq<Event>)
    requires
        cached.to_multiset() == events.to_multiset(),
        cached != events,
    ensures
        event_actions(CacheView::EventSnapshot(cached), events) == event_plan(events),
{
}

/// Against a cache that holds no feed, every feed is gone through.
pub proof fn lemma_first_feed_is_gone_through(cache: CacheView, events: Seq<Event>)
    requires
        !(cache is EventSnapshot),
    ensures
        event_actions(cache, events) == event_plan(events),
{
}

/// Going through a feed leaves no event out and adds none: each event has its
/// step at its own place, a receptacle is switched off exactly for an alarm
/// that reports over-current on it, and every other event is reported.
pub proof fn lemma_every_event_has_its_step(events: Seq<Event>, i: int)
    requires
        0 <= i < events.len(),
    ensures
        event_plan(events).len() == events.len(),
        event_plan(events)[i] == step_of(events[i]),
        event_plan(events)[i] is Disable <==> events[i].spec_calls_for_disable(),
        event_plan(events)[i] is Unhandled ==> event_plan(events)[i] == EventStep::Unhandled(
            events[i],
        ),
        event_plan(events)[i] matches EventStep::Disable(at) ==> at == event_address(events[i]),
{
}

} // verus!
