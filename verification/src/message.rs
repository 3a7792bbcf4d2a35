//! Outbound messages and their mathematical view.

use vstd::prelude::*;

verus! {

/// One message for the bus: where it goes, what it says and whether the broker
/// keeps it for late subscribers.
#[derive(Debug, PartialEq, Eq)]
pub struct MQTTMsg {
    pub topic: String,
    pub payload: String,
    pub retained: bool,
}

/// A list of messages in publication order.
pub type MQTTMsgList = Vec<MQTTMsg>;

/// What a message is to the contracts: its two texts as character sequences and
/// its flag.
pub ghost struct MsgView {
    pub topic: Seq<char>,
    pub payload: Seq<char>,
    pub retained: bool,
}

impl View for MQTTMsg {
    type V = MsgView;

    open spec fn view(&self) -> MsgView {
        MsgView { topic: self.topic@, payload: self.payload@, retained: self.retained }
    }
}

/// The views of a list of messages, in order.
pub open spec fn msgs_view(list: Seq<MQTTMsg>) -> Seq<MsgView> {
    list.map_values(|m: MQTTMsg| m@)
}

impl Clone for MQTTMsg {
    fn clone(&self) -> (copy: Self)
        ensures
            copy == *self,
    {
        MQTTMsg { topic: self.topic.clone(), payload: self.payload.clone(), retained: self.retained }
    }
}

impl MQTTMsg {
    /// Builds a message from borrowed texts.
    pub fn new(topic: &str, payload: &str, retained: bool) -> (msg: Self)
        ensures
            msg@ == (MsgView { topic: topic@, payload: payload@, retained }),
    {
        MQTTMsg { topic: topic.to_owned(), payload: payload.to_owned(), retained }
    }
}

/// Copies a list of messages.
pub fn clone_msgs(list: &MQTTMsgList) -> (copy: MQTTMsgList)
    ensures
        copy@ == list@,
{
    let mut copy: MQTTMsgList = Vec::new();
    let mut i: usize = 0;
    while i < list.len()
        invariant
            i <= list.len(),
            copy@ == list@.take(i as int),
        decreases list.len() - i,
    {
        copy.push(list[i].clone());
        proof {
            assert(list@.take(i as int).push(list@[i as int]) =~= list@.take(i + 1));
        }
        i += 1;
    }
    proof {
        assert(list@.take(list@.len() as int) =~= list@);
    }
    copy
}

} // verus!
