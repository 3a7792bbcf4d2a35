//! What a task remembers of its last poll, and what a fresh snapshot adds to it.

use crate::event::{Event, EventList};
use crate::message::{clone_msgs, msgs_view, MQTTMsg, MQTTMsgList, MsgView};
use vstd::prelude::*;

verus! {

/// The memory of one task. It is empty until the first poll succeeds; after
/// that it holds the whole of the latest value snapshot or of the latest event
/// feed.
#[derive(Debug, PartialEq, Eq)]
pub enum Cache {
    Empty,
    ValueSnapshot(MQTTMsgList),
    EventSnapshot(EventList),
}

/// A cache as the contracts see it.
pub ghost enum CacheView {
    Empty,
    ValueSnapshot(Seq<MsgView>),
    EventSnapshot(Seq<Event>),
}

impl View for Cache {
    type V = CacheView;

    open spec fn view(&self) -> CacheView {
        match self {
            Cache::Empty => CacheView::Empty,
            Cache::ValueSnapshot(old) => CacheView::ValueSnapshot(msgs_view(old@)),
            Cache::EventSnapshot(old) => CacheView::EventSnapshot(old@),
        }
    }
}

/// `i` is the place of the entry that a key is compared with: the first entry
/// of `old` under that key.
pub open spec fn is_baseline_at(old: Seq<MsgView>, topic: Seq<char>, i: int) -> bool {
    &&& 0 <= i < old.len()
    &&& old[i].topic == topic
    &&& forall|j: int| 0 <= j < i ==> (#[trigger] old[j]).topic != topic
}

/// `old` knows the key `topic`.
pub open spec fn has_topic(old: Seq<MsgView>, topic: Seq<char>) -> bool {
    exists|i: int| 0 <= i < old.len() && (#[trigger] old[i]).topic == topic
}

/// The entry `n` is worth publishing against `old`: `old` knows its key and
/// holds another value under it. An entry whose key `old` does not know is not
/// worth publishing.
pub open spec fn changed(old: Seq<MsgView>, n: MsgView) -> bool {
    exists|i: int| #[trigger] is_baseline_at(old, n.topic, i) && old[i].payload != n.payload
}

/// `changed` against a fixed baseline, as a predicate on entries.
pub open spec fn changed_in(old: Seq<MsgView>) -> spec_fn(MsgView) -> bool {
    |n: MsgView| changed(old, n)
}

/// The entries of `new` that are worth publishing against `old`, in the order
/// of `new`.
pub open spec fn modified(old: Seq<MsgView>, new: Seq<MsgView>) -> Seq<MsgView> {
    new.filter(changed_in(old))
}

impl CacheView {
    /// What a fresh value snapshot adds to this cache: everything, unless the
    /// cache holds an earlier value snapshot to compare with.
    pub open spec fn diff(self, new: Seq<MsgView>) -> Seq<MsgView> {
        match self {
            CacheView::ValueSnapshot(old) => modified(old, new),
            _ => new,
        }
    }
}

impl Cache {
    /// The part of `new` that is worth publishing: all of it where the cache
    /// holds no value snapshot, else the entries whose value differs from the
    /// cached entry of the same key. The cache itself is left as it is.
    pub fn get_modified(&self, new: &MQTTMsgList) -> (result: MQTTMsgList)
        ensures
            msgs_view(result@) == self@.diff(msgs_view(new@)),
            !(self@ is ValueSnapshot) ==> msgs_view(result@) == msgs_view(new@),
    {
        match self {
            Cache::ValueSnapshot(old) => {
                let ghost old_view = msgs_view(old@);
                let ghost new_view = msgs_view(new@);
                let mut result: MQTTMsgList = Vec::new();
                let mut i: usize = 0;
                proof {
                    reveal_with_fuel(Seq::filter, 1);
                    assert(new_view.take(0) =~= Seq::<MsgView>::empty());
                    assert(msgs_view(result@) =~= Seq::<MsgView>::empty());
                }
                while i < new.len()
                    invariant
                        i <= new.len(),
                        old_view == msgs_view(old@),
                        new_view == msgs_view(new@),
                        msgs_view(result@) == new_view.take(i as int).filter(changed_in(old_view)),
                    decreases new.len() - i,
                {
                    let n = &new[i];
                    let found = find_baseline(old, &n.topic);
                    let keep = match found {
                        Some(k) => n.payload != old[k].payload,
                        None => false,
                    };
                    proof {
                        let prefix = new_view.take(i as int);
                        let next = new_view.take(i + 1);
                        assert(next.drop_last() =~= prefix);
                        assert(next.last() == n@);
                        assert(keep == changed(old_view, n@)) by {
                            match found {
                                Some(k) => {
                                    assert(is_baseline_at(old_view, n@.topic, k as int));
                                    if changed(old_view, n@) {
                                        let w = choose|w: int| #[trigger]
                                            is_baseline_at(old_view, n@.topic, w)
                                                && old_view[w].payload != n@.payload;
                                        assert(w == k);
                                    }
                                },
                                None => {
                                    if changed(old_view, n@) {
                                        let w = choose|w: int| #[trigger]
                                            is_baseline_at(old_view, n@.topic, w)
                                                && old_view[w].payload != n@.payload;
                                        assert(old_view[w].topic == n@.topic);
                                    }
                                },
                            }
                        }
                        reveal_with_fuel(Seq::filter, 1);
                    }
                    if keep {
                        let ghost before = result@;
                        result.push(n.clone());
                        proof {
                            assert(msgs_view(result@) =~= msgs_view(before).push(n@));
                        }
                    }
                    i += 1;
                }
                proof {
                    assert(new_view.take(new_view.len() as int) =~= new_view);
                }
                result
            },
            _ => clone_msgs(new),
        }
    }

    /// Tells whether nothing was ever cached.
    pub fn is_none(&self) -> (empty: bool)
        ensures
            empty == (self@ == CacheView::Empty),
    {
        match self {
            Cache::Empty => true,
            _ => false,
        }
    }
}

/// Finds the first entry of `old` under the key `topic`.
pub fn find_baseline(old: &MQTTMsgList, topic: &String) -> (found: Option<usize>)
    ensures
        match found {
            Some(k) => is_baseline_at(msgs_view(old@), topic@, k as int),
            None => !has_topic(msgs_view(old@), topic@),
        },
{
    let mut k: usize = 0;
    while k < old.len()
        invariant
            k <= old.len(),
            forall|j: int| 0 <= j < k ==> (#[trigger] msgs_view(old@)[j]).topic != topic@,
        decreases old.len() - k,
    {
        if old[k].topic == *topic {
            return Some(k);
        }
        k += 1;
    }
    None
}

/// The value that an entry under `topic` is compared with: that of the first
/// entry of `old` under that key.
pub open spec fn baseline_payload(old: Seq<MsgView>, topic: Seq<char>) -> Seq<char> {
    old[choose|i: int| is_baseline_at(old, topic, i)].payload
}

/// The entry differs in value from the entry of `old` that has its key.
pub open spec fn differs_from_baseline(old: Seq<MsgView>) -> spec_fn(MsgView) -> bool {
    |n: MsgView| baseline_payload(old, n.topic) != n.payload
}

/// No key occurs twice in `s`.
pub open spec fn distinct_topics(s: Seq<MsgView>) -> bool {
    forall|i: int, j: int|
        0 <= i < j < s.len() ==> (#[trigger] s[i]).topic != (#[trigger] s[j]).topic
}

/// A key that `old` knows has exactly one baseline place.
pub proof fn lemma_baseline_exists(old: Seq<MsgView>, topic: Seq<char>)
    requires
        has_topic(old, topic),
    ensures
        exists|i: int| is_baseline_at(old, topic, i),
        forall|i: int, j: int|
            is_baseline_at(old, topic, i) && is_baseline_at(old, topic, j) ==> i == j,
    decreases old.len(),
{
    let w = choose|i: int| 0 <= i < old.len() && (#[trigger] old[i]).topic == topic;
    if exists|j: int| 0 <= j < w && (#[trigger] old[j]).topic == topic {
        let front = old.take(w);
        let j = choose|j: int| 0 <= j < w && (#[trigger] old[j]).topic == topic;
        assert(front[j].topic == topic);
        lemma_baseline_exists(front, topic);
        let b = choose|i: int| is_baseline_at(front, topic, i);
        assert(forall|k: int| 0 <= k < b ==> (#[trigger] old[k]) == front[k]);
        assert(is_baseline_at(old, topic, b));
    } else {
        assert(is_baseline_at(old, topic, w));
    }
    assert forall|i: int, j: int|
        is_baseline_at(old, topic, i) && is_baseline_at(old, topic, j) implies i == j by {
        if i < j {
            assert(old[i].topic != topic);
        }
        if j < i {
            assert(old[j].topic != topic);
        }
    }
}

/// Two predicates that agree on every item of a sequence keep the same items.
pub proof fn lemma_filter_agree<A>(s: Seq<A>, p: spec_fn(A) -> bool, q: spec_fn(A) -> bool)
    requires
        forall|i: int| 0 <= i < s.len() ==> p(#[trigger] s[i]) == q(s[i]),
    ensures
        s.filter(p) == s.filter(q),
    decreases s.len(),
{
    reveal_with_fuel(Seq::filter, 1);
    if s.len() > 0 {
        let front = s.drop_last();
        assert(forall|i: int| 0 <= i < front.len() ==> #[trigger] front[i] == s[i]);
        lemma_filter_agree(front, p, q);
        assert(p(s[s.len() - 1]) == q(s[s.len() - 1]));
    }
}

/// A predicate that no item of a sequence meets keeps nothing.
pub proof fn lemma_filter_none<A>(s: Seq<A>, p: spec_fn(A) -> bool)
    requires
        forall|i: int| 0 <= i < s.len() ==> !p(#[trigger] s[i]),
    ensures
        s.filter(p) == Seq::<A>::empty(),
    decreases s.len(),
{
    reveal_with_fuel(Seq::filter, 1);
    if s.len() > 0 {
        let front = s.drop_last();
        assert(forall|i: int| 0 <= i < front.len() ==> #[trigger] front[i] == s[i]);
        lemma_filter_none(front, p);
        assert(!p(s[s.len() - 1]));
    }
}

/// Against an empty cache the whole snapshot is published, in its order.
pub proof fn lemma_first_poll_publishes_all(new: Seq<MsgView>)
    ensures
        CacheView::Empty.diff(new) == new,
{
}

/// Where the cached snapshot knows every key of the fresh one, exactly the
/// entries whose value differs from the cached entry of the same key are
/// published, in the order of the fresh snapshot.
pub proof fn lemma_known_keys_publish_differences(old: Seq<MsgView>, new: Seq<MsgView>)
    requires
        forall|j: int| 0 <= j < new.len() ==> has_topic(old, (#[trigger] new[j]).topic),
    ensures
        CacheView::ValueSnapshot(old).diff(new) == new.filter(differs_from_baseline(old)),
{
    assert forall|j: int| 0 <= j < new.len() implies changed_in(old)(#[trigger] new[j])
        == differs_from_baseline(old)(new[j]) by {
        let n = new[j];
        lemma_baseline_exists(old, n.topic);
        let b = choose|i: int| is_baseline_at(old, n.topic, i);
        if changed(old, n) {
            let w = choose|w: int| #[trigger]
                is_baseline_at(old, n.topic, w) && old[w].payload != n.payload;
            assert(w == b);
        }
        if baseline_payload(old, n.topic) != n.payload {
            assert(is_baseline_at(old, n.topic, b) && old[b].payload != n.payload);
        }
    }
    lemma_filter_agree(new, changed_in(old), differs_from_baseline(old));
}

/// The diff is a function of the cache and the fresh snapshot: two runs on the
/// same pair give the same messages.
pub proof fn lemma_diff_is_repeatable(
    cache: Cache,
    new: Seq<MQTTMsg>,
    first: Seq<MQTTMsg>,
    second: Seq<MQTTMsg>,
)
    requires
        msgs_view(first) == cache@.diff(msgs_view(new)),
        msgs_view(second) == cache@.diff(msgs_view(new)),
    ensures
        msgs_view(first) == msgs_view(second),
{
}

/// Entries of `s` that share a key share their value.
pub open spec fn keys_agree(s: Seq<MsgView>) -> bool {
    forall|i: int, j: int|
        0 <= i < s.len() && 0 <= j < s.len() && (#[trigger] s[i]).topic == (#[trigger] s[j]).topic
            ==> s[i].payload == s[j].payload
}

/// A snapshot without repeated keys is one whose keys agree.
pub proof fn lemma_distinct_topics_agree(s: Seq<MsgView>)
    requires
        distinct_topics(s),
    ensures
        keys_agree(s),
{
    assert forall|i: int, j: int|
        0 <= i < s.len() && 0 <= j < s.len() && (#[trigger] s[i]).topic == (#[trigger] s[j]).topic
        implies s[i].payload == s[j].payload by {
        if i < j {
            assert(s[i].topic != s[j].topic);
        }
        if j < i {
            assert(s[j].topic != s[i].topic);
        }
    }
}

/// A snapshot adds nothing to itself: polling the same values again
/// publishes nothing. A key may be repeated in the snapshot, as long as it
/// carries the same value each time.
pub proof fn lemma_same_snapshot_publishes_nothing(s: Seq<MsgView>)
    requires
        keys_agree(s),
    ensures
        CacheView::ValueSnapshot(s).diff(s) == Seq::<MsgView>::empty(),
{
    assert forall|j: int| 0 <= j < s.len() implies !changed_in(s)(#[trigger] s[j]) by {
        if changed(s, s[j]) {
            let w = choose|w: int| #[trigger]
                is_baseline_at(s, s[j].topic, w) && s[w].payload != s[j].payload;
            assert(s[w].topic == s[j].topic);
            assert(s[w].payload == s[j].payload);
        }
    }
    lemma_filter_none(s, changed_in(s));
}

/// An entry whose key the cached snapshot does not know is never published.
pub proof fn lemma_unknown_key_is_dropped(old: Seq<MsgView>, n: MsgView)
    requires
        !has_topic(old, n.topic),
    ensures
        !changed(old, n),
{
    if changed(old, n) {
        let w = choose|w: int| #[trigger]
            is_baseline_at(old, n.topic, w) && old[w].payload != n.payload;
        assert(old[w].topic == n.topic);
    }
}

} // verus!
