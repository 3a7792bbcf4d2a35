//! What holds of the messages that the device records flatten into: messages
//! of one record that share a topic share their payload, so that a record
//! adds nothing to itself.

use crate::cache::{keys_agree, lemma_same_snapshot_publishes_nothing, CacheView};
use crate::message::MsgView;
use crate::mqttify::{
    BranchEvents, BranchHardware, BranchInfo, BranchSettings, BranchStatus, PDUEvents, PDUHardware,
    PDUInfo, PDUSettings, PDUStatus, ReceptacleEvents, ReceptacleHardware, ReceptacleInfo,
    ReceptacleSettings, ReceptacleStatus, ToMQTT,
};
use vstd::prelude::*;

verus! {

/// The text starts with the head.
pub open spec fn starts_with(text: Seq<char>, head: Seq<char>) -> bool {
    text.len() >= head.len() && text.take(head.len() as int) == head
}

/// The topic of every message starts with the head.
pub open spec fn all_under(msgs: Seq<MsgView>, head: Seq<char>) -> bool {
    forall|i: int| 0 <= i < msgs.len() ==> starts_with((#[trigger] msgs[i]).topic, head)
}

/// No message of the one list has the topic of a message of the other.
pub open spec fn no_shared_topic(a: Seq<MsgView>, b: Seq<MsgView>) -> bool {
    forall|i: int, j: int|
        0 <= i < a.len() && 0 <= j < b.len() ==> (#[trigger] a[i]).topic != (#[trigger] b[j]).topic
}

/// Two texts that start alike and are equal end alike.
pub proof fn lemma_same_head_same_tail(head: Seq<char>, a: Seq<char>, b: Seq<char>)
    requires
        head + a == head + b,
    ensures
        a == b,
{
    assert(a =~= (head + a).skip(head.len() as int));
    assert(b =~= (head + b).skip(head.len() as int));
}

/// Messages under two heads that differ at some place share no topic.
pub proof fn lemma_heads_apart(
    a: Seq<MsgView>,
    b: Seq<MsgView>,
    head_a: Seq<char>,
    head_b: Seq<char>,
    k: int,
)
    requires
        all_under(a, head_a),
        all_under(b, head_b),
        0 <= k < head_a.len(),
        k < head_b.len(),
        head_a[k] != head_b[k],
    ensures
        no_shared_topic(a, b),
{
    assert forall|i: int, j: int| 0 <= i < a.len() && 0 <= j < b.len() implies (#[trigger] a[i]).topic
        != (#[trigger] b[j]).topic by {
        assert(a[i].topic.take(head_a.len() as int)[k] == head_a[k]);
        assert(b[j].topic.take(head_b.len() as int)[k] == head_b[k]);
    }
}

/// Two lists whose keys agree and that share no topic make a list whose keys
/// agree.
pub proof fn lemma_keys_agree_joined(a: Seq<MsgView>, b: Seq<MsgView>)
    requires
        keys_agree(a),
        keys_agree(b),
        no_shared_topic(a, b),
    ensures
        keys_agree(a + b),
{
    let all = a + b;
    assert forall|i: int, j: int|
        0 <= i < all.len() && 0 <= j < all.len() && (#[trigger] all[i]).topic == (#[trigger] all[j]).topic
        implies all[i].payload == all[j].payload by {
        if i < a.len() && j < a.len() {
            assert(a[i].topic == a[j].topic);
        } else if i >= a.len() && j >= a.len() {
            assert(b[i - a.len()].topic == b[j - a.len()].topic);
        } else if i < a.len() {
            assert(a[i].topic != b[j - a.len()].topic);
        } else {
            assert(a[j].topic != b[i - a.len()].topic);
        }
    }
}

/// A list that shares no topic with either of two lists shares none with
/// the two joined.
pub proof fn lemma_no_shared_topic_joined(a: Seq<MsgView>, b: Seq<MsgView>, c: Seq<MsgView>)
    requires
        no_shared_topic(a, c),
        no_shared_topic(b, c),
    ensures
        no_shared_topic(a + b, c),
{
    let all = a + b;
    assert forall|i: int, j: int| 0 <= i < all.len() && 0 <= j < c.len() implies (#[trigger] all[i]).topic
        != (#[trigger] c[j]).topic by {
        if i < a.len() {
            assert(a[i].topic != c[j].topic);
        } else {
            assert(b[i - a.len()].topic != c[j].topic);
        }
    }
}

/// The messages of this record stand under the prefix, and those that share
/// a topic share their payload.
pub proof fn lemma_pdu_hardware_keys_agree(record: PDUHardware, prefix: Seq<char>)
    ensures
        keys_agree(record.mqtt_view(prefix)),
        all_under(record.mqtt_view(prefix), prefix),
{
    let v = record.mqtt_view(prefix);
    let names: Seq<Seq<char>> = seq![
        "/pem-model"@,
        "/fw-version"@,
        "/serial-number"@,
        "/wiring-type"@,
        "/rated-input-voltage"@,
        "/rated-input-current"@,
        "/rated-input-line-frequency"@,
    ];
    reveal_strlit("/pem-model");
    reveal_strlit("/fw-version");
    reveal_strlit("/serial-number");
    reveal_strlit("/wiring-type");
    reveal_strlit("/rated-input-voltage");
    reveal_strlit("/rated-input-current");
    reveal_strlit("/rated-input-line-frequency");
    assert(v.len() == 7);
    assert forall|i: int| 0 <= i < v.len() implies (#[trigger] v[i]).topic == prefix + names[i] by {}
    assert forall|i: int| 0 <= i < v.len() implies starts_with((#[trigger] v[i]).topic, prefix) by {
        assert((prefix + names[i]).take(prefix.len() as int) =~= prefix);
    }
    assert forall|i: int, j: int|
        0 <= i < v.len() && 0 <= j < v.len() && (#[trigger] v[i]).topic == (#[trigger] v[j]).topic
        implies v[i].payload == v[j].payload by {
        lemma_same_head_same_tail(prefix, names[i], names[j]);
        assert(names[i].len() == names[j].len());
        assert(names[i].len() > 13 ==> names[i][13] == names[j][13]);
    }
}

/// The messages of this record stand under the prefix, and those that share
/// a topic share their payload.
pub proof fn lemma_pdu_settings_keys_agree(record: PDUSettings, prefix: Seq<char>)
    ensures
        keys_agree(record.mqtt_view(prefix)),
        all_under(record.mqtt_view(prefix), prefix),
{
    let v = record.mqtt_view(prefix);
    let names: Seq<Seq<char>> = seq![
        "/label"@,
        "/asset-tag-1"@,
        "/asset-tag-2"@,
        "/n-over-current-alarm-threshold"@,
        "/n-over-current-warning-threshold"@,
        "/l1-low-current-alarm-threshold"@,
        "/l1-over-current-alarm-threshold"@,
        "/l1-over-current-warning-threshold"@,
        "/l2-low-current-alarm-threshold"@,
        "/l2-over-current-alarm-threshold"@,
        "/l2-over-current-warning-threshold"@,
        "/l3-low-current-alarm-threshold"@,
        "/l3-over-current-alarm-threshold"@,
        "/l3-over-current-warning-threshold"@,
    ];
    reveal_strlit("/label");
    reveal_strlit("/asset-tag-1");
    reveal_strlit("/asset-tag-2");
    reveal_strlit("/n-over-current-alarm-threshold");
    reveal_strlit("/n-over-current-warning-threshold");
    reveal_strlit("/l1-low-current-alarm-threshold");
    reveal_strlit("/l1-over-current-alarm-threshold");
    reveal_strlit("/l1-over-current-warning-threshold");
    reveal_strlit("/l2-low-current-alarm-threshold");
    reveal_strlit("/l2-over-current-alarm-threshold");
    reveal_strlit("/l2-over-current-warning-threshold");
    reveal_strlit("/l3-low-current-alarm-threshold");
    reveal_strlit("/l3-over-current-alarm-threshold");
    reveal_strlit("/l3-over-current-warning-threshold");
    assert(v.len() == 14);
    assert forall|i: int| 0 <= i < v.len() implies (#[trigger] v[i]).topic == prefix + names[i] by {}
    assert forall|i: int| 0 <= i < v.len() implies starts_with((#[trigger] v[i]).topic, prefix) by {
        assert((prefix + names[i]).take(prefix.len() as int) =~= prefix);
    }
    assert forall|i: int, j: int|
        0 <= i < v.len() && 0 <= j < v.len() && (#[trigger] v[i]).topic == (#[trigger] v[j]).topic
        implies v[i].payload == v[j].payload by {
        lemma_same_head_same_tail(prefix, names[i], names[j]);
        assert(names[i].len() == names[j].len());
        assert(names[i][2] == names[j][2]);
        assert(names[i].len() > 11 ==> names[i][11] == names[j][11]);
    }
}

/// The messages of this record stand under the prefix, and those that share
/// a topic share their payload.
pub proof fn lemma_pdu_events_keys_agree(record: PDUEvents, prefix: Seq<char>)
    ensures
        keys_agree(record.mqtt_view(prefix)),
        all_under(record.mqtt_view(prefix), prefix),
{
    let v = record.mqtt_view(prefix);
    let names: Seq<Seq<char>> = seq![
        "/l1-low-voltage"@,
        "/l2-low-voltage"@,
        "/l3-low-voltage"@,
        "/l1-over-current"@,
        "/l2-over-current"@,
        "/l3-over-current"@,
        "/n-over-current"@,
        "/l1-low-current"@,
        "/l2-low-current"@,
        "/l3-low-current"@,
        "/failure"@,
        "/communication-fail"@,
    ];
    reveal_strlit("/l1-low-voltage");
    reveal_strlit("/l2-low-voltage");
    reveal_strlit("/l3-low-voltage");
    reveal_strlit("/l1-over-current");
    reveal_strlit("/l2-over-current");
    reveal_strlit("/l3-over-current");
    reveal_strlit("/n-over-current");
    reveal_strlit("/l1-low-current");
    reveal_strlit("/l2-low-current");
    reveal_strlit("/l3-low-current");
    reveal_strlit("/failure");
    reveal_strlit("/communication-fail");
    assert(v.len() == 12);
    assert forall|i: int| 0 <= i < v.len() implies (#[trigger] v[i]).topic == prefix + names[i] by {}
    assert forall|i: int| 0 <= i < v.len() implies starts_with((#[trigger] v[i]).topic, prefix) by {
        assert((prefix + names[i]).take(prefix.len() as int) =~= prefix);
    }
    assert forall|i: int, j: int|
        0 <= i < v.len() && 0 <= j < v.len() && (#[trigger] v[i]).topic == (#[trigger] v[j]).topic
        implies v[i].payload == v[j].payload by {
        lemma_same_head_same_tail(prefix, names[i], names[j]);
        assert(names[i].len() == names[j].len());
        assert(names[i][2] == names[j][2]);
        assert(names[i].len() > 8 ==> names[i][8] == names[j][8]);
    }
}

/// The messages of this record stand under the prefix, and those that share
/// a topic share their payload.
pub proof fn lemma_pdu_status_keys_agree(record: PDUStatus, prefix: Seq<char>)
    ensures
        keys_agree(record.mqtt_view(prefix)),
        all_under(record.mqtt_view(prefix), prefix),
{
    let v = record.mqtt_view(prefix);
    let names: Seq<Seq<char>> = seq![
        "/accumulated-energy"@,
        "/input-power"@,
        "/l1-voltage"@,
        "/l2-voltage"@,
        "/l3-voltage"@,
        "/l1-current"@,
        "/l2-current"@,
        "/l2-current"@,
        "/n-current"@,
        "/l1-current-available-to-alarm"@,
        "/l2-current-available-to-alarm"@,
        "/l3-current-available-to-alarm"@,
        "/l1-current-utilization"@,
        "/l2-current-utilization"@,
        "/l3-current-utilization"@,
        "/line-frequency"@,
    ];
    reveal_strlit("/accumulated-energy");
    reveal_strlit("/input-power");
    reveal_strlit("/l1-voltage");
    reveal_strlit("/l2-voltage");
    reveal_strlit("/l3-voltage");
    reveal_strlit("/l1-current");
    reveal_strlit("/l2-current");
    reveal_strlit("/n-current");
    reveal_strlit("/l1-current-available-to-alarm");
    reveal_strlit("/l2-current-available-to-alarm");
    reveal_strlit("/l3-current-available-to-alarm");
    reveal_strlit("/l1-current-utilization");
    reveal_strlit("/l2-current-utilization");
    reveal_strlit("/l3-current-utilization");
    reveal_strlit("/line-frequency");
    assert(v.len() == 16);
    assert forall|i: int| 0 <= i < v.len() implies (#[trigger] v[i]).topic == prefix + names[i] by {}
    assert forall|i: int| 0 <= i < v.len() implies starts_with((#[trigger] v[i]).topic, prefix) by {
        assert((prefix + names[i]).take(prefix.len() as int) =~= prefix);
    }
    assert forall|i: int, j: int|
        0 <= i < v.len() && 0 <= j < v.len() && (#[trigger] v[i]).topic == (#[trigger] v[j]).topic
        implies v[i].payload == v[j].payload by {
        lemma_same_head_same_tail(prefix, names[i], names[j]);
        assert(names[i].len() == names[j].len());
        assert(names[i][2] == names[j][2]);
        assert(names[i][4] == names[j][4]);
    }
}

/// The messages of this record stand under the prefix, and those that share
/// a topic share their payload.
pub proof fn lemma_branch_hardware_keys_agree(record: BranchHardware, prefix: Seq<char>)
    ensures
        keys_agree(record.mqtt_view(prefix)),
        all_under(record.mqtt_view(prefix), prefix),
{
    let v = record.mqtt_view(prefix);
    let names: Seq<Seq<char>> = seq![
        "/brm-model"@,
        "/fw-version"@,
        "/serial-number"@,
        "/receptacle-type"@,
        "/capabilities"@,
        "/line-source"@,
        "/rated-line-voltage"@,
        "/rated-line-current"@,
        "/rated-line-frequency"@,
    ];
    reveal_strlit("/brm-model");
    reveal_strlit("/fw-version");
    reveal_strlit("/serial-number");
    reveal_strlit("/receptacle-type");
    reveal_strlit("/capabilities");
    reveal_strlit("/line-source");
    reveal_strlit("/rated-line-voltage");
    reveal_strlit("/rated-line-current");
    reveal_strlit("/rated-line-frequency");
    assert(v.len() == 9);
    assert forall|i: int| 0 <= i < v.len() implies (#[trigger] v[i]).topic == prefix + names[i] by {}
    assert forall|i: int| 0 <= i < v.len() implies starts_with((#[trigger] v[i]).topic, prefix) by {
        assert((prefix + names[i]).take(prefix.len() as int) =~= prefix);
    }
    assert forall|i: int, j: int|
        0 <= i < v.len() && 0 <= j < v.len() && (#[trigger] v[i]).topic == (#[trigger] v[j]).topic
        implies v[i].payload == v[j].payload by {
        lemma_same_head_same_tail(prefix, names[i], names[j]);
        assert(names[i].len() == names[j].len());
        assert(names[i].len() > 12 ==> names[i][12] == names[j][12]);
    }
}

/// The messages of this record stand under the prefix, and those that share
/// a topic share their payload.
pub proof fn lemma_branch_settings_keys_agree(record: BranchSettings, prefix: Seq<char>)
    ensures
        keys_agree(record.mqtt_view(prefix)),
        all_under(record.mqtt_view(prefix), prefix),
{
    let v = record.mqtt_view(prefix);
    let names: Seq<Seq<char>> = seq![
        "/label"@,
        "/asset-tag-1"@,
        "/asset-tag-2"@,
        "/over-current-alarm-threshold"@,
        "/over-current-warning-threshold"@,
        "/low-current-alarm-threshold"@,
    ];
    reveal_strlit("/label");
    reveal_strlit("/asset-tag-1");
    reveal_strlit("/asset-tag-2");
    reveal_strlit("/over-current-alarm-threshold");
    reveal_strlit("/over-current-warning-threshold");
    reveal_strlit("/low-current-alarm-threshold");
    assert(v.len() == 6);
    assert forall|i: int| 0 <= i < v.len() implies (#[trigger] v[i]).topic == prefix + names[i] by {}
    assert forall|i: int| 0 <= i < v.len() implies starts_with((#[trigger] v[i]).topic, prefix) by {
        assert((prefix + names[i]).take(prefix.len() as int) =~= prefix);
    }
    assert forall|i: int, j: int|
        0 <= i < v.len() && 0 <= j < v.len() && (#[trigger] v[i]).topic == (#[trigger] v[j]).topic
        implies v[i].payload == v[j].payload by {
        lemma_same_head_same_tail(prefix, names[i], names[j]);
        assert(names[i].len() == names[j].len());
        assert(names[i].len() > 11 ==> names[i][11] == names[j][11]);
    }
}

/// The messages of this record stand under the prefix, and those that share
/// a topic share their payload.
pub proof fn lemma_branch_events_keys_agree(record: BranchEvents, prefix: Seq<char>)
    ensures
        keys_agree(record.mqtt_view(prefix)),
        all_under(record.mqtt_view(prefix), prefix),
{
    let v = record.mqtt_view(prefix);
    let names: Seq<Seq<char>> = seq![
        "/low-voltage"@,
        "/over-current"@,
        "/low-current"@,
        "/failure"@,
        "/breaker-open"@,
    ];
    reveal_strlit("/low-voltage");
    reveal_strlit("/over-current");
    reveal_strlit("/low-current");
    reveal_strlit("/failure");
    reveal_strlit("/breaker-open");
    assert(v.len() == 5);
    assert forall|i: int| 0 <= i < v.len() implies (#[trigger] v[i]).topic == prefix + names[i] by {}
    assert forall|i: int| 0 <= i < v.len() implies starts_with((#[trigger] v[i]).topic, prefix) by {
        assert((prefix + names[i]).take(prefix.len() as int) =~= prefix);
    }
    assert forall|i: int, j: int|
        0 <= i < v.len() && 0 <= j < v.len() && (#[trigger] v[i]).topic == (#[trigger] v[j]).topic
        implies v[i].payload == v[j].payload by {
        lemma_same_head_same_tail(prefix, names[i], names[j]);
        assert(names[i].len() == names[j].len());
        assert(names[i][5] == names[j][5]);
    }
}

/// The messages of this record stand under the prefix, and those that share
/// a topic share their payload.
pub proof fn lemma_branch_status_keys_agree(record: BranchStatus, prefix: Seq<char>)
    ensures
        keys_agree(record.mqtt_view(prefix)),
        all_under(record.mqtt_view(prefix), prefix),
{
    let v = record.mqtt_view(prefix);
    let names: Seq<Seq<char>> = seq![
        "/accumulated-energy"@,
        "/voltage"@,
        "/current"@,
        "/current-available-to-alarm"@,
        "/current-utilization"@,
        "/power"@,
        "/apparent-power"@,
        "/power-factor"@,
    ];
    reveal_strlit("/accumulated-energy");
    reveal_strlit("/voltage");
    reveal_strlit("/current");
    reveal_strlit("/current-available-to-alarm");
    reveal_strlit("/current-utilization");
    reveal_strlit("/power");
    reveal_strlit("/apparent-power");
    reveal_strlit("/power-factor");
    assert(v.len() == 8);
    assert forall|i: int| 0 <= i < v.len() implies (#[trigger] v[i]).topic == prefix + names[i] by {}
    assert forall|i: int| 0 <= i < v.len() implies starts_with((#[trigger] v[i]).topic, prefix) by {
        assert((prefix + names[i]).take(prefix.len() as int) =~= prefix);
    }
    assert forall|i: int, j: int|
        0 <= i < v.len() && 0 <= j < v.len() && (#[trigger] v[i]).topic == (#[trigger] v[j]).topic
        implies v[i].payload == v[j].payload by {
        lemma_same_head_same_tail(prefix, names[i], names[j]);
        assert(names[i].len() == names[j].len());
        assert(names[i][1] == names[j][1]);
    }
}

/// The messages of this record stand under the prefix, and those that share
/// a topic share their payload.
pub proof fn lemma_receptacle_hardware_keys_agree(record: ReceptacleHardware, prefix: Seq<char>)
    ensures
        keys_agree(record.mqtt_view(prefix)),
        all_under(record.mqtt_view(prefix), prefix),
{
    let v = record.mqtt_view(prefix);
    let names: Seq<Seq<char>> = seq![
        "/receptacle-type"@,
        "/line-source"@,
        "/capabilities"@,
    ];
    reveal_strlit("/receptacle-type");
    reveal_strlit("/line-source");
    reveal_strlit("/capabilities");
    assert(v.len() == 3);
    assert forall|i: int| 0 <= i < v.len() implies (#[trigger] v[i]).topic == prefix + names[i] by {}
    assert forall|i: int| 0 <= i < v.len() implies starts_with((#[trigger] v[i]).topic, prefix) by {
        assert((prefix + names[i]).take(prefix.len() as int) =~= prefix);
    }
    assert forall|i: int, j: int|
        0 <= i < v.len() && 0 <= j < v.len() && (#[trigger] v[i]).topic == (#[trigger] v[j]).topic
        implies v[i].payload == v[j].payload by {
        lemma_same_head_same_tail(prefix, names[i], names[j]);
        assert(names[i].len() == names[j].len());
    }
}

/// The messages of this record stand under the prefix, and those that share
/// a topic share their payload.
pub proof fn lemma_receptacle_settings_keys_agree(record: ReceptacleSettings, prefix: Seq<char>)
    ensures
        keys_agree(record.mqtt_view(prefix)),
        all_under(record.mqtt_view(prefix), prefix),
{
    let v = record.mqtt_view(prefix);
    let names: Seq<Seq<char>> = seq![
        "/label"@,
        "/asset-tag-1"@,
        "/asset-tag-2"@,
        "/over-current-alarm-threshold"@,
        "/over-current-warning-threshold"@,
        "/low-current-alarm-threshold"@,
        "/power-state"@,
        "/power-control"@,
        "/power-control-locked"@,
        "/power-on-delay"@,
    ];
    reveal_strlit("/label");
    reveal_strlit("/asset-tag-1");
    reveal_strlit("/asset-tag-2");
    reveal_strlit("/over-current-alarm-threshold");
    reveal_strlit("/over-current-warning-threshold");
    reveal_strlit("/low-current-alarm-threshold");
    reveal_strlit("/power-state");
    reveal_strlit("/power-control");
    reveal_strlit("/power-control-locked");
    reveal_strlit("/power-on-delay");
    assert(v.len() == 10);
    assert forall|i: int| 0 <= i < v.len() implies (#[trigger] v[i]).topic == prefix + names[i] by {}
    assert forall|i: int| 0 <= i < v.len() implies starts_with((#[trigger] v[i]).topic, prefix) by {
        assert((prefix + names[i]).take(prefix.len() as int) =~= prefix);
    }
    assert forall|i: int, j: int|
        0 <= i < v.len() && 0 <= j < v.len() && (#[trigger] v[i]).topic == (#[trigger] v[j]).topic
        implies v[i].payload == v[j].payload by {
        lemma_same_head_same_tail(prefix, names[i], names[j]);
        assert(names[i].len() == names[j].len());
        assert(names[i].len() > 11 ==> names[i][11] == names[j][11]);
    }
}

/// The messages of this record stand under the prefix, and those that share
/// a topic share their payload.
pub proof fn lemma_receptacle_events_keys_agree(record: ReceptacleEvents, prefix: Seq<char>)
    ensures
        keys_agree(record.mqtt_view(prefix)),
        all_under(record.mqtt_view(prefix), prefix),
{
    let v = record.mqtt_view(prefix);
    let names: Seq<Seq<char>> = seq![
        "/over-current"@,
        "/low-current"@,
    ];
    reveal_strlit("/over-current");
    reveal_strlit("/low-current");
    assert(v.len() == 2);
    assert forall|i: int| 0 <= i < v.len() implies (#[trigger] v[i]).topic == prefix + names[i] by {}
    assert forall|i: int| 0 <= i < v.len() implies starts_with((#[trigger] v[i]).topic, prefix) by {
        assert((prefix + names[i]).take(prefix.len() as int) =~= prefix);
    }
    assert forall|i: int, j: int|
        0 <= i < v.len() && 0 <= j < v.len() && (#[trigger] v[i]).topic == (#[trigger] v[j]).topic
        implies v[i].payload == v[j].payload by {
        lemma_same_head_same_tail(prefix, names[i], names[j]);
        assert(names[i].len() == names[j].len());
    }
}

/// The messages of this record stand under the prefix, and those that share
/// a topic share their payload.
pub proof fn lemma_receptacle_status_keys_agree(record: ReceptacleStatus, prefix: Seq<char>)
    ensures
        keys_agree(record.mqtt_view(prefix)),
        all_under(record.mqtt_view(prefix), prefix),
{
    let v = record.mqtt_view(prefix);
    let names: Seq<Seq<char>> = seq![
        "/accumulated-energy"@,
        "/voltage"@,
        "/current"@,
        "/current-available-to-alarm"@,
        "/current-utilization"@,
        "/power"@,
        "/apparent-power"@,
        "/power-factor"@,
        "/current-crest-factor"@,
    ];
    reveal_strlit("/accumulated-energy");
    reveal_strlit("/voltage");
    reveal_strlit("/current");
    reveal_strlit("/current-available-to-alarm");
    reveal_strlit("/current-utilization");
    reveal_strlit("/power");
    reveal_strlit("/apparent-power");
    reveal_strlit("/power-factor");
    reveal_strlit("/current-crest-factor");
    assert(v.len() == 9);
    assert forall|i: int| 0 <= i < v.len() implies (#[trigger] v[i]).topic == prefix + names[i] by {}
    assert forall|i: int| 0 <= i < v.len() implies starts_with((#[trigger] v[i]).topic, prefix) by {
        assert((prefix + names[i]).take(prefix.len() as int) =~= prefix);
    }
    assert forall|i: int, j: int|
        0 <= i < v.len() && 0 <= j < v.len() && (#[trigger] v[i]).topic == (#[trigger] v[j]).topic
        implies v[i].payload == v[j].payload by {
        lemma_same_head_same_tail(prefix, names[i], names[j]);
        assert(names[i].len() == names[j].len());
        assert(names[i][1] == names[j][1]);
    }
}

/// The messages of this record that share a topic share their payload, also
/// across its four parts.
pub proof fn lemma_pdu_info_keys_agree(record: PDUInfo, prefix: Seq<char>)
    ensures
        keys_agree(record.mqtt_view(prefix)),
{
    reveal_strlit("/status");
    reveal_strlit("/events");
    reveal_strlit("/settings");
    reveal_strlit("/hardware");
    let status = record.status.mqtt_view(prefix + "/status"@);
    lemma_pdu_status_keys_agree(record.status, prefix + "/status"@);
    let events = record.events.mqtt_view(prefix + "/events"@);
    lemma_pdu_events_keys_agree(record.events, prefix + "/events"@);
    let settings = record.settings.mqtt_view(prefix + "/settings"@);
    lemma_pdu_settings_keys_agree(record.settings, prefix + "/settings"@);
    let hardware = record.hardware.mqtt_view(prefix + "/hardware"@);
    lemma_pdu_hardware_keys_agree(record.hardware, prefix + "/hardware"@);
    lemma_heads_apart(
        status,
        events,
        prefix + "/status"@,
        prefix + "/events"@,
        (prefix.len() + 1) as int,
    );
    lemma_heads_apart(
        status,
        settings,
        prefix + "/status"@,
        prefix + "/settings"@,
        (prefix.len() + 2) as int,
    );
    lemma_heads_apart(
        status,
        hardware,
        prefix + "/status"@,
        prefix + "/hardware"@,
        (prefix.len() + 1) as int,
    );
    lemma_heads_apart(
        events,
        settings,
        prefix + "/events"@,
        prefix + "/settings"@,
        (prefix.len() + 1) as int,
    );
    lemma_heads_apart(
        events,
        hardware,
        prefix + "/events"@,
        prefix + "/hardware"@,
        (prefix.len() + 1) as int,
    );
    lemma_heads_apart(
        settings,
        hardware,
        prefix + "/settings"@,
        prefix + "/hardware"@,
        (prefix.len() + 1) as int,
    );
    lemma_keys_agree_joined(status, events);
    lemma_no_shared_topic_joined(status, events, settings);
    lemma_keys_agree_joined(status + events, settings);
    lemma_no_shared_topic_joined(status, events, hardware);
    lemma_no_shared_topic_joined(status + events, settings, hardware);
    lemma_keys_agree_joined(status + events + settings, hardware);
}

/// An answer of this kind adds nothing to itself: where a poll brings the
/// answer that is cached already, nothing is worth publishing.
pub proof fn lemma_pdu_info_adds_nothing_to_itself(record: PDUInfo, prefix: Seq<char>)
    ensures
        CacheView::ValueSnapshot(record.mqtt_view(prefix)).diff(record.mqtt_view(prefix))
            == Seq::<MsgView>::empty(),
{
    lemma_pdu_info_keys_agree(record, prefix);
    lemma_same_snapshot_publishes_nothing(record.mqtt_view(prefix));
}

/// The messages of this record that share a topic share their payload, also
/// across its four parts.
pub proof fn lemma_branch_info_keys_agree(record: BranchInfo, prefix: Seq<char>)
    ensures
        keys_agree(record.mqtt_view(prefix)),
{
    reveal_strlit("/status");
    reveal_strlit("/events");
    reveal_strlit("/settings");
    reveal_strlit("/hardware");
    let status = record.status.mqtt_view(prefix + "/status"@);
    lemma_branch_status_keys_agree(record.status, prefix + "/status"@);
    let events = record.events.mqtt_view(prefix + "/events"@);
    lemma_branch_events_keys_agree(record.events, prefix + "/events"@);
    let settings = record.settings.mqtt_view(prefix + "/settings"@);
    lemma_branch_settings_keys_agree(record.settings, prefix + "/settings"@);
    let hardware = record.hardware.mqtt_view(prefix + "/hardware"@);
    lemma_branch_hardware_keys_agree(record.hardware, prefix + "/hardware"@);
    lemma_heads_apart(
        status,
        events,
        prefix + "/status"@,
        prefix + "/events"@,
        (prefix.len() + 1) as int,
    );
    lemma_heads_apart(
        status,
        settings,
        prefix + "/status"@,
        prefix + "/settings"@,
        (prefix.len() + 2) as int,
    );
    lemma_heads_apart(
        status,
        hardware,
        prefix + "/status"@,
        prefix + "/hardware"@,
        (prefix.len() + 1) as int,
    );
    lemma_heads_apart(
        events,
        settings,
        prefix + "/events"@,
        prefix + "/settings"@,
        (prefix.len() + 1) as int,
    );
    lemma_heads_apart(
        events,
        hardware,
        prefix + "/events"@,
        prefix + "/hardware"@,
        (prefix.len() + 1) as int,
    );
    lemma_heads_apart(
        settings,
        hardware,
        prefix + "/settings"@,
        prefix + "/hardware"@,
        (prefix.len() + 1) as int,
    );
    lemma_keys_agree_joined(status, events);
    lemma_no_shared_topic_joined(status, events, settings);
    lemma_keys_agree_joined(status + events, settings);
    lemma_no_shared_topic_joined(status, events, hardware);
    lemma_no_shared_topic_joined(status + events, settings, hardware);
    lemma_keys_agree_joined(status + events + settings, hardware);
}

/// An answer of this kind adds nothing to itself: where a poll brings the
/// answer that is cached already, nothing is worth publishing.
pub proof fn lemma_branch_info_adds_nothing_to_itself(record: BranchInfo, prefix: Seq<char>)
    ensures
        CacheView::ValueSnapshot(record.mqtt_view(prefix)).diff(record.mqtt_view(prefix))
            == Seq::<MsgView>::empty(),
{
    lemma_branch_info_keys_agree(record, prefix);
    lemma_same_snapshot_publishes_nothing(record.mqtt_view(prefix));
}

/// The messages of this record that share a topic share their payload, also
/// across its four parts.
pub proof fn lemma_receptacle_info_keys_agree(record: ReceptacleInfo, prefix: Seq<char>)
    ensures
        keys_agree(record.mqtt_view(prefix)),
{
    reveal_strlit("/status");
    reveal_strlit("/events");
    reveal_strlit("/settings");
    reveal_strlit("/hardware");
    let status = record.status.mqtt_view(prefix + "/status"@);
    lemma_receptacle_status_keys_agree(record.status, prefix + "/status"@);
    let events = record.events.mqtt_view(prefix + "/events"@);
    lemma_receptacle_events_keys_agree(record.events, prefix + "/events"@);
    let settings = record.settings.mqtt_view(prefix + "/settings"@);
    lemma_receptacle_settings_keys_agree(record.settings, prefix + "/settings"@);
    let hardware = record.hardware.mqtt_view(prefix + "/hardware"@);
    lemma_receptacle_hardware_keys_agree(record.hardware, prefix + "/hardware"@);
    lemma_heads_apart(
        status,
        events,
        prefix + "/status"@,
        prefix + "/events"@,
        (prefix.len() + 1) as int,
    );
    lemma_heads_apart(
        status,
        settings,
        prefix + "/status"@,
        prefix + "/settings"@,
        (prefix.len() + 2) as int,
    );
    lemma_heads_apart(
        status,
        hardware,
        prefix + "/status"@,
        prefix + "/hardware"@,
        (prefix.len() + 1) as int,
    );
    lemma_heads_apart(
        events,
        settings,
        prefix + "/events"@,
        prefix + "/settings"@,
        (prefix.len() + 1) as int,
    );
    lemma_heads_apart(
        events,
        hardware,
        prefix + "/events"@,
        prefix + "/hardware"@,
        (prefix.len() + 1) as int,
    );
    lemma_heads_apart(
        settings,
        hardware,
        prefix + "/settings"@,
        prefix + "/hardware"@,
        (prefix.len() + 1) as int,
    );
    lemma_keys_agree_joined(status, events);
    lemma_no_shared_topic_joined(status, events, settings);
    lemma_keys_agree_joined(status + events, settings);
    lemma_no_shared_topic_joined(status, events, hardware);
    lemma_no_shared_topic_joined(status + events, settings, hardware);
    lemma_keys_agree_joined(status + events + settings, hardware);
}

/// An answer of this kind adds nothing to itself: where a poll brings the
/// answer that is cached already, nothing is worth publishing.
pub proof fn lemma_receptacle_info_adds_nothing_to_itself(record: ReceptacleInfo, prefix: Seq<char>)
    ensures
        CacheView::ValueSnapshot(record.mqtt_view(prefix)).diff(record.mqtt_view(prefix))
            == Seq::<MsgView>::empty(),
{
    lemma_receptacle_info_keys_agree(record, prefix);
    lemma_same_snapshot_publishes_nothing(record.mqtt_view(prefix));
}

} // verus!
