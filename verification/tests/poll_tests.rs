use mpx_mqtt::cache::Cache;
use mpx_mqtt::event::{Event, EventLevel, EventType};
use mpx_mqtt::message::{clone_msgs, MQTTMsg};
use mpx_mqtt::mqttify::{
    BranchEvents, BranchHardware, BranchInfo, BranchSettings, BranchStatus, PDUEvents, PDUHardware,
    PDUInfo, PDUSettings, PDUStatus, ReceptacleEvents, ReceptacleHardware, ReceptacleInfo,
    ReceptacleSettings, ReceptacleStatus, ToMQTT,
};
use mpx_mqtt::poll::{
    branch_path_string, pdu_path_string, read_branch, read_events, read_pdu, read_receptacle,
    receptacle_path_string, EventStep,
};
use mpx_mqtt::registry::Address;
use mpx_mqtt::task::{Task, TaskKind, TaskPriority};

fn text(s: &str) -> String {
    s.to_string()
}

fn receptacle_info(label: &str, current: u32) -> ReceptacleInfo {
    ReceptacleInfo {
        status: ReceptacleStatus {
            accumulated_energy: 1,
            voltage: 230_000,
            current,
            current_available_to_alarm: 4,
            current_utilization: 5,
            power: 6,
            apparent_power: 7,
            power_factor: text("0.9"),
            current_crest_factor: text("1.4"),
        },
        events: ReceptacleEvents { over_current: text("NONE"), low_current: text("NONE") },
        settings: ReceptacleSettings {
            label: text(label),
            asset_tag_1: text("tag-1"),
            asset_tag_2: text("tag-2"),
            over_current_alarm_threshold: 100,
            over_current_warning_threshold: 90,
            low_current_alarm_threshold: 0,
            power_state: true,
            power_control: true,
            control_lock_state: false,
            power_on_delay: 3,
        },
        hardware: ReceptacleHardware {
            receptacle_type: text("C13"),
            line_source: text("L1"),
            capabilities: text("switched"),
        },
    }
}

fn branch_info(voltage: u32) -> BranchInfo {
    BranchInfo {
        status: BranchStatus {
            accumulated_energy: 1,
            voltage,
            current: 3,
            current_available_to_alarm: 4,
            current_utilization: 5,
            power: 6,
            apparent_power: 7,
            power_factor: text("7.5"),
        },
        events: BranchEvents {
            low_voltage: text("NONE"),
            over_current: text("NONE"),
            low_current: text("NONE"),
            failure: text("NONE"),
            breaker_open: text("NONE"),
        },
        settings: BranchSettings {
            label: text("branch"),
            asset_tag_1: text("a"),
            asset_tag_2: text("b"),
            over_current_alarm_threshold: 100,
            over_current_warning_threshold: 90,
            low_current_alarm_threshold: 0,
        },
        hardware: BranchHardware {
            brm_model: text("BRM"),
            fw_version: text("1.0"),
            serial_number: text("SN"),
            receptacle_type: text("C13"),
            capabilities: text("caps"),
            line_source: text("L1"),
            rated_line_voltage: 230,
            rated_line_current: 16,
            rated_line_frequency: 50,
        },
    }
}

fn pdu_info(power: u32) -> PDUInfo {
    PDUInfo {
        status: PDUStatus {
            accumulated_energy: 1,
            input_power: power,
            voltage_l1_n: 3,
            voltage_l2_n: 4,
            voltage_l3_n: 5,
            current_l1: 6,
            current_l2: 7,
            current_n: 8,
            current_available_to_alarm_l1: 9,
            current_available_to_alarm_l2: 10,
            current_available_to_alarm_l3: 11,
            current_utilization_l1: 12,
            current_utilization_l2: 13,
            current_utilization_l3: 14,
            line_frequency: 500,
        },
        events: PDUEvents {
            low_voltage_l1: text("NONE"),
            low_voltage_l2: text("NONE"),
            low_voltage_l3: text("NONE"),
            over_current_l1: text("NONE"),
            over_current_l2: text("NONE"),
            over_current_l3: text("NONE"),
            over_current_n: text("NONE"),
            low_current_l1: text("NONE"),
            low_current_l2: text("NONE"),
            low_current_l3: text("NONE"),
            failure: text("NONE"),
            communication_fail: text("NONE"),
        },
        settings: PDUSettings {
            label: text("pdu"),
            asset_tag_1: text("a"),
            asset_tag_2: text("b"),
            n_over_current_alarm_threshold: 1,
            n_over_current_warning_threshold: 2,
            l1_low_current_alarm_threshold: 3,
            l1_over_current_alarm_threshold: 4,
            l1_over_current_warning_threshold: 5,
            l2_low_current_alarm_threshold: 6,
            l2_over_current_alarm_threshold: 7,
            l2_over_current_warning_threshold: 8,
            l3_low_current_alarm_threshold: 9,
            l3_over_current_alarm_threshold: 10,
            l3_over_current_warning_threshold: 11,
        },
        hardware: PDUHardware {
            pem_model: text("PEM"),
            fw_version: text("1.0"),
            serial_number: text("SN"),
            wiring_type: text("3ph"),
            rated_input_voltage: 400,
            rated_input_current: 32,
            rated_input_line_frequency: 50,
        },
    }
}

fn event(level: EventLevel, kind: EventType, pdu: u8, branch: u8, receptacle: u8) -> Event {
    Event { level, event: kind, pdu, branch, receptacle }
}

fn alarm(pdu: u8, branch: u8, receptacle: u8) -> Event {
    event(EventLevel::Alarm, EventType::ReceptacleOverCurrent, pdu, branch, receptacle)
}

fn task(kind: TaskKind, pdu: u8, branch: u8, receptacle: u8) -> Task {
    Task {
        timestamp: 500,
        timeout: 30_000,
        priority: TaskPriority::LOW,
        kind,
        pdu,
        branch,
        receptacle,
        cache: Cache::Empty,
    }
}

fn at(pdu: u8, branch: u8, receptacle: u8) -> Address {
    Address { pdu, branch, receptacle }
}

fn topics(list: &Vec<MQTTMsg>) -> Vec<String> {
    list.iter().map(|m| m.topic.clone()).collect()
}

#[test]
fn paths_name_each_level_by_number() {
    assert_eq!(pdu_path_string(1), "/pdu-1");
    assert_eq!(pdu_path_string(0), "/pdu-0");
    assert_eq!(branch_path_string(12, 255), "/pdu-12/branch-255");
    assert_eq!(receptacle_path_string(1, 2, 3), "/pdu-1/branch-2/receptacle-3");
    assert_eq!(receptacle_path_string(255, 0, 100), "/pdu-255/branch-0/receptacle-100");
}

#[test]
fn first_receptacle_poll_publishes_everything_under_its_path() {
    let mut t = task(TaskKind::Receptacle, 1, 2, 3);
    let out = read_receptacle(&mut t, receptacle_info("r", 10));
    assert_eq!(out, receptacle_info("r", 10).to_mqtt("/pdu-1/branch-2/receptacle-3"));
    assert_eq!(out.len(), 24);
    assert_eq!(out[0], MQTTMsg::new("/pdu-1/branch-2/receptacle-3/status/accumulated-energy", "1", false));
    assert_eq!(out[11], MQTTMsg::new("/pdu-1/branch-2/receptacle-3/settings/label", "r", true));
    assert_eq!(out[23], MQTTMsg::new("/pdu-1/branch-2/receptacle-3/hardware/capabilities", "switched", true));
}

#[test]
fn second_receptacle_poll_publishes_only_what_changed() {
    let mut t = task(TaskKind::Receptacle, 1, 2, 3);
    read_receptacle(&mut t, receptacle_info("r", 10));
    let out = read_receptacle(&mut t, receptacle_info("r", 11));
    assert_eq!(out, vec![MQTTMsg::new("/pdu-1/branch-2/receptacle-3/status/current", "11", false)]);
    let out = read_receptacle(&mut t, receptacle_info("other", 11));
    assert_eq!(out, vec![MQTTMsg::new("/pdu-1/branch-2/receptacle-3/settings/label", "other", true)]);
    let out = read_receptacle(&mut t, receptacle_info("other", 11));
    assert_eq!(out, Vec::<MQTTMsg>::new());
}

#[test]
fn cache_holds_the_whole_snapshot_not_the_diff() {
    let mut t = task(TaskKind::Receptacle, 1, 2, 3);
    read_receptacle(&mut t, receptacle_info("r", 10));
    read_receptacle(&mut t, receptacle_info("r", 11));
    match &t.cache {
        Cache::ValueSnapshot(cached) => {
            assert_eq!(*cached, receptacle_info("r", 11).to_mqtt("/pdu-1/branch-2/receptacle-3"))
        }
        _ => panic!("no value snapshot in the cache"),
    }
    // a change back is seen against the latest snapshot
    let out = read_receptacle(&mut t, receptacle_info("r", 10));
    assert_eq!(out.len(), 1);
}

#[test]
fn polling_leaves_the_rest_of_the_task() {
    let mut t = task(TaskKind::Branch, 4, 5, 0);
    read_branch(&mut t, branch_info(1));
    assert_eq!(t.timestamp, 500);
    assert_eq!(t.timeout, 30_000);
    assert_eq!(t.kind, TaskKind::Branch);
    assert_eq!((t.pdu, t.branch, t.receptacle), (4, 5, 0));
}

#[test]
fn branch_poll_publishes_under_the_branch_path() {
    let mut t = task(TaskKind::Branch, 4, 5, 0);
    let out = read_branch(&mut t, branch_info(230_000));
    assert_eq!(out, branch_info(230_000).to_mqtt("/pdu-4/branch-5"));
    assert_eq!(out.len(), 28);
    assert!(topics(&out).iter().all(|topic| topic.starts_with("/pdu-4/branch-5/")));
    let out = read_branch(&mut t, branch_info(229_000));
    assert_eq!(out, vec![MQTTMsg::new("/pdu-4/branch-5/status/voltage", "229000", false)]);
}

#[test]
fn pdu_poll_publishes_under_the_pdu_path() {
    let mut t = task(TaskKind::Pdu, 9, 0, 0);
    let out = read_pdu(&mut t, pdu_info(100));
    assert_eq!(out, pdu_info(100).to_mqtt("/pdu-9"));
    assert_eq!(out.len(), 16 + 12 + 14 + 7);
    let out = read_pdu(&mut t, pdu_info(101));
    assert_eq!(out, vec![MQTTMsg::new("/pdu-9/status/input-power", "101", false)]);
}

#[test]
fn same_answer_again_publishes_nothing() {
    let mut t = task(TaskKind::Pdu, 9, 0, 0);
    read_pdu(&mut t, pdu_info(100));
    assert_eq!(read_pdu(&mut t, pdu_info(100)), Vec::<MQTTMsg>::new());
    let mut t = task(TaskKind::Branch, 9, 1, 0);
    read_branch(&mut t, branch_info(100));
    assert_eq!(read_branch(&mut t, branch_info(100)), Vec::<MQTTMsg>::new());
    let mut t = task(TaskKind::Receptacle, 9, 1, 1);
    read_receptacle(&mut t, receptacle_info("r", 1));
    assert_eq!(read_receptacle(&mut t, receptacle_info("r", 1)), Vec::<MQTTMsg>::new());
}

#[test]
fn change_of_the_doubled_key_is_published_twice() {
    let mut t = task(TaskKind::Pdu, 9, 0, 0);
    read_pdu(&mut t, pdu_info(100));
    let mut info = pdu_info(100);
    info.status.current_l2 = 70;
    let out = read_pdu(&mut t, info);
    assert_eq!(
        out,
        vec![
            MQTTMsg::new("/pdu-9/status/l2-current", "70", false),
            MQTTMsg::new("/pdu-9/status/l2-current", "70", false),
        ]
    );
}

#[test]
fn absorb_diffs_and_replaces() {
    let mut t = task(TaskKind::Pdu, 1, 0, 0);
    let first = vec![MQTTMsg::new("/a", "1", true), MQTTMsg::new("/b", "2", true)];
    assert_eq!(t.absorb(clone_msgs(&first)), first);
    let second = vec![MQTTMsg::new("/a", "1", true), MQTTMsg::new("/b", "3", true)];
    assert_eq!(t.absorb(clone_msgs(&second)), vec![MQTTMsg::new("/b", "3", true)]);
    match &t.cache {
        Cache::ValueSnapshot(cached) => assert_eq!(*cached, second),
        _ => panic!("no value snapshot in the cache"),
    }
}

fn off(pdu: u8, branch: u8, receptacle: u8) -> EventStep {
    EventStep::Disable(at(pdu, branch, receptacle))
}

#[test]
fn first_feed_is_gone_through() {
    let mut t = task(TaskKind::Events, 0, 0, 0);
    let warning = event(EventLevel::Other(1), EventType::ReceptacleOverCurrent, 1, 1, 1);
    let other = event(EventLevel::Alarm, EventType::Other(4), 1, 1, 3);
    let feed = vec![warning, alarm(1, 1, 2), other, alarm(1, 2, 6)];
    let plan = read_events(&mut t, feed.clone());
    assert_eq!(
        plan,
        vec![EventStep::Unhandled(warning), off(1, 1, 2), EventStep::Unhandled(other), off(1, 2, 6)]
    );
    match &t.cache {
        Cache::EventSnapshot(cached) => assert_eq!(*cached, feed),
        _ => panic!("no feed in the cache"),
    }
}

#[test]
fn same_feed_calls_for_nothing() {
    let mut t = task(TaskKind::Events, 0, 0, 0);
    let feed = vec![alarm(1, 1, 2), event(EventLevel::Other(0), EventType::Other(1), 1, 1, 1), alarm(1, 2, 6)];
    assert_eq!(read_events(&mut t, feed.clone()).len(), 3);
    assert_eq!(read_events(&mut t, feed.clone()), Vec::<EventStep>::new());
    assert_eq!(read_events(&mut t, feed.clone()), Vec::<EventStep>::new());
    match &t.cache {
        Cache::EventSnapshot(cached) => assert_eq!(*cached, feed),
        _ => panic!("no feed in the cache"),
    }
}

#[test]
fn reordered_feed_is_gone_through_as_a_whole() {
    let mut t = task(TaskKind::Events, 0, 0, 0);
    read_events(&mut t, vec![alarm(1, 1, 2), alarm(1, 2, 6)]);
    let plan = read_events(&mut t, vec![alarm(1, 2, 6), alarm(1, 1, 2)]);
    assert_eq!(plan, vec![off(1, 2, 6), off(1, 1, 2)]);
}

#[test]
fn grown_feed_is_gone_through_as_a_whole() {
    let mut t = task(TaskKind::Events, 0, 0, 0);
    read_events(&mut t, vec![alarm(1, 1, 2)]);
    let plan = read_events(&mut t, vec![alarm(1, 1, 2), alarm(1, 1, 3)]);
    assert_eq!(plan, vec![off(1, 1, 2), off(1, 1, 3)]);
    let plan = read_events(&mut t, vec![alarm(1, 1, 2)]);
    assert_eq!(plan, vec![off(1, 1, 2)]);
}

#[test]
fn empty_feed_after_alarms_calls_for_nothing_and_is_remembered() {
    let mut t = task(TaskKind::Events, 0, 0, 0);
    read_events(&mut t, vec![alarm(1, 1, 2)]);
    assert_eq!(read_events(&mut t, Vec::new()), Vec::<EventStep>::new());
    assert!(!t.cache.is_none());
    assert_eq!(read_events(&mut t, vec![alarm(1, 1, 2)]), vec![off(1, 1, 2)]);
}

#[test]
fn empty_first_feed_fills_the_cache() {
    let mut t = task(TaskKind::Events, 0, 0, 0);
    assert_eq!(read_events(&mut t, Vec::new()), Vec::<EventStep>::new());
    match &t.cache {
        Cache::EventSnapshot(cached) => assert!(cached.is_empty()),
        _ => panic!("no feed in the cache"),
    }
}

#[test]
fn alarm_listed_twice_is_acted_on_twice() {
    let mut t = task(TaskKind::Events, 0, 0, 0);
    let plan = read_events(&mut t, vec![alarm(1, 1, 2), alarm(1, 1, 2)]);
    assert_eq!(plan, vec![off(1, 1, 2), off(1, 1, 2)]);
}

#[test]
fn events_that_call_for_nothing_are_reported_as_unhandled() {
    let mut t = task(TaskKind::Events, 0, 0, 0);
    let a = event(EventLevel::Other(2), EventType::Other(9), 3, 2, 1);
    let b = event(EventLevel::Alarm, EventType::Other(9), 0, 0, 0);
    let plan = read_events(&mut t, vec![a, b]);
    assert_eq!(plan, vec![EventStep::Unhandled(a), EventStep::Unhandled(b)]);
}
