use mpx_mqtt::cache::Cache;
use mpx_mqtt::command::{Command, Query};
use mpx_mqtt::event::{Event, EventLevel, EventType};
use mpx_mqtt::message::MQTTMsg;
use mpx_mqtt::mqttify::{
    BranchEvents, BranchHardware, BranchInfo, BranchSettings, BranchStatus, PDUEvents, PDUHardware,
    PDUInfo, PDUSettings, PDUStatus, ReceptacleEvents, ReceptacleHardware, ReceptacleInfo,
    ReceptacleSettings, ReceptacleStatus, ToMQTT,
};
use mpx_mqtt::poll::EventStep;
use mpx_mqtt::registry::{setup_tasklist, Address, TaskList};
use mpx_mqtt::scheduler::{
    Action, DeviceCommand, Phase, Response, Scheduler, IDLE_SLEEP, RESCHEDULE_SECONDS,
};
use mpx_mqtt::task::TaskPriority;

fn text(s: &str) -> String {
    s.to_string()
}

fn receptacle_info(label: &str, current: u32) -> ReceptacleInfo {
    ReceptacleInfo {
        status: ReceptacleStatus {
            accumulated_energy: 1,
            voltage: 230_000,
            current,
            current_available_to_alarm: 4,
            current_utilization: 5,
            power: 6,
            apparent_power: 7,
            power_factor: text("0.9"),
            current_crest_factor: text("1.4"),
        },
        events: ReceptacleEvents { over_current: text("NONE"), low_current: text("NONE") },
        settings: ReceptacleSettings {
            label: text(label),
            asset_tag_1: text("tag-1"),
            asset_tag_2: text("tag-2"),
            over_current_alarm_threshold: 100,
            over_current_warning_threshold: 90,
            low_current_alarm_threshold: 0,
            power_state: true,
            power_control: true,
            control_lock_state: false,
            power_on_delay: 3,
        },
        hardware: ReceptacleHardware {
            receptacle_type: text("C13"),
            line_source: text("L1"),
            capabilities: text("switched"),
        },
    }
}

fn branch_info(voltage: u32) -> BranchInfo {
    BranchInfo {
        status: BranchStatus {
            accumulated_energy: 1,
            voltage,
            current: 3,
            current_available_to_alarm: 4,
            current_utilization: 5,
            power: 6,
            apparent_power: 7,
            power_factor: text("7.5"),
        },
        events: BranchEvents {
            low_voltage: text("NONE"),
            over_current: text("NONE"),
            low_current: text("NONE"),
            failure: text("NONE"),
            breaker_open: text("NONE"),
        },
        settings: BranchSettings {
            label: text("branch"),
            asset_tag_1: text("a"),
            asset_tag_2: text("b"),
            over_current_alarm_threshold: 100,
            over_current_warning_threshold: 90,
            low_current_alarm_threshold: 0,
        },
        hardware: BranchHardware {
            brm_model: text("BRM"),
            fw_version: text("1.0"),
            serial_number: text("SN"),
            receptacle_type: text("C13"),
            capabilities: text("caps"),
            line_source: text("L1"),
            rated_line_voltage: 230,
            rated_line_current: 16,
            rated_line_frequency: 50,
        },
    }
}

fn pdu_info(power: u32) -> PDUInfo {
    PDUInfo {
        status: PDUStatus {
            accumulated_energy: 1,
            input_power: power,
            voltage_l1_n: 3,
            voltage_l2_n: 4,
            voltage_l3_n: 5,
            current_l1: 6,
            current_l2: 7,
            current_n: 8,
            current_available_to_alarm_l1: 9,
            current_available_to_alarm_l2: 10,
            current_available_to_alarm_l3: 11,
            current_utilization_l1: 12,
            current_utilization_l2: 13,
            current_utilization_l3: 14,
            line_frequency: 500,
        },
        events: PDUEvents {
            low_voltage_l1: text("NONE"),
            low_voltage_l2: text("NONE"),
            low_voltage_l3: text("NONE"),
            over_current_l1: text("NONE"),
            over_current_l2: text("NONE"),
            over_current_l3: text("NONE"),
            over_current_n: text("NONE"),
            low_current_l1: text("NONE"),
            low_current_l2: text("NONE"),
            low_current_l3: text("NONE"),
            failure: text("NONE"),
            communication_fail: text("NONE"),
        },
        settings: PDUSettings {
            label: text("pdu"),
            asset_tag_1: text("a"),
            asset_tag_2: text("b"),
            n_over_current_alarm_threshold: 1,
            n_over_current_warning_threshold: 2,
            l1_low_current_alarm_threshold: 3,
            l1_over_current_alarm_threshold: 4,
            l1_over_current_warning_threshold: 5,
            l2_low_current_alarm_threshold: 6,
            l2_over_current_alarm_threshold: 7,
            l2_over_current_warning_threshold: 8,
            l3_low_current_alarm_threshold: 9,
            l3_over_current_alarm_threshold: 10,
            l3_over_current_warning_threshold: 11,
        },
        hardware: PDUHardware {
            pem_model: text("PEM"),
            fw_version: text("1.0"),
            serial_number: text("SN"),
            wiring_type: text("3ph"),
            rated_input_voltage: 400,
            rated_input_current: 32,
            rated_input_line_frequency: 50,
        },
    }
}

fn event(level: EventLevel, kind: EventType, pdu: u8, branch: u8, receptacle: u8) -> Event {
    Event { level, event: kind, pdu, branch, receptacle }
}

fn alarm(pdu: u8, branch: u8, receptacle: u8) -> Event {
    event(EventLevel::Alarm, EventType::ReceptacleOverCurrent, pdu, branch, receptacle)
}

fn at(pdu: u8, branch: u8, receptacle: u8) -> Address {
    Address { pdu, branch, receptacle }
}

/// events, pdu 1, branch 1/1, receptacle 1/1/1, watchdog; all stamped at `now`
/// but for the stagger.
fn fresh(now: i64) -> Scheduler {
    let mut tasks = setup_tasklist(&vec![at(1, 1, 1)], now);
    tasks.append_systemd_watchdog(now);
    Scheduler::new(tasks, text("home/rack"), false)
}

fn in_phase(now: i64, phase: Phase) -> Scheduler {
    let mut s = fresh(now);
    s.phase = phase;
    s
}

fn stamps(s: &Scheduler) -> Vec<i64> {
    s.tasks.tasks.iter().map(|t| t.timestamp).collect()
}

fn off(pdu: u8, branch: u8, receptacle: u8) -> EventStep {
    EventStep::Disable(at(pdu, branch, receptacle))
}

fn command(pdu: u8, branch: u8, receptacle: u8, command: DeviceCommand) -> Action {
    Action::Command { pdu, branch, receptacle, command }
}

fn query(cmd: Option<Command>, pdu: u8, branch: u8, receptacle: u8) -> Response {
    Response::Inbound(Some(Query { cmd, pdu, branch, receptacle }))
}

#[test]
fn new_scheduler_is_idle_and_not_ready() {
    let s = fresh(0);
    assert_eq!(s.phase, Phase::Idle);
    assert!(!s.ready);
    assert!(s.is_well_formed());
    assert_eq!(s.tasks.len(), 5);
    assert_eq!(IDLE_SLEEP, 1000);
    assert_eq!(RESCHEDULE_SECONDS, 5);
}

#[test]
fn round_with_nothing_due_asks_for_a_command_and_sleeps() {
    let (s, action) = fresh(0).step(Response::Done, 0);
    assert_eq!(action, Action::Receive);
    assert_eq!(s.phase, Phase::Receiving);
    let (s, action) = s.step(Response::Inbound(None), 10);
    assert_eq!(action, Action::Sleep(1000));
    assert_eq!(s.phase, Phase::Closing);
    let (s, action) = s.step(Response::Done, 1_010);
    assert_eq!(action, Action::Receive);
    assert_eq!(s.phase, Phase::Receiving);
    assert_eq!(stamps(&s), vec![0, 0, -10_000, -10_000, 0]);
}

#[test]
fn sweep_serves_due_tasks_of_high_priority_in_registry_order() {
    // at 30.001 s both the event task and the watchdog are due
    let (s, action) = fresh(0).step(Response::Done, 30_001);
    assert_eq!(action, Action::FetchEvents);
    assert_eq!(s.phase, Phase::Polling { index: 0, swept: true });
    let (s, action) = s.step(Response::Events(Some(Vec::new())), 30_050);
    assert_eq!(action, Action::NotifyAlive);
    assert_eq!(s.phase, Phase::Polling { index: 4, swept: true });
    assert_eq!(s.tasks.tasks[0].timestamp, 30_050);
    let (s, action) = s.step(Response::Done, 30_060);
    assert_eq!(action, Action::Receive);
    assert_eq!(s.phase, Phase::Receiving);
    assert_eq!(s.tasks.tasks[4].timestamp, 30_060);
}

#[test]
fn sweep_passes_over_tasks_of_low_priority_and_tasks_not_due() {
    // at 3.001 s only the event task is due; the receptacle task is low priority
    let (s, action) = fresh(0).step(Response::Done, 3_001);
    assert_eq!(action, Action::FetchEvents);
    let (s, action) = s.step(Response::Events(Some(Vec::new())), 3_002);
    assert_eq!(action, Action::Receive);
    assert_eq!(stamps(&s), vec![3_002, 0, -10_000, -10_000, 0]);
}

#[test]
fn event_task_is_not_due_at_exactly_its_cadence() {
    let (_, action) = fresh(0).step(Response::Done, 3_000);
    assert_eq!(action, Action::Receive);
}

#[test]
fn selection_runs_the_task_that_has_waited_longest_when_due() {
    // at 20.001 s the staggered tasks have waited 30.001 s; the last of them is chosen
    let s = in_phase(0, Phase::Receiving);
    let (s, action) = s.step(Response::Inbound(None), 20_001);
    assert_eq!(action, Action::QueryReceptacle { pdu: 1, branch: 1, receptacle: 1 });
    assert_eq!(s.phase, Phase::Polling { index: 3, swept: false });
}

#[test]
fn selection_sleeps_when_the_oldest_task_is_not_due() {
    let s = in_phase(0, Phase::Receiving);
    let (s, action) = s.step(Response::Inbound(None), 20_000);
    assert_eq!(action, Action::Sleep(1000));
    assert_eq!(s.phase, Phase::Closing);
}

#[test]
fn selection_does_not_fall_back_to_a_younger_task_that_is_due() {
    // the event task is due by its own cadence, the oldest task is not: sleep
    let mut s = in_phase(0, Phase::Receiving);
    s.tasks.tasks[0].timestamp = 10_000;
    let (_, action) = s.step(Response::Inbound(None), 19_000);
    assert_eq!(action, Action::Sleep(1000));
}

#[test]
fn empty_registry_only_sleeps() {
    // with no task that queries the device, the first round is over at once
    let s = Scheduler::new(TaskList::new(), text("p"), false);
    let (s, action) = s.step(Response::Done, 0);
    assert_eq!(action, Action::NotifyReady);
    let (s, action) = s.step(Response::Done, 0);
    assert_eq!(action, Action::Receive);
    let (s, action) = s.step(Response::Inbound(None), 0);
    assert_eq!(action, Action::Sleep(1000));
    let (_, action) = s.step(Response::Done, 1_000_000);
    assert_eq!(action, Action::Receive);
}

#[test]
fn each_kind_of_task_starts_with_its_own_request() {
    for (index, expected) in [
        (0usize, Action::FetchEvents),
        (1, Action::QueryPdu { pdu: 1 }),
        (2, Action::QueryBranch { pdu: 1, branch: 1 }),
        (3, Action::QueryReceptacle { pdu: 1, branch: 1, receptacle: 1 }),
        (4, Action::NotifyAlive),
    ] {
        let mut s = in_phase(0, Phase::Receiving);
        for t in s.tasks.tasks.iter_mut() {
            t.timestamp = 100_000;
        }
        s.tasks.tasks[index].timestamp = 0;
        let (s, action) = s.step(Response::Inbound(None), 100_000);
        assert_eq!(action, expected);
        assert_eq!(s.phase, Phase::Polling { index, swept: false });
    }
}

#[test]
fn finished_poll_is_published_with_the_prefix_and_stamped() {
    let s = in_phase(0, Phase::Polling { index: 3, swept: false });
    let (s, action) = s.step(Response::Receptacle(Some(receptacle_info("r", 10))), 40_000);
    let expected: Vec<MQTTMsg> = receptacle_info("r", 10)
        .to_mqtt("/pdu-1/branch-1/receptacle-1")
        .into_iter()
        .map(|m| MQTTMsg { topic: format!("home/rack{}", m.topic), ..m })
        .collect();
    assert_eq!(expected[0].topic, "home/rack/pdu-1/branch-1/receptacle-1/status/accumulated-energy");
    assert!(!expected[0].retained);
    assert!(expected[23].retained);
    assert_eq!(action, Action::Publish(expected));
    assert_eq!(s.phase, Phase::Closing);
    assert_eq!(stamps(&s), vec![0, 0, -10_000, 40_000, 0]);
    assert_eq!(
        s.tasks.tasks[3].cache,
        Cache::ValueSnapshot(receptacle_info("r", 10).to_mqtt("/pdu-1/branch-1/receptacle-1"))
    );
}

#[test]
fn second_poll_publishes_the_difference_only() {
    let s = in_phase(0, Phase::Polling { index: 2, swept: false });
    let (mut s, _) = s.step(Response::Branch(Some(branch_info(230_000))), 40_000);
    s.phase = Phase::Polling { index: 2, swept: false };
    let (s, action) = s.step(Response::Branch(Some(branch_info(231_000))), 80_000);
    assert_eq!(
        action,
        Action::Publish(vec![MQTTMsg::new("home/rack/pdu-1/branch-1/status/voltage", "231000", false)])
    );
    assert_eq!(s.tasks.tasks[2].timestamp, 80_000);
}

#[test]
fn nothing_is_published_as_retained_where_that_is_configured() {
    let mut s = in_phase(0, Phase::Polling { index: 1, swept: false });
    s.no_retained = true;
    s.prefix = String::new();
    let (_, action) = s.step(Response::Pdu(Some(pdu_info(5))), 40_000);
    match action {
        Action::Publish(list) => {
            assert_eq!(list.len(), 49);
            assert!(list.iter().all(|m| !m.retained));
            assert_eq!(list[0].topic, "/pdu-1/status/accumulated-energy");
            let plain = pdu_info(5).to_mqtt("/pdu-1");
            for (sent, made) in list.iter().zip(plain.iter()) {
                assert_eq!(sent.topic, made.topic);
                assert_eq!(sent.payload, made.payload);
            }
        }
        other => panic!("not a publication: {:?}", other),
    }
}

#[test]
fn failed_poll_stamps_the_task_and_publishes_nothing() {
    let s = in_phase(0, Phase::Polling { index: 3, swept: false });
    let (s, action) = s.step(Response::Receptacle(None), 40_000);
    assert_eq!(action, Action::Publish(Vec::new()));
    assert_eq!(s.phase, Phase::Closing);
    assert_eq!(s.tasks.tasks[3].timestamp, 40_000);
    assert!(s.tasks.tasks[3].cache.is_none());
}

#[test]
fn answer_of_another_kind_counts_as_a_failed_poll() {
    for response in [
        Response::Done,
        Response::Device(true),
        Response::Branch(Some(branch_info(1))),
        Response::Events(Some(Vec::new())),
        Response::Inbound(None),
    ] {
        let s = in_phase(0, Phase::Polling { index: 3, swept: false });
        let (s, action) = s.step(response, 40_000);
        assert_eq!(action, Action::Publish(Vec::new()));
        assert_eq!(s.tasks.tasks[3].timestamp, 40_000);
        assert!(s.tasks.tasks[3].cache.is_none());
    }
}

#[test]
fn watchdog_chosen_as_oldest_reports_and_publishes_nothing() {
    let mut s = in_phase(50_000, Phase::Receiving);
    s.tasks.tasks[4].timestamp = 0;
    let (s, action) = s.step(Response::Inbound(None), 50_000);
    assert_eq!(action, Action::NotifyAlive);
    assert_eq!(s.phase, Phase::Polling { index: 4, swept: false });
    let (s, action) = s.step(Response::Done, 50_001);
    assert_eq!(action, Action::Publish(Vec::new()));
    assert_eq!(s.tasks.tasks[4].timestamp, 50_001);
    assert!(s.tasks.tasks[4].cache.is_none());
}

#[test]
fn messages_of_a_run_in_the_sweep_are_not_published() {
    let mut s = fresh(0);
    s.tasks.tasks[1].priority = TaskPriority::HIGH;
    let (s, action) = s.step(Response::Done, 30_001);
    assert_eq!(action, Action::FetchEvents);
    let (s, action) = s.step(Response::Events(None), 30_001);
    assert_eq!(action, Action::QueryPdu { pdu: 1 });
    assert_eq!(s.phase, Phase::Polling { index: 1, swept: true });
    let (s, action) = s.step(Response::Pdu(Some(pdu_info(1))), 30_002);
    assert_eq!(action, Action::NotifyAlive);
    assert!(!s.tasks.tasks[1].cache.is_none());
    assert_eq!(s.tasks.tasks[1].timestamp, 30_002);
}

#[test]
fn failed_event_fetch_stamps_the_task_and_goes_on() {
    let s = in_phase(0, Phase::Polling { index: 0, swept: true });
    let (s, action) = s.step(Response::Events(None), 3_500);
    assert_eq!(action, Action::Receive);
    assert_eq!(s.tasks.tasks[0].timestamp, 3_500);
    assert!(s.tasks.tasks[0].cache.is_none());
}

#[test]
fn feed_is_gone_through_event_by_event() {
    let warning = event(EventLevel::Other(1), EventType::ReceptacleOverCurrent, 1, 1, 2);
    let feed = vec![alarm(1, 1, 1), warning, alarm(1, 1, 3)];
    let plan = vec![off(1, 1, 1), EventStep::Unhandled(warning), off(1, 1, 3)];
    let s = in_phase(0, Phase::Polling { index: 0, swept: true });
    let (s, action) = s.step(Response::Events(Some(feed.clone())), 3_500);
    assert_eq!(action, command(1, 1, 1, DeviceCommand::Disable));
    assert_eq!(
        s.phase,
        Phase::Handling { index: 0, swept: true, plan: plan.clone(), at: 0, attempts: 1 }
    );
    assert!(s.is_well_formed());
    assert_eq!(s.tasks.tasks[0].cache, Cache::EventSnapshot(feed));
    assert_eq!(s.tasks.tasks[0].timestamp, 0);
    let (s, action) = s.step(Response::Device(true), 3_600);
    assert_eq!(action, Action::ReportUnhandled(warning));
    assert_eq!(
        s.phase,
        Phase::Handling { index: 0, swept: true, plan: plan.clone(), at: 1, attempts: 1 }
    );
    let (s, action) = s.step(Response::Done, 3_650);
    assert_eq!(action, command(1, 1, 3, DeviceCommand::Disable));
    let (s, action) = s.step(Response::Device(true), 3_700);
    assert_eq!(action, Action::Receive);
    assert_eq!(s.tasks.tasks[0].timestamp, 3_700);
}

#[test]
fn report_of_an_unhandled_event_is_made_once_whatever_comes_back() {
    let a = event(EventLevel::Other(1), EventType::Other(2), 1, 1, 2);
    let b = event(EventLevel::Other(3), EventType::Other(4), 1, 1, 3);
    for response in [Response::Done, Response::Device(false), Response::Inbound(None)] {
        let s = in_phase(0, Phase::Polling { index: 0, swept: true });
        let (s, action) = s.step(Response::Events(Some(vec![a, b])), 3_500);
        assert_eq!(action, Action::ReportUnhandled(a));
        let (s, action) = s.step(response, 3_501);
        assert_eq!(action, Action::ReportUnhandled(b));
        let (_, action) = s.step(Response::Device(false), 3_502);
        assert_eq!(action, Action::Receive);
    }
}

#[test]
fn failing_disable_is_tried_three_times_and_then_left() {
    let feed = vec![alarm(1, 1, 1), alarm(1, 1, 3)];
    let s = in_phase(0, Phase::Polling { index: 0, swept: true });
    let (s, action) = s.step(Response::Events(Some(feed)), 3_500);
    assert_eq!(action, command(1, 1, 1, DeviceCommand::Disable));
    let (s, action) = s.step(Response::Device(false), 3_501);
    assert_eq!(action, command(1, 1, 1, DeviceCommand::Disable));
    let (s, action) = s.step(Response::Device(false), 3_502);
    assert_eq!(action, command(1, 1, 1, DeviceCommand::Disable));
    let (s, action) = s.step(Response::Device(false), 3_503);
    assert_eq!(action, command(1, 1, 3, DeviceCommand::Disable));
    assert_eq!(
        s.phase,
        Phase::Handling { index: 0, swept: true, plan: vec![off(1, 1, 1), off(1, 1, 3)], at: 1, attempts: 1 }
    );
    let (s, action) = s.step(Response::Device(false), 3_504);
    assert_eq!(action, command(1, 1, 3, DeviceCommand::Disable));
    let (_, action) = s.step(Response::Device(true), 3_505);
    assert_eq!(action, Action::Receive);
}

#[test]
fn unchanged_feed_switches_nothing_off() {
    let feed = vec![alarm(1, 1, 1)];
    let mut s = in_phase(0, Phase::Polling { index: 0, swept: true });
    s.tasks.tasks[0].cache = Cache::EventSnapshot(feed.clone());
    let (s, action) = s.step(Response::Events(Some(feed)), 3_500);
    assert_eq!(action, Action::Receive);
    assert_eq!(s.tasks.tasks[0].timestamp, 3_500);
}

#[test]
fn reordered_feed_is_acted_on_again() {
    let mut s = in_phase(0, Phase::Polling { index: 0, swept: true });
    s.tasks.tasks[0].cache = Cache::EventSnapshot(vec![alarm(1, 1, 1), alarm(1, 1, 3)]);
    let (s, action) = s.step(Response::Events(Some(vec![alarm(1, 1, 3), alarm(1, 1, 1)])), 3_500);
    assert_eq!(action, command(1, 1, 3, DeviceCommand::Disable));
    let (_, action) = s.step(Response::Device(true), 3_500);
    assert_eq!(action, command(1, 1, 1, DeviceCommand::Disable));
}

#[test]
fn event_task_chosen_as_oldest_publishes_nothing() {
    let s = in_phase(0, Phase::Polling { index: 0, swept: false });
    let (s, action) = s.step(Response::Events(Some(vec![alarm(1, 1, 1)])), 9_000);
    assert_eq!(action, command(1, 1, 1, DeviceCommand::Disable));
    let (s, action) = s.step(Response::Device(true), 9_100);
    assert_eq!(action, Action::Publish(Vec::new()));
    assert_eq!(s.phase, Phase::Closing);
    assert_eq!(s.tasks.tasks[0].timestamp, 9_100);
}

#[test]
fn command_that_succeeds_at_the_third_attempt_is_not_tried_again() {
    let s = in_phase(0, Phase::Receiving);
    let (s, action) = s.step(query(Some(Command::Enable), 1, 1, 1), 100);
    assert_eq!(action, command(1, 1, 1, DeviceCommand::Enable));
    assert_eq!(
        s.phase,
        Phase::Commanding { pdu: 1, branch: 1, receptacle: 1, command: DeviceCommand::Enable, attempts: 1 }
    );
    let (s, action) = s.step(Response::Device(false), 101);
    assert_eq!(action, command(1, 1, 1, DeviceCommand::Enable));
    let (s, action) = s.step(Response::Device(false), 102);
    assert_eq!(action, command(1, 1, 1, DeviceCommand::Enable));
    assert_eq!(
        s.phase,
        Phase::Commanding { pdu: 1, branch: 1, receptacle: 1, command: DeviceCommand::Enable, attempts: 3 }
    );
    let (s, action) = s.step(Response::Device(true), 103);
    assert_eq!(action, Action::Sleep(1000));
    assert_eq!(s.phase, Phase::Closing);
}

#[test]
fn command_is_given_up_after_three_failures() {
    let s = in_phase(0, Phase::Receiving);
    let (mut s, mut action) = s.step(query(Some(Command::Disable), 1, 1, 1), 100);
    let mut sent = 0;
    while action == command(1, 1, 1, DeviceCommand::Disable) {
        sent += 1;
        assert!(sent <= 3);
        let next = s.step(Response::Device(false), 100);
        s = next.0;
        action = next.1;
    }
    assert_eq!(sent, 3);
    assert_eq!(action, Action::Sleep(1000));
    // the poll is forced all the same
    assert_eq!(s.tasks.tasks[3].timestamp, 100 - 30_000 + 5_000);
}

#[test]
fn answer_that_is_no_device_answer_counts_as_a_failed_attempt() {
    let s = in_phase(
        0,
        Phase::Commanding { pdu: 1, branch: 1, receptacle: 1, command: DeviceCommand::Enable, attempts: 1 },
    );
    let (s, action) = s.step(Response::Done, 100);
    assert_eq!(action, command(1, 1, 1, DeviceCommand::Enable));
    assert_eq!(
        s.phase,
        Phase::Commanding { pdu: 1, branch: 1, receptacle: 1, command: DeviceCommand::Enable, attempts: 2 }
    );
}

#[test]
fn enable_forces_a_poll_of_the_receptacle_five_seconds_later() {
    let s = in_phase(0, Phase::Receiving);
    let (s, _) = s.step(query(Some(Command::Enable), 1, 1, 1), 100_000);
    let (s, action) = s.step(Response::Device(true), 100_200);
    assert_eq!(action, Action::QueryBranch { pdu: 1, branch: 1 });
    assert_eq!(stamps(&s), vec![0, 0, -10_000, 100_200 - 30_000 + 5_000, 0]);
    let task = &s.tasks.tasks[3];
    assert!(!task.timed_out(100_200));
    assert!(!task.timed_out(105_200));
    assert!(task.timed_out(105_201));
}

#[test]
fn forced_poll_does_not_depend_on_when_the_task_ran_last() {
    for last in [-500_000i64, 0, 99_000, 100_000] {
        let mut s = in_phase(
            100_000,
            Phase::Commanding { pdu: 1, branch: 1, receptacle: 1, command: DeviceCommand::Disable, attempts: 2 },
        );
        s.tasks.tasks[3].timestamp = last;
        let (s, _) = s.step(Response::Device(true), 100_000);
        assert!(!s.tasks.tasks[3].timed_out(105_000));
        assert!(s.tasks.tasks[3].timed_out(105_001));
    }
}

#[test]
fn identify_forces_no_poll() {
    let s = in_phase(0, Phase::Receiving);
    let (s, action) = s.step(query(Some(Command::Identify), 1, 1, 1), 100);
    assert_eq!(action, command(1, 1, 1, DeviceCommand::Identify));
    let (s, action) = s.step(Response::Device(true), 200);
    assert_eq!(action, Action::Sleep(1000));
    assert_eq!(stamps(&s), vec![0, 0, -10_000, -10_000, 0]);
}

#[test]
fn failing_identify_is_tried_three_times() {
    let s = in_phase(0, Phase::Receiving);
    let (s, _) = s.step(query(Some(Command::Identify), 1, 1, 1), 100);
    let (s, action) = s.step(Response::Device(false), 100);
    assert_eq!(action, command(1, 1, 1, DeviceCommand::Identify));
    let (s, action) = s.step(Response::Device(false), 100);
    assert_eq!(action, command(1, 1, 1, DeviceCommand::Identify));
    let (s, action) = s.step(Response::Device(false), 100);
    assert_eq!(action, Action::Sleep(1000));
    assert_eq!(stamps(&s), vec![0, 0, -10_000, -10_000, 0]);
}

#[test]
fn message_without_a_command_is_ignored() {
    let s = in_phase(0, Phase::Receiving);
    let (s, action) = s.step(query(None, 1, 1, 1), 100);
    assert_eq!(action, Action::Sleep(1000));
    assert_eq!(stamps(&s), vec![0, 0, -10_000, -10_000, 0]);
}

#[test]
fn label_is_set_on_the_fetched_settings() {
    let s = in_phase(0, Phase::Receiving);
    let (s, action) = s.step(query(Some(Command::SetLabel(text("rack-A1"))), 1, 1, 1), 100);
    assert_eq!(action, Action::QueryReceptacle { pdu: 1, branch: 1, receptacle: 1 });
    assert_eq!(s.phase, Phase::Fetching { pdu: 1, branch: 1, receptacle: 1, label: text("rack-A1") });
    let (s, action) = s.step(Response::Receptacle(Some(receptacle_info("old", 10))), 200);
    let wanted = ReceptacleSettings { label: text("rack-A1"), ..receptacle_info("old", 10).settings };
    assert_eq!(
        action,
        Action::StoreSettings { pdu: 1, branch: 1, receptacle: 1, settings: wanted.clone() }
    );
    // the answer is not cached: the receptacle's own task has not run
    assert!(s.tasks.tasks[3].cache.is_none());
    let (s, action) = s.step(Response::Device(false), 300);
    assert_eq!(
        action,
        Action::StoreSettings { pdu: 1, branch: 1, receptacle: 1, settings: wanted.clone() }
    );
    let (s, action) = s.step(Response::Device(true), 400);
    assert_eq!(action, Action::Sleep(1000));
    assert_eq!(s.tasks.tasks[3].timestamp, 400 - 30_000 + 5_000);
}

#[test]
fn storing_settings_is_given_up_after_three_failures() {
    let s = in_phase(0, Phase::Receiving);
    let (s, _) = s.step(query(Some(Command::SetLabel(text("x"))), 1, 1, 1), 100);
    let (s, action) = s.step(Response::Receptacle(Some(receptacle_info("old", 10))), 200);
    assert!(matches!(action, Action::StoreSettings { .. }));
    let (s, action) = s.step(Response::Device(false), 300);
    assert!(matches!(action, Action::StoreSettings { .. }));
    let (s, action) = s.step(Response::Device(false), 300);
    assert!(matches!(action, Action::StoreSettings { .. }));
    let (s, action) = s.step(Response::Device(false), 300);
    assert_eq!(action, Action::Sleep(1000));
    assert_eq!(s.tasks.tasks[3].timestamp, 300 - 30_000 + 5_000);
}

#[test]
fn label_is_dropped_where_the_settings_cannot_be_fetched() {
    let s = in_phase(0, Phase::Receiving);
    let (s, _) = s.step(query(Some(Command::SetLabel(text("x"))), 1, 1, 1), 100);
    let (s, action) = s.step(Response::Receptacle(None), 200);
    assert_eq!(action, Action::Sleep(1000));
    assert_eq!(s.phase, Phase::Closing);
    // the fetch is not tried again, and the poll is forced all the same
    assert_eq!(s.tasks.tasks[3].timestamp, 200 - 30_000 + 5_000);
}

#[test]
fn command_at_the_maintenance_address_forces_no_maintenance_task() {
    let s = in_phase(0, Phase::Receiving);
    let (s, action) = s.step(query(Some(Command::Disable), 0, 0, 0), 100);
    assert_eq!(action, command(0, 0, 0, DeviceCommand::Disable));
    let (s, _) = s.step(Response::Device(true), 200);
    assert_eq!(stamps(&s), vec![0, 0, -10_000, -10_000, 0]);
}

#[test]
fn command_at_a_branch_address_forces_no_branch_task() {
    let s = in_phase(0, Phase::Receiving);
    let (s, _) = s.step(query(Some(Command::Enable), 1, 1, 0), 100);
    let (s, _) = s.step(Response::Device(true), 200);
    assert_eq!(stamps(&s), vec![0, 0, -10_000, -10_000, 0]);
}

#[test]
fn command_for_an_unknown_receptacle_is_sent_and_forces_nothing() {
    let s = in_phase(0, Phase::Receiving);
    let (s, action) = s.step(query(Some(Command::Enable), 7, 7, 7), 100);
    assert_eq!(action, command(7, 7, 7, DeviceCommand::Enable));
    let (s, _) = s.step(Response::Device(true), 200);
    assert_eq!(stamps(&s), vec![0, 0, -10_000, -10_000, 0]);
}

#[test]
fn first_full_round_is_announced_once() {
    let mut s = fresh(0);
    for index in 1..4 {
        s.tasks.tasks[index].cache = Cache::ValueSnapshot(Vec::new());
    }
    let (s, action) = s.step(Response::Done, 10);
    assert_eq!(action, Action::NotifyReady);
    assert_eq!(s.phase, Phase::Announcing);
    assert!(s.ready);
    let (s, action) = s.step(Response::Done, 20);
    assert_eq!(action, Action::Receive);
    let (s, action) = s.step(Response::Inbound(None), 30);
    assert_eq!(action, Action::Sleep(1000));
    let (s, action) = s.step(Response::Done, 1_030);
    assert_eq!(action, Action::Receive);
    assert!(s.ready);
}

#[test]
fn round_is_not_announced_before_every_device_task_has_an_answer() {
    let mut s = fresh(0);
    s.tasks.tasks[1].cache = Cache::ValueSnapshot(Vec::new());
    s.tasks.tasks[3].cache = Cache::ValueSnapshot(Vec::new());
    let (s, action) = s.step(Response::Done, 10);
    assert_eq!(action, Action::Receive);
    assert!(!s.ready);
}

#[test]
fn sweep_follows_the_announcement() {
    let mut s = fresh(0);
    for index in 1..4 {
        s.tasks.tasks[index].cache = Cache::ValueSnapshot(Vec::new());
    }
    let (s, action) = s.step(Response::Done, 3_001);
    assert_eq!(action, Action::NotifyReady);
    let (_, action) = s.step(Response::Done, 3_002);
    assert_eq!(action, Action::FetchEvents);
}

#[test]
fn well_formedness_is_told_at_run_time() {
    assert!(in_phase(0, Phase::Polling { index: 4, swept: true }).is_well_formed());
    assert!(!in_phase(0, Phase::Polling { index: 5, swept: true }).is_well_formed());
    let commanding = |attempts| Phase::Commanding {
        pdu: 1,
        branch: 1,
        receptacle: 1,
        command: DeviceCommand::Enable,
        attempts,
    };
    assert!(!in_phase(0, commanding(0)).is_well_formed());
    assert!(in_phase(0, commanding(1)).is_well_formed());
    assert!(in_phase(0, commanding(3)).is_well_formed());
    assert!(!in_phase(0, commanding(4)).is_well_formed());
    let handling = |plan: Vec<EventStep>, at| Phase::Handling { index: 0, swept: true, plan, at, attempts: 1 };
    assert!(in_phase(0, handling(vec![off(1, 1, 1)], 0)).is_well_formed());
    assert!(!in_phase(0, handling(vec![off(1, 1, 1)], 1)).is_well_formed());
    assert!(!in_phase(0, handling(Vec::new(), 0)).is_well_formed());
}

/// Runs the scheduler against a device that answers every query at once and
/// accepts every command, with a clock that moves one millisecond for each
/// action and by the length of each sleep.
#[test]
fn two_minutes_of_rounds_against_a_willing_device() {
    let mut tasks = setup_tasklist(&vec![at(1, 1, 1), at(1, 1, 2), at(1, 2, 1)], 0);
    tasks.append_systemd_watchdog(0);
    let mut s = Scheduler::new(tasks, text("t"), false);
    let mut now: i64 = 0;
    let mut response = Response::Done;
    let mut announced = 0;
    let mut alive = 0;
    let mut fetched = 0;
    let mut published: Vec<MQTTMsg> = Vec::new();
    let mut polls = 0;
    let mut since_receive: Vec<&str> = Vec::new();
    while now < 120_000 {
        assert!(s.is_well_formed());
        let (next, action) = s.step(response, now);
        s = next;
        now += 1;
        response = match action {
            Action::NotifyReady => {
                announced += 1;
                Response::Done
            }
            Action::NotifyAlive => {
                alive += 1;
                Response::Done
            }
            Action::FetchEvents => {
                fetched += 1;
                Response::Events(Some(Vec::new()))
            }
            Action::QueryPdu { .. } => {
                polls += 1;
                Response::Pdu(Some(pdu_info((now / 40_000) as u32)))
            }
            Action::QueryBranch { .. } => {
                polls += 1;
                Response::Branch(Some(branch_info(230_000)))
            }
            Action::QueryReceptacle { .. } => {
                polls += 1;
                Response::Receptacle(Some(receptacle_info("r", 5)))
            }
            Action::Command { .. } | Action::StoreSettings { .. } => Response::Device(true),
            Action::ReportUnhandled(_) => Response::Done,
            Action::Receive => {
                since_receive.clear();
                Response::Inbound(None)
            }
            Action::Publish(list) => {
                since_receive.push("publish");
                published.extend(list);
                Response::Done
            }
            Action::Sleep(ms) => {
                since_receive.push("sleep");
                now += ms as i64;
                Response::Done
            }
        };
        // a round ends with one publication or one sleep
        assert!(since_receive.len() <= 1);
    }
    assert_eq!(announced, 1);
    assert!(s.ready);
    // every device task has run in each half minute
    assert!(polls >= 6 * 3);
    assert!(alive >= 3);
    assert!(fetched >= 30);
    // the first polls publish everything, later ones only the PDU's changing power
    let first_round = 6 * 24 - 3 * 24 + 3 * 24 + 2 * 28 + 49 - 3 * 24;
    assert_eq!(first_round, 3 * 24 + 2 * 28 + 49);
    let later: Vec<&MQTTMsg> = published.iter().skip(first_round).collect();
    assert_eq!(published.len(), first_round + later.len());
    assert!(later.iter().all(|m| m.topic == "t/pdu-1/status/input-power"));
    assert!(!later.is_empty());
}
