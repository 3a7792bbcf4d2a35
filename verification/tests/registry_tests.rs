use mpx_mqtt::cache::Cache;
use mpx_mqtt::message::MQTTMsg;
use mpx_mqtt::registry::{
    elapsed_at, is_ready, setup_tasklist, Address, TaskList, EARLIEST_SETUP, EVENT_TIMEOUT,
    POLL_TIMEOUT, STAGGER,
};
use mpx_mqtt::task::{Task, TaskKind, TaskPriority};

fn at(pdu: u8, branch: u8, receptacle: u8) -> Address {
    Address { pdu, branch, receptacle }
}

fn plain(kind: TaskKind, pdu: u8, branch: u8, receptacle: u8, timestamp: i64) -> Task {
    Task {
        timestamp,
        timeout: 30_000,
        priority: TaskPriority::LOW,
        kind,
        pdu,
        branch,
        receptacle,
        cache: Cache::Empty,
    }
}

fn shape(list: &TaskList) -> Vec<(TaskKind, u8, u8, u8)> {
    list.tasks.iter().map(|t| (t.kind, t.pdu, t.branch, t.receptacle)).collect()
}

fn count(list: &TaskList, kind: TaskKind) -> usize {
    list.tasks.iter().filter(|t| t.kind == kind).count()
}

#[test]
fn three_receptacles_on_two_branches_of_one_pdu() {
    let list = setup_tasklist(&vec![at(1, 1, 1), at(1, 1, 2), at(1, 2, 1)], 0);
    assert_eq!(count(&list, TaskKind::Pdu), 1);
    assert_eq!(count(&list, TaskKind::Branch), 2);
    assert_eq!(count(&list, TaskKind::Receptacle), 3);
    assert_eq!(count(&list, TaskKind::Events), 1);
    assert_eq!(count(&list, TaskKind::Watchdog), 0);
    assert_eq!(
        shape(&list),
        vec![
            (TaskKind::Events, 0, 0, 0),
            (TaskKind::Pdu, 1, 0, 0),
            (TaskKind::Branch, 1, 1, 0),
            (TaskKind::Receptacle, 1, 1, 1),
            (TaskKind::Receptacle, 1, 1, 2),
            (TaskKind::Branch, 1, 2, 0),
            (TaskKind::Receptacle, 1, 2, 1),
        ]
    );
}

#[test]
fn registry_without_receptacles_holds_the_event_task_only() {
    let list = setup_tasklist(&Vec::new(), 42);
    assert_eq!(list.len(), 1);
    let t = &list.tasks[0];
    assert_eq!(t.kind, TaskKind::Events);
    assert_eq!(t.priority, TaskPriority::HIGH);
    assert_eq!(t.timeout, 3_000);
    assert_eq!(t.timestamp, 42);
    assert_eq!((t.pdu, t.branch, t.receptacle), (0, 0, 0));
    assert!(t.cache.is_none());
}

#[test]
fn cadences_and_priorities_are_fixed() {
    assert_eq!(EVENT_TIMEOUT, 3_000);
    assert_eq!(POLL_TIMEOUT, 30_000);
    assert_eq!(STAGGER, 10_000);
    let list = setup_tasklist(&vec![at(2, 3, 4)], 1_000_000);
    assert_eq!(list.tasks[0].priority, TaskPriority::HIGH);
    assert_eq!(list.tasks[0].timeout, 3_000);
    for t in &list.tasks[1..] {
        assert_eq!(t.priority, TaskPriority::LOW);
        assert_eq!(t.timeout, 30_000);
        assert!(t.cache.is_none());
    }
}

#[test]
fn branch_and_receptacle_tasks_are_dated_back_by_their_branch() {
    let now = 1_000_000;
    let list = setup_tasklist(&vec![at(1, 1, 1), at(1, 2, 1), at(1, 7, 9)], now);
    for t in &list.tasks {
        let expected = match t.kind {
            TaskKind::Branch | TaskKind::Receptacle => now - (t.branch as i64) * 10_000,
            _ => now,
        };
        assert_eq!(t.timestamp, expected);
    }
    assert_eq!(list.tasks[2].timestamp, 990_000);
    assert_eq!(list.tasks[list.len() - 1].timestamp, 930_000);
}

#[test]
fn staggering_does_not_wrap_for_high_branch_numbers() {
    let list = setup_tasklist(&vec![at(1, 255, 1)], 0);
    assert_eq!(list.tasks[2].timestamp, -2_550_000);
    assert_eq!(list.tasks[3].timestamp, -2_550_000);
    let list = setup_tasklist(&vec![at(1, 255, 1)], EARLIEST_SETUP);
    assert_eq!(list.tasks[3].timestamp, i64::MIN);
}

#[test]
fn receptacle_listed_twice_gets_two_tasks() {
    let list = setup_tasklist(&vec![at(1, 1, 1), at(1, 1, 1)], 0);
    assert_eq!(count(&list, TaskKind::Pdu), 1);
    assert_eq!(count(&list, TaskKind::Branch), 1);
    assert_eq!(count(&list, TaskKind::Receptacle), 2);
}

#[test]
fn pdu_zero_gets_no_pdu_task() {
    let list = setup_tasklist(&vec![at(0, 1, 1)], 0);
    assert_eq!(
        shape(&list),
        vec![
            (TaskKind::Events, 0, 0, 0),
            (TaskKind::Branch, 0, 1, 0),
            (TaskKind::Receptacle, 0, 1, 1),
        ]
    );
}

#[test]
fn branch_zero_gets_no_branch_task() {
    let list = setup_tasklist(&vec![at(3, 0, 5)], 0);
    assert_eq!(
        shape(&list),
        vec![(TaskKind::Events, 0, 0, 0), (TaskKind::Pdu, 3, 0, 0), (TaskKind::Receptacle, 3, 0, 5)]
    );
}

#[test]
fn pdus_and_branches_interleaved_are_not_duplicated() {
    let list = setup_tasklist(&vec![at(1, 1, 1), at(2, 1, 1), at(1, 1, 2), at(2, 2, 1), at(1, 2, 1)], 0);
    assert_eq!(count(&list, TaskKind::Pdu), 2);
    assert_eq!(count(&list, TaskKind::Branch), 4);
    assert_eq!(count(&list, TaskKind::Receptacle), 5);
    let receptacles: Vec<(u8, u8, u8)> = list
        .tasks
        .iter()
        .filter(|t| t.kind == TaskKind::Receptacle)
        .map(|t| (t.pdu, t.branch, t.receptacle))
        .collect();
    assert_eq!(receptacles, vec![(1, 1, 1), (2, 1, 1), (1, 1, 2), (2, 2, 1), (1, 2, 1)]);
}

#[test]
fn watchdog_is_appended_last() {
    let mut list = setup_tasklist(&vec![at(1, 1, 1)], 10);
    let before = list.len();
    list.append_systemd_watchdog(77);
    assert_eq!(list.len(), before + 1);
    let t = &list.tasks[before];
    assert_eq!(t.kind, TaskKind::Watchdog);
    assert_eq!(t.priority, TaskPriority::HIGH);
    assert_eq!(t.timeout, 30_000);
    assert_eq!(t.timestamp, 77);
    assert_eq!((t.pdu, t.branch, t.receptacle), (0, 0, 0));
    assert!(t.cache.is_none());
    assert_eq!(list.tasks[0].kind, TaskKind::Events);
}

#[test]
fn contains_looks_at_the_whole_address() {
    let list = setup_tasklist(&vec![at(1, 2, 3)], 0);
    assert!(list.contains(0, 0, 0));
    assert!(list.contains(1, 0, 0));
    assert!(list.contains(1, 2, 0));
    assert!(list.contains(1, 2, 3));
    assert!(!list.contains(1, 2, 4));
    assert!(!list.contains(1, 3, 0));
    assert!(!list.contains(2, 0, 0));
    assert!(!TaskList::new().contains(0, 0, 0));
}

#[test]
fn oldest_is_the_task_that_has_waited_longest() {
    let mut list = TaskList::new();
    assert_eq!(list.get_oldest(100), None);
    list.push(plain(TaskKind::Pdu, 1, 0, 0, 50));
    list.push(plain(TaskKind::Branch, 1, 1, 0, 10));
    list.push(plain(TaskKind::Receptacle, 1, 1, 1, 30));
    assert_eq!(list.get_oldest(100), Some(1));
}

#[test]
fn among_equally_old_tasks_the_last_is_oldest() {
    let mut list = TaskList::new();
    list.push(plain(TaskKind::Pdu, 1, 0, 0, 10));
    list.push(plain(TaskKind::Branch, 1, 1, 0, 10));
    list.push(plain(TaskKind::Receptacle, 1, 1, 1, 50));
    list.push(plain(TaskKind::Receptacle, 1, 1, 2, 10));
    list.push(plain(TaskKind::Receptacle, 1, 1, 3, 11));
    assert_eq!(list.get_oldest(100), Some(3));
}

#[test]
fn tasks_stamped_in_the_future_have_waited_no_time() {
    let mut list = TaskList::new();
    list.push(plain(TaskKind::Pdu, 1, 0, 0, 200));
    list.push(plain(TaskKind::Branch, 1, 1, 0, 300));
    assert_eq!(elapsed_at(&list.tasks[0], 100), 0);
    assert_eq!(elapsed_at(&list.tasks[1], 100), 0);
    assert_eq!(list.get_oldest(100), Some(1));
    list.push(plain(TaskKind::Receptacle, 1, 1, 1, 99));
    list.push(plain(TaskKind::Receptacle, 1, 1, 2, 500));
    assert_eq!(elapsed_at(&list.tasks[2], 100), 1);
    assert_eq!(list.get_oldest(100), Some(2));
}

#[test]
fn oldest_ignores_cadence_and_priority() {
    let mut list = TaskList::new();
    let mut quick = plain(TaskKind::Events, 0, 0, 0, 90);
    quick.timeout = 3;
    quick.priority = TaskPriority::HIGH;
    list.push(quick);
    list.push(plain(TaskKind::Pdu, 1, 0, 0, 80));
    // the first is long overdue by its own cadence, the second has waited longer
    assert_eq!(list.get_oldest(100), Some(1));
}

#[test]
fn reschedule_touches_exactly_the_tasks_at_the_address() {
    let mut list = setup_tasklist(&vec![at(1, 1, 1), at(1, 1, 2)], 0);
    list.append_systemd_watchdog(0);
    let before: Vec<i64> = list.tasks.iter().map(|t| t.timestamp).collect();
    assert!(list.can_reschedule_in(1, 1, 1, 100_000, 5));
    list.reschedule_in(1, 1, 1, 100_000, 5);
    for (i, t) in list.tasks.iter().enumerate() {
        if (t.pdu, t.branch, t.receptacle) == (1, 1, 1) {
            assert_eq!(t.kind, TaskKind::Receptacle);
            assert_eq!(t.timestamp, 100_000 - 30_000 + 5_000);
            assert!(!t.timed_out(105_000));
            assert!(t.timed_out(105_001));
        } else {
            assert_eq!(t.timestamp, before[i]);
        }
    }
}

#[test]
fn reschedule_of_the_maintenance_address_touches_no_maintenance_task() {
    let mut list = setup_tasklist(&vec![at(1, 1, 1)], 0);
    list.append_systemd_watchdog(0);
    let before: Vec<i64> = list.tasks.iter().map(|t| t.timestamp).collect();
    list.reschedule_in(0, 0, 0, 50_000, 5);
    let after: Vec<i64> = list.tasks.iter().map(|t| t.timestamp).collect();
    assert_eq!(before, after);
}

#[test]
fn reschedule_of_a_pdu_or_branch_address_touches_no_task() {
    let mut list = setup_tasklist(&vec![at(1, 1, 1)], 0);
    let before: Vec<i64> = list.tasks.iter().map(|t| t.timestamp).collect();
    list.reschedule_in(1, 0, 0, 50_000, 5);
    list.reschedule_in(1, 1, 0, 50_000, 5);
    let after: Vec<i64> = list.tasks.iter().map(|t| t.timestamp).collect();
    assert_eq!(before, after);
}

#[test]
fn reschedule_touches_the_receptacle_task_among_tasks_that_share_its_address() {
    // a receptacle numbered zero stands at the address of its branch
    let mut list = setup_tasklist(&vec![at(1, 1, 0)], 0);
    assert_eq!(list.tasks[2].kind, TaskKind::Branch);
    assert_eq!(list.tasks[3].kind, TaskKind::Receptacle);
    list.reschedule_in(1, 1, 0, 50_000, 5);
    assert_eq!(list.tasks[2].timestamp, -10_000);
    assert_eq!(list.tasks[3].timestamp, 50_000 - 30_000 + 5_000);
}

#[test]
fn reschedule_of_an_unknown_address_changes_nothing() {
    let mut list = setup_tasklist(&vec![at(1, 1, 1)], 0);
    let before: Vec<i64> = list.tasks.iter().map(|t| t.timestamp).collect();
    list.reschedule_in(9, 9, 9, 50_000, 5);
    let after: Vec<i64> = list.tasks.iter().map(|t| t.timestamp).collect();
    assert_eq!(before, after);
}

#[test]
fn can_reschedule_looks_at_every_task_at_the_address() {
    let mut list = TaskList::new();
    list.push(plain(TaskKind::Receptacle, 1, 2, 3, 0));
    assert!(list.can_reschedule_in(1, 2, 3, i64::MIN + 25_000, 5));
    assert!(!list.can_reschedule_in(1, 2, 3, i64::MIN + 24_999, 5));
    let mut slow = plain(TaskKind::Receptacle, 1, 2, 3, 0);
    slow.timeout = 40_000;
    list.push(slow);
    assert!(!list.can_reschedule_in(1, 2, 3, i64::MIN + 25_000, 5));
    assert!(list.can_reschedule_in(1, 2, 3, i64::MIN + 35_000, 5));
    // tasks at other addresses and tasks of other kinds are not looked at
    assert!(list.can_reschedule_in(2, 0, 0, i64::MIN, 5));
    list.push(plain(TaskKind::Branch, 4, 4, 0, 0));
    assert!(list.can_reschedule_in(4, 4, 0, i64::MIN, 5));
}

#[test]
fn ready_once_every_device_task_has_cached_an_answer() {
    let mut list = setup_tasklist(&vec![at(1, 1, 1)], 0);
    list.append_systemd_watchdog(0);
    assert!(!is_ready(&list));
    for i in 1..3 {
        list.tasks[i].cache = Cache::ValueSnapshot(Vec::new());
        assert!(!is_ready(&list));
    }
    list.tasks[3].cache = Cache::ValueSnapshot(vec![MQTTMsg::new("/a", "1", true)]);
    assert!(is_ready(&list));
}

#[test]
fn maintenance_tasks_do_not_count_for_readiness() {
    let mut list = setup_tasklist(&Vec::new(), 0);
    list.append_systemd_watchdog(0);
    assert!(is_ready(&list));
    assert!(is_ready(&TaskList::new()));
}

#[test]
fn tasks_of_pdu_zero_do_not_count_for_readiness() {
    let list = setup_tasklist(&vec![at(0, 1, 1)], 0);
    assert!(is_ready(&list));
}
