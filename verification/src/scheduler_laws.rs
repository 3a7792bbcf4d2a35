//! What holds of every step of the scheduler.

use crate::cache::{keys_agree, lemma_same_snapshot_publishes_nothing, CacheView};
use crate::message::MsgView;
use crate::mqttify::ToMQTT;
use crate::poll::{branch_path, pdu_path, receptacle_path};
use crate::registry::{all_polled, is_oldest_at, rescheduled};
use crate::retry::{verdict_of, Verdict, MAX_ATTEMPTS};
use crate::scheduler::{
    absorbed, accepted, after_poll, finish_run, is_due_high, next, next_due_high, oldest,
    outbound_all, rescheduled_then_select, ActionView, DeviceCommand, PhaseView, Response,
    SchedulerView, RESCHEDULE_SECONDS,
};
use crate::task::{TaskKind, TaskView};
use vstd::prelude::*;

verus! {

/// The sweep serves the tasks of high priority in registry order: what it
/// finds is due and of high priority, and it has passed over no such task on
/// its way; where it finds none, none is left.
pub proof fn lemma_sweep_finds_the_next_due_task(tasks: Seq<TaskView>, from: int, now: int)
    requires
        0 <= from,
    ensures
        match next_due_high(tasks, from, now) {
            Some(index) => {
                &&& from <= index < tasks.len()
                &&& is_due_high(tasks[index], now)
                &&& forall|i: int| from <= i < index ==> !is_due_high(#[trigger] tasks[i], now)
            },
            None => forall|i: int| from <= i < tasks.len() ==> !is_due_high(#[trigger] tasks[i], now),
        },
    decreases tasks.len() - from,
{
    if from < tasks.len() && !is_due_high(tasks[from], now) {
        lemma_sweep_finds_the_next_due_task(tasks, from + 1, now);
    }
}

/// Every registry that holds a task holds one that has waited longest.
pub proof fn lemma_oldest_exists(tasks: Seq<TaskView>, now: int)
    requires
        tasks.len() > 0,
    ensures
        exists|k: int| is_oldest_at(tasks, now, k),
        oldest(tasks, now) matches Some(k) && is_oldest_at(tasks, now, k),
    decreases tasks.len(),
{
    let last = tasks.len() - 1;
    if tasks.len() == 1 {
        assert(is_oldest_at(tasks, now, 0));
    } else {
        let front = tasks.drop_last();
        lemma_oldest_exists(front, now);
        let k = choose|k: int| is_oldest_at(front, now, k);
        assert(forall|j: int| 0 <= j < front.len() ==> front[j] == tasks[j]);
        if tasks[last].elapsed(now) >= tasks[k].elapsed(now) {
            assert forall|j: int| 0 <= j < tasks.len() implies (#[trigger] tasks[j]).elapsed(now)
                <= tasks[last].elapsed(now) by {
                if j < last {
                    assert(front[j].elapsed(now) <= front[k].elapsed(now));
                }
            }
            assert(is_oldest_at(tasks, now, last));
        } else {
            assert forall|j: int| 0 <= j < tasks.len() implies (#[trigger] tasks[j]).elapsed(now)
                <= tasks[k].elapsed(now) by {
                if j < last {
                    assert(front[j].elapsed(now) <= front[k].elapsed(now));
                }
            }
            assert forall|j: int| k < j < tasks.len() implies (#[trigger] tasks[j]).elapsed(now)
                < tasks[k].elapsed(now) by {
                if j < last {
                    assert(front[j].elapsed(now) < front[k].elapsed(now));
                }
            }
            assert(is_oldest_at(tasks, now, k));
        }
    }
}

/// What never changes about a task.
pub open spec fn same_identity(a: TaskView, b: TaskView) -> bool {
    &&& a.kind == b.kind
    &&& a.priority == b.priority
    &&& a.timeout == b.timeout
    &&& a.pdu == b.pdu
    &&& a.branch == b.branch
    &&& a.receptacle == b.receptacle
}

/// The cache of a task holds what the task's kind caches, if anything.
pub open spec fn cache_fits(task: TaskView) -> bool {
    match task.kind {
        TaskKind::Events => !(task.cache is ValueSnapshot),
        TaskKind::Watchdog => task.cache is Empty,
        _ => !(task.cache is EventSnapshot),
    }
}

/// A step keeps the state well formed.
pub proof fn lemma_step_keeps_well_formed(s: SchedulerView, response: Response, now: int)
    requires
        s.wf(),
    ensures
        next(s, response, now).0.wf(),
{
    lemma_step_keeps_the_tasks(s, response, now);
    lemma_where_a_step_leads(s, response, now);
}

/// The tasks are the same tasks as before: as many, each with its identity, no
/// cache emptied, and each cache still of the kind that its task caches.
pub open spec fn tasks_kept(before: Seq<TaskView>, after: Seq<TaskView>) -> bool {
    &&& after.len() == before.len()
    &&& forall|i: int| 0 <= i < before.len() ==> same_identity(before[i], #[trigger] after[i])
    &&& forall|i: int|
        0 <= i < before.len() && !(before[i].cache is Empty) ==> !((#[trigger] after[i]).cache is Empty)
    &&& forall|i: int|
        0 <= i < before.len() && cache_fits(before[i]) ==> cache_fits(#[trigger] after[i])
}

/// The state is the same but for the phase and for what tasks may change.
pub open spec fn state_kept(before: SchedulerView, after: SchedulerView) -> bool {
    &&& tasks_kept(before.tasks, after.tasks)
    &&& after.prefix == before.prefix
    &&& after.no_retained == before.no_retained
}

/// Keeping is transitive.
proof fn lemma_kept_twice(a: SchedulerView, b: SchedulerView, c: SchedulerView)
    requires
        state_kept(a, b),
        state_kept(b, c),
    ensures
        state_kept(a, c),
{
    assert forall|i: int| 0 <= i < a.tasks.len() implies same_identity(
        a.tasks[i],
        #[trigger] c.tasks[i],
    ) by {
        assert(same_identity(a.tasks[i], b.tasks[i]));
    }
    assert forall|i: int| 0 <= i < a.tasks.len() && !(a.tasks[i].cache is Empty) implies !((
    #[trigger] c.tasks[i]).cache is Empty) by {
        assert(!(b.tasks[i].cache is Empty));
    }
    assert forall|i: int| 0 <= i < a.tasks.len() && cache_fits(a.tasks[i]) implies cache_fits(
        #[trigger] c.tasks[i],
    ) by {
        assert(cache_fits(b.tasks[i]));
    }
}

/// Replacing one task by a task of the same identity keeps the state, if the
/// new cache is no emptier than the old and fits the task.
proof fn lemma_kept_with_task(s: SchedulerView, index: int, task: TaskView)
    requires
        0 <= index < s.tasks.len(),
        same_identity(s.tasks[index], task),
        !(s.tasks[index].cache is Empty) ==> !(task.cache is Empty),
        cache_fits(s.tasks[index]) ==> cache_fits(task),
    ensures
        state_kept(s, s.with_task(index, task)),
{
}

/// Ending a run keeps the state.
proof fn lemma_kept_by_finish(
    s: SchedulerView,
    index: int,
    swept: bool,
    published: Seq<MsgView>,
    now: int,
)
    requires
        0 <= index < s.tasks.len(),
    ensures
        state_kept(s, finish_run(s, index, swept, published, now).0),
{
    lemma_kept_with_task(s, index, s.tasks[index].stamped(now));
}

/// Taking the answer to a query keeps the state.
proof fn lemma_kept_by_poll(s: SchedulerView, index: int, swept: bool, response: Response, now: int)
    requires
        0 <= index < s.tasks.len(),
    ensures
        state_kept(s, after_poll(s, index, swept, response, now).0),
{
    let task = s.tasks[index];
    let after = after_poll(s, index, swept, response, now).0;
    match (task.kind, response) {
        (TaskKind::Events, Response::Events(Some(events))) => {
            let remembered = s.with_task(
                index,
                task.remembering(CacheView::EventSnapshot(events@)),
            );
            lemma_kept_with_task(s, index, task.remembering(CacheView::EventSnapshot(events@)));
            lemma_kept_by_finish(remembered, index, swept, Seq::empty(), now);
            lemma_kept_twice(
                s,
                remembered,
                finish_run(remembered, index, swept, Seq::empty(), now).0,
            );
        },
        (TaskKind::Pdu, Response::Pdu(Some(info))) => {
            lemma_kept_by_snapshot(
                s,
                index,
                swept,
                info.mqtt_view(pdu_path(task.pdu)),
                now,
            );
        },
        (TaskKind::Branch, Response::Branch(Some(info))) => {
            lemma_kept_by_snapshot(
                s,
                index,
                swept,
                info.mqtt_view(branch_path(task.pdu, task.branch)),
                now,
            );
        },
        (TaskKind::Receptacle, Response::Receptacle(Some(info))) => {
            lemma_kept_by_snapshot(
                s,
                index,
                swept,
                info.mqtt_view(receptacle_path(task.pdu, task.branch, task.receptacle)),
                now,
            );
        },
        _ => {
            lemma_kept_by_finish(s, index, swept, Seq::empty(), now);
        },
    }
}

/// Taking a value snapshot keeps the state, for a task that caches values.
proof fn lemma_kept_by_snapshot(
    s: SchedulerView,
    index: int,
    swept: bool,
    new: Seq<MsgView>,
    now: int,
)
    requires
        0 <= index < s.tasks.len(),
        s.tasks[index].kind == TaskKind::Pdu || s.tasks[index].kind == TaskKind::Branch
            || s.tasks[index].kind == TaskKind::Receptacle,
    ensures
        state_kept(s, absorbed(s, index, swept, new, now).0),
{
    let task = s.tasks[index];
    let remembered = s.with_task(index, task.remembering(CacheView::ValueSnapshot(new)));
    lemma_kept_with_task(s, index, task.remembering(CacheView::ValueSnapshot(new)));
    lemma_kept_by_finish(remembered, index, swept, task.cache.diff(new), now);
    lemma_kept_twice(
        s,
        remembered,
        finish_run(remembered, index, swept, task.cache.diff(new), now).0,
    );
}

/// A forced reschedule keeps the state.
proof fn lemma_kept_by_reschedule(s: SchedulerView, pdu: u8, branch: u8, receptacle: u8, now: int)
    ensures
        state_kept(
            s,
            rescheduled_then_select(s, pdu, branch, receptacle, now).0,
        ),
{
}

/// No step adds or removes a task, and none changes what a task is: its kind,
/// its priority, its cadence and its address stay. A cache that holds
/// something never becomes empty again, and it goes on holding what the
/// task's kind caches.
pub proof fn lemma_step_keeps_the_tasks(s: SchedulerView, response: Response, now: int)
    requires
        s.wf(),
    ensures
        state_kept(s, next(s, response, now).0),
{
    match s.phase {
        PhaseView::Polling { index, swept } => {
            lemma_kept_by_poll(s, index, swept, response, now);
        },
        PhaseView::Handling { index, swept, plan, at, attempts } => {
            lemma_kept_by_finish(s, index, swept, Seq::empty(), now);
        },
        PhaseView::Commanding { pdu, branch, receptacle, .. } => {
            lemma_kept_by_reschedule(s, pdu, branch, receptacle, now);
        },
        PhaseView::Fetching { pdu, branch, receptacle, .. } => {
            lemma_kept_by_reschedule(s, pdu, branch, receptacle, now);
        },
        PhaseView::Storing { pdu, branch, receptacle, .. } => {
            lemma_kept_by_reschedule(s, pdu, branch, receptacle, now);
        },
        _ => {},
    }
}

/// The first full round is announced at most once: the announcement is made
/// only while it has not been made, it is made only when every task that
/// queries the device has cached an answer, and once made it is never taken
/// back.
pub proof fn lemma_ready_is_announced_once(s: SchedulerView, response: Response, now: int)
    requires
        s.wf(),
    ensures
        s.ready ==> next(s, response, now).0.ready,
        s.ready ==> next(s, response, now).1 != ActionView::NotifyReady,
        next(s, response, now).1 == ActionView::NotifyReady ==> !s.ready && all_polled(s.tasks)
            && next(s, response, now).0.ready,
        next(s, response, now).0.ready != s.ready ==> next(s, response, now).1
            == ActionView::NotifyReady,
{
    lemma_where_a_step_leads(s, response, now);
}

/// The state waits for the device to answer a command or new settings.
pub open spec fn is_attempting(phase: PhaseView) -> bool {
    ||| phase is Commanding
    ||| phase is Storing
    ||| phase matches PhaseView::Handling { plan, at, .. } && 0 <= at < plan.len() && plan[at] is Disable
}

/// The number of the attempt that is under way.
pub open spec fn attempt_of(phase: PhaseView) -> int {
    match phase {
        PhaseView::Commanding { attempts, .. } => attempts,
        PhaseView::Storing { attempts, .. } => attempts,
        PhaseView::Handling { attempts, .. } => attempts,
        _ => 0,
    }
}

/// The two states wait for the answer to the same request.
pub open spec fn same_request(a: PhaseView, b: PhaseView) -> bool {
    match (a, b) {
        (
            PhaseView::Commanding { pdu, branch, receptacle, command, .. },
            PhaseView::Commanding { pdu: p, branch: b, receptacle: r, command: c, .. },
        ) => pdu == p && branch == b && receptacle == r && command == c,
        (
            PhaseView::Storing { pdu, branch, receptacle, settings, .. },
            PhaseView::Storing { pdu: p, branch: b, receptacle: r, settings: t, .. },
        ) => pdu == p && branch == b && receptacle == r && settings == t,
        (
            PhaseView::Handling { index, swept, plan, at, .. },
            PhaseView::Handling { index: i, swept: w, plan: q, at: a, .. },
        ) => index == i && swept == w && plan == q && at == a,
        _ => false,
    }
}

/// A command to the device is tried at most as often as is allowed, and it is
/// tried again only after a failure: the same request stays under way exactly
/// where the device did not accept it and an attempt is left, and then as the
/// next attempt in count.
pub proof fn lemma_attempts_are_counted(s: SchedulerView, response: Response, now: int)
    requires
        s.wf(),
        is_attempting(s.phase),
    ensures
        1 <= attempt_of(s.phase) <= MAX_ATTEMPTS,
        same_request(s.phase, next(s, response, now).0.phase) <==> verdict_of(
            attempt_of(s.phase),
            accepted(response),
        ) == Verdict::Again,
        same_request(s.phase, next(s, response, now).0.phase) <==> !accepted(response)
            && attempt_of(s.phase) < MAX_ATTEMPTS,
        same_request(s.phase, next(s, response, now).0.phase) ==> attempt_of(
            next(s, response, now).0.phase,
        ) == attempt_of(s.phase) + 1,
        is_attempting(next(s, response, now).0.phase) && !same_request(
            s.phase,
            next(s, response, now).0.phase,
        ) ==> attempt_of(next(s, response, now).0.phase) == 1,
{
    lemma_where_a_step_leads(s, response, now);
}

/// An event that nothing is done about is reported once: whatever comes back
/// for the report, the run moves on to the next event or ends.
pub proof fn lemma_reports_are_made_once(s: SchedulerView, response: Response, now: int)
    requires
        s.wf(),
        s.phase matches PhaseView::Handling { plan, at, .. } && plan[at] is Unhandled,
    ensures
        !same_request(s.phase, next(s, response, now).0.phase),
        s.phase matches PhaseView::Handling { index, swept, plan, at, .. } ==> (if at + 1
            < plan.len() {
            next(s, response, now).0.phase == (PhaseView::Handling {
                index,
                swept,
                plan,
                at: at + 1,
                attempts: 1,
            })
        } else {
            !(next(s, response, now).0.phase is Handling)
        }),
{
    lemma_where_a_step_leads(s, response, now);
}

/// A command that the device refuses twice is sent a third time, and whatever
/// the device answers then, it is not sent a fourth time.
pub proof fn lemma_no_fourth_attempt(
    s: SchedulerView,
    first: Response,
    second: Response,
    third: Response,
    now: int,
)
    requires
        s.wf(),
        is_attempting(s.phase),
        attempt_of(s.phase) == 1,
        !accepted(first),
        !accepted(second),
    ensures
        ({
            let (s1, a1) = next(s, first, now);
            let (s2, a2) = next(s1, second, now);
            let (s3, a3) = next(s2, third, now);
            &&& same_request(s.phase, s1.phase) && attempt_of(s1.phase) == 2
            &&& same_request(s.phase, s2.phase) && attempt_of(s2.phase) == 3
            &&& a1 == a2
            &&& !same_request(s.phase, s3.phase)
        }),
{
    let (s1, a1) = next(s, first, now);
    lemma_attempts_are_counted(s, first, now);
    lemma_step_keeps_well_formed(s, first, now);
    let (s2, a2) = next(s1, second, now);
    lemma_attempts_are_counted(s1, second, now);
    lemma_step_keeps_well_formed(s1, second, now);
    lemma_attempts_are_counted(s2, third, now);
}

/// Where a step leads: a run that starts is the run of a task that exists and
/// that has earned it, and each waiting state goes with its own action.
proof fn lemma_where_a_step_leads(s: SchedulerView, response: Response, now: int)
    requires
        s.wf(),
    ensures
        ({
            let (after, action) = next(s, response, now);
            &&& after.phase matches PhaseView::Polling { index, swept } ==> {
                &&& 0 <= index < s.tasks.len()
                &&& swept ==> is_due_high(after.tasks[index], now)
                &&& !swept ==> is_oldest_at(after.tasks, now, index) && after.tasks[index].is_due(
                    now,
                )
            }
            &&& after.phase is Receiving ==> action == ActionView::Receive
            &&& action == ActionView::Receive ==> after.phase is Receiving
            &&& after.phase is Announcing <==> action == ActionView::NotifyReady
            &&& after.phase is Closing <==> (action is Sleep || action is Publish)
        }),
{
    let (after, action) = next(s, response, now);
    assert forall|t: Seq<TaskView>, from: int| 0 <= from implies match #[trigger] next_due_high(
        t,
        from,
        now,
    ) {
        Some(index) => from <= index < t.len() && is_due_high(t[index], now),
        None => true,
    } by {
        lemma_sweep_finds_the_next_due_task(t, from, now);
    }
    assert forall|t: Seq<TaskView>| t.len() > 0 implies (#[trigger] oldest(t, now)) matches Some(k)
        && is_oldest_at(t, now, k) by {
        lemma_oldest_exists(t, now);
    }
}

/// The parts of a round come in their order. The inbound queue is asked only
/// when the sweep over the tasks of high priority is through, and then no
/// task of high priority that the sweep had still to look at is due. The task
/// that has waited longest is looked for only after the inbound queue was
/// asked, so that no round takes more than one command.
pub proof fn lemma_round_keeps_its_order(s: SchedulerView, response: Response, now: int)
    requires
        s.wf(),
    ensures
        ({
            let (after, action) = next(s, response, now);
            &&& action == ActionView::Receive ==> {
                ||| s.phase is Idle
                ||| s.phase is Closing
                ||| s.phase is Announcing
                ||| s.phase matches PhaseView::Polling { swept: true, .. }
                ||| s.phase matches PhaseView::Handling { swept: true, .. }
            }
            &&& action == ActionView::Receive && (s.phase is Idle || s.phase is Closing
                || s.phase is Announcing) ==> forall|i: int|
                0 <= i < after.tasks.len() ==> !is_due_high(#[trigger] after.tasks[i], now)
            &&& action == ActionView::Receive ==> (s.phase matches PhaseView::Polling {
                index,
                swept: true,
            } ==> forall|i: int|
                index < i < after.tasks.len() ==> !is_due_high(#[trigger] after.tasks[i], now))
            &&& action == ActionView::Receive ==> (s.phase matches PhaseView::Handling {
                index,
                swept: true,
                ..
            } ==> forall|i: int|
                index < i < after.tasks.len() ==> !is_due_high(#[trigger] after.tasks[i], now))
            &&& (after.phase matches PhaseView::Polling { swept: false, .. } || action is Sleep) ==> {
                ||| s.phase is Receiving
                ||| s.phase is Commanding
                ||| s.phase is Fetching
                ||| s.phase is Storing
            }
            &&& (after.phase is Commanding || after.phase is Fetching) ==> s.phase is Receiving
                || same_request(s.phase, after.phase)
        }),
{
    let (after, action) = next(s, response, now);
    assert forall|t: Seq<TaskView>, from: int| 0 <= from implies match #[trigger] next_due_high(
        t,
        from,
        now,
    ) {
        Some(index) => from <= index < t.len() && is_due_high(t[index], now),
        None => forall|i: int| from <= i < t.len() ==> !is_due_high(#[trigger] t[i], now),
    } by {
        lemma_sweep_finds_the_next_due_task(t, from, now);
    }
}

/// The task that runs at the end of a round is the one that has waited
/// longest of all, whatever its priority and its cadence, and it is due; and
/// a task that the sweep runs is of high priority and due.
pub proof fn lemma_runs_are_earned(s: SchedulerView, response: Response, now: int)
    requires
        s.wf(),
    ensures
        ({
            let (after, action) = next(s, response, now);
            after.phase matches PhaseView::Polling { index, swept } ==> {
                &&& 0 <= index < after.tasks.len()
                &&& swept ==> is_due_high(after.tasks[index], now)
                &&& !swept ==> is_oldest_at(after.tasks, now, index) && after.tasks[index].is_due(
                    now,
                )
            }
        }),
{
    lemma_where_a_step_leads(s, response, now);
    lemma_step_keeps_the_tasks(s, response, now);
}

/// When a command that enables or disables a receptacle is over, whether the
/// device accepted it or the last attempt failed, the receptacle's task is due
/// from five seconds after that moment on and not before, whatever its
/// cadence and whenever it ran last. No other task is touched, also none of
/// another kind that shares the address.
pub proof fn lemma_command_forces_a_fresh_poll(
    s: SchedulerView,
    response: Response,
    now: int,
    later: int,
)
    requires
        s.wf(),
        s.phase matches PhaseView::Commanding { command, attempts, .. } && command
            != DeviceCommand::Identify && (accepted(response) || attempts >= MAX_ATTEMPTS),
        forall|i: int| 0 <= i < s.tasks.len() ==> (#[trigger] s.tasks[i]).timeout >= 0,
    ensures
        ({
            let after = next(s, response, now).0;
            &&& after.tasks.len() == s.tasks.len()
            &&& s.phase matches PhaseView::Commanding { pdu, branch, receptacle, .. } ==> forall|
                i: int,
            |
                0 <= i < s.tasks.len() ==> if (#[trigger] s.tasks[i]).polls_receptacle(
                    pdu,
                    branch,
                    receptacle,
                ) {
                    after.tasks[i].is_due(later) <==> later > now + RESCHEDULE_SECONDS * 1000
                } else {
                    after.tasks[i] == s.tasks[i]
                }
        }),
{
}

/// Setting a label forces the same fresh poll, whether the settings could be
/// fetched and written or not.
pub proof fn lemma_label_forces_a_fresh_poll(
    s: SchedulerView,
    response: Response,
    now: int,
    later: int,
)
    requires
        s.wf(),
        forall|i: int| 0 <= i < s.tasks.len() ==> (#[trigger] s.tasks[i]).timeout >= 0,
        ({
            ||| s.phase is Fetching && !(response matches Response::Receptacle(Some(_)))
            ||| s.phase matches PhaseView::Storing { attempts, .. } && (accepted(response)
                || attempts >= MAX_ATTEMPTS)
        }),
    ensures
        ({
            let after = next(s, response, now).0;
            let (pdu, branch, receptacle) = match s.phase {
                PhaseView::Fetching { pdu, branch, receptacle, .. } => (pdu, branch, receptacle),
                PhaseView::Storing { pdu, branch, receptacle, .. } => (pdu, branch, receptacle),
                _ => (0u8, 0u8, 0u8),
            };
            &&& after.tasks.len() == s.tasks.len()
            &&& forall|i: int|
                0 <= i < s.tasks.len() ==> if (#[trigger] s.tasks[i]).polls_receptacle(
                    pdu,
                    branch,
                    receptacle,
                ) {
                    after.tasks[i].is_due(later) <==> later > now + RESCHEDULE_SECONDS * 1000
                } else {
                    after.tasks[i] == s.tasks[i]
                }
        }),
{
}

/// Identifying a receptacle changes no task.
pub proof fn lemma_identify_forces_nothing(s: SchedulerView, response: Response, now: int)
    requires
        s.wf(),
        s.phase matches PhaseView::Commanding { command: DeviceCommand::Identify, .. },
    ensures
        next(s, response, now).0.tasks == s.tasks,
{
}

/// The value snapshot that an answer brings to a task, where the answer is
/// of the task's kind.
pub open spec fn snapshot_in(task: TaskView, response: Response) -> Option<Seq<MsgView>> {
    match (task.kind, response) {
        (TaskKind::Pdu, Response::Pdu(Some(info))) => Some(info.mqtt_view(pdu_path(task.pdu))),
        (TaskKind::Branch, Response::Branch(Some(info))) => Some(
            info.mqtt_view(branch_path(task.pdu, task.branch)),
        ),
        (TaskKind::Receptacle, Response::Receptacle(Some(info))) => Some(
            info.mqtt_view(receptacle_path(task.pdu, task.branch, task.receptacle)),
        ),
        _ => None,
    }
}

/// When the task that was chosen at the end of a round gets its answer, what
/// the answer adds to the task's cache is published, each message with the
/// prefix and in the order of the answer; the task remembers the whole answer
/// and not only what was published; it is stamped with the moment; and the
/// round is over.
pub proof fn lemma_poll_publishes_the_difference(
    s: SchedulerView,
    response: Response,
    now: int,
    index: int,
    new: Seq<MsgView>,
)
    requires
        s.wf(),
        s.phase == (PhaseView::Polling { index, swept: false }),
        snapshot_in(s.tasks[index], response) == Some(new),
    ensures
        next(s, response, now).1 == ActionView::Publish(
            outbound_all(s.prefix, s.no_retained, s.tasks[index].cache.diff(new)),
        ),
        next(s, response, now).0 == s.with_task(
            index,
            s.tasks[index].remembering(CacheView::ValueSnapshot(new)).stamped(now),
        ).in_phase(PhaseView::Closing),
{
    let task = s.tasks[index];
    let remembered = s.with_task(index, task.remembering(CacheView::ValueSnapshot(new)));
    assert(remembered.tasks.update(index, remembered.tasks[index].stamped(now)) =~= s.tasks.update(
        index,
        task.remembering(CacheView::ValueSnapshot(new)).stamped(now),
    ));
}

/// A run whose query failed, or was answered by something that is no answer
/// to it, publishes nothing and changes no cache; its task is stamped all the
/// same, so that the query is made again when the cadence has passed.
pub proof fn lemma_failed_poll_waits_for_the_next_turn(
    s: SchedulerView,
    response: Response,
    now: int,
    index: int,
)
    requires
        s.wf(),
        s.phase == (PhaseView::Polling { index, swept: false }),
        snapshot_in(s.tasks[index], response) is None,
        !(s.tasks[index].kind == TaskKind::Events && response matches Response::Events(Some(_))),
    ensures
        next(s, response, now).1 == ActionView::Publish(Seq::empty()),
        next(s, response, now).0 == s.with_task(index, s.tasks[index].stamped(now)).in_phase(
            PhaseView::Closing,
        ),
{
    assert(outbound_all(s.prefix, s.no_retained, Seq::empty()) =~= Seq::<MsgView>::empty());
}

/// A run that ends stamps its task with the moment it ended, and no step of a
/// run touches another task.
pub proof fn lemma_finished_run_is_stamped(s: SchedulerView, response: Response, now: int)
    requires
        s.wf(),
        s.phase is Polling || s.phase is Handling,
    ensures
        ({
            let after = next(s, response, now).0;
            let index = match s.phase {
                PhaseView::Polling { index, .. } => index,
                PhaseView::Handling { index, .. } => index,
                _ => 0,
            };
            &&& !(after.phase is Handling) ==> after.tasks[index].timestamp == now
            &&& after.phase is Handling ==> after.tasks[index].timestamp == s.tasks[index].timestamp
            &&& forall|i: int|
                0 <= i < s.tasks.len() && i != index ==> #[trigger] after.tasks[i] == s.tasks[i]
        }),
{
}

/// A poll that brings the very answer that the task remembers publishes
/// nothing, where entries of the answer that share a key share their value.
pub proof fn lemma_repeated_poll_publishes_nothing(
    s: SchedulerView,
    response: Response,
    now: int,
    index: int,
    new: Seq<MsgView>,
)
    requires
        s.wf(),
        s.phase == (PhaseView::Polling { index, swept: false }),
        snapshot_in(s.tasks[index], response) == Some(new),
        s.tasks[index].cache == CacheView::ValueSnapshot(new),
        keys_agree(new),
    ensures
        next(s, response, now).1 == ActionView::Publish(Seq::empty()),
        next(s, response, now).0.tasks[index].cache == CacheView::ValueSnapshot(new),
{
    lemma_poll_publishes_the_difference(s, response, now, index, new);
    lemma_same_snapshot_publishes_nothing(new);
    assert(outbound_all(s.prefix, s.no_retained, Seq::empty()) =~= Seq::<MsgView>::empty());
}

/// The runs of the two maintenance tasks publish nothing: whenever a step of
/// the event task's run or of the liveness task's run ends in a publication,
/// the publication is empty.
pub proof fn lemma_maintenance_tasks_publish_nothing(s: SchedulerView, response: Response, now: int)
    requires
        s.wf(),
        ({
            ||| s.phase matches PhaseView::Polling { index, .. } && (s.tasks[index].kind
                == TaskKind::Events || s.tasks[index].kind == TaskKind::Watchdog)
            ||| s.phase is Handling
        }),
    ensures
        next(s, response, now).1 is Publish ==> next(s, response, now).1 == ActionView::Publish(
            Seq::empty(),
        ),
{
    assert(outbound_all(s.prefix, s.no_retained, Seq::empty()) =~= Seq::<MsgView>::empty());
}

/// Where the settings of a receptacle cannot be fetched, its label is not
/// set: nothing is written to the device, the fetch is not made again, and
/// the round goes on with the receptacle's task forced to poll soon.
pub proof fn lemma_failed_fetch_drops_the_label(s: SchedulerView, response: Response, now: int)
    requires
        s.wf(),
        s.phase is Fetching,
        !(response matches Response::Receptacle(Some(_))),
    ensures
        !(next(s, response, now).1 is StoreSettings),
        !(next(s, response, now).0.phase is Storing),
        !(next(s, response, now).0.phase is Fetching),
        s.phase matches PhaseView::Fetching { pdu, branch, receptacle, .. } ==> next(
            s,
            response,
            now,
        ).0.tasks == rescheduled(
            s.tasks,
            pdu,
            branch,
            receptacle,
            now,
            RESCHEDULE_SECONDS as int,
        ),
{
    lemma_where_a_step_leads(s, response, now);
}

} // verus!
