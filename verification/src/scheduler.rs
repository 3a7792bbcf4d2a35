//! The control loop as a state machine.
//!
//! The loop itself runs in the caller: it hands each answer from the outside
//! world to `Scheduler::step` together with the reading of the clock, and
//! performs the action that comes back. One round serves every due task of
//! high priority in registry order, then takes at most one inbound command,
//! then runs the task that has waited longest if it is due, and sleeps
//! otherwise.

use crate::cache::CacheView;
use crate::command::{Command, Query};
use crate::event::{Event, EventList};
use crate::message::{msgs_view, MQTTMsg, MQTTMsgList, MsgView};
use crate::mqttify::{BranchInfo, PDUInfo, ReceptacleInfo, ReceptacleSettings, ToMQTT};
use crate::poll::{
    branch_path, event_actions, pdu_path, read_branch, read_events, read_pdu, read_receptacle,
    receptacle_path, EventStep,
};
use crate::registry::{all_polled, is_oldest_at, is_ready, rescheduled, TaskList};
use crate::retry::{verdict, verdict_of, Verdict, MAX_ATTEMPTS};
use crate::task::{Task, TaskKind, TaskPriority, TaskView};
use crate::text::join;
use vstd::prelude::*;
use vstd::string::*;

verus! {

/// How long the loop sleeps when nothing is due, in milliseconds.
pub const IDLE_SLEEP: u32 = 1000;

/// How long after a command the receptacle is polled again, in seconds.
pub const RESCHEDULE_SECONDS: u8 = 5;

/// The earliest reading of the clock that the scheduler works with.
pub const CLOCK_MIN: i64 = -4611686018427387904;

/// The latest reading of the clock that the scheduler works with.
pub const CLOCK_MAX: i64 = 4611686018427387904;

/// A command that the device carries out on a receptacle.
#[derive(Clone, Copy, Debug, PartialEq, Eq, Structural)]
pub enum DeviceCommand {
    Enable,
    Disable,
    Identify,
}

/// What the caller is to do next.
#[derive(Debug, PartialEq, Eq)]
pub enum Action {
    /// Tell the supervisor that the first full round is over.
    NotifyReady,
    /// Tell the supervisor that the process is alive.
    NotifyAlive,
    /// Fetch the device's event feed.
    FetchEvents,
    /// Query a PDU.
    QueryPdu { pdu: u8 },
    /// Query a branch.
    QueryBranch { pdu: u8, branch: u8 },
    /// Query a receptacle.
    QueryReceptacle { pdu: u8, branch: u8, receptacle: u8 },
    /// Send a command to a receptacle, once.
    Command { pdu: u8, branch: u8, receptacle: u8, command: DeviceCommand },
    /// Write the settings of a receptacle, once.
    StoreSettings { pdu: u8, branch: u8, receptacle: u8, settings: ReceptacleSettings },
    /// Report that nothing is done about this event of the feed.
    ReportUnhandled(Event),
    /// Take one command from the inbound queue if one is waiting.
    Receive,
    /// Publish these messages, in this order. A failure ends the loop.
    Publish(MQTTMsgList),
    /// Sleep this many milliseconds.
    Sleep(u32),
}

/// An action as the contracts see it.
pub ghost enum ActionView {
    NotifyReady,
    NotifyAlive,
    FetchEvents,
    QueryPdu { pdu: u8 },
    QueryBranch { pdu: u8, branch: u8 },
    QueryReceptacle { pdu: u8, branch: u8, receptacle: u8 },
    Command { pdu: u8, branch: u8, receptacle: u8, command: DeviceCommand },
    StoreSettings { pdu: u8, branch: u8, receptacle: u8, settings: ReceptacleSettings },
    ReportUnhandled(Event),
    Receive,
    Publish(Seq<MsgView>),
    Sleep(u32),
}

impl View for Action {
    type V = ActionView;

    open spec fn view(&self) -> ActionView {
        match self {
            Action::NotifyReady => ActionView::NotifyReady,
            Action::NotifyAlive => ActionView::NotifyAlive,
            Action::FetchEvents => ActionView::FetchEvents,
            Action::QueryPdu { pdu } => ActionView::QueryPdu { pdu: *pdu },
            Action::QueryBranch { pdu, branch } => ActionView::QueryBranch {
                pdu: *pdu,
                branch: *branch,
            },
            Action::QueryReceptacle { pdu, branch, receptacle } => ActionView::QueryReceptacle {
                pdu: *pdu,
                branch: *branch,
                receptacle: *receptacle,
            },
            Action::Command { pdu, branch, receptacle, command } => ActionView::Command {
                pdu: *pdu,
                branch: *branch,
                receptacle: *receptacle,
                command: *command,
            },
            Action::StoreSettings { pdu, branch, receptacle, settings } => ActionView::StoreSettings {
                pdu: *pdu,
                branch: *branch,
                receptacle: *receptacle,
                settings: *settings,
            },
            Action::ReportUnhandled(event) => ActionView::ReportUnhandled(*event),
            Action::Receive => ActionView::Receive,
            Action::Publish(list) => ActionView::Publish(msgs_view(list@)),
            Action::Sleep(ms) => ActionView::Sleep(*ms),
        }
    }
}

/// What the outside world answered to the last action. An answer that does
/// not fit the action counts as its failure.
#[derive(Debug, PartialEq, Eq)]
pub enum Response {
    /// The action is done and has nothing to report. Also the answer to give
    /// to the very first step.
    Done,
    /// The event feed, or nothing where fetching it failed.
    Events(Option<EventList>),
    /// The answer of a PDU, or nothing where the query failed.
    Pdu(Option<PDUInfo>),
    /// The answer of a branch, or nothing where the query failed.
    Branch(Option<BranchInfo>),
    /// The answer of a receptacle, or nothing where the query failed.
    Receptacle(Option<ReceptacleInfo>),
    /// Whether the device accepted a command or new settings.
    Device(bool),
    /// The command that was waiting in the inbound queue, if any.
    Inbound(Option<Query>),
}

/// Where in a round the scheduler stands, and what it waits for.
#[derive(Debug, PartialEq, Eq)]
pub enum Phase {
    /// No round is under way.
    Idle,
    /// The supervisor is being told that the first full round is over.
    Announcing,
    /// Task `index` runs and its query is under way. `swept` tells whether
    /// the sweep over the tasks of high priority started it.
    Polling { index: usize, swept: bool },
    /// Task `index` has read an event feed and goes through it: the step
    /// `plan[at]` is under way, for the `attempts`-th time.
    Handling { index: usize, swept: bool, plan: Vec<EventStep>, at: usize, attempts: u8 },
    /// The inbound queue is being asked for a command.
    Receiving,
    /// An inbound command is under way for the `attempts`-th time.
    Commanding { pdu: u8, branch: u8, receptacle: u8, command: DeviceCommand, attempts: u8 },
    /// The settings of a receptacle are being fetched to give it this label.
    Fetching { pdu: u8, branch: u8, receptacle: u8, label: String },
    /// New settings are being written for the `attempts`-th time.
    Storing { pdu: u8, branch: u8, receptacle: u8, settings: ReceptacleSettings, attempts: u8 },
    /// The round ends with the action that is under way.
    Closing,
}

/// A phase as the contracts see it.
pub ghost enum PhaseView {
    Idle,
    Announcing,
    Polling { index: int, swept: bool },
    Handling { index: int, swept: bool, plan: Seq<EventStep>, at: int, attempts: int },
    Receiving,
    Commanding { pdu: u8, branch: u8, receptacle: u8, command: DeviceCommand, attempts: int },
    Fetching { pdu: u8, branch: u8, receptacle: u8, label: String },
    Storing { pdu: u8, branch: u8, receptacle: u8, settings: ReceptacleSettings, attempts: int },
    Closing,
}

impl View for Phase {
    type V = PhaseView;

    open spec fn view(&self) -> PhaseView {
        match self {
            Phase::Idle => PhaseView::Idle,
            Phase::Announcing => PhaseView::Announcing,
            Phase::Polling { index, swept } => PhaseView::Polling {
                index: *index as int,
                swept: *swept,
            },
            Phase::Handling { index, swept, plan, at, attempts } => PhaseView::Handling {
                index: *index as int,
                swept: *swept,
                plan: plan@,
                at: *at as int,
                attempts: *attempts as int,
            },
            Phase::Receiving => PhaseView::Receiving,
            Phase::Commanding { pdu, branch, receptacle, command, attempts } => PhaseView::Commanding {
                pdu: *pdu,
                branch: *branch,
                receptacle: *receptacle,
                command: *command,
                attempts: *attempts as int,
            },
            Phase::Fetching { pdu, branch, receptacle, label } => PhaseView::Fetching {
                pdu: *pdu,
                branch: *branch,
                receptacle: *receptacle,
                label: *label,
            },
            Phase::Storing { pdu, branch, receptacle, settings, attempts } => PhaseView::Storing {
                pdu: *pdu,
                branch: *branch,
                receptacle: *receptacle,
                settings: *settings,
                attempts: *attempts as int,
            },
            Phase::Closing => PhaseView::Closing,
        }
    }
}

/// The scheduler: the registry, whether the first full round was announced,
/// how messages are sent out, and the phase of the round.
#[derive(Debug, PartialEq, Eq)]
pub struct Scheduler {
    pub tasks: TaskList,
    pub ready: bool,
    /// Goes in front of every published topic.
    pub prefix: String,
    /// Publish nothing as retained, whatever the message says.
    pub no_retained: bool,
    pub phase: Phase,
}

/// The scheduler as the contracts see it.
pub ghost struct SchedulerView {
    pub tasks: Seq<TaskView>,
    pub ready: bool,
    pub prefix: Seq<char>,
    pub no_retained: bool,
    pub phase: PhaseView,
}

impl View for Scheduler {
    type V = SchedulerView;

    open spec fn view(&self) -> SchedulerView {
        SchedulerView {
            tasks: self.tasks@,
            ready: self.ready,
            prefix: self.prefix@,
            no_retained: self.no_retained,
            phase: self.phase@,
        }
    }
}

impl SchedulerView {
    /// The phase speaks of tasks that exist and of attempts that are
    /// allowed.
    pub open spec fn wf(self) -> bool {
        match self.phase {
            PhaseView::Polling { index, .. } => 0 <= index < self.tasks.len(),
            PhaseView::Handling { index, plan, at, attempts, .. } => {
                &&& 0 <= index < self.tasks.len()
                &&& 0 <= at < plan.len()
                &&& 1 <= attempts <= MAX_ATTEMPTS
            },
            PhaseView::Commanding { attempts, .. } => 1 <= attempts <= MAX_ATTEMPTS,
            PhaseView::Storing { attempts, .. } => 1 <= attempts <= MAX_ATTEMPTS,
            _ => true,
        }
    }

    /// The same scheduler in another phase.
    pub open spec fn in_phase(self, phase: PhaseView) -> SchedulerView {
        SchedulerView { phase, ..self }
    }

    /// The same scheduler with one task replaced.
    pub open spec fn with_task(self, index: int, task: TaskView) -> SchedulerView {
        SchedulerView { tasks: self.tasks.update(index, task), ..self }
    }
}

/// The message as it goes out: the prefix in front of its topic, and not
/// retained where nothing is to be.
pub open spec fn outbound(prefix: Seq<char>, no_retained: bool, msg: MsgView) -> MsgView {
    MsgView { topic: prefix + msg.topic, payload: msg.payload, retained: msg.retained && !no_retained }
}

/// A list of messages as it goes out, in the same order.
pub open spec fn outbound_all(prefix: Seq<char>, no_retained: bool, msgs: Seq<MsgView>) -> Seq<MsgView> {
    msgs.map_values(|m: MsgView| outbound(prefix, no_retained, m))
}

/// The task is of high priority and due.
pub open spec fn is_due_high(task: TaskView, now: int) -> bool {
    task.priority == TaskPriority::HIGH && task.is_due(now)
}

/// The first task of high priority at or after `from` that is due.
pub open spec fn next_due_high(tasks: Seq<TaskView>, from: int, now: int) -> Option<int>
    decreases tasks.len() - from,
{
    if from < 0 || from >= tasks.len() {
        None
    } else if is_due_high(tasks[from], now) {
        Some(from)
    } else {
        next_due_high(tasks, from + 1, now)
    }
}

/// The task that has waited longest, if there is any task.
pub open spec fn oldest(tasks: Seq<TaskView>, now: int) -> Option<int> {
    if tasks.len() == 0 {
        None
    } else {
        Some(choose|k: int| is_oldest_at(tasks, now, k))
    }
}

/// The action that starts a task's run.
pub open spec fn request_of(task: TaskView) -> ActionView {
    match task.kind {
        TaskKind::Events => ActionView::FetchEvents,
        TaskKind::Pdu => ActionView::QueryPdu { pdu: task.pdu },
        TaskKind::Branch => ActionView::QueryBranch { pdu: task.pdu, branch: task.branch },
        TaskKind::Receptacle => ActionView::QueryReceptacle {
            pdu: task.pdu,
            branch: task.branch,
            receptacle: task.receptacle,
        },
        TaskKind::Watchdog => ActionView::NotifyAlive,
    }
}

/// A task starts to run.
pub open spec fn start_run(s: SchedulerView, index: int, swept: bool) -> (SchedulerView, ActionView) {
    (s.in_phase(PhaseView::Polling { index, swept }), request_of(s.tasks[index]))
}

/// The sweep over the tasks of high priority goes on at `from`: the next one
/// that is due runs, and with none left the inbound queue is asked.
pub open spec fn sweep_from(s: SchedulerView, from: int, now: int) -> (SchedulerView, ActionView) {
    match next_due_high(s.tasks, from, now) {
        Some(index) => start_run(s, index, true),
        None => (s.in_phase(PhaseView::Receiving), ActionView::Receive),
    }
}

/// The round's last part: the task that has waited longest runs if it is due,
/// else the loop sleeps.
pub open spec fn select(s: SchedulerView, now: int) -> (SchedulerView, ActionView) {
    match oldest(s.tasks, now) {
        Some(index) => if s.tasks[index].is_due(now) {
            start_run(s, index, false)
        } else {
            (s.in_phase(PhaseView::Closing), ActionView::Sleep(IDLE_SLEEP))
        },
        None => (s.in_phase(PhaseView::Closing), ActionView::Sleep(IDLE_SLEEP)),
    }
}

/// A run ends at `now`: the task is stamped; a run of the sweep hands over to
/// the rest of the sweep and its messages are dropped, any other run has its
/// messages published and ends the round.
pub open spec fn finish_run(
    s: SchedulerView,
    index: int,
    swept: bool,
    published: Seq<MsgView>,
    now: int,
) -> (SchedulerView, ActionView) {
    let stamped = s.with_task(index, s.tasks[index].stamped(now));
    if swept {
        sweep_from(stamped, index + 1, now)
    } else {
        (
            stamped.in_phase(PhaseView::Closing),
            ActionView::Publish(outbound_all(s.prefix, s.no_retained, published)),
        )
    }
}

/// A value snapshot has arrived for a running task.
pub open spec fn absorbed(
    s: SchedulerView,
    index: int,
    swept: bool,
    new: Seq<MsgView>,
    now: int,
) -> (SchedulerView, ActionView) {
    let task = s.tasks[index];
    finish_run(
        s.with_task(index, task.remembering(CacheView::ValueSnapshot(new))),
        index,
        swept,
        task.cache.diff(new),
        now,
    )
}

/// The action that carries out one step of going through a feed.
pub open spec fn step_action(step: EventStep) -> ActionView {
    match step {
        EventStep::Disable(at) => ActionView::Command {
            pdu: at.pdu,
            branch: at.branch,
            receptacle: at.receptacle,
            command: DeviceCommand::Disable,
        },
        EventStep::Unhandled(event) => ActionView::ReportUnhandled(event),
    }
}

/// The answer to a running task's query has arrived.
pub open spec fn after_poll(
    s: SchedulerView,
    index: int,
    swept: bool,
    response: Response,
    now: int,
) -> (SchedulerView, ActionView) {
    let task = s.tasks[index];
    match (task.kind, response) {
        (TaskKind::Events, Response::Events(Some(events))) => {
            let plan = event_actions(task.cache, events@);
            let remembered = s.with_task(
                index,
                task.remembering(CacheView::EventSnapshot(events@)),
            );
            if plan.len() == 0 {
                finish_run(remembered, index, swept, Seq::empty(), now)
            } else {
                (
                    remembered.in_phase(
                        PhaseView::Handling { index, swept, plan, at: 0, attempts: 1 },
                    ),
                    step_action(plan[0]),
                )
            }
        },
        (TaskKind::Pdu, Response::Pdu(Some(info))) => absorbed(
            s,
            index,
            swept,
            info.mqtt_view(pdu_path(task.pdu)),
            now,
        ),
        (TaskKind::Branch, Response::Branch(Some(info))) => absorbed(
            s,
            index,
            swept,
            info.mqtt_view(branch_path(task.pdu, task.branch)),
            now,
        ),
        (TaskKind::Receptacle, Response::Receptacle(Some(info))) => absorbed(
            s,
            index,
            swept,
            info.mqtt_view(receptacle_path(task.pdu, task.branch, task.receptacle)),
            now,
        ),
        _ => finish_run(s, index, swept, Seq::empty(), now),
    }
}

/// A step of going through a feed has been answered. A command that the
/// device refused is sent again while attempts are left; a report is never
/// made again. Then the next step follows, and after the last one the run is
/// over.
pub open spec fn after_step(
    s: SchedulerView,
    index: int,
    swept: bool,
    plan: Seq<EventStep>,
    at: int,
    attempts: int,
    ok: bool,
    now: int,
) -> (SchedulerView, ActionView) {
    if plan[at] is Disable && verdict_of(attempts, ok) == Verdict::Again {
        (
            s.in_phase(PhaseView::Handling { index, swept, plan, at, attempts: attempts + 1 }),
            step_action(plan[at]),
        )
    } else if at + 1 < plan.len() {
        (
            s.in_phase(PhaseView::Handling { index, swept, plan, at: at + 1, attempts: 1 }),
            step_action(plan[at + 1]),
        )
    } else {
        finish_run(s, index, swept, Seq::empty(), now)
    }
}

/// Whether an answer says that the device accepted what was sent.
pub open spec fn accepted(response: Response) -> bool {
    response == Response::Device(true)
}

/// A command has changed the receptacle, or may have: the receptacle's task
/// is due soon, and the round goes on.
pub open spec fn rescheduled_then_select(
    s: SchedulerView,
    pdu: u8,
    branch: u8,
    receptacle: u8,
    now: int,
) -> (SchedulerView, ActionView) {
    select(
        SchedulerView {
            tasks: rescheduled(s.tasks, pdu, branch, receptacle, now, RESCHEDULE_SECONDS as int),
            ..s
        },
        now,
    )
}

/// The settings with another label and nothing else changed.
pub open spec fn relabelled(settings: ReceptacleSettings, label: String) -> ReceptacleSettings {
    ReceptacleSettings { label, ..settings }
}

/// An inbound command starts.
pub open spec fn dispatch(s: SchedulerView, query: Query, now: int) -> (SchedulerView, ActionView) {
    let (pdu, branch, receptacle) = (query.pdu, query.branch, query.receptacle);
    match query.cmd {
        None => select(s, now),
        Some(Command::SetLabel(label)) => (
            s.in_phase(PhaseView::Fetching { pdu, branch, receptacle, label }),
            ActionView::QueryReceptacle { pdu, branch, receptacle },
        ),
        Some(cmd) => {
            let command = match cmd {
                Command::Enable => DeviceCommand::Enable,
                Command::Disable => DeviceCommand::Disable,
                _ => DeviceCommand::Identify,
            };
            (
                s.in_phase(PhaseView::Commanding { pdu, branch, receptacle, command, attempts: 1 }),
                ActionView::Command { pdu, branch, receptacle, command },
            )
        },
    }
}

/// A round begins: the first full round is announced once, as soon as it is
/// over; then the sweep starts.
pub open spec fn begin_round(s: SchedulerView, now: int) -> (SchedulerView, ActionView) {
    if !s.ready && all_polled(s.tasks) {
        (SchedulerView { ready: true, phase: PhaseView::Announcing, ..s }, ActionView::NotifyReady)
    } else {
        sweep_from(s, 0, now)
    }
}

/// One step of the scheduler: the state and the action that follow from a
/// state, the answer to its last action, and the reading of the clock.
pub open spec fn next(s: SchedulerView, response: Response, now: int) -> (SchedulerView, ActionView) {
    match s.phase {
        PhaseView::Idle => begin_round(s, now),
        PhaseView::Closing => begin_round(s, now),
        PhaseView::Announcing => sweep_from(s, 0, now),
        PhaseView::Polling { index, swept } => after_poll(s, index, swept, response, now),
        PhaseView::Handling { index, swept, plan, at, attempts } => after_step(
            s,
            index,
            swept,
            plan,
            at,
            attempts,
            accepted(response),
            now,
        ),
        PhaseView::Receiving => match response {
            Response::Inbound(Some(query)) => dispatch(s, query, now),
            _ => select(s, now),
        },
        PhaseView::Commanding { pdu, branch, receptacle, command, attempts } => if verdict_of(
            attempts,
            accepted(response),
        ) == Verdict::Again {
            (
                s.in_phase(
                    PhaseView::Commanding { pdu, branch, receptacle, command, attempts: attempts + 1 },
                ),
                ActionView::Command { pdu, branch, receptacle, command },
            )
        } else if command == DeviceCommand::Identify {
            select(s, now)
        } else {
            rescheduled_then_select(s, pdu, branch, receptacle, now)
        },
        PhaseView::Fetching { pdu, branch, receptacle, label } => match response {
            Response::Receptacle(Some(info)) => {
                let settings = relabelled(info.settings, label);
                (
                    s.in_phase(
                        PhaseView::Storing { pdu, branch, receptacle, settings, attempts: 1 },
                    ),
                    ActionView::StoreSettings { pdu, branch, receptacle, settings },
                )
            },
            _ => rescheduled_then_select(s, pdu, branch, receptacle, now),
        },
        PhaseView::Storing { pdu, branch, receptacle, settings, attempts } => if verdict_of(
            attempts,
            accepted(response),
        ) == Verdict::Again {
            (
                s.in_phase(
                    PhaseView::Storing { pdu, branch, receptacle, settings, attempts: attempts + 1 },
                ),
                ActionView::StoreSettings { pdu, branch, receptacle, settings },
            )
        } else {
            rescheduled_then_select(s, pdu, branch, receptacle, now)
        },
    }
}

/// There is at most one place that holds the task that has waited longest.
pub proof fn lemma_oldest_is_unique(tasks: Seq<TaskView>, now: int, k: int)
    requires
        is_oldest_at(tasks, now, k),
    ensures
        oldest(tasks, now) == Some(k),
{
    let c = choose|c: int| is_oldest_at(tasks, now, c);
    if c < k {
        assert(tasks[k].elapsed(now) < tasks[c].elapsed(now));
        assert(tasks[c].elapsed(now) <= tasks[k].elapsed(now));
    }
    if k < c {
        assert(tasks[c].elapsed(now) < tasks[k].elapsed(now));
        assert(tasks[k].elapsed(now) <= tasks[c].elapsed(now));
    }
}

impl Scheduler {
    /// The phase speaks of tasks that exist and of attempts that are
    /// allowed.
    pub open spec fn wf(&self) -> bool {
        self@.wf()
    }

    /// Tells whether the phase speaks of tasks that exist and of attempts
    /// that are allowed.
    pub fn is_well_formed(&self) -> (ok: bool)
        ensures
            ok == self.wf(),
    {
        match &self.phase {
            Phase::Polling { index, .. } => *index < self.tasks.len(),
            Phase::Handling { index, plan, at, attempts, .. } => *index < self.tasks.len() && *at
                < plan.len() && 1 <= *attempts && *attempts <= MAX_ATTEMPTS,
            Phase::Commanding { attempts, .. } => 1 <= *attempts && *attempts <= MAX_ATTEMPTS,
            Phase::Storing { attempts, .. } => 1 <= *attempts && *attempts <= MAX_ATTEMPTS,
            _ => true,
        }
    }

    /// A scheduler that has not started its first round.
    pub fn new(tasks: TaskList, prefix: String, no_retained: bool) -> (s: Self)
        ensures
            s.wf(),
            s@ == (SchedulerView {
                tasks: tasks@,
                ready: false,
                prefix: prefix@,
                no_retained,
                phase: PhaseView::Idle,
            }),
    {
        Scheduler { tasks, ready: false, prefix, no_retained, phase: Phase::Idle }
    }

    /// Makes a list of messages ready to go out.
    fn outbound(&self, msgs: &MQTTMsgList) -> (out: MQTTMsgList)
        ensures
            msgs_view(out@) == outbound_all(self.prefix@, self.no_retained, msgs_view(msgs@)),
    {
        let mut out: MQTTMsgList = Vec::new();
        let mut i: usize = 0;
        while i < msgs.len()
            invariant
                i <= msgs.len(),
                msgs_view(out@) == outbound_all(
                    self.prefix@,
                    self.no_retained,
                    msgs_view(msgs@).take(i as int),
                ),
            decreases msgs.len() - i,
        {
            let m = &msgs[i];
            let ghost before = out@;
            out.push(
                MQTTMsg {
                    topic: join(self.prefix.as_str(), m.topic.as_str()),
                    payload: m.payload.clone(),
                    retained: m.retained && !self.no_retained,
                },
            );
            proof {
                let all = msgs_view(msgs@);
                assert(all.take(i + 1) =~= all.take(i as int).push(m@));
                assert(msgs_view(out@) =~= msgs_view(before).push(
                    outbound(self.prefix@, self.no_retained, m@),
                ));
                assert(outbound_all(self.prefix@, self.no_retained, all.take(i + 1))
                    =~= outbound_all(self.prefix@, self.no_retained, all.take(i as int)).push(
                    outbound(self.prefix@, self.no_retained, m@),
                ));
            }
            i += 1;
        }
        proof {
            let all = msgs_view(msgs@);
            assert(all.take(msgs.len() as int) =~= all);
        }
        out
    }

    /// Starts the run of a task.
    fn start(self, index: usize, swept: bool) -> (out: (Scheduler, Action))
        requires
            index < self@.tasks.len(),
        ensures
            out.0.wf(),
            (out.0@, out.1@) == start_run(self@, index as int, swept),
    {
        let task = &self.tasks.tasks[index];
        assert(self@.tasks[index as int] == task@);
        let action = match task.kind {
            TaskKind::Events => Action::FetchEvents,
            TaskKind::Pdu => Action::QueryPdu { pdu: task.pdu },
            TaskKind::Branch => Action::QueryBranch { pdu: task.pdu, branch: task.branch },
            TaskKind::Receptacle => Action::QueryReceptacle {
                pdu: task.pdu,
                branch: task.branch,
                receptacle: task.receptacle,
            },
            TaskKind::Watchdog => Action::NotifyAlive,
        };
        (Scheduler { phase: Phase::Polling { index, swept }, ..self }, action)
    }

    /// Goes on with the sweep over the tasks of high priority.
    fn sweep(self, from: usize, now: i64) -> (out: (Scheduler, Action))
        ensures
            out.0.wf(),
            (out.0@, out.1@) == sweep_from(self@, from as int, now as int),
    {
        let n: usize = self.tasks.len();
        let mut i: usize = from;
        while i < n
            invariant
                n == self@.tasks.len(),
                from <= i,
                next_due_high(self@.tasks, from as int, now as int) == next_due_high(
                    self@.tasks,
                    i as int,
                    now as int,
                ),
            decreases n - i,
        {
            let task = &self.tasks.tasks[i];
            assert(self@.tasks[i as int] == task@);
            if task.priority == TaskPriority::HIGH && task.timed_out(now) {
                return self.start(i, true);
            }
            i += 1;
        }
        (Scheduler { phase: Phase::Receiving, ..self }, Action::Receive)
    }

    /// Ends the round with the task that has waited longest, or with a sleep.
    fn pick(self, now: i64) -> (out: (Scheduler, Action))
        ensures
            out.0.wf(),
            (out.0@, out.1@) == select(self@, now as int),
    {
        match self.tasks.get_oldest(now) {
            Some(index) => {
                proof {
                    lemma_oldest_is_unique(self@.tasks, now as int, index as int);
                }
                let task = &self.tasks.tasks[index];
                assert(self@.tasks[index as int] == task@);
                if task.timed_out(now) {
                    self.start(index, false)
                } else {
                    (Scheduler { phase: Phase::Closing, ..self }, Action::Sleep(IDLE_SLEEP))
                }
            },
            None => (Scheduler { phase: Phase::Closing, ..self }, Action::Sleep(IDLE_SLEEP)),
        }
    }

    /// Ends the run of a task.
    fn finish(self, index: usize, swept: bool, published: MQTTMsgList, now: i64) -> (out: (
        Scheduler,
        Action,
    ))
        requires
            index < self@.tasks.len(),
        ensures
            out.0.wf(),
            (out.0@, out.1@) == finish_run(
                self@,
                index as int,
                swept,
                msgs_view(published@),
                now as int,
            ),
    {
        let mut s = self;
        s.tasks.tasks[index].update_timestamp(now);
        proof {
            assert(s.tasks@ =~= self@.tasks.update(
                index as int,
                self@.tasks[index as int].stamped(now as int),
            ));
        }
        if swept {
            assert(index < s.tasks.tasks.len());
            s.sweep(index + 1, now)
        } else {
            let out = s.outbound(&published);
            (Scheduler { phase: Phase::Closing, ..s }, Action::Publish(out))
        }
    }

    /// Takes the answer to a running task's query.
    fn polled(self, index: usize, swept: bool, response: Response, now: i64) -> (out: (
        Scheduler,
        Action,
    ))
        requires
            index < self@.tasks.len(),
        ensures
            out.0.wf(),
            (out.0@, out.1@) == after_poll(self@, index as int, swept, response, now as int),
    {
        let mut s = self;
        let kind = s.tasks.tasks[index].kind;
        let ghost task = self@.tasks[index as int];
        assert(task == self.tasks.tasks[index as int]@);
        match (kind, response) {
            (TaskKind::Events, Response::Events(Some(events))) => {
                let plan = read_events(&mut s.tasks.tasks[index], events);
                proof {
                    assert(s.tasks@ =~= self@.tasks.update(
                        index as int,
                        task.remembering(CacheView::EventSnapshot(events@)),
                    ));
                }
                if plan.len() == 0 {
                    s.finish(index, swept, no_messages(), now)
                } else {
                    let first = plan[0];
                    (
                        Scheduler {
                            phase: Phase::Handling { index, swept, plan, at: 0, attempts: 1 },
                            ..s
                        },
                        action_of(first),
                    )
                }
            },
            (TaskKind::Pdu, Response::Pdu(Some(info))) => {
                let published = read_pdu(&mut s.tasks.tasks[index], info);
                proof {
                    assert(s.tasks@ =~= self@.tasks.update(
                        index as int,
                        task.remembering(
                            CacheView::ValueSnapshot(info.mqtt_view(pdu_path(task.pdu))),
                        ),
                    ));
                }
                s.finish(index, swept, published, now)
            },
            (TaskKind::Branch, Response::Branch(Some(info))) => {
                let published = read_branch(&mut s.tasks.tasks[index], info);
                proof {
                    assert(s.tasks@ =~= self@.tasks.update(
                        index as int,
                        task.remembering(
                            CacheView::ValueSnapshot(
                                info.mqtt_view(branch_path(task.pdu, task.branch)),
                            ),
                        ),
                    ));
                }
                s.finish(index, swept, published, now)
            },
            (TaskKind::Receptacle, Response::Receptacle(Some(info))) => {
                let published = read_receptacle(&mut s.tasks.tasks[index], info);
                proof {
                    assert(s.tasks@ =~= self@.tasks.update(
                        index as int,
                        task.remembering(
                            CacheView::ValueSnapshot(
                                info.mqtt_view(
                                    receptacle_path(task.pdu, task.branch, task.receptacle),
                                ),
                            ),
                        ),
                    ));
                }
                s.finish(index, swept, published, now)
            },
            _ => s.finish(index, swept, no_messages(), now),
        }
    }

    /// Makes the receptacle's task due soon and goes on with the round.
    fn reschedule(self, pdu: u8, branch: u8, receptacle: u8, now: i64) -> (out: (
        Scheduler,
        Action,
    ))
        requires
            CLOCK_MIN <= now <= CLOCK_MAX,
        ensures
            out.0.wf(),
            (out.0@, out.1@) == rescheduled_then_select(
                self@,
                pdu,
                branch,
                receptacle,
                now as int,
            ),
    {
        let mut s = self;
        proof {
            assert forall|i: int| 0 <= i < s.tasks@.len() implies i64::MIN
                <= crate::task::rescheduled_stamp(
                now as int,
                (#[trigger] s.tasks@[i]).timeout,
                RESCHEDULE_SECONDS as int,
            ) <= i64::MAX by {
                assert(s.tasks@[i] == s.tasks.tasks@[i]@);
            }
        }
        s.tasks.reschedule_in(pdu, branch, receptacle, now, RESCHEDULE_SECONDS);
        s.pick(now)
    }

    /// Starts an inbound command.
    fn dispatch(self, query: Query, now: i64) -> (out: (Scheduler, Action))
        ensures
            out.0.wf(),
            (out.0@, out.1@) == dispatch(self@, query, now as int),
    {
        let pdu = query.pdu;
        let branch = query.branch;
        let receptacle = query.receptacle;
        match query.cmd {
            None => self.pick(now),
            Some(Command::SetLabel(label)) => (
                Scheduler { phase: Phase::Fetching { pdu, branch, receptacle, label }, ..self },
                Action::QueryReceptacle { pdu, branch, receptacle },
            ),
            Some(cmd) => {
                let command = match cmd {
                    Command::Enable => DeviceCommand::Enable,
                    Command::Disable => DeviceCommand::Disable,
                    _ => DeviceCommand::Identify,
                };
                (
                    Scheduler {
                        phase: Phase::Commanding { pdu, branch, receptacle, command, attempts: 1 },
                        ..self
                    },
                    Action::Command { pdu, branch, receptacle, command },
                )
            },
        }
    }

    /// Begins a round.
    fn begin(self, now: i64) -> (out: (Scheduler, Action))
        ensures
            out.0.wf(),
            (out.0@, out.1@) == begin_round(self@, now as int),
    {
        if !self.ready && is_ready(&self.tasks) {
            (Scheduler { ready: true, phase: Phase::Announcing, ..self }, Action::NotifyReady)
        } else {
            self.sweep(0, now)
        }
    }

    /// Takes the answer to the last action and the reading of the clock, and
    /// says what to do next. The very first step of a new scheduler takes
    /// any answer.
    pub fn step(self, response: Response, now: i64) -> (out: (Scheduler, Action))
        requires
            self.wf(),
            CLOCK_MIN <= now <= CLOCK_MAX,
        ensures
            out.0.wf(),
            (out.0@, out.1@) == next(self@, response, now as int),
    {
        let Scheduler { tasks, ready, prefix, no_retained, phase } = self;
        let s = Scheduler { tasks, ready, prefix, no_retained, phase: Phase::Idle };
        match phase {
            Phase::Idle => s.begin(now),
            Phase::Closing => s.begin(now),
            Phase::Announcing => s.sweep(0, now),
            Phase::Polling { index, swept } => s.polled(index, swept, response, now),
            Phase::Handling { index, swept, plan, at, attempts } => {
                let ok = is_accepted(&response);
                assert(at < plan.len());
                let current = plan[at];
                let again = match current {
                    EventStep::Disable(_) => verdict(attempts, ok) == Verdict::Again,
                    EventStep::Unhandled(_) => false,
                };
                if again {
                    (
                        Scheduler {
                            phase: Phase::Handling { index, swept, plan, at, attempts: attempts + 1 },
                            ..s
                        },
                        action_of(current),
                    )
                } else if at + 1 < plan.len() {
                    let following = plan[at + 1];
                    (
                        Scheduler {
                            phase: Phase::Handling { index, swept, plan, at: at + 1, attempts: 1 },
                            ..s
                        },
                        action_of(following),
                    )
                } else {
                    s.finish(index, swept, no_messages(), now)
                }
            },
            Phase::Receiving => match response {
                Response::Inbound(Some(query)) => s.dispatch(query, now),
                _ => s.pick(now),
            },
            Phase::Commanding { pdu, branch, receptacle, command, attempts } => {
                let ok = is_accepted(&response);
                if verdict(attempts, ok) == Verdict::Again {
                    (
                        Scheduler {
                            phase: Phase::Commanding {
                                pdu,
                                branch,
                                receptacle,
                                command,
                                attempts: attempts + 1,
                            },
                            ..s
                        },
                        Action::Command { pdu, branch, receptacle, command },
                    )
                } else if command == DeviceCommand::Identify {
                    s.pick(now)
                } else {
                    s.reschedule(pdu, branch, receptacle, now)
                }
            },
            Phase::Fetching { pdu, branch, receptacle, label } => match response {
                Response::Receptacle(Some(info)) => {
                    let settings = info.settings.with_label(label);
                    let sent = settings.clone();
                    (
                        Scheduler {
                            phase: Phase::Storing { pdu, branch, receptacle, settings, attempts: 1 },
                            ..s
                        },
                        Action::StoreSettings { pdu, branch, receptacle, settings: sent },
                    )
                },
                _ => s.reschedule(pdu, branch, receptacle, now),
            },
            Phase::Storing { pdu, branch, receptacle, settings, attempts } => {
                let ok = is_accepted(&response);
                if verdict(attempts, ok) == Verdict::Again {
                    let sent = settings.clone();
                    (
                        Scheduler {
                            phase: Phase::Storing {
                                pdu,
                                branch,
                                receptacle,
                                settings,
                                attempts: attempts + 1,
                            },
                            ..s
                        },
                        Action::StoreSettings { pdu, branch, receptacle, settings: sent },
                    )
                } else {
                    s.reschedule(pdu, branch, receptacle, now)
                }
            },
        }
    }
}

/// A list with no message in it.
fn no_messages() -> (list: MQTTMsgList)
    ensures
        msgs_view(list@) == Seq::<MsgView>::empty(),
{
    let list: MQTTMsgList = Vec::new();
    assert(msgs_view(list@) =~= Seq::<MsgView>::empty());
    list
}

/// The action that carries out one step of going through a feed.
fn action_of(step: EventStep) -> (action: Action)
    ensures
        action@ == step_action(step),
{
    match step {
        EventStep::Disable(at) => Action::Command {
            pdu: at.pdu,
            branch: at.branch,
            receptacle: at.receptacle,
            command: DeviceCommand::Disable,
        },
        EventStep::Unhandled(event) => Action::ReportUnhandled(event),
    }
}

/// Tells whether an answer says that the device accepted what was sent.
fn is_accepted(response: &Response) -> (ok: bool)
    ensures
        ok == accepted(*response),
{
    match response {
        Response::Device(ok) => *ok,
        _ => false,
    }
}

} // verus!
