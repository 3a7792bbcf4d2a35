//! The registry: every task of the bridge, in the order they were created.

use crate::cache::{Cache, CacheView};
use crate::registry_laws::{lemma_registry_is_sound, registry_is_sound};
use crate::task::{rescheduled_stamp, Task, TaskKind, TaskPriority, TaskView};
use vstd::prelude::*;

verus! {

/// The cadence of the event-feed task, in milliseconds.
pub const EVENT_TIMEOUT: u32 = 3000;

/// The cadence of every other task, in milliseconds.
pub const POLL_TIMEOUT: u32 = 30000;

/// How far a task is dated back for each step of its branch number, in
/// milliseconds.
pub const STAGGER: i64 = 10000;

/// From this reading of the clock on, a registry can be built for any list of
/// receptacles: dating back the highest branch number stays within the clock's
/// range.
pub const EARLIEST_SETUP: i64 = i64::MIN + 255 * 10000;

/// A place on the device: a receptacle, or with zeros a branch or a PDU as a
/// whole.
#[derive(Clone, Copy, Debug, PartialEq, Eq, Structural)]
pub struct Address {
    pub pdu: u8,
    pub branch: u8,
    pub receptacle: u8,
}

/// The receptacles that the device reports, in its order.
pub type ReceptacleList = Vec<Address>;

/// The tasks of the bridge. The list only grows, and a task is known by its
/// place in it.
#[derive(Debug, PartialEq, Eq)]
pub struct TaskList {
    pub tasks: Vec<Task>,
}

impl View for TaskList {
    type V = Seq<TaskView>;

    open spec fn view(&self) -> Seq<TaskView> {
        self.tasks@.map_values(|t: Task| t@)
    }
}

/// Some task stands at exactly this address.
pub open spec fn has_task_at(tasks: Seq<TaskView>, pdu: u8, branch: u8, receptacle: u8) -> bool {
    exists|i: int| 0 <= i < tasks.len() && (#[trigger] tasks[i]).is_at(pdu, branch, receptacle)
}

/// The task that polls the event feed.
pub open spec fn events_task(now: int) -> TaskView {
    TaskView {
        timestamp: now,
        timeout: EVENT_TIMEOUT as int,
        priority: TaskPriority::HIGH,
        kind: TaskKind::Events,
        pdu: 0,
        branch: 0,
        receptacle: 0,
        cache: CacheView::Empty,
    }
}

/// The task that polls one PDU.
pub open spec fn pdu_task(pdu: u8, now: int) -> TaskView {
    TaskView {
        timestamp: now,
        timeout: POLL_TIMEOUT as int,
        priority: TaskPriority::LOW,
        kind: TaskKind::Pdu,
        pdu,
        branch: 0,
        receptacle: 0,
        cache: CacheView::Empty,
    }
}

/// The task that polls one branch, dated back by its branch number.
pub open spec fn branch_task(pdu: u8, branch: u8, now: int) -> TaskView {
    TaskView {
        timestamp: now - branch * STAGGER,
        timeout: POLL_TIMEOUT as int,
        priority: TaskPriority::LOW,
        kind: TaskKind::Branch,
        pdu,
        branch,
        receptacle: 0,
        cache: CacheView::Empty,
    }
}

/// The task that polls one receptacle, dated back by its branch number.
pub open spec fn receptacle_task(at: Address, now: int) -> TaskView {
    TaskView {
        timestamp: now - at.branch * STAGGER,
        timeout: POLL_TIMEOUT as int,
        priority: TaskPriority::LOW,
        kind: TaskKind::Receptacle,
        pdu: at.pdu,
        branch: at.branch,
        receptacle: at.receptacle,
        cache: CacheView::Empty,
    }
}

/// The task that reports liveness.
pub open spec fn watchdog_task(now: int) -> TaskView {
    TaskView {
        timestamp: now,
        timeout: POLL_TIMEOUT as int,
        priority: TaskPriority::HIGH,
        kind: TaskKind::Watchdog,
        pdu: 0,
        branch: 0,
        receptacle: 0,
        cache: CacheView::Empty,
    }
}

/// The registry after one more receptacle was seen: a task for its PDU and one
/// for its branch where no task stands at their address yet, and always a task
/// for the receptacle itself.
pub open spec fn with_receptacle(tasks: Seq<TaskView>, at: Address, now: int) -> Seq<TaskView> {
    let with_pdu = if has_task_at(tasks, at.pdu, 0, 0) {
        tasks
    } else {
        tasks.push(pdu_task(at.pdu, now))
    };
    let with_branch = if has_task_at(with_pdu, at.pdu, at.branch, 0) {
        with_pdu
    } else {
        with_pdu.push(branch_task(at.pdu, at.branch, now))
    };
    with_branch.push(receptacle_task(at, now))
}

/// The registry for a list of receptacles: the event-feed task first, then
/// what each receptacle adds, in the order of the list.
pub open spec fn registry(receptacles: Seq<Address>, now: int) -> Seq<TaskView>
    decreases receptacles.len(),
{
    if receptacles.len() == 0 {
        seq![events_task(now)]
    } else {
        with_receptacle(registry(receptacles.drop_last(), now), receptacles.last(), now)
    }
}

/// Every receptacle of the list can be dated back from `now` by its branch
/// number within the clock's range.
pub open spec fn can_date_back(receptacles: Seq<Address>, now: int) -> bool {
    forall|i: int|
        0 <= i < receptacles.len() ==> now - (#[trigger] receptacles[i]).branch * STAGGER >= i64::MIN
}

/// The place of the task that has waited longest at `now`; among equals the
/// last one.
pub open spec fn is_oldest_at(tasks: Seq<TaskView>, now: int, k: int) -> bool {
    &&& 0 <= k < tasks.len()
    &&& forall|j: int| 0 <= j < tasks.len() ==> (#[trigger] tasks[j]).elapsed(now) <= tasks[k].elapsed(now)
    &&& forall|j: int| k < j < tasks.len() ==> (#[trigger] tasks[j]).elapsed(now) < tasks[k].elapsed(now)
}

/// Every task that queries the device has polled at least once.
pub open spec fn all_polled(tasks: Seq<TaskView>) -> bool {
    forall|i: int| 0 <= i < tasks.len() && (#[trigger] tasks[i]).pdu != 0 ==> tasks[i].cache
        != CacheView::Empty
}

/// The tasks after the task of the receptacle at the given address was made
/// due `seconds` after `now`: each receptacle task at exactly this address,
/// and no task of another kind, whatever its address.
pub open spec fn rescheduled(
    tasks: Seq<TaskView>,
    pdu: u8,
    branch: u8,
    receptacle: u8,
    now: int,
    seconds: int,
) -> Seq<TaskView> {
    Seq::new(
        tasks.len(),
        |i: int|
            if tasks[i].polls_receptacle(pdu, branch, receptacle) {
                tasks[i].stamped(rescheduled_stamp(now, tasks[i].timeout, seconds))
            } else {
                tasks[i]
            },
    )
}

/// The forced reschedule of the receptacle's task stays within the clock's
/// range.
pub open spec fn reschedule_fits(
    tasks: Seq<TaskView>,
    pdu: u8,
    branch: u8,
    receptacle: u8,
    now: int,
    seconds: int,
) -> bool {
    forall|i: int|
        0 <= i < tasks.len() && (#[trigger] tasks[i]).polls_receptacle(pdu, branch, receptacle)
            ==> i64::MIN <= rescheduled_stamp(now, tasks[i].timeout, seconds) <= i64::MAX
}

impl TaskList {
    /// An empty registry.
    pub fn new() -> (list: Self)
        ensures
            list@ == Seq::<TaskView>::empty(),
    {
        let list = TaskList { tasks: Vec::new() };
        assert(list@ =~= Seq::<TaskView>::empty());
        list
    }

    /// The number of tasks.
    pub fn len(&self) -> (n: usize)
        ensures
            n == self@.len(),
    {
        self.tasks.len()
    }

    /// Adds a task at the end.
    pub fn push(&mut self, task: Task)
        ensures
            final(self)@ == old(self)@.push(task@),
    {
        self.tasks.push(task);
        assert(self@ =~= old(self)@.push(task@));
    }

    /// Tells whether a task stands at exactly this address.
    pub fn contains(&self, pdu: u8, branch: u8, receptacle: u8) -> (found: bool)
        ensures
            found == has_task_at(self@, pdu, branch, receptacle),
    {
        let mut i: usize = 0;
        while i < self.tasks.len()
            invariant
                i <= self.tasks.len(),
                forall|j: int| 0 <= j < i ==> !(#[trigger] self@[j]).is_at(pdu, branch, receptacle),
            decreases self.tasks.len() - i,
        {
            let task = &self.tasks[i];
            if task.pdu == pdu && task.branch == branch && task.receptacle == receptacle {
                assert(self@[i as int].is_at(pdu, branch, receptacle));
                return true;
            }
            i += 1;
        }
        false
    }

    /// Finds the task that has waited longest at `now`, whatever its cadence;
    /// among tasks that have waited equally long, the last one. An empty
    /// registry has none.
    pub fn get_oldest(&self, now: i64) -> (oldest: Option<usize>)
        ensures
            match oldest {
                Some(k) => is_oldest_at(self@, now as int, k as int),
                None => self@.len() == 0,
            },
    {
        if self.tasks.len() == 0 {
            return None;
        }
        let mut best: usize = 0;
        let mut best_elapsed: i128 = elapsed_at(&self.tasks[0], now);
        let mut i: usize = 1;
        while i < self.tasks.len()
            invariant
                1 <= i <= self.tasks.len(),
                best < i,
                best_elapsed == self@[best as int].elapsed(now as int),
                forall|j: int| 0 <= j < i ==> (#[trigger] self@[j]).elapsed(now as int) <= best_elapsed,
                forall|j: int| best < j < i ==> (#[trigger] self@[j]).elapsed(now as int) < best_elapsed,
            decreases self.tasks.len() - i,
        {
            let e: i128 = elapsed_at(&self.tasks[i], now);
            if e >= best_elapsed {
                best = i;
                best_elapsed = e;
            }
            i += 1;
        }
        Some(best)
    }

    /// Tells whether the forced reschedule of the receptacle's task stays
    /// within the clock's range.
    pub fn can_reschedule_in(&self, pdu: u8, branch: u8, receptacle: u8, now: i64, seconds: u8) -> (fits:
        bool)
        ensures
            fits == reschedule_fits(self@, pdu, branch, receptacle, now as int, seconds as int),
    {
        let mut i: usize = 0;
        while i < self.tasks.len()
            invariant
                i <= self.tasks.len(),
                forall|j: int|
                    0 <= j < i && (#[trigger] self@[j]).polls_receptacle(pdu, branch, receptacle)
                        ==> i64::MIN <= rescheduled_stamp(
                        now as int,
                        self@[j].timeout,
                        seconds as int,
                    ) <= i64::MAX,
            decreases self.tasks.len() - i,
        {
            let task = &self.tasks[i];
            assert(self@[i as int] == task@);
            if task.kind == TaskKind::Receptacle && task.pdu == pdu && task.branch == branch
                && task.receptacle == receptacle && !task.can_reschedule_in(now, seconds) {
                return false;
            }
            i += 1;
        }
        true
    }

    /// Makes the task of the receptacle at exactly this address due `seconds`
    /// after `now`, whatever its cadence and whenever it ran last. Every
    /// other task stays as it is: tasks at other addresses, and tasks of
    /// another kind that share the address.
    pub fn reschedule_in(&mut self, pdu: u8, branch: u8, receptacle: u8, now: i64, seconds: u8)
        requires
            reschedule_fits(old(self)@, pdu, branch, receptacle, now as int, seconds as int),
        ensures
            final(self)@ == rescheduled(old(self)@, pdu, branch, receptacle, now as int, seconds as int),
            forall|i: int, later: int|
                0 <= i < old(self)@.len() && (#[trigger] old(self)@[i]).polls_receptacle(
                    pdu,
                    branch,
                    receptacle,
                ) ==> (#[trigger] final(self)@[i].is_due(later) <==> later > now + seconds * 1000),
            forall|i: int|
                0 <= i < old(self)@.len() && !(#[trigger] old(self)@[i]).polls_receptacle(
                    pdu,
                    branch,
                    receptacle,
                ) ==> final(self)@[i] == old(self)@[i],
    {
        let mut i: usize = 0;
        while i < self.tasks.len()
            invariant
                i <= self.tasks.len(),
                self@.len() == old(self)@.len(),
                reschedule_fits(old(self)@, pdu, branch, receptacle, now as int, seconds as int),
                forall|j: int|
                    0 <= j < i ==> #[trigger] self@[j] == rescheduled(
                        old(self)@,
                        pdu,
                        branch,
                        receptacle,
                        now as int,
                        seconds as int,
                    )[j],
                forall|j: int| i <= j < self@.len() ==> #[trigger] self@[j] == old(self)@[j],
            decreases self.tasks.len() - i,
        {
            let ghost before = self@;
            assert(before[i as int] == old(self)@[i as int]);
            if self.tasks[i].kind == TaskKind::Receptacle && self.tasks[i].pdu == pdu
                && self.tasks[i].branch == branch && self.tasks[i].receptacle == receptacle {
                assert(old(self)@[i as int].polls_receptacle(pdu, branch, receptacle));
                self.tasks[i].reschedule_in(now, seconds);
            }
            assert(forall|j: int| 0 <= j < self@.len() && j != i ==> #[trigger] self@[j] == before[j]);
            i += 1;
        }
        assert(self@ =~= rescheduled(old(self)@, pdu, branch, receptacle, now as int, seconds as int));
    }

    /// Adds the liveness task at the end, as if it had just run.
    pub fn append_systemd_watchdog(&mut self, now: i64)
        ensures
            final(self)@ == old(self)@.push(watchdog_task(now as int)),
    {
        self.push(
            Task {
                timestamp: now,
                timeout: POLL_TIMEOUT,
                priority: TaskPriority::HIGH,
                kind: TaskKind::Watchdog,
                pdu: 0,
                branch: 0,
                receptacle: 0,
                cache: Cache::Empty,
            },
        );
    }
}

/// The time that has passed at `now` since a task ran last.
pub fn elapsed_at(task: &Task, now: i64) -> (elapsed: i128)
    ensures
        elapsed == task@.elapsed(now as int),
{
    if now >= task.timestamp {
        now as i128 - task.timestamp as i128
    } else {
        0
    }
}

/// Builds the registry for the receptacles that the device reported: the
/// event-feed task first, then for each receptacle in turn a task for its PDU
/// and one for its branch where no task stands at their address yet, and a task
/// for the receptacle itself.
pub fn setup_tasklist(receptacles: &ReceptacleList, now: i64) -> (list: TaskList)
    requires
        can_date_back(receptacles@, now as int),
    ensures
        list@ == registry(receptacles@, now as int),
        registry_is_sound(list@, receptacles@, now as int),
{
    proof {
        lemma_registry_is_sound(receptacles@, now as int);
    }
    let mut list = TaskList::new();
    list.push(
        Task {
            timestamp: now,
            timeout: EVENT_TIMEOUT,
            priority: TaskPriority::HIGH,
            kind: TaskKind::Events,
            pdu: 0,
            branch: 0,
            receptacle: 0,
            cache: Cache::Empty,
        },
    );
    assert(list@ =~= registry(receptacles@.take(0), now as int));
    let mut i: usize = 0;
    while i < receptacles.len()
        invariant
            i <= receptacles.len(),
            can_date_back(receptacles@, now as int),
            list@ == registry(receptacles@.take(i as int), now as int),
        decreases receptacles.len() - i,
    {
        let r = receptacles[i];
        let backdated: i64 = now - (r.branch as i64) * STAGGER;
        proof {
            assert(receptacles@.take(i + 1).drop_last() =~= receptacles@.take(i as int));
            assert(receptacles@.take(i + 1).last() == r);
        }
        if !list.contains(r.pdu, 0, 0) {
            list.push(
                Task {
                    timestamp: now,
                    timeout: POLL_TIMEOUT,
                    priority: TaskPriority::LOW,
                    kind: TaskKind::Pdu,
                    pdu: r.pdu,
                    branch: 0,
                    receptacle: 0,
                    cache: Cache::Empty,
                },
            );
        }
        if !list.contains(r.pdu, r.branch, 0) {
            list.push(
                Task {
                    timestamp: backdated,
                    timeout: POLL_TIMEOUT,
                    priority: TaskPriority::LOW,
                    kind: TaskKind::Branch,
                    pdu: r.pdu,
                    branch: r.branch,
                    receptacle: 0,
                    cache: Cache::Empty,
                },
            );
        }
        list.push(
            Task {
                timestamp: backdated,
                timeout: POLL_TIMEOUT,
                priority: TaskPriority::LOW,
                kind: TaskKind::Receptacle,
                pdu: r.pdu,
                branch: r.branch,
                receptacle: r.receptacle,
                cache: Cache::Empty,
            },
        );
        i += 1;
    }
    assert(receptacles@.take(receptacles@.len() as int) =~= receptacles@);
    list
}

/// Tells whether the first full round is over: every task that queries the
/// device, which is every task with a PDU number other than zero, has cached a
/// result.
pub fn is_ready(tasklist: &TaskList) -> (ready: bool)
    ensures
        ready == all_polled(tasklist@),
{
    let mut i: usize = 0;
    while i < tasklist.tasks.len()
        invariant
            i <= tasklist.tasks.len(),
            forall|j: int| 0 <= j < i && (#[trigger] tasklist@[j]).pdu != 0 ==> tasklist@[j].cache
                != CacheView::Empty,
        decreases tasklist.tasks.len() - i,
    {
        let task = &tasklist.tasks[i];
        if task.pdu != 0 && task.cache.is_none() {
            assert(tasklist@[i as int].pdu != 0 && tasklist@[i as int].cache == CacheView::Empty);
            return false;
        }
        i += 1;
    }
    true
}

} // verus!
