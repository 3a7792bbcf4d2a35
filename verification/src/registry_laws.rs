//! What holds of every registry that `setup_tasklist` builds.

use crate::registry::{
    branch_task, events_task, has_task_at, pdu_task, receptacle_task, registry, rescheduled,
    with_receptacle, Address,
};
use crate::task::{TaskKind, TaskView};
use vstd::prelude::*;

verus! {

/// Some receptacle of the list belongs to this PDU.
pub open spec fn names_pdu(receptacles: Seq<Address>, pdu: u8) -> bool {
    exists|j: int| 0 <= j < receptacles.len() && (#[trigger] receptacles[j]).pdu == pdu
}

/// Some receptacle of the list belongs to this branch of this PDU.
pub open spec fn names_branch(receptacles: Seq<Address>, pdu: u8, branch: u8) -> bool {
    exists|j: int|
        0 <= j < receptacles.len() && (#[trigger] receptacles[j]).pdu == pdu && receptacles[j].branch
            == branch
}

/// The list of tasks holds this very task.
pub open spec fn holds_task(tasks: Seq<TaskView>, task: TaskView) -> bool {
    exists|i: int| 0 <= i < tasks.len() && #[trigger] tasks[i] == task
}

/// The event-feed task comes first, and it is the only task that does not
/// query a place on the device.
pub open spec fn events_task_leads(tasks: Seq<TaskView>, now: int) -> bool {
    &&& tasks.len() > 0
    &&& tasks[0] == events_task(now)
    &&& forall|i: int|
        0 < i < tasks.len() ==> {
            ||| (#[trigger] tasks[i]).kind == TaskKind::Pdu
            ||| tasks[i].kind == TaskKind::Branch
            ||| tasks[i].kind == TaskKind::Receptacle
        }
}

/// Every PDU task is the task of a PDU that some receptacle names, and no PDU
/// has two.
pub open spec fn pdu_tasks_are_sound(tasks: Seq<TaskView>, receptacles: Seq<Address>, now: int) -> bool {
    &&& forall|i: int|
        0 <= i < tasks.len() && (#[trigger] tasks[i]).kind == TaskKind::Pdu ==> {
            &&& tasks[i] == pdu_task(tasks[i].pdu, now)
            &&& tasks[i].pdu != 0
            &&& names_pdu(receptacles, tasks[i].pdu)
        }
    &&& forall|i: int, j: int|
        0 <= i < j < tasks.len() && (#[trigger] tasks[i]).kind == TaskKind::Pdu && (#[trigger] tasks[j]).kind
            == TaskKind::Pdu ==> tasks[i].pdu != tasks[j].pdu
}

/// Every branch task is the task of a branch that some receptacle names, and
/// no branch has two.
pub open spec fn branch_tasks_are_sound(
    tasks: Seq<TaskView>,
    receptacles: Seq<Address>,
    now: int,
) -> bool {
    &&& forall|i: int|
        0 <= i < tasks.len() && (#[trigger] tasks[i]).kind == TaskKind::Branch ==> {
            &&& tasks[i] == branch_task(tasks[i].pdu, tasks[i].branch, now)
            &&& tasks[i].branch != 0
            &&& names_branch(receptacles, tasks[i].pdu, tasks[i].branch)
        }
    &&& forall|i: int, j: int|
        0 <= i < j < tasks.len() && (#[trigger] tasks[i]).kind == TaskKind::Branch && (#[trigger] tasks[j]).kind
            == TaskKind::Branch ==> !(tasks[i].pdu == tasks[j].pdu && tasks[i].branch
            == tasks[j].branch)
}

/// Every receptacle task is the task of a receptacle of the list.
pub open spec fn receptacle_tasks_are_sound(
    tasks: Seq<TaskView>,
    receptacles: Seq<Address>,
    now: int,
) -> bool {
    forall|i: int|
        0 <= i < tasks.len() && (#[trigger] tasks[i]).kind == TaskKind::Receptacle ==> exists|j: int|
            0 <= j < receptacles.len() && tasks[i] == receptacle_task(#[trigger] receptacles[j], now)
}

/// Wherever a task names a PDU other than zero, that PDU has its task, and
/// wherever a task names a branch other than zero, that branch has its task.
pub open spec fn levels_are_covered(tasks: Seq<TaskView>, now: int) -> bool {
    &&& forall|i: int|
        0 <= i < tasks.len() && (#[trigger] tasks[i]).pdu != 0 ==> holds_task(
            tasks,
            pdu_task(tasks[i].pdu, now),
        )
    &&& forall|i: int|
        0 <= i < tasks.len() && (#[trigger] tasks[i]).branch != 0 ==> holds_task(
            tasks,
            branch_task(tasks[i].pdu, tasks[i].branch, now),
        )
}

/// Every receptacle of the list has its own task.
pub open spec fn receptacles_are_covered(
    tasks: Seq<TaskView>,
    receptacles: Seq<Address>,
    now: int,
) -> bool {
    forall|j: int|
        0 <= j < receptacles.len() ==> holds_task(tasks, receptacle_task(#[trigger] receptacles[j], now))
}

/// All of the above.
pub open spec fn registry_is_sound(tasks: Seq<TaskView>, receptacles: Seq<Address>, now: int) -> bool {
    &&& events_task_leads(tasks, now)
    &&& pdu_tasks_are_sound(tasks, receptacles, now)
    &&& branch_tasks_are_sound(tasks, receptacles, now)
    &&& receptacle_tasks_are_sound(tasks, receptacles, now)
    &&& levels_are_covered(tasks, now)
    &&& receptacles_are_covered(tasks, receptacles, now)
}

/// A task that was held stays held when the list grows.
proof fn lemma_push_keeps(tasks: Seq<TaskView>, added: TaskView, task: TaskView)
    requires
        holds_task(tasks, task),
    ensures
        holds_task(tasks.push(added), task),
{
    let i = choose|i: int| 0 <= i < tasks.len() && #[trigger] tasks[i] == task;
    assert(tasks.push(added)[i] == task);
}

/// A list holds what was pushed last.
proof fn lemma_push_holds(tasks: Seq<TaskView>, added: TaskView)
    ensures
        holds_task(tasks.push(added), added),
{
    assert(tasks.push(added)[tasks.len() as int] == added);
}

/// Sound but for the coverage of the receptacles by tasks of their own.
pub open spec fn levels_are_sound(tasks: Seq<TaskView>, receptacles: Seq<Address>, now: int) -> bool {
    &&& events_task_leads(tasks, now)
    &&& pdu_tasks_are_sound(tasks, receptacles, now)
    &&& branch_tasks_are_sound(tasks, receptacles, now)
    &&& receptacle_tasks_are_sound(tasks, receptacles, now)
    &&& levels_are_covered(tasks, now)
}

/// Seeing one more receptacle keeps a sound registry sound.
proof fn lemma_one_more_receptacle(
    tasks: Seq<TaskView>,
    seen: Seq<Address>,
    at: Address,
    now: int,
)
    requires
        registry_is_sound(tasks, seen, now),
    ensures
        registry_is_sound(with_receptacle(tasks, at, now), seen.push(at), now),
{
    let all = seen.push(at);
    assert(all[seen.len() as int] == at);
    assert(all.last() == at);
    assert forall|p: u8| names_pdu(seen, p) implies names_pdu(all, p) by {
        let j = choose|j: int| 0 <= j < seen.len() && (#[trigger] seen[j]).pdu == p;
        assert(all[j].pdu == p);
    }
    assert forall|p: u8, b: u8| names_branch(seen, p, b) implies names_branch(all, p, b) by {
        let j = choose|j: int|
            0 <= j < seen.len() && (#[trigger] seen[j]).pdu == p && seen[j].branch == b;
        assert(all[j].pdu == p && all[j].branch == b);
    }
    lemma_sound_for_more(tasks, seen, all, now);
    assert(levels_are_sound(tasks, all, now));

    // The PDU level.
    let with_pdu = if has_task_at(tasks, at.pdu, 0, 0) {
        tasks
    } else {
        tasks.push(pdu_task(at.pdu, now))
    };
    assert(levels_are_sound(with_pdu, all, now) && (at.pdu != 0 ==> holds_task(
        with_pdu,
        pdu_task(at.pdu, now),
    )) && has_task_at(with_pdu, at.pdu, 0, 0)) by {
        if has_task_at(tasks, at.pdu, 0, 0) {
            let k = choose|k: int| 0 <= k < tasks.len() && (#[trigger] tasks[k]).is_at(at.pdu, 0, 0);
            assert(tasks[k].pdu == at.pdu);
        } else {
            let added = pdu_task(at.pdu, now);
            assert(tasks[0].is_at(0, 0, 0));
            assert(at.pdu != 0);
            assert forall|i: int| 0 <= i < tasks.len() implies !((#[trigger] tasks[i]).kind
                == TaskKind::Pdu && tasks[i].pdu == at.pdu) by {
                if tasks[i].kind == TaskKind::Pdu && tasks[i].pdu == at.pdu {
                    assert(tasks[i].is_at(at.pdu, 0, 0));
                }
            }
            lemma_sound_after_push(tasks, all, added, now);
            lemma_push_holds(tasks, added);
            assert(with_pdu[tasks.len() as int].is_at(at.pdu, 0, 0));
        }
    }

    // The branch level.
    let with_branch = if has_task_at(with_pdu, at.pdu, at.branch, 0) {
        with_pdu
    } else {
        with_pdu.push(branch_task(at.pdu, at.branch, now))
    };
    assert(levels_are_sound(with_branch, all, now) && (at.pdu != 0 ==> holds_task(
        with_branch,
        pdu_task(at.pdu, now),
    )) && (at.branch != 0 ==> holds_task(with_branch, branch_task(at.pdu, at.branch, now)))) by {
        if has_task_at(with_pdu, at.pdu, at.branch, 0) {
            let k = choose|k: int|
                0 <= k < with_pdu.len() && (#[trigger] with_pdu[k]).is_at(at.pdu, at.branch, 0);
            assert(with_pdu[k].pdu == at.pdu && with_pdu[k].branch == at.branch);
        } else {
            let added = branch_task(at.pdu, at.branch, now);
            assert(at.branch != 0);
            assert forall|i: int| 0 <= i < with_pdu.len() implies !((#[trigger] with_pdu[i]).kind
                == TaskKind::Branch && with_pdu[i].pdu == at.pdu && with_pdu[i].branch
                == at.branch) by {
                if with_pdu[i].kind == TaskKind::Branch && with_pdu[i].pdu == at.pdu
                    && with_pdu[i].branch == at.branch {
                    assert(with_pdu[i].is_at(at.pdu, at.branch, 0));
                }
            }
            if at.pdu != 0 {
                lemma_push_keeps(with_pdu, added, pdu_task(at.pdu, now));
            }
            lemma_sound_after_push(with_pdu, all, added, now);
            lemma_push_holds(with_pdu, added);
        }
    }

    // The receptacle itself.
    let last = receptacle_task(at, now);
    lemma_sound_after_push(with_branch, all, last, now);
    lemma_push_holds(with_branch, last);
    let out = with_branch.push(last);
    assert(out == with_receptacle(tasks, at, now));
    assert forall|j: int| 0 <= j < all.len() implies holds_task(
        out,
        receptacle_task(#[trigger] all[j], now),
    ) by {
        if j < seen.len() {
            assert(all[j] == seen[j]);
            assert(holds_task(tasks, receptacle_task(seen[j], now)));
            lemma_grown_keeps(tasks, with_pdu, receptacle_task(seen[j], now));
            lemma_grown_keeps(with_pdu, with_branch, receptacle_task(seen[j], now));
            lemma_push_keeps(with_branch, last, receptacle_task(seen[j], now));
        }
    }
}

/// A list that is the old one, or the old one with one task more, holds what
/// the old one held.
proof fn lemma_grown_keeps(tasks: Seq<TaskView>, grown: Seq<TaskView>, task: TaskView)
    requires
        holds_task(tasks, task),
        grown == tasks || exists|added: TaskView| grown == tasks.push(added),
    ensures
        holds_task(grown, task),
{
    if grown != tasks {
        let added = choose|added: TaskView| grown == tasks.push(added);
        lemma_push_keeps(tasks, added, task);
    }
}

/// Soundness speaks of the receptacles only through what they name: with more
/// receptacles named, and each of the new list covered, a sound registry stays
/// sound but for the coverage of the new receptacles.
proof fn lemma_sound_for_more(
    tasks: Seq<TaskView>,
    seen: Seq<Address>,
    all: Seq<Address>,
    now: int,
)
    requires
        registry_is_sound(tasks, seen, now),
        forall|p: u8| names_pdu(seen, p) ==> names_pdu(all, p),
        forall|p: u8, b: u8| names_branch(seen, p, b) ==> names_branch(all, p, b),
        all.len() >= seen.len(),
        forall|j: int| 0 <= j < seen.len() ==> #[trigger] all[j] == seen[j],
    ensures
        events_task_leads(tasks, now),
        pdu_tasks_are_sound(tasks, all, now),
        branch_tasks_are_sound(tasks, all, now),
        receptacle_tasks_are_sound(tasks, all, now),
        levels_are_covered(tasks, now),
{
    assert forall|i: int|
        0 <= i < tasks.len() && (#[trigger] tasks[i]).kind == TaskKind::Receptacle implies exists|
        j: int,
    |
        0 <= j < all.len() && tasks[i] == receptacle_task(#[trigger] all[j], now) by {
        let j = choose|j: int|
            0 <= j < seen.len() && tasks[i] == receptacle_task(#[trigger] seen[j], now);
        assert(all[j] == seen[j]);
    }
}

/// What one more task of the shape that `with_receptacle` adds does to a list
/// that is sound but for the coverage of the last receptacle.
proof fn lemma_sound_after_push(
    tasks: Seq<TaskView>,
    all: Seq<Address>,
    added: TaskView,
    now: int,
)
    requires
        all.len() > 0,
        events_task_leads(tasks, now),
        pdu_tasks_are_sound(tasks, all, now),
        branch_tasks_are_sound(tasks, all, now),
        receptacle_tasks_are_sound(tasks, all, now),
        levels_are_covered(tasks, now),
        ({
            let at = all.last();
            ||| {
                &&& added == pdu_task(at.pdu, now)
                &&& at.pdu != 0
                &&& forall|i: int|
                    0 <= i < tasks.len() ==> !((#[trigger] tasks[i]).kind == TaskKind::Pdu
                        && tasks[i].pdu == at.pdu)
            }
            ||| {
                &&& added == branch_task(at.pdu, at.branch, now)
                &&& at.branch != 0
                &&& at.pdu != 0 ==> holds_task(tasks, pdu_task(at.pdu, now))
                &&& forall|i: int|
                    0 <= i < tasks.len() ==> !((#[trigger] tasks[i]).kind == TaskKind::Branch
                        && tasks[i].pdu == at.pdu && tasks[i].branch == at.branch)
            }
            ||| {
                &&& added == receptacle_task(at, now)
                &&& at.pdu != 0 ==> holds_task(tasks, pdu_task(at.pdu, now))
                &&& at.branch != 0 ==> holds_task(tasks, branch_task(at.pdu, at.branch, now))
            }
        }),
    ensures
        events_task_leads(tasks.push(added), now),
        pdu_tasks_are_sound(tasks.push(added), all, now),
        branch_tasks_are_sound(tasks.push(added), all, now),
        receptacle_tasks_are_sound(tasks.push(added), all, now),
        levels_are_covered(tasks.push(added), now),
{
    let at = all.last();
    let out = tasks.push(added);
    let n = tasks.len() as int;
    assert(out[n] == added);
    assert(forall|i: int| 0 <= i < n ==> #[trigger] out[i] == tasks[i]);
    assert(all[all.len() - 1] == at);
    assert(names_pdu(all, at.pdu));
    assert(names_branch(all, at.pdu, at.branch));
    assert forall|i: int| 0 <= i < out.len() && (#[trigger] out[i]).pdu != 0 implies holds_task(
        out,
        pdu_task(out[i].pdu, now),
    ) by {
        if i < n {
            lemma_push_keeps(tasks, added, pdu_task(tasks[i].pdu, now));
        } else if added == pdu_task(at.pdu, now) {
            lemma_push_holds(tasks, added);
        } else {
            lemma_push_keeps(tasks, added, pdu_task(at.pdu, now));
        }
    }
    assert forall|i: int| 0 <= i < out.len() && (#[trigger] out[i]).branch != 0 implies holds_task(
        out,
        branch_task(out[i].pdu, out[i].branch, now),
    ) by {
        if i < n {
            lemma_push_keeps(tasks, added, branch_task(tasks[i].pdu, tasks[i].branch, now));
        } else if added == branch_task(at.pdu, at.branch, now) {
            lemma_push_holds(tasks, added);
        } else {
            lemma_push_keeps(tasks, added, branch_task(at.pdu, at.branch, now));
        }
    }
    assert forall|i: int|
        0 <= i < out.len() && (#[trigger] out[i]).kind == TaskKind::Receptacle implies exists|j: int|
        0 <= j < all.len() && out[i] == receptacle_task(#[trigger] all[j], now) by {
        if i < n {
            let j = choose|j: int|
                0 <= j < all.len() && tasks[i] == receptacle_task(#[trigger] all[j], now);
            assert(out[i] == receptacle_task(all[j], now));
        } else {
            assert(out[i] == receptacle_task(all[all.len() - 1], now));
        }
    }
}

/// The registry that is built for any list of receptacles is sound: the
/// event-feed task leads; each PDU and each branch that a receptacle names
/// has at most one task, and exactly one where its number is not zero; and
/// every receptacle has its own task.
pub proof fn lemma_registry_is_sound(receptacles: Seq<Address>, now: int)
    ensures
        registry_is_sound(registry(receptacles, now), receptacles, now),
    decreases receptacles.len(),
{
    if receptacles.len() == 0 {
        let tasks = registry(receptacles, now);
        assert(tasks =~= seq![events_task(now)]);
        assert(tasks[0] == events_task(now));
    } else {
        let seen = receptacles.drop_last();
        lemma_registry_is_sound(seen, now);
        lemma_one_more_receptacle(registry(seen, now), seen, receptacles.last(), now);
        assert(seen.push(receptacles.last()) =~= receptacles);
    }
}

/// A PDU with a number other than zero that some receptacle names has exactly
/// one task in the registry.
pub proof fn lemma_one_task_per_pdu(receptacles: Seq<Address>, now: int, pdu: u8)
    requires
        names_pdu(receptacles, pdu),
        pdu != 0,
    ensures
        holds_task(registry(receptacles, now), pdu_task(pdu, now)),
        forall|i: int, j: int|
            #![trigger registry(receptacles, now)[i], registry(receptacles, now)[j]]
            0 <= i < registry(receptacles, now).len() && 0 <= j < registry(receptacles, now).len()
                && registry(receptacles, now)[i].kind == TaskKind::Pdu && registry(
                receptacles,
                now,
            )[j].kind == TaskKind::Pdu && registry(receptacles, now)[i].pdu == pdu && registry(
                receptacles,
                now,
            )[j].pdu == pdu ==> i == j,
{
    lemma_registry_is_sound(receptacles, now);
    let tasks = registry(receptacles, now);
    let k = choose|k: int| 0 <= k < receptacles.len() && (#[trigger] receptacles[k]).pdu == pdu;
    assert(holds_task(tasks, receptacle_task(receptacles[k], now)));
    let i = choose|i: int|
        0 <= i < tasks.len() && #[trigger] tasks[i] == receptacle_task(receptacles[k], now);
    assert(tasks[i].pdu == pdu);
    assert forall|i: int, j: int|
        0 <= i < tasks.len() && 0 <= j < tasks.len() && (#[trigger] tasks[i]).kind == TaskKind::Pdu
            && (#[trigger] tasks[j]).kind == TaskKind::Pdu && tasks[i].pdu == pdu && tasks[j].pdu
            == pdu implies i == j by {
        if i < j {
            assert(tasks[i].pdu != tasks[j].pdu);
        }
        if j < i {
            assert(tasks[j].pdu != tasks[i].pdu);
        }
    }
}

/// A branch with a number other than zero that some receptacle names has
/// exactly one task in the registry.
pub proof fn lemma_one_task_per_branch(receptacles: Seq<Address>, now: int, pdu: u8, branch: u8)
    requires
        names_branch(receptacles, pdu, branch),
        branch != 0,
    ensures
        holds_task(registry(receptacles, now), branch_task(pdu, branch, now)),
        forall|i: int, j: int|
            #![trigger registry(receptacles, now)[i], registry(receptacles, now)[j]]
            0 <= i < registry(receptacles, now).len() && 0 <= j < registry(receptacles, now).len()
                && registry(receptacles, now)[i].kind == TaskKind::Branch && registry(
                receptacles,
                now,
            )[j].kind == TaskKind::Branch && registry(receptacles, now)[i].is_at(pdu, branch, 0)
                && registry(receptacles, now)[j].is_at(pdu, branch, 0) ==> i == j,
{
    lemma_registry_is_sound(receptacles, now);
    let tasks = registry(receptacles, now);
    let k = choose|k: int|
        0 <= k < receptacles.len() && (#[trigger] receptacles[k]).pdu == pdu && receptacles[k].branch
            == branch;
    assert(holds_task(tasks, receptacle_task(receptacles[k], now)));
    let i = choose|i: int|
        0 <= i < tasks.len() && #[trigger] tasks[i] == receptacle_task(receptacles[k], now);
    assert(tasks[i].pdu == pdu && tasks[i].branch == branch);
    assert forall|i: int, j: int|
        0 <= i < tasks.len() && 0 <= j < tasks.len() && (#[trigger] tasks[i]).kind
            == TaskKind::Branch && (#[trigger] tasks[j]).kind == TaskKind::Branch && tasks[i].is_at(
            pdu,
            branch,
            0,
        ) && tasks[j].is_at(pdu, branch, 0) implies i == j by {
        if i < j {
            assert(!(tasks[i].pdu == tasks[j].pdu && tasks[i].branch == tasks[j].branch));
        }
        if j < i {
            assert(!(tasks[j].pdu == tasks[i].pdu && tasks[j].branch == tasks[i].branch));
        }
    }
}

/// The task is a receptacle task.
pub open spec fn is_receptacle_task() -> spec_fn(TaskView) -> bool {
    |t: TaskView| t.kind == TaskKind::Receptacle
}

/// The receptacle tasks of the registry are the tasks of the receptacles of
/// the list, one for each and in the same order: nothing is merged, not even
/// a receptacle that is listed twice.
pub proof fn lemma_one_task_per_receptacle(receptacles: Seq<Address>, now: int)
    ensures
        registry(receptacles, now).filter(is_receptacle_task()) == receptacles.map_values(
            |at: Address| receptacle_task(at, now),
        ),
    decreases receptacles.len(),
{
    reveal_with_fuel(Seq::filter, 2);
    let tasks = registry(receptacles, now);
    let want = receptacles.map_values(|at: Address| receptacle_task(at, now));
    if receptacles.len() == 0 {
        assert(tasks =~= seq![events_task(now)]);
        assert(tasks.drop_last() =~= Seq::<TaskView>::empty());
        assert(tasks.filter(is_receptacle_task()) =~= want);
    } else {
        let seen = receptacles.drop_last();
        let at = receptacles.last();
        let before = registry(seen, now);
        lemma_one_task_per_receptacle(seen, now);
        let with_pdu = if has_task_at(before, at.pdu, 0, 0) {
            before
        } else {
            before.push(pdu_task(at.pdu, now))
        };
        assert(with_pdu.filter(is_receptacle_task()) == before.filter(is_receptacle_task())) by {
            if !has_task_at(before, at.pdu, 0, 0) {
                assert(with_pdu.drop_last() =~= before);
            }
        }
        let with_branch = if has_task_at(with_pdu, at.pdu, at.branch, 0) {
            with_pdu
        } else {
            with_pdu.push(branch_task(at.pdu, at.branch, now))
        };
        assert(with_branch.filter(is_receptacle_task()) == with_pdu.filter(is_receptacle_task())) by {
            if !has_task_at(with_pdu, at.pdu, at.branch, 0) {
                assert(with_branch.drop_last() =~= with_pdu);
            }
        }
        assert(tasks == with_branch.push(receptacle_task(at, now)));
        assert(tasks.drop_last() =~= with_branch);
        assert(tasks.filter(is_receptacle_task()) =~= want) by {
            let seen_want = seen.map_values(|at: Address| receptacle_task(at, now));
            assert(tasks.filter(is_receptacle_task()) == seen_want.push(receptacle_task(at, now)));
            assert(seen_want.push(receptacle_task(at, now)) =~= want);
        }
    }
}

/// After a forced reschedule at `now`, the task of the receptacle at the
/// address is due from `seconds` after `now` on and not before, whatever its
/// cadence and whenever it ran last; it stays the task it was in all but its
/// timestamp. Every other task stays as it is: tasks at other addresses, and
/// the tasks of other kinds that share the address, such as the two
/// maintenance tasks.
pub proof fn lemma_reschedule_forces_a_poll(
    tasks: Seq<TaskView>,
    pdu: u8,
    branch: u8,
    receptacle: u8,
    now: int,
    seconds: int,
    i: int,
    later: int,
)
    requires
        0 <= i < tasks.len(),
        tasks[i].timeout >= 0,
    ensures
        rescheduled(tasks, pdu, branch, receptacle, now, seconds).len() == tasks.len(),
        tasks[i].polls_receptacle(pdu, branch, receptacle) ==> (rescheduled(
            tasks,
            pdu,
            branch,
            receptacle,
            now,
            seconds,
        )[i].is_due(later) <==> later > now + seconds * 1000),
        tasks[i].polls_receptacle(pdu, branch, receptacle) ==> rescheduled(
            tasks,
            pdu,
            branch,
            receptacle,
            now,
            seconds,
        )[i] == tasks[i].stamped(now - tasks[i].timeout + seconds * 1000),
        !tasks[i].polls_receptacle(pdu, branch, receptacle) ==> rescheduled(
            tasks,
            pdu,
            branch,
            receptacle,
            now,
            seconds,
        )[i] == tasks[i],
{
}

} // verus!
