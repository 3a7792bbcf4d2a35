//! How often a failing device command is tried.

use vstd::prelude::*;

verus! {

/// A device command is tried at most this often.
pub const MAX_ATTEMPTS: u8 = 3;

/// What to do after an attempt.
#[derive(Clone, Copy, Debug, PartialEq, Eq, Structural)]
pub enum Verdict {
    /// The attempt failed and another one is due at once.
    Again,
    /// The attempt succeeded.
    Succeeded,
    /// The attempt failed and it was the last one: the failure is reported
    /// and work goes on.
    GaveUp,
}

/// The verdict on the `attempt`-th attempt at a command, counted from one.
pub open spec fn verdict_of(attempt: int, ok: bool) -> Verdict {
    if ok {
        Verdict::Succeeded
    } else if attempt < MAX_ATTEMPTS {
        Verdict::Again
    } else {
        Verdict::GaveUp
    }
}

/// Says what the outcome of the `attempt`-th attempt at a command calls for.
pub fn verdict(attempt: u8, ok: bool) -> (v: Verdict)
    ensures
        v == verdict_of(attempt as int, ok),
{
    if ok {
        Verdict::Succeeded
    } else if attempt < MAX_ATTEMPTS {
        Verdict::Again
    } else {
        Verdict::GaveUp
    }
}

/// The attempts that are made in all when the device answers them with
/// `outcomes`, in this order, and `made` attempts were made before: one
/// attempt after another until the verdict is no longer to try again.
pub open spec fn attempts_in_all(made: int, outcomes: Seq<bool>) -> int
    decreases outcomes.len(),
{
    if outcomes.len() == 0 {
        made
    } else if verdict_of(made + 1, outcomes[0]) == Verdict::Again {
        attempts_in_all(made + 1, outcomes.skip(1))
    } else {
        made + 1
    }
}

/// The verdict that ends the attempts under the same conditions; while the
/// device has not answered often enough, it is to try again.
pub open spec fn final_verdict(made: int, outcomes: Seq<bool>) -> Verdict
    decreases outcomes.len(),
{
    if outcomes.len() == 0 {
        Verdict::Again
    } else if verdict_of(made + 1, outcomes[0]) == Verdict::Again {
        final_verdict(made + 1, outcomes.skip(1))
    } else {
        verdict_of(made + 1, outcomes[0])
    }
}

/// However the device answers, a command is never tried more often than is
/// allowed, and once the device has answered that often the attempts are
/// over.
pub proof fn lemma_attempts_are_bounded(outcomes: Seq<bool>)
    ensures
        attempts_in_all(0, outcomes) <= MAX_ATTEMPTS,
        attempts_in_all(0, outcomes) <= outcomes.len(),
        outcomes.len() >= MAX_ATTEMPTS ==> final_verdict(0, outcomes) != Verdict::Again,
{
    lemma_attempts_from(0, outcomes);
}

/// The same from any number of earlier attempts.
proof fn lemma_attempts_from(made: int, outcomes: Seq<bool>)
    requires
        0 <= made <= MAX_ATTEMPTS,
    ensures
        attempts_in_all(made, outcomes) <= made + outcomes.len(),
        made < MAX_ATTEMPTS ==> attempts_in_all(made, outcomes) <= MAX_ATTEMPTS,
        made + outcomes.len() >= MAX_ATTEMPTS ==> outcomes.len() > 0 ==> final_verdict(
            made,
            outcomes,
        ) != Verdict::Again,
    decreases outcomes.len(),
{
    if outcomes.len() > 0 && verdict_of(made + 1, outcomes[0]) == Verdict::Again {
        lemma_attempts_from(made + 1, outcomes.skip(1));
    }
}

/// A command is reported as a success where one of the attempts that are
/// allowed succeeds, and it is then not tried again: the attempts end with
/// the first success.
pub proof fn lemma_first_success_ends_the_attempts(outcomes: Seq<bool>, k: int)
    requires
        0 <= k < outcomes.len(),
        k < MAX_ATTEMPTS,
        outcomes[k],
        forall|i: int| 0 <= i < k ==> !outcomes[i],
    ensures
        final_verdict(0, outcomes) == Verdict::Succeeded,
        attempts_in_all(0, outcomes) == k + 1,
{
    lemma_first_success_from(0, outcomes, k);
}

/// The same from any number of earlier attempts.
proof fn lemma_first_success_from(made: int, outcomes: Seq<bool>, k: int)
    requires
        0 <= made,
        0 <= k < outcomes.len(),
        made + k < MAX_ATTEMPTS,
        outcomes[k],
        forall|i: int| 0 <= i < k ==> !outcomes[i],
    ensures
        final_verdict(made, outcomes) == Verdict::Succeeded,
        attempts_in_all(made, outcomes) == made + k + 1,
    decreases k,
{
    if k > 0 {
        assert(!outcomes[0]);
        let rest = outcomes.skip(1);
        assert(rest[k - 1] == outcomes[k]);
        assert forall|i: int| 0 <= i < k - 1 implies !rest[i] by {
            assert(rest[i] == outcomes[i + 1]);
        }
        lemma_first_success_from(made + 1, rest, k - 1);
    }
}

/// Where every attempt that is allowed fails, the command is given up after
/// the last of them, whatever the device would have answered to more.
pub proof fn lemma_failures_end_in_giving_up(outcomes: Seq<bool>)
    requires
        outcomes.len() >= MAX_ATTEMPTS,
        forall|i: int| 0 <= i < MAX_ATTEMPTS ==> !outcomes[i],
    ensures
        final_verdict(0, outcomes) == Verdict::GaveUp,
        attempts_in_all(0, outcomes) == MAX_ATTEMPTS,
{
    let second = outcomes.skip(1);
    let third = second.skip(1);
    assert(second[0] == outcomes[1]);
    assert(third[0] == outcomes[2]);
    assert(!outcomes[0] && !outcomes[1] && !outcomes[2]);
    reveal_with_fuel(attempts_in_all, 4);
    reveal_with_fuel(final_verdict, 4);
}

} // verus!
