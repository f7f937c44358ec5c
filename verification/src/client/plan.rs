//! Plans: actions that are carried out in order, up to the first one that fails.

use crate::client::error::JobExecErr;
use vstd::prelude::*;

verus! {

/// As much of a plan as is carried out, where `fails` says which actions fail and how:
/// all actions up to the first one that fails, with that one.
pub open spec fn carried_out<A>(plan: Seq<A>, fails: spec_fn(A) -> Option<JobExecErr>) -> Seq<A>
    decreases plan.len(),
{
    if plan.len() == 0 {
        Seq::empty()
    } else if fails(plan[0]) is Some {
        seq![plan[0]]
    } else {
        seq![plan[0]] + carried_out(plan.drop_first(), fails)
    }
}

/// The error of the first action of a plan that fails, if one does.
pub open spec fn first_error<A>(
    plan: Seq<A>,
    fails: spec_fn(A) -> Option<JobExecErr>,
) -> Option<JobExecErr>
    decreases plan.len(),
{
    if plan.len() == 0 {
        None
    } else if fails(plan[0]) is Some {
        fails(plan[0])
    } else {
        first_error(plan.drop_first(), fails)
    }
}

/// What is carried out of a plan is a prefix of it. Every action of it but the last has
/// gone well. There is an error exactly where an action of the plan fails, and without
/// one the whole plan is carried out.
pub proof fn lemma_prefix<A>(plan: Seq<A>, fails: spec_fn(A) -> Option<JobExecErr>)
    ensures
        carried_out(plan, fails).len() <= plan.len(),
        forall|i: int|
            0 <= i < carried_out(plan, fails).len() ==> #[trigger] carried_out(plan, fails)[i]
                == plan[i],
        forall|i: int|
            0 <= i < carried_out(plan, fails).len() - 1 ==> fails(
                #[trigger] carried_out(plan, fails)[i],
            ) is None,
        first_error(plan, fails) is None ==> carried_out(plan, fails) == plan,
        first_error(plan, fails) is None <==> forall|i: int|
            0 <= i < plan.len() ==> fails(#[trigger] plan[i]) is None,
    decreases plan.len(),
{
    if plan.len() > 0 && fails(plan[0]) is None {
        let rest = plan.drop_first();
        lemma_prefix(rest, fails);
        let done = carried_out(plan, fails);
        let rest_done = carried_out(rest, fails);
        assert forall|i: int| 0 <= i < done.len() implies #[trigger] done[i] == plan[i] by {
            if i > 0 {
                assert(done[i] == rest_done[i - 1]);
            }
        }
        assert forall|i: int| 0 <= i < done.len() - 1 implies fails(
            #[trigger] done[i],
        ) is None by {
            if i > 0 {
                assert(done[i] == rest_done[i - 1]);
            }
        }
        if first_error(plan, fails) is None {
            assert(done =~= plan);
            assert forall|i: int| 0 <= i < plan.len() implies fails(
                #[trigger] plan[i],
            ) is None by {
                if i > 0 {
                    assert(plan[i] == rest[i - 1]);
                }
            }
        } else {
            let k = choose|k: int| 0 <= k < rest.len() && !(fails(#[trigger] rest[k]) is None);
            assert(plan[k + 1] == rest[k]);
        }
    } else if plan.len() == 0 {
        assert(carried_out(plan, fails) =~= plan);
    }
}

/// Where an action of what is carried out fails, its error is the first one.
pub proof fn lemma_last_fails<A>(plan: Seq<A>, fails: spec_fn(A) -> Option<JobExecErr>, i: int)
    requires
        0 <= i < carried_out(plan, fails).len(),
        fails(plan[i]) is Some,
    ensures
        first_error(plan, fails) == fails(plan[i]),
    decreases plan.len(),
{
    lemma_prefix(plan, fails);
    if i > 0 {
        assert(plan.drop_first()[i - 1] == plan[i]);
        lemma_last_fails(plan.drop_first(), fails, i - 1);
    }
}

/// Where there is an error, the last action that is carried out fails.
pub proof fn lemma_last_of_failed<A>(plan: Seq<A>, fails: spec_fn(A) -> Option<JobExecErr>)
    requires
        first_error(plan, fails) is Some,
    ensures
        carried_out(plan, fails).len() > 0,
        fails(carried_out(plan, fails).last()) is Some,
    decreases plan.len(),
{
    if fails(plan[0]) is None {
        lemma_last_of_failed(plan.drop_first(), fails);
        assert(carried_out(plan, fails).last() == carried_out(plan.drop_first(), fails).last());
    }
}

} // verus!
