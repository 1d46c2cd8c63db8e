use vstd::prelude::*;
use crate::environment::{add_package, ensure_spec};
use crate::runner::{
    next_action_spec, run_spec, status_spec, step_spec, ActionModel, Outcome, RunState, Status,
};
use crate::stage::StageModel;

verus! {

/// The same state, `k` stages further on.
pub open spec fn shift(s: RunState, k: nat) -> RunState {
    RunState { stage: s.stage + k, ..s }
}

/// A step never moves a run backwards.
proof fn lemma_step_monotone(stages: Seq<StageModel>, s: RunState, o: Outcome)
    ensures
        step_spec(stages, s, o).stage >= s.stage,
        step_spec(stages, s, o).stage <= s.stage + 1,
{
}

/// Running `a` and then `b` is running `a + b`.
pub proof fn law_run_concat(
    stages: Seq<StageModel>,
    s: RunState,
    a: Seq<Outcome>,
    b: Seq<Outcome>,
)
    ensures
        run_spec(stages, s, a + b) == run_spec(stages, run_spec(stages, s, a), b),
    decreases b.len(),
{
    if b.len() == 0 {
        assert(a + b =~= a);
    } else {
        assert((a + b).drop_last() =~= a + b.drop_last());
        assert((a + b).last() == b.last());
        law_run_concat(stages, s, a, b.drop_last());
    }
}

/// While a run has not gone past the stages of `p`, stages appended after
/// them make no difference.
pub proof fn law_prefix_run(
    p: Seq<StageModel>,
    q: Seq<StageModel>,
    s: RunState,
    outcomes: Seq<Outcome>,
)
    requires
        run_spec(p, s, outcomes).stage < p.len(),
    ensures
        run_spec(p + q, s, outcomes) == run_spec(p, s, outcomes),
    decreases outcomes.len(),
{
    if outcomes.len() > 0 {
        let before = run_spec(p, s, outcomes.drop_last());
        lemma_step_monotone(p, before, outcomes.last());
        law_prefix_run(p, q, s, outcomes.drop_last());
        assert((p + q)[before.stage as int] == p[before.stage as int]);
    }
}

/// Once a run has gone past the stages of `p`, it runs the stages of `q`
/// exactly as a run of `q` alone would.
pub proof fn law_suffix_run(
    p: Seq<StageModel>,
    q: Seq<StageModel>,
    s: RunState,
    outcomes: Seq<Outcome>,
)
    requires
        s.stage >= p.len(),
    ensures
        run_spec(p + q, s, outcomes) == shift(
            run_spec(q, RunState { stage: (s.stage - p.len()) as nat, ..s }, outcomes),
            p.len(),
        ),
    decreases outcomes.len(),
{
    let t = RunState { stage: (s.stage - p.len()) as nat, ..s };
    if outcomes.len() == 0 {
        assert(shift(t, p.len()) == s);
    } else {
        law_suffix_run(p, q, s, outcomes.drop_last());
        let before = run_spec(q, t, outcomes.drop_last());
        if before.stage < q.len() {
            assert((p + q)[before.stage + p.len() as int] == q[before.stage as int]);
        }
    }
}

/// Appending stages keeps the order of execution: a pipeline of stages `p`
/// followed by `q` first runs `p` as `p` alone would; if that fails, nothing
/// more happens; if it succeeds, `q` runs as `q` alone would, from the
/// environment and output that `p` left.
pub proof fn law_append_stages(
    p: Seq<StageModel>,
    q: Seq<StageModel>,
    s: RunState,
    first: Seq<Outcome>,
    rest: Seq<Outcome>,
)
    requires
        s.stage <= p.len(),
        first.len() > 0,
        run_spec(p, s, first.drop_last()).stage < p.len(),
    ensures
        run_spec(p + q, s, first) == run_spec(p, s, first),
        run_spec(p, s, first).error is Some ==> run_spec(p + q, s, first + rest) == run_spec(
            p,
            s,
            first,
        ),
        run_spec(p, s, first).error is None && run_spec(p, s, first).stage == p.len() ==> run_spec(
            p + q,
            s,
            first + rest,
        ) == shift(run_spec(q, RunState { stage: 0, ..run_spec(p, s, first) }, rest), p.len()),
{
    let before = run_spec(p, s, first.drop_last());
    let m = run_spec(p, s, first);
    law_prefix_run(p, q, s, first.drop_last());
    assert((p + q)[before.stage as int] == p[before.stage as int]);
    assert(run_spec(p + q, s, first) == m);
    law_run_concat(p + q, s, first, rest);
    if m.error is Some {
        law_fail_fast(p + q, m, rest);
    }
    lemma_step_monotone(p, before, first.last());
    if m.error is None && m.stage == p.len() {
        law_suffix_run(p, q, m, rest);
        assert(RunState { stage: (m.stage - p.len()) as nat, ..m } == RunState { stage: 0, ..m });
    }
}

/// Fail-fast: after a failure no outcome changes the run, and the runner asks
/// for no further stage, only to abort with that failure.
pub proof fn law_fail_fast(stages: Seq<StageModel>, s: RunState, outcomes: Seq<Outcome>)
    requires
        s.error is Some,
    ensures
        run_spec(stages, s, outcomes) == s,
        status_spec(stages, run_spec(stages, s, outcomes)) == Status::Failed,
        next_action_spec(stages, run_spec(stages, s, outcomes)) == ActionModel::Abort(
            s.error->Some_0,
        ),
    decreases outcomes.len(),
{
    if outcomes.len() > 0 {
        law_fail_fast(stages, s, outcomes.drop_last());
    }
}

/// A failing stage ends the run where it stands: the stage index does not
/// move on, and the error is that stage's own.
pub proof fn law_failure_stops(stages: Seq<StageModel>, s: RunState, o: Outcome)
    requires
        s.error is None,
        s.stage < stages.len(),
        o is ProvisionFailed || o is ExecFailed,
    ensures
        step_spec(stages, s, o).stage == s.stage,
        (stages[s.stage as int] is Exec && o is ExecFailed) ==> step_spec(stages, s, o).error
            == Some(
            crate::runner::ErrorModel::Exec {
                argv: stages[s.stage as int]->Exec_0,
                status: o->ExecFailed_status,
                stdout: o->ExecFailed_stdout@,
            },
        ),
        (stages[s.stage as int] is Provision && o is ProvisionFailed) ==> step_spec(
            stages,
            s,
            o,
        ).error == Some(
            crate::runner::ErrorModel::Provision {
                package: o->ProvisionFailed_package@,
                diagnostic: o->ProvisionFailed_diagnostic@,
            },
        ),
{
}

proof fn lemma_ensure_contains(env: Seq<Seq<char>>, packages: Seq<Seq<char>>)
    ensures
        forall|i: int| 0 <= i < packages.len() ==> ensure_spec(env, packages).contains(
            #[trigger] packages[i],
        ),
        forall|x: Seq<char>| env.contains(x) ==> #[trigger] ensure_spec(env, packages).contains(x),
    decreases packages.len(),
{
    if packages.len() > 0 {
        let prev = ensure_spec(env, packages.drop_last());
        lemma_ensure_contains(env, packages.drop_last());
        assert forall|i: int| 0 <= i < packages.len() implies ensure_spec(env, packages).contains(
            #[trigger] packages[i],
        ) by {
            if i < packages.len() - 1 {
                assert(packages.drop_last()[i] == packages[i]);
                assert(prev.contains(packages[i]));
                if !prev.contains(packages.last()) {
                    let j = choose|j: int| 0 <= j < prev.len() && prev[j] == packages[i];
                    assert(prev.push(packages.last())[j] == packages[i]);
                }
            } else {
                if !prev.contains(packages.last()) {
                    assert(prev.push(packages.last())[prev.len() as int] == packages.last());
                }
            }
        }
        assert forall|x: Seq<char>| env.contains(x) implies #[trigger] ensure_spec(
            env,
            packages,
        ).contains(x) by {
            assert(prev.contains(x));
            if !prev.contains(packages.last()) {
                let j = choose|j: int| 0 <= j < prev.len() && prev[j] == x;
                assert(prev.push(packages.last())[j] == x);
            }
        }
    }
}

proof fn lemma_ensure_present(env: Seq<Seq<char>>, packages: Seq<Seq<char>>)
    requires
        forall|i: int| 0 <= i < packages.len() ==> env.contains(#[trigger] packages[i]),
    ensures
        ensure_spec(env, packages) == env,
    decreases packages.len(),
{
    if packages.len() > 0 {
        assert forall|i: int| 0 <= i < packages.drop_last().len() implies env.contains(
            #[trigger] packages.drop_last()[i],
        ) by {
            assert(packages.drop_last()[i] == packages[i]);
        }
        lemma_ensure_present(env, packages.drop_last());
        assert(env.contains(packages[packages.len() - 1]));
        assert(add_package(env, packages.last()) == env);
    }
}

/// Provisioning is idempotent: provisioning the same packages a second time
/// leaves the environment as the first time left it.
pub proof fn law_provision_idempotent(env: Seq<Seq<char>>, packages: Seq<Seq<char>>)
    ensures
        ensure_spec(ensure_spec(env, packages), packages) == ensure_spec(env, packages),
        forall|i: int| 0 <= i < packages.len() ==> ensure_spec(env, packages).contains(
            #[trigger] packages[i],
        ),
{
    lemma_ensure_contains(env, packages);
    lemma_ensure_present(ensure_spec(env, packages), packages);
}

/// Output fidelity: a command that completes sets the run's output to exactly
/// what it printed, a provisioning stage leaves the output as it was, and a
/// run that ends there reports that output.
pub proof fn law_output_fidelity(stages: Seq<StageModel>, s: RunState, o: Outcome)
    requires
        s.error is None,
        s.stage < stages.len(),
    ensures
        (stages[s.stage as int] is Exec && o is Completed) ==> step_spec(stages, s, o).last
            == o->Completed_stdout@,
        stages[s.stage as int] is Provision ==> step_spec(stages, s, o).last == s.last,
        (stages[s.stage as int] is Exec && o is Completed && s.stage + 1 == stages.len())
            ==> next_action_spec(stages, step_spec(stages, s, o)) == ActionModel::Finish(
            o->Completed_stdout@,
        ),
{
}

} // verus!
