use vstd::prelude::*;

verus! {

/// What one attempted step of an adaptive integration produced.
pub enum Attempt<S> {
    /// The step met the tolerance and is kept: `state` is the state it
    /// reached, and `finished` tells whether that state ends the integration.
    Accepted { state: S, finished: bool },
    /// The step missed the tolerance and is dropped: `state` is the state the
    /// next attempt starts from (the same point, with another step size).
    Rejected { state: S },
}

/// The states recorded by an adaptive integration and its step counts.
pub struct AdaptiveRun<S> {
    /// The initial state, then the state reached by each accepted step.
    pub points: Vec<S>,
    /// Number of accepted steps.
    pub accepted_steps: usize,
    /// Number of rejected steps.
    pub rejected_steps: usize,
}

/// The state from which the attempt after `a` starts.
pub open spec fn state_after<S>(a: Attempt<S>) -> S {
    match a {
        Attempt::Accepted { state, .. } => state,
        Attempt::Rejected { state } => state,
    }
}

/// Whether `a` is an accepted step that ends the integration.
pub open spec fn ends_run<S>(a: Attempt<S>) -> bool {
    a matches Attempt::Accepted { finished, .. } && finished
}

/// The states reached by the accepted attempts among `outs`, in order.
pub open spec fn accepted_states<S>(outs: Seq<Attempt<S>>) -> Seq<S>
    decreases outs.len(),
{
    if outs.len() == 0 {
        Seq::empty()
    } else {
        let earlier = accepted_states(outs.drop_last());
        match outs.last() {
            Attempt::Accepted { state, .. } => earlier.push(state),
            Attempt::Rejected { .. } => earlier,
        }
    }
}

/// `tried` and `outs` are the attempts of a complete adaptive run from `init`
/// with at most `max_steps` attempts: the `k`-th attempt starts from
/// `tried[k]` and produces `outs[k]`; each attempt starts where the one before
/// it left off; no attempt before the last ends the run; and the run stops
/// when the budget is spent or an accepted step ends it.
pub open spec fn is_run_of<S, F: Fn(&S) -> Attempt<S>>(
    attempt: F,
    init: S,
    max_steps: nat,
    tried: Seq<S>,
    outs: Seq<Attempt<S>>,
) -> bool {
    &&& tried.len() == outs.len()
    &&& outs.len() <= max_steps
    &&& outs.len() > 0 ==> tried[0] == init
    &&& forall|k: int| #![trigger outs[k]] 0 <= k < outs.len() ==> call_ensures(attempt, (&tried[k],), outs[k])
    &&& forall|k: int| #![trigger state_after(outs[k])] 0 <= k < outs.len() - 1 ==> tried[k + 1] == state_after(outs[k])
    &&& forall|k: int| #![trigger outs[k]] 0 <= k < outs.len() - 1 ==> !ends_run(outs[k])
    &&& outs.len() == max_steps || (outs.len() > 0 && ends_run(outs.last()))
}

/// Runs an adaptive integration from `init`, attempting steps with `attempt`
/// until an accepted step ends the integration or `max_steps` attempts have
/// been made.
///
/// An accepted step moves the integration to the state it reached and records
/// that state; a rejected step only changes the state the next attempt starts
/// from. The result holds the initial state followed by the accepted states,
/// the number of accepted steps and the number of rejected steps.
pub fn adaptive_march<S: Copy, F: Fn(&S) -> Attempt<S>>(
    init: S,
    max_steps: usize,
    attempt: F,
) -> (run: AdaptiveRun<S>)
    requires
        forall|s: S| call_requires(attempt, (&s,)),
    ensures
        run.points@[0] == init,
        run.points.len() == run.accepted_steps + 1,
        run.accepted_steps + run.rejected_steps <= max_steps,
        exists|tried: Seq<S>, outs: Seq<Attempt<S>>|
            {
                &&& #[trigger] is_run_of(attempt, init, max_steps as nat, tried, outs)
                &&& run.points@ == seq![init] + accepted_states(outs)
                &&& run.accepted_steps == accepted_states(outs).len()
                &&& run.rejected_steps == outs.len() - accepted_states(outs).len()
            },
{
    let mut points: Vec<S> = Vec::new();
    points.push(init);
    let mut cur: S = init;
    let mut accepted: usize = 0;
    let mut rejected: usize = 0;
    let mut total: usize = 0;
    let ghost mut tried: Seq<S> = Seq::empty();
    let ghost mut outs: Seq<Attempt<S>> = Seq::empty();
    loop
        invariant_except_break
            total > 0 ==> !ends_run(outs.last()),
        invariant
            forall|s: S| call_requires(attempt, (&s,)),
            tried.len() == outs.len(),
            outs.len() == total,
            total <= max_steps,
            total == accepted + rejected,
            accepted == accepted_states(outs).len(),
            points@ == seq![init] + accepted_states(outs),
            cur == (if total == 0 { init } else { state_after(outs.last()) }),
            total > 0 ==> tried[0] == init,
            forall|k: int| #![trigger outs[k]] 0 <= k < outs.len() ==> call_ensures(attempt, (&tried[k],), outs[k]),
            forall|k: int| #![trigger state_after(outs[k])] 0 <= k < outs.len() - 1 ==> tried[k + 1] == state_after(outs[k]),
            forall|k: int| #![trigger outs[k]] 0 <= k < outs.len() - 1 ==> !ends_run(outs[k]),
        ensures
            total == max_steps || (total > 0 && ends_run(outs.last())),
        decreases max_steps - total,
    {
        if total >= max_steps {
            break;
        }
        let a = attempt(&cur);
        proof {
            let old_outs = outs;
            tried = tried.push(cur);
            outs = outs.push(a);
            assert(outs.drop_last() =~= old_outs);
        }
        total = total + 1;
        match a {
            Attempt::Accepted { state, finished } => {
                points.push(state);
                cur = state;
                accepted = accepted + 1;
                if finished {
                    break;
                }
            },
            Attempt::Rejected { state } => {
                cur = state;
                rejected = rejected + 1;
            },
        }
    }
    proof {
        assert(is_run_of(attempt, init, max_steps as nat, tried, outs));
    }
    AdaptiveRun { points, accepted_steps: accepted, rejected_steps: rejected }
}

} // verus!
