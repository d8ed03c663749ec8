use vstd::prelude::*;

verus! {

/// `pts[i + 1]` is one application of `step` to `pts[i]`, for every `i` in `lo..hi`.
pub open spec fn steps_between<S, F: Fn(&S) -> S>(step: F, pts: Seq<S>, lo: int, hi: int) -> bool {
    forall|i: int, j: int|
        #![trigger pts[i], pts[j]]
        lo <= i < hi && j == i + 1 ==> call_ensures(step, (&pts[i],), pts[j])
}

/// Takes `n >= 1` uniform steps from `init` and records every state.
///
/// The result holds `n + 1` states: `init` first, then the state after each
/// step, each obtained by applying `step` to the state before it. A solve
/// with no step is refused, so `n` is at least one.
pub fn march<S, F: Fn(&S) -> S>(init: S, n: usize, step: F) -> (pts: Vec<S>)
    requires
        1 <= n < usize::MAX,
        forall|s: S| call_requires(step, (&s,)),
    ensures
        pts.len() == n + 1,
        pts@[0] == init,
        steps_between(step, pts@, 0, n as int),
{
    let mut pts: Vec<S> = Vec::new();
    pts.push(init);
    let mut k: usize = 0;
    while k < n
        invariant
            k <= n,
            n < usize::MAX,
            pts.len() == k + 1,
            pts@[0] == init,
            forall|s: S| call_requires(step, (&s,)),
            steps_between(step, pts@, 0, k as int),
        decreases n - k,
    {
        let next = step(&pts[k]);
        pts.push(next);
        k = k + 1;
    }
    pts
}


/// Takes `n >= 1` steps from `init`: the first one with `first`, every later
/// one with `rest`, and records every state.
fn march_with_start<S, F: Fn(&S) -> S, G: Fn(&S) -> S>(
    init: S,
    n: usize,
    first: F,
    rest: G,
) -> (pts: Vec<S>)
    requires
        1 <= n < usize::MAX,
        forall|s: S| call_requires(first, (&s,)),
        forall|s: S| call_requires(rest, (&s,)),
    ensures
        pts.len() == n + 1,
        pts@[0] == init,
        call_ensures(first, (&pts@[0],), pts@[1]),
        steps_between(rest, pts@, 1, n as int),
{
    let mut pts: Vec<S> = Vec::new();
    pts.push(init);
    let second = first(&pts[0]);
    pts.push(second);
    let mut k: usize = 1;
    while k < n
        invariant
            1 <= k <= n,
            n < usize::MAX,
            pts.len() == k + 1,
            pts@[0] == init,
            call_ensures(first, (&pts@[0],), pts@[1]),
            forall|s: S| call_requires(rest, (&s,)),
            steps_between(rest, pts@, 1, k as int),
        decreases n - k,
    {
        let next = rest(&pts[k]);
        pts.push(next);
        k = k + 1;
    }
    pts
}

/// The step schedule of the two-step Adams-Bashforth method over `n >= 1`
/// steps, recording every state.
///
/// With a single step there is no earlier state to extrapolate from, so the
/// one step is taken with `single`. With two or more steps the first step is
/// taken with `start`, which also records in the state what the multistep
/// rule needs of the starting point, and every later step with `multistep`.
/// The result holds `n + 1` states, `init` first.
pub fn adams_bashforth_march<
    S,
    E: Fn(&S) -> S,
    B: Fn(&S) -> S,
    A: Fn(&S) -> S,
>(init: S, n: usize, single: E, start: B, multistep: A) -> (pts: Vec<S>)
    requires
        1 <= n < usize::MAX,
        forall|s: S| call_requires(single, (&s,)),
        forall|s: S| call_requires(start, (&s,)),
        forall|s: S| call_requires(multistep, (&s,)),
    ensures
        pts.len() == n + 1,
        pts@[0] == init,
        n == 1 ==> call_ensures(single, (&pts@[0],), pts@[1]),
        n >= 2 ==> call_ensures(start, (&pts@[0],), pts@[1]),
        n >= 2 ==> steps_between(multistep, pts@, 1, n as int),
{
    if n == 1 {
        march(init, 1, single)
    } else {
        march_with_start(init, n, start, multistep)
    }
}

} // verus!
