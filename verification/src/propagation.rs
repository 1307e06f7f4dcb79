//! The history of a fixed-step propagation: the initial state, then one
//! state per step, each obtained from the one before by the step map.

use vstd::prelude::*;

verus! {

/// Runs `steps` steps of the map `step` from `init` and returns every state
/// visited: `init` first, then the state after each step.
pub fn trajectory<S: Copy, F: Fn(S) -> S>(init: S, steps: usize, step: F) -> (history: Vec<S>)
    requires
        steps < usize::MAX,
        forall|s: S| call_requires(step, (s,)),
    ensures
        history.len() == steps + 1,
        history[0] == init,
        forall|k: int| 0 <= k < steps ==> call_ensures(step, (history[k],), #[trigger] history[k + 1]),
{
    let mut history: Vec<S> = Vec::new();
    let mut s = init;
    history.push(s);
    let mut i: usize = 0;
    while i < steps
        invariant
            i <= steps,
            forall|x: S| call_requires(step, (x,)),
            history.len() == i + 1,
            history[0] == init,
            history[i as int] == s,
            forall|k: int| 0 <= k < i ==> call_ensures(step, (history[k],), #[trigger] history[k + 1]),
        decreases steps - i,
    {
        s = step(s);
        history.push(s);
        i = i + 1;
    }
    history
}

} // verus!
