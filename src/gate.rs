use vstd::prelude::*;

verus! {

/// The process-wide one-time initialization gate. Callers enter it one at a
/// time (under a lock held across the initialization); the first to enter
/// runs the initialization, and every later one finds it done.
pub struct InitGate {
    done: bool,
}

impl InitGate {
    /// Whether the initialization has run.
    pub closed spec fn is_done(&self) -> bool {
        self.done
    }

    /// A gate whose initialization has not run.
    pub fn new() -> (g: InitGate)
        ensures
            !g.is_done(),
    {
        InitGate { done: false }
    }

    /// Answers `true` to the first entry only, which performs the
    /// initialization; from then on the initialization counts as done.
    pub fn enter(&mut self) -> (run: bool)
        ensures
            run == !old(self).is_done(),
            final(self).is_done(),
    {
        let run = !self.done;
        self.done = true;
        run
    }

    /// Whether the initialization has run.
    pub fn is_initialized(&self) -> (r: bool)
        ensures
            r == self.is_done(),
    {
        self.done
    }
}

/// Of any number of callers entering a fresh gate in turn, exactly one, the
/// first, runs the initialization, and after each entry every caller finds it
/// done. `states[i]` is the state before entry `i` and `states[i + 1]` after it,
/// each pair related by `enter`'s contract, with `runs[i]` its answer.
pub proof fn law_init_runs_once(states: Seq<InitGate>, runs: Seq<bool>)
    requires
        runs.len() >= 1,
        states.len() == runs.len() + 1,
        !states[0].is_done(),
        forall|i: int|
            0 <= i < runs.len() ==> (#[trigger] runs[i]) == !states[i].is_done() && states[i
                + 1].is_done(),
    ensures
        runs[0],
        forall|i: int| 1 <= i < runs.len() ==> !#[trigger] runs[i],
        forall|i: int| 1 <= i < states.len() ==> #[trigger] states[i].is_done(),
{
    assert(runs[0]);
    assert forall|i: int| 1 <= i < states.len() implies #[trigger] states[i].is_done() by {
        let k = i - 1;
        assert(runs[k] == !states[k].is_done() && states[k + 1].is_done());
    }
    assert forall|i: int| 1 <= i < runs.len() implies !#[trigger] runs[i] by {
        let k = i - 1;
        assert(runs[k] == !states[k].is_done() && states[k + 1].is_done());
    }
}

} // verus!
