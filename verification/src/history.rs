//! The inspector's counters as a function of the hooks that the host has
//! invoked, and what follows from that.

use crate::trace::is_reported_step;
use vstd::prelude::*;

verus! {

/// The hooks of the host's callback interface, one per execution event.
pub enum Hook {
    /// Before a code-execution frame begins.
    InitializeInterp,
    /// Before an instruction executes.
    Step,
    /// After an instruction has executed.
    StepEnd,
    /// The executed code emits a log record.
    Log,
    /// Before a message call begins.
    Call,
    /// After a message call has returned.
    CallEnd,
    /// Before a contract creation begins.
    Create,
    /// After a contract creation has returned.
    CreateEnd,
    /// A contract self-destructs.
    SelfDestruct,
}

/// What an inspector has counted, as unbounded numbers.
pub struct Tally {
    pub steps: nat,
    pub calls: nat,
}

impl Tally {
    /// The tally of an inspector that has observed nothing.
    pub open spec fn zero() -> Tally {
        Tally { steps: 0, calls: 0 }
    }

    /// The tally after one more invocation of `hook`: a step or a call adds
    /// one to its counter, and no other hook changes anything.
    pub open spec fn after(self, hook: Hook) -> Tally {
        match hook {
            Hook::Step => Tally { steps: self.steps + 1, calls: self.calls },
            Hook::Call => Tally { steps: self.steps, calls: self.calls + 1 },
            _ => self,
        }
    }

    /// The tally after the hooks of `history` were invoked in order.
    pub open spec fn after_all(self, history: Seq<Hook>) -> Tally
        decreases history.len(),
    {
        if history.len() == 0 {
            self
        } else {
            self.after_all(history.drop_last()).after(history.last())
        }
    }
}

/// How many invocations of `hook` the history holds.
pub open spec fn occurrences(history: Seq<Hook>, hook: Hook) -> nat {
    history.filter(|h: Hook| h == hook).len()
}

/// The history of `n` invocations of one hook and nothing else.
pub open spec fn repeated(hook: Hook, n: nat) -> Seq<Hook> {
    Seq::new(n, |i: int| hook)
}

/// Whatever hooks the host invokes and in whatever order, the step counter
/// grows by the number of step hooks among them and the call counter by the
/// number of call hooks.
pub proof fn lemma_counters_count_hooks(start: Tally, history: Seq<Hook>)
    ensures
        start.after_all(history).steps == start.steps + occurrences(history, Hook::Step),
        start.after_all(history).calls == start.calls + occurrences(history, Hook::Call),
    decreases history.len(),
{
    reveal(Seq::filter);
    if history.len() > 0 {
        lemma_counters_count_hooks(start, history.drop_last());
    }
}

/// After `n` invocations of the step hook the step counter has grown by
/// `n`, and the call counter is as it was. From a new inspector the step
/// counter is therefore `n`.
pub proof fn lemma_steps_are_counted(start: Tally, n: nat)
    ensures
        start.after_all(repeated(Hook::Step, n)) == (Tally {
            steps: start.steps + n,
            calls: start.calls,
        }),
        Tally::zero().after_all(repeated(Hook::Step, n)).steps == n,
{
    lemma_repeated_hook(start, Hook::Step, n);
    lemma_repeated_hook(Tally::zero(), Hook::Step, n);
}

/// After `m` invocations of the call hook the call counter has grown by
/// `m`, and the step counter is as it was. From a new inspector the call
/// counter is therefore `m`.
pub proof fn lemma_calls_are_counted(start: Tally, m: nat)
    ensures
        start.after_all(repeated(Hook::Call, m)) == (Tally {
            steps: start.steps,
            calls: start.calls + m,
        }),
        Tally::zero().after_all(repeated(Hook::Call, m)).calls == m,
{
    lemma_repeated_hook(start, Hook::Call, m);
    lemma_repeated_hook(Tally::zero(), Hook::Call, m);
}

/// No hook ever lowers a counter.
pub proof fn lemma_counters_never_decrease(start: Tally, history: Seq<Hook>)
    ensures
        start.after_all(history).steps >= start.steps,
        start.after_all(history).calls >= start.calls,
{
    lemma_counters_count_hooks(start, history);
}

/// How many of the first `n` steps of a new inspector are reported.
pub open spec fn reported_steps(n: nat) -> nat {
    Seq::new(n, |i: int| (i + 1) as nat).filter(|count: nat| is_reported_step(count)).len()
}

/// Of the first `n` steps of a new inspector, one in every full hundred is
/// reported: `n / 100` of them.
pub proof fn lemma_one_report_per_hundred_steps(n: nat)
    ensures
        reported_steps(n) == n / 100,
    decreases n,
{
    reveal(Seq::filter);
    if n > 0 {
        lemma_one_report_per_hundred_steps((n - 1) as nat);
        let counts = Seq::new(n, |i: int| (i + 1) as nat);
        assert(counts.drop_last() =~= Seq::new((n - 1) as nat, |i: int| (i + 1) as nat));
    }
}

/// What `n` invocations of one and the same hook make of a tally.
proof fn lemma_repeated_hook(start: Tally, hook: Hook, n: nat)
    ensures
        hook == Hook::Step ==> start.after_all(repeated(hook, n)) == (Tally {
            steps: start.steps + n,
            calls: start.calls,
        }),
        hook == Hook::Call ==> start.after_all(repeated(hook, n)) == (Tally {
            steps: start.steps,
            calls: start.calls + n,
        }),
        hook != Hook::Step && hook != Hook::Call ==> start.after_all(repeated(hook, n)) == start,
    decreases n,
{
    if n > 0 {
        lemma_repeated_hook(start, hook, (n - 1) as nat);
        assert(repeated(hook, n).drop_last() =~= repeated(hook, (n - 1) as nat));
    }
}

} // verus!
