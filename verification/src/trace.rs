//! Whole runs of the firmware: the phases it passes through and the actions
//! it asks for, given how each action ended.

use vstd::prelude::*;
use crate::sequence::{Action, Outcome, Phase};

verus! {

/// The phase the firmware is in once the given outcomes, oldest first, have
/// been reported since reset.
pub open spec fn phase_after(outcomes: Seq<Outcome>) -> Phase
    decreases outcomes.len(),
{
    if outcomes.len() == 0 {
        Phase::spec_start()
    } else {
        phase_after(outcomes.drop_last()).spec_advance(outcomes.last())
    }
}

/// The phase at step `i` of a run: the one reached after the first `i`
/// outcomes.
pub open spec fn phase_at(outcomes: Seq<Outcome>, i: int) -> Phase
    recommends
        0 <= i <= outcomes.len(),
{
    phase_after(outcomes.take(i))
}

/// The action asked for at step `i` of a run.
pub open spec fn action_at(outcomes: Seq<Outcome>, i: int) -> Action
    recommends
        0 <= i <= outcomes.len(),
{
    phase_at(outcomes, i).spec_action()
}

/// The phase that step `i` is in when nothing has gone wrong before it:
/// six steps of start-up, then log line and pause in turn.
pub open spec fn scheduled(i: int) -> Phase
    recommends
        0 <= i,
{
    if i <= 0 {
        Phase::Bootstrap
    } else if i == 1 {
        Phase::Logger
    } else if i == 2 {
        Phase::Bus
    } else if i == 3 {
        Phase::Expander
    } else if i == 4 {
        Phase::Display
    } else if i == 5 {
        Phase::Greeting
    } else if i % 2 == 0 {
        Phase::Beat
    } else {
        Phase::Rest
    }
}

/// One more outcome moves a run on by one call of `advance`.
pub proof fn lemma_phase_step(outcomes: Seq<Outcome>, i: int)
    requires
        0 <= i < outcomes.len(),
    ensures
        phase_at(outcomes, i + 1) == phase_at(outcomes, i).spec_advance(outcomes[i]),
{
    assert(outcomes.take(i + 1).drop_last() =~= outcomes.take(i));
}

/// At every step a run is either on schedule or halted.
pub proof fn lemma_scheduled_or_halted(outcomes: Seq<Outcome>, i: int)
    requires
        0 <= i <= outcomes.len(),
    ensures
        phase_at(outcomes, i) is Halted || phase_at(outcomes, i) == scheduled(i),
    decreases i,
{
    if i > 0 {
        lemma_scheduled_or_halted(outcomes, i - 1);
        lemma_phase_step(outcomes, i - 1);
    }
}

/// A halted run stays halted.
pub proof fn lemma_halt_is_final(outcomes: Seq<Outcome>, i: int, j: int)
    requires
        0 <= i <= j <= outcomes.len(),
        phase_at(outcomes, i) is Halted,
    ensures
        phase_at(outcomes, j) is Halted,
    decreases j - i,
{
    if i < j {
        lemma_halt_is_final(outcomes, i, j - 1);
        lemma_phase_step(outcomes, j - 1);
    }
}

/// A run that has not halted by step `j` was on schedule at every step up
/// to `j`.
pub proof fn lemma_on_schedule_before(outcomes: Seq<Outcome>, i: int, j: int)
    requires
        0 <= i <= j <= outcomes.len(),
        !(phase_at(outcomes, j) is Halted),
    ensures
        phase_at(outcomes, i) == scheduled(i),
{
    lemma_scheduled_or_halted(outcomes, i);
    if phase_at(outcomes, i) is Halted {
        lemma_halt_is_final(outcomes, i, j);
    }
}

/// Runs the machine from reset over the given outcomes, oldest first, and
/// returns the actions it asks for: the first before any outcome, then one
/// after each. Outcomes reported to a halted machine change nothing.
pub fn replay(outcomes: &[Outcome]) -> (actions: Vec<Action>)
    ensures
        actions@.len() == outcomes@.len() + 1,
        forall|i: int| 0 <= i <= outcomes@.len() ==> actions@[i] == #[trigger] action_at(outcomes@, i),
{
    let mut phase = Phase::start();
    let mut actions: Vec<Action> = Vec::new();
    let mut done: usize = 0;
    assert(outcomes@.take(0) =~= Seq::<Outcome>::empty());
    while done < outcomes.len()
        invariant
            done <= outcomes@.len(),
            phase == phase_at(outcomes@, done as int),
            actions@.len() == done,
            forall|i: int| 0 <= i < done ==> actions@[i] == #[trigger] action_at(outcomes@, i),
        decreases outcomes@.len() - done,
    {
        actions.push(phase.action());
        proof {
            lemma_phase_step(outcomes@, done as int);
        }
        phase = phase.advance(outcomes[done]);
        done += 1;
    }
    actions.push(phase.action());
    actions
}

} // verus!
