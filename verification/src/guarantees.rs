//! What holds of every run of the firmware, whatever the hardware reports.

use vstd::prelude::*;
use crate::sequence::{Action, Outcome, Phase};
use crate::settings::{Severity, GREETING, HEARTBEAT_TEXT};
use crate::trace::{action_at, lemma_halt_is_final, lemma_on_schedule_before, lemma_phase_step,
    lemma_scheduled_or_halted, phase_at};

verus! {

/// Step of a run at which the logger task is spawned, if the run gets that
/// far.
pub open spec fn logger_step() -> int {
    1
}

/// Step of a run at which the bus is opened, if the run gets that far.
pub open spec fn bus_step() -> int {
    2
}

/// Step of a run at which the greeting is shown, if the run gets that far.
pub open spec fn greeting_step() -> int {
    5
}

/// Step of a run at which the heartbeat line with the given number, counted
/// from zero, is emitted.
pub open spec fn beat_step(n: nat) -> int {
    6 + 2 * (n as int)
}

/// The one heartbeat line.
pub open spec fn heartbeat_line() -> Action {
    Action::Log { severity: Severity::Info, text: HEARTBEAT_TEXT }
}

/// The display is written to at most once in a run, with the greeting, and
/// a run that emits a heartbeat line has shown the greeting at an earlier
/// step.
pub proof fn greeting_once_and_before_heartbeat(outcomes: Seq<Outcome>)
    ensures
        forall|i: int, j: int|
            0 <= i <= outcomes.len() && 0 <= j <= outcomes.len()
                && #[trigger] action_at(outcomes, i) is Print
                && #[trigger] action_at(outcomes, j) is Print ==> i == j,
        forall|i: int|
            0 <= i <= outcomes.len() && #[trigger] action_at(outcomes, i) is Print
                ==> action_at(outcomes, i) == Action::Print(GREETING),
        forall|j: int|
            0 <= j <= outcomes.len() && #[trigger] action_at(outcomes, j) is Log
                ==> greeting_step() < j && action_at(outcomes, greeting_step())
                == Action::Print(GREETING),
{
    assert forall|i: int|
        0 <= i <= outcomes.len() && #[trigger] action_at(outcomes, i) is Print implies i
        == greeting_step() && action_at(outcomes, i) == Action::Print(GREETING) by {
        lemma_scheduled_or_halted(outcomes, i);
    }
    assert forall|j: int|
        0 <= j <= outcomes.len() && #[trigger] action_at(outcomes, j) is Log implies greeting_step()
        < j && action_at(outcomes, greeting_step()) == Action::Print(GREETING) by {
        lemma_scheduled_or_halted(outcomes, j);
        lemma_on_schedule_before(outcomes, greeting_step(), j);
    }
}

/// Whenever a phase asks for the bus to be opened, it asks for 200 kHz and
/// for the display's pins.
pub proof fn bus_opened_at_display_frequency(phase: Phase)
    ensures
        phase.spec_action() matches Action::OpenBus { pins, config } ==> config.frequency
            == 200_000 && pins.sda == 4 && pins.scl == 5,
{
}

/// Whenever a phase asks for the expander to be attached, it asks for all
/// three address lines high.
pub proof fn expander_attached_with_all_lines_high(phase: Phase)
    ensures
        phase.spec_action() matches Action::AttachExpander(address) ==> address.a0 && address.a1
            && address.a2,
{
}

/// A run is in the heartbeat after its six steps of start-up exactly when
/// every one of them was reported as completed.
pub proof fn heartbeat_reached_iff_startup_clean(outcomes: Seq<Outcome>)
    requires
        beat_step(0) <= outcomes.len(),
    ensures
        phase_at(outcomes, beat_step(0)).in_heartbeat() <==> forall|i: int|
            0 <= i < beat_step(0) ==> #[trigger] outcomes[i] is Completed,
        phase_at(outcomes, beat_step(0)).in_heartbeat() ==> phase_at(outcomes, beat_step(0))
            is Beat,
{
    lemma_scheduled_or_halted(outcomes, beat_step(0));
    if forall|i: int| 0 <= i < beat_step(0) ==> #[trigger] outcomes[i] is Completed {
        assert(outcomes.take(0) =~= Seq::<Outcome>::empty());
        lemma_phase_step(outcomes, 0);
        lemma_phase_step(outcomes, 1);
        lemma_phase_step(outcomes, 2);
        lemma_phase_step(outcomes, 3);
        lemma_phase_step(outcomes, 4);
        lemma_phase_step(outcomes, 5);
    } else {
        let step = choose|i: int| 0 <= i < beat_step(0) && !(#[trigger] outcomes[i] is Completed);
        startup_fault_is_fatal(outcomes, step);
        assert(action_at(outcomes, beat_step(0)) is Halt);
    }
}

/// The heartbeat, once entered, is never left: from a step in the heartbeat
/// on, every step is in it, whatever is reported.
pub proof fn heartbeat_never_ends(outcomes: Seq<Outcome>, entered: int, later: int)
    requires
        0 <= entered <= later <= outcomes.len(),
        phase_at(outcomes, entered).in_heartbeat(),
    ensures
        phase_at(outcomes, later).in_heartbeat(),
    decreases later - entered,
{
    if entered < later {
        heartbeat_never_ends(outcomes, entered, later - 1);
        lemma_phase_step(outcomes, later - 1);
    }
}

/// In a run that reaches the heartbeat, each heartbeat line is followed by
/// a pause of exactly ten seconds and then by the next line.
pub proof fn heartbeat_cadence(outcomes: Seq<Outcome>, n: nat)
    requires
        beat_step(0) <= outcomes.len(),
        phase_at(outcomes, beat_step(0)).in_heartbeat(),
        beat_step(n + 1) <= outcomes.len(),
    ensures
        action_at(outcomes, beat_step(n)) == heartbeat_line(),
        action_at(outcomes, beat_step(n) + 1) == (Action::Sleep { secs: 10 }),
        action_at(outcomes, beat_step(n) + 2) == heartbeat_line(),
        beat_step(n) + 2 == beat_step(n + 1),
{
    let last = beat_step(n + 1);
    heartbeat_never_ends(outcomes, beat_step(0), last);
    lemma_on_schedule_before(outcomes, beat_step(n), last);
    lemma_on_schedule_before(outcomes, beat_step(n) + 1, last);
    lemma_on_schedule_before(outcomes, last, last);
}

/// The logger task is spawned at most once in a run, and so are the
/// peripherals claimed.
pub proof fn logger_spawned_at_most_once(outcomes: Seq<Outcome>)
    ensures
        forall|i: int, j: int|
            0 <= i <= outcomes.len() && 0 <= j <= outcomes.len()
                && #[trigger] action_at(outcomes, i) is SpawnLogger
                && #[trigger] action_at(outcomes, j) is SpawnLogger ==> i == j,
        forall|i: int, j: int|
            0 <= i <= outcomes.len() && 0 <= j <= outcomes.len()
                && #[trigger] action_at(outcomes, i) is ClaimPeripherals
                && #[trigger] action_at(outcomes, j) is ClaimPeripherals ==> i == j,
{
    assert forall|i: int|
        0 <= i <= outcomes.len() && #[trigger] action_at(outcomes, i) is SpawnLogger implies i
        == logger_step() by {
        lemma_scheduled_or_halted(outcomes, i);
    }
    assert forall|i: int|
        0 <= i <= outcomes.len() && #[trigger] action_at(outcomes, i) is ClaimPeripherals implies i
        == 0 by {
        lemma_scheduled_or_halted(outcomes, i);
    }
}

/// Once the step that spawns the logger is past, no action takes hold of
/// the USB controller again: it is the task's for the rest of the run.
pub proof fn usb_left_to_logger(outcomes: Seq<Outcome>)
    ensures
        forall|i: int|
            logger_step() < i <= outcomes.len() ==> !(#[trigger] action_at(outcomes, i)).takes_usb(),
{
    assert forall|i: int| logger_step() < i <= outcomes.len() implies !(#[trigger] action_at(
        outcomes,
        i,
    )).takes_usb() by {
        lemma_scheduled_or_halted(outcomes, i);
    }
}

/// A fault reported for a step of start-up halts the run: every later step
/// asks for a halt, and no heartbeat line is emitted at any step. If the
/// fault came before the greeting, nothing is shown either.
pub proof fn startup_fault_is_fatal(outcomes: Seq<Outcome>, step: int)
    requires
        0 <= step <= greeting_step(),
        step < outcomes.len(),
        outcomes[step] is Failed,
    ensures
        forall|i: int| step < i <= outcomes.len() ==> #[trigger] action_at(outcomes, i) is Halt,
        forall|i: int| 0 <= i <= outcomes.len() ==> !(#[trigger] action_at(outcomes, i) is Log),
        step < greeting_step() ==> forall|i: int|
            0 <= i <= outcomes.len() ==> !(#[trigger] action_at(outcomes, i) is Print),
{
    lemma_scheduled_or_halted(outcomes, step);
    lemma_phase_step(outcomes, step);
    assert(phase_at(outcomes, step + 1) is Halted);
    assert forall|i: int| step < i <= outcomes.len() implies #[trigger] action_at(outcomes, i)
        is Halt by {
        lemma_halt_is_final(outcomes, step + 1, i);
    }
    assert forall|i: int| 0 <= i <= outcomes.len() implies !(#[trigger] action_at(outcomes, i)
        is Log) by {
        lemma_scheduled_or_halted(outcomes, i);
    }
    assert forall|i: int| 0 <= i <= outcomes.len() && step < greeting_step() implies !(
    #[trigger] action_at(outcomes, i) is Print) by {
        lemma_scheduled_or_halted(outcomes, i);
    }
}

/// If opening the bus fails, the run halts before anything is shown and
/// before any heartbeat line.
pub proof fn bus_fault_is_fatal(outcomes: Seq<Outcome>)
    requires
        bus_step() < outcomes.len(),
        outcomes[bus_step()] is Failed,
    ensures
        forall|i: int|
            bus_step() < i <= outcomes.len() ==> #[trigger] action_at(outcomes, i) is Halt,
        forall|i: int|
            0 <= i <= outcomes.len() ==> !(#[trigger] action_at(outcomes, i) is Print) && !(
            action_at(outcomes, i) is Log),
{
    startup_fault_is_fatal(outcomes, bus_step());
}

} // verus!
