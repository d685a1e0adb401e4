//! The dispatch loop as a whole: what a run of commands sends, whatever the
//! device reports, and what holds however commands and completions interleave.
//!
//! Everything here is stated over the rules of `worker`: `decide`,
//! `busy_after_begin`, `busy_after_finish` and `response_for`.

use vstd::prelude::*;
use crate::protocol::{CommandView, OutcomeView, ResponseView, StepView};
use crate::worker::{busy_after_begin, busy_after_finish, decide, response_for};

verus! {

/// The exclusivity flag after one full turn of the loop: the command is taken
/// and, where it is executed, its outcome is reported before the next command.
pub open spec fn turn_flag(busy: bool, command: CommandView) -> bool {
    match decide(busy, command) {
        StepView::Execute(c) => busy_after_finish(busy_after_begin(busy, command), c),
        _ => busy_after_begin(busy, command),
    }
}

/// What one full turn of the loop sends, if anything.
pub open spec fn turn_response(busy: bool, command: CommandView, outcome: OutcomeView) -> Option<
    ResponseView,
> {
    match decide(busy, command) {
        StepView::Execute(c) => response_for(c, outcome),
        StepView::Reply(r) => Some(r),
        StepView::Skip => None,
    }
}

/// The exclusivity flag after the loop has served `commands` one after another.
pub open spec fn flag_after(busy: bool, commands: Seq<CommandView>) -> bool
    decreases commands.len(),
{
    if commands.len() == 0 {
        busy
    } else {
        turn_flag(flag_after(busy, commands.drop_last()), commands.last())
    }
}

/// The responses, in the order sent, of a loop that serves `commands` one after
/// another, where the device reports `outcomes[i]` for `commands[i]`.
pub open spec fn sent(busy: bool, commands: Seq<CommandView>, outcomes: Seq<OutcomeView>) -> Seq<
    ResponseView,
>
    recommends
        commands.len() == outcomes.len(),
    decreases commands.len(),
{
    if commands.len() == 0 {
        Seq::empty()
    } else {
        let earlier = sent(busy, commands.drop_last(), outcomes.drop_last());
        let flag = flag_after(busy, commands.drop_last());
        match turn_response(flag, commands.last(), outcomes.last()) {
            Some(r) => earlier.push(r),
            None => earlier,
        }
    }
}

/// Whatever is sent in answer to a command is of that command's kind.
pub proof fn lemma_response_answers(command: CommandView, outcome: OutcomeView)
    ensures
        response_for(command, outcome) matches Some(r) ==> r.answers(command),
{
}

/// Every command but a sweep is answered, whatever the device reports; a sweep
/// is answered exactly when it brought a result.
pub proof fn lemma_only_a_failed_sweep_is_silent(command: CommandView, outcome: OutcomeView)
    ensures
        response_for(command, outcome) is None <==> command is SweepConfig && !(outcome is Sweep),
{
}

/// Every capture that is executed is answered once: with the raw samples that
/// the device brought, and with an empty result for anything else.
pub proof fn lemma_capture_is_answered(outcome: OutcomeView)
    ensures
        response_for(CommandView::PerformCapture, outcome) == Some(
            ResponseView::CaptureResult(
                match outcome {
                    OutcomeView::Capture(d) => d,
                    _ => Seq::empty(),
                },
            ),
        ),
        !turn_flag(false, CommandView::PerformCapture),
{
}

/// A loop that is free before a command is free again after that command's
/// turn, whatever the command and whatever the device reports. So a loop that
/// starts free is free between any two commands.
pub proof fn lemma_loop_returns_free(commands: Seq<CommandView>)
    ensures
        !flag_after(false, commands),
    decreases commands.len(),
{
    if commands.len() > 0 {
        lemma_loop_returns_free(commands.drop_last());
    }
}

/// In a loop that starts free every command is executed, and what its turn
/// sends depends on that command and its outcome alone.
pub proof fn lemma_turn_in_sequence(
    commands: Seq<CommandView>,
    command: CommandView,
    outcome: OutcomeView,
)
    ensures
        decide(flag_after(false, commands), command) == StepView::Execute(command),
        turn_response(flag_after(false, commands), command, outcome) == response_for(
            command,
            outcome,
        ),
{
    lemma_loop_returns_free(commands);
}

/// What the loop has sent after the first `k` commands stays in front of
/// whatever it sends later: responses leave in the order of their commands.
pub proof fn lemma_sent_prefix(
    busy: bool,
    commands: Seq<CommandView>,
    outcomes: Seq<OutcomeView>,
    k: int,
)
    requires
        commands.len() == outcomes.len(),
        0 <= k <= commands.len(),
    ensures
        sent(busy, commands.take(k), outcomes.take(k)).is_prefix_of(
            sent(busy, commands, outcomes),
        ),
    decreases commands.len(),
{
    let all = sent(busy, commands, outcomes);
    if k == commands.len() {
        assert(commands.take(k) =~= commands);
        assert(outcomes.take(k) =~= outcomes);
        assert(all =~= all.subrange(0, all.len() as int));
    } else {
        let cs = commands.drop_last();
        let os = outcomes.drop_last();
        lemma_sent_prefix(busy, cs, os, k);
        assert(cs.take(k) =~= commands.take(k));
        assert(os.take(k) =~= outcomes.take(k));
        let first = sent(busy, commands.take(k), outcomes.take(k));
        let earlier = sent(busy, cs, os);
        assert(first.is_prefix_of(earlier));
        assert(earlier.is_prefix_of(all));
        assert(first =~= all.subrange(0, first.len() as int));
    }
}

/// First in, first out. Where a free loop serves `commands` one after another
/// and every one of them is answered, it sends as many responses as there are
/// commands, and the response in place `i` is the one to `commands[i]`.
pub proof fn lemma_fifo(commands: Seq<CommandView>, outcomes: Seq<OutcomeView>)
    requires
        commands.len() == outcomes.len(),
        forall|i: int|
            0 <= i < commands.len() ==> (#[trigger] response_for(commands[i], outcomes[i])) is Some,
    ensures
        sent(false, commands, outcomes).len() == commands.len(),
        forall|i: int|
            0 <= i < commands.len() ==> Some(#[trigger] sent(false, commands, outcomes)[i])
                == response_for(commands[i], outcomes[i]),
        forall|i: int|
            0 <= i < commands.len() ==> (#[trigger] sent(false, commands, outcomes)[i]).answers(
                commands[i],
            ),
    decreases commands.len(),
{
    if commands.len() > 0 {
        let cs = commands.drop_last();
        let os = outcomes.drop_last();
        let last = commands.len() - 1;
        assert forall|i: int| 0 <= i < cs.len() implies (#[trigger] response_for(
            cs[i],
            os[i],
        )) is Some by {
            assert(cs[i] == commands[i] && os[i] == outcomes[i]);
        }
        lemma_fifo(cs, os);
        lemma_turn_in_sequence(cs, commands.last(), outcomes.last());
        assert(response_for(commands[last], outcomes[last]) is Some);
        let all = sent(false, commands, outcomes);
        let earlier = sent(false, cs, os);
        assert(all == earlier.push(response_for(commands[last], outcomes[last])->0));
        assert forall|i: int| 0 <= i < commands.len() implies Some(#[trigger] all[i])
            == response_for(commands[i], outcomes[i]) by {
            if i < last {
                assert(all[i] == earlier[i]);
                assert(cs[i] == commands[i] && os[i] == outcomes[i]);
            }
        }
        assert forall|i: int| 0 <= i < commands.len() implies (#[trigger] all[i]).answers(
            commands[i],
        ) by {
            assert(Some(all[i]) == response_for(commands[i], outcomes[i]));
            lemma_response_answers(commands[i], outcomes[i]);
        }
    }
}

/// While an exclusive operation runs, a sweep or a capture is not executed:
/// the device is not touched, the flag stays set, and what is sent at once, if
/// anything, reports a failure.
pub proof fn lemma_exclusive_refused_while_busy(command: CommandView)
    requires
        command.is_exclusive(),
    ensures
        !(decide(true, command) is Execute),
        decide(true, command) matches StepView::Reply(r) ==> r.is_failure() && r.answers(command),
        busy_after_begin(true, command),
{
}

/// A command that is no sweep and no capture is executed whether or not an
/// exclusive operation runs, and leaves the flag as it was, when it is taken
/// and when its outcome is reported.
pub proof fn lemma_plain_command_ignores_flag(busy: bool, command: CommandView)
    requires
        !command.is_exclusive(),
    ensures
        decide(busy, command) == StepView::Execute(command),
        busy_after_begin(busy, command) == busy,
        busy_after_finish(busy, command) == busy,
{
}

/// Something that happens to the dispatch loop.
pub enum LoopEvent {
    /// A command is taken from the queue.
    Arrive(CommandView),
    /// The device reports the outcome of a command that was being executed.
    Complete(CommandView),
}

/// The loop together with the operations that it has under way.
pub struct LoopState {
    /// The exclusivity flag.
    pub busy: bool,
    /// How many sweeps and captures are being executed.
    pub exclusive_running: nat,
}

/// At most one sweep or capture is under way, and the flag is set exactly while
/// one is.
pub open spec fn exclusive(s: LoopState) -> bool {
    s.exclusive_running <= 1 && (s.busy <==> s.exclusive_running == 1)
}

/// The state after one event. A completion counts only for an operation that is
/// under way: there is nothing to complete of a sweep or capture that is not
/// running.
pub open spec fn after_event(s: LoopState, event: LoopEvent) -> LoopState {
    match event {
        LoopEvent::Arrive(c) => LoopState {
            busy: busy_after_begin(s.busy, c),
            exclusive_running: if decide(s.busy, c) is Execute && c.is_exclusive() {
                s.exclusive_running + 1
            } else {
                s.exclusive_running
            },
        },
        LoopEvent::Complete(c) => if c.is_exclusive() && s.exclusive_running == 0 {
            s
        } else {
            LoopState {
                busy: busy_after_finish(s.busy, c),
                exclusive_running: if c.is_exclusive() {
                    (s.exclusive_running - 1) as nat
                } else {
                    s.exclusive_running
                },
            }
        },
    }
}

/// The state after a run of events, in their order.
pub open spec fn after_events(s: LoopState, events: Seq<LoopEvent>) -> LoopState
    decreases events.len(),
{
    if events.len() == 0 {
        s
    } else {
        after_event(after_events(s, events.drop_last()), events.last())
    }
}

/// Mutual exclusion. However arrivals and completions interleave after the loop
/// has started, never more than one sweep or capture is under way, and the flag
/// is set exactly while one is.
pub proof fn lemma_mutual_exclusion(events: Seq<LoopEvent>)
    ensures
        exclusive(after_events(LoopState { busy: false, exclusive_running: 0 }, events)),
    decreases events.len(),
{
    if events.len() > 0 {
        lemma_mutual_exclusion(events.drop_last());
    }
}

/// The scale that is in effect after a write with this outcome, if the write
/// succeeded.
pub open spec fn effective_scale(outcome: OutcomeView) -> Option<u16> {
    match outcome {
        OutcomeView::Scale(v) => Some(v),
        OutcomeView::ScaleClamped(v) => Some(v),
        _ => None,
    }
}

/// Read after write. A write of the scale that succeeded is answered with the
/// effective scale: the requested one where the device took it as asked, the
/// coerced one where it clamped. A read that follows, for which the device
/// reports the scale in effect, is answered with the same value.
pub proof fn lemma_read_after_write(requested: u16, write: OutcomeView, effective: u16)
    requires
        effective_scale(write) == Some(effective),
    ensures
        response_for(CommandView::SetFFTScale(requested), write) == Some(
            ResponseView::FFTScale(Some(effective)),
        ),
        response_for(CommandView::GetFFTScale, OutcomeView::Scale(effective)) == Some(
            ResponseView::FFTScale(Some(effective)),
        ),
        write == OutcomeView::Scale(requested) ==> effective == requested,
{
}

/// A failed operation is recoverable. When a free loop executes a command and
/// the device reports a failure, what is sent, if anything, reports the failure
/// in the command's own kind, the loop is free again, and the next command is
/// executed.
pub proof fn lemma_failure_is_recoverable(command: CommandView, next: CommandView)
    ensures
        decide(false, command) == StepView::Execute(command),
        response_for(command, OutcomeView::Failed) matches Some(r) ==> r.is_failure() && r.answers(
            command,
        ),
        !turn_flag(false, command),
        decide(turn_flag(false, command), next) == StepView::Execute(next),
{
}

} // verus!
