//! The protocol run around one intercepted native call. The host side asks
//! `next_step` what to do, performs it, and reports back with an event; the
//! answers here fix which hooks run and guarantee that the original call
//! runs exactly once whatever the hooks do.

use vstd::prelude::*;

verus! {

/// What the host side performs next for the call.
#[derive(Debug, Clone, Copy, PartialEq, Eq, Structural)]
pub enum Step {
    /// Run the plugin's before-hook on the call frame.
    RunBefore,
    /// Run the original handler, unmodified.
    RunOriginal,
    /// Run the plugin's after-hook with the hand-off state and return value.
    RunAfter,
    /// Nothing is left to do for this call.
    Finish,
}

/// Where one call stands in the protocol.
#[derive(Debug, Clone, Copy, PartialEq, Eq, Structural)]
pub enum CallState {
    Start,
    BeforeRunning,
    /// The original call is due; `handoff` records whether the before-hook
    /// produced a hand-off state.
    OriginalPending { handoff: bool },
    AfterRunning,
    Done,
}

/// What the host side reports back.
#[derive(Debug, Clone, Copy, PartialEq, Eq, Structural)]
pub enum CallEvent {
    /// The call arrived; `instrument` says whether a plugin hooks it.
    Begin { instrument: bool },
    /// The before-hook returned; `ok` is false when it failed.
    BeforeReturned { ok: bool },
    OriginalReturned,
    AfterReturned,
}

/// A call is instrumented only when the request is ready, the callee's name
/// decodes as text, a plugin matches it and that plugin hooks the symbol.
pub open spec fn instrumented(ready: bool, decoded: bool, matched: bool, hooked: bool) -> bool {
    ready && decoded && matched && hooked
}

/// Decides whether a call gets the before/after treatment.
pub fn should_instrument(ready: bool, decoded: bool, matched: bool, hooked: bool) -> (r: bool)
    ensures
        r == instrumented(ready, decoded, matched, hooked),
{
    ready && decoded && matched && hooked
}

/// The event that a state waits for.
pub open spec fn accepts(state: CallState, event: CallEvent) -> bool {
    match state {
        CallState::Start => event is Begin,
        CallState::BeforeRunning => event is BeforeReturned,
        CallState::OriginalPending { .. } => event is OriginalReturned,
        CallState::AfterRunning => event is AfterReturned,
        CallState::Done => false,
    }
}

/// One transition of the protocol: the next state and the step to perform.
pub open spec fn transition(state: CallState, event: CallEvent) -> (CallState, Step) {
    match (state, event) {
        (CallState::Start, CallEvent::Begin { instrument }) => if instrument {
            (CallState::BeforeRunning, Step::RunBefore)
        } else {
            (CallState::OriginalPending { handoff: false }, Step::RunOriginal)
        },
        (CallState::BeforeRunning, CallEvent::BeforeReturned { ok }) => (
            CallState::OriginalPending { handoff: ok },
            Step::RunOriginal,
        ),
        (CallState::OriginalPending { handoff }, CallEvent::OriginalReturned) => if handoff {
            (CallState::AfterRunning, Step::RunAfter)
        } else {
            (CallState::Done, Step::Finish)
        },
        (CallState::AfterRunning, CallEvent::AfterReturned) => (CallState::Done, Step::Finish),
        _ => (state, Step::Finish),
    }
}

/// Advances one call through the protocol.
pub fn next_step(state: CallState, event: CallEvent) -> (r: (CallState, Step))
    requires
        accepts(state, event),
    ensures
        r == transition(state, event),
{
    match (state, event) {
        (CallState::Start, CallEvent::Begin { instrument }) => if instrument {
            (CallState::BeforeRunning, Step::RunBefore)
        } else {
            (CallState::OriginalPending { handoff: false }, Step::RunOriginal)
        },
        (CallState::BeforeRunning, CallEvent::BeforeReturned { ok }) => (
            CallState::OriginalPending { handoff: ok },
            Step::RunOriginal,
        ),
        (CallState::OriginalPending { handoff }, CallEvent::OriginalReturned) => if handoff {
            (CallState::AfterRunning, Step::RunAfter)
        } else {
            (CallState::Done, Step::Finish)
        },
        _ => (CallState::Done, Step::Finish),
    }
}

/// The host's answer in a state, for a call with the given instrumentation decision and
/// before-hook outcome.
pub open spec fn reply(state: CallState, instrument: bool, before_ok: bool) -> CallEvent {
    match state {
        CallState::Start => CallEvent::Begin { instrument },
        CallState::BeforeRunning => CallEvent::BeforeReturned { ok: before_ok },
        CallState::OriginalPending { .. } => CallEvent::OriginalReturned,
        _ => CallEvent::AfterReturned,
    }
}

/// The steps performed from `state` until the call is done, at most `fuel`.
pub open spec fn steps_from(state: CallState, instrument: bool, before_ok: bool, fuel: nat) -> Seq<
    Step,
>
    decreases fuel,
{
    if fuel == 0 || state is Done {
        Seq::empty()
    } else {
        let (next, step) = transition(state, reply(state, instrument, before_ok));
        seq![step] + steps_from(next, instrument, before_ok, (fuel - 1) as nat)
    }
}

/// Every step the host performs for one call.
pub open spec fn call_steps(instrument: bool, before_ok: bool) -> Seq<Step> {
    steps_from(CallState::Start, instrument, before_ok, 5)
}

/// How many times `step` occurs in `s`.
pub open spec fn occurrences(s: Seq<Step>, step: Step) -> nat
    decreases s.len(),
{
    if s.len() == 0 {
        0
    } else {
        (if s[0] == step { 1nat } else { 0nat }) + occurrences(s.drop_first(), step)
    }
}

proof fn lemma_call_steps(instrument: bool, before_ok: bool)
    ensures
        call_steps(instrument, before_ok) == (if !instrument {
            seq![Step::RunOriginal, Step::Finish]
        } else if before_ok {
            seq![Step::RunBefore, Step::RunOriginal, Step::RunAfter, Step::Finish]
        } else {
            seq![Step::RunBefore, Step::RunOriginal, Step::Finish]
        }),
{
    reveal_with_fuel(steps_from, 6);
    assert(call_steps(instrument, before_ok) =~= (if !instrument {
        seq![Step::RunOriginal, Step::Finish]
    } else if before_ok {
        seq![Step::RunBefore, Step::RunOriginal, Step::RunAfter, Step::Finish]
    } else {
        seq![Step::RunBefore, Step::RunOriginal, Step::Finish]
    }));
}

/// A call that is not instrumented, because the request is not ready or the
/// callee's name does not decode, only runs the original handler: no hook
/// touches it.
pub proof fn lemma_unready_call_forwards(ready: bool, decoded: bool, matched: bool, hooked: bool, before_ok: bool)
    requires
        !ready || !decoded,
    ensures
        call_steps(instrumented(ready, decoded, matched, hooked), before_ok) == seq![
            Step::RunOriginal,
            Step::Finish,
        ],
{
    lemma_call_steps(instrumented(ready, decoded, matched, hooked), before_ok);
}

/// A call whose plugin declines the symbol runs exactly the steps of a call
/// that no plugin matches.
pub proof fn lemma_declined_as_unmatched(ready: bool, decoded: bool, hooked: bool, before_ok: bool)
    ensures
        call_steps(instrumented(ready, decoded, true, false), before_ok) == call_steps(
            instrumented(ready, decoded, false, hooked),
            before_ok,
        ),
{
    lemma_call_steps(instrumented(ready, decoded, true, false), before_ok);
    lemma_call_steps(instrumented(ready, decoded, false, hooked), before_ok);
}

/// On an instrumented call the after-hook runs if and only if the
/// before-hook succeeded.
pub proof fn lemma_after_iff_before_ok(before_ok: bool)
    ensures
        call_steps(true, before_ok).contains(Step::RunAfter) <==> before_ok,
{
    lemma_call_steps(true, before_ok);
    if !before_ok {
        let s = call_steps(true, before_ok);
        assert(forall|i: int| 0 <= i < s.len() ==> s[i] != Step::RunAfter);
    } else {
        assert(call_steps(true, before_ok)[2] == Step::RunAfter);
    }
}

/// Whether or not the call is instrumented, and whether or not the
/// before-hook fails, the original handler runs exactly once.
pub proof fn lemma_original_runs_once(instrument: bool, before_ok: bool)
    ensures
        occurrences(call_steps(instrument, before_ok), Step::RunOriginal) == 1,
{
    lemma_call_steps(instrument, before_ok);
    reveal_with_fuel(occurrences, 5);
}

} // verus!
