//! What holds of every run of the query machine: its reachable states are
//! well formed, a session is probed at most once, and a message is never
//! both handed over and handed back.

use crate::bridge::BridgeView;
use crate::pdu::PduView;
use crate::session::lemma_with_probe_flag;
use crate::session::probe_flag;
use crate::single_session::ActionView;
use crate::single_session::Event;
use crate::single_session::MachineView;
use crate::single_session::OutcomeView;
use crate::single_session::Phase;
use vstd::prelude::*;

verus! {

/// One thing that can be done to the machine.
pub enum Input {
    /// A query is started, if none is under way.
    Begin(PduView),
    /// The machine is told of an event.
    Tell(Event),
    /// The protocol engine calls the completion hook.
    Hook(i32, Option<PduView>),
    /// The query is given up.
    Cancel,
}

/// The states that a session can be in. In the handshake the session is
/// still flagged for discovery; the hook is registered exactly while a
/// reply is awaited; the message is held from the start of the query until
/// it goes out or comes back.
pub open spec fn well_formed(s: MachineView) -> bool {
    let waiting = s.phase == Phase::AwaitReply || s.phase == Phase::EnginePass;
    &&& s.probing || s.phase == Phase::CheckingProbe ==> probe_flag(s.flags)
    &&& s.probing ==> !s.idle() && s.phase != Phase::CheckingProbe
    &&& s.phase == Phase::Processing ==> s.probing
    &&& s.bridge.armed <==> waiting
    &&& !s.bridge.armed ==> s.bridge.slot is None
    &&& s.outgoing is None <==> s.idle() || (waiting && !s.probing)
}

/// The machine after `input`. A query is started only where none is under
/// way.
pub open spec fn after(s: MachineView, input: Input) -> MachineView {
    match input {
        Input::Begin(pdu) => if s.idle() {
            s.begun(pdu).0
        } else {
            s
        },
        Input::Tell(event) => s.step(event).0,
        Input::Hook(op, pdu) => s.hooked(op, pdu),
        Input::Cancel => s.cancelled().0,
    }
}

/// Whether `input` makes the machine ask for a discovery probe.
pub open spec fn asks_for_probe(s: MachineView, input: Input) -> bool {
    input matches Input::Tell(event) && s.step(event).1 == ActionView::SendProbe
}

/// The message that `input` makes the machine hand back to the caller.
pub open spec fn handed_back(s: MachineView, input: Input) -> Option<PduView> {
    match input {
        Input::Tell(event) => match s.step(event).1 {
            ActionView::Finish { outcome, unsent } => unsent,
            _ => None,
        },
        Input::Cancel => s.cancelled().1,
        _ => None,
    }
}

/// The machine after all of `inputs`, first to last.
pub open spec fn run(s: MachineView, inputs: Seq<Input>) -> MachineView
    decreases inputs.len(),
{
    if inputs.len() == 0 {
        s
    } else {
        run(after(s, inputs[0]), inputs.drop_first())
    }
}

/// How often the machine asks for a discovery probe in the course of
/// `inputs`.
pub open spec fn probes(s: MachineView, inputs: Seq<Input>) -> nat
    decreases inputs.len(),
{
    if inputs.len() == 0 {
        0
    } else {
        (if asks_for_probe(s, inputs[0]) {
            1nat
        } else {
            0nat
        }) + probes(after(s, inputs[0]), inputs.drop_first())
    }
}

/// How many probes a session has left: one while it is flagged for
/// discovery and no probe has gone out, none otherwise.
pub open spec fn probes_left(s: MachineView) -> nat {
    if probe_flag(s.flags) && !s.probe_out() {
        1
    } else {
        0
    }
}

/// A fresh session is well formed, and whatever is done to a well-formed
/// machine leaves it well formed.
pub proof fn lemma_well_formed_is_kept(s: MachineView, input: Input)
    requires
        well_formed(s),
    ensures
        well_formed(after(s, input)),
{
    lemma_with_probe_flag(s.flags, false);
}

/// Nothing the machine does flags a session for discovery: the flag can
/// only go from set to cleared.
pub proof fn lemma_probe_flag_only_falls(s: MachineView, input: Input)
    ensures
        probe_flag(after(s, input).flags) ==> probe_flag(s.flags),
{
    lemma_with_probe_flag(s.flags, false);
}

/// A probe is asked for only on a session that is flagged for discovery,
/// and where the probe has gone out the end of the handshake clears the
/// flag, however the handshake ends.
pub proof fn lemma_handshake_clears_flag(s: MachineView, input: Input)
    requires
        well_formed(s),
    ensures
        asks_for_probe(s, input) ==> probe_flag(s.flags) && after(s, input).probe_out(),
        s.probe_out() && !after(s, input).probe_out() ==> !probe_flag(after(s, input).flags),
        !s.probe_out() && after(s, input).probe_out() ==> asks_for_probe(s, input),
{
    lemma_with_probe_flag(s.flags, false);
}

proof fn lemma_probe_is_paid_for(s: MachineView, input: Input)
    requires
        well_formed(s),
    ensures
        (if asks_for_probe(s, input) {
            1nat
        } else {
            0nat
        }) + probes_left(after(s, input)) <= probes_left(s),
{
    lemma_with_probe_flag(s.flags, false);
}

/// A session is probed at most once in its life, and never unless it is
/// flagged for discovery: over any queries, hook calls and cancellations,
/// the probes that the machine asks for and the probe that the session has
/// left at the end are together no more than it had left at the start.
pub proof fn lemma_at_most_one_probe(s: MachineView, inputs: Seq<Input>)
    requires
        well_formed(s),
    ensures
        probes(s, inputs) + probes_left(run(s, inputs)) <= probes_left(s),
        probes(s, inputs) <= 1,
        !probe_flag(s.flags) ==> probes(s, inputs) == 0,
        well_formed(run(s, inputs)),
        probe_flag(run(s, inputs).flags) ==> probe_flag(s.flags),
    decreases inputs.len(),
{
    if inputs.len() > 0 {
        let t = after(s, inputs[0]);
        lemma_well_formed_is_kept(s, inputs[0]);
        lemma_probe_flag_only_falls(s, inputs[0]);
        lemma_probe_is_paid_for(s, inputs[0]);
        lemma_at_most_one_probe(t, inputs.drop_first());
    }
}

/// A message that the protocol engine took is gone from the machine, and
/// is not handed back: the caller must not release it.
pub proof fn lemma_sent_message_is_gone(s: MachineView)
    requires
        s.phase == Phase::Sending,
        !s.probing,
    ensures
        s.step(Event::Sent).0.outgoing is None,
        s.step(Event::Sent).1 == ActionView::Wait,
        handed_back(s, Input::Tell(Event::Sent)) is None,
{
}

/// A message that the protocol engine refused comes back to the caller at
/// once, with the error, and the machine keeps nothing of it.
pub proof fn lemma_refused_message_comes_back(s: MachineView, err: crate::error::Error)
    requires
        s.phase == Phase::Sending,
        !s.probing,
    ensures
        s.step(Event::SendFailed(err)).1 == (ActionView::Finish {
            outcome: OutcomeView::SendFailed(err),
            unsent: s.outgoing,
        }),
        s.step(Event::SendFailed(err)).0.outgoing is None,
{
}

/// The machine holds no message but the one it was given, and whatever it
/// hands back it no longer holds: a message is handed back at most once,
/// and never after the protocol engine took it.
pub proof fn lemma_message_is_handed_back_once(s: MachineView, input: Input)
    requires
        well_formed(s),
    ensures
        handed_back(s, input) is Some ==> handed_back(s, input) == s.outgoing && after(
            s,
            input,
        ).outgoing is None,
        !(input is Begin) && after(s, input).outgoing is Some ==> after(s, input).outgoing
            == s.outgoing,
        s.outgoing is None && !(input is Begin) ==> handed_back(s, input) is None && after(
            s,
            input,
        ).outgoing is None,
{
}

/// Outside of the handshake, whatever the protocol engine delivers is the
/// outcome of the query, a report among the rest.
pub proof fn lemma_response_is_passed_through(s: MachineView, response: PduView)
    requires
        s.phase == Phase::EnginePass,
        !s.probing,
        s.bridge.slot == Some(crate::bridge::CompletionView::Received(response)),
    ensures
        s.step(Event::EngineReturned).0.phase == Phase::Complete,
        s.step(Event::EngineReturned).0.bridge == BridgeView::idle(),
        s.step(Event::EngineReturned).1 == (ActionView::Finish {
            outcome: OutcomeView::Response(response),
            unsent: s.outgoing,
        }),
{
}

/// When the clock has run out and the socket has data in one and the same
/// wake, the timeout is served first and the socket after it, unless the
/// timeout has ended the query.
pub proof fn lemma_timeout_goes_first(s: MachineView)
    requires
        s.phase == Phase::AwaitReply,
    ensures
        s.step(Event::Woke { timed_out: true, readable: true }).1 == ActionView::DriveTimeout,
        ({
            let t = s.step(Event::Woke { timed_out: true, readable: true }).0;
            t.bridge.slot is None ==> t.step(Event::EngineReturned).1 == ActionView::Multiplex
                && t.step(Event::EngineReturned).0.step(Event::EngineReturned).1
                == ActionView::Wait
        }),
{
}

/// A query passes its stages in order: no event takes it back to a stage
/// it has left, and only the start of a query leaves the last stage.
pub proof fn lemma_stages_only_advance(s: MachineView, event: Event)
    requires
        well_formed(s),
    ensures
        s.stage().rank() <= s.step(event).0.stage().rank(),
        s.stage() == crate::single_session::Stage::Complete ==> s.step(event) == (
            s,
            ActionView::Unexpected,
        ),
{
}

/// The handshake is entered only on a session that is flagged for
/// discovery and for a message that needs it.
pub proof fn lemma_handshake_is_entered_on_demand(s: MachineView, event: Event)
    requires
        well_formed(s),
        s.stage() != crate::single_session::Stage::ProbingHandshake,
        s.step(event).0.stage() == crate::single_session::Stage::ProbingHandshake,
    ensures
        probe_flag(s.flags),
        event == Event::ProbeNeeded(true),
{
}

/// A wake for a readable socket makes for exactly one pass of the protocol
/// engine over the socket: after it the machine concludes or waits again.
pub proof fn lemma_one_pass_per_wake(s: MachineView)
    requires
        s.phase == Phase::AwaitReply,
    ensures
        s.step(Event::Woke { timed_out: false, readable: true }).1 == ActionView::Multiplex,
        ({
            let t = s.step(Event::Woke { timed_out: false, readable: true }).0;
            &&& t.step(Event::EngineReturned).1 != ActionView::Multiplex
            &&& t.bridge.slot is None ==> t.step(Event::EngineReturned) == (
                MachineView { readable_due: false, ..s },
                ActionView::Wait,
            )
        }),
{
}

} // verus!
