//! A session on the single-session interface of the protocol engine, and
//! the engine of its asynchronous queries: a machine that is told what
//! happened and answers what to do next. It never waits and never calls
//! the protocol engine itself.

use crate::bridge::BridgeView;
use crate::bridge::CallbackBridge;
use crate::bridge::Completion;
use crate::bridge::CompletionView;
use crate::bridge::pdu_view;
use crate::callback_op::CallbackOp;
use crate::error::Error;
use crate::msg::Msg;
use crate::pdu::Pdu;
use crate::pdu::PduPtr;
use crate::pdu::PduView;
use crate::readiness::descriptor_set;
use crate::readiness::in_fd_set;
use crate::readiness::left_over_nanos;
use crate::readiness::retry_timeout;
use crate::readiness::whole_seconds;
use crate::readiness::Timeout;
use crate::session::probe_flag;
use crate::session::with_probe_flag;
use crate::session::SessionInfo;
use crate::session::SessionPtr;
use crate::transport::TransportPtr;
use vstd::prelude::*;
use vstd::string::*;

verus! {

/// Where a query stands.
#[derive(Debug, Clone, Copy, PartialEq, Eq, Structural)]
pub enum Phase {
    /// No query has been started.
    Idle,
    /// The protocol engine is asked whether the message needs discovery.
    CheckingProbe,
    /// Waiting for the socket to take data.
    AwaitWritable,
    /// The probe or the message is being handed to the protocol engine.
    Sending,
    /// Waiting for the socket to have data or for the retry clock to run
    /// out, whichever comes first.
    AwaitReply,
    /// The protocol engine is at work on a timeout or on arrived data, and
    /// may call the completion hook.
    EnginePass,
    /// The protocol engine is reading security parameters out of the reply
    /// to the probe.
    Processing,
    /// The query has ended.
    Complete,
}

/// The stations of a query, in the order in which it passes them. The
/// handshake has its own wait for the socket and for the reply.
#[derive(Debug, Clone, Copy, PartialEq, Eq, Structural)]
pub enum Stage {
    Idle,
    ProbingHandshake,
    AwaitWritable,
    AwaitReadableOrTimeout,
    Complete,
}

impl Stage {
    /// The place of the stage in the order of the stages.
    pub open spec fn rank(self) -> nat {
        match self {
            Stage::Idle => 0,
            Stage::ProbingHandshake => 1,
            Stage::AwaitWritable => 2,
            Stage::AwaitReadableOrTimeout => 3,
            Stage::Complete => 4,
        }
    }
}

/// What happened, as the caller tells the machine.
#[derive(Debug)]
pub enum Event {
    /// The engine's answer to `Action::CheckProbe`.
    ProbeNeeded(bool),
    /// The socket can take data.
    Writable,
    /// Whether the probe went out, in answer to `Action::SendProbe`.
    ProbeSent(bool),
    /// The engine took the message, in answer to `Action::Send`.
    Sent,
    /// The engine refused the message; holds the session's error.
    SendFailed(Error),
    /// The wait of `Action::Wait` ended: the retry clock ran out, the
    /// socket has data, or both.
    Woke { timed_out: bool, readable: bool },
    /// The engine is done with `Action::DriveTimeout` or
    /// `Action::Multiplex`.
    EngineReturned,
    /// Whether the engine found security parameters in the reply to the
    /// probe, in answer to `Action::ProcessProbe`.
    ProbeProcessed(bool),
}

/// How a query ended.
#[derive(Debug)]
pub enum Outcome {
    /// The response, whatever its kind: reading a report is the caller's
    /// business.
    Response(Pdu),
    /// Discovery failed, by a timeout or by a report in place of an answer.
    ProbeFailed,
    /// The protocol engine gave the request up.
    TimedOut,
    /// The protocol engine did not take the message.
    SendFailed(Error),
}

pub enum OutcomeView {
    Response(PduView),
    ProbeFailed,
    TimedOut,
    SendFailed(Error),
}

impl View for Outcome {
    type V = OutcomeView;

    open spec fn view(&self) -> OutcomeView {
        match self {
            Outcome::Response(pdu) => OutcomeView::Response(pdu@),
            Outcome::ProbeFailed => OutcomeView::ProbeFailed,
            Outcome::TimedOut => OutcomeView::TimedOut,
            Outcome::SendFailed(err) => OutcomeView::SendFailed(*err),
        }
    }
}

/// What the caller is to do next.
#[derive(Debug)]
pub enum Action {
    /// Ask the protocol engine whether the outgoing message needs the
    /// security context of the peer, and answer with `Event::ProbeNeeded`.
    CheckProbe,
    /// Wait until the socket can take data, and answer with
    /// `Event::Writable`.
    AwaitWritable,
    /// Have the protocol engine send a discovery probe, and answer with
    /// `Event::ProbeSent`.
    SendProbe,
    /// Hand the outgoing message to the protocol engine, and answer with
    /// `Event::Sent` or `Event::SendFailed`.
    Send,
    /// Ask the protocol engine for the socket and the time left on the
    /// retry clock, wait for either, and answer with `Event::Woke`. The
    /// clock is asked before every wait: the engine may have moved it.
    Wait,
    /// Have the protocol engine act on the clock that ran out, and answer
    /// with `Event::EngineReturned`.
    DriveTimeout,
    /// Have the protocol engine read the socket once, and answer with
    /// `Event::EngineReturned`.
    Multiplex,
    /// Hand the reply to the probe to the protocol engine, which owns it
    /// from now on, and answer with `Event::ProbeProcessed`.
    ProcessProbe(Pdu),
    /// The query has ended. If the message never went out it comes back
    /// here, for the caller to release.
    Finish { outcome: Outcome, unsent: Option<Pdu> },
    /// The event is not one the machine waits for; nothing has changed.
    Unexpected,
}

pub enum ActionView {
    CheckProbe,
    AwaitWritable,
    SendProbe,
    Send,
    Wait,
    DriveTimeout,
    Multiplex,
    ProcessProbe(PduView),
    Finish { outcome: OutcomeView, unsent: Option<PduView> },
    Unexpected,
}

/// The view of an optional owned message.
pub open spec fn owned_view(pdu: Option<Pdu>) -> Option<PduView> {
    match pdu {
        Some(message) => Some(message@),
        None => None,
    }
}

impl View for Action {
    type V = ActionView;

    open spec fn view(&self) -> ActionView {
        match self {
            Action::CheckProbe => ActionView::CheckProbe,
            Action::AwaitWritable => ActionView::AwaitWritable,
            Action::SendProbe => ActionView::SendProbe,
            Action::Send => ActionView::Send,
            Action::Wait => ActionView::Wait,
            Action::DriveTimeout => ActionView::DriveTimeout,
            Action::Multiplex => ActionView::Multiplex,
            Action::ProcessProbe(pdu) => ActionView::ProcessProbe(pdu@),
            Action::Finish { outcome, unsent } => ActionView::Finish {
                outcome: outcome@,
                unsent: owned_view(*unsent),
            },
            Action::Unexpected => ActionView::Unexpected,
        }
    }
}

/// The state of the machine: the flags of the session, where the query
/// stands, whether it is in the discovery handshake, whether a readable
/// socket is still to be served in this wake, the message that has not
/// gone out yet, and the bridge to the completion hook.
pub struct MachineView {
    pub flags: u64,
    pub phase: Phase,
    pub probing: bool,
    pub readable_due: bool,
    pub outgoing: Option<PduView>,
    pub bridge: BridgeView,
}

impl MachineView {
    /// Whether a query may be started.
    pub open spec fn idle(self) -> bool {
        self.phase == Phase::Idle || self.phase == Phase::Complete
    }

    /// The stage of the query.
    pub open spec fn stage(self) -> Stage {
        if self.phase == Phase::Complete {
            Stage::Complete
        } else if self.probing || self.phase == Phase::Processing {
            Stage::ProbingHandshake
        } else if self.phase == Phase::Idle || self.phase == Phase::CheckingProbe {
            Stage::Idle
        } else if self.phase == Phase::AwaitWritable || self.phase == Phase::Sending {
            Stage::AwaitWritable
        } else {
            Stage::AwaitReadableOrTimeout
        }
    }

    /// Whether the probe of the running handshake has been handed to the
    /// protocol engine.
    pub open spec fn probe_out(self) -> bool {
        self.probing && (self.phase == Phase::Sending || self.phase == Phase::AwaitReply
            || self.phase == Phase::EnginePass || self.phase == Phase::Processing)
    }

    /// The machine after a query for `pdu` was started, and the first
    /// thing to do. Discovery is considered only on a session that is
    /// flagged for it.
    pub open spec fn begun(self, pdu: PduView) -> (MachineView, ActionView) {
        if probe_flag(self.flags) {
            (
                MachineView {
                    phase: Phase::CheckingProbe,
                    probing: false,
                    readable_due: false,
                    outgoing: Some(pdu),
                    bridge: BridgeView::idle(),
                    ..self
                },
                ActionView::CheckProbe,
            )
        } else {
            (
                MachineView {
                    phase: Phase::AwaitWritable,
                    probing: false,
                    readable_due: false,
                    outgoing: Some(pdu),
                    bridge: BridgeView::idle(),
                    ..self
                },
                ActionView::AwaitWritable,
            )
        }
    }

    /// The end of a handshake that failed: the session is no longer
    /// flagged for discovery, and the message comes back unsent.
    pub open spec fn probe_failed(self) -> (MachineView, ActionView) {
        (
            MachineView {
                flags: with_probe_flag(self.flags, false),
                phase: Phase::Complete,
                probing: false,
                readable_due: false,
                outgoing: None,
                bridge: BridgeView::idle(),
            },
            ActionView::Finish { outcome: OutcomeView::ProbeFailed, unsent: self.outgoing },
        )
    }

    /// What follows from a completion that the bridge has handed over. In
    /// the handshake a report or a timeout ends discovery as failed, and
    /// any other message goes to the protocol engine; outside of it
    /// whatever came is the outcome of the query.
    pub open spec fn concluded(self, completion: CompletionView) -> (MachineView, ActionView) {
        if self.probing {
            match completion {
                CompletionView::Received(reply) => if Msg::of_code(reply.command as u32) == Some(
                    Msg::Report,
                ) {
                    self.probe_failed()
                } else {
                    (
                        MachineView {
                            phase: Phase::Processing,
                            readable_due: false,
                            bridge: BridgeView::idle(),
                            ..self
                        },
                        ActionView::ProcessProbe(reply),
                    )
                },
                CompletionView::TimedOut => self.probe_failed(),
            }
        } else {
            (
                MachineView {
                    phase: Phase::Complete,
                    readable_due: false,
                    outgoing: None,
                    bridge: BridgeView::idle(),
                    ..self
                },
                ActionView::Finish {
                    outcome: match completion {
                        CompletionView::Received(response) => OutcomeView::Response(response),
                        CompletionView::TimedOut => OutcomeView::TimedOut,
                    },
                    unsent: self.outgoing,
                },
            )
        }
    }

    /// The machine after `event`, and what to do next.
    pub open spec fn step(self, event: Event) -> (MachineView, ActionView) {
        match event {
            Event::ProbeNeeded(needed) => if self.phase == Phase::CheckingProbe {
                (
                    MachineView { phase: Phase::AwaitWritable, probing: needed, ..self },
                    ActionView::AwaitWritable,
                )
            } else {
                (self, ActionView::Unexpected)
            },
            Event::Writable => if self.phase == Phase::AwaitWritable {
                (
                    MachineView { phase: Phase::Sending, ..self },
                    if self.probing {
                        ActionView::SendProbe
                    } else {
                        ActionView::Send
                    },
                )
            } else {
                (self, ActionView::Unexpected)
            },
            Event::ProbeSent(ok) => if self.phase == Phase::Sending && self.probing {
                if ok {
                    (
                        MachineView {
                            phase: Phase::AwaitReply,
                            readable_due: false,
                            bridge: BridgeView::installed(),
                            ..self
                        },
                        ActionView::Wait,
                    )
                } else {
                    self.probe_failed()
                }
            } else {
                (self, ActionView::Unexpected)
            },
            Event::Sent => if self.phase == Phase::Sending && !self.probing {
                (
                    MachineView {
                        phase: Phase::AwaitReply,
                        readable_due: false,
                        outgoing: None,
                        bridge: BridgeView::installed(),
                        ..self
                    },
                    ActionView::Wait,
                )
            } else {
                (self, ActionView::Unexpected)
            },
            Event::SendFailed(err) => if self.phase == Phase::Sending && !self.probing {
                (
                    MachineView {
                        phase: Phase::Complete,
                        readable_due: false,
                        outgoing: None,
                        bridge: BridgeView::idle(),
                        ..self
                    },
                    ActionView::Finish {
                        outcome: OutcomeView::SendFailed(err),
                        unsent: self.outgoing,
                    },
                )
            } else {
                (self, ActionView::Unexpected)
            },
            Event::Woke { timed_out, readable } => if self.phase == Phase::AwaitReply {
                if timed_out {
                    (
                        MachineView { phase: Phase::EnginePass, readable_due: readable, ..self },
                        ActionView::DriveTimeout,
                    )
                } else if readable {
                    (
                        MachineView { phase: Phase::EnginePass, readable_due: false, ..self },
                        ActionView::Multiplex,
                    )
                } else {
                    (self, ActionView::Wait)
                }
            } else {
                (self, ActionView::Unexpected)
            },
            Event::EngineReturned => if self.phase == Phase::EnginePass {
                match self.bridge.slot {
                    Some(completion) => self.concluded(completion),
                    None => if self.readable_due {
                        (MachineView { readable_due: false, ..self }, ActionView::Multiplex)
                    } else {
                        (MachineView { phase: Phase::AwaitReply, ..self }, ActionView::Wait)
                    },
                }
            } else {
                (self, ActionView::Unexpected)
            },
            Event::ProbeProcessed(ok) => if self.phase == Phase::Processing {
                if ok {
                    (
                        MachineView {
                            flags: with_probe_flag(self.flags, false),
                            phase: Phase::AwaitWritable,
                            probing: false,
                            readable_due: false,
                            ..self
                        },
                        ActionView::AwaitWritable,
                    )
                } else {
                    self.probe_failed()
                }
            } else {
                (self, ActionView::Unexpected)
            },
        }
    }

    /// The machine after the call of the completion hook with operation
    /// code `op` and message `pdu`.
    pub open spec fn hooked(self, op: i32, pdu: Option<PduView>) -> MachineView {
        MachineView { bridge: self.bridge.delivered(op, pdu), ..self }
    }

    /// The machine after the running query was given up, and the message
    /// that comes back unsent. The hook is no longer registered. Where the
    /// probe of a handshake had gone out, the handshake counts as failed.
    pub open spec fn cancelled(self) -> (MachineView, Option<PduView>) {
        (
            MachineView {
                flags: if self.probe_out() {
                    with_probe_flag(self.flags, false)
                } else {
                    self.flags
                },
                phase: Phase::Idle,
                probing: false,
                readable_due: false,
                outgoing: None,
                bridge: BridgeView::idle(),
            },
            self.outgoing,
        )
    }
}

/// An open session on the single-session interface. Nothing in it is
/// shared, so it may move between threads.
#[derive(Debug)]
pub struct SingleSessionPtr {
    session: SessionPtr,
    transport: TransportPtr,
    phase: Phase,
    probing: bool,
    readable_due: bool,
    outgoing: Option<Pdu>,
    bridge: CallbackBridge,
}

/// An open session owned by the caller.
#[derive(Debug)]
pub struct SingleSession(SingleSessionPtr);

impl SingleSessionPtr {
    /// The state of the query machine of this session.
    pub closed spec fn machine(&self) -> MachineView {
        MachineView {
            flags: self.session.flags,
            phase: self.phase,
            probing: self.probing,
            readable_due: self.readable_due,
            outgoing: owned_view(self.outgoing),
            bridge: self.bridge@,
        }
    }

    /// What is known of the session.
    pub closed spec fn info(&self) -> SessionPtr {
        self.session
    }

    /// What is known of the transport.
    pub closed spec fn link(&self) -> TransportPtr {
        self.transport
    }

    /// The flags that the machine goes by are those of the session.
    pub proof fn lemma_flags_are_the_sessions(&self)
        ensures
            self.machine().flags == self.info().flags,
    {
    }
}

/// Two sessions differ in their flags at most.
pub open spec fn same_but_flags(a: SessionPtr, b: SessionPtr) -> bool {
    a == (SessionPtr { flags: a.flags, ..b })
}

impl SessionInfo for SingleSessionPtr {
    closed spec fn spec_session(&self) -> SessionPtr {
        self.session
    }

    fn session(&self) -> (res: &SessionPtr) {
        &self.session
    }
}

impl Outcome {
    /// The outcome as a result: the response, or the error that says why
    /// there is none.
    pub fn into_result(self) -> (res: Result<Pdu, Error>)
        ensures
            match self@ {
                OutcomeView::Response(pdu) => res matches Ok(response) && response@ == pdu,
                OutcomeView::ProbeFailed => res matches Err(Error::General(text)) && text@
                    == "engine-id probe failed"@,
                OutcomeView::TimedOut => res matches Err(Error::General(text)) && text@
                    == "timeout"@,
                OutcomeView::SendFailed(err) => res matches Err(e) && e == err,
            },
    {
        match self {
            Outcome::Response(pdu) => Ok(pdu),
            Outcome::ProbeFailed => Err(
                Error::General(String::from_str("engine-id probe failed")),
            ),
            Outcome::TimedOut => Err(Error::General(String::from_str("timeout"))),
            Outcome::SendFailed(err) => Err(err),
        }
    }
}

impl SingleSessionPtr {
    /// The session as the protocol engine opened it, with no query under
    /// way.
    pub fn new(session: SessionPtr, transport: TransportPtr) -> (res: SingleSessionPtr)
        ensures
            res.info() == session,
            res.link() == transport,
            res.machine() == (MachineView {
                flags: session.flags,
                phase: Phase::Idle,
                probing: false,
                readable_due: false,
                outgoing: None,
                bridge: BridgeView::idle(),
            }),
    {
        SingleSessionPtr {
            session,
            transport,
            phase: Phase::Idle,
            probing: false,
            readable_due: false,
            outgoing: None,
            bridge: CallbackBridge::new(),
        }
    }

    /// The transport of the session.
    pub fn transport(&self) -> (res: &TransportPtr)
        ensures
            *res == self.link(),
    {
        &self.transport
    }

    /// The socket to watch and the time to wait for it, from the time
    /// left on the retry clock as the protocol engine gives it.
    pub fn select_info(&self, tv_sec: i64, tv_usec: i64) -> (res: (i32, Timeout))
        requires
            whole_seconds(tv_sec, tv_usec) <= u64::MAX,
        ensures
            res.0 == self.link().sock,
            res.1.secs == whole_seconds(tv_sec, tv_usec),
            res.1.nanos == left_over_nanos(tv_usec),
    {
        (self.transport.socket_fd(), retry_timeout(tv_sec, tv_usec))
    }

    /// The set of descriptors to have the protocol engine read: the socket
    /// of the session and nothing else.
    pub fn read_set(&self) -> (res: Vec<u64>)
        requires
            self.link().sock > 0,
        ensures
            res@.len() == self.link().sock / 64 + 1,
            forall|k: int| in_fd_set(res@, k) <==> k == self.link().sock,
    {
        descriptor_set(self.transport.socket_fd())
    }

    /// Where the query stands.
    pub fn phase(&self) -> (res: Phase)
        ensures
            res == self.machine().phase,
    {
        self.phase
    }

    /// The stage of the query.
    pub fn stage(&self) -> (res: Stage)
        ensures
            res == self.machine().stage(),
    {
        if self.phase == Phase::Complete {
            Stage::Complete
        } else if self.probing || self.phase == Phase::Processing {
            Stage::ProbingHandshake
        } else if self.phase == Phase::Idle || self.phase == Phase::CheckingProbe {
            Stage::Idle
        } else if self.phase == Phase::AwaitWritable || self.phase == Phase::Sending {
            Stage::AwaitWritable
        } else {
            Stage::AwaitReadableOrTimeout
        }
    }

    /// Whether the query is in the discovery handshake.
    pub fn is_probing(&self) -> (res: bool)
        ensures
            res == self.machine().probing,
    {
        self.probing
    }

    /// The message that waits to be sent.
    pub fn outgoing(&self) -> (res: Option<&PduPtr>)
        ensures
            pdu_view(res) == self.machine().outgoing,
    {
        match &self.outgoing {
            Some(pdu) => Some(pdu.as_raw()),
            None => None,
        }
    }

    /// Flags the session for discovery by the caller, or takes the flag
    /// away. Nothing else changes.
    pub fn set_async_probe(&mut self, val: bool)
        ensures
            final(self).machine() == (MachineView {
                flags: with_probe_flag(old(self).machine().flags, val),
                ..old(self).machine()
            }),
            probe_flag(final(self).machine().flags) == val,
            same_but_flags(final(self).info(), old(self).info()),
            final(self).link() == old(self).link(),
    {
        self.session.set_async_probe(val);
    }

    /// Starts a query for `pdu`.
    pub fn begin(&mut self, pdu: Pdu) -> (action: Action)
        requires
            old(self).machine().idle(),
        ensures
            (final(self).machine(), action@) == old(self).machine().begun(pdu@),
            final(self).info() == old(self).info(),
            final(self).link() == old(self).link(),
    {
        self.probing = false;
        self.readable_due = false;
        self.outgoing = Some(pdu);
        self.bridge.remove();
        if self.session.async_probe() {
            self.phase = Phase::CheckingProbe;
            Action::CheckProbe
        } else {
            self.phase = Phase::AwaitWritable;
            Action::AwaitWritable
        }
    }

    fn fail_probe(&mut self) -> (action: Action)
        ensures
            (final(self).machine(), action@) == old(self).machine().probe_failed(),
            same_but_flags(final(self).info(), old(self).info()),
            final(self).link() == old(self).link(),
    {
        self.session.set_async_probe(false);
        self.phase = Phase::Complete;
        self.probing = false;
        self.readable_due = false;
        self.bridge.remove();
        let unsent = self.outgoing.take();
        Action::Finish { outcome: Outcome::ProbeFailed, unsent }
    }

    fn conclude(&mut self, completion: Completion) -> (action: Action)
        requires
            old(self).machine().bridge == BridgeView::idle(),
        ensures
            (final(self).machine(), action@) == old(self).machine().concluded(completion@),
            same_but_flags(final(self).info(), old(self).info()),
            final(self).link() == old(self).link(),
    {
        if self.probing {
            match completion {
                Completion::Received(reply) => {
                    let is_report = match reply.command() {
                        Ok(msg) => msg == Msg::Report,
                        Err(_) => false,
                    };
                    if is_report {
                        self.fail_probe()
                    } else {
                        self.phase = Phase::Processing;
                        self.readable_due = false;
                        Action::ProcessProbe(reply)
                    }
                },
                Completion::TimedOut => self.fail_probe(),
            }
        } else {
            self.phase = Phase::Complete;
            self.readable_due = false;
            let unsent = self.outgoing.take();
            let outcome = match completion {
                Completion::Received(response) => Outcome::Response(response),
                Completion::TimedOut => Outcome::TimedOut,
            };
            Action::Finish { outcome, unsent }
        }
    }

    /// Tells the machine what happened and learns what to do next.
    pub fn handle(&mut self, event: Event) -> (action: Action)
        ensures
            (final(self).machine(), action@) == old(self).machine().step(event),
            same_but_flags(final(self).info(), old(self).info()),
            final(self).link() == old(self).link(),
    {
        match event {
            Event::ProbeNeeded(needed) => {
                if self.phase == Phase::CheckingProbe {
                    self.phase = Phase::AwaitWritable;
                    self.probing = needed;
                    Action::AwaitWritable
                } else {
                    Action::Unexpected
                }
            },
            Event::Writable => {
                if self.phase == Phase::AwaitWritable {
                    self.phase = Phase::Sending;
                    if self.probing {
                        Action::SendProbe
                    } else {
                        Action::Send
                    }
                } else {
                    Action::Unexpected
                }
            },
            Event::ProbeSent(ok) => {
                if self.phase == Phase::Sending && self.probing {
                    if ok {
                        self.phase = Phase::AwaitReply;
                        self.readable_due = false;
                        self.bridge.install();
                        Action::Wait
                    } else {
                        self.fail_probe()
                    }
                } else {
                    Action::Unexpected
                }
            },
            Event::Sent => {
                if self.phase == Phase::Sending && !self.probing {
                    self.phase = Phase::AwaitReply;
                    self.readable_due = false;
                    self.outgoing = None;
                    self.bridge.install();
                    Action::Wait
                } else {
                    Action::Unexpected
                }
            },
            Event::SendFailed(err) => {
                if self.phase == Phase::Sending && !self.probing {
                    self.phase = Phase::Complete;
                    self.readable_due = false;
                    self.bridge.remove();
                    let unsent = self.outgoing.take();
                    Action::Finish { outcome: Outcome::SendFailed(err), unsent }
                } else {
                    Action::Unexpected
                }
            },
            Event::Woke { timed_out, readable } => {
                if self.phase == Phase::AwaitReply {
                    if timed_out {
                        self.phase = Phase::EnginePass;
                        self.readable_due = readable;
                        Action::DriveTimeout
                    } else if readable {
                        self.phase = Phase::EnginePass;
                        self.readable_due = false;
                        Action::Multiplex
                    } else {
                        Action::Wait
                    }
                } else {
                    Action::Unexpected
                }
            },
            Event::EngineReturned => {
                if self.phase == Phase::EnginePass {
                    match self.bridge.take() {
                        Some(completion) => self.conclude(completion),
                        None => {
                            if self.readable_due {
                                self.readable_due = false;
                                Action::Multiplex
                            } else {
                                self.phase = Phase::AwaitReply;
                                Action::Wait
                            }
                        },
                    }
                } else {
                    Action::Unexpected
                }
            },
            Event::ProbeProcessed(ok) => {
                if self.phase == Phase::Processing {
                    if ok {
                        self.session.set_async_probe(false);
                        self.phase = Phase::AwaitWritable;
                        self.probing = false;
                        self.readable_due = false;
                        Action::AwaitWritable
                    } else {
                        self.fail_probe()
                    }
                } else {
                    Action::Unexpected
                }
            },
        }
    }

    /// What the completion hook does when the protocol engine calls it.
    pub fn deliver(&mut self, op: i32, pdu: Option<&PduPtr>) -> (res: Result<(), Error>)
        requires
            CallbackOp::of_code(op) == Some(CallbackOp::ReceivedMessage) ==> pdu is Some,
        ensures
            final(self).machine() == old(self).machine().hooked(op, pdu_view(pdu)),
            final(self).info() == old(self).info(),
            final(self).link() == old(self).link(),
            CallbackOp::of_code(op) is Some ==> res is Ok,
            CallbackOp::of_code(op) is None ==> (res matches Err(Error::InvalidCallbackOp(code))
                && code == op),
    {
        self.bridge.deliver(op, pdu)
    }

    /// Gives the running query up. The hook is taken off the session, so
    /// that a late call of it writes nothing, and the session is ready for
    /// the next query. A message that had not gone out comes back.
    pub fn cancel(&mut self) -> (unsent: Option<Pdu>)
        ensures
            (final(self).machine(), owned_view(unsent)) == old(self).machine().cancelled(),
            same_but_flags(final(self).info(), old(self).info()),
            final(self).link() == old(self).link(),
    {
        let probe_out = self.probing && (self.phase == Phase::Sending || self.phase
            == Phase::AwaitReply || self.phase == Phase::EnginePass || self.phase
            == Phase::Processing);
        if probe_out {
            self.session.set_async_probe(false);
        }
        self.phase = Phase::Idle;
        self.probing = false;
        self.readable_due = false;
        self.bridge.remove();
        self.outgoing.take()
    }
}

impl View for SingleSession {
    type V = SingleSessionPtr;

    closed spec fn view(&self) -> SingleSessionPtr {
        self.0
    }
}

impl SingleSession {
    /// A handle on an open session.
    pub fn from_raw(session: SingleSessionPtr) -> (res: SingleSession)
        ensures
            res@ == session,
    {
        SingleSession(session)
    }

    /// Gives up the handle and returns the session it owned.
    pub fn into_raw(self) -> (res: SingleSessionPtr)
        ensures
            res == self@,
    {
        self.0
    }
}

impl core::ops::Deref for SingleSession {
    type Target = SingleSessionPtr;

    fn deref(&self) -> (res: &SingleSessionPtr)
        ensures
            *res == self@,
    {
        &self.0
    }
}

} // verus!
