//! The relay between the completion hook that the protocol engine calls and
//! the query that waits for its result.

use crate::callback_op::CallbackOp;
use crate::error::Error;
use crate::pdu::Pdu;
use crate::pdu::PduPtr;
use crate::pdu::PduView;
use vstd::prelude::*;

verus! {

/// What the protocol engine announced for a request.
#[derive(Debug)]
pub enum Completion {
    /// A response arrived; this is a copy of it that the caller owns.
    Received(Pdu),
    /// The engine gave the request up after its last retransmission.
    TimedOut,
}

pub enum CompletionView {
    Received(PduView),
    TimedOut,
}

impl View for Completion {
    type V = CompletionView;

    open spec fn view(&self) -> CompletionView {
        match self {
            Completion::Received(pdu) => CompletionView::Received(pdu@),
            Completion::TimedOut => CompletionView::TimedOut,
        }
    }
}

/// A slot for one completion. The hook writes into it at most once after
/// each `install`, and only while it is installed; `take` hands the
/// completion to the reader and ends the registration.
#[derive(Debug)]
pub struct CallbackBridge {
    armed: bool,
    slot: Option<Completion>,
}

/// The state of a bridge: whether a hook is registered, and what the slot
/// holds.
pub struct BridgeView {
    pub armed: bool,
    pub slot: Option<CompletionView>,
}

/// The view of an optional completion.
pub open spec fn slot_view(slot: Option<Completion>) -> Option<CompletionView> {
    match slot {
        Some(completion) => Some(completion@),
        None => None,
    }
}

impl View for CallbackBridge {
    type V = BridgeView;

    closed spec fn view(&self) -> BridgeView {
        BridgeView { armed: self.armed, slot: slot_view(self.slot) }
    }
}

impl BridgeView {
    /// A bridge with no hook registered and an empty slot.
    pub open spec fn idle() -> BridgeView {
        BridgeView { armed: false, slot: None }
    }

    /// The bridge after a hook was registered: armed, with an empty slot.
    pub open spec fn installed() -> BridgeView {
        BridgeView { armed: true, slot: None }
    }

    /// The bridge after the hook was called with operation code `op` and,
    /// where the engine passed one, the message `pdu`. Only the first
    /// received message or timeout after a registration is written;
    /// everything else leaves the bridge as it is.
    pub open spec fn delivered(self, op: i32, pdu: Option<PduView>) -> BridgeView {
        if !self.armed || self.slot is Some {
            self
        } else {
            match CallbackOp::of_code(op) {
                Some(CallbackOp::ReceivedMessage) => match pdu {
                    Some(message) => BridgeView {
                        slot: Some(CompletionView::Received(message)),
                        ..self
                    },
                    None => self,
                },
                Some(CallbackOp::TimedOut) => BridgeView {
                    slot: Some(CompletionView::TimedOut),
                    ..self
                },
                _ => self,
            }
        }
    }

    /// The bridge after the reader asked for the completion: emptied and
    /// disarmed if there was one, unchanged if not.
    pub open spec fn taken(self) -> BridgeView {
        if self.slot is Some {
            BridgeView::idle()
        } else {
            self
        }
    }
}

/// The view of an optional message.
pub open spec fn pdu_view(pdu: Option<&PduPtr>) -> Option<PduView> {
    match pdu {
        Some(message) => Some(message@),
        None => None,
    }
}

impl CallbackBridge {
    /// A bridge with no hook registered.
    pub fn new() -> (res: CallbackBridge)
        ensures
            res@ == BridgeView::idle(),
    {
        CallbackBridge { armed: false, slot: None }
    }

    /// Registers the hook anew: whatever the slot held is dropped.
    pub fn install(&mut self)
        ensures
            final(self)@ == BridgeView::installed(),
    {
        self.armed = true;
        self.slot = None;
    }

    /// Ends the registration: whatever the hook is called with from now on
    /// is not written anywhere.
    pub fn remove(&mut self)
        ensures
            final(self)@ == BridgeView::idle(),
    {
        self.armed = false;
        self.slot = None;
    }

    /// Whether a hook is registered.
    pub fn is_armed(&self) -> (res: bool)
        ensures
            res == self@.armed,
    {
        self.armed
    }

    /// Whether a completion waits for the reader.
    pub fn is_filled(&self) -> (res: bool)
        ensures
            res == self@.slot is Some,
    {
        self.slot.is_some()
    }

    /// What the hook does when the protocol engine calls it with operation
    /// code `op` and the message `pdu`. A received message is copied into
    /// the slot, a timeout is noted there; send failures, connects and
    /// disconnects are passed over. A code that stands for no operation is
    /// reported to whoever registered the hook and written nowhere.
    pub fn deliver(&mut self, op: i32, pdu: Option<&PduPtr>) -> (res: Result<(), Error>)
        requires
            CallbackOp::of_code(op) == Some(CallbackOp::ReceivedMessage) ==> pdu is Some,
        ensures
            final(self)@ == old(self)@.delivered(op, pdu_view(pdu)),
            CallbackOp::of_code(op) is Some ==> res is Ok,
            CallbackOp::of_code(op) is None ==> (res matches Err(Error::InvalidCallbackOp(code))
                && code == op),
    {
        let reason = match CallbackOp::try_from(op) {
            Ok(reason) => reason,
            Err(err) => {
                return Err(err);
            },
        };
        if !self.armed || self.slot.is_some() {
            return Ok(());
        }
        match reason {
            CallbackOp::ReceivedMessage => {
                match pdu {
                    Some(message) => {
                        self.slot = Some(Completion::Received(message.to_owned()));
                    },
                    None => {},
                }
            },
            CallbackOp::TimedOut => {
                self.slot = Some(Completion::TimedOut);
            },
            _ => {},
        }
        Ok(())
    }

    /// Hands the completion to the reader, who owns it from now on, and
    /// ends the registration. While the slot is empty nothing changes.
    pub fn take(&mut self) -> (res: Option<Completion>)
        ensures
            slot_view(res) == old(self)@.slot,
            final(self)@ == old(self)@.taken(),
    {
        if self.slot.is_some() {
            self.armed = false;
            self.slot.take()
        } else {
            None
        }
    }
}

/// The bridge after the hook was called with each of `calls` in turn.
pub open spec fn delivered_all(bridge: BridgeView, calls: Seq<(i32, Option<PduView>)>) -> BridgeView
    decreases calls.len(),
{
    if calls.len() == 0 {
        bridge
    } else {
        delivered_all(bridge.delivered(calls[0].0, calls[0].1), calls.drop_first())
    }
}

/// How many of `calls` write into the slot.
pub open spec fn writes(bridge: BridgeView, calls: Seq<(i32, Option<PduView>)>) -> nat
    decreases calls.len(),
{
    if calls.len() == 0 {
        0
    } else {
        let next = bridge.delivered(calls[0].0, calls[0].1);
        (if next != bridge {
            1nat
        } else {
            0nat
        }) + writes(next, calls.drop_first())
    }
}

/// However often and with whatever the hook is called after a
/// registration, the slot is written at most once, and not at all on a
/// bridge that is not registered or holds a completion already.
pub proof fn lemma_at_most_one_write(bridge: BridgeView, calls: Seq<(i32, Option<PduView>)>)
    ensures
        writes(bridge, calls) <= 1,
        !bridge.armed || bridge.slot is Some ==> writes(bridge, calls) == 0 && delivered_all(
            bridge,
            calls,
        ) == bridge,
        writes(bridge, calls) == 1 ==> delivered_all(bridge, calls).slot is Some,
    decreases calls.len(),
{
    if calls.len() > 0 {
        lemma_at_most_one_write(bridge.delivered(calls[0].0, calls[0].1), calls.drop_first());
    }
}

/// A registered slot is written at most once: once it holds a completion,
/// no call of the hook changes the bridge.
pub proof fn lemma_single_fire(bridge: BridgeView, op: i32, pdu: Option<PduView>)
    requires
        bridge.slot is Some,
    ensures
        bridge.delivered(op, pdu) == bridge,
{
}

/// Two calls of the hook after one registration write what the first of
/// them that writes at all has written.
pub proof fn lemma_first_write_stays(
    bridge: BridgeView,
    op1: i32,
    pdu1: Option<PduView>,
    op2: i32,
    pdu2: Option<PduView>,
)
    ensures
        bridge.delivered(op1, pdu1).slot is Some ==> bridge.delivered(op1, pdu1).delivered(
            op2,
            pdu2,
        ) == bridge.delivered(op1, pdu1),
        bridge.delivered(op1, pdu1).delivered(op2, pdu2).armed == bridge.armed,
{
}

/// Once the reader has taken a completion, a late call of the hook writes
/// nothing: the slot stays empty until a hook is registered again.
pub proof fn lemma_consumed_stays_empty(bridge: BridgeView, op: i32, pdu: Option<PduView>)
    requires
        bridge.slot is Some,
    ensures
        bridge.taken().slot is None,
        bridge.taken().delivered(op, pdu) == bridge.taken(),
{
}

/// A bridge that no hook is registered on is never written.
pub proof fn lemma_unarmed_is_never_written(bridge: BridgeView, op: i32, pdu: Option<PduView>)
    requires
        !bridge.armed,
    ensures
        bridge.delivered(op, pdu) == bridge,
{
}

} // verus!
