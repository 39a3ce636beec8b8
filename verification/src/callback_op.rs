use crate::error::Error;
use vstd::prelude::*;

verus! {

/// Why the protocol engine calls a completion hook.
#[derive(Debug, Clone, Copy, PartialEq, Eq, Structural)]
pub enum CallbackOp {
    ReceivedMessage,
    TimedOut,
    SendFailed,
    Connect,
    Disconnect,
}

impl CallbackOp {
    /// The operation code the engine passes for this reason.
    pub open spec fn spec_code(self) -> i32 {
        match self {
            CallbackOp::ReceivedMessage => 1,
            CallbackOp::TimedOut => 2,
            CallbackOp::SendFailed => 3,
            CallbackOp::Connect => 4,
            CallbackOp::Disconnect => 5,
        }
    }

    /// The reason an operation code stands for, if any.
    pub open spec fn of_code(val: i32) -> Option<CallbackOp> {
        if val == 1 {
            Some(CallbackOp::ReceivedMessage)
        } else if val == 2 {
            Some(CallbackOp::TimedOut)
        } else if val == 3 {
            Some(CallbackOp::SendFailed)
        } else if val == 4 {
            Some(CallbackOp::Connect)
        } else if val == 5 {
            Some(CallbackOp::Disconnect)
        } else {
            None
        }
    }

    #[verifier::when_used_as_spec(spec_code)]
    pub fn code(self) -> (res: i32)
        ensures
            res == self.spec_code(),
            CallbackOp::of_code(res) == Some(self),
    {
        match self {
            CallbackOp::ReceivedMessage => 1,
            CallbackOp::TimedOut => 2,
            CallbackOp::SendFailed => 3,
            CallbackOp::Connect => 4,
            CallbackOp::Disconnect => 5,
        }
    }

    /// Reads an operation code; a code that stands for no reason comes back
    /// inside the error.
    pub fn try_from(val: i32) -> (res: Result<CallbackOp, Error>)
        ensures
            match CallbackOp::of_code(val) {
                Some(op) => res matches Ok(o) && o == op,
                None => res matches Err(Error::InvalidCallbackOp(v)) && v == val,
            },
    {
        match val {
            1 => Ok(CallbackOp::ReceivedMessage),
            2 => Ok(CallbackOp::TimedOut),
            3 => Ok(CallbackOp::SendFailed),
            4 => Ok(CallbackOp::Connect),
            5 => Ok(CallbackOp::Disconnect),
            _ => Err(Error::InvalidCallbackOp(val)),
        }
    }
}

impl core::convert::TryFrom<i32> for CallbackOp {
    type Error = Error;

    fn try_from(val: i32) -> (res: Result<CallbackOp, Error>) {
        CallbackOp::try_from(val)
    }
}

impl vstd::std_specs::convert::TryFromSpecImpl<i32> for CallbackOp {
    open spec fn obeys_try_from_spec() -> bool {
        true
    }

    open spec fn try_from_spec(val: i32) -> Result<CallbackOp, Error> {
        match CallbackOp::of_code(val) {
            Some(op) => Ok(op),
            None => Err(Error::InvalidCallbackOp(val)),
        }
    }
}

} // verus!
