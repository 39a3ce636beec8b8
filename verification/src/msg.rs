use crate::error::Error;
use vstd::prelude::*;

verus! {

/// The operation a message asks for or reports.
#[derive(Debug, Clone, Copy, PartialEq, Eq, Structural)]
pub enum Msg {
    Get,
    GetNext,
    Response,
    SetRequest,
    GetBulk,
    Inform,
    Trap,
    Trap2,
    Report,
}

impl Msg {
    /// The command code that stands for this operation on the wire.
    pub open spec fn spec_code(self) -> u32 {
        match self {
            Msg::Get => 160,
            Msg::GetNext => 161,
            Msg::Response => 162,
            Msg::SetRequest => 163,
            Msg::Trap => 164,
            Msg::GetBulk => 165,
            Msg::Inform => 166,
            Msg::Trap2 => 167,
            Msg::Report => 168,
        }
    }

    /// The operation that a command code stands for, if any.
    pub open spec fn of_code(val: u32) -> Option<Msg> {
        if val == 160 {
            Some(Msg::Get)
        } else if val == 161 {
            Some(Msg::GetNext)
        } else if val == 162 {
            Some(Msg::Response)
        } else if val == 163 {
            Some(Msg::SetRequest)
        } else if val == 164 {
            Some(Msg::Trap)
        } else if val == 165 {
            Some(Msg::GetBulk)
        } else if val == 166 {
            Some(Msg::Inform)
        } else if val == 167 {
            Some(Msg::Trap2)
        } else if val == 168 {
            Some(Msg::Report)
        } else {
            None
        }
    }

    #[verifier::when_used_as_spec(spec_code)]
    pub fn code(self) -> (res: u32)
        ensures
            res == self.spec_code(),
            Msg::of_code(res) == Some(self),
    {
        match self {
            Msg::Get => 160,
            Msg::GetNext => 161,
            Msg::Response => 162,
            Msg::SetRequest => 163,
            Msg::Trap => 164,
            Msg::GetBulk => 165,
            Msg::Inform => 166,
            Msg::Trap2 => 167,
            Msg::Report => 168,
        }
    }

    /// Reads a command code; a code that stands for no operation comes back
    /// inside the error.
    pub fn try_from(val: u32) -> (res: Result<Msg, Error>)
        ensures
            match Msg::of_code(val) {
                Some(msg) => res matches Ok(m) && m == msg,
                None => res matches Err(Error::InvalidMsg(v)) && v == val,
            },
    {
        match val {
            160 => Ok(Msg::Get),
            161 => Ok(Msg::GetNext),
            162 => Ok(Msg::Response),
            163 => Ok(Msg::SetRequest),
            164 => Ok(Msg::Trap),
            165 => Ok(Msg::GetBulk),
            166 => Ok(Msg::Inform),
            167 => Ok(Msg::Trap2),
            168 => Ok(Msg::Report),
            _ => Err(Error::InvalidMsg(val)),
        }
    }
}

impl core::convert::TryFrom<u32> for Msg {
    type Error = Error;

    fn try_from(val: u32) -> (res: Result<Msg, Error>) {
        Msg::try_from(val)
    }
}

impl vstd::std_specs::convert::TryFromSpecImpl<u32> for Msg {
    open spec fn obeys_try_from_spec() -> bool {
        true
    }

    open spec fn try_from_spec(val: u32) -> Result<Msg, Error> {
        match Msg::of_code(val) {
            Some(msg) => Ok(msg),
            None => Err(Error::InvalidMsg(val)),
        }
    }
}

/// A code is read as the operation whose code it is, and as no other.
pub proof fn lemma_msg_code_round_trip(val: u32, msg: Msg)
    ensures
        Msg::of_code(val) == Some(msg) <==> msg.spec_code() == val,
{
}

} // verus!
