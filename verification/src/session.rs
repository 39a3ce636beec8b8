use crate::pdu::Pdu;
use vstd::prelude::*;

verus! {

/// Session flag: discovery of the peer's security engine is done by the
/// caller, asynchronously, and not by the protocol engine on its own.
pub const FLAG_DONT_PROBE: u64 = 0x100;

/// Whether the flags ask for asynchronous discovery.
pub open spec fn probe_flag(flags: u64) -> bool {
    flags & FLAG_DONT_PROBE != 0
}

/// What this library reads of a session: who the peer is, whether this end
/// is authoritative, and whether an error is pending.
#[derive(Debug)]
pub struct SessionPtr {
    pub flags: u64,
    pub is_authoritative: u8,
    pub peername: Option<String>,
    pub localname: Option<String>,
    pub s_errno: i32,
    pub s_snmp_errno: i32,
}

impl SessionPtr {
    /// A session without names, flags or errors.
    pub fn new() -> (res: SessionPtr)
        ensures
            res.flags == 0,
            res.is_authoritative == 0,
            res.peername is None,
            res.localname is None,
            res.s_errno == 0,
            res.s_snmp_errno == 0,
    {
        SessionPtr {
            flags: 0,
            is_authoritative: 0,
            peername: None,
            localname: None,
            s_errno: 0,
            s_snmp_errno: 0,
        }
    }

    pub fn is_authoritative(&self) -> (res: bool)
        ensures
            res == (self.is_authoritative > 0),
    {
        self.is_authoritative > 0
    }

    pub fn peername(&self) -> (res: Option<String>)
        ensures
            res == self.peername,
    {
        self.peername.clone()
    }

    pub fn localname(&self) -> (res: Option<String>)
        ensures
            res == self.localname,
    {
        self.localname.clone()
    }

    /// Whether the system or the protocol engine has reported an error on
    /// this session.
    pub fn has_error(&self) -> (res: bool)
        ensures
            res == (self.s_errno != 0 || self.s_snmp_errno != 0),
    {
        self.s_errno != 0 || self.s_snmp_errno != 0
    }

    /// Whether discovery is left to the caller.
    pub fn async_probe(&self) -> (res: bool)
        ensures
            res == probe_flag(self.flags),
    {
        self.flags & FLAG_DONT_PROBE != 0
    }

    /// Leaves discovery to the caller, or hands it back to the protocol
    /// engine. No other flag changes.
    pub fn set_async_probe(&mut self, val: bool)
        ensures
            probe_flag(final(self).flags) == val,
            final(self).flags == with_probe_flag(old(self).flags, val),
            final(self).is_authoritative == old(self).is_authoritative,
            final(self).peername == old(self).peername,
            final(self).localname == old(self).localname,
            final(self).s_errno == old(self).s_errno,
            final(self).s_snmp_errno == old(self).s_snmp_errno,
    {
        proof {
            lemma_with_probe_flag(self.flags, val);
        }
        if val {
            self.flags = self.flags | FLAG_DONT_PROBE;
        } else {
            self.flags = self.flags & !FLAG_DONT_PROBE;
        }
    }
}

/// `flags` with the discovery flag set to `val` and every other flag as it
/// was.
pub open spec fn with_probe_flag(flags: u64, val: bool) -> u64 {
    if val {
        flags | FLAG_DONT_PROBE
    } else {
        flags & !FLAG_DONT_PROBE
    }
}

pub proof fn lemma_with_probe_flag(flags: u64, val: bool)
    ensures
        probe_flag(with_probe_flag(flags, val)) == val,
        with_probe_flag(flags, val) & !FLAG_DONT_PROBE == flags & !FLAG_DONT_PROBE,
        probe_flag(flags) == val ==> with_probe_flag(flags, val) == flags,
{
    assert((flags | 0x100u64) & 0x100u64 != 0) by (bit_vector);
    assert((flags & !0x100u64) & 0x100u64 == 0) by (bit_vector);
    assert((flags | 0x100u64) & !0x100u64 == flags & !0x100u64) by (bit_vector);
    assert((flags & !0x100u64) & !0x100u64 == flags & !0x100u64) by (bit_vector);
    assert(flags & 0x100u64 != 0 ==> flags | 0x100u64 == flags) by (bit_vector);
    assert(flags & 0x100u64 == 0 ==> flags & !0x100u64 == flags) by (bit_vector);
}

/// Session information, the same for every kind of open session.
pub trait SessionInfo {
    spec fn spec_session(&self) -> SessionPtr;

    fn session(&self) -> (res: &SessionPtr)
        ensures
            *res == self.spec_session(),
    ;

    fn is_authoritative(&self) -> (res: bool)
        ensures
            res == (self.spec_session().is_authoritative > 0),
    {
        self.session().is_authoritative()
    }

    fn peername(&self) -> (res: Option<String>)
        ensures
            res == self.spec_session().peername,
    {
        self.session().peername()
    }

    fn localname(&self) -> (res: Option<String>)
        ensures
            res == self.spec_session().localname,
    {
        self.session().localname()
    }

    fn has_error(&self) -> (res: bool)
        ensures
            res == (self.spec_session().s_errno != 0 || self.spec_session().s_snmp_errno != 0),
    {
        self.session().has_error()
    }
}

/// The status with which the protocol engine ends an exchange that went
/// through.
pub const STAT_SUCCESS: i32 = 0;

/// How an exchange that the caller waited for has ended.
#[derive(Debug)]
pub enum SyncOutcome {
    /// The peer answered without error; this is its response.
    Response(Pdu),
    /// The peer answered with this error status.
    PacketError(i64),
    /// There is no answer; the session knows why.
    SessionError,
}

/// Reads the end of an exchange that the caller waited for: the response
/// where the exchange went through and the peer reports no error, the
/// peer's error status where it reports one, and otherwise a pointer to
/// the error of the session.
pub fn sync_outcome(status: i32, response: Option<Pdu>) -> (res: SyncOutcome)
    requires
        status == STAT_SUCCESS ==> response is Some,
    ensures
        status != STAT_SUCCESS ==> res is SessionError,
        status == STAT_SUCCESS && response.unwrap()@.errstat == 0 ==> (res matches SyncOutcome::Response(
            pdu,
        ) && pdu@ == response.unwrap()@),
        status == STAT_SUCCESS && response.unwrap()@.errstat != 0 ==> (res matches SyncOutcome::PacketError(
            errstat,
        ) && errstat == response.unwrap()@.errstat),
{
    if status != STAT_SUCCESS {
        return SyncOutcome::SessionError;
    }
    match response {
        Some(pdu) => {
            let errstat = pdu.errstat();
            if errstat == 0 {
                SyncOutcome::Response(pdu)
            } else {
                SyncOutcome::PacketError(errstat)
            }
        },
        None => SyncOutcome::SessionError,
    }
}

} // verus!
