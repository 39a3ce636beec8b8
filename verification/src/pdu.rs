use crate::error::Error;
use crate::msg::Msg;
use crate::oid::Oid;
use crate::variable::Variable;
use crate::variable::VariablePtr;
use crate::variable::VariableView;
use crate::varlist::VarList;
use crate::varlist::VarListIter;
use crate::version::Version;
use crate::version::VersionCode;
use vstd::prelude::*;

verus! {

/// What a field of a message holds until somebody sets it.
pub const UNSET: i64 = -1;

/// The tag byte of a variable that carries no value.
pub const NULL_TAG: u8 = 0x05;

/// One protocol message, request or response. On a bulk request the error
/// status holds the number of non-repeaters and the error index the
/// greatest number of repetitions.
#[derive(Debug)]
pub struct PduPtr {
    command: i32,
    version: i64,
    errstat: i64,
    errindex: i64,
    flags: u64,
    community: Vec<u8>,
    enterprise: Oid,
    trap_type: i64,
    specific_type: i64,
    agent_addr: [u8; 4],
    variables: VarList,
    transport_data: Vec<u8>,
}

/// A message owned by the caller. It cannot be copied: whoever takes it has
/// it alone.
#[derive(Debug)]
pub struct Pdu(PduPtr);

/// What a message holds, as mathematics.
pub struct PduView {
    pub command: i32,
    pub version: i64,
    pub errstat: i64,
    pub errindex: i64,
    pub flags: u64,
    pub community: Seq<u8>,
    pub enterprise: Seq<u64>,
    pub trap_type: i64,
    pub specific_type: i64,
    pub agent_addr: [u8; 4],
    pub variables: Seq<VariableView>,
    pub transport_data: Seq<u8>,
}

impl View for PduPtr {
    type V = PduView;

    closed spec fn view(&self) -> PduView {
        PduView {
            command: self.command,
            version: self.version,
            errstat: self.errstat,
            errindex: self.errindex,
            flags: self.flags,
            community: self.community@,
            enterprise: self.enterprise@,
            trap_type: self.trap_type,
            specific_type: self.specific_type,
            agent_addr: self.agent_addr,
            variables: self.variables@,
            transport_data: self.transport_data@,
        }
    }
}

impl View for Pdu {
    type V = PduView;

    closed spec fn view(&self) -> PduView {
        self.0@
    }
}

/// A message of the given kind with nothing set and no variables.
pub open spec fn blank(msg: Msg) -> PduView {
    PduView {
        command: msg.spec_code() as i32,
        version: UNSET,
        errstat: UNSET,
        errindex: UNSET,
        flags: 0,
        community: Seq::empty(),
        enterprise: Seq::empty(),
        trap_type: 0,
        specific_type: 0,
        agent_addr: [0u8, 0u8, 0u8, 0u8],
        variables: Seq::empty(),
        transport_data: Seq::empty(),
    }
}

/// A variable that names `oid` and carries no value, as a request holds it.
pub open spec fn null_var(oid: Seq<u64>) -> VariableView {
    VariableView { name: oid, tag: NULL_TAG, payload: Seq::empty() }
}

/// One valueless variable for each of `oids`, in their order.
pub open spec fn null_vars(oids: Seq<Oid>) -> Seq<VariableView> {
    Seq::new(oids.len(), |i: int| null_var(oids[i]@))
}

/// The bulk request for `gets`, asked once each, and `walks`, each followed
/// for up to `repetitions` successors.
pub open spec fn bulk_request(gets: Seq<Oid>, walks: Seq<Oid>, repetitions: usize) -> PduView {
    PduView {
        errstat: gets.len() as i64,
        errindex: repetitions as i64,
        variables: null_vars(gets) + null_vars(walks),
        ..blank(Msg::GetBulk)
    }
}

impl Pdu {
    /// A message as the protocol engine filled it in.
    pub fn from_parts(
        command: i32,
        version: i64,
        errstat: i64,
        errindex: i64,
        flags: u64,
        community: Vec<u8>,
        enterprise: Oid,
        trap_type: i64,
        specific_type: i64,
        agent_addr: [u8; 4],
        variables: VarList,
        transport_data: Vec<u8>,
    ) -> (res: Pdu)
        ensures
            res@ == (PduView {
                command,
                version,
                errstat,
                errindex,
                flags,
                community: community@,
                enterprise: enterprise@,
                trap_type,
                specific_type,
                agent_addr,
                variables: variables@,
                transport_data: transport_data@,
            }),
    {
        Pdu(
            PduPtr {
                command,
                version,
                errstat,
                errindex,
                flags,
                community,
                enterprise,
                trap_type,
                specific_type,
                agent_addr,
                variables,
                transport_data,
            },
        )
    }

    fn new(msg: Msg) -> (res: Pdu)
        ensures
            res@ == blank(msg),
    {
        let res = Pdu(
            PduPtr {
                command: msg.code() as i32,
                version: UNSET,
                errstat: UNSET,
                errindex: UNSET,
                flags: 0,
                community: Vec::new(),
                enterprise: Oid::empty(),
                trap_type: 0,
                specific_type: 0,
                agent_addr: [0u8, 0u8, 0u8, 0u8],
                variables: VarList::new(),
                transport_data: Vec::new(),
            },
        );
        assert(res@.agent_addr == blank(msg).agent_addr);
        res
    }

    /// An empty get request.
    pub fn get() -> (res: Pdu)
        ensures
            res@ == blank(Msg::Get),
    {
        Pdu::new(Msg::Get)
    }

    /// An empty get-next request.
    pub fn get_next() -> (res: Pdu)
        ensures
            res@ == blank(Msg::GetNext),
    {
        Pdu::new(Msg::GetNext)
    }

    /// An empty bulk request. The two counts go where other messages keep
    /// their error status and error index.
    pub fn get_bulk(non_repeaters: i64, max_repetitions: i64) -> (res: Pdu)
        ensures
            res@ == (PduView {
                errstat: non_repeaters,
                errindex: max_repetitions,
                ..blank(Msg::GetBulk)
            }),
    {
        let mut pdu = Pdu::new(Msg::GetBulk);
        pdu.0.errstat = non_repeaters;
        pdu.0.errindex = max_repetitions;
        pdu
    }

    /// Asks for `oid`: hangs a variable of that name, without a value, on
    /// the end of the chain. The response fills the value in.
    pub fn add_oid(self, oid: &Oid) -> (res: Pdu)
        ensures
            res@ == (PduView { variables: self@.variables.push(null_var(oid@)), ..self@ }),
    {
        let mut pdu = self;
        let var = VariablePtr::new(oid.clone(), NULL_TAG, Vec::new()).to_owned();
        pdu.0.variables.push(var);
        pdu
    }

    /// Asks for every one of `oids`, in their order.
    pub fn add_oids(self, oids: &[Oid]) -> (res: Pdu)
        ensures
            res@ == (PduView { variables: self@.variables + null_vars(oids@), ..self@ }),
    {
        let mut pdu = self;
        let mut i: usize = 0;
        assert(pdu@.variables =~= self@.variables + null_vars(oids@.subrange(0, 0)));
        while i < oids.len()
            invariant
                i <= oids.len(),
                pdu@ == (PduView {
                    variables: self@.variables + null_vars(oids@.subrange(0, i as int)),
                    ..self@
                }),
            decreases oids.len() - i,
        {
            pdu = pdu.add_oid(&oids[i]);
            i += 1;
            assert(null_vars(oids@.subrange(0, i as int)) =~= null_vars(
                oids@.subrange(0, i - 1),
            ).push(null_var(oids@[i - 1]@)));
            assert(pdu@.variables =~= self@.variables + null_vars(oids@.subrange(0, i as int)));
        }
        assert(oids@.subrange(0, i as int) =~= oids@);
        pdu
    }

    /// The get request for one object.
    pub fn get_request(oid: &Oid) -> (res: Pdu)
        ensures
            res@ == (PduView { variables: seq![null_var(oid@)], ..blank(Msg::Get) }),
    {
        let pdu = Pdu::get().add_oid(oid);
        assert(pdu@.variables =~= seq![null_var(oid@)]);
        pdu
    }

    /// The get-next request for the successor of one object.
    pub fn get_next_request(oid: &Oid) -> (res: Pdu)
        ensures
            res@ == (PduView { variables: seq![null_var(oid@)], ..blank(Msg::GetNext) }),
    {
        let pdu = Pdu::get_next().add_oid(oid);
        assert(pdu@.variables =~= seq![null_var(oid@)]);
        pdu
    }

    /// The bulk request for `gets`, asked once each, and `walks`, each
    /// followed for up to `repetitions` successors. The counts are set
    /// before any variable is added; the variables of `gets` come first.
    pub fn get_bulk_request(gets: &[Oid], walks: &[Oid], repetitions: usize) -> (res: Pdu)
        ensures
            res@ == bulk_request(gets@, walks@, repetitions),
    {
        let non_repeaters: i64 = #[verifier::truncate]
        (gets.len() as i64);
        let max_repetitions: i64 = #[verifier::truncate]
        (repetitions as i64);
        let pdu = Pdu::get_bulk(non_repeaters, max_repetitions);
        let pdu = pdu.add_oids(gets).add_oids(walks);
        assert(pdu@.variables =~= null_vars(gets@) + null_vars(walks@));
        pdu
    }

    /// The bulk request that asks for each of `oids` once.
    pub fn get_many_request(oids: &[Oid]) -> (res: Pdu)
        ensures
            res@ == (PduView {
                errstat: oids@.len() as i64,
                errindex: 1,
                variables: null_vars(oids@),
                ..blank(Msg::GetBulk)
            }),
    {
        let non_repeaters: i64 = #[verifier::truncate]
        (oids.len() as i64);
        let pdu = Pdu::get_bulk(non_repeaters, 1).add_oids(oids);
        assert(pdu@.variables =~= null_vars(oids@));
        pdu
    }

    /// The message this handle owns.
    pub fn as_raw(&self) -> (res: &PduPtr)
        ensures
            res@ == self@,
    {
        &self.0
    }

    /// Gives up the handle and returns the message it owned.
    pub fn into_raw(self) -> (res: PduPtr)
        ensures
            res@ == self@,
    {
        self.0
    }
}

impl core::ops::Deref for Pdu {
    type Target = PduPtr;

    fn deref(&self) -> (res: &PduPtr)
        ensures
            res@ == self@,
    {
        &self.0
    }
}

/// `String::from_utf8`: the text that `bytes` encode where they are valid
/// UTF-8, and nothing where they are not.
#[verifier::external_body]
fn utf8_text(bytes: Vec<u8>) -> (res: Option<String>)
    ensures
        res is Some <==> vstd::utf8::valid_utf8(bytes@),
        res matches Some(text) ==> text@ == vstd::utf8::decode_utf8(bytes@),
{
    match String::from_utf8(bytes) {
        Ok(text) => Some(text),
        Err(_) => None,
    }
}

impl PduPtr {
    /// A copy of this message that the caller owns. The message copied
    /// from keeps nothing of the copy.
    pub fn to_owned(&self) -> (res: Pdu)
        ensures
            res@ == self@,
    {
        let community = self.community.clone();
        let transport_data = self.transport_data.clone();
        assert(community@ =~= self.community@);
        assert(transport_data@ =~= self.transport_data@);
        Pdu(
            PduPtr {
                command: self.command,
                version: self.version,
                errstat: self.errstat,
                errindex: self.errindex,
                flags: self.flags,
                community,
                enterprise: self.enterprise.clone(),
                trap_type: self.trap_type,
                specific_type: self.specific_type,
                agent_addr: self.agent_addr,
                variables: self.variables.to_owned(),
                transport_data,
            },
        )
    }

    /// The operation of the message.
    pub fn command(&self) -> (res: Result<Msg, Error>)
        ensures
            match Msg::of_code(self@.command as u32) {
                Some(msg) => res matches Ok(m) && m == msg,
                None => res matches Err(Error::InvalidMsg(v)) && v == self@.command as u32,
            },
    {
        Msg::try_from(
            #[verifier::truncate]
            (self.command as u32),
        )
    }

    pub fn set_command(&mut self, msg: Msg)
        ensures
            final(self)@ == (PduView { command: msg.spec_code() as i32, ..old(self)@ }),
    {
        self.command = msg.code() as i32;
    }

    /// Sets error status and error index to zero.
    pub fn clear_error(&mut self)
        ensures
            final(self)@ == (PduView { errstat: 0, errindex: 0, ..old(self)@ }),
    {
        self.errstat = 0;
        self.errindex = 0;
    }

    /// The error status; on a bulk request, the number of non-repeaters.
    pub fn errstat(&self) -> (res: i64)
        ensures
            res == self@.errstat,
    {
        self.errstat
    }

    /// The error index; on a bulk request, the greatest number of
    /// repetitions.
    pub fn errindex(&self) -> (res: i64)
        ensures
            res == self@.errindex,
    {
        self.errindex
    }

    pub fn agent_addr(&self) -> (res: [u8; 4])
        ensures
            res == self@.agent_addr,
    {
        self.agent_addr
    }

    /// The protocol version of the message.
    pub fn version(&self) -> (res: Result<Version, Error>)
        ensures
            match Version::of_code(self@.version as u32) {
                VersionCode::Spoken(version) => res matches Ok(v) && v == version,
                VersionCode::Unsupported(name) => res matches Err(Error::UnsupportedVersion(n))
                    && n == name,
                VersionCode::Unknown => res matches Err(Error::InvalidVersion(v)) && v
                    == self@.version as u32,
            },
    {
        Version::try_from(
            #[verifier::truncate]
            (self.version as u32),
        )
    }

    pub fn flags(&self) -> (res: u64)
        ensures
            res == self@.flags,
    {
        self.flags
    }

    /// The community string as text; an error where it is not valid UTF-8.
    pub fn community(&self) -> (res: Result<String, Error>)
        ensures
            vstd::utf8::valid_utf8(self@.community) ==> (res matches Ok(text) && text@
                == vstd::utf8::decode_utf8(self@.community)),
            !vstd::utf8::valid_utf8(self@.community) ==> (res matches Err(Error::General(text))
                && text@ == "Community string is not valid utf8!"@),
    {
        let bytes = self.community.clone();
        assert(bytes@ =~= self.community@);
        match utf8_text(bytes) {
            Some(text) => Ok(text),
            None => Err(Error::General(String::from_str("Community string is not valid utf8!"))),
        }
    }

    pub fn enterprise(&self) -> (res: Oid)
        ensures
            res@ == self@.enterprise,
    {
        self.enterprise.clone()
    }

    pub fn trap_type(&self) -> (res: u64)
        ensures
            res == self@.trap_type as u64,
    {
        #[verifier::truncate]
        (self.trap_type as u64)
    }

    pub fn specific_type(&self) -> (res: u64)
        ensures
            res == self@.specific_type as u64,
    {
        #[verifier::truncate]
        (self.specific_type as u64)
    }

    /// Starts a walk over the variables of the message.
    pub fn variables(&self) -> (res: VarListIter<'_>)
        ensures
            res.chain() == self@.variables,
            res.position() == 0,
    {
        self.variables.into_iter()
    }

    /// A copy of the first variable of the message, if it has one: what a
    /// request for one object is answered with.
    pub fn first_variable(&self) -> (res: Option<Variable>)
        ensures
            self@.variables.len() > 0 ==> (res matches Some(var) && var@ == self@.variables[0]),
            self@.variables.len() == 0 ==> res is None,
    {
        let mut walk = self.variables();
        match walk.next() {
            Some(var) => Some(var.to_owned()),
            None => None,
        }
    }

    /// What the transport noted of where the message came from.
    pub fn transport_data(&self) -> (res: &[u8])
        ensures
            res@ == self@.transport_data,
    {
        self.transport_data.as_slice()
    }
}

} // verus!
