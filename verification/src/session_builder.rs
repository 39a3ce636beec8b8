use crate::auth::Auth;
use crate::auth::V3AuthParams;
use crate::auth::V3AuthProtocol;
use crate::auth::V3Level;
use crate::auth::V3PrivParams;
use crate::auth::V3PrivProtocol;
use crate::bridge::BridgeView;
use crate::error::Error;
use crate::multi_session::MultiSession;
use crate::multi_session::MultiSessionPtr;
use crate::pdu::UNSET;
use crate::session::lemma_with_probe_flag;
use crate::session::probe_flag;
use crate::session::with_probe_flag;
use crate::session::SessionPtr;
use crate::session::FLAG_DONT_PROBE;
use crate::single_session::MachineView;
use crate::single_session::Phase;
use crate::single_session::SingleSession;
use crate::single_session::SingleSessionPtr;
use crate::transport::TransportPtr;
use crate::version::Version;
use vstd::prelude::*;
use vstd::slice::slice_to_vec;

verus! {

/// Security level: messages are authenticated but not encrypted.
pub const SEC_LEVEL_AUTHNOPRIV: i32 = 2;

/// Security level: messages are authenticated and encrypted.
pub const SEC_LEVEL_AUTHPRIV: i32 = 3;

/// The settings of a session that is not open yet. Pass phrases are kept
/// as given; keys are derived from them when the session is opened.
#[derive(Debug)]
pub struct SessionBuilder {
    pub peername: Option<Vec<u8>>,
    pub remote_port: u16,
    pub version: i64,
    pub retries: i32,
    /// Microseconds until the first retransmission.
    pub timeout: i64,
    pub flags: u64,
    pub community: Option<Vec<u8>>,
    pub security_name: Option<Vec<u8>>,
    pub security_level: i32,
    pub auth_protocol: Option<V3AuthProtocol>,
    pub auth_passphrase: Vec<u8>,
    pub priv_protocol: Option<V3PrivProtocol>,
    pub priv_passphrase: Vec<u8>,
}

/// The index of the first zero byte of `bytes`, if there is one.
pub open spec fn first_nul(bytes: Seq<u8>) -> Option<int> {
    if exists|i: int| 0 <= i < bytes.len() && bytes[i] == 0 {
        Some(choose|i: int| is_first_nul(bytes, i))
    } else {
        None
    }
}

/// Byte `i` of `bytes` is zero and no byte before it is.
pub open spec fn is_first_nul(bytes: Seq<u8>, i: int) -> bool {
    &&& 0 <= i < bytes.len()
    &&& bytes[i] == 0
    &&& forall|j: int| 0 <= j < i ==> bytes[j] != 0
}

/// Looks for the first zero byte.
pub fn find_nul(bytes: &[u8]) -> (res: Option<usize>)
    ensures
        match res {
            Some(at) => is_first_nul(bytes@, at as int),
            None => forall|i: int| 0 <= i < bytes.len() ==> bytes@[i] != 0,
        },
        res is Some <==> first_nul(bytes@) is Some,
        res matches Some(at) ==> first_nul(bytes@) == Some(at as int),
{
    let mut i: usize = 0;
    while i < bytes.len()
        invariant
            i <= bytes.len(),
            forall|j: int| 0 <= j < i ==> bytes@[j] != 0,
        decreases bytes.len() - i,
    {
        if bytes[i] == 0 {
            proof {
                let found = choose|k: int| is_first_nul(bytes@, k);
                assert(is_first_nul(bytes@, i as int));
                assert(found == i) by {
                    if found < i {
                        assert(bytes@[found] != 0);
                    }
                }
            }
            return Some(i);
        }
        i += 1;
    }
    None
}

/// The bytes of `text` in UTF-8.
fn bytes_of(text: &String) -> (res: Vec<u8>)
    ensures
        res@ == vstd::utf8::encode_utf8(text@),
{
    slice_to_vec(text.as_str().as_bytes())
}

impl SessionBuilder {
    /// Settings with nothing set: version, retries and timeout are left to
    /// the protocol engine.
    pub fn new() -> (res: SessionBuilder)
        ensures
            res.peername is None,
            res.remote_port == 0,
            res.version == UNSET,
            res.retries == UNSET,
            res.timeout == UNSET,
            res.flags == 0,
            res.community is None,
            res.security_name is None,
            res.security_level == 0,
            res.auth_protocol is None,
            res.auth_passphrase@.len() == 0,
            res.priv_protocol is None,
            res.priv_passphrase@.len() == 0,
    {
        SessionBuilder {
            peername: None,
            remote_port: 0,
            version: UNSET,
            retries: -1,
            timeout: UNSET,
            flags: 0,
            community: None,
            security_name: None,
            security_level: 0,
            auth_protocol: None,
            auth_passphrase: Vec::new(),
            priv_protocol: None,
            priv_passphrase: Vec::new(),
        }
    }

    /// Names the peer. The name ends at its first zero byte wherever it
    /// gets to, so one with a zero byte inside is refused.
    pub fn set_peer(self, peer: &[u8]) -> (res: Result<SessionBuilder, Error>)
        ensures
            match first_nul(peer@) {
                Some(at) => res matches Err(Error::NulError(pos)) && pos == at,
                None => res matches Ok(builder) && builder.peername matches Some(name) && name@
                    == peer@ && builder == (SessionBuilder {
                    peername: builder.peername,
                    ..self
                }),
            },
    {
        match find_nul(peer) {
            Some(at) => Err(Error::NulError(at)),
            None => {
                let mut builder = self;
                builder.peername = Some(slice_to_vec(peer));
                Ok(builder)
            },
        }
    }

    pub fn set_port(self, port: u16) -> (res: SessionBuilder)
        ensures
            res == (SessionBuilder { remote_port: port, ..self }),
    {
        let mut builder = self;
        builder.remote_port = port;
        builder
    }

    pub fn set_version(self, version: Version) -> (res: SessionBuilder)
        ensures
            res == (SessionBuilder { version: version.spec_code() as i64, ..self }),
    {
        let mut builder = self;
        builder.version = version.code() as i64;
        builder
    }

    /// How often a request is sent again before it is given up. The count
    /// is kept in 32 bits.
    pub fn set_retries(self, retries: u64) -> (res: SessionBuilder)
        ensures
            res == (SessionBuilder { retries: retries as i32, ..self }),
    {
        let mut builder = self;
        builder.retries = #[verifier::truncate]
        (retries as i32);
        builder
    }

    /// The time until the first retransmission, in microseconds.
    pub fn set_timeout_micros(self, micros: i64) -> (res: SessionBuilder)
        ensures
            res == (SessionBuilder { timeout: micros, ..self }),
    {
        let mut builder = self;
        builder.timeout = micros;
        builder
    }

    /// Leaves discovery of the peer's security engine to the caller, or to
    /// the protocol engine. No other flag changes.
    pub fn set_async_probe(self, val: bool) -> (res: SessionBuilder)
        ensures
            res == (SessionBuilder { flags: with_probe_flag(self.flags, val), ..self }),
            probe_flag(res.flags) == val,
    {
        proof {
            lemma_with_probe_flag(self.flags, val);
        }
        let mut builder = self;
        if val {
            builder.flags = builder.flags | FLAG_DONT_PROBE;
        } else {
            builder.flags = builder.flags & !FLAG_DONT_PROBE;
        }
        builder
    }

    /// Sets the credentials, and with them the protocol version: a
    /// community for version two, or for version three the user and what
    /// the level asks for beyond.
    pub fn set_auth(self, auth: &Auth) -> (res: Result<SessionBuilder, Error>)
        requires
            auth matches Auth::V3(params) ==> passphrases_given(params.level),
        ensures
            match *auth {
                Auth::V2c(params) => res matches Ok(builder) && builder.community matches Some(
                    community,
                ) && community@ == vstd::utf8::encode_utf8(params.community@) && builder == (
                SessionBuilder { version: 1, community: builder.community, ..self }),
                Auth::V3(params) => match params.level {
                    V3Level::NoAuthNoPriv => res matches Ok(builder) && builder == (
                    SessionBuilder { version: 3, ..self }),
                    V3Level::AuthNoPriv { auth } => with_auth(
                        SessionBuilder { version: 3, ..self },
                        auth,
                        res,
                    ),
                    V3Level::AuthPriv { auth, privacy } => match first_nul(
                        vstd::utf8::encode_utf8(auth.user@),
                    ) {
                        Some(at) => res matches Err(Error::NulError(pos)) && pos == at,
                        None => res matches Ok(builder) && exists|middle: SessionBuilder|
                            #[trigger] with_auth(
                                SessionBuilder { version: 3, ..self },
                                auth,
                                Ok(middle),
                            ) && with_priv(middle, privacy, builder),
                    },
                },
            },
    {
        let mut builder = self;
        match auth {
            Auth::V2c(params) => {
                builder.version = 1;
                builder.community = Some(bytes_of(&params.community));
                Ok(builder)
            },
            Auth::V3(params) => {
                builder.version = 3;
                match &params.level {
                    V3Level::NoAuthNoPriv => Ok(builder),
                    V3Level::AuthNoPriv { auth } => builder.set_v3_auth(auth),
                    V3Level::AuthPriv { auth, privacy } => {
                        match builder.set_v3_auth(auth) {
                            Ok(middle) => {
                                let done = middle.set_v3_priv(privacy);
                                assert(with_auth(
                                    SessionBuilder { version: 3, ..self },
                                    *auth,
                                    Ok(middle),
                                ));
                                Ok(done)
                            },
                            Err(err) => Err(err),
                        }
                    },
                }
            },
        }
    }

    /// The handle on the session that the protocol engine has opened from
    /// these settings, on its single-session interface. The engine does
    /// not carry over who is to do discovery, so this is taken from the
    /// settings.
    pub fn open_single(self, session: SessionPtr, transport: TransportPtr) -> (res: SingleSession)
        ensures
            res@.link() == transport,
            res@.info() == (SessionPtr {
                flags: with_probe_flag(session.flags, probe_flag(self.flags)),
                ..session
            }),
            res@.machine() == (MachineView {
                flags: with_probe_flag(session.flags, probe_flag(self.flags)),
                phase: Phase::Idle,
                probing: false,
                readable_due: false,
                outgoing: None,
                bridge: BridgeView::idle(),
            }),
    {
        let mut opened = SingleSessionPtr::new(session, transport);
        opened.set_async_probe(self.flags & FLAG_DONT_PROBE != 0);
        proof {
            opened.lemma_flags_are_the_sessions();
        }
        SingleSession::from_raw(opened)
    }

    /// The handle on the session that the protocol engine has opened from
    /// these settings, on its multi-session interface.
    pub fn open_multi(self, session: SessionPtr) -> (res: MultiSession)
        ensures
            res@ == session,
    {
        MultiSession::from_raw(MultiSessionPtr::new(session))
    }

    fn set_v3_auth(self, params: &V3AuthParams) -> (res: Result<SessionBuilder, Error>)
        ensures
            with_auth(self, *params, res),
    {
        let user = bytes_of(&params.user);
        match find_nul(user.as_slice()) {
            Some(at) => Err(Error::NulError(at)),
            None => {
                let mut builder = self;
                builder.security_name = Some(user);
                builder.security_level = SEC_LEVEL_AUTHNOPRIV;
                builder.auth_protocol = Some(params.protocol);
                builder.auth_passphrase = bytes_of(&params.password);
                Ok(builder)
            },
        }
    }

    fn set_v3_priv(self, params: &V3PrivParams) -> (res: SessionBuilder)
        ensures
            with_priv(self, *params, res),
    {
        let mut builder = self;
        builder.security_level = SEC_LEVEL_AUTHPRIV;
        builder.priv_protocol = Some(params.protocol);
        builder.priv_passphrase = bytes_of(&params.password);
        builder
    }
}

/// Whether every pass phrase that `level` asks for has at least one byte.
pub open spec fn passphrases_given(level: V3Level) -> bool {
    match level {
        V3Level::NoAuthNoPriv => true,
        V3Level::AuthNoPriv { auth } => auth.password@.len() > 0,
        V3Level::AuthPriv { auth, privacy } => auth.password@.len() > 0 && privacy.password@.len()
            > 0,
    }
}

/// `res` is what setting authentication on `before` gives: the user as
/// security name, the level "authenticated", the protocol and the pass
/// phrase; or, for a user name with a zero byte inside, the error that
/// says where it is.
pub open spec fn with_auth(
    before: SessionBuilder,
    params: V3AuthParams,
    res: Result<SessionBuilder, Error>,
) -> bool {
    match first_nul(vstd::utf8::encode_utf8(params.user@)) {
        Some(at) => res matches Err(Error::NulError(pos)) && pos == at,
        None => {
            &&& res matches Ok(builder)
            &&& builder.security_name matches Some(name)
            &&& name@ == vstd::utf8::encode_utf8(params.user@)
            &&& builder.auth_passphrase@ == vstd::utf8::encode_utf8(params.password@)
            &&& builder == (SessionBuilder {
                security_name: builder.security_name,
                security_level: SEC_LEVEL_AUTHNOPRIV,
                auth_protocol: Some(params.protocol),
                auth_passphrase: builder.auth_passphrase,
                ..before
            })
        },
    }
}

/// `after` is what setting privacy on `before` gives: the level
/// "authenticated and encrypted", the protocol and the pass phrase.
pub open spec fn with_priv(before: SessionBuilder, params: V3PrivParams, after: SessionBuilder) -> bool {
    &&& after.priv_passphrase@ == vstd::utf8::encode_utf8(params.password@)
    &&& after == (SessionBuilder {
        security_level: SEC_LEVEL_AUTHPRIV,
        priv_protocol: Some(params.protocol),
        priv_passphrase: after.priv_passphrase,
        ..before
    })
}

} // verus!
