use crate::auth::V3AuthParams;
use crate::auth::V3AuthProtocol;
use crate::auth::V3Level;
use crate::auth::V3PrivParams;
use crate::auth::V3PrivProtocol;
use crate::error::Error;
use crate::session_builder::find_nul;
use crate::session_builder::first_nul;
use vstd::prelude::*;
use vstd::slice::slice_to_vec;
use vstd::string::*;

verus! {

/// The users of the user-based security model that were registered here.
#[derive(Debug)]
pub struct Usm {
    users: Vec<UsmUser>,
}

/// One user of the user-based security model. Pass phrases are kept as
/// given; keys are derived from them and from the engine identifier when
/// the user is registered.
#[derive(Debug)]
pub struct UsmUser {
    pub name: Option<Vec<u8>>,
    pub sec_name: Option<Vec<u8>>,
    pub engine_id: Vec<u8>,
    pub auth_protocol: Option<V3AuthProtocol>,
    pub auth_passphrase: Vec<u8>,
    pub priv_protocol: Option<V3PrivProtocol>,
    pub priv_passphrase: Vec<u8>,
}

/// Text that can be handed on as it is: it has no zero byte.
pub open spec fn nul_free(text: Seq<char>) -> bool {
    first_nul(vstd::utf8::encode_utf8(text)) is None
}

/// What the security model needs of `level`: names and pass phrases without
/// zero bytes, and pass phrases of at least one byte.
pub open spec fn usable(level: V3Level) -> bool {
    match level {
        V3Level::NoAuthNoPriv => true,
        V3Level::AuthNoPriv { auth } => nul_free(auth.user@) && nul_free(auth.password@)
            && auth.password@.len() > 0,
        V3Level::AuthPriv { auth, privacy } => nul_free(auth.user@) && nul_free(auth.password@)
            && auth.password@.len() > 0 && nul_free(privacy.password@) && privacy.password@.len()
            > 0,
    }
}

/// `after` is `before` with authentication set: the user as security
/// name, the protocol and the pass phrase.
pub open spec fn user_with_auth(before: UsmUser, params: V3AuthParams, after: UsmUser) -> bool {
    &&& after.sec_name matches Some(name)
    &&& name@ == vstd::utf8::encode_utf8(params.user@)
    &&& after.auth_passphrase@ == vstd::utf8::encode_utf8(params.password@)
    &&& after == (UsmUser {
        sec_name: after.sec_name,
        auth_protocol: Some(params.protocol),
        auth_passphrase: after.auth_passphrase,
        ..before
    })
}

/// `after` is `before` with privacy set: the protocol and the pass phrase.
pub open spec fn user_with_priv(before: UsmUser, params: V3PrivParams, after: UsmUser) -> bool {
    &&& after.priv_passphrase@ == vstd::utf8::encode_utf8(params.password@)
    &&& after == (UsmUser {
        priv_protocol: Some(params.protocol),
        priv_passphrase: after.priv_passphrase,
        ..before
    })
}

impl Usm {
    /// The users registered, first to last.
    pub closed spec fn users(&self) -> Seq<UsmUser> {
        self.users@
    }

    /// An empty register of users.
    pub fn init() -> (res: Usm)
        ensures
            res.users() == Seq::<UsmUser>::empty(),
    {
        Usm { users: Vec::new() }
    }

    /// The number of users registered.
    pub fn count(&self) -> (res: usize)
        ensures
            res == self.users().len(),
    {
        self.users.len()
    }

    /// A user with nothing set.
    pub fn create_user(&self) -> (res: UsmUser)
        ensures
            res.name is None,
            res.sec_name is None,
            res.engine_id@.len() == 0,
            res.auth_protocol is None,
            res.auth_passphrase@.len() == 0,
            res.priv_protocol is None,
            res.priv_passphrase@.len() == 0,
    {
        UsmUser {
            name: None,
            sec_name: None,
            engine_id: Vec::new(),
            auth_protocol: None,
            auth_passphrase: Vec::new(),
            priv_protocol: None,
            priv_passphrase: Vec::new(),
        }
    }

    /// Notes a user, given whether the protocol engine has taken it.
    pub fn add_user(&mut self, user: UsmUser, registered: bool) -> (res: Result<(), Error>)
        ensures
            registered ==> res is Ok && final(self).users() == old(self).users().push(user),
            !registered ==> (res matches Err(Error::Usm(text)) && text@
                == "Failed to register user."@) && final(self).users() == old(self).users(),
    {
        if registered {
            self.users.push(user);
            Ok(())
        } else {
            Err(Error::Usm(String::from_str("Failed to register user.")))
        }
    }
}

impl UsmUser {
    pub fn set_name(self, name: &str) -> (res: Result<UsmUser, Error>)
        ensures
            nul_free(name@) ==> (res matches Ok(user) && user.name matches Some(bytes) && bytes@
                == vstd::utf8::encode_utf8(name@) && user == (UsmUser {
                name: user.name,
                ..self
            })),
            !nul_free(name@) ==> (res matches Err(Error::Usm(text)) && text@ == "Invalid name"@),
    {
        let bytes = name.as_bytes();
        match find_nul(bytes) {
            Some(_) => Err(Error::Usm(String::from_str("Invalid name"))),
            None => {
                let mut user = self;
                user.name = Some(slice_to_vec(bytes));
                Ok(user)
            },
        }
    }

    pub fn set_sec_name(self, name: &str) -> (res: Result<UsmUser, Error>)
        ensures
            nul_free(name@) ==> (res matches Ok(user) && user.sec_name matches Some(bytes)
                && bytes@ == vstd::utf8::encode_utf8(name@) && user == (UsmUser {
                sec_name: user.sec_name,
                ..self
            })),
            !nul_free(name@) ==> (res matches Err(Error::Usm(text)) && text@
                == "Invalid security name"@),
    {
        let bytes = name.as_bytes();
        match find_nul(bytes) {
            Some(_) => Err(Error::Usm(String::from_str("Invalid security name"))),
            None => {
                let mut user = self;
                user.sec_name = Some(slice_to_vec(bytes));
                Ok(user)
            },
        }
    }

    pub fn set_engine_id(self, id: &[u8]) -> (res: UsmUser)
        ensures
            res.engine_id@ == id@,
            res == (UsmUser { engine_id: res.engine_id, ..self }),
    {
        let mut user = self;
        user.engine_id = slice_to_vec(id);
        user
    }

    /// Sets what `level` asks for: nothing, authentication, or
    /// authentication and privacy.
    pub fn set_auth(self, level: &V3Level) -> (res: Result<UsmUser, Error>)
        requires
            usable(*level),
        ensures
            match *level {
                V3Level::NoAuthNoPriv => res matches Ok(user) && user == self,
                V3Level::AuthNoPriv { auth } => res matches Ok(user) && user_with_auth(
                    self,
                    auth,
                    user,
                ),
                V3Level::AuthPriv { auth, privacy } => res matches Ok(user) && exists|
                    middle: UsmUser,
                | #[trigger] user_with_auth(self, auth, middle) && user_with_priv(middle, privacy, user),
            },
    {
        match level {
            V3Level::NoAuthNoPriv => Ok(self),
            V3Level::AuthNoPriv { auth } => Ok(self.set_v3_auth(auth)),
            V3Level::AuthPriv { auth, privacy } => {
                let middle = self.set_v3_auth(auth);
                let ghost seen = middle;
                let user = middle.set_v3_priv(privacy);
                assert(user_with_auth(self, *auth, seen));
                Ok(user)
            },
        }
    }

    fn set_v3_auth(self, params: &V3AuthParams) -> (res: UsmUser)
        ensures
            user_with_auth(self, *params, res),
    {
        let mut user = self;
        user.sec_name = Some(slice_to_vec(params.user.as_str().as_bytes()));
        user.auth_protocol = Some(params.protocol);
        user.auth_passphrase = slice_to_vec(params.password.as_str().as_bytes());
        user
    }

    fn set_v3_priv(self, params: &V3PrivParams) -> (res: UsmUser)
        ensures
            user_with_priv(self, *params, res),
    {
        let mut user = self;
        user.priv_protocol = Some(params.protocol);
        user.priv_passphrase = slice_to_vec(params.password.as_str().as_bytes());
        user
    }
}

} // verus!
