use crate::oid::Oid;
use vstd::prelude::*;

verus! {

/// The credentials a session presents.
#[derive(Debug, Clone)]
pub enum Auth {
    /// Community-based security, versions one and two.
    V2c(V2cAuth),
    /// User-based security, version three.
    V3(V3Auth),
}

#[derive(Debug, Clone)]
pub struct V2cAuth {
    pub community: String,
}

#[derive(Debug, Clone)]
pub struct V3Auth {
    pub level: V3Level,
    pub context: Option<String>,
    pub context_engine: Option<String>,
    pub security_engine: Option<String>,
    pub destination_engine: Option<(String, String)>,
}

/// How much of a message is protected.
#[derive(Debug, Clone)]
pub enum V3Level {
    NoAuthNoPriv,
    AuthNoPriv { auth: V3AuthParams },
    AuthPriv { auth: V3AuthParams, privacy: V3PrivParams },
}

#[derive(Debug, Clone)]
pub struct V3AuthParams {
    pub protocol: V3AuthProtocol,
    pub user: String,
    pub password: String,
}

#[derive(Debug, Clone)]
pub struct V3PrivParams {
    pub protocol: V3PrivProtocol,
    pub password: String,
}

#[derive(Debug, Clone, Copy, PartialEq, Eq, Structural)]
pub enum V3AuthProtocol {
    SHA,
    MD5,
}

#[derive(Debug, Clone, Copy, PartialEq, Eq, Structural)]
pub enum V3PrivProtocol {
    DES,
    AES,
}

impl V3AuthProtocol {
    /// The object identifier that names the protocol.
    pub open spec fn spec_oid(self) -> Seq<u64> {
        match self {
            V3AuthProtocol::MD5 => seq![1u64, 3, 6, 1, 6, 3, 10, 1, 1, 2],
            V3AuthProtocol::SHA => seq![1u64, 3, 6, 1, 6, 3, 10, 1, 1, 3],
        }
    }

    /// The object identifier that names the protocol.
    pub fn oid(self) -> (res: Oid)
        ensures
            res@ == self.spec_oid(),
    {
        let last: u64 = match self {
            V3AuthProtocol::MD5 => 2,
            V3AuthProtocol::SHA => 3,
        };
        let subids: [u64; 10] = [1, 3, 6, 1, 6, 3, 10, 1, 1, last];
        let res = Oid::from_slice(subids.as_slice());
        assert(res@ =~= self.spec_oid());
        res
    }
}

impl V3PrivProtocol {
    /// The object identifier that names the protocol.
    pub open spec fn spec_oid(self) -> Seq<u64> {
        match self {
            V3PrivProtocol::DES => seq![1u64, 3, 6, 1, 6, 3, 10, 1, 2, 2],
            V3PrivProtocol::AES => seq![1u64, 3, 6, 1, 6, 3, 10, 1, 2, 4],
        }
    }

    /// The object identifier that names the protocol.
    pub fn oid(self) -> (res: Oid)
        ensures
            res@ == self.spec_oid(),
    {
        let last: u64 = match self {
            V3PrivProtocol::DES => 2,
            V3PrivProtocol::AES => 4,
        };
        let subids: [u64; 10] = [1, 3, 6, 1, 6, 3, 10, 1, 2, last];
        let res = Oid::from_slice(subids.as_slice());
        assert(res@ =~= self.spec_oid());
        res
    }
}

} // verus!
