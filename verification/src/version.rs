use crate::error::Error;
use vstd::prelude::*;

verus! {

/// The protocol versions this library speaks.
#[derive(Debug, Clone, Copy, PartialEq, Eq, Structural)]
pub enum Version {
    V1,
    V2c,
    V3,
}

/// What a version code stands for.
pub enum VersionCode {
    Spoken(Version),
    /// A version that exists but is not spoken here, by its usual name.
    Unsupported(&'static str),
    Unknown,
}

impl Version {
    /// The code that stands for this version in messages and sessions.
    pub open spec fn spec_code(self) -> u32 {
        match self {
            Version::V1 => 0,
            Version::V2c => 1,
            Version::V3 => 3,
        }
    }

    /// What a version code stands for.
    pub open spec fn of_code(val: u32) -> VersionCode {
        if val == 0 {
            VersionCode::Spoken(Version::V1)
        } else if val == 1 {
            VersionCode::Spoken(Version::V2c)
        } else if val == 3 {
            VersionCode::Spoken(Version::V3)
        } else if val == 2 {
            VersionCode::Unsupported("v2u")
        } else if val == 129 {
            VersionCode::Unsupported("v2p")
        } else if val == 128 {
            VersionCode::Unsupported("v2sec")
        } else if val == 130 {
            VersionCode::Unsupported("v2*")
        } else {
            VersionCode::Unknown
        }
    }

    #[verifier::when_used_as_spec(spec_code)]
    pub fn code(self) -> (res: u32)
        ensures
            res == self.spec_code(),
            Version::of_code(res) == VersionCode::Spoken(self),
    {
        match self {
            Version::V1 => 0,
            Version::V2c => 1,
            Version::V3 => 3,
        }
    }

    /// Reads a version code. The party and security variants of version two
    /// are named in the error; any other code comes back inside it.
    pub fn try_from(val: u32) -> (res: Result<Version, Error>)
        ensures
            match Version::of_code(val) {
                VersionCode::Spoken(version) => res matches Ok(v) && v == version,
                VersionCode::Unsupported(name) => res matches Err(Error::UnsupportedVersion(n))
                    && n == name,
                VersionCode::Unknown => res matches Err(Error::InvalidVersion(v)) && v == val,
            },
    {
        match val {
            0 => Ok(Version::V1),
            1 => Ok(Version::V2c),
            3 => Ok(Version::V3),
            2 => Err(Error::UnsupportedVersion("v2u")),
            129 => Err(Error::UnsupportedVersion("v2p")),
            128 => Err(Error::UnsupportedVersion("v2sec")),
            130 => Err(Error::UnsupportedVersion("v2*")),
            _ => Err(Error::InvalidVersion(val)),
        }
    }
}

impl core::convert::TryFrom<u32> for Version {
    type Error = Error;

    fn try_from(val: u32) -> (res: Result<Version, Error>) {
        Version::try_from(val)
    }
}

impl vstd::std_specs::convert::TryFromSpecImpl<u32> for Version {
    open spec fn obeys_try_from_spec() -> bool {
        true
    }

    open spec fn try_from_spec(val: u32) -> Result<Version, Error> {
        match Version::of_code(val) {
            VersionCode::Spoken(version) => Ok(version),
            VersionCode::Unsupported(name) => Err(Error::UnsupportedVersion(name)),
            VersionCode::Unknown => Err(Error::InvalidVersion(val)),
        }
    }
}

} // verus!
