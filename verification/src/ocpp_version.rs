//! OCPP protocol versions.
use vstd::prelude::*;

verus! {

/// An OCPP protocol version the central system can speak.
#[derive(Clone, Copy, Debug, PartialEq, Eq, Structural, Hash)]
pub enum OcppVersion {
    V16,
    V201,
    V21,
}

/// The WebSocket sub-protocol name of a version (`Sec-WebSocket-Protocol`).
pub open spec fn subprotocol_of(v: OcppVersion) -> Seq<char> {
    match v {
        OcppVersion::V16 => seq!['o', 'c', 'p', 'p', '1', '.', '6'],
        OcppVersion::V201 => seq!['o', 'c', 'p', 'p', '2', '.', '0', '.', '1'],
        OcppVersion::V21 => seq!['o', 'c', 'p', 'p', '2', '.', '1'],
    }
}

/// The bare version number of a version ("1.6", "2.0.1", "2.1").
pub open spec fn version_text_of(v: OcppVersion) -> Seq<char> {
    match v {
        OcppVersion::V16 => seq!['1', '.', '6'],
        OcppVersion::V201 => seq!['2', '.', '0', '.', '1'],
        OcppVersion::V21 => seq!['2', '.', '1'],
    }
}

/// The preference rank of a version: newer versions rank higher.
pub open spec fn rank_of(v: OcppVersion) -> int {
    match v {
        OcppVersion::V16 => 1,
        OcppVersion::V201 => 2,
        OcppVersion::V21 => 3,
    }
}

impl OcppVersion {
    /// The WebSocket sub-protocol name, e.g. `ocpp1.6`.
    pub fn subprotocol(&self) -> (r: &'static str)
        ensures
            r@ == subprotocol_of(*self),
    {
        match self {
            OcppVersion::V16 => {
                proof {
                    reveal_strlit("ocpp1.6");
                }
                "ocpp1.6"
            },
            OcppVersion::V201 => {
                proof {
                    reveal_strlit("ocpp2.0.1");
                }
                "ocpp2.0.1"
            },
            OcppVersion::V21 => {
                proof {
                    reveal_strlit("ocpp2.1");
                }
                "ocpp2.1"
            },
        }
    }

    /// The version number, e.g. `1.6`.
    pub fn version_string(&self) -> (r: &'static str)
        ensures
            r@ == version_text_of(*self),
    {
        match self {
            OcppVersion::V16 => {
                proof {
                    reveal_strlit("1.6");
                }
                "1.6"
            },
            OcppVersion::V201 => {
                proof {
                    reveal_strlit("2.0.1");
                }
                "2.0.1"
            },
            OcppVersion::V21 => {
                proof {
                    reveal_strlit("2.1");
                }
                "2.1"
            },
        }
    }

    /// The preference rank: `V21` > `V201` > `V16`.
    pub fn rank(&self) -> (r: u8)
        ensures
            r == rank_of(*self),
    {
        match self {
            OcppVersion::V16 => 1,
            OcppVersion::V201 => 2,
            OcppVersion::V21 => 3,
        }
    }
}

} // verus!
