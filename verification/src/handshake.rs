//! The decisions of the WebSocket handshake of a charge point: which OCPP
//! version to speak and which charge point id the connection belongs to.
use vstd::prelude::*;

use crate::negotiator::{first_match, ProtocolNegotiator};
use crate::numbers::{decimal, u64_text};
use crate::ocpp_version::OcppVersion;
use crate::text::{comma_fields, contains_text, drop_leading, has_prefix, text_contains,
    text_drop_leading, text_has_prefix};

verus! {

/// The charge point id in a request path: `/ocpp/{id}` (slashes after
/// `ocpp/` skipped) or a single segment `/{id}`; leading slashes are ignored.
pub open spec fn charge_point_id_of(path: Seq<char>) -> Option<Seq<char>> {
    let p = drop_leading(path, '/');
    let prefixed = has_prefix(p, "ocpp/"@);
    let id = drop_leading(p.skip(5), '/');
    if prefixed && id.len() > 0 {
        Some(id)
    } else if p.len() > 0 && !contains_text(p, seq!['/']) {
        Some(p)
    } else {
        None
    }
}

/// Extract the charge point id from a WebSocket request path.
/// Expected format: `/ocpp/{charge_point_id}` or `/{charge_point_id}`.
pub fn extract_charge_point_id(path: &str) -> (r: Option<String>)
    ensures
        match r {
            Some(id) => charge_point_id_of(path@) == Some(id@),
            None => charge_point_id_of(path@) is None,
        },
{
    let p = text_drop_leading(path, '/');
    proof {
        reveal_strlit("ocpp/");
        reveal_strlit("/");
        assert("/"@ =~= seq!['/']);
    }
    if text_has_prefix(p, "ocpp/") {
        let n = p.unicode_len();
        let rest = p.substring_char(5, n);
        assert(rest@ =~= p@.skip(5));
        let id = text_drop_leading(rest, '/');
        assert(id@ == drop_leading(p@.skip(5), '/'));
        if id.unicode_len() > 0 {
            return Some(id.to_owned());
        }
    }
    if p.unicode_len() > 0 && !text_contains(p, "/") {
        return Some(p.to_owned());
    }
    None
}

/// The outcome of the handshake.
pub struct HandshakeOutcome {
    /// The version the connection speaks.
    pub version: OcppVersion,
    /// The sub-protocol echoed back in `Sec-WebSocket-Protocol`, when one was negotiated.
    pub accepted_subprotocol: Option<OcppVersion>,
    /// The charge point id the connection belongs to.
    pub charge_point_id: String,
}

/// The version a connection speaks: the negotiated one; without a match
/// but with a header, the least preferred supported version; without a
/// header, OCPP 1.6. With no match and no supported version at all, 1.6 too.
pub open spec fn handshake_version(supported: Seq<OcppVersion>, header: Seq<char>) -> OcppVersion {
    match first_match(supported, comma_fields(header)) {
        Some(v) => v,
        None => if header.len() > 0 && supported.len() > 0 {
            supported.last()
        } else {
            OcppVersion::V16
        },
    }
}

/// The id a connection without one in its path is known by: `CP_{port}`.
pub open spec fn port_id(port: u16) -> Seq<char> {
    "CP_"@ + decimal(port as nat)
}

/// Decide the version and the charge point id of a new connection from the
/// requested sub-protocols, the request path and the peer's port.
pub fn decide_handshake(
    negotiator: &ProtocolNegotiator,
    requested_protocols: &str,
    path: &str,
    peer_port: u16,
) -> (r: HandshakeOutcome)
    ensures
        r.accepted_subprotocol == first_match(negotiator@, comma_fields(requested_protocols@)),
        r.version == handshake_version(negotiator@, requested_protocols@),
        r.charge_point_id@ == match charge_point_id_of(path@) {
            Some(id) => id,
            None => port_id(peer_port),
        },
{
    let negotiated = negotiator.negotiate(requested_protocols);
    let version = match negotiated {
        Some(v) => v,
        None => {
            let supported = negotiator.supported_versions();
            if requested_protocols.unicode_len() > 0 && supported.len() > 0 {
                supported[supported.len() - 1]
            } else {
                OcppVersion::V16
            }
        },
    };
    let charge_point_id = match extract_charge_point_id(path) {
        Some(id) => id,
        None => {
            let mut s = String::from_str("CP_");
            let digits = u64_text(peer_port as u64);
            s.append(digits.as_str());
            s
        },
    };
    HandshakeOutcome { version, accepted_subprotocol: negotiated, charge_point_id }
}

/// What looking up a connecting charge point among the registered ones gave.
pub enum ChargePointLookup {
    /// It is registered.
    Known,
    /// It is not registered.
    Unknown,
    /// The lookup failed.
    Failed,
}

/// Whether a connection goes on after the lookup, or is closed with a
/// WebSocket close code and reason.
pub enum ConnectionAdmission {
    Admit,
    Close { code: u16, reason: String },
}

/// The whitelist decision: a registered charge point is admitted; an
/// unknown one is closed with code 1008 (policy violation), and a failed
/// lookup with code 1011 (internal error).
pub fn whitelist_decision(lookup: ChargePointLookup) -> (r: ConnectionAdmission)
    ensures
        match lookup {
            ChargePointLookup::Known => r is Admit,
            ChargePointLookup::Unknown => r matches ConnectionAdmission::Close { code, reason }
                && code == 1008 && reason@ == "Unknown charge point ID"@,
            ChargePointLookup::Failed => r matches ConnectionAdmission::Close { code, reason }
                && code == 1011 && reason@ == "Internal server error during authentication"@,
        },
{
    match lookup {
        ChargePointLookup::Known => ConnectionAdmission::Admit,
        ChargePointLookup::Unknown => ConnectionAdmission::Close {
            code: 1008,
            reason: "Unknown charge point ID".to_owned(),
        },
        ChargePointLookup::Failed => ConnectionAdmission::Close {
            code: 1011,
            reason: "Internal server error during authentication".to_owned(),
        },
    }
}

} // verus!
