//! OCPP protocol version negotiation.
//!
//! During the WebSocket handshake the charge point advertises which OCPP
//! sub-protocols it supports via the `Sec-WebSocket-Protocol` header.
//! The negotiator picks the best mutually-supported version.
use vstd::prelude::*;

use crate::ocpp_version::{rank_of, subprotocol_of, OcppVersion};
use crate::text::{comma_fields, split_comma_trim, text_eq};

verus! {

/// The first version of `versions` whose sub-protocol name is among `requested`.
pub open spec fn first_match(versions: Seq<OcppVersion>, requested: Seq<Seq<char>>) -> Option<
    OcppVersion,
>
    decreases versions.len(),
{
    if versions.len() == 0 {
        None
    } else if requested.contains(subprotocol_of(versions[0])) {
        Some(versions[0])
    } else {
        first_match(versions.drop_first(), requested)
    }
}

/// Negotiates the OCPP version during WebSocket handshake.
///
/// Picks the first version, in the central system's order of preference,
/// that the charge point also requested.
pub struct ProtocolNegotiator {
    /// Versions the CS supports, in preference order (highest first).
    supported_versions: Vec<OcppVersion>,
}

impl View for ProtocolNegotiator {
    type V = Seq<OcppVersion>;

    open spec fn view(&self) -> Seq<OcppVersion> {
        self.spec_versions()
    }
}

impl ProtocolNegotiator {
    /// The supported versions, in preference order.
    pub closed spec fn spec_versions(&self) -> Seq<OcppVersion> {
        self.supported_versions@
    }

    /// Create a negotiator from a list of supported versions.
    pub fn new(supported_versions: Vec<OcppVersion>) -> (r: Self)
        ensures
            r@ == supported_versions@,
    {
        ProtocolNegotiator { supported_versions }
    }

    /// Negotiate the OCPP version from the `Sec-WebSocket-Protocol` header value.
    ///
    /// Returns the most preferred supported version whose sub-protocol name is
    /// one of the header's comma-separated (trimmed) entries, or `None`.
    pub fn negotiate(&self, requested_protocols: &str) -> (r: Option<OcppVersion>)
        ensures
            r == first_match(self@, comma_fields(requested_protocols@)),
    {
        let requested = split_comma_trim(requested_protocols);
        let ghost req = comma_fields(requested_protocols@);
        let n = self.supported_versions.len();
        let mut i: usize = 0;
        assert(self@.skip(0) =~= self@);
        while i < n
            invariant
                n == self@.len(),
                i <= n,
                self@ == self.supported_versions@,
                requested@.map_values(|x: String| x@) == req,
                req == comma_fields(requested_protocols@),
                first_match(self@, req) == first_match(self@.skip(i as int), req),
            decreases n - i,
        {
            let version = self.supported_versions[i];
            let proto = version.subprotocol();
            let mut j: usize = 0;
            let mut found = false;
            while j < requested.len()
                invariant
                    requested@.map_values(|x: String| x@) == req,
                    proto@ == subprotocol_of(version),
                    j <= requested.len(),
                    found == exists|k: int| 0 <= k < j && req[k] == proto@,
                decreases requested.len() - j,
            {
                let hit = text_eq(requested[j].as_str(), proto);
                assert(req[j as int] == requested@[j as int]@);
                found = found || hit;
                j = j + 1;
            }
            proof {
                assert(self@.skip(i as int)[0] == version);
                assert(self@.skip(i as int).drop_first() =~= self@.skip(i + 1));
                if found {
                    let k = choose|k: int| 0 <= k < j && req[k] == proto@;
                    assert(req.contains(subprotocol_of(version)));
                    assert(first_match(self@.skip(i as int), req) == Some(version));
                } else {
                    assert(!req.contains(subprotocol_of(version))) by {
                        if req.contains(subprotocol_of(version)) {
                            let k = choose|k: int| 0 <= k < req.len() && req[k] == subprotocol_of(version);
                            assert(0 <= k < j);
                        }
                    }
                }
            }
            if found {
                return Some(version);
            }
            i = i + 1;
        }
        None
    }

    /// All versions this central system supports, in preference order.
    pub fn supported_versions(&self) -> (r: &[OcppVersion])
        ensures
            r@ == self@,
    {
        self.supported_versions.as_slice()
    }

    /// Sub-protocol names to advertise, in preference order.
    pub fn supported_subprotocols(&self) -> (r: Vec<&'static str>)
        ensures
            r@.len() == self@.len(),
            forall|i: int| 0 <= i < self@.len() ==> #[trigger] r@[i]@ == subprotocol_of(self@[i]),
    {
        let mut out: Vec<&'static str> = Vec::new();
        let n = self.supported_versions.len();
        for i in 0..n
            invariant
                n == self@.len(),
                self@ == self.supported_versions@,
                out@.len() == i,
                forall|k: int| 0 <= k < i ==> #[trigger] out@[k]@ == subprotocol_of(self@[k]),
        {
            out.push(self.supported_versions[i].subprotocol());
        }
        out
    }
}

/// Creates per-connection inbound adapters for one OCPP version.
pub trait OcppAdapterFactory {
    /// The per-connection adapter this factory creates.
    type Adapter;

    /// Create the inbound adapter for one charge point connection.
    fn create_inbound_adapter(&self, charge_point_id: String) -> Self::Adapter;

    /// The OCPP version the adapters of this factory speak.
    fn version(&self) -> OcppVersion;
}

/// Registry that maps OCPP versions to their adapter factories.
///
/// During connection setup the server looks up the negotiated version
/// in this registry to obtain the right factory and create a
/// per-connection inbound adapter. There is one slot per version.
pub struct ProtocolAdapters<F> {
    v16: Option<F>,
    v201: Option<F>,
    v21: Option<F>,
}

impl<F> ProtocolAdapters<F> {
    /// The factory registered for `v`, if any.
    pub closed spec fn slot(&self, v: OcppVersion) -> Option<F> {
        match v {
            OcppVersion::V16 => self.v16,
            OcppVersion::V201 => self.v201,
            OcppVersion::V21 => self.v21,
        }
    }
}

impl<F> View for ProtocolAdapters<F> {
    type V = Map<OcppVersion, F>;

    open spec fn view(&self) -> Map<OcppVersion, F> {
        Map::new(|v: OcppVersion| self.slot(v) is Some, |v: OcppVersion| self.slot(v)->0)
    }
}

/// The registered versions of a registry, newest first.
pub open spec fn preference_order(registered: Set<OcppVersion>) -> Seq<OcppVersion> {
    seq![OcppVersion::V21, OcppVersion::V201, OcppVersion::V16].filter(
        |v: OcppVersion| registered.contains(v),
    )
}

impl<F: OcppAdapterFactory> ProtocolAdapters<F> {
    /// An empty registry.
    pub fn new() -> (r: Self)
        ensures
            r@ == Map::<OcppVersion, F>::empty(),
    {
        let r = ProtocolAdapters { v16: None, v201: None, v21: None };
        assert(r@ =~= Map::<OcppVersion, F>::empty());
        r
    }

    /// Register an adapter factory for a specific OCPP version, replacing
    /// any factory registered for it before.
    pub fn register(&mut self, version: OcppVersion, factory: F)
        ensures
            final(self)@ == old(self)@.insert(version, factory),
    {
        match version {
            OcppVersion::V16 => self.v16 = Some(factory),
            OcppVersion::V201 => self.v201 = Some(factory),
            OcppVersion::V21 => self.v21 = Some(factory),
        }
        assert(self@ =~= old(self)@.insert(version, factory));
    }

    /// Create a new inbound adapter for the given version and charge point
    /// with the factory registered for the version; `None` when there is none.
    pub fn create_adapter(&self, version: OcppVersion, charge_point_id: String) -> (r: Option<
        F::Adapter,
    >)
        ensures
            r is Some <==> self@.dom().contains(version),
            r matches Some(a) ==> call_ensures(
                F::create_inbound_adapter,
                (&self@[version], charge_point_id),
                a,
            ),
    {
        let slot = match version {
            OcppVersion::V16 => &self.v16,
            OcppVersion::V201 => &self.v201,
            OcppVersion::V21 => &self.v21,
        };
        match slot {
            Some(f) => Some(f.create_inbound_adapter(charge_point_id)),
            None => None,
        }
    }

    /// All versions that have a registered adapter, newest first.
    pub fn supported_versions(&self) -> (r: Vec<OcppVersion>)
        ensures
            r@ == preference_order(self@.dom()),
    {
        let mut out: Vec<OcppVersion> = Vec::new();
        if self.v21.is_some() {
            out.push(OcppVersion::V21);
        }
        if self.v201.is_some() {
            out.push(OcppVersion::V201);
        }
        if self.v16.is_some() {
            out.push(OcppVersion::V16);
        }
        proof {
            reveal_with_fuel(Seq::<_>::filter, 4);
            let s = seq![OcppVersion::V21, OcppVersion::V201, OcppVersion::V16];
            assert(s.drop_last() =~= seq![OcppVersion::V21, OcppVersion::V201]);
            assert(s.drop_last().drop_last() =~= seq![OcppVersion::V21]);
            assert(s.drop_last().drop_last().drop_last() =~= Seq::<OcppVersion>::empty());
            assert(out@ =~= preference_order(self@.dom()));
        }
        out
    }

    /// Build a `ProtocolNegotiator` from the registered versions, ordered
    /// highest-first so the negotiator prefers the newest mutually-supported
    /// protocol.
    pub fn build_negotiator(&self) -> (r: ProtocolNegotiator)
        ensures
            r@ == preference_order(self@.dom()),
    {
        ProtocolNegotiator::new(self.supported_versions())
    }
}

/// Negotiation never invents a version: it answers `None` exactly when no
/// supported version was requested, and otherwise a supported, requested
/// version such that no version ahead of it in the preference order was requested.
pub proof fn law_negotiation_picks_first_mutual(versions: Seq<OcppVersion>, header: Seq<char>)
    ensures
        first_match(versions, comma_fields(header)) is None <==> (forall|v: OcppVersion|
            !(versions.contains(v) && comma_fields(header).contains(subprotocol_of(v)))),
        first_match(versions, comma_fields(header)) matches Some(v) ==> exists|i: int|
            0 <= i < versions.len() && versions[i] == v && comma_fields(header).contains(
                subprotocol_of(v),
            ) && forall|j: int|
                0 <= j < i ==> !comma_fields(header).contains(
                    #[trigger] subprotocol_of(versions[j]),
                ),
    decreases versions.len(),
{
    let req = comma_fields(header);
    lemma_first_match(versions, req);
}

proof fn lemma_first_match(versions: Seq<OcppVersion>, req: Seq<Seq<char>>)
    ensures
        first_match(versions, req) is None <==> (forall|v: OcppVersion|
            !(versions.contains(v) && req.contains(subprotocol_of(v)))),
        first_match(versions, req) matches Some(v) ==> exists|i: int|
            0 <= i < versions.len() && versions[i] == v && req.contains(subprotocol_of(v))
                && forall|j: int| 0 <= j < i ==> !req.contains(#[trigger] subprotocol_of(versions[j])),
    decreases versions.len(),
{
    if versions.len() > 0 {
        let rest = versions.drop_first();
        lemma_first_match(rest, req);
        if req.contains(subprotocol_of(versions[0])) {
            assert(versions.contains(versions[0]));
        } else {
            assert forall|v: OcppVersion| versions.contains(v) && req.contains(subprotocol_of(v))
                implies rest.contains(v) by {
                let k = choose|k: int| 0 <= k < versions.len() && versions[k] == v;
                assert(k != 0);
                assert(rest[k - 1] == v);
            }
            assert forall|v: OcppVersion| rest.contains(v) implies versions.contains(v) by {
                let k = choose|k: int| 0 <= k < rest.len() && rest[k] == v;
                assert(versions[k + 1] == v);
            }
            if let Some(v) = first_match(rest, req) {
                let i = choose|i: int|
                    0 <= i < rest.len() && rest[i] == v && req.contains(subprotocol_of(v))
                        && forall|j: int|
                        0 <= j < i ==> !req.contains(#[trigger] subprotocol_of(rest[j]));
                assert(versions[i + 1] == v);
                assert forall|j: int| 0 <= j < i + 1 implies !req.contains(
                    #[trigger] subprotocol_of(versions[j]),
                ) by {
                    if j > 0 {
                        assert(versions[j] == rest[j - 1]);
                    }
                }
            }
        }
    }
}

/// A negotiator built from a registry prefers the newest version: whatever
/// it picks ranks at least as high as every registered version the header
/// requested, and it picks nothing only when no registered version was requested.
pub proof fn law_built_negotiator_prefers_newest(registered: Set<OcppVersion>, header: Seq<char>)
    ensures
        first_match(preference_order(registered), comma_fields(header)) matches Some(v) ==> {
            &&& registered.contains(v)
            &&& comma_fields(header).contains(subprotocol_of(v))
            &&& forall|w: OcppVersion|
                registered.contains(w) && comma_fields(header).contains(#[trigger] subprotocol_of(w))
                    ==> rank_of(w) <= rank_of(v)
        },
        first_match(preference_order(registered), comma_fields(header)) is None ==> forall|
            w: OcppVersion,
        |
            registered.contains(w) ==> !comma_fields(header).contains(#[trigger] subprotocol_of(w)),
{
    let req = comma_fields(header);
    let order = preference_order(registered);
    reveal_with_fuel(Seq::<_>::filter, 4);
    let s = seq![OcppVersion::V21, OcppVersion::V201, OcppVersion::V16];
    assert(s.drop_last() =~= seq![OcppVersion::V21, OcppVersion::V201]);
    assert(s.drop_last().drop_last() =~= seq![OcppVersion::V21]);
    assert(s.drop_last().drop_last().drop_last() =~= Seq::<OcppVersion>::empty());
    lemma_first_match(order, req);
    assert forall|w: OcppVersion| registered.contains(w) implies order.contains(w) by {
        match w {
            OcppVersion::V21 => assert(order[0] == w),
            OcppVersion::V201 => {
                if registered.contains(OcppVersion::V21) {
                    assert(order[1] == w);
                } else {
                    assert(order[0] == w);
                }
            },
            OcppVersion::V16 => {
                assert(order[order.len() - 1] == w);
            },
        }
    }
    if let Some(v) = first_match(order, req) {
        let i = choose|i: int|
            0 <= i < order.len() && order[i] == v && req.contains(subprotocol_of(v)) && forall|
                j: int,
            | 0 <= j < i ==> !req.contains(#[trigger] subprotocol_of(order[j]));
        assert(registered.contains(v));
        assert forall|w: OcppVersion|
            registered.contains(w) && req.contains(#[trigger] subprotocol_of(w)) implies rank_of(w)
            <= rank_of(v) by {
            let k = choose|k: int| 0 <= k < order.len() && order[k] == w;
            if k < i {
                assert(!req.contains(subprotocol_of(order[k])));
            }
        }
    }
}

/// After registering `factory` for `version`, that version's adapters come
/// from `factory` (an earlier one is replaced) and every other version keeps
/// the factory it had.
pub proof fn law_register_replaces<F>(
    before: Map<OcppVersion, F>,
    version: OcppVersion,
    factory: F,
    other: OcppVersion,
)
    requires
        other != version,
    ensures
        before.insert(version, factory).dom().contains(version),
        before.insert(version, factory)[version] == factory,
        before.insert(version, factory).dom().contains(other) == before.dom().contains(other),
        before.dom().contains(other) ==> before.insert(version, factory)[other] == before[other],
{
}

impl<F: OcppAdapterFactory> Default for ProtocolAdapters<F> {
    fn default() -> (r: Self)
        ensures
            r@ == Map::<OcppVersion, F>::empty(),
    {
        Self::new()
    }
}

} // verus!
