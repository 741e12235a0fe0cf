//! Charge points and their connectors as the API presents them.
use vstd::prelude::*;

use crate::ocpp_version::{version_text_of, OcppVersion};

use crate::validation::{
    check_length, check_range, errors_view, length_rule, range_rule, FieldError, FieldErrorView,
};

verus! {

/// Connector status (OCPP `ChargePointStatus`).
#[derive(Clone, Copy, Debug, PartialEq, Eq, Structural)]
pub enum ConnectorStatus {
    Available,
    Preparing,
    Charging,
    SuspendedEV,
    SuspendedEVSE,
    Finishing,
    Reserved,
    Unavailable,
    Faulted,
}

/// The name of a connector status.
pub open spec fn status_name(s: ConnectorStatus) -> Seq<char> {
    match s {
        ConnectorStatus::Available => "Available"@,
        ConnectorStatus::Preparing => "Preparing"@,
        ConnectorStatus::Charging => "Charging"@,
        ConnectorStatus::SuspendedEV => "SuspendedEV"@,
        ConnectorStatus::SuspendedEVSE => "SuspendedEVSE"@,
        ConnectorStatus::Finishing => "Finishing"@,
        ConnectorStatus::Reserved => "Reserved"@,
        ConnectorStatus::Unavailable => "Unavailable"@,
        ConnectorStatus::Faulted => "Faulted"@,
    }
}

/// The name of a connector status.
pub fn connector_status_to_string(status: &ConnectorStatus) -> (r: String)
    ensures
        r@ == status_name(*status),
{
    match status {
        ConnectorStatus::Available => "Available",
        ConnectorStatus::Preparing => "Preparing",
        ConnectorStatus::Charging => "Charging",
        ConnectorStatus::SuspendedEV => "SuspendedEV",
        ConnectorStatus::SuspendedEVSE => "SuspendedEVSE",
        ConnectorStatus::Finishing => "Finishing",
        ConnectorStatus::Reserved => "Reserved",
        ConnectorStatus::Unavailable => "Unavailable",
        ConnectorStatus::Faulted => "Faulted",
    }.to_owned()
}

/// A connector (plug) of a charge point.
pub struct Connector {
    pub id: u32,
    pub status: ConnectorStatus,
    pub error_code: Option<String>,
    pub info: Option<String>,
}

/// Connector (plug) as the API presents it.
pub struct ConnectorDto {
    pub id: u32,
    pub status: String,
    pub error_code: Option<String>,
    pub error_info: Option<String>,
}

impl ConnectorDto {
    /// The API form of a connector: its status by name, its info as error info.
    pub fn from_domain(connector: Connector) -> (r: Self)
        ensures
            r.id == connector.id,
            r.status@ == status_name(connector.status),
            r.error_code == connector.error_code,
            r.error_info == connector.info,
    {
        ConnectorDto {
            id: connector.id,
            status: connector_status_to_string(&connector.status),
            error_code: connector.error_code,
            error_info: connector.info,
        }
    }
}

/// What the API reads of a registered charge point. Times are seconds
/// since the Unix epoch; the status is its display name.
pub struct ChargePoint {
    pub id: String,
    pub ocpp_version: Option<OcppVersion>,
    pub vendor: Option<String>,
    pub model: Option<String>,
    pub serial_number: Option<String>,
    pub firmware_version: Option<String>,
    pub iccid: Option<String>,
    pub imsi: Option<String>,
    pub meter_type: Option<String>,
    pub meter_serial_number: Option<String>,
    pub status: String,
    pub connectors: Vec<Connector>,
    pub registered_at: i64,
    pub last_heartbeat: Option<i64>,
}

/// Charge point as the API presents it.
pub struct ChargePointDto {
    pub id: String,
    /// OCPP protocol version: "1.6", "2.0.1", "2.1".
    pub ocpp_version: Option<String>,
    pub vendor: Option<String>,
    pub model: Option<String>,
    pub serial_number: Option<String>,
    pub firmware_version: Option<String>,
    pub iccid: Option<String>,
    pub imsi: Option<String>,
    pub meter_type: Option<String>,
    pub meter_serial_number: Option<String>,
    pub status: String,
    pub is_online: bool,
    pub connectors: Vec<ConnectorDto>,
    pub registered_at: i64,
    pub last_heartbeat: Option<i64>,
}

/// The API form of a connector, on views: id, status name, error code and info.
pub open spec fn connector_shown(d: ConnectorDto, c: Connector) -> bool {
    &&& d.id == c.id
    &&& d.status@ == status_name(c.status)
    &&& d.error_code == c.error_code
    &&& d.error_info == c.info
}

impl ChargePointDto {
    /// The API form of a charge point: its fields as they are, the version
    /// by its number, each connector in its API form, and whether it is
    /// connected.
    pub fn from_domain(cp: ChargePoint, is_online: bool) -> (r: Self)
        ensures
            r.id@ == cp.id@,
            r.ocpp_version matches Some(v) ==> cp.ocpp_version matches Some(w) && v@
                == version_text_of(w),
            r.ocpp_version is None <==> cp.ocpp_version is None,
            r.vendor == cp.vendor,
            r.model == cp.model,
            r.serial_number == cp.serial_number,
            r.firmware_version == cp.firmware_version,
            r.iccid == cp.iccid,
            r.imsi == cp.imsi,
            r.meter_type == cp.meter_type,
            r.meter_serial_number == cp.meter_serial_number,
            r.status@ == cp.status@,
            r.is_online == is_online,
            r.connectors@.len() == cp.connectors@.len(),
            forall|i: int|
                0 <= i < r.connectors@.len() ==> connector_shown(
                    #[trigger] r.connectors@[i],
                    cp.connectors@[i],
                ),
            r.registered_at == cp.registered_at,
            r.last_heartbeat == cp.last_heartbeat,
    {
        let ChargePoint {
            id,
            ocpp_version,
            vendor,
            model,
            serial_number,
            firmware_version,
            iccid,
            imsi,
            meter_type,
            meter_serial_number,
            status,
            connectors,
            registered_at,
            last_heartbeat,
        } = cp;
        let version = match ocpp_version {
            Some(v) => Some(v.version_string().to_owned()),
            None => None,
        };
        let ghost source = connectors@;
        let mut rest = connectors;
        let mut shown: Vec<ConnectorDto> = Vec::new();
        let n = rest.len();
        let mut i: usize = 0;
        while i < n
            invariant
                n == source.len(),
                i <= n,
                rest@ == source.skip(i as int),
                shown@.len() == i,
                forall|k: int| 0 <= k < i ==> connector_shown(#[trigger] shown@[k], source[k]),
            decreases n - i,
        {
            let c = rest.remove(0);
            proof {
                assert(c == source[i as int]);
                assert(rest@ =~= source.skip(i + 1));
            }
            shown.push(ConnectorDto::from_domain(c));
            i = i + 1;
        }
        ChargePointDto {
            id,
            ocpp_version: version,
            vendor,
            model,
            serial_number,
            firmware_version,
            iccid,
            imsi,
            meter_type,
            meter_serial_number,
            status,
            is_online,
            connectors: shown,
            registered_at,
            last_heartbeat,
        }
    }
}

/// Charge point statistics.
pub struct ChargePointStats {
    pub total: u32,
    pub online: u32,
    pub offline: u32,
    pub charging: u32,
}

/// What the statistics read of a charge point: whether it is connected and
/// the status of each of its connectors.
pub struct ChargePointState {
    pub is_online: bool,
    pub connectors: Vec<ConnectorStatus>,
}

/// Whether some connector is charging.
pub open spec fn any_charging(cs: Seq<ConnectorStatus>) -> bool {
    exists|i: int| 0 <= i < cs.len() && cs[i] == ConnectorStatus::Charging
}

/// The number of online charge points.
pub open spec fn online_count(ps: Seq<ChargePointState>) -> nat
    decreases ps.len(),
{
    if ps.len() == 0 {
        0
    } else {
        online_count(ps.drop_last()) + if ps.last().is_online {
            1nat
        } else {
            0nat
        }
    }
}

/// The number of online charge points with a charging connector.
pub open spec fn charging_count(ps: Seq<ChargePointState>) -> nat
    decreases ps.len(),
{
    if ps.len() == 0 {
        0
    } else {
        charging_count(ps.drop_last()) + if ps.last().is_online && any_charging(
            ps.last().connectors@,
        ) {
            1nat
        } else {
            0nat
        }
    }
}

proof fn lemma_counts_bounded(ps: Seq<ChargePointState>)
    ensures
        charging_count(ps) <= online_count(ps) <= ps.len(),
    decreases ps.len(),
{
    if ps.len() > 0 {
        lemma_counts_bounded(ps.drop_last());
    }
}

/// An online charge point with a charging connector at any position adds
/// one to the charging count.
pub proof fn law_charging_connector_anywhere_counts(
    ps: Seq<ChargePointState>,
    p: ChargePointState,
    j: int,
)
    requires
        p.is_online,
        0 <= j < p.connectors@.len(),
        p.connectors@[j] == ConnectorStatus::Charging,
    ensures
        charging_count(ps.push(p)) == charging_count(ps) + 1,
{
    assert(ps.push(p).drop_last() =~= ps);
    assert(any_charging(p.connectors@));
}

/// A charge point that is offline, or none of whose connectors is charging,
/// leaves the charging count unchanged.
pub proof fn law_not_charging_not_counted(ps: Seq<ChargePointState>, p: ChargePointState)
    requires
        !p.is_online || forall|j: int|
            0 <= j < p.connectors@.len() ==> p.connectors@[j] != ConnectorStatus::Charging,
    ensures
        charging_count(ps.push(p)) == charging_count(ps),
{
    assert(ps.push(p).drop_last() =~= ps);
}

/// Charge point statistics: how many there are, how many are connected,
/// how many are not, and how many connected ones have a charging connector.
pub fn charge_point_stats(points: &Vec<ChargePointState>) -> (r: ChargePointStats)
    requires
        points@.len() <= u32::MAX,
    ensures
        r.total == points@.len(),
        r.online == online_count(points@),
        r.offline == points@.len() - online_count(points@),
        r.charging == charging_count(points@),
{
    let n = points.len();
    let mut online: u32 = 0;
    let mut charging: u32 = 0;
    for i in 0..n
        invariant
            n == points@.len(),
            n <= u32::MAX,
            online == online_count(points@.take(i as int)),
            charging == charging_count(points@.take(i as int)),
    {
        let ghost post = points@.take(i + 1);
        proof {
            assert(post.drop_last() =~= points@.take(i as int));
            assert(post.last() == points@[i as int]);
            lemma_counts_bounded(post);
        }
        if points[i].is_online {
            online = online + 1;
            let cs = &points[i].connectors;
            let mut k: usize = 0;
            let mut found = false;
            while k < cs.len()
                invariant
                    k <= cs@.len(),
                    found == exists|j: int| 0 <= j < k && cs@[j] == ConnectorStatus::Charging,
                decreases cs@.len() - k,
            {
                if cs[k] == ConnectorStatus::Charging {
                    found = true;
                }
                k = k + 1;
            }
            if found {
                charging = charging + 1;
            }
        }
    }
    proof {
        assert(points@.take(n as int) =~= points@);
        lemma_counts_bounded(points@);
    }
    ChargePointStats { total: n as u32, online, offline: n as u32 - online, charging }
}

/// Request to create a new connector.
pub struct CreateConnectorRequest {
    pub connector_id: u32,
}

impl CreateConnectorRequest {
    /// The field rules: `connector_id` at least 1.
    pub fn validate(&self) -> (r: Vec<FieldError>)
        ensures
            errors_view(r@) == range_rule(
                "connector_id"@,
                self.connector_id as int,
                1,
                None,
                "connector_id must be ≥ 1"@,
            ),
    {
        let mut e = Vec::new();
        assert(errors_view(e@) =~= Seq::<FieldErrorView>::empty());
        check_range(&mut e, "connector_id", self.connector_id as i64, 1, None, "connector_id must be ≥ 1");
        e
    }
}

/// Request to set a charge point's WebSocket authentication password.
pub struct SetPasswordRequest {
    pub password: String,
}

impl SetPasswordRequest {
    /// The field rules: a password of 8 to 128 characters.
    pub fn validate(&self) -> (r: Vec<FieldError>)
        ensures
            errors_view(r@) == length_rule(
                "password"@,
                self.password@,
                8,
                Some(128),
                "password must be 8–128 characters"@,
            ),
    {
        let mut e = Vec::new();
        assert(errors_view(e@) =~= Seq::<FieldErrorView>::empty());
        check_length(&mut e, "password", self.password.as_str(), 8, Some(128), "password must be 8–128 characters");
        e
    }
}

/// Response after setting or removing a charge point password.
pub struct SetPasswordResponse {
    pub message: String,
    pub has_password: bool,
}

impl SetPasswordResponse {
    /// The answer after a password was set for a charge point.
    pub fn password_set(charge_point_id: &str) -> (r: Self)
        ensures
            r.message@ == "Password set for charge point '"@ + charge_point_id@
                + "'. Use Basic Auth for WS connections."@,
            r.has_password,
    {
        let mut m = String::from_str("Password set for charge point '");
        m.append(charge_point_id);
        m.append("'. Use Basic Auth for WS connections.");
        SetPasswordResponse { message: m, has_password: true }
    }

    /// The answer after a charge point's password was removed.
    pub fn password_removed(charge_point_id: &str) -> (r: Self)
        ensures
            r.message@ == "Password removed for charge point '"@ + charge_point_id@
                + "'. Basic Auth will be rejected."@,
            !r.has_password,
    {
        let mut m = String::from_str("Password removed for charge point '");
        m.append(charge_point_id);
        m.append("'. Basic Auth will be rejected.");
        SetPasswordResponse { message: m, has_password: false }
    }
}

} // verus!
