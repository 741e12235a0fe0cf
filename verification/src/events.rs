//! Notification event kinds and the subscription filter of UI clients.
use vstd::prelude::*;

use crate::text::{comma_fields, split_comma_trim, text_eq};

verus! {

/// The kinds of events broadcast to notification clients.
#[derive(Clone, Copy, Debug, PartialEq, Eq, Structural)]
pub enum EventKind {
    ChargePointConnected,
    ChargePointDisconnected,
    ChargePointStatusChanged,
    ConnectorStatusChanged,
    TransactionStarted,
    TransactionStopped,
    MeterValuesReceived,
    HeartbeatReceived,
    AuthorizationResult,
    BootNotification,
    Error,
}

/// The wire name of an event kind.
pub open spec fn event_type_of(k: EventKind) -> Seq<char> {
    match k {
        EventKind::ChargePointConnected => "charge_point_connected"@,
        EventKind::ChargePointDisconnected => "charge_point_disconnected"@,
        EventKind::ChargePointStatusChanged => "charge_point_status_changed"@,
        EventKind::ConnectorStatusChanged => "connector_status_changed"@,
        EventKind::TransactionStarted => "transaction_started"@,
        EventKind::TransactionStopped => "transaction_stopped"@,
        EventKind::MeterValuesReceived => "meter_values_received"@,
        EventKind::HeartbeatReceived => "heartbeat_received"@,
        EventKind::AuthorizationResult => "authorization_result"@,
        EventKind::BootNotification => "boot_notification"@,
        EventKind::Error => "error"@,
    }
}

impl EventKind {
    /// The event type name.
    pub fn event_type(&self) -> (r: &'static str)
        ensures
            r@ == event_type_of(*self),
    {
        match self {
            EventKind::ChargePointConnected => "charge_point_connected",
            EventKind::ChargePointDisconnected => "charge_point_disconnected",
            EventKind::ChargePointStatusChanged => "charge_point_status_changed",
            EventKind::ConnectorStatusChanged => "connector_status_changed",
            EventKind::TransactionStarted => "transaction_started",
            EventKind::TransactionStopped => "transaction_stopped",
            EventKind::MeterValuesReceived => "meter_values_received",
            EventKind::HeartbeatReceived => "heartbeat_received",
            EventKind::AuthorizationResult => "authorization_result",
            EventKind::BootNotification => "boot_notification",
            EventKind::Error => "error",
        }
    }
}

/// Query parameters for filtering events.
pub struct EventFilter {
    /// Filter by charge point id (optional).
    pub charge_point_id: Option<String>,
    /// Filter by event types (comma-separated, optional).
    pub event_types: Option<String>,
}

/// Whether an event of kind `kind` about `cp` passes the filter: a charge
/// point filter admits only events about that charge point, a type filter
/// only the listed types (entries trimmed of white space).
pub open spec fn filter_admits(
    cp_filter: Option<Seq<char>>,
    types_filter: Option<Seq<char>>,
    kind: EventKind,
    cp: Option<Seq<char>>,
) -> bool {
    &&& (cp_filter matches Some(f) ==> (cp matches Some(c) && c == f))
    &&& (types_filter matches Some(t) ==> comma_fields(t).contains(event_type_of(kind)))
}

/// A type filter applies whatever the charge point filter is: an admitted
/// event's type name is one of the filter's trimmed comma-separated
/// entries, and an event whose type is not listed is refused.
pub proof fn law_type_filter_always_applies(
    cp_filter: Option<Seq<char>>,
    types: Seq<char>,
    kind: EventKind,
    cp: Option<Seq<char>>,
)
    ensures
        filter_admits(cp_filter, Some(types), kind, cp) ==> comma_fields(types).contains(
            event_type_of(kind),
        ),
        !comma_fields(types).contains(event_type_of(kind)) ==> !filter_admits(
            cp_filter,
            Some(types),
            kind,
            cp,
        ),
{
}

/// A charge point filter applies whatever the type filter is: an admitted
/// event is about exactly that charge point.
pub proof fn law_charge_point_filter_always_applies(
    charge_point: Seq<char>,
    types_filter: Option<Seq<char>>,
    kind: EventKind,
    cp: Option<Seq<char>>,
)
    ensures
        filter_admits(Some(charge_point), types_filter, kind, cp) ==> cp == Some(charge_point),
{
}

impl EventFilter {
    /// The filter as text views.
    pub open spec fn cp_view(&self) -> Option<Seq<char>> {
        match self.charge_point_id {
            Some(s) => Some(s@),
            None => None,
        }
    }

    /// The type filter as a text view.
    pub open spec fn types_view(&self) -> Option<Seq<char>> {
        match self.event_types {
            Some(s) => Some(s@),
            None => None,
        }
    }

    /// Check whether an event of kind `kind` about charge point
    /// `charge_point_id` matches the filter.
    pub fn matches(&self, kind: EventKind, charge_point_id: Option<&str>) -> (r: bool)
        ensures
            r == filter_admits(
                self.cp_view(),
                self.types_view(),
                kind,
                match charge_point_id {
                    Some(c) => Some(c@),
                    None => None,
                },
            ),
            r ==> (self.event_types matches Some(t) ==> comma_fields(t@).contains(
                event_type_of(kind),
            )),
            r ==> (self.charge_point_id matches Some(f) ==> (charge_point_id matches Some(c)
                && c@ == f@)),
    {
        if let Some(cp_id) = &self.charge_point_id {
            match charge_point_id {
                Some(event_cp_id) => {
                    if !text_eq(event_cp_id, cp_id.as_str()) {
                        return false;
                    }
                },
                None => {
                    return false;
                },
            }
        }
        if let Some(types) = &self.event_types {
            let allowed = split_comma_trim(types.as_str());
            let ghost req = comma_fields(types@);
            let wanted = kind.event_type();
            let mut j: usize = 0;
            let mut found = false;
            while j < allowed.len()
                invariant
                    allowed@.map_values(|x: String| x@) == req,
                    wanted@ == event_type_of(kind),
                    j <= allowed@.len(),
                    found == exists|k: int| 0 <= k < j && req[k] == wanted@,
                decreases allowed@.len() - j,
            {
                assert(req[j as int] == allowed@[j as int]@);
                if text_eq(allowed[j].as_str(), wanted) {
                    found = true;
                }
                j = j + 1;
            }
            if !found {
                proof {
                    if req.contains(wanted@) {
                        let k = choose|k: int| 0 <= k < req.len() && req[k] == wanted@;
                        assert(0 <= k < j);
                    }
                }
                return false;
            }
        }
        true
    }
}

} // verus!
