//! Reservations (ReserveNow / CancelReservation): the checks made before a
//! command is sent, and the answers built from the charge point's reply.
use vstd::prelude::*;

use crate::numbers::{i32_text, signed_decimal};
use crate::text::{contains_text, text_contains, text_eq};

verus! {

/// Request to create a new reservation.
pub struct CreateReservationRequest {
    pub charge_point_id: String,
    /// Connector to reserve (0 = any connector).
    pub connector_id: i32,
    pub id_tag: String,
    pub parent_id_tag: Option<String>,
    /// Expiry date and time as RFC 3339 text.
    pub expiry_date: String,
}

/// Reservation details in API responses.
pub struct ReservationDto {
    pub id: i32,
    pub charge_point_id: String,
    pub connector_id: i32,
    pub id_tag: String,
    pub parent_id_tag: Option<String>,
    pub expiry_date: String,
    pub status: String,
    pub created_at: String,
}

/// The answer to a reservation request.
pub struct CreateReservationResponse {
    pub reservation_id: i32,
    /// The status the charge point answered.
    pub status: String,
    pub message: Option<String>,
}

/// The answer to a cancellation request.
pub struct CancelReservationResponse {
    pub status: String,
    pub message: Option<String>,
}

/// Why a reservation request or cancellation was refused.
pub enum ReservationError {
    /// The charge point is not connected.
    NotConnected(String),
    /// The expiry date is not RFC 3339 text; the parser's explanation.
    InvalidExpiry(String),
    /// The expiry date is not after the current time.
    ExpiryNotInFuture,
    /// No reservation has this id.
    NotFound(i32),
    /// The reservation is not active; its id and status.
    NotActive(i32, String),
}

/// What a refused reservation request is answered with: HTTP status and message.
pub open spec fn reservation_error_answer(e: ReservationError) -> (u16, Seq<char>) {
    match e {
        ReservationError::NotConnected(cp) => (
            404,
            "Charge point '"@ + cp@ + "' is not connected"@,
        ),
        ReservationError::InvalidExpiry(why) => (400, "Invalid expiry_date: "@ + why@),
        ReservationError::ExpiryNotInFuture => (400, "expiry_date must be in the future"@),
        ReservationError::NotFound(id) => (
            404,
            "Reservation "@ + signed_decimal(id as int) + " not found"@,
        ),
        ReservationError::NotActive(id, status) => (
            400,
            "Reservation "@ + signed_decimal(id as int) + " is not active (status: "@ + status@
                + ")"@,
        ),
    }
}

impl ReservationError {
    /// The HTTP status of the refusal.
    pub fn status_code(&self) -> (r: u16)
        ensures
            r == reservation_error_answer(*self).0,
    {
        match self {
            ReservationError::NotConnected(_) => 404,
            ReservationError::InvalidExpiry(_) => 400,
            ReservationError::ExpiryNotInFuture => 400,
            ReservationError::NotFound(_) => 404,
            ReservationError::NotActive(_, _) => 400,
        }
    }

    /// The message of the refusal.
    pub fn message(&self) -> (r: String)
        ensures
            r@ == reservation_error_answer(*self).1,
    {
        match self {
            ReservationError::NotConnected(cp) => {
                let mut m = "Charge point '".to_owned();
                m.append(cp.as_str());
                m.append("' is not connected");
                m
            },
            ReservationError::InvalidExpiry(why) => {
                let mut m = "Invalid expiry_date: ".to_owned();
                m.append(why.as_str());
                m
            },
            ReservationError::ExpiryNotInFuture => "expiry_date must be in the future".to_owned(),
            ReservationError::NotFound(id) => {
                let mut m = "Reservation ".to_owned();
                let t = i32_text(*id);
                m.append(t.as_str());
                m.append(" not found");
                m
            },
            ReservationError::NotActive(id, status) => {
                let mut m = "Reservation ".to_owned();
                let t = i32_text(*id);
                m.append(t.as_str());
                m.append(" is not active (status: ");
                m.append(status.as_str());
                m.append(")");
                m
            },
        }
    }
}

/// What `DateTime::parse_from_rfc3339` gives for a text: the instant as
/// Unix seconds and the nanoseconds within the second, or the text of the
/// parse error.
pub uninterp spec fn rfc3339_instant(text: Seq<char>) -> Result<(int, int), Seq<char>>;

/// `DateTime::parse_from_rfc3339(text)`, then `timestamp()` and
/// `timestamp_subsec_nanos()` of the instant, or the `Display` text of the
/// error. The result is named; chrono documents that the nanoseconds stay
/// below 2_000_000_000 (a leap second reaches past 1_000_000_000).
#[verifier::external_body]
pub(crate) fn parse_rfc3339(text: &str) -> (r: Result<(i64, u32), String>)
    ensures
        match r {
            Ok((secs, nanos)) => rfc3339_instant(text@) == Ok::<(int, int), Seq<char>>(
                (secs as int, nanos as int),
            ) && nanos < 2_000_000_000,
            Err(e) => rfc3339_instant(text@) == Err::<(int, int), Seq<char>>(e@),
        },
{
    match chrono::DateTime::parse_from_rfc3339(text) {
        Ok(dt) => Ok((dt.timestamp(), dt.timestamp_subsec_nanos())),
        Err(e) => Err(e.to_string()),
    }
}

/// `a` is not later than `b`, instants given as (seconds, nanoseconds).
pub open spec fn not_after(a: (int, int), b: (int, int)) -> bool {
    a.0 < b.0 || (a.0 == b.0 && a.1 <= b.1)
}

/// The checks made before a reservation is sent, given whether the charge
/// point is connected, the parsed expiry date and the current time.
pub open spec fn reservation_check(
    charge_point_id: Seq<char>,
    connected: bool,
    parsed: Result<(int, int), Seq<char>>,
    now: (int, int),
) -> Result<(int, int), (u16, Seq<char>)> {
    if !connected {
        Err((404, "Charge point '"@ + charge_point_id + "' is not connected"@))
    } else {
        match parsed {
            Err(why) => Err((400, "Invalid expiry_date: "@ + why)),
            Ok(t) => if not_after(t, now) {
                Err((400, "expiry_date must be in the future"@))
            } else {
                Ok(t)
            },
        }
    }
}

/// Decide a reservation request from a parsed expiry date: refused when the
/// charge point is not connected, when the date did not parse, or when it is
/// not after `now`; otherwise the expiry instant to send.
pub fn check_parsed_reservation(
    charge_point_id: &str,
    connected: bool,
    parsed: Result<(i64, u32), String>,
    now_secs: i64,
    now_nanos: u32,
) -> (r: Result<(i64, u32), ReservationError>)
    ensures
        match r {
            Ok(t) => reservation_check(
                charge_point_id@,
                connected,
                match parsed {
                    Ok(p) => Ok((p.0 as int, p.1 as int)),
                    Err(e) => Err(e@),
                },
                (now_secs as int, now_nanos as int),
            ) == Ok::<(int, int), (u16, Seq<char>)>((t.0 as int, t.1 as int)),
            Err(e) => reservation_check(
                charge_point_id@,
                connected,
                match parsed {
                    Ok(p) => Ok((p.0 as int, p.1 as int)),
                    Err(e) => Err(e@),
                },
                (now_secs as int, now_nanos as int),
            ) == Err::<(int, int), (u16, Seq<char>)>(reservation_error_answer(e)),
        },
        connected && (parsed matches Ok(p) && (p.0 < now_secs || (p.0 == now_secs && p.1
            <= now_nanos))) ==> r matches Err(ReservationError::ExpiryNotInFuture),
        r matches Ok(t) ==> connected && parsed == Ok::<(i64, u32), String>(t) && (t.0 > now_secs
            || (t.0 == now_secs && t.1 > now_nanos)),
{
    if !connected {
        return Err(ReservationError::NotConnected(charge_point_id.to_owned()));
    }
    match parsed {
        Err(why) => Err(ReservationError::InvalidExpiry(why)),
        Ok((secs, nanos)) => {
            if secs < now_secs || (secs == now_secs && nanos <= now_nanos) {
                Err(ReservationError::ExpiryNotInFuture)
            } else {
                Ok((secs, nanos))
            }
        },
    }
}

/// Check a reservation request against the connection state and the current
/// time, parsing its expiry date with chrono.
pub fn check_reservation(
    request: &CreateReservationRequest,
    connected: bool,
    now_secs: i64,
    now_nanos: u32,
) -> (r: Result<(i64, u32), ReservationError>)
    ensures
        match r {
            Ok(t) => reservation_check(
                request.charge_point_id@,
                connected,
                rfc3339_instant(request.expiry_date@),
                (now_secs as int, now_nanos as int),
            ) == Ok::<(int, int), (u16, Seq<char>)>((t.0 as int, t.1 as int)),
            Err(e) => reservation_check(
                request.charge_point_id@,
                connected,
                rfc3339_instant(request.expiry_date@),
                (now_secs as int, now_nanos as int),
            ) == Err::<(int, int), (u16, Seq<char>)>(reservation_error_answer(e)),
        },
        connected && (rfc3339_instant(request.expiry_date@) matches Ok(p) && (p.0 < now_secs || (
        p.0 == now_secs && p.1 <= now_nanos))) ==> r matches Err(ReservationError::ExpiryNotInFuture),
        r matches Ok(t) ==> connected && (t.0 > now_secs || (t.0 == now_secs && t.1 > now_nanos)),
{
    if !connected {
        return Err(ReservationError::NotConnected(request.charge_point_id.clone()));
    }
    let parsed = parse_rfc3339(request.expiry_date.as_str());
    check_parsed_reservation(request.charge_point_id.as_str(), connected, parsed, now_secs, now_nanos)
}

/// A reservation whose expiry instant is not strictly later than `now`
/// (earlier seconds, or the same second and no later nanosecond) is refused
/// with 400 "expiry_date must be in the future" whenever the charge point is
/// connected.
pub proof fn law_past_expiry_refused(
    charge_point_id: Seq<char>,
    expiry: (int, int),
    now: (int, int),
)
    requires
        expiry.0 < now.0 || (expiry.0 == now.0 && expiry.1 <= now.1),
    ensures
        reservation_check(charge_point_id, true, Ok(expiry), now) == Err::<
            (int, int),
            (u16, Seq<char>),
        >((400u16, "expiry_date must be in the future"@)),
{
}

/// A reservation is accepted only with an expiry instant strictly later than
/// `now`, and the accepted instant is the parsed one; a later expiry on a
/// connected charge point is always accepted.
pub proof fn law_accepted_expiry_is_future(
    charge_point_id: Seq<char>,
    connected: bool,
    parsed: Result<(int, int), Seq<char>>,
    now: (int, int),
)
    ensures
        reservation_check(charge_point_id, connected, parsed, now) matches Ok(t) ==> connected
            && parsed == Ok::<(int, int), Seq<char>>(t) && (t.0 > now.0 || (t.0 == now.0 && t.1
            > now.1)),
        connected && parsed is Ok && (parsed->Ok_0.0 > now.0 || (parsed->Ok_0.0 == now.0
            && parsed->Ok_0.1 > now.1)) ==> reservation_check(
            charge_point_id,
            connected,
            parsed,
            now,
        ) == Ok::<(int, int), (u16, Seq<char>)>(parsed->Ok_0),
{
}

/// The charge point's reply accepts: it contains `Accepted`.
pub fn reply_accepted(status: &str) -> (r: bool)
    ensures
        r == contains_text(status@, "Accepted"@),
{
    text_contains(status, "Accepted")
}

/// The message given with a reply: the success text when accepted, else
/// the reply itself.
pub open spec fn reply_message(status: Seq<char>, success: Seq<char>) -> Seq<char> {
    if contains_text(status, "Accepted"@) {
        success
    } else {
        "Charge point responded: "@ + status
    }
}

fn reply_message_of(status: &str, success: &str) -> (r: String)
    ensures
        r@ == reply_message(status@, success@),
{
    if reply_accepted(status) {
        success.to_owned()
    } else {
        let mut m = "Charge point responded: ".to_owned();
        m.append(status);
        m
    }
}

impl CreateReservationResponse {
    /// The answer once the charge point replied `status` to reservation
    /// `reservation_id`.
    pub fn from_reply(reservation_id: i32, status: &str) -> (r: Self)
        ensures
            r.reservation_id == reservation_id,
            r.status@ == status@,
            r.message matches Some(m) && m@ == reply_message(
                status@,
                "Reservation created successfully"@,
            ),
    {
        let m = reply_message_of(status, "Reservation created successfully");
        CreateReservationResponse { reservation_id, status: status.to_owned(), message: Some(m) }
    }
}

/// The check made before a reservation is cancelled: it exists and is active.
pub open spec fn cancel_check(reservation_id: i32, found: Option<(bool, Seq<char>)>) -> Result<
    (),
    (u16, Seq<char>),
> {
    match found {
        None => Err((404, "Reservation "@ + signed_decimal(reservation_id as int) + " not found"@)),
        Some((active, status)) => if active {
            Ok(())
        } else {
            Err(
                (
                    400,
                    "Reservation "@ + signed_decimal(reservation_id as int)
                        + " is not active (status: "@ + status + ")"@,
                ),
            )
        },
    }
}

/// Decide whether reservation `reservation_id` may be cancelled, given what
/// was found under its id: nothing, or whether it is active and its status.
pub fn check_cancellable(reservation_id: i32, found: Option<(bool, String)>) -> (r: Result<
    (),
    ReservationError,
>)
    ensures
        match r {
            Ok(()) => cancel_check(
                reservation_id,
                match found {
                    Some((a, s)) => Some((a, s@)),
                    None => None,
                },
            ) == Ok::<(), (u16, Seq<char>)>(()),
            Err(e) => cancel_check(
                reservation_id,
                match found {
                    Some((a, s)) => Some((a, s@)),
                    None => None,
                },
            ) == Err::<(), (u16, Seq<char>)>(reservation_error_answer(e)),
        },
{
    match found {
        None => Err(ReservationError::NotFound(reservation_id)),
        Some((active, status)) => {
            if active {
                Ok(())
            } else {
                Err(ReservationError::NotActive(reservation_id, status))
            }
        },
    }
}

impl CancelReservationResponse {
    /// The answer to a cancellation: the charge point's reply, or `Accepted`
    /// when it is offline and the reservation is cancelled locally only.
    pub fn from_reply(reply: Option<&str>) -> (r: Self)
        ensures
            r.status@ == match reply {
                Some(s) => s@,
                None => "Accepted"@,
            },
            r.message matches Some(m) && m@ == reply_message(
                r.status@,
                "Reservation cancelled successfully"@,
            ),
    {
        let status: String = match reply {
            Some(s) => s.to_owned(),
            None => "Accepted".to_owned(),
        };
        let m = reply_message_of(status.as_str(), "Reservation cancelled successfully");
        CancelReservationResponse { status, message: Some(m) }
    }
}

/// What is stored of a reservation the charge point accepted.
pub struct ReservationRecord {
    pub id: i32,
    pub charge_point_id: String,
    pub connector_id: i32,
    pub id_tag: String,
    pub parent_id_tag: Option<String>,
    /// Expiry as seconds since the Unix epoch and nanoseconds.
    pub expiry: (i64, u32),
}

/// The optional text as a view.
pub open spec fn opt_text(v: Option<String>) -> Option<Seq<char>> {
    match v {
        Some(s) => Some(s@),
        None => None,
    }
}

/// After the charge point replied `status` to reservation `reservation_id`:
/// the answer, and the reservation to store, which there is only when the
/// reply contains `Accepted`.
pub fn reservation_after_reply(
    request: &CreateReservationRequest,
    reservation_id: i32,
    expiry: (i64, u32),
    status: &str,
) -> (r: (CreateReservationResponse, Option<ReservationRecord>))
    ensures
        r.0.reservation_id == reservation_id,
        r.0.status@ == status@,
        r.0.message matches Some(m) && m@ == reply_message(
            status@,
            "Reservation created successfully"@,
        ),
        r.1 is Some <==> contains_text(status@, "Accepted"@),
        r.1 matches Some(rec) ==> rec.id == reservation_id && rec.charge_point_id@
            == request.charge_point_id@ && rec.connector_id == request.connector_id
            && rec.id_tag@ == request.id_tag@ && opt_text(rec.parent_id_tag) == opt_text(
            request.parent_id_tag,
        ) && rec.expiry == expiry,
{
    let answer = CreateReservationResponse::from_reply(reservation_id, status);
    let record = if reply_accepted(status) {
        Some(
            ReservationRecord {
                id: reservation_id,
                charge_point_id: request.charge_point_id.clone(),
                connector_id: request.connector_id,
                id_tag: request.id_tag.clone(),
                parent_id_tag: request.parent_id_tag.clone(),
                expiry,
            },
        )
    } else {
        None
    };
    (answer, record)
}

/// After a cancellation was sent (`reply` the charge point's answer, `None`
/// when it is offline and the reservation is cancelled locally): the answer,
/// and the id of the reservation to mark cancelled, which there is only
/// when the status contains `Accepted`.
pub fn cancellation_after_reply(reservation_id: i32, reply: Option<&str>) -> (r: (
    CancelReservationResponse,
    Option<i32>,
))
    ensures
        r.0.status@ == match reply {
            Some(s) => s@,
            None => "Accepted"@,
        },
        r.0.message matches Some(m) && m@ == reply_message(
            r.0.status@,
            "Reservation cancelled successfully"@,
        ),
        r.1 == if contains_text(r.0.status@, "Accepted"@) {
            Some(reservation_id)
        } else {
            None
        },
{
    let answer = CancelReservationResponse::from_reply(reply);
    let cancel = if reply_accepted(answer.status.as_str()) {
        Some(reservation_id)
    } else {
        None
    };
    (answer, cancel)
}

} // verus!
