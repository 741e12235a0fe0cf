use texnouz_csms::reservations::{
    check_cancellable, check_parsed_reservation, check_reservation, reply_accepted,
    CancelReservationResponse, CreateReservationRequest, CreateReservationResponse,
    ReservationError,
};

fn request(expiry: &str) -> CreateReservationRequest {
    CreateReservationRequest {
        charge_point_id: "CP1".to_string(),
        connector_id: 0,
        id_tag: "TAG".to_string(),
        parent_id_tag: None,
        expiry_date: expiry.to_string(),
    }
}

// 2030-01-01T00:00:00Z
const Y2030: i64 = 1_893_456_000;

#[test]
fn reservation_needs_a_connection() {
    let e = check_reservation(&request("2030-01-01T00:00:00Z"), false, 0, 0).unwrap_err();
    assert!(matches!(e, ReservationError::NotConnected(_)));
    assert_eq!(e.status_code(), 404);
    assert_eq!(e.message(), "Charge point 'CP1' is not connected");
}

#[test]
fn reservation_expiry_is_parsed_as_rfc3339() {
    assert_eq!(check_reservation(&request("2030-01-01T00:00:00Z"), true, 0, 0).ok(), Some((Y2030, 0)));
    assert_eq!(
        check_reservation(&request("2030-01-01T05:00:00+05:00"), true, 0, 0).ok(),
        Some((Y2030, 0))
    );
    assert_eq!(
        check_reservation(&request("2030-01-01T00:00:00.25Z"), true, 0, 0).ok(),
        Some((Y2030, 250_000_000))
    );
    let e = check_reservation(&request("tomorrow"), true, 0, 0).unwrap_err();
    assert!(matches!(e, ReservationError::InvalidExpiry(_)));
    assert_eq!(e.status_code(), 400);
    assert!(e.message().starts_with("Invalid expiry_date: "));
}

#[test]
fn reservation_expiry_must_be_in_the_future() {
    let e = check_reservation(&request("2030-01-01T00:00:00Z"), true, Y2030, 0).unwrap_err();
    assert!(matches!(e, ReservationError::ExpiryNotInFuture));
    assert_eq!(e.message(), "expiry_date must be in the future");
    assert!(check_parsed_reservation("CP1", true, Ok((Y2030, 1)), Y2030, 0).is_ok());
    assert!(check_parsed_reservation("CP1", true, Ok((Y2030, 0)), Y2030, 1).is_err());
    let e = check_parsed_reservation("CP1", true, Err("bad".to_string()), 0, 0).unwrap_err();
    assert_eq!(e.message(), "Invalid expiry_date: bad");
}

#[test]
fn reservation_answers() {
    assert!(reply_accepted("Accepted"));
    assert!(!reply_accepted("Occupied"));
    let r = CreateReservationResponse::from_reply(12, "Accepted");
    assert_eq!(r.reservation_id, 12);
    assert_eq!(r.message.as_deref(), Some("Reservation created successfully"));
    let r = CreateReservationResponse::from_reply(12, "Occupied");
    assert_eq!(r.status, "Occupied");
    assert_eq!(r.message.as_deref(), Some("Charge point responded: Occupied"));
}

#[test]
fn cancellation() {
    let e = check_cancellable(-3, None).unwrap_err();
    assert_eq!(e.status_code(), 404);
    assert_eq!(e.message(), "Reservation -3 not found");
    let e = check_cancellable(7, Some((false, "Cancelled".to_string()))).unwrap_err();
    assert_eq!(e.status_code(), 400);
    assert_eq!(e.message(), "Reservation 7 is not active (status: Cancelled)");
    assert!(check_cancellable(7, Some((true, "Accepted".to_string()))).is_ok());
    let offline = CancelReservationResponse::from_reply(None);
    assert_eq!(offline.status, "Accepted");
    assert_eq!(offline.message.as_deref(), Some("Reservation cancelled successfully"));
    let refused = CancelReservationResponse::from_reply(Some("Rejected"));
    assert_eq!(refused.message.as_deref(), Some("Charge point responded: Rejected"));
}
