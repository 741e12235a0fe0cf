//! Charging profiles: the record kept of a profile the station accepted,
//! read from the profile's JSON, and which stored profiles a cleared
//! profile request deactivates.
use vstd::prelude::*;

use crate::commands::{command_outcome, opt_view as message_view, outcome_message, ClearChargingProfileRequest, CommandKind, CommandResponse};
use crate::reservations::{parse_rfc3339, rfc3339_instant};
use crate::text::{contains_text, text_eq};

verus! {

/// What is read of one member of a JSON object: its key, its value as an
/// `i64` and as a string (when it is one), and its JSON text.
pub struct JsonMember {
    pub key: String,
    pub as_i64: Option<i64>,
    pub as_str: Option<String>,
    pub json_text: String,
}

/// The abstract value of a member: key, integer reading, string reading,
/// JSON text.
pub type MemberView = (Seq<char>, Option<i64>, Option<Seq<char>>, Seq<char>);

impl View for JsonMember {
    type V = MemberView;

    open spec fn view(&self) -> MemberView {
        (
            self.key@,
            self.as_i64,
            match self.as_str {
                Some(s) => Some(s@),
                None => None,
            },
            self.json_text@,
        )
    }
}

/// The views of a list of members.
pub open spec fn members_view(ms: Seq<JsonMember>) -> Seq<MemberView> {
    ms.map_values(|m: JsonMember| m@)
}

/// The first member of `ms` with key `key` (`Value::get`).
pub open spec fn member(ms: Seq<MemberView>, key: Seq<char>) -> Option<MemberView>
    decreases ms.len(),
{
    if ms.len() == 0 {
        None
    } else if ms[0].0 == key {
        Some(ms[0])
    } else {
        member(ms.drop_first(), key)
    }
}

/// The member under `key`, or else under `alt` (`get(key).or_else(|| get(alt))`).
pub open spec fn either(ms: Seq<MemberView>, key: Seq<char>, alt: Seq<char>) -> Option<MemberView> {
    match member(ms, key) {
        Some(m) => Some(m),
        None => member(ms, alt),
    }
}

/// The integer under `key` or `alt`, 0 when absent or not an integer, cast to `i32`.
pub open spec fn int_field(ms: Seq<MemberView>, key: Seq<char>, alt: Seq<char>) -> i32 {
    (match either(ms, key, alt) {
        Some(m) => match m.1 {
            Some(v) => v,
            None => 0i64,
        },
        None => 0i64,
    }) as i32
}

/// The string under `key` or `alt`, when there is one.
pub open spec fn text_field(ms: Seq<MemberView>, key: Seq<char>, alt: Seq<char>) -> Option<Seq<char>> {
    match either(ms, key, alt) {
        Some(m) => m.2,
        None => None,
    }
}

/// The instant of the RFC 3339 string under `key` or `alt`, when it parses.
pub open spec fn time_field(ms: Seq<MemberView>, key: Seq<char>, alt: Seq<char>) -> Option<(int, int)> {
    match text_field(ms, key, alt) {
        Some(t) => match rfc3339_instant(t) {
            Ok(i) => Some(i),
            Err(_) => None,
        },
        None => None,
    }
}

/// The stored record of a charging profile the station accepted.
pub struct ChargingProfileRecord {
    /// 0 until the store assigns one.
    pub id: i32,
    pub charge_point_id: String,
    pub evse_id: i32,
    pub profile_id: i32,
    pub stack_level: i32,
    pub purpose: String,
    pub kind: String,
    pub recurrency_kind: Option<String>,
    /// Instants as seconds since the Unix epoch and nanoseconds.
    pub valid_from: Option<(i64, u32)>,
    pub valid_to: Option<(i64, u32)>,
    /// The schedule as JSON text.
    pub schedule_json: String,
    pub is_active: bool,
    pub created_at: i64,
    pub updated_at: i64,
}

/// An optional text as a view.
pub open spec fn opt_view(v: Option<String>) -> Option<Seq<char>> {
    match v {
        Some(s) => Some(s@),
        None => None,
    }
}

/// An optional instant as integers.
pub open spec fn opt_instant(v: Option<(i64, u32)>) -> Option<(int, int)> {
    match v {
        Some(t) => Some((t.0 as int, t.1 as int)),
        None => None,
    }
}

/// The record of an accepted profile: identification, stack level,
/// purpose (default `TxDefaultProfile`), kind (default `Absolute`),
/// recurrency, validity and schedule (default `[]`), each read under its
/// camel-case key or else its snake-case key, active, created and updated
/// at `now`.
pub open spec fn record_of(
    r: ChargingProfileRecord,
    charge_point_id: Seq<char>,
    evse_id: i32,
    ms: Seq<MemberView>,
    now: i64,
) -> bool {
    &&& r.id == 0
    &&& r.charge_point_id@ == charge_point_id
    &&& r.evse_id == evse_id
    &&& r.profile_id == int_field(ms, "chargingProfileId"@, "id"@)
    &&& r.stack_level == int_field(ms, "stackLevel"@, "stack_level"@)
    &&& r.purpose@ == match text_field(ms, "chargingProfilePurpose"@, "charging_profile_purpose"@) {
        Some(t) => t,
        None => "TxDefaultProfile"@,
    }
    &&& r.kind@ == match text_field(ms, "chargingProfileKind"@, "charging_profile_kind"@) {
        Some(t) => t,
        None => "Absolute"@,
    }
    &&& opt_view(r.recurrency_kind) == text_field(ms, "recurrencyKind"@, "recurrency_kind"@)
    &&& opt_instant(r.valid_from) == time_field(ms, "validFrom"@, "valid_from"@)
    &&& opt_instant(r.valid_to) == time_field(ms, "validTo"@, "valid_to"@)
    &&& r.schedule_json@ == match either(ms, "chargingSchedule"@, "charging_schedule"@) {
        Some(m) => m.3,
        None => "[]"@,
    }
    &&& r.is_active
    &&& r.created_at == now
    &&& r.updated_at == now
}

fn find_member<'a>(ms: &'a Vec<JsonMember>, key: &str) -> (r: Option<&'a JsonMember>)
    ensures
        match r {
            Some(m) => member(members_view(ms@), key@) == Some(m@),
            None => member(members_view(ms@), key@) is None,
        },
{
    let ghost v = members_view(ms@);
    let mut i: usize = 0;
    assert(v.skip(0) =~= v);
    while i < ms.len()
        invariant
            i <= ms@.len(),
            v == members_view(ms@),
            member(v, key@) == member(v.skip(i as int), key@),
        decreases ms@.len() - i,
    {
        let ghost rest = v.skip(i as int);
        assert(rest[0] == ms@[i as int]@);
        assert(rest.drop_first() =~= v.skip(i + 1));
        if text_eq(ms[i].key.as_str(), key) {
            return Some(&ms[i]);
        }
        i = i + 1;
    }
    assert(v.skip(i as int).len() == 0);
    None
}

fn find_either<'a>(ms: &'a Vec<JsonMember>, key: &str, alt: &str) -> (r: Option<&'a JsonMember>)
    ensures
        match r {
            Some(m) => either(members_view(ms@), key@, alt@) == Some(m@),
            None => either(members_view(ms@), key@, alt@) is None,
        },
{
    match find_member(ms, key) {
        Some(m) => Some(m),
        None => find_member(ms, alt),
    }
}

fn read_int(ms: &Vec<JsonMember>, key: &str, alt: &str) -> (r: i32)
    ensures
        r == int_field(members_view(ms@), key@, alt@),
{
    let v: i64 = match find_either(ms, key, alt) {
        Some(m) => match m.as_i64 {
            Some(v) => v,
            None => 0,
        },
        None => 0,
    };
    v as i32
}

fn read_text(ms: &Vec<JsonMember>, key: &str, alt: &str) -> (r: Option<String>)
    ensures
        opt_view(r) == text_field(members_view(ms@), key@, alt@),
{
    match find_either(ms, key, alt) {
        Some(m) => match &m.as_str {
            Some(s) => Some(s.clone()),
            None => None,
        },
        None => None,
    }
}

fn read_time(ms: &Vec<JsonMember>, key: &str, alt: &str) -> (r: Option<(i64, u32)>)
    ensures
        opt_instant(r) == time_field(members_view(ms@), key@, alt@),
{
    match read_text(ms, key, alt) {
        Some(t) => match parse_rfc3339(t.as_str()) {
            Ok(i) => Some(i),
            Err(_) => None,
        },
        None => None,
    }
}

/// The record of a profile accepted for `evse_id` of a charge point, read
/// from the members of the profile's JSON object.
pub fn profile_record(
    charge_point_id: &str,
    evse_id: i32,
    members: &Vec<JsonMember>,
    now: i64,
) -> (r: ChargingProfileRecord)
    ensures
        record_of(r, charge_point_id@, evse_id, members_view(members@), now),
{
    let purpose = match read_text(members, "chargingProfilePurpose", "charging_profile_purpose") {
        Some(t) => t,
        None => "TxDefaultProfile".to_owned(),
    };
    let kind = match read_text(members, "chargingProfileKind", "charging_profile_kind") {
        Some(t) => t,
        None => "Absolute".to_owned(),
    };
    let schedule_json = match find_either(members, "chargingSchedule", "charging_schedule") {
        Some(m) => m.json_text.clone(),
        None => "[]".to_owned(),
    };
    ChargingProfileRecord {
        id: 0,
        charge_point_id: charge_point_id.to_owned(),
        evse_id,
        profile_id: read_int(members, "chargingProfileId", "id"),
        stack_level: read_int(members, "stackLevel", "stack_level"),
        purpose,
        kind,
        recurrency_kind: read_text(members, "recurrencyKind", "recurrency_kind"),
        valid_from: read_time(members, "validFrom", "valid_from"),
        valid_to: read_time(members, "validTo", "valid_to"),
        schedule_json,
        is_active: true,
        created_at: now,
        updated_at: now,
    }
}

/// The members of a JSON value in the order `serde_json` keeps them when it
/// is an object (none otherwise), each read with `Value::as_i64`,
/// `Value::as_str` and `Value::to_string`.
pub uninterp spec fn json_object_members(v: serde_json::Value) -> Seq<MemberView>;

/// `Value::as_object`, then each member's key, `as_i64`, `as_str` and
/// `to_string`. The result is named.
#[verifier::external_body]
fn object_members(profile: &serde_json::Value) -> (r: Vec<JsonMember>)
    ensures
        members_view(r@) == json_object_members(*profile),
{
    let mut out = Vec::new();
    if let Some(map) = profile.as_object() {
        for (key, v) in map {
            out.push(JsonMember { key: key.clone(), as_i64: v.as_i64(), as_str: v.as_str().map(String::from), json_text: v.to_string() });
        }
    }
    out
}

/// The record of a profile accepted for `evse_id` of a charge point, read
/// from the members of the profile's JSON object.
pub fn accepted_profile_record(
    charge_point_id: &str,
    evse_id: i32,
    profile: &serde_json::Value,
    now: i64,
) -> (r: ChargingProfileRecord)
    ensures
        record_of(r, charge_point_id@, evse_id, json_object_members(*profile), now),
{
    let members = object_members(profile);
    profile_record(charge_point_id, evse_id, &members, now)
}

/// Which stored profiles a cleared-profile request deactivates.
pub enum ProfileDeactivation {
    /// None: the station did not accept.
    Nothing,
    /// The profile with this id.
    ById(i32),
    /// The profiles matching the request's criteria.
    ByCriteria { evse_id: Option<i32>, purpose: Option<String>, stack_level: Option<i32> },
}

/// Decide the deactivation after the station replied `status` to a clear
/// request: by profile id when the request names one, else by its criteria;
/// nothing unless the reply contains `Accepted`.
pub fn profile_deactivation(request: &ClearChargingProfileRequest, status: &str) -> (r:
    ProfileDeactivation)
    ensures
        !contains_text(status@, "Accepted"@) ==> r is Nothing,
        contains_text(status@, "Accepted"@) ==> match request.charging_profile_id {
            Some(id) => r == ProfileDeactivation::ById(id),
            None => r matches ProfileDeactivation::ByCriteria { evse_id, purpose, stack_level }
                && evse_id == request.evse_id && opt_view(purpose) == opt_view(
                request.charging_profile_purpose,
            ) && stack_level == request.stack_level,
        },
{
    if !crate::text::text_contains(status, "Accepted") {
        return ProfileDeactivation::Nothing;
    }
    match request.charging_profile_id {
        Some(id) => ProfileDeactivation::ById(id),
        None => ProfileDeactivation::ByCriteria {
            evse_id: request.evse_id,
            purpose: request.charging_profile_purpose.clone(),
            stack_level: request.stack_level,
        },
    }
}

/// After the station replied `status` to a profile for `evse_id`: the
/// answer, and the record to store, which there is only when the reply
/// contains `Accepted`.
pub fn profile_after_reply(
    charge_point_id: &str,
    evse_id: i32,
    profile: &serde_json::Value,
    status: String,
    now: i64,
) -> (r: (CommandResponse, Option<ChargingProfileRecord>))
    ensures
        r.0.status@ == status@,
        message_view(r.0.message) == Some(outcome_message(CommandKind::SetChargingProfile, status@)),
        r.1 is Some <==> contains_text(status@, "Accepted"@),
        r.1 matches Some(rec) ==> record_of(
            rec,
            charge_point_id@,
            evse_id,
            json_object_members(*profile),
            now,
        ),
{
    let accepted = crate::text::text_contains(status.as_str(), "Accepted");
    let record = if accepted {
        Some(accepted_profile_record(charge_point_id, evse_id, profile, now))
    } else {
        None
    };
    (command_outcome(CommandKind::SetChargingProfile, status), record)
}

} // verus!
