//! Remote commands sent to charge points: request validation, the mapping
//! of request texts to command parameters, and the answers.
use vstd::prelude::*;

use crate::text::{contains_text, lowercase_of, text_contains, text_eq, to_lower};
use crate::validation::{
    check_length, check_range, count_rule, errors_view, length_rule, range_rule, FieldError,
    FieldErrorView, NestedOutcome,
};

verus! {

/// The answer to a remote command.
pub struct CommandResponse {
    pub status: String,
    pub message: Option<String>,
}

/// The optional message as a text view.
pub open spec fn opt_view(m: Option<String>) -> Option<Seq<char>> {
    match m {
        Some(s) => Some(s@),
        None => None,
    }
}

impl CommandResponse {
    /// The command was sent and accepted.
    pub fn accepted() -> (r: Self)
        ensures
            r.status@ == "Accepted"@,
            opt_view(r.message) == Some("Command sent successfully"@),
    {
        CommandResponse {
            status: "Accepted".to_owned(),
            message: Some("Command sent successfully".to_owned()),
        }
    }

    /// The command was rejected for `reason`.
    pub fn rejected(reason: &str) -> (r: Self)
        ensures
            r.status@ == "Rejected"@,
            opt_view(r.message) == Some(reason@),
    {
        CommandResponse { status: "Rejected".to_owned(), message: Some(reason.to_owned()) }
    }

    /// The status the charge point answered, without a message.
    pub fn from_status(status: &str) -> (r: Self)
        ensures
            r.status@ == status@,
            r.message is None,
    {
        CommandResponse { status: status.to_owned(), message: None }
    }
}

/// The kinds of remote commands whose answer carries a message chosen from
/// the charge point's status.
#[derive(Clone, Copy, Debug, PartialEq, Eq, Structural)]
pub enum CommandKind {
    RemoteStart,
    RemoteStop,
    Reset,
    UnlockConnector,
    ChangeAvailability,
    TriggerMessage,
    SendLocalList,
    ClearChargingProfile,
    SetChargingProfile,
}

/// The message answered for a command kind and the charge point's status.
pub open spec fn outcome_message(kind: CommandKind, status: Seq<char>) -> Seq<char> {
    let accepted = contains_text(status, "Accepted"@);
    match kind {
        CommandKind::RemoteStart => if accepted {
            "Remote start accepted"@
        } else {
            "Remote start rejected by charge point"@
        },
        CommandKind::RemoteStop => if accepted {
            "Remote stop accepted"@
        } else {
            "Remote stop rejected by charge point"@
        },
        CommandKind::Reset => if accepted {
            "Reset accepted"@
        } else {
            "Reset rejected by charge point"@
        },
        CommandKind::UnlockConnector => if contains_text(status, "Unlocked"@) {
            "Connector unlocked"@
        } else {
            "Unlock failed"@
        },
        CommandKind::ChangeAvailability => if accepted {
            "Availability changed"@
        } else if contains_text(status, "Scheduled"@) {
            "Availability change scheduled"@
        } else {
            "Availability change rejected"@
        },
        CommandKind::TriggerMessage => if accepted {
            "Trigger message accepted"@
        } else if contains_text(status, "NotImplemented"@) {
            "Not implemented by charge point"@
        } else {
            "Trigger message rejected"@
        },
        CommandKind::SendLocalList => if accepted {
            "Local authorization list updated"@
        } else {
            "Local list update failed or not supported"@
        },
        CommandKind::ClearChargingProfile => if accepted {
            "Charging profile(s) cleared"@
        } else {
            "No matching charging profiles found"@
        },
        CommandKind::SetChargingProfile => if accepted {
            "Charging profile set"@
        } else {
            "Charging profile rejected by station"@
        },
    }
}

/// The answer to a command: the charge point's status and the message for it.
pub fn command_outcome(kind: CommandKind, status: String) -> (r: CommandResponse)
    ensures
        r.status@ == status@,
        opt_view(r.message) == Some(outcome_message(kind, status@)),
{
    let accepted = text_contains(status.as_str(), "Accepted");
    let message = match kind {
        CommandKind::RemoteStart => if accepted {
            "Remote start accepted"
        } else {
            "Remote start rejected by charge point"
        },
        CommandKind::RemoteStop => if accepted {
            "Remote stop accepted"
        } else {
            "Remote stop rejected by charge point"
        },
        CommandKind::Reset => if accepted {
            "Reset accepted"
        } else {
            "Reset rejected by charge point"
        },
        CommandKind::UnlockConnector => if text_contains(status.as_str(), "Unlocked") {
            "Connector unlocked"
        } else {
            "Unlock failed"
        },
        CommandKind::ChangeAvailability => if accepted {
            "Availability changed"
        } else if text_contains(status.as_str(), "Scheduled") {
            "Availability change scheduled"
        } else {
            "Availability change rejected"
        },
        CommandKind::TriggerMessage => if accepted {
            "Trigger message accepted"
        } else if text_contains(status.as_str(), "NotImplemented") {
            "Not implemented by charge point"
        } else {
            "Trigger message rejected"
        },
        CommandKind::SendLocalList => if accepted {
            "Local authorization list updated"
        } else {
            "Local list update failed or not supported"
        },
        CommandKind::ClearChargingProfile => if accepted {
            "Charging profile(s) cleared"
        } else {
            "No matching charging profiles found"
        },
        CommandKind::SetChargingProfile => if accepted {
            "Charging profile set"
        } else {
            "Charging profile rejected by station"
        },
    };
    CommandResponse { status, message: Some(message.to_owned()) }
}

/// Reset kinds.
#[derive(Clone, Copy, Debug, PartialEq, Eq, Structural)]
pub enum ResetKind {
    Hard,
    Soft,
}

/// Availability kinds.
#[derive(Clone, Copy, Debug, PartialEq, Eq, Structural)]
pub enum Availability {
    Operative,
    Inoperative,
}

/// Messages a charge point can be asked to send.
#[derive(Clone, Copy, Debug, PartialEq, Eq, Structural)]
pub enum TriggerType {
    BootNotification,
    DiagnosticsStatusNotification,
    FirmwareStatusNotification,
    Heartbeat,
    MeterValues,
    StatusNotification,
}

/// The reset kind a request text names: `hard` in any case, else soft.
pub fn parse_reset_kind(s: &str) -> (r: ResetKind)
    ensures
        r == if lowercase_of(s@) == "hard"@ {
            ResetKind::Hard
        } else {
            ResetKind::Soft
        },
{
    let l = to_lower(s);
    if text_eq(l.as_str(), "hard") {
        ResetKind::Hard
    } else {
        ResetKind::Soft
    }
}

/// The availability a request text names: `inoperative` in any case, else operative.
pub fn parse_availability(s: &str) -> (r: Availability)
    ensures
        r == if lowercase_of(s@) == "inoperative"@ {
            Availability::Inoperative
        } else {
            Availability::Operative
        },
{
    let l = to_lower(s);
    if text_eq(l.as_str(), "inoperative") {
        Availability::Inoperative
    } else {
        Availability::Operative
    }
}

/// The message type a trigger request names, compared in lowercase.
pub open spec fn trigger_of(lower: Seq<char>) -> Option<TriggerType> {
    if lower == "bootnotification"@ {
        Some(TriggerType::BootNotification)
    } else if lower == "diagnosticsstatusnotification"@ {
        Some(TriggerType::DiagnosticsStatusNotification)
    } else if lower == "firmwarestatusnotification"@ {
        Some(TriggerType::FirmwareStatusNotification)
    } else if lower == "heartbeat"@ {
        Some(TriggerType::Heartbeat)
    } else if lower == "metervalues"@ {
        Some(TriggerType::MeterValues)
    } else if lower == "statusnotification"@ {
        Some(TriggerType::StatusNotification)
    } else {
        None
    }
}

/// The lowercase name of each message type, as a trigger request writes it.
pub open spec fn trigger_name(t: TriggerType) -> Seq<char> {
    match t {
        TriggerType::BootNotification => "bootnotification"@,
        TriggerType::DiagnosticsStatusNotification => "diagnosticsstatusnotification"@,
        TriggerType::FirmwareStatusNotification => "firmwarestatusnotification"@,
        TriggerType::Heartbeat => "heartbeat"@,
        TriggerType::MeterValues => "metervalues"@,
        TriggerType::StatusNotification => "statusnotification"@,
    }
}

proof fn lemma_trigger_names_distinct()
    ensures
        forall|a: TriggerType, b: TriggerType| #[trigger] trigger_name(a) == #[trigger] trigger_name(b)
            ==> a == b,
{
    reveal_strlit("bootnotification");
    reveal_strlit("diagnosticsstatusnotification");
    reveal_strlit("firmwarestatusnotification");
    reveal_strlit("heartbeat");
    reveal_strlit("metervalues");
    reveal_strlit("statusnotification");
    assert forall|a: TriggerType, b: TriggerType| #[trigger] trigger_name(a) == #[trigger] trigger_name(b)
        implies a == b by {
        if a != b {
            assert(trigger_name(a).len() != trigger_name(b).len());
        }
    }
}

/// Each message type's own name yields that message type, and a name
/// yields a message type only if it is that type's name.
pub proof fn law_trigger_names_round_trip(t: TriggerType, lower: Seq<char>)
    ensures
        trigger_of(trigger_name(t)) == Some(t),
        trigger_of(lower) == Some(t) ==> lower == trigger_name(t),
{
    lemma_trigger_names_distinct();
    assert(trigger_name(TriggerType::BootNotification) == "bootnotification"@);
    assert(trigger_name(TriggerType::DiagnosticsStatusNotification)
        == "diagnosticsstatusnotification"@);
    assert(trigger_name(TriggerType::FirmwareStatusNotification) == "firmwarestatusnotification"@);
    assert(trigger_name(TriggerType::Heartbeat) == "heartbeat"@);
    assert(trigger_name(TriggerType::MeterValues) == "metervalues"@);
    assert(trigger_name(TriggerType::StatusNotification) == "statusnotification"@);
}

/// No two different names yield the same message type.
pub proof fn law_trigger_names_distinct(a: Seq<char>, b: Seq<char>)
    ensures
        trigger_of(a) is Some && trigger_of(a) == trigger_of(b) ==> a == b,
{
    if trigger_of(a) is Some && trigger_of(a) == trigger_of(b) {
        let t = trigger_of(a)->Some_0;
        law_trigger_names_round_trip(t, a);
        law_trigger_names_round_trip(t, b);
    }
}

/// The message type a trigger request names; `None` for an unknown one.
pub fn parse_trigger_type(s: &str) -> (r: Option<TriggerType>)
    ensures
        r == trigger_of(lowercase_of(s@)),
        r matches Some(t) ==> lowercase_of(s@) == trigger_name(t),
{
    let l = to_lower(s);
    let l = l.as_str();
    if text_eq(l, "bootnotification") {
        Some(TriggerType::BootNotification)
    } else if text_eq(l, "diagnosticsstatusnotification") {
        Some(TriggerType::DiagnosticsStatusNotification)
    } else if text_eq(l, "firmwarestatusnotification") {
        Some(TriggerType::FirmwareStatusNotification)
    } else if text_eq(l, "heartbeat") {
        Some(TriggerType::Heartbeat)
    } else if text_eq(l, "metervalues") {
        Some(TriggerType::MeterValues)
    } else if text_eq(l, "statusnotification") {
        Some(TriggerType::StatusNotification)
    } else {
        None
    }
}

/// Whether a local-list update type is `Full` or `Differential`, in any case.
pub fn is_valid_update_type(s: &str) -> (r: bool)
    ensures
        r == (lowercase_of(s@) == "full"@ || lowercase_of(s@) == "differential"@),
{
    let l = to_lower(s);
    text_eq(l.as_str(), "full") || text_eq(l.as_str(), "differential")
}

/// The keys of a configuration query: the comma-separated entries, trimmed.
pub fn configuration_keys(keys: Option<&str>) -> (r: Option<Vec<String>>)
    ensures
        match keys {
            Some(k) => r matches Some(v) && v@.map_values(|s: String| s@)
                == crate::text::comma_fields(k@),
            None => r is None,
        },
{
    match keys {
        Some(k) => Some(crate::text::split_comma_trim(k)),
        None => None,
    }
}

// ── Request bodies ─────────────────────────────────────────────

/// RemoteStop request body.
pub struct RemoteStopRequest {
    pub transaction_id: i32,
}

/// Reset request body.
pub struct ResetRequest {
    pub reset_type: String,
}

/// UnlockConnector request body.
pub struct UnlockConnectorRequest {
    pub connector_id: u32,
}

/// ChangeAvailability request body.
pub struct ChangeAvailabilityRequest {
    pub connector_id: u32,
    pub availability_type: String,
}

/// TriggerMessage request body.
pub struct TriggerMessageRequest {
    pub message: String,
    pub connector_id: Option<u32>,
}

/// ChangeConfiguration request body.
pub struct ChangeConfigurationRequest {
    pub key: String,
    pub value: String,
}

/// DataTransfer request body.
pub struct DataTransferRequest {
    pub vendor_id: String,
    pub message_id: Option<String>,
    pub data: Option<String>,
}

/// DataTransfer response.
pub struct DataTransferResponse {
    pub status: String,
    pub data: Option<String>,
}

/// GetLocalListVersion response.
pub struct LocalListVersionResponse {
    pub list_version: i32,
}

/// A single authorization entry to add to the local list.
pub struct AuthorizationEntryDto {
    pub id_tag: String,
    pub status: Option<String>,
    pub expiry_date: Option<String>,
    pub parent_id_tag: Option<String>,
}

/// SendLocalList request body.
pub struct SendLocalListRequest {
    pub list_version: i32,
    pub update_type: String,
    pub local_authorization_list: Option<Vec<AuthorizationEntryDto>>,
}

/// SendLocalList response.
pub struct SendLocalListResponse {
    pub status: String,
    pub message: Option<String>,
}

/// A single variable to query — (component, variable) pair.
pub struct VariableSelector {
    pub component: String,
    pub variable: String,
}

/// GetVariables request body.
pub struct GetVariablesRequest {
    pub variables: Vec<VariableSelector>,
}

/// A single variable result from GetVariables.
pub struct VariableResultDto {
    pub component: String,
    pub variable: String,
    pub status: String,
    pub value: Option<String>,
}

/// GetVariables response.
pub struct GetVariablesResponse {
    pub results: Vec<VariableResultDto>,
}

/// A single variable to set — (component, variable, value) triple.
pub struct VariableAssignment {
    pub component: String,
    pub variable: String,
    pub value: String,
}

/// SetVariables request body.
pub struct SetVariablesRequest {
    pub variables: Vec<VariableAssignment>,
}

/// A single set-variable result.
pub struct SetVariableStatusDto {
    pub component: String,
    pub variable: String,
    pub status: String,
}

/// SetVariables response.
pub struct SetVariablesResponse {
    pub results: Vec<SetVariableStatusDto>,
}

/// ClearChargingProfile request body.
pub struct ClearChargingProfileRequest {
    pub charging_profile_id: Option<i32>,
    pub evse_id: Option<i32>,
    pub charging_profile_purpose: Option<String>,
    pub stack_level: Option<i32>,
}

/// Query params for GetConfiguration.
pub struct ConfigurationParams {
    pub keys: Option<String>,
}

/// Single configuration key-value.
pub struct ConfigValue {
    pub key: String,
    pub value: Option<String>,
    pub readonly: bool,
}

/// GetConfiguration response.
pub struct ConfigurationResponse {
    pub configuration: Vec<ConfigValue>,
    pub unknown_keys: Vec<String>,
}

impl RemoteStopRequest {
    /// The field rules: `transaction_id` positive.
    pub fn validate(&self) -> (r: Vec<FieldError>)
        ensures
            errors_view(r@) == range_rule(
                "transaction_id"@,
                self.transaction_id as int,
                1,
                None,
                "transaction_id must be positive"@,
            ),
    {
        let mut e = Vec::new();
        assert(errors_view(e@) =~= Seq::<FieldErrorView>::empty());
        check_range(&mut e, "transaction_id", self.transaction_id as i64, 1, None, "transaction_id must be positive");
        e
    }
}

impl ResetRequest {
    /// The field rules: a reset type is given.
    pub fn validate(&self) -> (r: Vec<FieldError>)
        ensures
            errors_view(r@) == length_rule("type"@, self.reset_type@, 1, None, "reset type is required"@),
    {
        let mut e = Vec::new();
        assert(errors_view(e@) =~= Seq::<FieldErrorView>::empty());
        check_length(&mut e, "type", self.reset_type.as_str(), 1, None, "reset type is required");
        e
    }
}

impl UnlockConnectorRequest {
    /// The field rules: `connector_id` at least 1.
    pub fn validate(&self) -> (r: Vec<FieldError>)
        ensures
            errors_view(r@) == range_rule(
                "connector_id"@,
                self.connector_id as int,
                1,
                None,
                "connector_id must be ≥ 1"@,
            ),
    {
        let mut e = Vec::new();
        assert(errors_view(e@) =~= Seq::<FieldErrorView>::empty());
        check_range(&mut e, "connector_id", self.connector_id as i64, 1, None, "connector_id must be ≥ 1");
        e
    }
}

impl ChangeAvailabilityRequest {
    /// The field rules: an availability type is given.
    pub fn validate(&self) -> (r: Vec<FieldError>)
        ensures
            errors_view(r@) == length_rule(
                "type"@,
                self.availability_type@,
                1,
                None,
                "availability type is required"@,
            ),
    {
        let mut e = Vec::new();
        assert(errors_view(e@) =~= Seq::<FieldErrorView>::empty());
        check_length(&mut e, "type", self.availability_type.as_str(), 1, None, "availability type is required");
        e
    }
}

impl TriggerMessageRequest {
    /// The field rules: a message type is given.
    pub fn validate(&self) -> (r: Vec<FieldError>)
        ensures
            errors_view(r@) == length_rule("message"@, self.message@, 1, None, "message type is required"@),
    {
        let mut e = Vec::new();
        assert(errors_view(e@) =~= Seq::<FieldErrorView>::empty());
        check_length(&mut e, "message", self.message.as_str(), 1, None, "message type is required");
        e
    }
}

impl ChangeConfigurationRequest {
    /// The field rules: a key of 1 to 500 characters.
    pub fn validate(&self) -> (r: Vec<FieldError>)
        ensures
            errors_view(r@) == length_rule("key"@, self.key@, 1, Some(500), "key is required"@),
    {
        let mut e = Vec::new();
        assert(errors_view(e@) =~= Seq::<FieldErrorView>::empty());
        check_length(&mut e, "key", self.key.as_str(), 1, Some(500), "key is required");
        e
    }
}

impl DataTransferRequest {
    /// The field rules: a vendor id of 1 to 255 characters.
    pub fn validate(&self) -> (r: Vec<FieldError>)
        ensures
            errors_view(r@) == length_rule("vendor_id"@, self.vendor_id@, 1, Some(255), "vendor_id is required"@),
    {
        let mut e = Vec::new();
        assert(errors_view(e@) =~= Seq::<FieldErrorView>::empty());
        check_length(&mut e, "vendor_id", self.vendor_id.as_str(), 1, Some(255), "vendor_id is required");
        e
    }
}

impl AuthorizationEntryDto {
    /// The field rules: an id tag of 1 to 36 characters.
    pub fn validate(&self) -> (r: Vec<FieldError>)
        ensures
            errors_view(r@) == length_rule("id_tag"@, self.id_tag@, 1, Some(36), "id_tag is required"@),
    {
        let mut e = Vec::new();
        assert(errors_view(e@) =~= Seq::<FieldErrorView>::empty());
        check_length(&mut e, "id_tag", self.id_tag.as_str(), 1, Some(36), "id_tag is required");
        e
    }
}

impl VariableSelector {
    /// The field rules: component and variable names are given.
    pub fn validate(&self) -> (r: Vec<FieldError>)
        ensures
            errors_view(r@) == length_rule("component"@, self.component@, 1, None, "component name is required"@)
                + length_rule("variable"@, self.variable@, 1, None, "variable name is required"@),
    {
        let mut e = Vec::new();
        assert(errors_view(e@) =~= Seq::<FieldErrorView>::empty());
        check_length(&mut e, "component", self.component.as_str(), 1, None, "component name is required");
        check_length(&mut e, "variable", self.variable.as_str(), 1, None, "variable name is required");
        e
    }
}

impl VariableAssignment {
    /// The field rules: component and variable names are given.
    pub fn validate(&self) -> (r: Vec<FieldError>)
        ensures
            errors_view(r@) == length_rule("component"@, self.component@, 1, None, "component name is required"@)
                + length_rule("variable"@, self.variable@, 1, None, "variable name is required"@),
    {
        let mut e = Vec::new();
        assert(errors_view(e@) =~= Seq::<FieldErrorView>::empty());
        check_length(&mut e, "component", self.component.as_str(), 1, None, "component name is required");
        check_length(&mut e, "variable", self.variable.as_str(), 1, None, "variable name is required");
        e
    }
}

/// Both names of a variable selector or assignment are given.
pub open spec fn names_given(component: Seq<char>, variable: Seq<char>) -> bool {
    component.len() >= 1 && variable.len() >= 1
}

/// Every selector of the list names a component and a variable.
pub open spec fn selectors_ok(items: Seq<VariableSelector>) -> bool {
    forall|i: int| 0 <= i < items.len() ==> names_given(#[trigger] items[i].component@, items[i].variable@)
}

/// Every assignment of the list names a component and a variable.
pub open spec fn assignments_ok(items: Seq<VariableAssignment>) -> bool {
    forall|i: int| 0 <= i < items.len() ==> names_given(#[trigger] items[i].component@, items[i].variable@)
}

/// Every entry of the list has an id tag of 1 to 36 characters.
pub open spec fn entries_ok(items: Seq<AuthorizationEntryDto>) -> bool {
    forall|i: int| 0 <= i < items.len() ==> 1 <= (#[trigger] items[i].id_tag@).len() <= 36
}

fn all_selectors_ok(items: &Vec<VariableSelector>) -> (r: bool)
    ensures
        r == selectors_ok(items@),
{
    let mut i: usize = 0;
    while i < items.len()
        invariant
            i <= items@.len(),
            selectors_ok(items@.take(i as int)),
        decreases items@.len() - i,
    {
        let ok = items[i].component.unicode_len() >= 1 && items[i].variable.unicode_len() >= 1;
        if !ok {
            assert(!names_given(items@[i as int].component@, items@[i as int].variable@));
            return false;
        }
        proof {
            assert forall|j: int| 0 <= j < i + 1 implies names_given(
                #[trigger] items@.take(i + 1)[j].component@,
                items@.take(i + 1)[j].variable@,
            ) by {
                if j < i {
                    assert(items@.take(i as int)[j] == items@.take(i + 1)[j]);
                }
            }
        }
        i = i + 1;
    }
    assert(items@.take(i as int) =~= items@);
    true
}

fn all_assignments_ok(items: &Vec<VariableAssignment>) -> (r: bool)
    ensures
        r == assignments_ok(items@),
{
    let mut i: usize = 0;
    while i < items.len()
        invariant
            i <= items@.len(),
            assignments_ok(items@.take(i as int)),
        decreases items@.len() - i,
    {
        let ok = items[i].component.unicode_len() >= 1 && items[i].variable.unicode_len() >= 1;
        if !ok {
            assert(!names_given(items@[i as int].component@, items@[i as int].variable@));
            return false;
        }
        proof {
            assert forall|j: int| 0 <= j < i + 1 implies names_given(
                #[trigger] items@.take(i + 1)[j].component@,
                items@.take(i + 1)[j].variable@,
            ) by {
                if j < i {
                    assert(items@.take(i as int)[j] == items@.take(i + 1)[j]);
                }
            }
        }
        i = i + 1;
    }
    assert(items@.take(i as int) =~= items@);
    true
}

fn all_entries_ok(items: &Vec<AuthorizationEntryDto>) -> (r: bool)
    ensures
        r == entries_ok(items@),
{
    let mut i: usize = 0;
    while i < items.len()
        invariant
            i <= items@.len(),
            entries_ok(items@.take(i as int)),
        decreases items@.len() - i,
    {
        let n = items[i].id_tag.unicode_len();
        if n < 1 || n > 36 {
            return false;
        }
        proof {
            assert forall|j: int| 0 <= j < i + 1 implies 1 <= (
            #[trigger] items@.take(i + 1)[j].id_tag@).len() <= 36 by {
                if j < i {
                    assert(items@.take(i as int)[j] == items@.take(i + 1)[j]);
                }
            }
        }
        i = i + 1;
    }
    assert(items@.take(i as int) =~= items@);
    true
}

impl GetVariablesRequest {
    /// The field rules: at least one selector, and each selector names a
    /// component and a variable.
    pub fn validate(&self) -> (r: NestedOutcome)
        ensures
            errors_view(r.field_errors@) == count_rule(
                "variables"@,
                self.variables@.len(),
                1,
                "at least one variable selector is required"@,
            ),
            r.nested_ok == selectors_ok(self.variables@),
    {
        let mut e = Vec::new();
        if self.variables.len() < 1 {
            e.push(
                FieldError {
                    field: "variables".to_owned(),
                    message: "at least one variable selector is required".to_owned(),
                },
            );
        }
        proof {
            assert(errors_view(e@) =~= count_rule(
                "variables"@,
                self.variables@.len(),
                1,
                "at least one variable selector is required"@,
            ));
        }
        let ok = all_selectors_ok(&self.variables);
        NestedOutcome { field_errors: e, nested_ok: ok }
    }
}

impl SetVariablesRequest {
    /// The field rules: at least one assignment, and each assignment names a
    /// component and a variable.
    pub fn validate(&self) -> (r: NestedOutcome)
        ensures
            errors_view(r.field_errors@) == count_rule(
                "variables"@,
                self.variables@.len(),
                1,
                "at least one variable assignment is required"@,
            ),
            r.nested_ok == assignments_ok(self.variables@),
    {
        let mut e = Vec::new();
        if self.variables.len() < 1 {
            e.push(
                FieldError {
                    field: "variables".to_owned(),
                    message: "at least one variable assignment is required".to_owned(),
                },
            );
        }
        proof {
            assert(errors_view(e@) =~= count_rule(
                "variables"@,
                self.variables@.len(),
                1,
                "at least one variable assignment is required"@,
            ));
        }
        let ok = all_assignments_ok(&self.variables);
        NestedOutcome { field_errors: e, nested_ok: ok }
    }
}

impl SendLocalListRequest {
    /// The field rules: an update type is given, and each entry of the list,
    /// when there is one, has an id tag of 1 to 36 characters.
    pub fn validate(&self) -> (r: NestedOutcome)
        ensures
            errors_view(r.field_errors@) == length_rule(
                "update_type"@,
                self.update_type@,
                1,
                None,
                "update_type is required (Full or Differential)"@,
            ),
            r.nested_ok == match self.local_authorization_list {
                Some(list) => entries_ok(list@),
                None => true,
            },
    {
        let mut e = Vec::new();
        assert(errors_view(e@) =~= Seq::<FieldErrorView>::empty());
        check_length(
            &mut e,
            "update_type",
            self.update_type.as_str(),
            1,
            None,
            "update_type is required (Full or Differential)",
        );
        let ok = match &self.local_authorization_list {
            Some(list) => all_entries_ok(list),
            None => true,
        };
        NestedOutcome { field_errors: e, nested_ok: ok }
    }
}

/// Query parameters of the device report lookup.
pub struct ReportQueryParams {
    pub request_id: Option<i32>,
}

/// Query parameters of the charging profile listing.
pub struct ChargingProfileQueryParams {
    pub active_only: Option<bool>,
}

impl ChargingProfileQueryParams {
    /// Whether only active profiles are listed: yes unless asked otherwise.
    pub fn active_only(&self) -> (r: bool)
        ensures
            r == match self.active_only {
                Some(b) => b,
                None => true,
            },
    {
        match self.active_only {
            Some(b) => b,
            None => true,
        }
    }
}

/// The refusal of a command to a charge point that is not connected: HTTP
/// 404 with the message naming it; nothing to refuse when it is connected.
pub fn require_connected(charge_point_id: &str, connected: bool) -> (r: Result<(), (u16, String)>)
    ensures
        connected ==> r is Ok,
        !connected ==> (r matches Err(e) && e.0 == 404 && e.1@ == "Charge point '"@
            + charge_point_id@ + "' is not connected"@),
{
    if connected {
        Ok(())
    } else {
        let mut m = "Charge point '".to_owned();
        m.append(charge_point_id);
        m.append("' is not connected");
        Err((404, m))
    }
}

} // verus!
