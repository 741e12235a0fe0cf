//! OCPP-J message framing.
//!
//! Implements the OCPP-J (JSON over WebSocket) transport protocol framing,
//! which is identical across all OCPP versions (1.6, 2.0.1, 2.1):
//!
//! - **Call**       `[2, "<uniqueId>", "<action>", {<payload>}]`
//! - **CallResult** `[3, "<uniqueId>", {<payload>}]`
//! - **CallError**  `[4, "<uniqueId>", "<errorCode>", "<errorDescription>", {<errorDetails>}]`
//!
//! The JSON text itself is read and written by `serde_json`; the framing
//! rules on top of it are the verified logic here.
use vstd::prelude::*;

use crate::numbers::{decimal, u64_text, usize_text};

verus! {

/// `serde_json::Value`, carried through the frames as an opaque payload.
#[verifier::external_type_specification]
#[verifier::external_body]
pub struct ExJsonValue(serde_json::Value);

/// The compact JSON text of a value, as `Value::to_string` writes it.
pub uninterp spec fn json_text(v: serde_json::Value) -> Seq<char>;

/// What the framing reads of one element of the top-level JSON array:
/// its value as an unsigned integer, as a string, and its JSON text.
pub type ItemReading = (Option<u64>, Option<Seq<char>>, Seq<char>);

/// The deepest nesting of arrays and objects reached while scanning a JSON
/// text from nesting `depth`, and whether a number in it has a fraction or
/// an exponent: a `.` outside strings, or an `e`/`E` right after a digit
/// (the `e` of `true` and `false` does not count); string contents are
/// skipped.
pub open spec fn json_shape(
    t: Seq<char>,
    in_string: bool,
    escaped: bool,
    after_digit: bool,
    depth: int,
) -> (int, bool)
    decreases t.len(),
{
    if t.len() == 0 {
        (depth, false)
    } else {
        let c = t[0];
        let rest = t.drop_first();
        if in_string {
            json_shape(rest, escaped || c != '"', !escaped && c == '\\', false, depth)
        } else {
            let d = if c == '[' || c == '{' {
                depth + 1
            } else if c == ']' || c == '}' {
                depth - 1
            } else {
                depth
            };
            let r = json_shape(rest, c == '"', false, '0' <= c && c <= '9', d);
            (
                if d > r.0 {
                    d
                } else {
                    r.0
                },
                r.1 || c == '.' || (after_digit && (c == 'e' || c == 'E')),
            )
        }
    }
}

/// A JSON text nests arrays and objects at most 126 deep: inside the
/// top-level array of a frame that is the parser's limit of 127 levels.
pub open spec fn shallow_json(t: Seq<char>) -> bool {
    json_shape(t, false, false, false, 0).0 <= 126
}

/// A JSON text has no number with a fraction or an exponent, so reading it
/// back gives the same value (`serde_json` writes every float with one).
pub open spec fn integral_json(t: Seq<char>) -> bool {
    !json_shape(t, false, false, false, 0).1
}

/// The empty object is shallow and holds no float.
pub proof fn lemma_empty_object_json()
    ensures
        shallow_json("{}"@),
        integral_json("{}"@),
{
    reveal_strlit("{}");
    reveal_with_fuel(json_shape, 3);
}

/// The result of reading `text` as a JSON array with `serde_json`: the
/// reading of each element in order, or the parser's error message.
pub uninterp spec fn json_array_decode(text: Seq<char>) -> Result<Seq<ItemReading>, Seq<char>>;

/// One element of a decoded top-level JSON array.
pub struct JsonItem {
    /// `Value::as_u64` of the element.
    pub number: Option<u64>,
    /// `Value::as_str` of the element.
    pub text: Option<String>,
    /// The element itself.
    pub value: serde_json::Value,
}

impl View for JsonItem {
    type V = ItemReading;

    open spec fn view(&self) -> ItemReading {
        (
            self.number,
            match self.text {
                Some(s) => Some(s@),
                None => None,
            },
            json_text(self.value),
        )
    }
}

/// One element of a JSON array to be written.
pub enum JsonPart {
    /// A non-negative integer.
    Number(u64),
    /// A string.
    Text(String),
    /// An arbitrary JSON value.
    Raw(serde_json::Value),
}

/// Reads `text` with `serde_json::from_str::<Vec<serde_json::Value>>` and
/// gives, for each element of the array, its `as_u64` and `as_str` readings
/// together with the element itself; on failure the parser's error message.
/// The contract names the result (`json_array_decode`) as a function of the
/// text; it does not say which JSON value each element is.
#[verifier::external_body]
fn decode_json_array(text: &str) -> (r: Result<Vec<JsonItem>, String>)
    ensures
        match r {
            Ok(items) => json_array_decode(text@) == Ok::<Seq<ItemReading>, Seq<char>>(
                items@.map_values(|i: JsonItem| i@),
            ),
            Err(msg) => json_array_decode(text@) == Err::<Seq<ItemReading>, Seq<char>>(msg@),
        },
{
    match serde_json::from_str::<Vec<serde_json::Value>>(text) {
        Ok(values) => {
            let mut items = Vec::new();
            for v in values {
                items.push(JsonItem { number: v.as_u64(), text: v.as_str().map(String::from), value: v });
            }
            Ok(items)
        },
        Err(e) => Err(e.to_string()),
    }
}

/// Writes the parts as a JSON array with `serde_json::to_string` (which does
/// not fail on a `Value`). Stated: the text reads back as an array when every
/// raw part nests at most 126 deep (with the array itself, the 127 levels
/// the parser reads); when it reads back, it has one element per part,
/// integer and string parts read as written, and a raw part without floats
/// reads back with its own JSON text (a float may come back one unit in the
/// last place off, as the parser reads floats without the `float_roundtrip`
/// feature). The exact text is not stated.
#[verifier::external_body]
fn encode_json_array(parts: Vec<JsonPart>) -> (r: String)
    ensures
        (forall|i: int|
            0 <= i < parts@.len() ==> (#[trigger] parts@[i] matches JsonPart::Raw(v) ==> shallow_json(
                json_text(v),
            ))) ==> json_array_decode(r@) is Ok,
        json_array_decode(r@) is Ok ==> json_array_decode(r@)->Ok_0.len() == parts@.len(),
        json_array_decode(r@) is Ok ==> forall|i: int|
            0 <= i < parts@.len() ==> match #[trigger] parts@[i] {
                JsonPart::Number(n) => json_array_decode(r@)->Ok_0[i].0 == Some(n)
                    && json_array_decode(r@)->Ok_0[i].1 == None::<Seq<char>>,
                JsonPart::Text(t) => json_array_decode(r@)->Ok_0[i].0 == None::<u64>
                    && json_array_decode(r@)->Ok_0[i].1 == Some(t@),
                JsonPart::Raw(v) => integral_json(json_text(v)) ==> json_array_decode(r@)->Ok_0[i].2
                    == json_text(v),
            },
{
    let mut values = Vec::new();
    for p in parts {
        values.push(match p {
            JsonPart::Number(n) => serde_json::Value::Number(n.into()),
            JsonPart::Text(s) => serde_json::Value::String(s),
            JsonPart::Raw(v) => v,
        });
    }
    serde_json::to_string(&serde_json::Value::Array(values)).unwrap()
}

/// An empty JSON object (`Value::Object(Map::new())`), whose text is `{}`.
#[verifier::external_body]
fn empty_json_object() -> (r: serde_json::Value)
    ensures
        json_text(r) == "{}"@,
{
    serde_json::Value::Object(serde_json::Map::new())
}

/// `Value::clone`: a copy of a JSON value, which writes the same JSON text.
pub assume_specification[ <serde_json::Value as Clone>::clone ](v: &serde_json::Value) -> (r: serde_json::Value)
    ensures
        json_text(r) == json_text(*v),
;

/// The message-type number of a `Call` frame.
pub const MSG_TYPE_CALL: u64 = 2;

/// The message-type number of a `CallResult` frame.
pub const MSG_TYPE_CALL_RESULT: u64 = 3;

/// The message-type number of a `CallError` frame.
pub const MSG_TYPE_CALL_ERROR: u64 = 4;

/// A parsed OCPP-J frame (version-agnostic transport envelope).
#[derive(Debug, Clone)]
pub enum OcppFrame {
    /// `[2, uniqueId, action, payload]`
    Call { unique_id: String, action: String, payload: serde_json::Value },
    /// `[3, uniqueId, payload]`
    CallResult { unique_id: String, payload: serde_json::Value },
    /// `[4, uniqueId, errorCode, errorDescription, errorDetails]`
    CallError {
        unique_id: String,
        error_code: String,
        error_description: String,
        error_details: serde_json::Value,
    },
}

/// The abstract value of a frame: its text fields and the JSON text of its
/// payload (of the error details for a `CallError`).
pub enum FrameHead {
    Call { unique_id: Seq<char>, action: Seq<char>, payload: Seq<char> },
    CallResult { unique_id: Seq<char>, payload: Seq<char> },
    CallError {
        unique_id: Seq<char>,
        error_code: Seq<char>,
        error_description: Seq<char>,
        error_details: Seq<char>,
    },
}

/// The JSON text of a frame's payload (or error details).
pub open spec fn payload_of(h: FrameHead) -> Seq<char> {
    match h {
        FrameHead::Call { payload, .. } => payload,
        FrameHead::CallResult { payload, .. } => payload,
        FrameHead::CallError { error_details, .. } => error_details,
    }
}

/// The frame with its payload (or error details) text replaced by `p`.
pub open spec fn with_payload(h: FrameHead, p: Seq<char>) -> FrameHead {
    match h {
        FrameHead::Call { unique_id, action, .. } => FrameHead::Call { unique_id, action, payload: p },
        FrameHead::CallResult { unique_id, .. } => FrameHead::CallResult { unique_id, payload: p },
        FrameHead::CallError { unique_id, error_code, error_description, .. } => FrameHead::CallError {
            unique_id,
            error_code,
            error_description,
            error_details: p,
        },
    }
}

impl View for OcppFrame {
    type V = FrameHead;

    open spec fn view(&self) -> FrameHead {
        match self {
            OcppFrame::Call { unique_id, action, payload } => FrameHead::Call {
                unique_id: unique_id@,
                action: action@,
                payload: json_text(*payload),
            },
            OcppFrame::CallResult { unique_id, payload } => FrameHead::CallResult {
                unique_id: unique_id@,
                payload: json_text(*payload),
            },
            OcppFrame::CallError { unique_id, error_code, error_description, error_details } =>
                FrameHead::CallError {
                unique_id: unique_id@,
                error_code: error_code@,
                error_description: error_description@,
                error_details: json_text(*error_details),
            },
        }
    }
}

/// The unique message id of a frame.
pub open spec fn head_unique_id(h: FrameHead) -> Seq<char> {
    match h {
        FrameHead::Call { unique_id, .. } => unique_id,
        FrameHead::CallResult { unique_id, .. } => unique_id,
        FrameHead::CallError { unique_id, .. } => unique_id,
    }
}

/// Errors that can occur when parsing an OCPP-J frame.
#[derive(Debug)]
pub enum OcppFrameError {
    InvalidJson(String),
    EmptyArray,
    InvalidMessageType,
    UnknownMessageType(u64),
    MissingFields { expected: usize, got: usize },
    FieldTypeMismatch(&'static str),
}

/// The abstract value of a frame error.
pub enum FrameErrorView {
    InvalidJson(Seq<char>),
    EmptyArray,
    InvalidMessageType,
    UnknownMessageType(u64),
    MissingFields { expected: nat, got: nat },
    FieldTypeMismatch(Seq<char>),
}

impl View for OcppFrameError {
    type V = FrameErrorView;

    open spec fn view(&self) -> FrameErrorView {
        match self {
            OcppFrameError::InvalidJson(m) => FrameErrorView::InvalidJson(m@),
            OcppFrameError::EmptyArray => FrameErrorView::EmptyArray,
            OcppFrameError::InvalidMessageType => FrameErrorView::InvalidMessageType,
            OcppFrameError::UnknownMessageType(t) => FrameErrorView::UnknownMessageType(*t),
            OcppFrameError::MissingFields { expected, got } => FrameErrorView::MissingFields {
                expected: *expected as nat,
                got: *got as nat,
            },
            OcppFrameError::FieldTypeMismatch(m) => FrameErrorView::FieldTypeMismatch(m@),
        }
    }
}

/// The reading of an element as a string, or a type-mismatch error.
pub open spec fn string_field(item: ItemReading, what: Seq<char>) -> Result<Seq<char>, FrameErrorView> {
    match item.1 {
        Some(s) => Ok(s),
        None => Err(FrameErrorView::FieldTypeMismatch(what)),
    }
}

/// Framing rules for a `Call`: at least four elements, string id and action.
pub open spec fn call_of(items: Seq<ItemReading>) -> Result<FrameHead, FrameErrorView> {
    if items.len() < 4 {
        Err(FrameErrorView::MissingFields { expected: 4, got: items.len() })
    } else if items[1].1 is None {
        Err(FrameErrorView::FieldTypeMismatch("uniqueId must be a string"@))
    } else if items[2].1 is None {
        Err(FrameErrorView::FieldTypeMismatch("action must be a string"@))
    } else {
        Ok(FrameHead::Call { unique_id: items[1].1->0, action: items[2].1->0, payload: items[3].2 })
    }
}

/// Framing rules for a `CallResult`: at least three elements, string id.
pub open spec fn call_result_of(items: Seq<ItemReading>) -> Result<FrameHead, FrameErrorView> {
    if items.len() < 3 {
        Err(FrameErrorView::MissingFields { expected: 3, got: items.len() })
    } else if items[1].1 is None {
        Err(FrameErrorView::FieldTypeMismatch("uniqueId must be a string"@))
    } else {
        Ok(FrameHead::CallResult { unique_id: items[1].1->0, payload: items[2].2 })
    }
}

/// Framing rules for a `CallError`: at least four elements and a string id;
/// a non-string error code reads as `InternalError`, a non-string
/// description as the empty text.
pub open spec fn call_error_of(items: Seq<ItemReading>) -> Result<FrameHead, FrameErrorView> {
    if items.len() < 4 {
        Err(FrameErrorView::MissingFields { expected: 4, got: items.len() })
    } else if items[1].1 is None {
        Err(FrameErrorView::FieldTypeMismatch("uniqueId must be a string"@))
    } else {
        Ok(
            FrameHead::CallError {
                unique_id: items[1].1->0,
                error_code: match items[2].1 {
                    Some(c) => c,
                    None => "InternalError"@,
                },
                error_description: match items[3].1 {
                    Some(d) => d,
                    None => Seq::<char>::empty(),
                },
                error_details: if items.len() > 4 {
                    items[4].2
                } else {
                    "{}"@
                },
            },
        )
    }
}

/// The frame that the elements of a decoded array make, or why they make none.
pub open spec fn frame_of_items(items: Seq<ItemReading>) -> Result<FrameHead, FrameErrorView> {
    if items.len() == 0 {
        Err(FrameErrorView::EmptyArray)
    } else {
        match items[0].0 {
            None => Err(FrameErrorView::InvalidMessageType),
            Some(t) => if t == 2 {
                call_of(items)
            } else if t == 3 {
                call_result_of(items)
            } else if t == 4 {
                call_error_of(items)
            } else {
                Err(FrameErrorView::UnknownMessageType(t))
            },
        }
    }
}

/// The outcome of parsing `text` as an OCPP-J frame.
pub open spec fn spec_parse(text: Seq<char>) -> Result<FrameHead, FrameErrorView> {
    match json_array_decode(text) {
        Err(msg) => Err(FrameErrorView::InvalidJson(msg)),
        Ok(items) => frame_of_items(items),
    }
}

/// The integer and string readings that writing a frame's parts puts in the
/// array: the message type, then the text fields.
pub open spec fn written_prefix(h: FrameHead) -> Seq<(Option<u64>, Option<Seq<char>>)> {
    match h {
        FrameHead::Call { unique_id, action, .. } => seq![
            (Some(2u64), None::<Seq<char>>),
            (None::<u64>, Some(unique_id)),
            (None::<u64>, Some(action)),
        ],
        FrameHead::CallResult { unique_id, .. } => seq![
            (Some(3u64), None::<Seq<char>>),
            (None::<u64>, Some(unique_id)),
        ],
        FrameHead::CallError { unique_id, error_code, error_description, .. } => seq![
            (Some(4u64), None::<Seq<char>>),
            (None::<u64>, Some(unique_id)),
            (None::<u64>, Some(error_code)),
            (None::<u64>, Some(error_description)),
        ],
    }
}

/// The number of array elements a frame is written as.
pub open spec fn written_len(h: FrameHead) -> nat {
    match h {
        FrameHead::Call { .. } => 4,
        FrameHead::CallResult { .. } => 3,
        FrameHead::CallError { .. } => 5,
    }
}

/// The text of a frame error, as `Display` writes it.
pub open spec fn error_message(e: FrameErrorView) -> Seq<char> {
    match e {
        FrameErrorView::InvalidJson(m) => "Invalid JSON: "@ + m,
        FrameErrorView::EmptyArray => "Empty OCPP message array"@,
        FrameErrorView::InvalidMessageType => "Message type is not a number"@,
        FrameErrorView::UnknownMessageType(t) => "Unknown message type: "@ + decimal(t as nat),
        FrameErrorView::MissingFields { expected, got } => "Expected at least "@ + decimal(
            expected,
        ) + " fields, got "@ + decimal(got),
        FrameErrorView::FieldTypeMismatch(m) => "Field type mismatch: "@ + m,
    }
}

fn read_string_field(item: &JsonItem, what: &'static str) -> (r: Result<String, OcppFrameError>)
    ensures
        match r {
            Ok(s) => string_field(item@, what@) == Ok::<Seq<char>, FrameErrorView>(s@),
            Err(e) => string_field(item@, what@) == Err::<Seq<char>, FrameErrorView>(e@),
        },
{
    match &item.text {
        Some(s) => Ok(s.clone()),
        None => Err(OcppFrameError::FieldTypeMismatch(what)),
    }
}

impl OcppFrame {
    /// Parse a raw JSON text into an `OcppFrame`.
    pub fn parse(text: &str) -> (r: Result<Self, OcppFrameError>)
        ensures
            match r {
                Ok(f) => spec_parse(text@) == Ok::<FrameHead, FrameErrorView>(f@),
                Err(e) => spec_parse(text@) == Err::<FrameHead, FrameErrorView>(e@),
            },
    {
        let arr = match decode_json_array(text) {
            Ok(items) => items,
            Err(msg) => {
                return Err(OcppFrameError::InvalidJson(msg));
            },
        };
        let ghost items = arr@.map_values(|i: JsonItem| i@);
        if arr.len() == 0 {
            return Err(OcppFrameError::EmptyArray);
        }
        assert(items[0] == arr@[0]@);
        let msg_type = match arr[0].number {
            Some(t) => t,
            None => {
                return Err(OcppFrameError::InvalidMessageType);
            },
        };
        if msg_type == MSG_TYPE_CALL {
            Self::parse_call(&arr)
        } else if msg_type == MSG_TYPE_CALL_RESULT {
            Self::parse_call_result(&arr)
        } else if msg_type == MSG_TYPE_CALL_ERROR {
            Self::parse_call_error(&arr)
        } else {
            Err(OcppFrameError::UnknownMessageType(msg_type))
        }
    }

    fn parse_call(arr: &Vec<JsonItem>) -> (r: Result<Self, OcppFrameError>)
        ensures
            match r {
                Ok(f) => call_of(arr@.map_values(|i: JsonItem| i@)) == Ok::<
                    FrameHead,
                    FrameErrorView,
                >(f@),
                Err(e) => call_of(arr@.map_values(|i: JsonItem| i@)) == Err::<
                    FrameHead,
                    FrameErrorView,
                >(e@),
            },
    {
        let ghost items = arr@.map_values(|i: JsonItem| i@);
        if arr.len() < 4 {
            return Err(OcppFrameError::MissingFields { expected: 4, got: arr.len() });
        }
        assert(items[1] == arr@[1]@ && items[2] == arr@[2]@);
        let unique_id = read_string_field(&arr[1], "uniqueId must be a string")?;
        let action = read_string_field(&arr[2], "action must be a string")?;
        let payload = arr[3].value.clone();
        Ok(OcppFrame::Call { unique_id, action, payload })
    }

    fn parse_call_result(arr: &Vec<JsonItem>) -> (r: Result<Self, OcppFrameError>)
        ensures
            match r {
                Ok(f) => call_result_of(arr@.map_values(|i: JsonItem| i@)) == Ok::<
                    FrameHead,
                    FrameErrorView,
                >(f@),
                Err(e) => call_result_of(arr@.map_values(|i: JsonItem| i@)) == Err::<
                    FrameHead,
                    FrameErrorView,
                >(e@),
            },
    {
        let ghost items = arr@.map_values(|i: JsonItem| i@);
        if arr.len() < 3 {
            return Err(OcppFrameError::MissingFields { expected: 3, got: arr.len() });
        }
        assert(items[1] == arr@[1]@);
        let unique_id = read_string_field(&arr[1], "uniqueId must be a string")?;
        let payload = arr[2].value.clone();
        Ok(OcppFrame::CallResult { unique_id, payload })
    }

    fn parse_call_error(arr: &Vec<JsonItem>) -> (r: Result<Self, OcppFrameError>)
        ensures
            match r {
                Ok(f) => call_error_of(arr@.map_values(|i: JsonItem| i@)) == Ok::<
                    FrameHead,
                    FrameErrorView,
                >(f@),
                Err(e) => call_error_of(arr@.map_values(|i: JsonItem| i@)) == Err::<
                    FrameHead,
                    FrameErrorView,
                >(e@),
            },
    {
        let ghost items = arr@.map_values(|i: JsonItem| i@);
        if arr.len() < 4 {
            return Err(OcppFrameError::MissingFields { expected: 4, got: arr.len() });
        }
        assert(items[1] == arr@[1]@ && items[2] == arr@[2]@ && items[3] == arr@[3]@);
        let unique_id = read_string_field(&arr[1], "uniqueId must be a string")?;
        let error_code = match &arr[2].text {
            Some(c) => c.clone(),
            None => "InternalError".to_owned(),
        };
        let error_description = match &arr[3].text {
            Some(d) => d.clone(),
            None => String::new(),
        };
        let error_details = if arr.len() > 4 {
            arr[4].value.clone()
        } else {
            empty_json_object()
        };
        Ok(OcppFrame::CallError { unique_id, error_code, error_description, error_details })
    }

    /// Serialize this frame to a JSON string: the message type, the text
    /// fields and the payload, as one JSON array. The text reads back
    /// whenever the payload nests at most 126 deep; reading it back gives
    /// this frame's text fields and the payload as read, which is this
    /// frame's payload when it holds no float.
    pub fn serialize(&self) -> (r: String)
        ensures
            shallow_json(payload_of(self@)) ==> json_array_decode(r@) is Ok,
            json_array_decode(r@) is Ok ==> json_array_decode(r@)->Ok_0.len() == written_len(
                self@,
            ),
            json_array_decode(r@) is Ok ==> spec_parse(r@) == Ok::<FrameHead, FrameErrorView>(
                with_payload(self@, json_array_decode(r@)->Ok_0[written_len(self@) - 1].2),
            ),
            json_array_decode(r@) is Ok && integral_json(payload_of(self@)) ==> spec_parse(r@)
                == Ok::<FrameHead, FrameErrorView>(self@),
    {
        let mut parts: Vec<JsonPart> = Vec::new();
        match self {
            OcppFrame::Call { unique_id, action, payload } => {
                parts.push(JsonPart::Number(MSG_TYPE_CALL));
                parts.push(JsonPart::Text(unique_id.clone()));
                parts.push(JsonPart::Text(action.clone()));
                parts.push(JsonPart::Raw(payload.clone()));
            },
            OcppFrame::CallResult { unique_id, payload } => {
                parts.push(JsonPart::Number(MSG_TYPE_CALL_RESULT));
                parts.push(JsonPart::Text(unique_id.clone()));
                parts.push(JsonPart::Raw(payload.clone()));
            },
            OcppFrame::CallError { unique_id, error_code, error_description, error_details } => {
                parts.push(JsonPart::Number(MSG_TYPE_CALL_ERROR));
                parts.push(JsonPart::Text(unique_id.clone()));
                parts.push(JsonPart::Text(error_code.clone()));
                parts.push(JsonPart::Text(error_description.clone()));
                parts.push(JsonPart::Raw(error_details.clone()));
            },
        }
        let ghost ps = parts@;
        let ghost h = self@;
        proof {
            let last = written_len(h) - 1;
            assert(ps.len() == written_len(h));
            assert(ps[last] matches JsonPart::Raw(v) && json_text(v) == payload_of(h));
            assert forall|i: int| 0 <= i < last implies !(#[trigger] ps[i] is Raw) by {}
        }
        let r = encode_json_array(parts);
        proof {
            let last = written_len(h) - 1;
            if shallow_json(payload_of(h)) {
                assert forall|i: int| 0 <= i < ps.len() implies (#[trigger] ps[i] matches JsonPart::Raw(
                    v,
                ) ==> shallow_json(json_text(v))) by {
                    if i < last {
                        assert(!(ps[i] is Raw));
                    }
                }
            }
            if json_array_decode(r@) is Ok {
                let items = json_array_decode(r@)->Ok_0;
                let pre = written_prefix(h);
                assert forall|i: int| 0 <= i < pre.len() implies (items[i].0, items[i].1) == pre[i] by {
                    let p = ps[i];
                    assert(0 <= i < ps.len());
                }
                lemma_written_frame_parses(h, r@);
                let p = ps[last];
                if integral_json(payload_of(h)) {
                    assert(items[last].2 == payload_of(h));
                    assert(with_payload(h, payload_of(h)) == h);
                }
            }
        }
        r
    }

    /// The unique message id.
    pub fn unique_id(&self) -> (r: &str)
        ensures
            r@ == head_unique_id(self@),
    {
        match self {
            OcppFrame::Call { unique_id, .. } => unique_id.as_str(),
            OcppFrame::CallResult { unique_id, .. } => unique_id.as_str(),
            OcppFrame::CallError { unique_id, .. } => unique_id.as_str(),
        }
    }

    /// Create a `CallError` response for a given unique id, with empty details.
    pub fn error_response(unique_id: &str, error_code: &str, error_description: &str) -> (r: Self)
        ensures
            r@ == (FrameHead::CallError {
                unique_id: unique_id@,
                error_code: error_code@,
                error_description: error_description@,
                error_details: "{}"@,
            }),
    {
        OcppFrame::CallError {
            unique_id: unique_id.to_owned(),
            error_code: error_code.to_owned(),
            error_description: error_description.to_owned(),
            error_details: empty_json_object(),
        }
    }

    /// Returns `true` if this is a `Call` frame.
    pub fn is_call(&self) -> (r: bool)
        ensures
            r == (self@ is Call),
    {
        match self {
            OcppFrame::Call { .. } => true,
            _ => false,
        }
    }

    /// Returns `true` if this is a `CallResult` frame.
    pub fn is_call_result(&self) -> (r: bool)
        ensures
            r == (self@ is CallResult),
    {
        match self {
            OcppFrame::CallResult { .. } => true,
            _ => false,
        }
    }

    /// Returns `true` if this is a `CallError` frame.
    pub fn is_call_error(&self) -> (r: bool)
        ensures
            r == (self@ is CallError),
    {
        match self {
            OcppFrame::CallError { .. } => true,
            _ => false,
        }
    }
}

impl OcppFrameError {
    /// The human-readable message of the error (what `Display` writes).
    pub fn message(&self) -> (r: String)
        ensures
            r@ == error_message(self@),
    {
        match self {
            OcppFrameError::InvalidJson(msg) => {
                let mut s = String::from_str("Invalid JSON: ");
                s.append(msg.as_str());
                s
            },
            OcppFrameError::EmptyArray => String::from_str("Empty OCPP message array"),
            OcppFrameError::InvalidMessageType => String::from_str("Message type is not a number"),
            OcppFrameError::UnknownMessageType(t) => {
                let mut s = String::from_str("Unknown message type: ");
                let n = u64_text(*t);
                s.append(n.as_str());
                s
            },
            OcppFrameError::MissingFields { expected, got } => {
                let mut s = String::from_str("Expected at least ");
                let e = usize_text(*expected);
                s.append(e.as_str());
                s.append(" fields, got ");
                let g = usize_text(*got);
                s.append(g.as_str());
                s
            },
            OcppFrameError::FieldTypeMismatch(msg) => {
                let mut s = String::from_str("Field type mismatch: ");
                s.append(msg);
                s
            },
        }
    }
}

proof fn lemma_written_frame_parses(h: FrameHead, text: Seq<char>)
    requires
        json_array_decode(text) is Ok,
        json_array_decode(text)->Ok_0.len() == written_len(h),
        forall|i: int|
            0 <= i < written_prefix(h).len() ==> (
            json_array_decode(text)->Ok_0[i].0,
            json_array_decode(text)->Ok_0[i].1,
        ) == #[trigger] written_prefix(h)[i],
    ensures
        spec_parse(text) == Ok::<FrameHead, FrameErrorView>(
            with_payload(h, json_array_decode(text)->Ok_0[written_len(h) - 1].2),
        ),
{
    let items = json_array_decode(text)->Ok_0;
    let pre = written_prefix(h);
    assert forall|i: int| 0 <= i < pre.len() implies items[i].0 == pre[i].0 && items[i].1 == pre[i].1 by {
        assert((items[i].0, items[i].1) == pre[i]);
    }
}

} // verus!
