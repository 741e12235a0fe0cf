//! Request validation: field rules, the rejection message, and pagination.
use vstd::prelude::*;

verus! {

/// A body that has been deserialized and has passed validation.
pub struct ValidatedJson<T>(pub T);

/// One failed field rule.
pub struct FieldError {
    pub field: String,
    pub message: String,
}

/// The abstract value of a field error: field name and message.
pub type FieldErrorView = (Seq<char>, Seq<char>);

impl View for FieldError {
    type V = FieldErrorView;

    open spec fn view(&self) -> FieldErrorView {
        (self.field@, self.message@)
    }
}

/// The views of a list of field errors.
pub open spec fn errors_view(errors: Seq<FieldError>) -> Seq<FieldErrorView> {
    errors.map_values(|e: FieldError| e@)
}

/// The error of a length rule (length in characters within `min..=max`,
/// no upper bound when `max` is `None`): none when it holds.
pub open spec fn length_rule(
    field: Seq<char>,
    value: Seq<char>,
    min: nat,
    max: Option<nat>,
    message: Seq<char>,
) -> Seq<FieldErrorView> {
    if value.len() < min || (max matches Some(m) && value.len() > m) {
        seq![(field, message)]
    } else {
        Seq::empty()
    }
}

/// The error of a range rule (`min <= value`, and `value <= max` when
/// there is a maximum): none when it holds.
pub open spec fn range_rule(
    field: Seq<char>,
    value: int,
    min: int,
    max: Option<int>,
    message: Seq<char>,
) -> Seq<FieldErrorView> {
    if value < min || (max matches Some(m) && value > m) {
        seq![(field, message)]
    } else {
        Seq::empty()
    }
}

/// Append the error of a length rule to `errors`.
pub fn check_length(
    errors: &mut Vec<FieldError>,
    field: &str,
    value: &str,
    min: usize,
    max: Option<usize>,
    message: &str,
)
    ensures
        errors_view(final(errors)@) == errors_view(old(errors)@) + length_rule(
            field@,
            value@,
            min as nat,
            match max {
                Some(m) => Some(m as nat),
                None => None,
            },
            message@,
        ),
{
    let len = value.unicode_len();
    let too_long = match max {
        Some(m) => len > m,
        None => false,
    };
    let ghost before = errors_view(errors@);
    if len < min || too_long {
        errors.push(FieldError { field: field.to_owned(), message: message.to_owned() });
        assert(errors_view(errors@) =~= before + seq![(field@, message@)]);
    } else {
        assert(errors_view(errors@) =~= before + Seq::<FieldErrorView>::empty());
    }
}

/// Append the error of a range rule to `errors`.
pub fn check_range(
    errors: &mut Vec<FieldError>,
    field: &str,
    value: i64,
    min: i64,
    max: Option<i64>,
    message: &str,
)
    ensures
        errors_view(final(errors)@) == errors_view(old(errors)@) + range_rule(
            field@,
            value as int,
            min as int,
            match max {
                Some(m) => Some(m as int),
                None => None,
            },
            message@,
        ),
{
    let too_big = match max {
        Some(m) => value > m,
        None => false,
    };
    let ghost before = errors_view(errors@);
    if value < min || too_big {
        errors.push(FieldError { field: field.to_owned(), message: message.to_owned() });
        assert(errors_view(errors@) =~= before + seq![(field@, message@)]);
    } else {
        assert(errors_view(errors@) =~= before + Seq::<FieldErrorView>::empty());
    }
}

/// The error of a rule on the number of items of a list field: none when
/// the list holds at least `min` items.
pub open spec fn count_rule(field: Seq<char>, count: nat, min: nat, message: Seq<char>) -> Seq<
    FieldErrorView,
> {
    if count < min {
        seq![(field, message)]
    } else {
        Seq::empty()
    }
}

/// The outcome of validating a body some of whose fields hold values that
/// are validated in turn: the failed rules of the body's own fields, and
/// whether every nested value passed. Failures of nested values are not
/// field errors of the body: a body that fails only there is rejected with
/// the message `Validation failed`.
pub struct NestedOutcome {
    pub field_errors: Vec<FieldError>,
    pub nested_ok: bool,
}

impl NestedOutcome {
    /// The body passed validation.
    pub fn is_valid(&self) -> (r: bool)
        ensures
            r == (self.field_errors@.len() == 0 && self.nested_ok),
    {
        self.field_errors.len() == 0 && self.nested_ok
    }
}

/// `field: message` entries joined by `; `.
pub open spec fn joined_errors(errors: Seq<FieldErrorView>) -> Seq<char>
    decreases errors.len(),
{
    if errors.len() == 0 {
        Seq::empty()
    } else if errors.len() == 1 {
        errors[0].0 + ": "@ + errors[0].1
    } else {
        joined_errors(errors.drop_last()) + "; "@ + errors.last().0 + ": "@ + errors.last().1
    }
}

/// The message a failed validation is answered with: the field errors
/// joined, or `Validation failed` when no field error is listed.
pub open spec fn rejection_text(errors: Seq<FieldErrorView>) -> Seq<char> {
    if errors.len() == 0 {
        "Validation failed"@
    } else {
        joined_errors(errors)
    }
}

/// The message of a validation rejection.
pub fn rejection_message(errors: &Vec<FieldError>) -> (r: String)
    ensures
        r@ == rejection_text(errors_view(errors@)),
{
    let ghost ev = errors_view(errors@);
    if errors.len() == 0 {
        return "Validation failed".to_owned();
    }
    let mut out = errors[0].field.clone();
    out.append(": ");
    out.append(errors[0].message.as_str());
    assert(ev.take(1).drop_last() =~= Seq::<FieldErrorView>::empty());
    assert(out@ == joined_errors(ev.take(1)));
    let n = errors.len();
    let mut i: usize = 1;
    while i < n
        invariant
            n == errors@.len(),
            1 <= i <= n,
            ev == errors_view(errors@),
            out@ == joined_errors(ev.take(i as int)),
        decreases n - i,
    {
        out.append("; ");
        out.append(errors[i].field.as_str());
        out.append(": ");
        out.append(errors[i].message.as_str());
        proof {
            assert(ev.take(i + 1).drop_last() =~= ev.take(i as int));
            assert(ev.take(i + 1).last() == ev[i as int]);
        }
        i = i + 1;
    }
    assert(ev.take(n as int) =~= ev);
    out
}

/// Why a JSON request body was refused.
pub enum BodyRejection {
    /// The body is not the expected JSON; the extractor's explanation.
    InvalidJson(String),
    /// The body failed validation; its failed field rules.
    Invalid(Vec<FieldError>),
}

impl BodyRejection {
    /// The HTTP status of the refusal: 400 for bad JSON, 422 for a failed
    /// validation.
    pub fn status_code(&self) -> (r: u16)
        ensures
            r == match *self {
                BodyRejection::InvalidJson(_) => 400u16,
                BodyRejection::Invalid(_) => 422u16,
            },
    {
        match self {
            BodyRejection::InvalidJson(_) => 400,
            BodyRejection::Invalid(_) => 422,
        }
    }

    /// The message of the refusal.
    pub fn message(&self) -> (r: String)
        ensures
            r@ == match *self {
                BodyRejection::InvalidJson(why) => "Invalid JSON: "@ + why@,
                BodyRejection::Invalid(errors) => rejection_text(errors_view(errors@)),
            },
    {
        match self {
            BodyRejection::InvalidJson(why) => {
                let mut m = "Invalid JSON: ".to_owned();
                m.append(why.as_str());
                m
            },
            BodyRejection::Invalid(errors) => rejection_message(errors),
        }
    }
}

/// Normalise pagination: page defaults to 1 and is at least 1; the limit
/// defaults to 20 and is clamped to `1..=100`.
pub fn validate_pagination(page: Option<u64>, limit: Option<u64>) -> (r: (u64, u64))
    ensures
        r.0 == match page {
            Some(p) => if p < 1 {
                1
            } else {
                p
            },
            None => 1,
        },
        r.1 == match limit {
            Some(l) => if l < 1 {
                1
            } else if l > 100 {
                100
            } else {
                l
            },
            None => 20,
        },
{
    let p = match page {
        Some(p) => p,
        None => 1,
    };
    let p = if p < 1 {
        1
    } else {
        p
    };
    let l = match limit {
        Some(l) => l,
        None => 20,
    };
    let l = if l < 1 {
        1
    } else if l > 100 {
        100
    } else {
        l
    };
    (p, l)
}

} // verus!
