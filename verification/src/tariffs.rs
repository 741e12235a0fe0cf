//! Tariffs: their kinds, creation from a request, and partial updates.
use vstd::prelude::*;

use crate::text::text_eq;
use crate::validation::{check_length, check_range, errors_view, length_rule, range_rule, FieldError, FieldErrorView};

verus! {

/// How a tariff charges.
#[derive(Clone, Copy, Debug, PartialEq, Eq, Structural)]
pub enum TariffType {
    PerKwh,
    PerMinute,
    PerSession,
    Combined,
}

/// The tariff type a request text names; unknown texts mean per-kWh.
pub open spec fn tariff_type_of(s: Seq<char>) -> TariffType {
    if s == "PerMinute"@ {
        TariffType::PerMinute
    } else if s == "PerSession"@ {
        TariffType::PerSession
    } else if s == "Combined"@ {
        TariffType::Combined
    } else {
        TariffType::PerKwh
    }
}

/// The tariff type a request text names (exact, case-sensitive names).
pub fn parse_tariff_type(s: &str) -> (r: TariffType)
    ensures
        r == tariff_type_of(s@),
{
    if text_eq(s, "PerMinute") {
        TariffType::PerMinute
    } else if text_eq(s, "PerSession") {
        TariffType::PerSession
    } else if text_eq(s, "Combined") {
        TariffType::Combined
    } else {
        TariffType::PerKwh
    }
}

/// A tariff; times are seconds since the Unix epoch.
pub struct Tariff {
    pub id: i32,
    pub name: String,
    pub description: Option<String>,
    pub tariff_type: TariffType,
    pub price_per_kwh: i32,
    pub price_per_minute: i32,
    pub session_fee: i32,
    pub currency: String,
    pub min_fee: i32,
    pub max_fee: i32,
    pub is_active: bool,
    pub is_default: bool,
    pub valid_from: Option<i64>,
    pub valid_until: Option<i64>,
    pub created_at: i64,
    pub updated_at: i64,
}

/// Request to create a tariff.
pub struct CreateTariffRequest {
    pub name: String,
    pub description: Option<String>,
    pub tariff_type: String,
    pub price_per_kwh: i32,
    pub price_per_minute: i32,
    pub session_fee: i32,
    pub currency: String,
    pub min_fee: Option<i32>,
    pub max_fee: Option<i32>,
    pub is_active: Option<bool>,
    pub is_default: Option<bool>,
    pub valid_from: Option<i64>,
    pub valid_until: Option<i64>,
}

/// Request to change some fields of a tariff.
pub struct UpdateTariffRequest {
    pub name: Option<String>,
    pub description: Option<String>,
    pub tariff_type: Option<String>,
    pub price_per_kwh: Option<i32>,
    pub price_per_minute: Option<i32>,
    pub session_fee: Option<i32>,
    pub currency: Option<String>,
    pub min_fee: Option<i32>,
    pub max_fee: Option<i32>,
    pub is_active: Option<bool>,
    pub is_default: Option<bool>,
    pub valid_from: Option<i64>,
    pub valid_until: Option<i64>,
}

/// Request to preview the cost of a session.
pub struct CostPreviewRequest {
    pub tariff_id: Option<i32>,
    pub energy_wh: i32,
    pub duration_seconds: i64,
}

/// Cost breakdown of a session.
pub struct CostBreakdownResponse {
    pub energy_cost: i32,
    pub time_cost: i32,
    pub session_fee: i32,
    pub subtotal: i32,
    pub total: i32,
    pub currency: String,
    pub formatted_total: String,
}

/// A present value, or the fallback.
pub open spec fn or_else<T>(v: Option<T>, fallback: T) -> T {
    match v {
        Some(x) => x,
        None => fallback,
    }
}

/// The text view of an optional text.
pub open spec fn opt_text(v: Option<String>) -> Option<Seq<char>> {
    match v {
        Some(s) => Some(s@),
        None => None,
    }
}

impl CreateTariffRequest {
    /// The field rules: a name of 1 to 100 characters.
    pub fn validate(&self) -> (r: Vec<FieldError>)
        ensures
            errors_view(r@) == length_rule("name"@, self.name@, 1, Some(100), "tariff name is required"@),
    {
        let mut e = Vec::new();
        assert(errors_view(e@) =~= Seq::<FieldErrorView>::empty());
        check_length(&mut e, "name", self.name.as_str(), 1, Some(100), "tariff name is required");
        e
    }

    /// The new tariff a request describes, created at `now`: not yet stored
    /// (id 0), fees default to 0, active by default, not the default tariff
    /// unless asked.
    pub fn into_tariff(self, now: i64) -> (r: Tariff)
        ensures
            r.id == 0,
            r.name@ == self.name@,
            opt_text(r.description) == opt_text(self.description),
            r.tariff_type == tariff_type_of(self.tariff_type@),
            r.price_per_kwh == self.price_per_kwh,
            r.price_per_minute == self.price_per_minute,
            r.session_fee == self.session_fee,
            r.currency@ == self.currency@,
            r.min_fee == or_else(self.min_fee, 0i32),
            r.max_fee == or_else(self.max_fee, 0i32),
            r.is_active == or_else(self.is_active, true),
            r.is_default == or_else(self.is_default, false),
            r.valid_from == self.valid_from,
            r.valid_until == self.valid_until,
            r.created_at == now,
            r.updated_at == now,
    {
        let tariff_type = parse_tariff_type(self.tariff_type.as_str());
        Tariff {
            id: 0,
            name: self.name,
            description: self.description,
            tariff_type,
            price_per_kwh: self.price_per_kwh,
            price_per_minute: self.price_per_minute,
            session_fee: self.session_fee,
            currency: self.currency,
            min_fee: match self.min_fee {
                Some(v) => v,
                None => 0,
            },
            max_fee: match self.max_fee {
                Some(v) => v,
                None => 0,
            },
            is_active: match self.is_active {
                Some(v) => v,
                None => true,
            },
            is_default: match self.is_default {
                Some(v) => v,
                None => false,
            },
            valid_from: self.valid_from,
            valid_until: self.valid_until,
            created_at: now,
            updated_at: now,
        }
    }
}

impl UpdateTariffRequest {
    /// The tariff after the update at `now`: every field the request gives
    /// replaces the stored one, every other field keeps its value; the id
    /// and creation time stay, the update time becomes `now`.
    pub fn apply(self, existing: Tariff, now: i64) -> (r: Tariff)
        ensures
            r.id == existing.id,
            r.name@ == match self.name {
                Some(n) => n@,
                None => existing.name@,
            },
            opt_text(r.description) == match self.description {
                Some(d) => Some(d@),
                None => opt_text(existing.description),
            },
            r.tariff_type == match self.tariff_type {
                Some(t) => tariff_type_of(t@),
                None => existing.tariff_type,
            },
            r.price_per_kwh == or_else(self.price_per_kwh, existing.price_per_kwh),
            r.price_per_minute == or_else(self.price_per_minute, existing.price_per_minute),
            r.session_fee == or_else(self.session_fee, existing.session_fee),
            r.currency@ == match self.currency {
                Some(c) => c@,
                None => existing.currency@,
            },
            r.min_fee == or_else(self.min_fee, existing.min_fee),
            r.max_fee == or_else(self.max_fee, existing.max_fee),
            r.is_active == or_else(self.is_active, existing.is_active),
            r.is_default == or_else(self.is_default, existing.is_default),
            r.valid_from == match self.valid_from {
                Some(v) => Some(v),
                None => existing.valid_from,
            },
            r.valid_until == match self.valid_until {
                Some(v) => Some(v),
                None => existing.valid_until,
            },
            r.created_at == existing.created_at,
            r.updated_at == now,
    {
        let tariff_type = match &self.tariff_type {
            Some(t) => parse_tariff_type(t.as_str()),
            None => existing.tariff_type,
        };
        Tariff {
            id: existing.id,
            name: match self.name {
                Some(n) => n,
                None => existing.name,
            },
            description: match self.description {
                Some(d) => Some(d),
                None => existing.description,
            },
            tariff_type,
            price_per_kwh: match self.price_per_kwh {
                Some(v) => v,
                None => existing.price_per_kwh,
            },
            price_per_minute: match self.price_per_minute {
                Some(v) => v,
                None => existing.price_per_minute,
            },
            session_fee: match self.session_fee {
                Some(v) => v,
                None => existing.session_fee,
            },
            currency: match self.currency {
                Some(c) => c,
                None => existing.currency,
            },
            min_fee: match self.min_fee {
                Some(v) => v,
                None => existing.min_fee,
            },
            max_fee: match self.max_fee {
                Some(v) => v,
                None => existing.max_fee,
            },
            is_active: match self.is_active {
                Some(v) => v,
                None => existing.is_active,
            },
            is_default: match self.is_default {
                Some(v) => v,
                None => existing.is_default,
            },
            valid_from: match self.valid_from {
                Some(v) => Some(v),
                None => existing.valid_from,
            },
            valid_until: match self.valid_until {
                Some(v) => Some(v),
                None => existing.valid_until,
            },
            created_at: existing.created_at,
            updated_at: now,
        }
    }
}

impl CostPreviewRequest {
    /// The field rules: energy and duration are not negative.
    pub fn validate(&self) -> (r: Vec<FieldError>)
        ensures
            errors_view(r@) == range_rule(
                "energy_wh"@,
                self.energy_wh as int,
                0,
                None,
                "energy_wh must be non-negative"@,
            ) + range_rule(
                "duration_seconds"@,
                self.duration_seconds as int,
                0,
                None,
                "duration_seconds must be non-negative"@,
            ),
    {
        let mut e = Vec::new();
        assert(errors_view(e@) =~= Seq::<FieldErrorView>::empty());
        check_range(&mut e, "energy_wh", self.energy_wh as i64, 0, None, "energy_wh must be non-negative");
        check_range(&mut e, "duration_seconds", self.duration_seconds, 0, None, "duration_seconds must be non-negative");
        e
    }
}

} // verus!
