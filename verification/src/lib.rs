//! Texnouz CSMS: the verified core of an OCPP central system.
//!
//! - `frame`: OCPP-J message framing (parse and serialize)
//! - `ocpp_version`, `negotiator`, `handshake`: protocol versions, their
//!   negotiation, and the decisions of the WebSocket handshake
//! - `session`, `rate_limit`: sessions of connected charge points
//!   and per-client connection rate limiting
//! - `auth`, `accounts`, `request_id`: authentication, account requests,
//!   request correlation ids
//! - `validation`, `commands`, `charge_points`, `tariffs`, `id_tags`,
//!   `reservations`, `charging_profiles`: request bodies, their rules and
//!   the answers of the API
//! - `transactions`, `analytics`, `buckets`, `calendar`: listing,
//!   statistics and period reports
//! - `events`, `monitoring`, `errors`, `retry`: notification filtering,
//!   health, domain errors and retry decisions
//! - `text`, `numbers`: character-level helpers and decimal text
pub mod text;
pub mod negotiator;
pub mod ocpp_version;
pub mod frame;
pub mod numbers;
pub mod rate_limit;
pub mod session;
pub mod buckets;
pub mod calendar;
pub mod analytics;
pub mod events;
pub mod handshake;
pub mod auth;
pub mod validation;
pub mod errors;
pub mod commands;
pub mod charge_points;
pub mod tariffs;
pub mod transactions;
pub mod id_tags;
pub mod reservations;
pub mod monitoring;
pub mod accounts;
pub mod request_id;
pub mod retry;
pub mod charging_profiles;
