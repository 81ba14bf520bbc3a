//! Rows as the database stores them.
//!
//! An entity is what a statement reads back. It carries no validation and no
//! notion of a request: a UUID is its 128-bit value, a timestamp a
//! [`Timestamp`], a JSON column its text, and a `float8` the bit pattern of
//! the double.

use vstd::prelude::*;

use crate::time::Timestamp;

verus! {

/// A user row, minus the secret columns: never `api_key`, never
/// `password_hash`.
#[derive(Debug)]
pub struct User {
    pub id: u128,
    pub first_name: String,
    pub last_name: String,
    pub role: String,
    pub created_at: Timestamp,
    pub updated_at: Timestamp,
}

/// A row of `journeys`.
#[derive(Debug)]
pub struct Journey {
    pub id: u128,
    pub user_id: u128,
    pub idempotency_key: Option<String>,
    pub title: String,
    pub description: Option<String>,
    pub started_at: Option<Timestamp>,
    pub ended_at: Option<Timestamp>,
    pub status: String,
    pub visibility: String,
    /// The stored JSON document, as text.
    pub metadata: String,
    pub created_at: Timestamp,
    pub updated_at: Timestamp,
}

/// Straight off the `journey_totals` view: one roll-up across every mode.
#[derive(Debug)]
pub struct JourneyTotals {
    pub segment_count: i64,
    pub mode_count: i64,
    pub total_distance_miles: i64,
    pub total_duration_minutes: i64,
    pub first_departure_at: Option<Timestamp>,
    pub last_arrival_at: Option<Timestamp>,
}

/// A row of `journey_legs`, before its endpoints and details are attached.
#[derive(Debug)]
pub struct LegRow {
    pub id: u128,
    pub position: i32,
    pub mode: String,
    pub origin_place_id: Option<i64>,
    pub destination_place_id: Option<i64>,
    pub started_at: Option<Timestamp>,
    pub ended_at: Option<Timestamp>,
    pub duration_minutes: Option<i32>,
    pub distance_miles: Option<i32>,
    pub notes: Option<String>,
    /// The stored JSON document, as text.
    pub metadata: String,
}

/// The same row under the name the segment tables went by.
pub type SegmentRow = LegRow;

/// Flat row for the drive join; split into a drive and its vehicle after.
#[derive(Debug)]
pub struct DriveRow {
    pub leg_id: u128,
    pub role: Option<String>,
    pub route_polyline: Option<String>,
    pub vehicle_id: Option<i64>,
    pub nickname: Option<String>,
    pub make: Option<String>,
    pub model: Option<String>,
    pub year: Option<i16>,
}

} // verus!
