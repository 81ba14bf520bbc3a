//! `journeys`, `journey_legs`, and the per-mode `journey_flights` and
//! `journey_drives` tables: recording a trip, and reading it back.

use vstd::prelude::*;
use vstd::string::*;

use crate::entities::Journey;
use crate::error::{
    check_violation_code, foreign_key_violation_code, has_code, segment_constraint_error, ApiError,
    DbError,
};
use crate::flight::Flight;
use crate::flight::ValidatedFlight;
use crate::journey::{
    airport_cache_key, airport_key, PlaceCache, SegmentDetail, ValidatedBooking, ValidatedDrive,
    ValidatedJourney, ValidatedPlace, ValidatedSegment, ValidatedVehicle,
};
use crate::sql_builder::insert::{do_nothing_where_clause, lemma_writes_at, writes, Insert, InsertView};
use crate::sql_builder::params::placeholder;
use crate::sql_builder::query::Query;
use crate::sql_builder::select::{compares, Select, SelectView};
use crate::sql_builder::value::{SqlValue, SqlValueView};
use crate::store::steps::{cast, conflict_with, opt_text, placeholders, runs_insert, runs_select, single_error, text, Stage, Step};
use crate::text::{concat3, signed_decimal, signed_decimal_string, str_views, views};
use crate::time::{minutes_between, whole_minutes, Timestamp};

verus! {

/// The journey row, and whether this request is the one that created it.
#[derive(Debug, Clone, Copy, PartialEq, Eq, Structural)]
pub enum JourneyUpsert {
    Created(u128),
    AlreadyExists(u128),
}

/// A hexadecimal digit, lowercase.
pub open spec fn hex_digit(d: int) -> char {
    if d < 10 {
        (48 + d) as char
    } else {
        (87 + d) as char
    }
}

/// The last `count` hexadecimal digits of `n`, most significant first.
pub open spec fn hex_digits(n: nat, count: nat) -> Seq<char>
    decreases count,
{
    if count == 0 {
        Seq::empty()
    } else {
        hex_digits(n / 16, (count - 1) as nat).push(hex_digit((n % 16) as int))
    }
}

/// The canonical text of a UUID: its 32 lowercase hexadecimal digits, most
/// significant first, with a hyphen after the 8th, 12th, 16th and 20th.
pub open spec fn uuid_text(id: u128) -> Seq<char> {
    let h = hex_digits(id as nat, 32);
    h.subrange(0, 8) + seq!['-'] + h.subrange(8, 12) + seq!['-'] + h.subrange(12, 16) + seq!['-']
        + h.subrange(16, 20) + seq!['-'] + h.subrange(20, 32)
}

/// Renders through `uuid::Uuid::from_u128` and its `Display`, which writes the
/// 16 bytes big-endian as lowercase hex, hyphenated 8-4-4-4-12.
#[verifier::external_body]
fn hyphenated(id: u128) -> (r: String)
    ensures
        r@ == uuid_text(id),
{
    uuid::Uuid::from_u128(id).to_string()
}

// ---------------------------------------------------------------------------
// Recording
// ---------------------------------------------------------------------------

/// The read of a journey an earlier request recorded under the same key.
pub open spec fn by_key_view(user_id: u128, key: Seq<char>) -> SelectView {
    SelectView {
        from: "journeys"@,
        columns: seq!["id"@],
        joins: Seq::empty(),
        conditions: seq![
            "user_id"@ + " = "@ + placeholder(1),
            "idempotency_key"@ + " = "@ + placeholder(2),
        ],
        order_by: None,
        params: seq![SqlValueView::Uuid(Some(user_id)), text(key)],
    }
}

/// The insert of the journey row, doing nothing when the user already
/// recorded one under the same idempotency key.
pub open spec fn insert_view(j: ValidatedJourney) -> InsertView {
    InsertView {
        table: "journeys"@,
        columns: seq![
            "user_id"@,
            "idempotency_key"@,
            "title"@,
            "description"@,
            "started_at"@,
            "ended_at"@,
            "status"@,
            "visibility"@,
            "metadata"@,
        ],
        values: placeholders(8).push(cast(9, "jsonb"@)),
        on_conflict: Some(
            do_nothing_where_clause(
                seq!["user_id"@, "idempotency_key"@],
                "idempotency_key IS NOT NULL"@,
            ),
        ),
        returning: seq!["id"@],
        params: seq![
            SqlValueView::Uuid(Some(j.user_id)),
            opt_text(j.idempotency_key),
            text(j.title@),
            opt_text(j.description),
            SqlValueView::Timestamp(j.started_at),
            SqlValueView::Timestamp(j.ended_at),
            text(j.status@),
            text(j.visibility@),
            SqlValueView::Json(j.metadata@),
        ],
    }
}

pub open spec fn unknown_user_message(user_id: u128) -> Seq<char> {
    "user_id "@ + uuid_text(user_id) + " does not exist"@
}

pub open spec fn race_message() -> Seq<char> {
    "this journey is being created by another request; retry"@
}

/// Find the journey a user recorded under `key`.
pub fn select_by_key(user_id: u128, key: &str) -> (r: Query)
    ensures
        runs_select(r, by_key_view(user_id, key@)),
{
    let built = Select::from("journeys").columns(&["id"]).where_eq("user_id", user_id).where_eq(
        "idempotency_key",
        key,
    );
    proof {
        let v = by_key_view(user_id, key@);
        assert(built@.columns =~= v.columns);
        assert(built@.conditions =~= v.conditions);
        assert(built@.params =~= v.params);
        assert(built@.joins =~= v.joins);
        assert(built@ == v);
    }
    built.into_query()
}

/// Insert the journey row, returning its id unless the key was already used.
pub fn insert(journey: &ValidatedJourney) -> (r: Query)
    ensures
        runs_insert(r, insert_view(*journey)),
{
    let built = Insert::into("journeys")
        .set("user_id", journey.user_id)
        .set("idempotency_key", &journey.idempotency_key)
        .set("title", &journey.title)
        .set("description", &journey.description)
        .set("started_at", journey.started_at)
        .set("ended_at", journey.ended_at)
        .set("status", &journey.status)
        .set("visibility", &journey.visibility)
        .set_cast("metadata", SqlValue::Json(journey.metadata.clone()), "jsonb")
        .on_conflict_do_nothing_where(&["user_id", "idempotency_key"], "idempotency_key IS NOT NULL")
        .returning(&["id"]);
    proof {
        let v = insert_view(*journey);
        reveal_with_fuel(placeholders, 9);
        assert(built@.columns =~= v.columns);
        assert(built@.values =~= v.values);
        assert(built@.returning =~= v.returning);
        assert(built@.params =~= v.params);
        assert(built@.on_conflict == v.on_conflict) by {
            assert(seq!["user_id", "idempotency_key"].map_values(|s: &str| s@) =~= seq![
                "user_id"@,
                "idempotency_key"@,
            ]);
        }
        assert(built@ == v);
    }
    built.into_query()
}

/// The failure for a user that does not exist, named by its UUID's text.
pub fn unknown_user(id_text: &str) -> (r: ApiError)
    ensures
        single_error(r, "user_id "@ + id_text@ + " does not exist"@),
{
    let message = concat3("user_id ", id_text, " does not exist");
    ApiError::Validation(vec![message])
}

/// What the existence check on the journey's user means. An unknown user is a
/// validation failure rather than a foreign key that fails as an opaque 500.
pub fn user_known(user_id: u128, reply: Result<Option<u128>, DbError>) -> (r: Result<(), ApiError>)
    ensures
        match reply {
            Err(e) => r == Err::<(), ApiError>(ApiError::Database(e)),
            Ok(Some(_)) => r is Ok,
            Ok(None) => r matches Err(err) && single_error(err, unknown_user_message(user_id)),
        },
{
    match reply {
        Err(e) => Err(ApiError::Database(e)),
        Ok(Some(_)) => Ok(()),
        Ok(None) => {
            let id = hyphenated(user_id);
            Err(unknown_user(id.as_str()))
        },
    }
}

/// How recording the journey row starts. With an idempotency key the read
/// comes first; without one, the insert.
pub open spec fn recording_starts(journey: ValidatedJourney, r: Step<JourneyUpsert>) -> bool {
    match journey.idempotency_key {
        Some(key) => r matches Step::Run(Stage::Lookup, q) && runs_select(
            q,
            by_key_view(journey.user_id, key@),
        ),
        None => r matches Step::Run(Stage::Insert, q) && runs_insert(q, insert_view(journey)),
    }
}

/// How recording the journey row goes on once the statement run at `stage`
/// has answered `reply`.
pub open spec fn recording_advances(
    journey: ValidatedJourney,
    stage: Stage,
    reply: Result<Option<u128>, DbError>,
    r: Step<JourneyUpsert>,
) -> bool {
    match reply {
        Err(e) => r == Step::<JourneyUpsert>::Failed(ApiError::Database(e)),
        Ok(Some(id)) => match stage {
            Stage::Insert => r == Step::Done(JourneyUpsert::Created(id)),
            _ => r == Step::Done(JourneyUpsert::AlreadyExists(id)),
        },
        Ok(None) => match stage {
            Stage::Lookup => r matches Step::Run(Stage::Insert, q) && runs_insert(
                q,
                insert_view(journey),
            ),
            Stage::Insert => r matches Step::Run(Stage::LookupAgain, q) && runs_select(
                q,
                by_key_view(journey.user_id, journey.idempotency_key->0@),
            ),
            Stage::LookupAgain => r matches Step::Failed(err) && conflict_with(err, race_message()),
        },
    }
}

/// Where recording the journey row starts. With an idempotency key, the read
/// comes first: a replay conflicts here, before any segment or reference row
/// is touched. Without one every call is a new journey, since two trips can
/// share a title and dates.
pub fn start(journey: &ValidatedJourney) -> (r: Step<JourneyUpsert>)
    ensures
        recording_starts(*journey, r),
{
    match &journey.idempotency_key {
        Some(key) => Step::Run(Stage::Lookup, select_by_key(journey.user_id, key.as_str())),
        None => Step::Run(Stage::Insert, insert(journey)),
    }
}

/// The next step of recording the journey row once the statement run at
/// `stage` has answered `reply`. An insert without a key has no conflict
/// target, so it always returns its row; that is the one reply this machine is
/// not asked to handle.
pub fn advance(journey: &ValidatedJourney, stage: Stage, reply: Result<Option<u128>, DbError>) -> (r:
    Step<JourneyUpsert>)
    requires
        journey.idempotency_key is None ==> !(reply matches Ok(None)),
    ensures
        recording_advances(*journey, stage, reply, r),
{
    match reply {
        Err(e) => Step::Failed(ApiError::Database(e)),
        Ok(Some(id)) => {
            if stage == Stage::Insert {
                Step::Done(JourneyUpsert::Created(id))
            } else {
                Step::Done(JourneyUpsert::AlreadyExists(id))
            }
        },
        Ok(None) => match stage {
            Stage::Lookup => Step::Run(Stage::Insert, insert(journey)),
            Stage::Insert => {
                let key = match &journey.idempotency_key {
                    Some(key) => key,
                    // Unreachable: only a key can conflict.
                    None => return Step::Run(Stage::Insert, insert(journey)),
                };
                Step::Run(Stage::LookupAgain, select_by_key(journey.user_id, key.as_str()))
            },
            Stage::LookupAgain => Step::Failed(
                ApiError::Conflict(
                    String::from_str("this journey is being created by another request; retry"),
                ),
            ),
        },
    }
}

/// The status recording a journey answers with: `201` when this request
/// created it, `200` when an earlier request with the same key already had and
/// the stored trip is returned unchanged.
pub open spec fn status_of(upsert: JourneyUpsert) -> u16 {
    match upsert {
        JourneyUpsert::Created(_) => 201,
        JourneyUpsert::AlreadyExists(_) => 200,
    }
}

/// The HTTP status for how the journey row was recorded.
pub fn response_status(upsert: JourneyUpsert) -> (r: u16)
    ensures
        r == status_of(upsert),
{
    match upsert {
        JourneyUpsert::Created(_) => 201,
        JourneyUpsert::AlreadyExists(_) => 200,
    }
}

/// Replaying a request with a key the user has already used returns the
/// stored journey instead of creating a second one: the first statement is the
/// read by that key, and when it finds the journey, recording ends there with
/// nothing written, and the answer is `200` rather than `201`.
pub proof fn law_a_replay_is_read_not_written(
    journey: ValidatedJourney,
    first: Step<JourneyUpsert>,
    stored: u128,
    next: Step<JourneyUpsert>,
)
    requires
        journey.idempotency_key is Some,
        recording_starts(journey, first),
        recording_advances(journey, Stage::Lookup, Ok(Some(stored)), next),
    ensures
        first matches Step::Run(Stage::Lookup, q) && runs_select(
            q,
            by_key_view(journey.user_id, journey.idempotency_key->0@),
        ),
        next == Step::Done(JourneyUpsert::AlreadyExists(stored)),
        status_of(JourneyUpsert::AlreadyExists(stored)) == 200,
{
}

/// Two requests racing with one key record one journey: when the insert finds
/// the key already taken, the next statement reads the journey the other
/// request wrote, and finding it ends recording with that journey.
pub proof fn law_a_lost_race_reads_the_winner(
    journey: ValidatedJourney,
    after_insert: Step<JourneyUpsert>,
    winner: u128,
    after_read: Step<JourneyUpsert>,
)
    requires
        journey.idempotency_key is Some,
        recording_advances(journey, Stage::Insert, Ok(None), after_insert),
        recording_advances(journey, Stage::LookupAgain, Ok(Some(winner)), after_read),
    ensures
        after_insert matches Step::Run(Stage::LookupAgain, q) && runs_select(
            q,
            by_key_view(journey.user_id, journey.idempotency_key->0@),
        ),
        after_read == Step::Done(JourneyUpsert::AlreadyExists(winner)),
{
}

/// The parent-row values a segment insert needs, after whatever could be
/// derived from the segment's mode has been.
#[derive(Debug)]
pub struct LegWrite<'a> {
    pub journey_id: u128,
    pub segment: &'a ValidatedSegment,
    pub origin_place_id: Option<i64>,
    pub destination_place_id: Option<i64>,
    pub started_at: Option<Timestamp>,
    pub ended_at: Option<Timestamp>,
    pub duration_minutes: Option<i32>,
    pub distance_miles: Option<i32>,
}

/// The whole minutes a flight is scheduled to take, when they fit an `i32`.
pub open spec fn block_minutes(f: Flight) -> Option<i32> {
    let m = whole_minutes(f.scheduled_departure_at, f.scheduled_arrival_at);
    if i32::MIN <= m <= i32::MAX {
        Some(m as i32)
    } else {
        None
    }
}

/// `a`, or else `b`.
pub open spec fn or_else<T>(a: Option<T>, b: Option<T>) -> Option<T> {
    match a {
        Some(x) => Some(x),
        None => b,
    }
}

/// A flight segment's parent row. Its endpoints are the places mirroring the
/// flight's airports; its distance, times and duration are the caller's where
/// given and otherwise the flight's.
pub fn flight_leg<'a>(
    journey_id: u128,
    segment: &'a ValidatedSegment,
    flight: &Flight,
    origin_place_id: i64,
    destination_place_id: i64,
) -> (r: LegWrite<'a>)
    ensures
        r.journey_id == journey_id,
        r.segment == segment,
        r.origin_place_id == Some(origin_place_id),
        r.destination_place_id == Some(destination_place_id),
        r.distance_miles == or_else(segment.distance_miles, flight.distance_miles),
        r.started_at == or_else(segment.started_at, Some(flight.scheduled_departure_at)),
        r.ended_at == or_else(segment.ended_at, Some(flight.scheduled_arrival_at)),
        r.duration_minutes == or_else(segment.duration_minutes, block_minutes(*flight)),
{
    let duration_minutes = match segment.duration_minutes {
        Some(d) => Some(d),
        None => {
            let minutes = minutes_between(flight.scheduled_departure_at, flight.scheduled_arrival_at);
            if i32::MIN as i64 <= minutes && minutes <= i32::MAX as i64 {
                Some(minutes as i32)
            } else {
                None
            }
        },
    };
    LegWrite {
        journey_id,
        segment,
        origin_place_id: Some(origin_place_id),
        destination_place_id: Some(destination_place_id),
        started_at: match segment.started_at {
            Some(t) => Some(t),
            None => Some(flight.scheduled_departure_at),
        },
        ended_at: match segment.ended_at {
            Some(t) => Some(t),
            None => Some(flight.scheduled_arrival_at),
        },
        duration_minutes,
        distance_miles: match segment.distance_miles {
            Some(d) => Some(d),
            None => flight.distance_miles,
        },
    }
}

/// Any other segment's parent row: the endpoints it named, resolved, and the
/// values it was given.
pub fn plain_leg<'a>(
    journey_id: u128,
    segment: &'a ValidatedSegment,
    origin_place_id: Option<i64>,
    destination_place_id: Option<i64>,
) -> (r: LegWrite<'a>)
    ensures
        r.journey_id == journey_id,
        r.segment == segment,
        r.origin_place_id == origin_place_id,
        r.destination_place_id == destination_place_id,
        r.distance_miles == segment.distance_miles,
        r.started_at == segment.started_at,
        r.ended_at == segment.ended_at,
        r.duration_minutes == segment.duration_minutes,
{
    LegWrite {
        journey_id,
        segment,
        origin_place_id,
        destination_place_id,
        started_at: segment.started_at,
        ended_at: segment.ended_at,
        duration_minutes: segment.duration_minutes,
        distance_miles: segment.distance_miles,
    }
}

/// The insert of a segment's parent row.
pub open spec fn leg_view(w: LegWrite) -> InsertView {
    InsertView {
        table: "journey_legs"@,
        columns: seq![
            "journey_id"@,
            "position"@,
            "mode"@,
            "origin_place_id"@,
            "destination_place_id"@,
            "started_at"@,
            "ended_at"@,
            "duration_minutes"@,
            "distance_miles"@,
            "notes"@,
            "metadata"@,
        ],
        values: placeholders(10).push(cast(11, "jsonb"@)),
        on_conflict: None,
        returning: seq!["id"@],
        params: seq![
            SqlValueView::Uuid(Some(w.journey_id)),
            SqlValueView::Int(Some(w.segment.position)),
            text(w.segment.mode@),
            SqlValueView::BigInt(w.origin_place_id),
            SqlValueView::BigInt(w.destination_place_id),
            SqlValueView::Timestamp(w.started_at),
            SqlValueView::Timestamp(w.ended_at),
            SqlValueView::Int(w.duration_minutes),
            SqlValueView::Int(w.distance_miles),
            opt_text(w.segment.notes),
            SqlValueView::Json(w.segment.metadata@),
        ],
    }
}

/// How the request names the segment at `position`: `segments[position - 1]`.
pub open spec fn segment_prefix_at(position: i32) -> Seq<char> {
    "segments["@ + signed_decimal(position - 1) + "]"@
}

/// Insert the `journey_legs` row and read back its id.
pub fn insert_leg(write: &LegWrite) -> (r: Query)
    ensures
        runs_insert(r, leg_view(*write)),
{
    let built = Insert::into("journey_legs")
        .set("journey_id", write.journey_id)
        .set("position", write.segment.position)
        .set("mode", &write.segment.mode)
        .set("origin_place_id", write.origin_place_id)
        .set("destination_place_id", write.destination_place_id)
        .set("started_at", write.started_at)
        .set("ended_at", write.ended_at)
        .set("duration_minutes", write.duration_minutes)
        .set("distance_miles", write.distance_miles)
        .set("notes", &write.segment.notes)
        .set_cast("metadata", SqlValue::Json(write.segment.metadata.clone()), "jsonb")
        .returning(&["id"]);
    proof {
        let v = leg_view(*write);
        reveal_with_fuel(placeholders, 11);
        assert(built@.columns =~= v.columns);
        assert(built@.values =~= v.values);
        assert(built@.returning =~= v.returning);
        assert(built@.params =~= v.params);
        assert(built@ == v);
    }
    built.into_query()
}

/// What the leg insert's reply means: the new leg's id, or, when a check or a
/// foreign key on the row rejected it, a validation failure that names the
/// segment.
pub fn leg_written(write: &LegWrite, reply: Result<u128, DbError>) -> (r: Result<u128, ApiError>)
    ensures
        match reply {
            Ok(id) => r == Ok::<u128, ApiError>(id),
            Err(e) => if (has_code(e, check_violation_code()) || has_code(
                e,
                foreign_key_violation_code(),
            )) && e.constraint is Some {
                r matches Err(ApiError::Validation(v)) && views(v@) == seq![
                    segment_prefix_at(write.segment.position) + " violates "@ + e.constraint->0@,
                ]
            } else {
                r == Err::<u128, ApiError>(ApiError::Database(e))
            },
        },
{
    match reply {
        Ok(id) => Ok(id),
        Err(e) => {
            let index = write.segment.position as i64 - 1;
            let digits = signed_decimal_string(index);
            let prefix = concat3("segments[", digits.as_str(), "]");
            Err(segment_constraint_error(e, prefix.as_str()))
        },
    }
}

/// The insert attaching the traveller's booking to a flight segment.
pub open spec fn flight_detail_view(leg_id: u128, flight_id: u128, b: ValidatedBooking) -> InsertView {
    InsertView {
        table: "journey_flights"@,
        columns: seq![
            "leg_id"@,
            "flight_id"@,
            "seat"@,
            "cabin"@,
            "booking_reference"@,
            "ticket_number"@,
        ],
        values: placeholders(6),
        on_conflict: None,
        returning: Seq::empty(),
        params: seq![
            SqlValueView::Uuid(Some(leg_id)),
            SqlValueView::Uuid(Some(flight_id)),
            opt_text(b.seat),
            opt_text(b.cabin),
            opt_text(b.booking_reference),
            opt_text(b.ticket_number),
        ],
    }
}

/// The insert attaching the vehicle and route to a drive segment.
pub open spec fn drive_detail_view(leg_id: u128, vehicle_id: Option<i64>, d: ValidatedDrive) -> InsertView {
    InsertView {
        table: "journey_drives"@,
        columns: seq!["leg_id"@, "vehicle_id"@, "role"@, "route_polyline"@],
        values: placeholders(4),
        on_conflict: None,
        returning: Seq::empty(),
        params: seq![
            SqlValueView::Uuid(Some(leg_id)),
            SqlValueView::BigInt(vehicle_id),
            opt_text(d.role),
            opt_text(d.route_polyline),
        ],
    }
}

/// Attach the traveller's booking to a flight segment.
pub fn insert_flight(leg_id: u128, flight_id: u128, booking: &ValidatedBooking) -> (r: Query)
    ensures
        runs_insert(r, flight_detail_view(leg_id, flight_id, *booking)),
{
    let built = Insert::into("journey_flights")
        .set("leg_id", leg_id)
        .set("flight_id", flight_id)
        .set("seat", &booking.seat)
        .set("cabin", &booking.cabin)
        .set("booking_reference", &booking.booking_reference)
        .set("ticket_number", &booking.ticket_number);
    proof {
        let v = flight_detail_view(leg_id, flight_id, *booking);
        reveal_with_fuel(placeholders, 7);
        assert(built@.columns =~= v.columns);
        assert(built@.values =~= v.values);
        assert(built@.returning =~= v.returning);
        assert(built@.params =~= v.params);
        assert(built@ == v);
    }
    built.into_query()
}

/// Attach the vehicle and route to a drive segment.
pub fn insert_drive(leg_id: u128, vehicle_id: Option<i64>, drive: &ValidatedDrive) -> (r: Query)
    ensures
        runs_insert(r, drive_detail_view(leg_id, vehicle_id, *drive)),
{
    let built = Insert::into("journey_drives")
        .set("leg_id", leg_id)
        .set("vehicle_id", vehicle_id)
        .set("role", &drive.role)
        .set("route_polyline", &drive.route_polyline);
    proof {
        let v = drive_detail_view(leg_id, vehicle_id, *drive);
        reveal_with_fuel(placeholders, 5);
        assert(built@.columns =~= v.columns);
        assert(built@.values =~= v.values);
        assert(built@.returning =~= v.returning);
        assert(built@.params =~= v.params);
        assert(built@ == v);
    }
    built.into_query()
}

/// Where a segment's endpoints come from.
#[derive(Debug)]
pub enum Endpoints<'a> {
    /// A flight segment's endpoints, distance and duration all come from its
    /// flight, which is resolved before the parent row is written.
    FromFlight(&'a ValidatedFlight),
    /// Any other segment's endpoints are the places it names, if it names any.
    Named(Option<&'a ValidatedPlace>, Option<&'a ValidatedPlace>),
}

/// `named` is `given`, held by reference.
pub open spec fn names(named: Option<&ValidatedPlace>, given: Option<ValidatedPlace>) -> bool {
    match named {
        Some(p) => given == Some(*p),
        None => given is None,
    }
}

/// Where `segment`'s endpoints come from: its flight for a flight segment, the
/// places it names otherwise.
pub fn endpoints<'a>(segment: &'a ValidatedSegment) -> (r: Endpoints<'a>)
    ensures
        match segment.detail {
            SegmentDetail::Flight { flight, .. } => r matches Endpoints::FromFlight(f) && *f
                == *flight,
            _ => r matches Endpoints::Named(o, d) && names(o, segment.origin) && names(
                d,
                segment.destination,
            ),
        },
{
    match &segment.detail {
        SegmentDetail::Flight { flight, .. } => Endpoints::FromFlight(flight),
        _ => Endpoints::Named(segment.origin.as_ref(), segment.destination.as_ref()),
    }
}

/// The vehicle a segment needs resolved once its leg is written: a drive
/// segment's, when it names one; no other segment has one.
pub fn vehicle_to_resolve<'a>(segment: &'a ValidatedSegment) -> (r: Option<&'a ValidatedVehicle>)
    ensures
        match segment.detail {
            SegmentDetail::Drive(d) => match d.vehicle {
                Some(v) => r matches Some(x) && *x == v,
                None => r is None,
            },
            _ => r is None,
        },
{
    match &segment.detail {
        SegmentDetail::Drive(d) => d.vehicle.as_ref(),
        _ => None,
    }
}

/// The statement attaching a segment's per-mode detail to its leg, once the
/// leg is written: a flight segment's booking against the flight it resolved,
/// a drive segment's route against the vehicle it resolved, and nothing for
/// the modes that have no detail.
pub fn detail_statement(
    leg_id: u128,
    segment: &ValidatedSegment,
    flight_id: Option<u128>,
    vehicle_id: Option<i64>,
) -> (r: Option<Query>)
    requires
        segment.detail is Flight ==> flight_id is Some,
    ensures
        match segment.detail {
            SegmentDetail::Flight { booking, .. } => r matches Some(q) && runs_insert(
                q,
                flight_detail_view(leg_id, flight_id->0, booking),
            ),
            SegmentDetail::Drive(d) => r matches Some(q) && runs_insert(
                q,
                drive_detail_view(leg_id, vehicle_id, d),
            ),
            SegmentDetail::Bare => r is None,
        },
{
    match &segment.detail {
        SegmentDetail::Flight { booking, .. } => {
            Some(insert_flight(leg_id, flight_id.unwrap(), booking))
        },
        SegmentDetail::Drive(d) => Some(insert_drive(leg_id, vehicle_id, d)),
        SegmentDetail::Bare => None,
    }
}

/// Seed the cache with the places mirroring a flight's two airports, so a
/// later leg naming either airport reuses the row.
pub fn seed_flight_airports(
    cache: &mut PlaceCache,
    flight: &ValidatedFlight,
    origin_place_id: i64,
    destination_place_id: i64,
)
    ensures
        final(cache)@ == old(cache)@.insert(airport_key(flight.origin.iata_code@), origin_place_id).insert(
            airport_key(flight.destination.iata_code@),
            destination_place_id,
        ),
{
    let origin = airport_cache_key(flight.origin.iata_code.as_str());
    cache.insert(origin, origin_place_id);
    let destination = airport_cache_key(flight.destination.iata_code.as_str());
    cache.insert(destination, destination_place_id);
}

// ---------------------------------------------------------------------------
// Reading back
// ---------------------------------------------------------------------------

pub const JOURNEY_COLUMNS: [&'static str; 12] = [
    "id",
    "user_id",
    "idempotency_key",
    "title",
    "description",
    "started_at",
    "ended_at",
    "status",
    "visibility",
    "metadata",
    "created_at",
    "updated_at",
];

pub const TOTALS_COLUMNS: [&'static str; 6] = [
    "segment_count",
    "mode_count",
    "total_distance_miles",
    "total_duration_minutes",
    "first_departure_at",
    "last_arrival_at",
];

pub const LEG_COLUMNS: [&'static str; 11] = [
    "id",
    "position",
    "mode",
    "origin_place_id",
    "destination_place_id",
    "started_at",
    "ended_at",
    "duration_minutes",
    "distance_miles",
    "notes",
    "metadata",
];

pub const PLACE_COLUMNS: [&'static str; 9] = [
    "p.id",
    "p.name",
    "p.kind",
    "a.iata_code",
    "p.city",
    "p.country_code",
    "p.latitude::float8 AS latitude",
    "p.longitude::float8 AS longitude",
    "p.timezone",
];

pub const FLIGHT_DETAIL_COLUMNS: [&'static str; 14] = [
    "jf.leg_id",
    "jf.flight_id",
    "f.airline_id",
    "f.flight_number",
    "f.origin_airport_id",
    "f.destination_airport_id",
    "f.distance_miles",
    "f.scheduled_departure_at",
    "f.scheduled_arrival_at",
    "f.status",
    "jf.seat",
    "jf.cabin",
    "jf.booking_reference",
    "jf.ticket_number",
];

pub const DRIVE_COLUMNS: [&'static str; 8] = [
    "jd.leg_id",
    "jd.role",
    "jd.route_polyline",
    "v.id AS vehicle_id",
    "v.nickname",
    "v.make",
    "v.model",
    "v.year",
];

/// A read of `columns` from `from` where `column` equals the one argument.
pub open spec fn lookup_view(
    from: Seq<char>,
    columns: Seq<&str>,
    column: Seq<char>,
    value: SqlValueView,
) -> SelectView {
    SelectView {
        from,
        columns: str_views(columns),
        joins: Seq::empty(),
        conditions: seq![column + " = "@ + placeholder(1)],
        order_by: None,
        params: seq![value],
    }
}

pub open spec fn journey_view(id: u128) -> SelectView {
    lookup_view("journeys"@, JOURNEY_COLUMNS@, "id"@, SqlValueView::Uuid(Some(id)))
}

pub open spec fn totals_view(id: u128) -> SelectView {
    lookup_view("journey_totals"@, TOTALS_COLUMNS@, "journey_id"@, SqlValueView::Uuid(Some(id)))
}

pub open spec fn legs_view(id: u128) -> SelectView {
    SelectView {
        order_by: Some("position"@),
        ..lookup_view("journey_legs"@, LEG_COLUMNS@, "journey_id"@, SqlValueView::Uuid(Some(id)))
    }
}

/// The places the legs name, with the IATA code of those that mirror an
/// airport, in one read whatever their number.
pub open spec fn places_view(ids: Seq<i64>) -> SelectView {
    SelectView {
        from: "places p"@,
        columns: str_views(PLACE_COLUMNS@),
        joins: seq!["LEFT JOIN "@ + "airports a"@ + " ON "@ + "a.id = p.airport_id"@],
        conditions: seq!["p.id"@ + " = ANY("@ + placeholder(1) + ")"@],
        order_by: None,
        params: seq![SqlValueView::BigIntArray(ids)],
    }
}

/// The flight segments' flights and bookings, in one read.
pub open spec fn flights_view(leg_ids: Seq<u128>) -> SelectView {
    SelectView {
        from: "journey_flights jf"@,
        columns: str_views(FLIGHT_DETAIL_COLUMNS@),
        joins: seq!["JOIN "@ + "flights f"@ + " ON "@ + "f.id = jf.flight_id"@],
        conditions: seq!["jf.leg_id"@ + " = ANY("@ + placeholder(1) + ")"@],
        order_by: None,
        params: seq![SqlValueView::UuidArray(leg_ids)],
    }
}

/// The drive segments' drives and vehicles, in one read.
pub open spec fn drives_view(leg_ids: Seq<u128>) -> SelectView {
    SelectView {
        from: "journey_drives jd"@,
        columns: str_views(DRIVE_COLUMNS@),
        joins: seq!["LEFT JOIN "@ + "vehicles v"@ + " ON "@ + "v.id = jd.vehicle_id"@],
        conditions: seq!["jd.leg_id"@ + " = ANY("@ + placeholder(1) + ")"@],
        order_by: None,
        params: seq![SqlValueView::UuidArray(leg_ids)],
    }
}

/// Read the journey row.
pub fn select_journey(id: u128) -> (r: Query)
    ensures
        runs_select(r, journey_view(id)),
{
    let built = Select::from("journeys").columns(&JOURNEY_COLUMNS).where_eq("id", id);
    proof {
        let v = journey_view(id);
        assert(built@.columns =~= v.columns);
        assert(built@.conditions =~= v.conditions);
        assert(built@.params =~= v.params);
        assert(built@.joins =~= v.joins);
        assert(built@ == v);
    }
    built.into_query()
}

/// Read the journey's roll-up across every mode.
pub fn select_totals(id: u128) -> (r: Query)
    ensures
        runs_select(r, totals_view(id)),
{
    let built = Select::from("journey_totals").columns(&TOTALS_COLUMNS).where_eq("journey_id", id);
    proof {
        let v = totals_view(id);
        assert(built@.columns =~= v.columns);
        assert(built@.conditions =~= v.conditions);
        assert(built@.params =~= v.params);
        assert(built@.joins =~= v.joins);
        assert(built@ == v);
    }
    built.into_query()
}

/// Read the journey's legs, in position order.
pub fn select_legs(id: u128) -> (r: Query)
    ensures
        runs_select(r, legs_view(id)),
{
    let built = Select::from("journey_legs").columns(&LEG_COLUMNS).where_eq("journey_id", id).order_by(
        "position",
    );
    proof {
        let v = legs_view(id);
        assert(built@.columns =~= v.columns);
        assert(built@.conditions =~= v.conditions);
        assert(built@.params =~= v.params);
        assert(built@.joins =~= v.joins);
        assert(built@ == v);
    }
    built.into_query()
}

/// Read the places the legs name; nothing to read when they name none.
pub fn select_places(ids: &[i64]) -> (r: Option<Query>)
    ensures
        ids@.len() == 0 ==> r is None,
        ids@.len() > 0 ==> (r matches Some(q) && runs_select(q, places_view(ids@))),
{
    if ids.len() == 0 {
        return None;
    }
    let built = Select::from("places p").columns(&PLACE_COLUMNS).left_join(
        "airports a",
        "a.id = p.airport_id",
    ).where_any_of("p.id", ids);
    proof {
        let v = places_view(ids@);
        assert(built@.columns =~= v.columns);
        assert(built@.conditions =~= v.conditions);
        assert(built@.params =~= v.params);
        assert(built@.joins =~= v.joins);
        assert(built@ == v);
    }
    Some(built.into_query())
}

/// Read the flight segments' flights and bookings; nothing to read for no legs.
pub fn select_flights(leg_ids: &[u128]) -> (r: Option<Query>)
    ensures
        leg_ids@.len() == 0 ==> r is None,
        leg_ids@.len() > 0 ==> (r matches Some(q) && runs_select(q, flights_view(leg_ids@))),
{
    if leg_ids.len() == 0 {
        return None;
    }
    let built = Select::from("journey_flights jf").columns(&FLIGHT_DETAIL_COLUMNS).join(
        "flights f",
        "f.id = jf.flight_id",
    ).where_any_of("jf.leg_id", leg_ids);
    proof {
        let v = flights_view(leg_ids@);
        assert(built@.columns =~= v.columns);
        assert(built@.conditions =~= v.conditions);
        assert(built@.params =~= v.params);
        assert(built@.joins =~= v.joins);
        assert(built@ == v);
    }
    Some(built.into_query())
}

/// Read the drive segments' drives and vehicles; nothing to read for no legs.
pub fn select_drives(leg_ids: &[u128]) -> (r: Option<Query>)
    ensures
        leg_ids@.len() == 0 ==> r is None,
        leg_ids@.len() > 0 ==> (r matches Some(q) && runs_select(q, drives_view(leg_ids@))),
{
    if leg_ids.len() == 0 {
        return None;
    }
    let built = Select::from("journey_drives jd").columns(&DRIVE_COLUMNS).left_join(
        "vehicles v",
        "v.id = jd.vehicle_id",
    ).where_any_of("jd.leg_id", leg_ids);
    proof {
        let v = drives_view(leg_ids@);
        assert(built@.columns =~= v.columns);
        assert(built@.conditions =~= v.conditions);
        assert(built@.params =~= v.params);
        assert(built@.joins =~= v.joins);
        assert(built@ == v);
    }
    Some(built.into_query())
}

/// What the read of the journey row means: the row, or not found.
pub fn journey_found(reply: Result<Option<Journey>, DbError>) -> (r: Result<Journey, ApiError>)
    ensures
        match reply {
            Err(e) => r == Err::<Journey, ApiError>(ApiError::Database(e)),
            Ok(Some(j)) => r == Ok::<Journey, ApiError>(j),
            Ok(None) => r == Err::<Journey, ApiError>(ApiError::NotFound),
        },
{
    match reply {
        Err(e) => Err(ApiError::Database(e)),
        Ok(Some(j)) => Ok(j),
        Ok(None) => Err(ApiError::NotFound),
    }
}

/// A segment's parent row is stored as written: the origin place in
/// `origin_place_id`, the destination in `destination_place_id`, the duration
/// in `duration_minutes` and the distance in `distance_miles`, each value under
/// the column of its own name.
pub proof fn law_leg_insert_writes_each_value_to_its_column(w: LegWrite)
    ensures
        writes(leg_view(w), "journey_id"@, SqlValueView::Uuid(Some(w.journey_id))),
        writes(leg_view(w), "position"@, SqlValueView::Int(Some(w.segment.position))),
        writes(leg_view(w), "mode"@, text(w.segment.mode@)),
        writes(leg_view(w), "origin_place_id"@, SqlValueView::BigInt(w.origin_place_id)),
        writes(leg_view(w), "destination_place_id"@, SqlValueView::BigInt(w.destination_place_id)),
        writes(leg_view(w), "started_at"@, SqlValueView::Timestamp(w.started_at)),
        writes(leg_view(w), "ended_at"@, SqlValueView::Timestamp(w.ended_at)),
        writes(leg_view(w), "duration_minutes"@, SqlValueView::Int(w.duration_minutes)),
        writes(leg_view(w), "distance_miles"@, SqlValueView::Int(w.distance_miles)),
        writes(leg_view(w), "notes"@, opt_text(w.segment.notes)),
        writes(leg_view(w), "metadata"@, SqlValueView::Json(w.segment.metadata@)),
{
    let v = leg_view(w);
    reveal_strlit("destination_place_id");
    reveal_strlit("distance_miles");
    reveal_strlit("duration_minutes");
    reveal_strlit("ended_at");
    reveal_strlit("journey_id");
    reveal_strlit("metadata");
    reveal_strlit("mode");
    reveal_strlit("notes");
    reveal_strlit("origin_place_id");
    reveal_strlit("position");
    reveal_strlit("started_at");
    assert(v.columns =~= seq!["journey_id"@, "position"@, "mode"@, "origin_place_id"@, "destination_place_id"@, "started_at"@, "ended_at"@, "duration_minutes"@, "distance_miles"@, "notes"@, "metadata"@]);
    assert forall|i: int| 0 <= i < v.columns.len() && i != 0 implies v.columns[i] != "journey_id"@ by {
        if i == 1 {
            assert(v.columns[1].len() != "journey_id"@.len());
        } else if i == 2 {
            assert(v.columns[2].len() != "journey_id"@.len());
        } else if i == 3 {
            assert(v.columns[3].len() != "journey_id"@.len());
        } else if i == 4 {
            assert(v.columns[4].len() != "journey_id"@.len());
        } else if i == 5 {
            assert(v.columns[5][0] != "journey_id"@[0]);
        } else if i == 6 {
            assert(v.columns[6].len() != "journey_id"@.len());
        } else if i == 7 {
            assert(v.columns[7].len() != "journey_id"@.len());
        } else if i == 8 {
            assert(v.columns[8].len() != "journey_id"@.len());
        } else if i == 9 {
            assert(v.columns[9].len() != "journey_id"@.len());
        } else if i == 10 {
            assert(v.columns[10].len() != "journey_id"@.len());
        }
    }
    lemma_writes_at(v, 0, "journey_id"@, SqlValueView::Uuid(Some(w.journey_id)));
    assert forall|i: int| 0 <= i < v.columns.len() && i != 1 implies v.columns[i] != "position"@ by {
        if i == 0 {
            assert(v.columns[0].len() != "position"@.len());
        } else if i == 2 {
            assert(v.columns[2].len() != "position"@.len());
        } else if i == 3 {
            assert(v.columns[3].len() != "position"@.len());
        } else if i == 4 {
            assert(v.columns[4].len() != "position"@.len());
        } else if i == 5 {
            assert(v.columns[5].len() != "position"@.len());
        } else if i == 6 {
            assert(v.columns[6][0] != "position"@[0]);
        } else if i == 7 {
            assert(v.columns[7].len() != "position"@.len());
        } else if i == 8 {
            assert(v.columns[8].len() != "position"@.len());
        } else if i == 9 {
            assert(v.columns[9].len() != "position"@.len());
        } else if i == 10 {
            assert(v.columns[10][0] != "position"@[0]);
        }
    }
    lemma_writes_at(v, 1, "position"@, SqlValueView::Int(Some(w.segment.position)));
    assert forall|i: int| 0 <= i < v.columns.len() && i != 2 implies v.columns[i] != "mode"@ by {
        if i == 0 {
            assert(v.columns[0].len() != "mode"@.len());
        } else if i == 1 {
            assert(v.columns[1].len() != "mode"@.len());
        } else if i == 3 {
            assert(v.columns[3].len() != "mode"@.len());
        } else if i == 4 {
            assert(v.columns[4].len() != "mode"@.len());
        } else if i == 5 {
            assert(v.columns[5].len() != "mode"@.len());
        } else if i == 6 {
            assert(v.columns[6].len() != "mode"@.len());
        } else if i == 7 {
            assert(v.columns[7].len() != "mode"@.len());
        } else if i == 8 {
            assert(v.columns[8].len() != "mode"@.len());
        } else if i == 9 {
            assert(v.columns[9].len() != "mode"@.len());
        } else if i == 10 {
            assert(v.columns[10].len() != "mode"@.len());
        }
    }
    lemma_writes_at(v, 2, "mode"@, text(w.segment.mode@));
    assert forall|i: int| 0 <= i < v.columns.len() && i != 3 implies v.columns[i] != "origin_place_id"@ by {
        if i == 0 {
            assert(v.columns[0].len() != "origin_place_id"@.len());
        } else if i == 1 {
            assert(v.columns[1].len() != "origin_place_id"@.len());
        } else if i == 2 {
            assert(v.columns[2].len() != "origin_place_id"@.len());
        } else if i == 4 {
            assert(v.columns[4].len() != "origin_place_id"@.len());
        } else if i == 5 {
            assert(v.columns[5].len() != "origin_place_id"@.len());
        } else if i == 6 {
            assert(v.columns[6].len() != "origin_place_id"@.len());
        } else if i == 7 {
            assert(v.columns[7].len() != "origin_place_id"@.len());
        } else if i == 8 {
            assert(v.columns[8].len() != "origin_place_id"@.len());
        } else if i == 9 {
            assert(v.columns[9].len() != "origin_place_id"@.len());
        } else if i == 10 {
            assert(v.columns[10].len() != "origin_place_id"@.len());
        }
    }
    lemma_writes_at(v, 3, "origin_place_id"@, SqlValueView::BigInt(w.origin_place_id));
    assert forall|i: int| 0 <= i < v.columns.len() && i != 4 implies v.columns[i] != "destination_place_id"@ by {
        if i == 0 {
            assert(v.columns[0].len() != "destination_place_id"@.len());
        } else if i == 1 {
            assert(v.columns[1].len() != "destination_place_id"@.len());
        } else if i == 2 {
            assert(v.columns[2].len() != "destination_place_id"@.len());
        } else if i == 3 {
            assert(v.columns[3].len() != "destination_place_id"@.len());
        } else if i == 5 {
            assert(v.columns[5].len() != "destination_place_id"@.len());
        } else if i == 6 {
            assert(v.columns[6].len() != "destination_place_id"@.len());
        } else if i == 7 {
            assert(v.columns[7].len() != "destination_place_id"@.len());
        } else if i == 8 {
            assert(v.columns[8].len() != "destination_place_id"@.len());
        } else if i == 9 {
            assert(v.columns[9].len() != "destination_place_id"@.len());
        } else if i == 10 {
            assert(v.columns[10].len() != "destination_place_id"@.len());
        }
    }
    lemma_writes_at(v, 4, "destination_place_id"@, SqlValueView::BigInt(w.destination_place_id));
    assert forall|i: int| 0 <= i < v.columns.len() && i != 5 implies v.columns[i] != "started_at"@ by {
        if i == 0 {
            assert(v.columns[0][0] != "started_at"@[0]);
        } else if i == 1 {
            assert(v.columns[1].len() != "started_at"@.len());
        } else if i == 2 {
            assert(v.columns[2].len() != "started_at"@.len());
        } else if i == 3 {
            assert(v.columns[3].len() != "started_at"@.len());
        } else if i == 4 {
            assert(v.columns[4].len() != "started_at"@.len());
        } else if i == 6 {
            assert(v.columns[6].len() != "started_at"@.len());
        } else if i == 7 {
            assert(v.columns[7].len() != "started_at"@.len());
        } else if i == 8 {
            assert(v.columns[8].len() != "started_at"@.len());
        } else if i == 9 {
            assert(v.columns[9].len() != "started_at"@.len());
        } else if i == 10 {
            assert(v.columns[10].len() != "started_at"@.len());
        }
    }
    lemma_writes_at(v, 5, "started_at"@, SqlValueView::Timestamp(w.started_at));
    assert forall|i: int| 0 <= i < v.columns.len() && i != 6 implies v.columns[i] != "ended_at"@ by {
        if i == 0 {
            assert(v.columns[0].len() != "ended_at"@.len());
        } else if i == 1 {
            assert(v.columns[1][0] != "ended_at"@[0]);
        } else if i == 2 {
            assert(v.columns[2].len() != "ended_at"@.len());
        } else if i == 3 {
            assert(v.columns[3].len() != "ended_at"@.len());
        } else if i == 4 {
            assert(v.columns[4].len() != "ended_at"@.len());
        } else if i == 5 {
            assert(v.columns[5].len() != "ended_at"@.len());
        } else if i == 7 {
            assert(v.columns[7].len() != "ended_at"@.len());
        } else if i == 8 {
            assert(v.columns[8].len() != "ended_at"@.len());
        } else if i == 9 {
            assert(v.columns[9].len() != "ended_at"@.len());
        } else if i == 10 {
            assert(v.columns[10][0] != "ended_at"@[0]);
        }
    }
    lemma_writes_at(v, 6, "ended_at"@, SqlValueView::Timestamp(w.ended_at));
    assert forall|i: int| 0 <= i < v.columns.len() && i != 7 implies v.columns[i] != "duration_minutes"@ by {
        if i == 0 {
            assert(v.columns[0].len() != "duration_minutes"@.len());
        } else if i == 1 {
            assert(v.columns[1].len() != "duration_minutes"@.len());
        } else if i == 2 {
            assert(v.columns[2].len() != "duration_minutes"@.len());
        } else if i == 3 {
            assert(v.columns[3].len() != "duration_minutes"@.len());
        } else if i == 4 {
            assert(v.columns[4].len() != "duration_minutes"@.len());
        } else if i == 5 {
            assert(v.columns[5].len() != "duration_minutes"@.len());
        } else if i == 6 {
            assert(v.columns[6].len() != "duration_minutes"@.len());
        } else if i == 8 {
            assert(v.columns[8].len() != "duration_minutes"@.len());
        } else if i == 9 {
            assert(v.columns[9].len() != "duration_minutes"@.len());
        } else if i == 10 {
            assert(v.columns[10].len() != "duration_minutes"@.len());
        }
    }
    lemma_writes_at(v, 7, "duration_minutes"@, SqlValueView::Int(w.duration_minutes));
    assert forall|i: int| 0 <= i < v.columns.len() && i != 8 implies v.columns[i] != "distance_miles"@ by {
        if i == 0 {
            assert(v.columns[0].len() != "distance_miles"@.len());
        } else if i == 1 {
            assert(v.columns[1].len() != "distance_miles"@.len());
        } else if i == 2 {
            assert(v.columns[2].len() != "distance_miles"@.len());
        } else if i == 3 {
            assert(v.columns[3].len() != "distance_miles"@.len());
        } else if i == 4 {
            assert(v.columns[4].len() != "distance_miles"@.len());
        } else if i == 5 {
            assert(v.columns[5].len() != "distance_miles"@.len());
        } else if i == 6 {
            assert(v.columns[6].len() != "distance_miles"@.len());
        } else if i == 7 {
            assert(v.columns[7].len() != "distance_miles"@.len());
        } else if i == 9 {
            assert(v.columns[9].len() != "distance_miles"@.len());
        } else if i == 10 {
            assert(v.columns[10].len() != "distance_miles"@.len());
        }
    }
    lemma_writes_at(v, 8, "distance_miles"@, SqlValueView::Int(w.distance_miles));
    assert forall|i: int| 0 <= i < v.columns.len() && i != 9 implies v.columns[i] != "notes"@ by {
        if i == 0 {
            assert(v.columns[0].len() != "notes"@.len());
        } else if i == 1 {
            assert(v.columns[1].len() != "notes"@.len());
        } else if i == 2 {
            assert(v.columns[2].len() != "notes"@.len());
        } else if i == 3 {
            assert(v.columns[3].len() != "notes"@.len());
        } else if i == 4 {
            assert(v.columns[4].len() != "notes"@.len());
        } else if i == 5 {
            assert(v.columns[5].len() != "notes"@.len());
        } else if i == 6 {
            assert(v.columns[6].len() != "notes"@.len());
        } else if i == 7 {
            assert(v.columns[7].len() != "notes"@.len());
        } else if i == 8 {
            assert(v.columns[8].len() != "notes"@.len());
        } else if i == 10 {
            assert(v.columns[10].len() != "notes"@.len());
        }
    }
    lemma_writes_at(v, 9, "notes"@, opt_text(w.segment.notes));
    assert forall|i: int| 0 <= i < v.columns.len() && i != 10 implies v.columns[i] != "metadata"@ by {
        if i == 0 {
            assert(v.columns[0].len() != "metadata"@.len());
        } else if i == 1 {
            assert(v.columns[1][0] != "metadata"@[0]);
        } else if i == 2 {
            assert(v.columns[2].len() != "metadata"@.len());
        } else if i == 3 {
            assert(v.columns[3].len() != "metadata"@.len());
        } else if i == 4 {
            assert(v.columns[4].len() != "metadata"@.len());
        } else if i == 5 {
            assert(v.columns[5].len() != "metadata"@.len());
        } else if i == 6 {
            assert(v.columns[6][0] != "metadata"@[0]);
        } else if i == 7 {
            assert(v.columns[7].len() != "metadata"@.len());
        } else if i == 8 {
            assert(v.columns[8].len() != "metadata"@.len());
        } else if i == 9 {
            assert(v.columns[9].len() != "metadata"@.len());
        }
    }
    lemma_writes_at(v, 10, "metadata"@, SqlValueView::Json(w.segment.metadata@));
}

/// The journey row is stored as validated, each value under the column of
/// its own name.
pub proof fn law_journey_insert_writes_each_value_to_its_column(j: ValidatedJourney)
    ensures
        writes(insert_view(j), "user_id"@, SqlValueView::Uuid(Some(j.user_id))),
        writes(insert_view(j), "idempotency_key"@, opt_text(j.idempotency_key)),
        writes(insert_view(j), "title"@, text(j.title@)),
        writes(insert_view(j), "description"@, opt_text(j.description)),
        writes(insert_view(j), "started_at"@, SqlValueView::Timestamp(j.started_at)),
        writes(insert_view(j), "ended_at"@, SqlValueView::Timestamp(j.ended_at)),
        writes(insert_view(j), "status"@, text(j.status@)),
        writes(insert_view(j), "visibility"@, text(j.visibility@)),
        writes(insert_view(j), "metadata"@, SqlValueView::Json(j.metadata@)),
{
    let v = insert_view(j);
    reveal_strlit("description");
    reveal_strlit("ended_at");
    reveal_strlit("idempotency_key");
    reveal_strlit("metadata");
    reveal_strlit("started_at");
    reveal_strlit("status");
    reveal_strlit("title");
    reveal_strlit("user_id");
    reveal_strlit("visibility");
    assert(v.columns =~= seq!["user_id"@, "idempotency_key"@, "title"@, "description"@, "started_at"@, "ended_at"@, "status"@, "visibility"@, "metadata"@]);
    assert forall|i: int| 0 <= i < v.columns.len() && i != 0 implies v.columns[i] != "user_id"@ by {
        if i == 1 {
            assert(v.columns[1].len() != "user_id"@.len());
        } else if i == 2 {
            assert(v.columns[2].len() != "user_id"@.len());
        } else if i == 3 {
            assert(v.columns[3].len() != "user_id"@.len());
        } else if i == 4 {
            assert(v.columns[4].len() != "user_id"@.len());
        } else if i == 5 {
            assert(v.columns[5].len() != "user_id"@.len());
        } else if i == 6 {
            assert(v.columns[6].len() != "user_id"@.len());
        } else if i == 7 {
            assert(v.columns[7].len() != "user_id"@.len());
        } else if i == 8 {
            assert(v.columns[8].len() != "user_id"@.len());
        }
    }
    lemma_writes_at(v, 0, "user_id"@, SqlValueView::Uuid(Some(j.user_id)));
    assert forall|i: int| 0 <= i < v.columns.len() && i != 1 implies v.columns[i] != "idempotency_key"@ by {
        if i == 0 {
            assert(v.columns[0].len() != "idempotency_key"@.len());
        } else if i == 2 {
            assert(v.columns[2].len() != "idempotency_key"@.len());
        } else if i == 3 {
            assert(v.columns[3].len() != "idempotency_key"@.len());
        } else if i == 4 {
            assert(v.columns[4].len() != "idempotency_key"@.len());
        } else if i == 5 {
            assert(v.columns[5].len() != "idempotency_key"@.len());
        } else if i == 6 {
            assert(v.columns[6].len() != "idempotency_key"@.len());
        } else if i == 7 {
            assert(v.columns[7].len() != "idempotency_key"@.len());
        } else if i == 8 {
            assert(v.columns[8].len() != "idempotency_key"@.len());
        }
    }
    lemma_writes_at(v, 1, "idempotency_key"@, opt_text(j.idempotency_key));
    assert forall|i: int| 0 <= i < v.columns.len() && i != 2 implies v.columns[i] != "title"@ by {
        if i == 0 {
            assert(v.columns[0].len() != "title"@.len());
        } else if i == 1 {
            assert(v.columns[1].len() != "title"@.len());
        } else if i == 3 {
            assert(v.columns[3].len() != "title"@.len());
        } else if i == 4 {
            assert(v.columns[4].len() != "title"@.len());
        } else if i == 5 {
            assert(v.columns[5].len() != "title"@.len());
        } else if i == 6 {
            assert(v.columns[6].len() != "title"@.len());
        } else if i == 7 {
            assert(v.columns[7].len() != "title"@.len());
        } else if i == 8 {
            assert(v.columns[8].len() != "title"@.len());
        }
    }
    lemma_writes_at(v, 2, "title"@, text(j.title@));
    assert forall|i: int| 0 <= i < v.columns.len() && i != 3 implies v.columns[i] != "description"@ by {
        if i == 0 {
            assert(v.columns[0].len() != "description"@.len());
        } else if i == 1 {
            assert(v.columns[1].len() != "description"@.len());
        } else if i == 2 {
            assert(v.columns[2].len() != "description"@.len());
        } else if i == 4 {
            assert(v.columns[4].len() != "description"@.len());
        } else if i == 5 {
            assert(v.columns[5].len() != "description"@.len());
        } else if i == 6 {
            assert(v.columns[6].len() != "description"@.len());
        } else if i == 7 {
            assert(v.columns[7].len() != "description"@.len());
        } else if i == 8 {
            assert(v.columns[8].len() != "description"@.len());
        }
    }
    lemma_writes_at(v, 3, "description"@, opt_text(j.description));
    assert forall|i: int| 0 <= i < v.columns.len() && i != 4 implies v.columns[i] != "started_at"@ by {
        if i == 0 {
            assert(v.columns[0].len() != "started_at"@.len());
        } else if i == 1 {
            assert(v.columns[1].len() != "started_at"@.len());
        } else if i == 2 {
            assert(v.columns[2].len() != "started_at"@.len());
        } else if i == 3 {
            assert(v.columns[3].len() != "started_at"@.len());
        } else if i == 5 {
            assert(v.columns[5].len() != "started_at"@.len());
        } else if i == 6 {
            assert(v.columns[6].len() != "started_at"@.len());
        } else if i == 7 {
            assert(v.columns[7][0] != "started_at"@[0]);
        } else if i == 8 {
            assert(v.columns[8].len() != "started_at"@.len());
        }
    }
    lemma_writes_at(v, 4, "started_at"@, SqlValueView::Timestamp(j.started_at));
    assert forall|i: int| 0 <= i < v.columns.len() && i != 5 implies v.columns[i] != "ended_at"@ by {
        if i == 0 {
            assert(v.columns[0].len() != "ended_at"@.len());
        } else if i == 1 {
            assert(v.columns[1].len() != "ended_at"@.len());
        } else if i == 2 {
            assert(v.columns[2].len() != "ended_at"@.len());
        } else if i == 3 {
            assert(v.columns[3].len() != "ended_at"@.len());
        } else if i == 4 {
            assert(v.columns[4].len() != "ended_at"@.len());
        } else if i == 6 {
            assert(v.columns[6].len() != "ended_at"@.len());
        } else if i == 7 {
            assert(v.columns[7].len() != "ended_at"@.len());
        } else if i == 8 {
            assert(v.columns[8][0] != "ended_at"@[0]);
        }
    }
    lemma_writes_at(v, 5, "ended_at"@, SqlValueView::Timestamp(j.ended_at));
    assert forall|i: int| 0 <= i < v.columns.len() && i != 6 implies v.columns[i] != "status"@ by {
        if i == 0 {
            assert(v.columns[0].len() != "status"@.len());
        } else if i == 1 {
            assert(v.columns[1].len() != "status"@.len());
        } else if i == 2 {
            assert(v.columns[2].len() != "status"@.len());
        } else if i == 3 {
            assert(v.columns[3].len() != "status"@.len());
        } else if i == 4 {
            assert(v.columns[4].len() != "status"@.len());
        } else if i == 5 {
            assert(v.columns[5].len() != "status"@.len());
        } else if i == 7 {
            assert(v.columns[7].len() != "status"@.len());
        } else if i == 8 {
            assert(v.columns[8].len() != "status"@.len());
        }
    }
    lemma_writes_at(v, 6, "status"@, text(j.status@));
    assert forall|i: int| 0 <= i < v.columns.len() && i != 7 implies v.columns[i] != "visibility"@ by {
        if i == 0 {
            assert(v.columns[0].len() != "visibility"@.len());
        } else if i == 1 {
            assert(v.columns[1].len() != "visibility"@.len());
        } else if i == 2 {
            assert(v.columns[2].len() != "visibility"@.len());
        } else if i == 3 {
            assert(v.columns[3].len() != "visibility"@.len());
        } else if i == 4 {
            assert(v.columns[4][0] != "visibility"@[0]);
        } else if i == 5 {
            assert(v.columns[5].len() != "visibility"@.len());
        } else if i == 6 {
            assert(v.columns[6].len() != "visibility"@.len());
        } else if i == 8 {
            assert(v.columns[8].len() != "visibility"@.len());
        }
    }
    lemma_writes_at(v, 7, "visibility"@, text(j.visibility@));
    assert forall|i: int| 0 <= i < v.columns.len() && i != 8 implies v.columns[i] != "metadata"@ by {
        if i == 0 {
            assert(v.columns[0].len() != "metadata"@.len());
        } else if i == 1 {
            assert(v.columns[1].len() != "metadata"@.len());
        } else if i == 2 {
            assert(v.columns[2].len() != "metadata"@.len());
        } else if i == 3 {
            assert(v.columns[3].len() != "metadata"@.len());
        } else if i == 4 {
            assert(v.columns[4].len() != "metadata"@.len());
        } else if i == 5 {
            assert(v.columns[5][0] != "metadata"@[0]);
        } else if i == 6 {
            assert(v.columns[6].len() != "metadata"@.len());
        } else if i == 7 {
            assert(v.columns[7].len() != "metadata"@.len());
        }
    }
    lemma_writes_at(v, 8, "metadata"@, SqlValueView::Json(j.metadata@));
}

/// A flight segment's booking is attached to its own leg and flight, each
/// value under the column of its own name.
pub proof fn law_flight_detail_writes_each_value_to_its_column(leg_id: u128, flight_id: u128, b: ValidatedBooking)
    ensures
        writes(flight_detail_view(leg_id, flight_id, b), "leg_id"@, SqlValueView::Uuid(Some(leg_id))),
        writes(flight_detail_view(leg_id, flight_id, b), "flight_id"@, SqlValueView::Uuid(Some(flight_id))),
        writes(flight_detail_view(leg_id, flight_id, b), "seat"@, opt_text(b.seat)),
        writes(flight_detail_view(leg_id, flight_id, b), "cabin"@, opt_text(b.cabin)),
        writes(flight_detail_view(leg_id, flight_id, b), "booking_reference"@, opt_text(b.booking_reference)),
        writes(flight_detail_view(leg_id, flight_id, b), "ticket_number"@, opt_text(b.ticket_number)),
{
    let v = flight_detail_view(leg_id, flight_id, b);
    reveal_strlit("booking_reference");
    reveal_strlit("cabin");
    reveal_strlit("flight_id");
    reveal_strlit("leg_id");
    reveal_strlit("seat");
    reveal_strlit("ticket_number");
    assert(v.columns =~= seq!["leg_id"@, "flight_id"@, "seat"@, "cabin"@, "booking_reference"@, "ticket_number"@]);
    assert forall|i: int| 0 <= i < v.columns.len() && i != 0 implies v.columns[i] != "leg_id"@ by {
        if i == 1 {
            assert(v.columns[1].len() != "leg_id"@.len());
        } else if i == 2 {
            assert(v.columns[2].len() != "leg_id"@.len());
        } else if i == 3 {
            assert(v.columns[3].len() != "leg_id"@.len());
        } else if i == 4 {
            assert(v.columns[4].len() != "leg_id"@.len());
        } else if i == 5 {
            assert(v.columns[5].len() != "leg_id"@.len());
        }
    }
    lemma_writes_at(v, 0, "leg_id"@, SqlValueView::Uuid(Some(leg_id)));
    assert forall|i: int| 0 <= i < v.columns.len() && i != 1 implies v.columns[i] != "flight_id"@ by {
        if i == 0 {
            assert(v.columns[0].len() != "flight_id"@.len());
        } else if i == 2 {
            assert(v.columns[2].len() != "flight_id"@.len());
        } else if i == 3 {
            assert(v.columns[3].len() != "flight_id"@.len());
        } else if i == 4 {
            assert(v.columns[4].len() != "flight_id"@.len());
        } else if i == 5 {
            assert(v.columns[5].len() != "flight_id"@.len());
        }
    }
    lemma_writes_at(v, 1, "flight_id"@, SqlValueView::Uuid(Some(flight_id)));
    assert forall|i: int| 0 <= i < v.columns.len() && i != 2 implies v.columns[i] != "seat"@ by {
        if i == 0 {
            assert(v.columns[0].len() != "seat"@.len());
        } else if i == 1 {
            assert(v.columns[1].len() != "seat"@.len());
        } else if i == 3 {
            assert(v.columns[3].len() != "seat"@.len());
        } else if i == 4 {
            assert(v.columns[4].len() != "seat"@.len());
        } else if i == 5 {
            assert(v.columns[5].len() != "seat"@.len());
        }
    }
    lemma_writes_at(v, 2, "seat"@, opt_text(b.seat));
    assert forall|i: int| 0 <= i < v.columns.len() && i != 3 implies v.columns[i] != "cabin"@ by {
        if i == 0 {
            assert(v.columns[0].len() != "cabin"@.len());
        } else if i == 1 {
            assert(v.columns[1].len() != "cabin"@.len());
        } else if i == 2 {
            assert(v.columns[2].len() != "cabin"@.len());
        } else if i == 4 {
            assert(v.columns[4].len() != "cabin"@.len());
        } else if i == 5 {
            assert(v.columns[5].len() != "cabin"@.len());
        }
    }
    lemma_writes_at(v, 3, "cabin"@, opt_text(b.cabin));
    assert forall|i: int| 0 <= i < v.columns.len() && i != 4 implies v.columns[i] != "booking_reference"@ by {
        if i == 0 {
            assert(v.columns[0].len() != "booking_reference"@.len());
        } else if i == 1 {
            assert(v.columns[1].len() != "booking_reference"@.len());
        } else if i == 2 {
            assert(v.columns[2].len() != "booking_reference"@.len());
        } else if i == 3 {
            assert(v.columns[3].len() != "booking_reference"@.len());
        } else if i == 5 {
            assert(v.columns[5].len() != "booking_reference"@.len());
        }
    }
    lemma_writes_at(v, 4, "booking_reference"@, opt_text(b.booking_reference));
    assert forall|i: int| 0 <= i < v.columns.len() && i != 5 implies v.columns[i] != "ticket_number"@ by {
        if i == 0 {
            assert(v.columns[0].len() != "ticket_number"@.len());
        } else if i == 1 {
            assert(v.columns[1].len() != "ticket_number"@.len());
        } else if i == 2 {
            assert(v.columns[2].len() != "ticket_number"@.len());
        } else if i == 3 {
            assert(v.columns[3].len() != "ticket_number"@.len());
        } else if i == 4 {
            assert(v.columns[4].len() != "ticket_number"@.len());
        }
    }
    lemma_writes_at(v, 5, "ticket_number"@, opt_text(b.ticket_number));
}

/// A drive segment's route is attached to its own leg and vehicle, each value
/// under the column of its own name.
pub proof fn law_drive_detail_writes_each_value_to_its_column(leg_id: u128, vehicle_id: Option<i64>, d: ValidatedDrive)
    ensures
        writes(drive_detail_view(leg_id, vehicle_id, d), "leg_id"@, SqlValueView::Uuid(Some(leg_id))),
        writes(drive_detail_view(leg_id, vehicle_id, d), "vehicle_id"@, SqlValueView::BigInt(vehicle_id)),
        writes(drive_detail_view(leg_id, vehicle_id, d), "role"@, opt_text(d.role)),
        writes(drive_detail_view(leg_id, vehicle_id, d), "route_polyline"@, opt_text(d.route_polyline)),
{
    let v = drive_detail_view(leg_id, vehicle_id, d);
    reveal_strlit("leg_id");
    reveal_strlit("role");
    reveal_strlit("route_polyline");
    reveal_strlit("vehicle_id");
    assert(v.columns =~= seq!["leg_id"@, "vehicle_id"@, "role"@, "route_polyline"@]);
    assert forall|i: int| 0 <= i < v.columns.len() && i != 0 implies v.columns[i] != "leg_id"@ by {
        if i == 1 {
            assert(v.columns[1].len() != "leg_id"@.len());
        } else if i == 2 {
            assert(v.columns[2].len() != "leg_id"@.len());
        } else if i == 3 {
            assert(v.columns[3].len() != "leg_id"@.len());
        }
    }
    lemma_writes_at(v, 0, "leg_id"@, SqlValueView::Uuid(Some(leg_id)));
    assert forall|i: int| 0 <= i < v.columns.len() && i != 1 implies v.columns[i] != "vehicle_id"@ by {
        if i == 0 {
            assert(v.columns[0].len() != "vehicle_id"@.len());
        } else if i == 2 {
            assert(v.columns[2].len() != "vehicle_id"@.len());
        } else if i == 3 {
            assert(v.columns[3].len() != "vehicle_id"@.len());
        }
    }
    lemma_writes_at(v, 1, "vehicle_id"@, SqlValueView::BigInt(vehicle_id));
    assert forall|i: int| 0 <= i < v.columns.len() && i != 2 implies v.columns[i] != "role"@ by {
        if i == 0 {
            assert(v.columns[0].len() != "role"@.len());
        } else if i == 1 {
            assert(v.columns[1].len() != "role"@.len());
        } else if i == 3 {
            assert(v.columns[3].len() != "role"@.len());
        }
    }
    lemma_writes_at(v, 2, "role"@, opt_text(d.role));
    assert forall|i: int| 0 <= i < v.columns.len() && i != 3 implies v.columns[i] != "route_polyline"@ by {
        if i == 0 {
            assert(v.columns[0].len() != "route_polyline"@.len());
        } else if i == 1 {
            assert(v.columns[1].len() != "route_polyline"@.len());
        } else if i == 2 {
            assert(v.columns[2].len() != "route_polyline"@.len());
        }
    }
    lemma_writes_at(v, 3, "route_polyline"@, opt_text(d.route_polyline));
}

/// A replay is looked up under the requesting user and the key sent: each
/// condition compares a column with the value of the same name.
pub proof fn law_replay_lookup_compares_each_key_with_its_value(user_id: u128, key: Seq<char>)
    ensures
        compares(by_key_view(user_id, key), "user_id"@, SqlValueView::Uuid(Some(user_id))),
        compares(by_key_view(user_id, key), "idempotency_key"@, text(key)),
{
    let v = by_key_view(user_id, key);
    assert(v.conditions[0] == "user_id"@ + " = "@ + placeholder((0 + 1) as nat));
    assert(v.conditions[1] == "idempotency_key"@ + " = "@ + placeholder((1 + 1) as nat));
}

} // verus!
