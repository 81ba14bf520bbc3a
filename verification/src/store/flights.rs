//! `flights`, keyed on the natural (airline, number, departure) triple.

use vstd::prelude::*;
use vstd::string::*;

use crate::error::{check_violation, check_violation_code, has_code, ApiError, DbError};
use crate::flight::{Flight, FlightUpsert, ValidatedFlight};
use crate::sql_builder::insert::{do_nothing_clause, lemma_writes_at, writes, Insert, InsertView};
use crate::sql_builder::params::placeholder;
use crate::sql_builder::query::Query;
use crate::sql_builder::select::{compares, Select, SelectView};
use crate::sql_builder::value::SqlValueView;
use crate::store::steps::{conflict_with, opt_text, placeholders, runs_insert, runs_select, text, Stage, Step};
use crate::text::views;

verus! {

/// Every column of `flights`: the insert returns exactly this set, the
/// read-back selects it, and a [`Flight`] is made of it.
pub const FLIGHT_COLUMNS: [&'static str; 19] = [
    "id",
    "airline_id",
    "flight_number",
    "origin_airport_id",
    "destination_airport_id",
    "distance_miles",
    "scheduled_departure_at",
    "scheduled_arrival_at",
    "actual_departure_at",
    "actual_arrival_at",
    "status",
    "departure_terminal",
    "departure_gate",
    "arrival_terminal",
    "arrival_gate",
    "aircraft_type",
    "aircraft_registration",
    "created_at",
    "updated_at",
];

/// The triple that makes a flight the same flight.
pub const NATURAL_KEY: [&'static str; 3] = ["airline_id", "flight_number", "scheduled_departure_at"];

pub open spec fn flight_columns() -> Seq<Seq<char>> {
    seq![
        "id"@,
        "airline_id"@,
        "flight_number"@,
        "origin_airport_id"@,
        "destination_airport_id"@,
        "distance_miles"@,
        "scheduled_departure_at"@,
        "scheduled_arrival_at"@,
        "actual_departure_at"@,
        "actual_arrival_at"@,
        "status"@,
        "departure_terminal"@,
        "departure_gate"@,
        "arrival_terminal"@,
        "arrival_gate"@,
        "aircraft_type"@,
        "aircraft_registration"@,
        "created_at"@,
        "updated_at"@,
    ]
}

pub open spec fn natural_key() -> Seq<Seq<char>> {
    seq!["airline_id"@, "flight_number"@, "scheduled_departure_at"@]
}

/// The insert-if-absent of a flight between two resolved airports, with the
/// distance derived from them.
pub open spec fn insert_view(
    f: ValidatedFlight,
    airline_id: i64,
    origin_airport_id: i64,
    destination_airport_id: i64,
    distance_miles: Option<i32>,
) -> InsertView {
    InsertView {
        table: "flights"@,
        columns: flight_columns().subrange(1, 17),
        values: placeholders(16),
        on_conflict: Some(do_nothing_clause(natural_key())),
        returning: flight_columns(),
        params: seq![
            SqlValueView::BigInt(Some(airline_id)),
            text(f.flight_number@),
            SqlValueView::BigInt(Some(origin_airport_id)),
            SqlValueView::BigInt(Some(destination_airport_id)),
            SqlValueView::Int(distance_miles),
            SqlValueView::Timestamp(Some(f.scheduled_departure_at)),
            SqlValueView::Timestamp(Some(f.scheduled_arrival_at)),
            SqlValueView::Timestamp(f.actual_departure_at),
            SqlValueView::Timestamp(f.actual_arrival_at),
            text(f.status@),
            opt_text(f.departure_terminal),
            opt_text(f.departure_gate),
            opt_text(f.arrival_terminal),
            opt_text(f.arrival_gate),
            opt_text(f.aircraft_type),
            opt_text(f.aircraft_registration),
        ],
    }
}

/// The read of the row an identical earlier request wrote.
pub open spec fn existing_view(f: ValidatedFlight, airline_id: i64) -> SelectView {
    SelectView {
        from: "flights"@,
        columns: flight_columns(),
        joins: Seq::empty(),
        conditions: seq![
            "airline_id"@ + " = "@ + placeholder(1),
            "flight_number"@ + " = "@ + placeholder(2),
            "scheduled_departure_at"@ + " = "@ + placeholder(3),
        ],
        order_by: None,
        params: seq![
            SqlValueView::BigInt(Some(airline_id)),
            text(f.flight_number@),
            SqlValueView::Timestamp(Some(f.scheduled_departure_at)),
        ],
    }
}

pub open spec fn race_message() -> Seq<char> {
    "this flight is being created by another request; retry"@
}

/// How a failed flight insert is reported: a check constraint by name, as a
/// validation failure; anything else as a database failure.
pub open spec fn insert_failure(e: DbError, err: ApiError) -> bool {
    if has_code(e, check_violation_code()) && e.constraint is Some {
        err matches ApiError::Validation(v) && views(v@) == seq![
            "the flight violates "@ + e.constraint->0@,
        ]
    } else {
        err == ApiError::Database(e)
    }
}

/// Insert the flight unless the same (airline, number, departure) exists,
/// reading back every column.
pub fn insert(
    flight: &ValidatedFlight,
    airline_id: i64,
    origin_airport_id: i64,
    destination_airport_id: i64,
    distance_miles: Option<i32>,
) -> (r: Query)
    ensures
        runs_insert(
            r,
            insert_view(*flight, airline_id, origin_airport_id, destination_airport_id, distance_miles),
        ),
{
    let built = Insert::into("flights")
        .set("airline_id", airline_id)
        .set("flight_number", &flight.flight_number)
        .set("origin_airport_id", origin_airport_id)
        .set("destination_airport_id", destination_airport_id)
        .set("distance_miles", distance_miles)
        .set("scheduled_departure_at", flight.scheduled_departure_at)
        .set("scheduled_arrival_at", flight.scheduled_arrival_at)
        .set("actual_departure_at", flight.actual_departure_at)
        .set("actual_arrival_at", flight.actual_arrival_at)
        .set("status", &flight.status)
        .set("departure_terminal", &flight.departure_terminal)
        .set("departure_gate", &flight.departure_gate)
        .set("arrival_terminal", &flight.arrival_terminal)
        .set("arrival_gate", &flight.arrival_gate)
        .set("aircraft_type", &flight.aircraft_type)
        .set("aircraft_registration", &flight.aircraft_registration)
        .on_conflict_do_nothing(&NATURAL_KEY)
        .returning(&FLIGHT_COLUMNS);
    proof {
        let v = insert_view(
            *flight,
            airline_id,
            origin_airport_id,
            destination_airport_id,
            distance_miles,
        );
        reveal_with_fuel(placeholders, 17);
        assert(built@.columns =~= v.columns);
        assert(built@.values =~= v.values);
        assert(built@.returning =~= v.returning);
        assert(built@.params =~= v.params);
        assert(built@.on_conflict == v.on_conflict) by {
            assert(NATURAL_KEY@.map_values(|s: &str| s@) =~= natural_key());
        }
        assert(built@ == v);
    }
    built.into_query()
}

/// Read the flight an identical earlier request wrote.
pub fn existing(flight: &ValidatedFlight, airline_id: i64) -> (r: Query)
    ensures
        runs_select(r, existing_view(*flight, airline_id)),
{
    let built = Select::from("flights")
        .columns(&FLIGHT_COLUMNS)
        .where_eq("airline_id", airline_id)
        .where_eq("flight_number", &flight.flight_number)
        .where_eq("scheduled_departure_at", flight.scheduled_departure_at);
    proof {
        let v = existing_view(*flight, airline_id);
        assert(built@.columns =~= v.columns);
        assert(built@.conditions =~= v.conditions);
        assert(built@.params =~= v.params);
        assert(built@.joins =~= v.joins);
        assert(built@ == v);
    }
    built.into_query()
}

/// Where resolving a flight starts: the insert. The natural key makes it
/// idempotent, so replaying a request is a read, not a duplicate and not a
/// conflict.
pub fn start(
    flight: &ValidatedFlight,
    airline_id: i64,
    origin_airport_id: i64,
    destination_airport_id: i64,
    distance_miles: Option<i32>,
) -> (r: Step<FlightUpsert>)
    ensures
        r matches Step::Run(Stage::Insert, q) && runs_insert(
            q,
            insert_view(*flight, airline_id, origin_airport_id, destination_airport_id, distance_miles),
        ),
{
    Step::Run(
        Stage::Insert,
        insert(flight, airline_id, origin_airport_id, destination_airport_id, distance_miles),
    )
}

/// How resolving a flight goes on once the statement run at `stage` has
/// answered `reply`.
pub open spec fn flight_advances(
    flight: ValidatedFlight,
    airline_id: i64,
    stage: Stage,
    reply: Result<Option<Flight>, DbError>,
    r: Step<FlightUpsert>,
) -> bool {
    match reply {
        Err(e) => match stage {
            Stage::Insert => r matches Step::Failed(err) && insert_failure(e, err),
            _ => r == Step::<FlightUpsert>::Failed(ApiError::Database(e)),
        },
        Ok(Some(row)) => match stage {
            Stage::Insert => r == Step::Done(FlightUpsert::Created(row)),
            _ => r == Step::Done(FlightUpsert::AlreadyExists(row)),
        },
        Ok(None) => match stage {
            Stage::Insert => r matches Step::Run(Stage::LookupAgain, q) && runs_select(
                q,
                existing_view(flight, airline_id),
            ),
            _ => r matches Step::Failed(err) && conflict_with(err, race_message()),
        },
    }
}

/// The next step once the statement run at `stage` has answered `reply`: a
/// row back from the insert is this request's; no row means the flight was
/// already there, so read it; a read that finds nothing means a concurrent
/// request is still writing it.
pub fn advance(
    flight: &ValidatedFlight,
    airline_id: i64,
    stage: Stage,
    reply: Result<Option<Flight>, DbError>,
) -> (r: Step<FlightUpsert>)
    ensures
        flight_advances(*flight, airline_id, stage, reply, r),
{
    match reply {
        Err(e) => {
            if stage == Stage::Insert {
                Step::Failed(check_violation(e))
            } else {
                Step::Failed(ApiError::Database(e))
            }
        },
        Ok(Some(row)) => {
            if stage == Stage::Insert {
                Step::Done(FlightUpsert::Created(row))
            } else {
                Step::Done(FlightUpsert::AlreadyExists(row))
            }
        },
        Ok(None) => {
            if stage == Stage::Insert {
                Step::Run(Stage::LookupAgain, existing(flight, airline_id))
            } else {
                Step::Failed(
                    ApiError::Conflict(
                        String::from_str("this flight is being created by another request; retry"),
                    ),
                )
            }
        },
    }
}

/// A flight is shared, and its natural key makes recording it idempotent:
/// when the same airline, number and departure were already stored, the
/// insert writes nothing, the next statement reads the stored row by that
/// key, and the flight resolves to it, neither a duplicate nor a conflict.
pub proof fn law_a_replayed_flight_is_the_stored_row(
    flight: ValidatedFlight,
    airline_id: i64,
    after_insert: Step<FlightUpsert>,
    stored: Flight,
    after_read: Step<FlightUpsert>,
)
    requires
        flight_advances(flight, airline_id, Stage::Insert, Ok(None), after_insert),
        flight_advances(flight, airline_id, Stage::LookupAgain, Ok(Some(stored)), after_read),
    ensures
        after_insert matches Step::Run(Stage::LookupAgain, q) && runs_select(
            q,
            existing_view(flight, airline_id),
        ),
        after_read == Step::Done(FlightUpsert::AlreadyExists(stored)),
{
}

/// A flight is stored as the request describes it: each column holds the
/// value of the same name, so the origin airport is in `origin_airport_id`,
/// the destination in `destination_airport_id`, and the derived distance in
/// `distance_miles`.
pub proof fn law_flight_insert_writes_each_value_to_its_column(f: ValidatedFlight, airline_id: i64, origin_airport_id: i64, destination_airport_id: i64, distance_miles: Option<i32>)
    ensures
        writes(insert_view(f, airline_id, origin_airport_id, destination_airport_id, distance_miles), "airline_id"@, SqlValueView::BigInt(Some(airline_id))),
        writes(insert_view(f, airline_id, origin_airport_id, destination_airport_id, distance_miles), "flight_number"@, text(f.flight_number@)),
        writes(insert_view(f, airline_id, origin_airport_id, destination_airport_id, distance_miles), "origin_airport_id"@, SqlValueView::BigInt(Some(origin_airport_id))),
        writes(insert_view(f, airline_id, origin_airport_id, destination_airport_id, distance_miles), "destination_airport_id"@, SqlValueView::BigInt(Some(destination_airport_id))),
        writes(insert_view(f, airline_id, origin_airport_id, destination_airport_id, distance_miles), "distance_miles"@, SqlValueView::Int(distance_miles)),
        writes(insert_view(f, airline_id, origin_airport_id, destination_airport_id, distance_miles), "scheduled_departure_at"@, SqlValueView::Timestamp(Some(f.scheduled_departure_at))),
        writes(insert_view(f, airline_id, origin_airport_id, destination_airport_id, distance_miles), "scheduled_arrival_at"@, SqlValueView::Timestamp(Some(f.scheduled_arrival_at))),
        writes(insert_view(f, airline_id, origin_airport_id, destination_airport_id, distance_miles), "actual_departure_at"@, SqlValueView::Timestamp(f.actual_departure_at)),
        writes(insert_view(f, airline_id, origin_airport_id, destination_airport_id, distance_miles), "actual_arrival_at"@, SqlValueView::Timestamp(f.actual_arrival_at)),
        writes(insert_view(f, airline_id, origin_airport_id, destination_airport_id, distance_miles), "status"@, text(f.status@)),
        writes(insert_view(f, airline_id, origin_airport_id, destination_airport_id, distance_miles), "departure_terminal"@, opt_text(f.departure_terminal)),
        writes(insert_view(f, airline_id, origin_airport_id, destination_airport_id, distance_miles), "departure_gate"@, opt_text(f.departure_gate)),
        writes(insert_view(f, airline_id, origin_airport_id, destination_airport_id, distance_miles), "arrival_terminal"@, opt_text(f.arrival_terminal)),
        writes(insert_view(f, airline_id, origin_airport_id, destination_airport_id, distance_miles), "arrival_gate"@, opt_text(f.arrival_gate)),
        writes(insert_view(f, airline_id, origin_airport_id, destination_airport_id, distance_miles), "aircraft_type"@, opt_text(f.aircraft_type)),
        writes(insert_view(f, airline_id, origin_airport_id, destination_airport_id, distance_miles), "aircraft_registration"@, opt_text(f.aircraft_registration)),
{
    let v = insert_view(f, airline_id, origin_airport_id, destination_airport_id, distance_miles);
    reveal_strlit("actual_arrival_at");
    reveal_strlit("actual_departure_at");
    reveal_strlit("aircraft_registration");
    reveal_strlit("aircraft_type");
    reveal_strlit("airline_id");
    reveal_strlit("arrival_gate");
    reveal_strlit("arrival_terminal");
    reveal_strlit("departure_gate");
    reveal_strlit("departure_terminal");
    reveal_strlit("destination_airport_id");
    reveal_strlit("distance_miles");
    reveal_strlit("flight_number");
    reveal_strlit("origin_airport_id");
    reveal_strlit("scheduled_arrival_at");
    reveal_strlit("scheduled_departure_at");
    reveal_strlit("status");
    assert(v.columns =~= seq!["airline_id"@, "flight_number"@, "origin_airport_id"@, "destination_airport_id"@, "distance_miles"@, "scheduled_departure_at"@, "scheduled_arrival_at"@, "actual_departure_at"@, "actual_arrival_at"@, "status"@, "departure_terminal"@, "departure_gate"@, "arrival_terminal"@, "arrival_gate"@, "aircraft_type"@, "aircraft_registration"@]);
    assert forall|i: int| 0 <= i < v.columns.len() && i != 0 implies v.columns[i] != "airline_id"@ by {
        if i == 1 {
            assert(v.columns[1].len() != "airline_id"@.len());
        } else if i == 2 {
            assert(v.columns[2].len() != "airline_id"@.len());
        } else if i == 3 {
            assert(v.columns[3].len() != "airline_id"@.len());
        } else if i == 4 {
            assert(v.columns[4].len() != "airline_id"@.len());
        } else if i == 5 {
            assert(v.columns[5].len() != "airline_id"@.len());
        } else if i == 6 {
            assert(v.columns[6].len() != "airline_id"@.len());
        } else if i == 7 {
            assert(v.columns[7].len() != "airline_id"@.len());
        } else if i == 8 {
            assert(v.columns[8].len() != "airline_id"@.len());
        } else if i == 9 {
            assert(v.columns[9].len() != "airline_id"@.len());
        } else if i == 10 {
            assert(v.columns[10].len() != "airline_id"@.len());
        } else if i == 11 {
            assert(v.columns[11].len() != "airline_id"@.len());
        } else if i == 12 {
            assert(v.columns[12].len() != "airline_id"@.len());
        } else if i == 13 {
            assert(v.columns[13].len() != "airline_id"@.len());
        } else if i == 14 {
            assert(v.columns[14].len() != "airline_id"@.len());
        } else if i == 15 {
            assert(v.columns[15].len() != "airline_id"@.len());
        }
    }
    lemma_writes_at(v, 0, "airline_id"@, SqlValueView::BigInt(Some(airline_id)));
    assert forall|i: int| 0 <= i < v.columns.len() && i != 1 implies v.columns[i] != "flight_number"@ by {
        if i == 0 {
            assert(v.columns[0].len() != "flight_number"@.len());
        } else if i == 2 {
            assert(v.columns[2].len() != "flight_number"@.len());
        } else if i == 3 {
            assert(v.columns[3].len() != "flight_number"@.len());
        } else if i == 4 {
            assert(v.columns[4].len() != "flight_number"@.len());
        } else if i == 5 {
            assert(v.columns[5].len() != "flight_number"@.len());
        } else if i == 6 {
            assert(v.columns[6].len() != "flight_number"@.len());
        } else if i == 7 {
            assert(v.columns[7].len() != "flight_number"@.len());
        } else if i == 8 {
            assert(v.columns[8].len() != "flight_number"@.len());
        } else if i == 9 {
            assert(v.columns[9].len() != "flight_number"@.len());
        } else if i == 10 {
            assert(v.columns[10].len() != "flight_number"@.len());
        } else if i == 11 {
            assert(v.columns[11].len() != "flight_number"@.len());
        } else if i == 12 {
            assert(v.columns[12].len() != "flight_number"@.len());
        } else if i == 13 {
            assert(v.columns[13].len() != "flight_number"@.len());
        } else if i == 14 {
            assert(v.columns[14][0] != "flight_number"@[0]);
        } else if i == 15 {
            assert(v.columns[15].len() != "flight_number"@.len());
        }
    }
    lemma_writes_at(v, 1, "flight_number"@, text(f.flight_number@));
    assert forall|i: int| 0 <= i < v.columns.len() && i != 2 implies v.columns[i] != "origin_airport_id"@ by {
        if i == 0 {
            assert(v.columns[0].len() != "origin_airport_id"@.len());
        } else if i == 1 {
            assert(v.columns[1].len() != "origin_airport_id"@.len());
        } else if i == 3 {
            assert(v.columns[3].len() != "origin_airport_id"@.len());
        } else if i == 4 {
            assert(v.columns[4].len() != "origin_airport_id"@.len());
        } else if i == 5 {
            assert(v.columns[5].len() != "origin_airport_id"@.len());
        } else if i == 6 {
            assert(v.columns[6].len() != "origin_airport_id"@.len());
        } else if i == 7 {
            assert(v.columns[7].len() != "origin_airport_id"@.len());
        } else if i == 8 {
            assert(v.columns[8][0] != "origin_airport_id"@[0]);
        } else if i == 9 {
            assert(v.columns[9].len() != "origin_airport_id"@.len());
        } else if i == 10 {
            assert(v.columns[10].len() != "origin_airport_id"@.len());
        } else if i == 11 {
            assert(v.columns[11].len() != "origin_airport_id"@.len());
        } else if i == 12 {
            assert(v.columns[12].len() != "origin_airport_id"@.len());
        } else if i == 13 {
            assert(v.columns[13].len() != "origin_airport_id"@.len());
        } else if i == 14 {
            assert(v.columns[14].len() != "origin_airport_id"@.len());
        } else if i == 15 {
            assert(v.columns[15].len() != "origin_airport_id"@.len());
        }
    }
    lemma_writes_at(v, 2, "origin_airport_id"@, SqlValueView::BigInt(Some(origin_airport_id)));
    assert forall|i: int| 0 <= i < v.columns.len() && i != 3 implies v.columns[i] != "destination_airport_id"@ by {
        if i == 0 {
            assert(v.columns[0].len() != "destination_airport_id"@.len());
        } else if i == 1 {
            assert(v.columns[1].len() != "destination_airport_id"@.len());
        } else if i == 2 {
            assert(v.columns[2].len() != "destination_airport_id"@.len());
        } else if i == 4 {
            assert(v.columns[4].len() != "destination_airport_id"@.len());
        } else if i == 5 {
            assert(v.columns[5][0] != "destination_airport_id"@[0]);
        } else if i == 6 {
            assert(v.columns[6].len() != "destination_airport_id"@.len());
        } else if i == 7 {
            assert(v.columns[7].len() != "destination_airport_id"@.len());
        } else if i == 8 {
            assert(v.columns[8].len() != "destination_airport_id"@.len());
        } else if i == 9 {
            assert(v.columns[9].len() != "destination_airport_id"@.len());
        } else if i == 10 {
            assert(v.columns[10].len() != "destination_airport_id"@.len());
        } else if i == 11 {
            assert(v.columns[11].len() != "destination_airport_id"@.len());
        } else if i == 12 {
            assert(v.columns[12].len() != "destination_airport_id"@.len());
        } else if i == 13 {
            assert(v.columns[13].len() != "destination_airport_id"@.len());
        } else if i == 14 {
            assert(v.columns[14].len() != "destination_airport_id"@.len());
        } else if i == 15 {
            assert(v.columns[15].len() != "destination_airport_id"@.len());
        }
    }
    lemma_writes_at(v, 3, "destination_airport_id"@, SqlValueView::BigInt(Some(destination_airport_id)));
    assert forall|i: int| 0 <= i < v.columns.len() && i != 4 implies v.columns[i] != "distance_miles"@ by {
        if i == 0 {
            assert(v.columns[0].len() != "distance_miles"@.len());
        } else if i == 1 {
            assert(v.columns[1].len() != "distance_miles"@.len());
        } else if i == 2 {
            assert(v.columns[2].len() != "distance_miles"@.len());
        } else if i == 3 {
            assert(v.columns[3].len() != "distance_miles"@.len());
        } else if i == 5 {
            assert(v.columns[5].len() != "distance_miles"@.len());
        } else if i == 6 {
            assert(v.columns[6].len() != "distance_miles"@.len());
        } else if i == 7 {
            assert(v.columns[7].len() != "distance_miles"@.len());
        } else if i == 8 {
            assert(v.columns[8].len() != "distance_miles"@.len());
        } else if i == 9 {
            assert(v.columns[9].len() != "distance_miles"@.len());
        } else if i == 10 {
            assert(v.columns[10].len() != "distance_miles"@.len());
        } else if i == 11 {
            assert(v.columns[11][1] != "distance_miles"@[1]);
        } else if i == 12 {
            assert(v.columns[12].len() != "distance_miles"@.len());
        } else if i == 13 {
            assert(v.columns[13].len() != "distance_miles"@.len());
        } else if i == 14 {
            assert(v.columns[14].len() != "distance_miles"@.len());
        } else if i == 15 {
            assert(v.columns[15].len() != "distance_miles"@.len());
        }
    }
    lemma_writes_at(v, 4, "distance_miles"@, SqlValueView::Int(distance_miles));
    assert forall|i: int| 0 <= i < v.columns.len() && i != 5 implies v.columns[i] != "scheduled_departure_at"@ by {
        if i == 0 {
            assert(v.columns[0].len() != "scheduled_departure_at"@.len());
        } else if i == 1 {
            assert(v.columns[1].len() != "scheduled_departure_at"@.len());
        } else if i == 2 {
            assert(v.columns[2].len() != "scheduled_departure_at"@.len());
        } else if i == 3 {
            assert(v.columns[3][0] != "scheduled_departure_at"@[0]);
        } else if i == 4 {
            assert(v.columns[4].len() != "scheduled_departure_at"@.len());
        } else if i == 6 {
            assert(v.columns[6].len() != "scheduled_departure_at"@.len());
        } else if i == 7 {
            assert(v.columns[7].len() != "scheduled_departure_at"@.len());
        } else if i == 8 {
            assert(v.columns[8].len() != "scheduled_departure_at"@.len());
        } else if i == 9 {
            assert(v.columns[9].len() != "scheduled_departure_at"@.len());
        } else if i == 10 {
            assert(v.columns[10].len() != "scheduled_departure_at"@.len());
        } else if i == 11 {
            assert(v.columns[11].len() != "scheduled_departure_at"@.len());
        } else if i == 12 {
            assert(v.columns[12].len() != "scheduled_departure_at"@.len());
        } else if i == 13 {
            assert(v.columns[13].len() != "scheduled_departure_at"@.len());
        } else if i == 14 {
            assert(v.columns[14].len() != "scheduled_departure_at"@.len());
        } else if i == 15 {
            assert(v.columns[15].len() != "scheduled_departure_at"@.len());
        }
    }
    lemma_writes_at(v, 5, "scheduled_departure_at"@, SqlValueView::Timestamp(Some(f.scheduled_departure_at)));
    assert forall|i: int| 0 <= i < v.columns.len() && i != 6 implies v.columns[i] != "scheduled_arrival_at"@ by {
        if i == 0 {
            assert(v.columns[0].len() != "scheduled_arrival_at"@.len());
        } else if i == 1 {
            assert(v.columns[1].len() != "scheduled_arrival_at"@.len());
        } else if i == 2 {
            assert(v.columns[2].len() != "scheduled_arrival_at"@.len());
        } else if i == 3 {
            assert(v.columns[3].len() != "scheduled_arrival_at"@.len());
        } else if i == 4 {
            assert(v.columns[4].len() != "scheduled_arrival_at"@.len());
        } else if i == 5 {
            assert(v.columns[5].len() != "scheduled_arrival_at"@.len());
        } else if i == 7 {
            assert(v.columns[7].len() != "scheduled_arrival_at"@.len());
        } else if i == 8 {
            assert(v.columns[8].len() != "scheduled_arrival_at"@.len());
        } else if i == 9 {
            assert(v.columns[9].len() != "scheduled_arrival_at"@.len());
        } else if i == 10 {
            assert(v.columns[10].len() != "scheduled_arrival_at"@.len());
        } else if i == 11 {
            assert(v.columns[11].len() != "scheduled_arrival_at"@.len());
        } else if i == 12 {
            assert(v.columns[12].len() != "scheduled_arrival_at"@.len());
        } else if i == 13 {
            assert(v.columns[13].len() != "scheduled_arrival_at"@.len());
        } else if i == 14 {
            assert(v.columns[14].len() != "scheduled_arrival_at"@.len());
        } else if i == 15 {
            assert(v.columns[15].len() != "scheduled_arrival_at"@.len());
        }
    }
    lemma_writes_at(v, 6, "scheduled_arrival_at"@, SqlValueView::Timestamp(Some(f.scheduled_arrival_at)));
    assert forall|i: int| 0 <= i < v.columns.len() && i != 7 implies v.columns[i] != "actual_departure_at"@ by {
        if i == 0 {
            assert(v.columns[0].len() != "actual_departure_at"@.len());
        } else if i == 1 {
            assert(v.columns[1].len() != "actual_departure_at"@.len());
        } else if i == 2 {
            assert(v.columns[2].len() != "actual_departure_at"@.len());
        } else if i == 3 {
            assert(v.columns[3].len() != "actual_departure_at"@.len());
        } else if i == 4 {
            assert(v.columns[4].len() != "actual_departure_at"@.len());
        } else if i == 5 {
            assert(v.columns[5].len() != "actual_departure_at"@.len());
        } else if i == 6 {
            assert(v.columns[6].len() != "actual_departure_at"@.len());
        } else if i == 8 {
            assert(v.columns[8].len() != "actual_departure_at"@.len());
        } else if i == 9 {
            assert(v.columns[9].len() != "actual_departure_at"@.len());
        } else if i == 10 {
            assert(v.columns[10].len() != "actual_departure_at"@.len());
        } else if i == 11 {
            assert(v.columns[11].len() != "actual_departure_at"@.len());
        } else if i == 12 {
            assert(v.columns[12].len() != "actual_departure_at"@.len());
        } else if i == 13 {
            assert(v.columns[13].len() != "actual_departure_at"@.len());
        } else if i == 14 {
            assert(v.columns[14].len() != "actual_departure_at"@.len());
        } else if i == 15 {
            assert(v.columns[15].len() != "actual_departure_at"@.len());
        }
    }
    lemma_writes_at(v, 7, "actual_departure_at"@, SqlValueView::Timestamp(f.actual_departure_at));
    assert forall|i: int| 0 <= i < v.columns.len() && i != 8 implies v.columns[i] != "actual_arrival_at"@ by {
        if i == 0 {
            assert(v.columns[0].len() != "actual_arrival_at"@.len());
        } else if i == 1 {
            assert(v.columns[1].len() != "actual_arrival_at"@.len());
        } else if i == 2 {
            assert(v.columns[2][0] != "actual_arrival_at"@[0]);
        } else if i == 3 {
            assert(v.columns[3].len() != "actual_arrival_at"@.len());
        } else if i == 4 {
            assert(v.columns[4].len() != "actual_arrival_at"@.len());
        } else if i == 5 {
            assert(v.columns[5].len() != "actual_arrival_at"@.len());
        } else if i == 6 {
            assert(v.columns[6].len() != "actual_arrival_at"@.len());
        } else if i == 7 {
            assert(v.columns[7].len() != "actual_arrival_at"@.len());
        } else if i == 9 {
            assert(v.columns[9].len() != "actual_arrival_at"@.len());
        } else if i == 10 {
            assert(v.columns[10].len() != "actual_arrival_at"@.len());
        } else if i == 11 {
            assert(v.columns[11].len() != "actual_arrival_at"@.len());
        } else if i == 12 {
            assert(v.columns[12].len() != "actual_arrival_at"@.len());
        } else if i == 13 {
            assert(v.columns[13].len() != "actual_arrival_at"@.len());
        } else if i == 14 {
            assert(v.columns[14].len() != "actual_arrival_at"@.len());
        } else if i == 15 {
            assert(v.columns[15].len() != "actual_arrival_at"@.len());
        }
    }
    lemma_writes_at(v, 8, "actual_arrival_at"@, SqlValueView::Timestamp(f.actual_arrival_at));
    assert forall|i: int| 0 <= i < v.columns.len() && i != 9 implies v.columns[i] != "status"@ by {
        if i == 0 {
            assert(v.columns[0].len() != "status"@.len());
        } else if i == 1 {
            assert(v.columns[1].len() != "status"@.len());
        } else if i == 2 {
            assert(v.columns[2].len() != "status"@.len());
        } else if i == 3 {
            assert(v.columns[3].len() != "status"@.len());
        } else if i == 4 {
            assert(v.columns[4].len() != "status"@.len());
        } else if i == 5 {
            assert(v.columns[5].len() != "status"@.len());
        } else if i == 6 {
            assert(v.columns[6].len() != "status"@.len());
        } else if i == 7 {
            assert(v.columns[7].len() != "status"@.len());
        } else if i == 8 {
            assert(v.columns[8].len() != "status"@.len());
        } else if i == 10 {
            assert(v.columns[10].len() != "status"@.len());
        } else if i == 11 {
            assert(v.columns[11].len() != "status"@.len());
        } else if i == 12 {
            assert(v.columns[12].len() != "status"@.len());
        } else if i == 13 {
            assert(v.columns[13].len() != "status"@.len());
        } else if i == 14 {
            assert(v.columns[14].len() != "status"@.len());
        } else if i == 15 {
            assert(v.columns[15].len() != "status"@.len());
        }
    }
    lemma_writes_at(v, 9, "status"@, text(f.status@));
    assert forall|i: int| 0 <= i < v.columns.len() && i != 10 implies v.columns[i] != "departure_terminal"@ by {
        if i == 0 {
            assert(v.columns[0].len() != "departure_terminal"@.len());
        } else if i == 1 {
            assert(v.columns[1].len() != "departure_terminal"@.len());
        } else if i == 2 {
            assert(v.columns[2].len() != "departure_terminal"@.len());
        } else if i == 3 {
            assert(v.columns[3].len() != "departure_terminal"@.len());
        } else if i == 4 {
            assert(v.columns[4].len() != "departure_terminal"@.len());
        } else if i == 5 {
            assert(v.columns[5].len() != "departure_terminal"@.len());
        } else if i == 6 {
            assert(v.columns[6].len() != "departure_terminal"@.len());
        } else if i == 7 {
            assert(v.columns[7].len() != "departure_terminal"@.len());
        } else if i == 8 {
            assert(v.columns[8].len() != "departure_terminal"@.len());
        } else if i == 9 {
            assert(v.columns[9].len() != "departure_terminal"@.len());
        } else if i == 11 {
            assert(v.columns[11].len() != "departure_terminal"@.len());
        } else if i == 12 {
            assert(v.columns[12].len() != "departure_terminal"@.len());
        } else if i == 13 {
            assert(v.columns[13].len() != "departure_terminal"@.len());
        } else if i == 14 {
            assert(v.columns[14].len() != "departure_terminal"@.len());
        } else if i == 15 {
            assert(v.columns[15].len() != "departure_terminal"@.len());
        }
    }
    lemma_writes_at(v, 10, "departure_terminal"@, opt_text(f.departure_terminal));
    assert forall|i: int| 0 <= i < v.columns.len() && i != 11 implies v.columns[i] != "departure_gate"@ by {
        if i == 0 {
            assert(v.columns[0].len() != "departure_gate"@.len());
        } else if i == 1 {
            assert(v.columns[1].len() != "departure_gate"@.len());
        } else if i == 2 {
            assert(v.columns[2].len() != "departure_gate"@.len());
        } else if i == 3 {
            assert(v.columns[3].len() != "departure_gate"@.len());
        } else if i == 4 {
            assert(v.columns[4][1] != "departure_gate"@[1]);
        } else if i == 5 {
            assert(v.columns[5].len() != "departure_gate"@.len());
        } else if i == 6 {
            assert(v.columns[6].len() != "departure_gate"@.len());
        } else if i == 7 {
            assert(v.columns[7].len() != "departure_gate"@.len());
        } else if i == 8 {
            assert(v.columns[8].len() != "departure_gate"@.len());
        } else if i == 9 {
            assert(v.columns[9].len() != "departure_gate"@.len());
        } else if i == 10 {
            assert(v.columns[10].len() != "departure_gate"@.len());
        } else if i == 12 {
            assert(v.columns[12].len() != "departure_gate"@.len());
        } else if i == 13 {
            assert(v.columns[13].len() != "departure_gate"@.len());
        } else if i == 14 {
            assert(v.columns[14].len() != "departure_gate"@.len());
        } else if i == 15 {
            assert(v.columns[15].len() != "departure_gate"@.len());
        }
    }
    lemma_writes_at(v, 11, "departure_gate"@, opt_text(f.departure_gate));
    assert forall|i: int| 0 <= i < v.columns.len() && i != 12 implies v.columns[i] != "arrival_terminal"@ by {
        if i == 0 {
            assert(v.columns[0].len() != "arrival_terminal"@.len());
        } else if i == 1 {
            assert(v.columns[1].len() != "arrival_terminal"@.len());
        } else if i == 2 {
            assert(v.columns[2].len() != "arrival_terminal"@.len());
        } else if i == 3 {
            assert(v.columns[3].len() != "arrival_terminal"@.len());
        } else if i == 4 {
            assert(v.columns[4].len() != "arrival_terminal"@.len());
        } else if i == 5 {
            assert(v.columns[5].len() != "arrival_terminal"@.len());
        } else if i == 6 {
            assert(v.columns[6].len() != "arrival_terminal"@.len());
        } else if i == 7 {
            assert(v.columns[7].len() != "arrival_terminal"@.len());
        } else if i == 8 {
            assert(v.columns[8].len() != "arrival_terminal"@.len());
        } else if i == 9 {
            assert(v.columns[9].len() != "arrival_terminal"@.len());
        } else if i == 10 {
            assert(v.columns[10].len() != "arrival_terminal"@.len());
        } else if i == 11 {
            assert(v.columns[11].len() != "arrival_terminal"@.len());
        } else if i == 13 {
            assert(v.columns[13].len() != "arrival_terminal"@.len());
        } else if i == 14 {
            assert(v.columns[14].len() != "arrival_terminal"@.len());
        } else if i == 15 {
            assert(v.columns[15].len() != "arrival_terminal"@.len());
        }
    }
    lemma_writes_at(v, 12, "arrival_terminal"@, opt_text(f.arrival_terminal));
    assert forall|i: int| 0 <= i < v.columns.len() && i != 13 implies v.columns[i] != "arrival_gate"@ by {
        if i == 0 {
            assert(v.columns[0].len() != "arrival_gate"@.len());
        } else if i == 1 {
            assert(v.columns[1].len() != "arrival_gate"@.len());
        } else if i == 2 {
            assert(v.columns[2].len() != "arrival_gate"@.len());
        } else if i == 3 {
            assert(v.columns[3].len() != "arrival_gate"@.len());
        } else if i == 4 {
            assert(v.columns[4].len() != "arrival_gate"@.len());
        } else if i == 5 {
            assert(v.columns[5].len() != "arrival_gate"@.len());
        } else if i == 6 {
            assert(v.columns[6].len() != "arrival_gate"@.len());
        } else if i == 7 {
            assert(v.columns[7].len() != "arrival_gate"@.len());
        } else if i == 8 {
            assert(v.columns[8].len() != "arrival_gate"@.len());
        } else if i == 9 {
            assert(v.columns[9].len() != "arrival_gate"@.len());
        } else if i == 10 {
            assert(v.columns[10].len() != "arrival_gate"@.len());
        } else if i == 11 {
            assert(v.columns[11].len() != "arrival_gate"@.len());
        } else if i == 12 {
            assert(v.columns[12].len() != "arrival_gate"@.len());
        } else if i == 14 {
            assert(v.columns[14].len() != "arrival_gate"@.len());
        } else if i == 15 {
            assert(v.columns[15].len() != "arrival_gate"@.len());
        }
    }
    lemma_writes_at(v, 13, "arrival_gate"@, opt_text(f.arrival_gate));
    assert forall|i: int| 0 <= i < v.columns.len() && i != 14 implies v.columns[i] != "aircraft_type"@ by {
        if i == 0 {
            assert(v.columns[0].len() != "aircraft_type"@.len());
        } else if i == 1 {
            assert(v.columns[1][0] != "aircraft_type"@[0]);
        } else if i == 2 {
            assert(v.columns[2].len() != "aircraft_type"@.len());
        } else if i == 3 {
            assert(v.columns[3].len() != "aircraft_type"@.len());
        } else if i == 4 {
            assert(v.columns[4].len() != "aircraft_type"@.len());
        } else if i == 5 {
            assert(v.columns[5].len() != "aircraft_type"@.len());
        } else if i == 6 {
            assert(v.columns[6].len() != "aircraft_type"@.len());
        } else if i == 7 {
            assert(v.columns[7].len() != "aircraft_type"@.len());
        } else if i == 8 {
            assert(v.columns[8].len() != "aircraft_type"@.len());
        } else if i == 9 {
            assert(v.columns[9].len() != "aircraft_type"@.len());
        } else if i == 10 {
            assert(v.columns[10].len() != "aircraft_type"@.len());
        } else if i == 11 {
            assert(v.columns[11].len() != "aircraft_type"@.len());
        } else if i == 12 {
            assert(v.columns[12].len() != "aircraft_type"@.len());
        } else if i == 13 {
            assert(v.columns[13].len() != "aircraft_type"@.len());
        } else if i == 15 {
            assert(v.columns[15].len() != "aircraft_type"@.len());
        }
    }
    lemma_writes_at(v, 14, "aircraft_type"@, opt_text(f.aircraft_type));
    assert forall|i: int| 0 <= i < v.columns.len() && i != 15 implies v.columns[i] != "aircraft_registration"@ by {
        if i == 0 {
            assert(v.columns[0].len() != "aircraft_registration"@.len());
        } else if i == 1 {
            assert(v.columns[1].len() != "aircraft_registration"@.len());
        } else if i == 2 {
            assert(v.columns[2].len() != "aircraft_registration"@.len());
        } else if i == 3 {
            assert(v.columns[3].len() != "aircraft_registration"@.len());
        } else if i == 4 {
            assert(v.columns[4].len() != "aircraft_registration"@.len());
        } else if i == 5 {
            assert(v.columns[5].len() != "aircraft_registration"@.len());
        } else if i == 6 {
            assert(v.columns[6].len() != "aircraft_registration"@.len());
        } else if i == 7 {
            assert(v.columns[7].len() != "aircraft_registration"@.len());
        } else if i == 8 {
            assert(v.columns[8].len() != "aircraft_registration"@.len());
        } else if i == 9 {
            assert(v.columns[9].len() != "aircraft_registration"@.len());
        } else if i == 10 {
            assert(v.columns[10].len() != "aircraft_registration"@.len());
        } else if i == 11 {
            assert(v.columns[11].len() != "aircraft_registration"@.len());
        } else if i == 12 {
            assert(v.columns[12].len() != "aircraft_registration"@.len());
        } else if i == 13 {
            assert(v.columns[13].len() != "aircraft_registration"@.len());
        } else if i == 14 {
            assert(v.columns[14].len() != "aircraft_registration"@.len());
        }
    }
    lemma_writes_at(v, 15, "aircraft_registration"@, opt_text(f.aircraft_registration));
}

/// The stored flight is read back by its natural key: the airline, the
/// number and the scheduled departure, each compared with its own column.
pub proof fn law_stored_flight_lookup_compares_each_key_with_its_value(f: ValidatedFlight, airline_id: i64)
    ensures
        compares(existing_view(f, airline_id), "airline_id"@, SqlValueView::BigInt(Some(airline_id))),
        compares(existing_view(f, airline_id), "flight_number"@, text(f.flight_number@)),
        compares(existing_view(f, airline_id), "scheduled_departure_at"@, SqlValueView::Timestamp(Some(f.scheduled_departure_at))),
{
    let v = existing_view(f, airline_id);
    assert(v.conditions[0] == "airline_id"@ + " = "@ + placeholder((0 + 1) as nat));
    assert(v.conditions[1] == "flight_number"@ + " = "@ + placeholder((1 + 1) as nat));
    assert(v.conditions[2] == "scheduled_departure_at"@ + " = "@ + placeholder((2 + 1) as nat));
}

} // verus!
