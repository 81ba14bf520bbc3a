use trace_server::entities::{DriveRow, Journey, JourneyTotals, LegRow};
use trace_server::error::{ApiError, DbError};
use trace_server::flight::{Flight, ResolvedAirport, ValidatedAirline, ValidatedAirport, ValidatedFlight, FlightUpsert};
use trace_server::journey::{
    PlaceCache, SegmentDetail, ValidatedBooking, ValidatedCustomPlace, ValidatedDrive,
    ValidatedJourney, ValidatedNewVehicle, ValidatedPlace, ValidatedSegment, ValidatedVehicle,
};
use trace_server::responses::{assemble, endpoint_place_ids, leg_ids, FlightResponse, PlaceResponse};
use trace_server::sql_builder::{Query, SqlValue};
use trace_server::store::journeys::{self, JourneyUpsert};
use trace_server::store::places::{self, PlacePlan};
use trace_server::store::{airlines, airports, flights, users, vehicles, Stage, Step};
use trace_server::time::Timestamp;
use trace_server::user::ValidatedUser;

fn sql(query: Query) -> String {
    query.into_parts().0
}

fn db(code: &str, constraint: Option<&str>) -> DbError {
    DbError {
        code: Some(code.to_string()),
        constraint: constraint.map(|c| c.to_string()),
        message: "rejected".to_string(),
    }
}

fn at(seconds: i64) -> Timestamp {
    Timestamp::new(seconds, 0)
}

fn airport(code: &str, name: Option<&str>) -> ValidatedAirport {
    ValidatedAirport {
        iata_code: code.to_string(),
        icao_code: None,
        name: name.map(|n| n.to_string()),
        city: None,
        country_code: None,
        latitude: Some(40.6413_f64.to_bits()),
        longitude: Some((-73.7781_f64).to_bits()),
        timezone: None,
    }
}

fn validated_flight() -> ValidatedFlight {
    ValidatedFlight {
        airline: ValidatedAirline {
            iata_code: "AA".to_string(),
            icao_code: None,
            name: Some("American Airlines".to_string()),
        },
        flight_number: "100".to_string(),
        origin: airport("JFK", Some("Kennedy")),
        destination: airport("LHR", Some("Heathrow")),
        scheduled_departure_at: at(1_786_399_200),
        scheduled_arrival_at: at(1_786_424_400),
        actual_departure_at: None,
        actual_arrival_at: None,
        status: "scheduled".to_string(),
        departure_terminal: None,
        departure_gate: None,
        arrival_terminal: None,
        arrival_gate: None,
        aircraft_type: None,
        aircraft_registration: None,
    }
}

fn flight_row(distance: Option<i32>) -> Flight {
    Flight {
        id: 9,
        airline_id: 1,
        flight_number: "100".to_string(),
        origin_airport_id: 2,
        destination_airport_id: 3,
        distance_miles: distance,
        scheduled_departure_at: at(1_786_399_200),
        scheduled_arrival_at: at(1_786_424_400),
        actual_departure_at: None,
        actual_arrival_at: None,
        status: "scheduled".to_string(),
        departure_terminal: None,
        departure_gate: None,
        arrival_terminal: None,
        arrival_gate: None,
        aircraft_type: None,
        aircraft_registration: None,
        created_at: at(0),
        updated_at: at(0),
    }
}

fn segment(position: i32, detail: SegmentDetail) -> ValidatedSegment {
    ValidatedSegment {
        position,
        mode: "flight".to_string(),
        origin: None,
        destination: None,
        started_at: None,
        ended_at: None,
        duration_minutes: None,
        distance_miles: None,
        notes: None,
        metadata: "{}".to_string(),
        detail,
    }
}

fn journey(key: Option<&str>) -> ValidatedJourney {
    ValidatedJourney {
        user_id: 1,
        idempotency_key: key.map(|k| k.to_string()),
        title: "England".to_string(),
        description: None,
        started_at: None,
        ended_at: None,
        status: "planned".to_string(),
        visibility: "private".to_string(),
        metadata: "{}".to_string(),
        segments: Vec::new(),
    }
}

fn failure<T: std::fmt::Debug>(step: Step<T>) -> ApiError {
    match step {
        Step::Failed(err) => err,
        other => panic!("expected a failure, got {other:?}"),
    }
}

fn run<T: std::fmt::Debug>(step: Step<T>) -> (Stage, String) {
    match step {
        Step::Run(stage, query) => (stage, sql(query)),
        other => panic!("expected a statement, got {other:?}"),
    }
}

#[test]
fn a_user_is_inserted_and_read_without_its_secrets() {
    let user = ValidatedUser {
        first_name: "Ada".to_string(),
        last_name: "Lovelace".to_string(),
        role: "user".to_string(),
        password: "correct horse".to_string(),
    };
    let (text, arguments) = users::insert(&user, "trace_sk_x", "$argon2id$...").into_parts();

    assert_eq!(
        text,
        "INSERT INTO users (first_name, last_name, role, api_key, password_hash)\n\
         VALUES ($1, $2, $3, $4, $5)\n\
         RETURNING id, first_name, last_name, role, created_at, updated_at"
    );
    assert_eq!(arguments.len(), 5);
    assert_eq!(
        sql(users::find(7)),
        "SELECT id, first_name, last_name, role, created_at, updated_at\nFROM users\nWHERE id = $1"
    );
    assert_eq!(sql(users::find_id(7)), "SELECT id\nFROM users\nWHERE id = $1");
}

#[test]
fn an_airport_is_read_then_inserted_then_read_again() {
    let jfk = airport("JFK", Some("Kennedy"));

    let (stage, text) = run(airports::start(&jfk));
    assert_eq!(stage, Stage::Lookup);
    assert_eq!(
        text,
        "SELECT id, latitude::float8 AS latitude, longitude::float8 AS longitude\n\
         FROM airports\n\
         WHERE iata_code = $1"
    );

    let (stage, text) = run(airports::advance(&jfk, "origin", Stage::Lookup, Ok(None)));
    assert_eq!(stage, Stage::Insert);
    assert_eq!(
        text,
        "INSERT INTO airports (iata_code, icao_code, name, city, country_code, latitude, longitude, timezone)\n\
         VALUES ($1, $2, $3, $4, $5, $6::float8::numeric, $7::float8::numeric, $8)\n\
         ON CONFLICT (iata_code) DO NOTHING\n\
         RETURNING id, latitude::float8 AS latitude, longitude::float8 AS longitude"
    );

    let (stage, _) = run(airports::advance(&jfk, "origin", Stage::Insert, Ok(None)));
    assert_eq!(stage, Stage::LookupAgain);

    match failure(airports::advance(&jfk, "origin", Stage::LookupAgain, Ok(None))) {
        ApiError::Conflict(message) => {
            assert_eq!(message, "airport JFK is being created by another request; retry")
        }
        other => panic!("expected a conflict, got {other:?}"),
    }

    let found = ResolvedAirport { id: 4, latitude: None, longitude: None };
    match airports::advance(&jfk, "origin", Stage::Lookup, Ok(Some(found))) {
        Step::Done(airport) => assert_eq!(airport.id, 4),
        other => panic!("expected the stored airport, got {other:?}"),
    }
}

#[test]
fn an_unknown_airport_needs_a_name() {
    let nameless = airport("JFK", None);

    match failure(airports::advance(&nameless, "segments[0].flight.origin", Stage::Lookup, Ok(None))) {
        ApiError::Validation(errors) => assert_eq!(
            errors,
            vec!["segments[0].flight.origin.name is required: airport JFK is not in the database yet"
                .to_string()]
        ),
        other => panic!("expected validation errors, got {other:?}"),
    }
}

#[test]
fn an_icao_code_clash_on_insert_names_the_airport() {
    let jfk = airport("JFK", Some("Kennedy"));

    match failure(airports::advance(
        &jfk,
        "origin",
        Stage::Insert,
        Err(db("23505", Some("airports_icao_code_key"))),
    )) {
        ApiError::Conflict(message) => {
            assert_eq!(message, "origin.icao_code already belongs to a different airport")
        }
        other => panic!("expected a conflict, got {other:?}"),
    }
    assert!(matches!(
        failure(airports::advance(&jfk, "origin", Stage::Lookup, Err(db("XX000", None)))),
        ApiError::Database(_)
    ));
}

#[test]
fn an_airline_is_resolved_on_the_same_terms() {
    let airline = ValidatedAirline { iata_code: "AA".to_string(), icao_code: None, name: None };

    let (stage, text) = run(airlines::start(&airline));
    assert_eq!(stage, Stage::Lookup);
    assert_eq!(text, "SELECT id\nFROM airlines\nWHERE iata_code = $1");

    match failure(airlines::advance(&airline, Stage::Lookup, Ok(None))) {
        ApiError::Validation(errors) => assert_eq!(
            errors,
            vec!["airline.name is required: airline AA is not in the database yet".to_string()]
        ),
        other => panic!("expected validation errors, got {other:?}"),
    }
    assert!(matches!(airlines::advance(&airline, Stage::LookupAgain, Ok(Some(5))), Step::Done(5)));
}

#[test]
fn a_flight_is_inserted_first_and_a_replay_reads_the_stored_row() {
    let flight = validated_flight();

    let (stage, text) = run(flights::start(&flight, 1, 2, 3, Some(3451)));
    assert_eq!(stage, Stage::Insert);
    assert!(text.starts_with("INSERT INTO flights (airline_id, flight_number, origin_airport_id"));
    assert!(text.contains(
        "ON CONFLICT (airline_id, flight_number, scheduled_departure_at) DO NOTHING\nRETURNING id, airline_id"
    ));

    assert!(matches!(
        flights::advance(&flight, 1, Stage::Insert, Ok(Some(flight_row(None)))),
        Step::Done(FlightUpsert::Created(_))
    ));
    let (stage, text) = run(flights::advance(&flight, 1, Stage::Insert, Ok(None)));
    assert_eq!(stage, Stage::LookupAgain);
    assert!(text.ends_with(
        "FROM flights\nWHERE airline_id = $1 AND flight_number = $2 AND scheduled_departure_at = $3"
    ));
    assert!(matches!(
        flights::advance(&flight, 1, Stage::LookupAgain, Ok(Some(flight_row(None)))),
        Step::Done(FlightUpsert::AlreadyExists(_))
    ));
    match failure(flights::advance(
        &flight,
        1,
        Stage::Insert,
        Err(db("23514", Some("flights_arrival_after_departure"))),
    )) {
        ApiError::Validation(errors) => assert_eq!(
            errors,
            vec!["the flight violates flights_arrival_after_departure".to_string()]
        ),
        other => panic!("expected validation errors, got {other:?}"),
    }
}

#[test]
fn a_saved_vehicle_must_belong_to_the_user() {
    let saved = ValidatedVehicle::Saved(12);

    let (stage, text) = run(vehicles::start(1, &saved));
    assert_eq!(stage, Stage::Lookup);
    assert_eq!(text, "SELECT id\nFROM vehicles\nWHERE id = $1 AND user_id = $2");

    match failure(vehicles::advance(1, &saved, "segments[0].drive.vehicle", Stage::Lookup, Ok(None))) {
        ApiError::Validation(errors) => assert_eq!(
            errors,
            vec!["segments[0].drive.vehicle.id 12 is not a vehicle belonging to this user".to_string()]
        ),
        other => panic!("expected validation errors, got {other:?}"),
    }
}

#[test]
fn a_nicknamed_vehicle_is_reused_before_it_is_inserted() {
    let car = ValidatedVehicle::New(Box::new(ValidatedNewVehicle {
        nickname: Some("Blue".to_string()),
        make: None,
        model: None,
        year: Some(2019),
        license_plate: None,
    }));

    let (stage, text) = run(vehicles::start(1, &car));
    assert_eq!(stage, Stage::Lookup);
    assert_eq!(text, "SELECT id\nFROM vehicles\nWHERE user_id = $1 AND nickname = $2");

    let (stage, text) = run(vehicles::advance(1, &car, "v", Stage::Lookup, Ok(None)));
    assert_eq!(stage, Stage::Insert);
    assert_eq!(
        text,
        "INSERT INTO vehicles (user_id, nickname, make, model, year, license_plate)\n\
         VALUES ($1, $2, $3, $4, $5, $6)\n\
         ON CONFLICT (user_id, nickname) WHERE nickname IS NOT NULL DO NOTHING\n\
         RETURNING id"
    );
    let (stage, _) = run(vehicles::advance(1, &car, "v", Stage::Insert, Ok(None)));
    assert_eq!(stage, Stage::LookupAgain);
    match failure(vehicles::advance(1, &car, "v", Stage::LookupAgain, Ok(None))) {
        ApiError::Conflict(message) => {
            assert_eq!(message, "vehicle Blue is being created by another request; retry")
        }
        other => panic!("expected a conflict, got {other:?}"),
    }

    let nameless = ValidatedVehicle::New(Box::new(ValidatedNewVehicle {
        nickname: None,
        make: Some("Volvo".to_string()),
        model: None,
        year: None,
        license_plate: None,
    }));
    let (stage, _) = run(vehicles::start(1, &nameless));
    assert_eq!(stage, Stage::Insert);
}

#[test]
fn a_replayed_journey_is_found_before_anything_is_written() {
    let keyed = journey(Some("abc"));

    let (stage, text) = run(journeys::start(&keyed));
    assert_eq!(stage, Stage::Lookup);
    assert_eq!(text, "SELECT id\nFROM journeys\nWHERE user_id = $1 AND idempotency_key = $2");
    assert!(matches!(
        journeys::advance(&keyed, Stage::Lookup, Ok(Some(5))),
        Step::Done(JourneyUpsert::AlreadyExists(5))
    ));

    let (stage, text) = run(journeys::advance(&keyed, Stage::Lookup, Ok(None)));
    assert_eq!(stage, Stage::Insert);
    assert_eq!(
        text,
        "INSERT INTO journeys (user_id, idempotency_key, title, description, started_at, ended_at, status, visibility, metadata)\n\
         VALUES ($1, $2, $3, $4, $5, $6, $7, $8, $9::jsonb)\n\
         ON CONFLICT (user_id, idempotency_key) WHERE idempotency_key IS NOT NULL DO NOTHING\n\
         RETURNING id"
    );
    assert!(matches!(
        journeys::advance(&keyed, Stage::Insert, Ok(Some(6))),
        Step::Done(JourneyUpsert::Created(6))
    ));
    match failure(journeys::advance(&keyed, Stage::LookupAgain, Ok(None))) {
        ApiError::Conflict(message) => {
            assert_eq!(message, "this journey is being created by another request; retry")
        }
        other => panic!("expected a conflict, got {other:?}"),
    }

    let (stage, _) = run(journeys::start(&journey(None)));
    assert_eq!(stage, Stage::Insert);
}

#[test]
fn an_unknown_user_is_named_by_its_uuid() {
    assert!(journeys::user_known(1, Ok(Some(1))).is_ok());
    match journeys::user_known(0x0123_4567_89ab_cdef_0123_4567_89ab_cdef, Ok(None)) {
        Err(ApiError::Validation(errors)) => assert_eq!(
            errors,
            vec!["user_id 01234567-89ab-cdef-0123-456789abcdef does not exist".to_string()]
        ),
        other => panic!("expected validation errors, got {other:?}"),
    }
}

#[test]
fn a_flight_leg_takes_what_the_caller_left_out_from_the_flight() {
    let detail = SegmentDetail::Flight {
        flight: Box::new(validated_flight()),
        booking: ValidatedBooking::default(),
    };
    let bare = segment(1, detail);
    let write = journeys::flight_leg(7, &bare, &flight_row(Some(3451)), 10, 11);

    assert_eq!(write.origin_place_id, Some(10));
    assert_eq!(write.destination_place_id, Some(11));
    assert_eq!(write.distance_miles, Some(3451));
    assert_eq!(write.started_at, Some(at(1_786_399_200)));
    assert_eq!(write.ended_at, Some(at(1_786_424_400)));
    assert_eq!(write.duration_minutes, Some(420));

    let mut given = segment(1, SegmentDetail::Bare);
    given.distance_miles = Some(3500);
    given.duration_minutes = Some(415);
    given.started_at = Some(at(1_786_399_500));
    let write = journeys::flight_leg(7, &given, &flight_row(None), 10, 11);
    assert_eq!(write.distance_miles, Some(3500));
    assert_eq!(write.duration_minutes, Some(415));
    assert_eq!(write.started_at, Some(at(1_786_399_500)));
    assert_eq!(write.ended_at, Some(at(1_786_424_400)));
}

#[test]
fn a_leg_rejected_by_a_constraint_names_its_segment() {
    let third = segment(3, SegmentDetail::Bare);
    let write = journeys::plain_leg(7, &third, Some(1), None);

    let text = sql(journeys::insert_leg(&write));
    assert_eq!(
        text,
        "INSERT INTO journey_legs (journey_id, position, mode, origin_place_id, destination_place_id, started_at, ended_at, duration_minutes, distance_miles, notes, metadata)\n\
         VALUES ($1, $2, $3, $4, $5, $6, $7, $8, $9, $10, $11::jsonb)\n\
         RETURNING id"
    );
    match journeys::leg_written(&write, Err(db("23503", Some("legs_origin_place_id_fkey")))) {
        Err(ApiError::Validation(errors)) => assert_eq!(
            errors,
            vec!["segments[2] violates legs_origin_place_id_fkey".to_string()]
        ),
        other => panic!("expected validation errors, got {other:?}"),
    }
    assert!(matches!(journeys::leg_written(&write, Ok(4)), Ok(4)));
}

#[test]
fn a_segment_detail_is_written_by_mode() {
    let flight = segment(
        1,
        SegmentDetail::Flight { flight: Box::new(validated_flight()), booking: ValidatedBooking::default() },
    );
    let text = sql(journeys::detail_statement(4, &flight, Some(9), None).unwrap());
    assert_eq!(
        text,
        "INSERT INTO journey_flights (leg_id, flight_id, seat, cabin, booking_reference, ticket_number)\n\
         VALUES ($1, $2, $3, $4, $5, $6)"
    );

    let drive = segment(
        2,
        SegmentDetail::Drive(ValidatedDrive { vehicle: None, role: Some("driver".to_string()), route_polyline: None }),
    );
    let text = sql(journeys::detail_statement(4, &drive, None, Some(3)).unwrap());
    assert_eq!(
        text,
        "INSERT INTO journey_drives (leg_id, vehicle_id, role, route_polyline)\nVALUES ($1, $2, $3, $4)"
    );

    assert!(journeys::detail_statement(4, &segment(3, SegmentDetail::Bare), None, None).is_none());
}

#[test]
fn a_place_already_resolved_in_this_request_is_reused() {
    let cottage = ValidatedPlace::Custom(Box::new(ValidatedCustomPlace {
        name: "Cotswolds cottage".to_string(),
        kind: "address".to_string(),
        address: None,
        city: None,
        country_code: None,
        latitude: Some(51.929_f64.to_bits()),
        longitude: Some((-1.722_f64).to_bits()),
        timezone: None,
    }));
    let mut cache = PlaceCache::new();

    match places::plan(&cache, &cottage) {
        PlacePlan::Custom(query) => assert!(sql(query).starts_with("INSERT INTO places (name, kind")),
        other => panic!("expected an insert, got {other:?}"),
    }
    places::remember(&mut cache, &cottage, 42);
    assert!(matches!(places::plan(&cache, &cottage), PlacePlan::Cached(42)));

    match places::plan(&cache, &ValidatedPlace::Saved(5)) {
        PlacePlan::Saved(query) => assert_eq!(sql(query), "SELECT id\nFROM places\nWHERE id = $1"),
        other => panic!("expected a lookup, got {other:?}"),
    }
    match places::found(5, "segments[1].origin", Ok(None)) {
        Err(ApiError::Validation(errors)) => assert_eq!(
            errors,
            vec!["segments[1].origin.id 5 is not a known place".to_string()]
        ),
        other => panic!("expected validation errors, got {other:?}"),
    }
    match places::mirrored(3, Ok(None)) {
        Err(ApiError::Internal(message)) => assert_eq!(
            message,
            "airport 3 has no mirrored place; is the airports_sync_place trigger installed?"
        ),
        other => panic!("expected an internal error, got {other:?}"),
    }
}

#[test]
fn a_flights_airports_seed_the_cache() {
    let mut cache = PlaceCache::new();
    journeys::seed_flight_airports(&mut cache, &validated_flight(), 20, 21);

    let jfk = ValidatedPlace::Airport(Box::new(airport("JFK", None)));
    assert!(matches!(places::plan(&cache, &jfk), PlacePlan::Cached(20)));
    assert_eq!(cache.get("airport:LHR"), Some(21));
}

fn leg(id: u128, origin: Option<i64>, destination: Option<i64>) -> LegRow {
    LegRow {
        id,
        position: id as i32,
        mode: "drive".to_string(),
        origin_place_id: origin,
        destination_place_id: destination,
        started_at: None,
        ended_at: None,
        duration_minutes: None,
        distance_miles: None,
        notes: None,
        metadata: "{}".to_string(),
    }
}

fn place(id: i64, name: &str) -> PlaceResponse {
    PlaceResponse {
        id,
        name: name.to_string(),
        kind: "address".to_string(),
        iata_code: None,
        city: None,
        country_code: None,
        latitude: None,
        longitude: None,
        timezone: None,
    }
}

#[test]
fn a_journey_is_assembled_from_its_reads() {
    let stored = Journey {
        id: 1,
        user_id: 2,
        idempotency_key: None,
        title: "England".to_string(),
        description: None,
        started_at: None,
        ended_at: None,
        status: "planned".to_string(),
        visibility: "private".to_string(),
        metadata: "{}".to_string(),
        created_at: at(0),
        updated_at: at(0),
    };
    let totals = JourneyTotals {
        segment_count: 2,
        mode_count: 2,
        total_distance_miles: 0,
        total_duration_minutes: 0,
        first_departure_at: None,
        last_arrival_at: None,
    };
    let legs = vec![leg(10, Some(1), Some(2)), leg(11, Some(2), None)];
    assert_eq!(leg_ids(&legs), vec![10, 11]);
    assert_eq!(endpoint_place_ids(&legs), vec![1, 2, 2]);

    let flight = FlightResponse {
        leg_id: 10,
        flight_id: 9,
        airline_id: 1,
        flight_number: "100".to_string(),
        origin_airport_id: 2,
        destination_airport_id: 3,
        distance_miles: None,
        scheduled_departure_at: at(0),
        scheduled_arrival_at: at(60),
        status: "scheduled".to_string(),
        seat: None,
        cabin: None,
        booking_reference: None,
        ticket_number: None,
    };
    let drive = DriveRow {
        leg_id: 11,
        role: Some("driver".to_string()),
        route_polyline: None,
        vehicle_id: Some(3),
        nickname: Some("Blue".to_string()),
        make: None,
        model: None,
        year: None,
    };
    let response = assemble(
        stored,
        totals,
        legs,
        vec![place(1, "Home"), place(2, "Cottage")],
        vec![flight],
        vec![drive],
    );

    assert_eq!(response.segments.len(), 2);
    let first = &response.segments[0];
    assert_eq!(first.origin.as_ref().unwrap().name, "Home");
    assert_eq!(first.destination.as_ref().unwrap().name, "Cottage");
    assert_eq!(first.flight.as_ref().unwrap().flight_id, 9);
    assert!(first.drive.is_none());
    let second = &response.segments[1];
    assert_eq!(second.origin.as_ref().unwrap().name, "Cottage");
    assert!(second.destination.is_none());
    let vehicle = second.drive.as_ref().unwrap().vehicle.as_ref().unwrap();
    assert_eq!(vehicle.id, 3);
    assert_eq!(vehicle.nickname.as_deref(), Some("Blue"));
}

#[test]
fn a_drive_without_a_vehicle_has_none() {
    let row = DriveRow {
        leg_id: 1,
        role: None,
        route_polyline: Some("abc".to_string()),
        vehicle_id: None,
        nickname: None,
        make: None,
        model: None,
        year: None,
    };
    let drive = trace_server::responses::drive_response(&row);
    assert!(drive.vehicle.is_none());
    assert_eq!(drive.route_polyline.as_deref(), Some("abc"));
}

#[test]
fn nothing_is_read_for_a_journey_without_legs() {
    assert!(journeys::select_places(&[]).is_none());
    assert!(journeys::select_flights(&[]).is_none());
    assert!(journeys::select_drives(&[]).is_none());

    let text = sql(journeys::select_places(&[1, 2]).unwrap());
    assert_eq!(
        text,
        "SELECT p.id, p.name, p.kind, a.iata_code, p.city, p.country_code, p.latitude::float8 AS latitude, p.longitude::float8 AS longitude, p.timezone\n\
         FROM places p\n\
         LEFT JOIN airports a ON a.id = p.airport_id\n\
         WHERE p.id = ANY($1)"
    );
    let (text, arguments) = journeys::select_legs(5).into_parts();
    assert!(text.ends_with("FROM journey_legs\nWHERE journey_id = $1\nORDER BY position"));
    assert!(matches!(arguments[0], SqlValue::Uuid(Some(5))));
    assert!(matches!(journeys::journey_found(Ok(None)), Err(ApiError::NotFound)));
}

#[test]
fn a_replayed_journey_answers_ok_and_a_new_one_created() {
    assert_eq!(journeys::response_status(JourneyUpsert::Created(1)), 201);
    assert_eq!(journeys::response_status(JourneyUpsert::AlreadyExists(1)), 200);
}

#[test]
fn a_segment_says_where_its_endpoints_and_vehicle_come_from() {
    let flight = segment(
        1,
        SegmentDetail::Flight { flight: Box::new(validated_flight()), booking: ValidatedBooking::default() },
    );
    match journeys::endpoints(&flight) {
        journeys::Endpoints::FromFlight(f) => assert_eq!(f.flight_number, "100"),
        other => panic!("expected the flight, got {other:?}"),
    }
    assert!(journeys::vehicle_to_resolve(&flight).is_none());

    let mut walk = segment(2, SegmentDetail::Bare);
    walk.origin = Some(ValidatedPlace::Saved(4));
    match journeys::endpoints(&walk) {
        journeys::Endpoints::Named(Some(ValidatedPlace::Saved(4)), None) => {}
        other => panic!("expected the named places, got {other:?}"),
    }

    let drive = segment(
        3,
        SegmentDetail::Drive(ValidatedDrive {
            vehicle: Some(ValidatedVehicle::Saved(7)),
            role: None,
            route_polyline: None,
        }),
    );
    assert!(matches!(journeys::vehicle_to_resolve(&drive), Some(ValidatedVehicle::Saved(7))));
}
