use trace_server::error::ApiError;
use trace_server::flight::{AirlineInput, AirportInput, FlightInput};
use trace_server::journey::{
    airport_cache_key, BookingInput, CreateJourneyRequest, CustomPlaceInput, DriveInput,
    NewVehicleInput, PlaceCache, PlaceInput, SegmentDetail, SegmentInput, ValidatedPlace,
    VehicleInput,
};
use trace_server::time::Timestamp;

fn at(text: &str) -> Timestamp {
    let parsed: chrono::DateTime<chrono::Utc> = text.parse().unwrap();
    Timestamp::new(parsed.timestamp(), parsed.timestamp_subsec_nanos())
}

fn journey(segments: Vec<SegmentInput>) -> CreateJourneyRequest {
    CreateJourneyRequest {
        user_id: 1,
        idempotency_key: None,
        title: "England, August 2026".to_string(),
        description: None,
        started_at: None,
        ended_at: None,
        status: None,
        visibility: None,
        metadata: None,
        segments,
    }
}

fn segment(mode: &str) -> SegmentInput {
    SegmentInput {
        mode: mode.to_string(),
        origin: None,
        destination: None,
        started_at: None,
        ended_at: None,
        duration_minutes: None,
        distance_miles: None,
        notes: None,
        metadata: None,
        flight: None,
        booking: None,
        drive: None,
    }
}

fn airport(iata: &str, name: Option<&str>) -> AirportInput {
    AirportInput {
        iata_code: iata.to_string(),
        icao_code: None,
        name: name.map(|n| n.to_string()),
        city: None,
        country_code: None,
        latitude: None,
        longitude: None,
        timezone: None,
    }
}

fn flight(airline_name: Option<&str>, number: &str) -> FlightInput {
    FlightInput {
        airline: AirlineInput {
            iata_code: "AA".to_string(),
            icao_code: None,
            name: airline_name.map(|n| n.to_string()),
        },
        flight_number: number.to_string(),
        origin: airport("JFK", Some("Kennedy")),
        destination: airport("LHR", Some("Heathrow")),
        scheduled_departure_at: at("2026-08-10T22:00:00Z"),
        scheduled_arrival_at: at("2026-08-11T10:00:00Z"),
        actual_departure_at: None,
        actual_arrival_at: None,
        status: None,
        departure_terminal: None,
        departure_gate: None,
        arrival_terminal: None,
        arrival_gate: None,
        aircraft_type: None,
        aircraft_registration: None,
    }
}

fn booking(seat: &str, cabin: &str) -> BookingInput {
    BookingInput {
        seat: Some(seat.to_string()),
        cabin: Some(cabin.to_string()),
        booking_reference: None,
        ticket_number: None,
    }
}

fn flight_segment() -> SegmentInput {
    let mut s = segment("flight");
    s.flight = Some(flight(Some("American Airlines"), "100"));
    s.booking = Some(booking("32A", "economy"));
    s
}

fn drive(role: Option<&str>, vehicle: Option<VehicleInput>) -> DriveInput {
    DriveInput { vehicle, role: role.map(|r| r.to_string()), route_polyline: None }
}

fn custom(name: &str, kind: Option<&str>, city: Option<&str>, position: Option<(f64, f64)>) -> PlaceInput {
    PlaceInput::Custom(CustomPlaceInput {
        name: name.to_string(),
        kind: kind.map(|k| k.to_string()),
        address: None,
        city: city.map(|c| c.to_string()),
        country_code: None,
        latitude: position.map(|p| p.0.to_bits()),
        longitude: position.map(|p| p.1.to_bits()),
        timezone: None,
    })
}

fn errors(request: CreateJourneyRequest) -> Vec<String> {
    match request.validate() {
        Err(ApiError::Validation(errors)) => errors,
        Err(other) => panic!("expected validation errors, got {other:?}"),
        Ok(_) => panic!("expected validation to fail"),
    }
}

fn check_positions_come_from_the_array_order() {
    let request = journey(vec![segment("walk"), flight_segment(), segment("drive")]);

    let journey = request.validate().expect("should be valid");
    let positions: Vec<i32> = journey.segments.iter().map(|s| s.position).collect();

    assert_eq!(positions, vec![1, 2, 3]);
    assert_eq!(journey.status, "planned");
    assert_eq!(journey.visibility, "private");
    assert_eq!(journey.metadata, "{}");
}

fn check_a_flight_segment_requires_its_flight() {
    let errors = errors(journey(vec![segment("flight")]));

    assert_eq!(errors.len(), 1);
    assert!(errors[0].contains("segments[0].flight is required"));
}

fn check_detail_objects_have_to_match_the_mode() {
    let mut first = segment("drive");
    first.flight = Some(flight(None, "1"));
    let mut second = segment("walk");
    second.drive = Some(drive(Some("driver"), None));
    let errors = errors(journey(vec![first, second]));

    assert_eq!(errors.len(), 2);
    assert!(errors
        .iter()
        .any(|e| e.contains("segments[0].flight is only valid")));
    assert!(errors
        .iter()
        .any(|e| e.contains("segments[1].drive is only valid")));
}

fn check_a_flight_segment_must_not_restate_its_endpoints() {
    let mut segment = flight_segment();
    segment.origin = Some(PlaceInput::Saved { id: 1 });

    let errors = errors(journey(vec![segment]));
    assert_eq!(errors.len(), 1);
    assert!(errors[0].contains("derived from the flight"));
}

fn check_errors_name_the_segment_they_came_from() {
    let mut third = segment("drive");
    third.drive = Some(drive(Some("pilot"), None));
    let errors = errors(journey(vec![segment("walk"), segment("teleport"), third]));

    assert_eq!(errors.len(), 2);
    assert!(errors.iter().any(|e| e.starts_with("segments[1].mode")));
    assert!(errors
        .iter()
        .any(|e| e.starts_with("segments[2].drive.role")));
}

fn check_nested_flight_errors_carry_the_segment_prefix() {
    let mut segment = flight_segment();
    if let Some(f) = segment.flight.as_mut() {
        f.origin.iata_code = "JF".to_string();
    }
    segment.booking = Some(booking("32A", "steerage"));

    let errors = errors(journey(vec![self::segment("walk"), segment]));

    assert!(errors
        .iter()
        .any(|e| e.starts_with("segments[1].flight.origin.iata_code")));
    assert!(errors
        .iter()
        .any(|e| e.starts_with("segments[1].booking.cabin")));
}

fn check_duration_falls_out_of_the_timestamps() {
    let mut s = segment("drive");
    s.started_at = Some(at("2026-08-10T18:00:00Z"));
    s.ended_at = Some(at("2026-08-10T19:10:00Z"));
    let request = journey(vec![s]);

    let journey = request.validate().expect("should be valid");
    assert_eq!(journey.segments[0].duration_minutes, Some(70));
}

fn check_a_custom_place_cannot_claim_to_be_an_airport() {
    let mut s = segment("walk");
    s.origin = Some(custom("Not really", Some("airport"), None, None));
    let errors = errors(journey(vec![s]));

    assert_eq!(errors.len(), 1);
    assert!(errors[0].contains("cannot be \"airport\""));
}

fn check_a_new_vehicle_needs_something_to_call_it() {
    let mut s = segment("drive");
    s.drive = Some(drive(
        None,
        Some(VehicleInput::New(NewVehicleInput {
            nickname: None,
            make: None,
            model: None,
            year: Some(2019),
            license_plate: None,
        })),
    ));
    let errors = errors(journey(vec![s]));

    assert_eq!(errors.len(), 1);
    assert!(errors[0].contains("nickname, make, or model"));
}

fn check_metadata_must_be_an_object() {
    let mut s = segment("walk");
    s.metadata = Some("[\"nope\"]".to_string());
    let errors = errors(journey(vec![s]));

    assert_eq!(errors.len(), 1);
    assert!(errors[0].contains("segments[0].metadata must be a JSON object"));
}

fn check_one_waypoint_described_twice_is_one_place() {
    let mut first = segment("drive");
    first.destination = Some(custom(
        "Cotswolds cottage",
        None,
        Some("Stow-on-the-Wold"),
        Some((51.929, -1.722)),
    ));
    // The same building, named in shorthand as the next leg's start.
    let mut second = segment("walk");
    second.origin = Some(custom("Cotswolds cottage", None, None, Some((51.929, -1.722))));
    second.destination = Some(custom("The Porch House", None, None, Some((51.9295, -1.7235))));
    let request = journey(vec![first, second]);

    let journey = request.validate().expect("should be valid");
    let arrival = journey.segments[0].destination.as_ref().unwrap();
    let departure = journey.segments[1].origin.as_ref().unwrap();
    let elsewhere = journey.segments[1].destination.as_ref().unwrap();

    assert_eq!(arrival.cache_key(), departure.cache_key());
    assert_ne!(arrival.cache_key(), elsewhere.cache_key());
}

fn check_every_segment_reports_at_once() {
    let errors = errors(journey(vec![segment("nope"), segment("nope"), segment("nope")]));

    assert_eq!(errors.len(), 3);
}

#[test]
fn journey_tests_positions_come_from_the_array_order() {
    check_positions_come_from_the_array_order();
}

#[test]
fn journeys_positions_come_from_the_array_order() {
    check_positions_come_from_the_array_order();
}

#[test]
fn journey_tests_a_flight_segment_requires_its_flight() {
    check_a_flight_segment_requires_its_flight();
}

#[test]
fn journeys_a_flight_segment_requires_its_flight() {
    check_a_flight_segment_requires_its_flight();
}

#[test]
fn journey_tests_detail_objects_have_to_match_the_mode() {
    check_detail_objects_have_to_match_the_mode();
}

#[test]
fn journeys_detail_objects_have_to_match_the_mode() {
    check_detail_objects_have_to_match_the_mode();
}

#[test]
fn journey_tests_a_flight_segment_must_not_restate_its_endpoints() {
    check_a_flight_segment_must_not_restate_its_endpoints();
}

#[test]
fn journeys_a_flight_segment_must_not_restate_its_endpoints() {
    check_a_flight_segment_must_not_restate_its_endpoints();
}

#[test]
fn journey_tests_errors_name_the_segment_they_came_from() {
    check_errors_name_the_segment_they_came_from();
}

#[test]
fn journeys_errors_name_the_segment_they_came_from() {
    check_errors_name_the_segment_they_came_from();
}

#[test]
fn journey_tests_nested_flight_errors_carry_the_segment_prefix() {
    check_nested_flight_errors_carry_the_segment_prefix();
}

#[test]
fn journeys_nested_flight_errors_carry_the_segment_prefix() {
    check_nested_flight_errors_carry_the_segment_prefix();
}

#[test]
fn journey_tests_duration_falls_out_of_the_timestamps() {
    check_duration_falls_out_of_the_timestamps();
}

#[test]
fn journeys_duration_falls_out_of_the_timestamps() {
    check_duration_falls_out_of_the_timestamps();
}

#[test]
fn journey_tests_a_custom_place_cannot_claim_to_be_an_airport() {
    check_a_custom_place_cannot_claim_to_be_an_airport();
}

#[test]
fn journeys_a_custom_place_cannot_claim_to_be_an_airport() {
    check_a_custom_place_cannot_claim_to_be_an_airport();
}

#[test]
fn journey_tests_a_new_vehicle_needs_something_to_call_it() {
    check_a_new_vehicle_needs_something_to_call_it();
}

#[test]
fn journeys_a_new_vehicle_needs_something_to_call_it() {
    check_a_new_vehicle_needs_something_to_call_it();
}

#[test]
fn journey_tests_metadata_must_be_an_object() {
    check_metadata_must_be_an_object();
}

#[test]
fn journeys_metadata_must_be_an_object() {
    check_metadata_must_be_an_object();
}

#[test]
fn journey_tests_one_waypoint_described_twice_is_one_place() {
    check_one_waypoint_described_twice_is_one_place();
}

#[test]
fn journeys_one_waypoint_described_twice_is_one_place() {
    check_one_waypoint_described_twice_is_one_place();
}

#[test]
fn journey_tests_every_segment_reports_at_once() {
    check_every_segment_reports_at_once();
}

#[test]
fn journeys_every_segment_reports_at_once() {
    check_every_segment_reports_at_once();
}

#[test]
fn a_cache_reads_back_what_was_stored_and_the_latest_write_wins() {
    let mut cache = PlaceCache::new();
    assert_eq!(cache.get("airport:JFK"), None);

    cache.insert("airport:JFK".to_string(), 7);
    cache.insert("saved:3".to_string(), 3);
    assert_eq!(cache.get("airport:JFK"), Some(7));
    assert_eq!(cache.get("saved:3"), Some(3));

    cache.insert("airport:JFK".to_string(), 9);
    assert_eq!(cache.get("airport:JFK"), Some(9));
    assert_eq!(cache.get("airport:LHR"), None);
}

#[test]
fn an_airport_endpoint_is_found_under_the_key_its_flight_seeded() {
    let mut s = segment("walk");
    s.origin = Some(PlaceInput::Airport(airport("jfk", Some("Kennedy"))));
    let journey = journey(vec![s]).validate().expect("should be valid");
    let origin = journey.segments[0].origin.as_ref().unwrap();

    assert!(matches!(origin, ValidatedPlace::Airport(_)));
    assert_eq!(origin.cache_key(), airport_cache_key("JFK"));
    assert_eq!(airport_cache_key("JFK"), "airport:JFK");
}

#[test]
fn a_saved_place_is_keyed_by_its_id() {
    let mut s = segment("walk");
    s.origin = Some(PlaceInput::Saved { id: 12 });
    let journey = journey(vec![s]).validate().expect("should be valid");

    assert_eq!(journey.segments[0].origin.as_ref().unwrap().cache_key(), "saved:12");
}

#[test]
fn a_flight_segment_carries_its_flight_and_booking() {
    let journey = journey(vec![flight_segment()]).validate().expect("should be valid");

    match &journey.segments[0].detail {
        SegmentDetail::Flight { flight, booking } => {
            assert_eq!(flight.origin.iata_code, "JFK");
            assert_eq!(flight.status, "scheduled");
            assert_eq!(booking.cabin.as_deref(), Some("economy"));
        }
        other => panic!("expected a flight detail, got {other:?}"),
    }
}
