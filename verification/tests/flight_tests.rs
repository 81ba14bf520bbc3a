use trace_server::flight::{AirlineInput, AirportInput, FlightInput, FlightUpsert, Flight, ResolvedAirport};
use trace_server::geo::Coordinates;
use trace_server::time::Timestamp;

fn at(text: &str) -> Timestamp {
    let parsed: chrono::DateTime<chrono::Utc> = text.parse().unwrap();
    Timestamp::new(parsed.timestamp(), parsed.timestamp_subsec_nanos())
}

fn airport(iata: &str, latitude: f64, longitude: f64) -> AirportInput {
    AirportInput {
        iata_code: iata.to_string(),
        icao_code: None,
        name: Some(format!("{iata} International")),
        city: None,
        country_code: None,
        latitude: Some(latitude.to_bits()),
        longitude: Some(longitude.to_bits()),
        timezone: None,
    }
}

fn request() -> FlightInput {
    FlightInput {
        airline: AirlineInput {
            iata_code: "aa".to_string(),
            icao_code: Some("aal".to_string()),
            name: Some("American Airlines".to_string()),
        },
        flight_number: " 100 ".to_string(),
        origin: airport("jfk", 40.639751, -73.778925),
        destination: airport("lhr", 51.470020, -0.454295),
        scheduled_departure_at: at("2026-08-10T22:00:00Z"),
        scheduled_arrival_at: at("2026-08-11T10:00:00Z"),
        actual_departure_at: None,
        actual_arrival_at: None,
        status: None,
        departure_terminal: Some("  8 ".to_string()),
        departure_gate: None,
        arrival_terminal: None,
        arrival_gate: None,
        aircraft_type: None,
        aircraft_registration: Some("".to_string()),
    }
}

/// Validate standalone (no journey prefix) and demand failure.
fn errors(request: FlightInput) -> Vec<String> {
    let mut errors = Vec::new();
    request.validate_into("", &mut errors);
    assert!(!errors.is_empty(), "expected validation to fail");
    errors
}

fn check_normalises_codes_and_defaults_the_status() {
    let mut errors = Vec::new();
    let flight = request().validate_into("", &mut errors);
    assert!(errors.is_empty(), "expected no errors, got {errors:?}");

    assert_eq!(flight.airline.iata_code, "AA");
    assert_eq!(flight.airline.icao_code.as_deref(), Some("AAL"));
    assert_eq!(flight.flight_number, "100");
    assert_eq!(flight.origin.iata_code, "JFK");
    assert_eq!(flight.destination.iata_code, "LHR");
    assert_eq!(flight.status, "scheduled");
    assert_eq!(flight.departure_terminal.as_deref(), Some("8"));
    // Blank optional strings are absent, not empty.
    assert_eq!(flight.aircraft_registration, None);
}

fn check_rejects_a_malformed_iata_code() {
    let mut req = request();
    req.origin.iata_code = "JFKX".to_string();

    let errors = errors(req);
    assert_eq!(errors.len(), 1);
    assert!(errors[0].contains("origin.iata_code"));
}

fn check_rejects_a_flight_that_lands_before_it_leaves() {
    let mut req = request();
    req.scheduled_arrival_at = req.scheduled_departure_at;

    let errors = errors(req);
    assert_eq!(errors.len(), 1);
    assert!(errors[0].contains("scheduled_arrival_at"));
}

fn check_rejects_a_flight_to_the_airport_it_leaves_from() {
    let mut req = request();
    req.destination = airport("jfk", 40.639751, -73.778925);

    let errors = errors(req);
    assert_eq!(errors.len(), 1);
    assert!(errors[0].contains("different airports"));
}

fn check_rejects_an_unknown_status() {
    let mut req = request();
    req.status = Some("taxiing".to_string());

    let errors = errors(req);
    assert_eq!(errors.len(), 1);
    assert!(errors[0].contains("status must be one of"));
}

fn check_rejects_half_a_coordinate_pair_and_an_out_of_range_one() {
    let mut req = request();
    req.origin.longitude = None;
    req.destination.latitude = Some(120.0_f64.to_bits());

    let errors = errors(req);
    assert_eq!(errors.len(), 2);
    assert!(errors.iter().any(|e| e.contains("must be given together")));
    assert!(errors
        .iter()
        .any(|e| e.contains("destination.latitude must be between")));
}

fn check_reports_every_problem_at_once() {
    let mut req = request();
    req.flight_number = "  ".to_string();
    req.airline.iata_code = "A".to_string();
    req.status = Some("taxiing".to_string());

    assert_eq!(errors(req).len(), 3);
}

#[test]
fn flight_tests_normalises_codes_and_defaults_the_status() {
    check_normalises_codes_and_defaults_the_status();
}

#[test]
fn flight_tests_rejects_a_malformed_iata_code() {
    check_rejects_a_malformed_iata_code();
}

#[test]
fn flight_tests_rejects_a_flight_that_lands_before_it_leaves() {
    check_rejects_a_flight_that_lands_before_it_leaves();
}

#[test]
fn flight_tests_rejects_a_flight_to_the_airport_it_leaves_from() {
    check_rejects_a_flight_to_the_airport_it_leaves_from();
}

#[test]
fn flight_tests_rejects_an_unknown_status() {
    check_rejects_an_unknown_status();
}

#[test]
fn flight_tests_rejects_half_a_coordinate_pair_and_an_out_of_range_one() {
    check_rejects_half_a_coordinate_pair_and_an_out_of_range_one();
}

#[test]
fn flight_tests_reports_every_problem_at_once() {
    check_reports_every_problem_at_once();
}

#[test]
fn flights_normalises_codes_and_defaults_the_status() {
    check_normalises_codes_and_defaults_the_status();
}

#[test]
fn flights_rejects_a_malformed_iata_code() {
    check_rejects_a_malformed_iata_code();
}

#[test]
fn flights_rejects_a_flight_that_lands_before_it_leaves() {
    check_rejects_a_flight_that_lands_before_it_leaves();
}

#[test]
fn flights_rejects_a_flight_to_the_airport_it_leaves_from() {
    check_rejects_a_flight_to_the_airport_it_leaves_from();
}

#[test]
fn flights_rejects_an_unknown_status() {
    check_rejects_an_unknown_status();
}

#[test]
fn flights_rejects_half_a_coordinate_pair_and_an_out_of_range_one() {
    check_rejects_half_a_coordinate_pair_and_an_out_of_range_one();
}

#[test]
fn flights_reports_every_problem_at_once() {
    check_reports_every_problem_at_once();
}

#[test]
fn nested_flight_errors_name_their_journey_position() {
    let mut req = request();
    req.origin.iata_code = "JF".to_string();
    req.airline.icao_code = Some("toolong".to_string());
    req.actual_departure_at = Some(at("2026-08-10T22:10:00Z"));
    req.actual_arrival_at = Some(at("2026-08-10T22:05:00Z"));
    let errors = errors_with_prefix(req, "segments[3].flight");
    assert_eq!(
        errors,
        vec![
            "segments[3].flight.airline.icao_code must be 3 alphanumeric characters".to_string(),
            "segments[3].flight.origin.iata_code must be 3 alphanumeric characters".to_string(),
            "segments[3].flight.actual_arrival_at must be after segments[3].flight.actual_departure_at"
                .to_string(),
        ]
    );
}

fn errors_with_prefix(request: FlightInput, prefix: &str) -> Vec<String> {
    let mut errors = Vec::new();
    request.validate_into(prefix, &mut errors);
    errors
}

#[test]
fn range_checks_read_the_magnitude_of_the_coordinate() {
    for (latitude, longitude, expected) in [
        (90.0_f64, 180.0_f64, 0usize),
        (-90.0, -180.0, 0),
        (-0.0, 0.0, 0),
        (90.000001, 0.0, 1),
        (-90.000001, 180.5, 2),
        (f64::NAN, f64::INFINITY, 2),
    ] {
        let mut req = request();
        req.origin.latitude = Some(latitude.to_bits());
        req.origin.longitude = Some(longitude.to_bits());
        assert_eq!(errors_with_prefix(req, "").len(), expected, "{latitude} {longitude}");
    }
}

#[test]
fn flight_numbers_are_checked_in_order_of_severity() {
    let mut req = request();
    req.flight_number = "12345678901".to_string();
    assert_eq!(errors(req), vec!["flight_number must be at most 10 characters".to_string()]);

    let mut req = request();
    req.flight_number = "AA-1".to_string();
    assert_eq!(errors(req), vec!["flight_number must be alphanumeric".to_string()]);
}

#[test]
fn optional_codes_are_normalised_and_checked() {
    let mut req = request();
    req.origin.country_code = Some(" us ".to_string());
    req.origin.icao_code = Some("kjfk".to_string());
    let mut errors = Vec::new();
    let flight = req.validate_into("", &mut errors);
    assert!(errors.is_empty(), "{errors:?}");
    assert_eq!(flight.origin.country_code.as_deref(), Some("US"));
    assert_eq!(flight.origin.icao_code.as_deref(), Some("KJFK"));
    assert_eq!(flight.origin.latitude, Some(40.639751_f64.to_bits()));
}

#[test]
fn a_resolved_airport_has_coordinates_only_with_both_halves() {
    let jfk = ResolvedAirport {
        id: 1,
        latitude: Some(40.639751_f64.to_bits()),
        longitude: Some((-73.778925_f64).to_bits()),
    };
    let unmapped = ResolvedAirport { id: 3, latitude: Some(1.0_f64.to_bits()), longitude: None };

    assert_eq!(
        jfk.coordinates(),
        Some(Coordinates {
            latitude: 40.639751_f64.to_bits(),
            longitude: (-73.778925_f64).to_bits()
        })
    );
    assert_eq!(unmapped.coordinates(), None);
}

fn row(number: &str) -> Flight {
    let t = at("2026-08-10T22:00:00Z");
    Flight {
        id: 7,
        airline_id: 1,
        flight_number: number.to_string(),
        origin_airport_id: 2,
        destination_airport_id: 3,
        distance_miles: Some(3443),
        scheduled_departure_at: t,
        scheduled_arrival_at: t,
        actual_departure_at: None,
        actual_arrival_at: None,
        status: "scheduled".to_string(),
        departure_terminal: None,
        departure_gate: None,
        arrival_terminal: None,
        arrival_gate: None,
        aircraft_type: None,
        aircraft_registration: None,
        created_at: t,
        updated_at: t,
    }
}

#[test]
fn an_upsert_yields_its_row_either_way() {
    assert_eq!(FlightUpsert::Created(row("1")).into_row().flight_number, "1");
    assert_eq!(FlightUpsert::AlreadyExists(row("2")).into_row().flight_number, "2");
}
