//! Flights: the shared, real-world leg.
//!
//! A flight is not owned by a user — AA100 on a given day is one row in
//! `flights` however many people were aboard. These are the request and row
//! types plus their validation; the personal half of a flight (seat, cabin,
//! booking reference) lives with the journey segment that references it.

use vstd::prelude::*;
use vstd::string::*;

use crate::geo::{check_coordinates, coordinate_errors, Coordinates};
use crate::text::{decimal, str_views, concat, concat3, is_all_ascii_alphanumeric, to_upper, trim, trimmed, upper, all_alnum, views};
use crate::time::{earlier, Timestamp};
use crate::validation::{
    chosen_value, code_errors, code_value, field, field_path, fixed_code, one_of, one_of_errors,
    opt_view, optional_text, report, text_errors, trimmed_nonblank, trimmed_opt,
};

verus! {

/// The statuses allowed by the `flights_status_check` constraint.
pub const FLIGHT_STATUSES: [&'static str; 8] = [
    "scheduled",
    "boarding",
    "departed",
    "in_air",
    "landed",
    "delayed",
    "cancelled",
    "diverted",
];

pub const DEFAULT_STATUS: &'static str = "scheduled";

// Column widths from the flights schema. Checking them here turns what would be
// a 500 from the driver into a 422 that names the field.
pub const MAX_FLIGHT_NUMBER_LEN: usize = 10;

pub const MAX_NAME_LEN: usize = 150;

pub const MAX_CITY_LEN: usize = 100;

pub const MAX_TIMEZONE_LEN: usize = 50;

pub const MAX_TERMINAL_OR_GATE_LEN: usize = 10;

pub const MAX_AIRCRAFT_TYPE_LEN: usize = 50;

pub const MAX_AIRCRAFT_REGISTRATION_LEN: usize = 20;

/// An airport as the caller describes it. Only `iata_code` is required: it is
/// the natural key, and everything else is needed just for the insert that
/// happens when the airport is new to us.
#[derive(Debug)]
pub struct AirportInput {
    pub iata_code: String,
    pub icao_code: Option<String>,
    pub name: Option<String>,
    pub city: Option<String>,
    pub country_code: Option<String>,
    /// Degrees, as the bit pattern of a double.
    pub latitude: Option<u64>,
    /// Degrees, as the bit pattern of a double.
    pub longitude: Option<u64>,
    pub timezone: Option<String>,
}

/// An airline as the caller describes it, on the same terms as `AirportInput`.
#[derive(Debug)]
pub struct AirlineInput {
    pub iata_code: String,
    pub icao_code: Option<String>,
    pub name: Option<String>,
}

/// A flight as the caller describes it, nested inside a journey segment.
///
/// `distance_miles` is deliberately absent — the server derives it.
#[derive(Debug)]
pub struct FlightInput {
    pub airline: AirlineInput,
    pub flight_number: String,
    pub origin: AirportInput,
    pub destination: AirportInput,
    pub scheduled_departure_at: Timestamp,
    pub scheduled_arrival_at: Timestamp,
    pub actual_departure_at: Option<Timestamp>,
    pub actual_arrival_at: Option<Timestamp>,
    /// Optional; the column defaults to `scheduled`.
    pub status: Option<String>,
    pub departure_terminal: Option<String>,
    pub departure_gate: Option<String>,
    pub arrival_terminal: Option<String>,
    pub arrival_gate: Option<String>,
    pub aircraft_type: Option<String>,
    pub aircraft_registration: Option<String>,
}

/// A trimmed, range-checked `AirportInput`.
#[derive(Debug)]
pub struct ValidatedAirport {
    pub iata_code: String,
    pub icao_code: Option<String>,
    pub name: Option<String>,
    pub city: Option<String>,
    pub country_code: Option<String>,
    pub latitude: Option<u64>,
    pub longitude: Option<u64>,
    pub timezone: Option<String>,
}

/// A trimmed, range-checked `AirlineInput`.
#[derive(Debug)]
pub struct ValidatedAirline {
    pub iata_code: String,
    pub icao_code: Option<String>,
    pub name: Option<String>,
}

/// A trimmed, range-checked `FlightInput`.
#[derive(Debug)]
pub struct ValidatedFlight {
    pub airline: ValidatedAirline,
    pub flight_number: String,
    pub origin: ValidatedAirport,
    pub destination: ValidatedAirport,
    pub scheduled_departure_at: Timestamp,
    pub scheduled_arrival_at: Timestamp,
    pub actual_departure_at: Option<Timestamp>,
    pub actual_arrival_at: Option<Timestamp>,
    pub status: String,
    pub departure_terminal: Option<String>,
    pub departure_gate: Option<String>,
    pub arrival_terminal: Option<String>,
    pub arrival_gate: Option<String>,
    pub aircraft_type: Option<String>,
    pub aircraft_registration: Option<String>,
}

/// An airport row after it has been resolved — the id the flight references,
/// plus the coordinates the distance is computed from.
#[derive(Debug, Clone, Copy)]
pub struct ResolvedAirport {
    pub id: i64,
    pub latitude: Option<u64>,
    pub longitude: Option<u64>,
}

/// A row of `flights`, as returned to the caller.
#[derive(Debug)]
pub struct Flight {
    pub id: u128,
    pub airline_id: i64,
    pub flight_number: String,
    pub origin_airport_id: i64,
    pub destination_airport_id: i64,
    /// `NULL` when either airport has no coordinates on file.
    pub distance_miles: Option<i32>,
    pub scheduled_departure_at: Timestamp,
    pub scheduled_arrival_at: Timestamp,
    pub actual_departure_at: Option<Timestamp>,
    pub actual_arrival_at: Option<Timestamp>,
    pub status: String,
    pub departure_terminal: Option<String>,
    pub departure_gate: Option<String>,
    pub arrival_terminal: Option<String>,
    pub arrival_gate: Option<String>,
    pub aircraft_type: Option<String>,
    pub aircraft_registration: Option<String>,
    pub created_at: Timestamp,
    pub updated_at: Timestamp,
}

/// The outcome of inserting a flight: either the row this request wrote, or
/// the one an identical earlier request already wrote.
#[derive(Debug)]
pub enum FlightUpsert {
    Created(Flight),
    AlreadyExists(Flight),
}

impl FlightUpsert {
    /// The row, either way. Callers who only need the flight — a journey
    /// segment, say — do not care which request created it.
    pub fn into_row(self) -> (r: Flight)
        ensures
            r == (match self {
                FlightUpsert::Created(row) => row,
                FlightUpsert::AlreadyExists(row) => row,
            }),
    {
        match self {
            FlightUpsert::Created(row) => row,
            FlightUpsert::AlreadyExists(row) => row,
        }
    }
}

impl ResolvedAirport {
    /// The airport's position, when both halves are on file.
    pub fn coordinates(&self) -> (r: Option<Coordinates>)
        ensures
            r == (match (self.latitude, self.longitude) {
                (Some(latitude), Some(longitude)) => Some(Coordinates { latitude, longitude }),
                _ => None,
            }),
    {
        match (self.latitude, self.longitude) {
            (Some(latitude), Some(longitude)) => Some(Coordinates { latitude, longitude }),
            _ => None,
        }
    }
}

// ---------------------------------------------------------------------------
// What validation reports, and what it keeps
// ---------------------------------------------------------------------------

/// An optional code: trimmed, dropped when blank, then normalised.
pub open spec fn opt_code(value: Option<String>) -> Option<Seq<char>> {
    match trimmed_opt(value) {
        Some(t) => Some(code_value(t)),
        None => None,
    }
}

pub open spec fn opt_code_errors(value: Option<String>, field: Seq<char>, len: nat) -> Seq<
    Seq<char>,
> {
    match trimmed_opt(value) {
        Some(t) => code_errors(t, field, len),
        None => Seq::empty(),
    }
}

/// Everything `AirportInput::validate` reports, in order.
#[verifier::opaque]
pub open spec fn airport_errors(a: AirportInput, f: Seq<char>) -> Seq<Seq<char>> {
    code_errors(a.iata_code@, f + ".iata_code"@, 3) + opt_code_errors(
        a.icao_code,
        f + ".icao_code"@,
        4,
    ) + coordinate_errors(a.latitude, a.longitude, f) + text_errors(a.name, f + ".name"@, 150)
        + text_errors(a.city, f + ".city"@, 100) + opt_code_errors(
        a.country_code,
        f + ".country_code"@,
        2,
    ) + text_errors(a.timezone, f + ".timezone"@, 50)
}

/// What `AirportInput::validate` keeps.
#[verifier::opaque]
pub open spec fn airport_kept(r: ValidatedAirport, a: AirportInput) -> bool {
    &&& r.iata_code@ == code_value(a.iata_code@)
    &&& opt_view(r.icao_code) == opt_code(a.icao_code)
    &&& opt_view(r.name) == trimmed_opt(a.name)
    &&& opt_view(r.city) == trimmed_opt(a.city)
    &&& opt_view(r.country_code) == opt_code(a.country_code)
    &&& r.latitude == a.latitude
    &&& r.longitude == a.longitude
    &&& opt_view(r.timezone) == trimmed_opt(a.timezone)
}

/// Everything `AirlineInput::validate` reports.
#[verifier::opaque]
pub open spec fn airline_errors(a: AirlineInput, prefix: Seq<char>) -> Seq<Seq<char>> {
    let p = field_path(prefix, "airline"@);
    code_errors(a.iata_code@, field_path(p, "iata_code"@), 2) + opt_code_errors(
        a.icao_code,
        field_path(p, "icao_code"@),
        3,
    ) + text_errors(a.name, field_path(p, "name"@), 150)
}

#[verifier::opaque]
pub open spec fn airline_kept(r: ValidatedAirline, a: AirlineInput) -> bool {
    &&& r.iata_code@ == code_value(a.iata_code@)
    &&& opt_view(r.icao_code) == opt_code(a.icao_code)
    &&& opt_view(r.name) == trimmed_opt(a.name)
}

/// The normalised flight number.
pub open spec fn flight_number_value(n: Seq<char>) -> Seq<char> {
    upper(trim(n))
}

#[verifier::opaque]
pub open spec fn flight_number_errors(n: Seq<char>, prefix: Seq<char>) -> Seq<Seq<char>> {
    let v = flight_number_value(n);
    let f = field_path(prefix, "flight_number"@);
    if v.len() == 0 {
        seq![f + " must not be empty"@]
    } else if v.len() > 10 {
        seq![f + " must be at most 10 characters"@]
    } else if !all_alnum(v) {
        seq![f + " must be alphanumeric"@]
    } else {
        Seq::empty()
    }
}

/// `later` must come strictly after `earlier_field`'s instant.
pub open spec fn order_errors(
    start: Timestamp,
    end: Timestamp,
    end_field: Seq<char>,
    start_field: Seq<char>,
) -> Seq<Seq<char>> {
    if earlier(start, end) {
        Seq::empty()
    } else {
        seq![end_field + " must be after "@ + start_field]
    }
}

pub open spec fn actual_order_errors(
    start: Option<Timestamp>,
    end: Option<Timestamp>,
    prefix: Seq<char>,
) -> Seq<Seq<char>> {
    match (start, end) {
        (Some(s), Some(e)) => order_errors(
            s,
            e,
            field_path(prefix, "actual_arrival_at"@),
            field_path(prefix, "actual_departure_at"@),
        ),
        _ => Seq::empty(),
    }
}

pub open spec fn status_names() -> Seq<Seq<char>> {
    seq![
        "scheduled"@,
        "boarding"@,
        "departed"@,
        "in_air"@,
        "landed"@,
        "delayed"@,
        "cancelled"@,
        "diverted"@,
    ]
}

/// The timing checks: scheduled arrival after scheduled departure, and the
/// same for the actual times when both are known.
#[verifier::opaque]
pub open spec fn schedule_errors(f: FlightInput, prefix: Seq<char>) -> Seq<Seq<char>> {
    order_errors(
        f.scheduled_departure_at,
        f.scheduled_arrival_at,
        field_path(prefix, "scheduled_arrival_at"@),
        field_path(prefix, "scheduled_departure_at"@),
    ) + actual_order_errors(f.actual_departure_at, f.actual_arrival_at, prefix)
}

/// A flight cannot land where it took off.
#[verifier::opaque]
pub open spec fn same_airport_errors(f: FlightInput, prefix: Seq<char>) -> Seq<Seq<char>> {
    if code_value(f.origin.iata_code@) == code_value(f.destination.iata_code@) {
        seq![field_path(prefix, "origin"@) + " and "@ + field_path(prefix, "destination"@)
            + " must be different airports"@]
    } else {
        Seq::empty()
    }
}

/// The optional terminal, gate and aircraft fields.
#[verifier::opaque]
pub open spec fn extras_errors(f: FlightInput, prefix: Seq<char>) -> Seq<Seq<char>> {
    text_errors(f.departure_terminal, field_path(prefix, "departure_terminal"@), 10)
        + text_errors(f.departure_gate, field_path(prefix, "departure_gate"@), 10) + text_errors(
        f.arrival_terminal,
        field_path(prefix, "arrival_terminal"@),
        10,
    ) + text_errors(f.arrival_gate, field_path(prefix, "arrival_gate"@), 10) + text_errors(
        f.aircraft_type,
        field_path(prefix, "aircraft_type"@),
        50,
    ) + text_errors(f.aircraft_registration, field_path(prefix, "aircraft_registration"@), 20)
}

/// The parties to a flight: its airline and both airports.
#[verifier::opaque]
pub open spec fn parties_errors(f: FlightInput, prefix: Seq<char>) -> Seq<Seq<char>> {
    airline_errors(f.airline, prefix) + airport_errors(f.origin, field_path(prefix, "origin"@))
        + airport_errors(f.destination, field_path(prefix, "destination"@))
}

/// Everything `FlightInput::validate_into` reports, in order.
pub open spec fn flight_errors(f: FlightInput, prefix: Seq<char>) -> Seq<Seq<char>> {
    parties_errors(f, prefix) + flight_number_errors(f.flight_number@, prefix) + one_of_errors(
        f.status,
        field_path(prefix, "status"@),
        status_names(),
        "scheduled"@,
    ) + schedule_errors(f, prefix) + same_airport_errors(f, prefix) + extras_errors(f, prefix)
}

/// What `FlightInput::validate_into` keeps.
pub open spec fn flight_kept(r: ValidatedFlight, f: FlightInput) -> bool {
    &&& airline_kept(r.airline, f.airline)
    &&& airport_kept(r.origin, f.origin)
    &&& airport_kept(r.destination, f.destination)
    &&& r.flight_number@ == flight_number_value(f.flight_number@)
    &&& r.scheduled_departure_at == f.scheduled_departure_at
    &&& r.scheduled_arrival_at == f.scheduled_arrival_at
    &&& r.actual_departure_at == f.actual_departure_at
    &&& r.actual_arrival_at == f.actual_arrival_at
    &&& r.status@ == chosen_value(f.status, "scheduled"@)
    &&& opt_view(r.departure_terminal) == trimmed_opt(f.departure_terminal)
    &&& opt_view(r.departure_gate) == trimmed_opt(f.departure_gate)
    &&& opt_view(r.arrival_terminal) == trimmed_opt(f.arrival_terminal)
    &&& opt_view(r.arrival_gate) == trimmed_opt(f.arrival_gate)
    &&& opt_view(r.aircraft_type) == trimmed_opt(f.aircraft_type)
    &&& opt_view(r.aircraft_registration) == trimmed_opt(f.aircraft_registration)
}

// ---------------------------------------------------------------------------
// Validation
// ---------------------------------------------------------------------------

/// An optional code, trimmed, dropped when blank, then checked as a fixed-width
/// code of `len` characters.
pub fn optional_code(value: Option<String>, field: &str, len: usize, errors: &mut Vec<String>) -> (r:
    Option<String>)
    ensures
        opt_view(r) == opt_code(value),
        views(final(errors)@) == views(old(errors)@) + opt_code_errors(value, field@, len as nat),
{
    match trimmed_nonblank(value) {
        Some(t) => Some(fixed_code(t.as_str(), field, len, errors)),
        None => {
            proof {
                assert(views(errors@) =~= views(old(errors)@) + opt_code_errors(
                    value,
                    field@,
                    len as nat,
                ));
            }
            None
        },
    }
}

impl AirportInput {
    /// Check and normalise an airport described under `field`.
    pub fn validate(self, field: &str, errors: &mut Vec<String>) -> (r: ValidatedAirport)
        ensures
            airport_kept(r, self),
            views(final(errors)@) == views(old(errors)@) + airport_errors(self, field@),
    {
        let ghost start = views(errors@);
        let iata_field = concat(field, ".iata_code");
        let iata_code = fixed_code(self.iata_code.as_str(), iata_field.as_str(), 3, errors);
        let ghost e1 = views(errors@);
        let icao_field = concat(field, ".icao_code");
        let icao_code = optional_code(self.icao_code, icao_field.as_str(), 4, errors);
        let ghost e2 = views(errors@);
        check_coordinates(self.latitude, self.longitude, field, errors);
        let ghost e3 = views(errors@);
        let name_field = concat(field, ".name");
        let name = optional_text(self.name, name_field.as_str(), MAX_NAME_LEN, errors);
        let ghost e4 = views(errors@);
        let city_field = concat(field, ".city");
        let city = optional_text(self.city, city_field.as_str(), MAX_CITY_LEN, errors);
        let ghost e5 = views(errors@);
        let country_field = concat(field, ".country_code");
        let country_code = optional_code(self.country_code, country_field.as_str(), 2, errors);
        let ghost e6 = views(errors@);
        let timezone_field = concat(field, ".timezone");
        let timezone = optional_text(
            self.timezone,
            timezone_field.as_str(),
            MAX_TIMEZONE_LEN,
            errors,
        );
        proof {
            reveal(airport_errors);
            reveal(airport_kept);
            assert(views(errors@) =~= start + airport_errors(self, field@));
        }
        ValidatedAirport {
            iata_code,
            icao_code,
            name,
            city,
            country_code,
            latitude: self.latitude,
            longitude: self.longitude,
            timezone,
        }
    }
}

impl AirlineInput {
    /// Check and normalise an airline, whose fields are named under
    /// `prefix.airline`.
    pub fn validate(self, prefix: &str, errors: &mut Vec<String>) -> (r: ValidatedAirline)
        ensures
            airline_kept(r, self),
            views(final(errors)@) == views(old(errors)@) + airline_errors(self, prefix@),
    {
        let ghost start = views(errors@);
        let p = field(prefix, "airline");
        let iata_field = field(p.as_str(), "iata_code");
        let iata_code = fixed_code(self.iata_code.as_str(), iata_field.as_str(), 2, errors);
        let icao_field = field(p.as_str(), "icao_code");
        let icao_code = optional_code(self.icao_code, icao_field.as_str(), 3, errors);
        let name_field = field(p.as_str(), "name");
        let name = optional_text(self.name, name_field.as_str(), MAX_NAME_LEN, errors);
        proof {
            reveal(airline_errors);
            reveal(airline_kept);
            assert(views(errors@) =~= start + airline_errors(self, prefix@));
        }
        ValidatedAirline { iata_code, icao_code, name }
    }
}

/// Check that `end` comes strictly after `start`, naming both fields if not.
fn check_order(
    start: Timestamp,
    end: Timestamp,
    end_field: &str,
    start_field: &str,
    errors: &mut Vec<String>,
)
    ensures
        views(final(errors)@) == views(old(errors)@) + order_errors(
            start,
            end,
            end_field@,
            start_field@,
        ),
{
    if !start.is_before(&end) {
        report(errors, concat3(end_field, " must be after ", start_field));
        proof {
            assert(views(final(errors)@) =~= views(old(errors)@) + order_errors(
                start,
                end,
                end_field@,
                start_field@,
            ));
        }
    } else {
        proof {
            assert(views(errors@) =~= views(old(errors)@) + order_errors(
                start,
                end,
                end_field@,
                start_field@,
            ));
        }
    }
}

fn check_flight_number(number: &str, prefix: &str, errors: &mut Vec<String>) -> (r: String)
    ensures
        r@ == flight_number_value(number@),
        views(final(errors)@) == views(old(errors)@) + flight_number_errors(number@, prefix@),
{
    let t = trimmed(number);
    let value = to_upper(t.as_str());
    let f = field(prefix, "flight_number");
    let n = value.unicode_len();
    if n == 0 {
        report(errors, concat(f.as_str(), " must not be empty"));
    } else if n > MAX_FLIGHT_NUMBER_LEN {
        report(errors, concat(f.as_str(), " must be at most 10 characters"));
    } else if !is_all_ascii_alphanumeric(value.as_str()) {
        report(errors, concat(f.as_str(), " must be alphanumeric"));
    }
    proof {
        reveal(flight_number_errors);
        assert(views(final(errors)@) =~= views(old(errors)@) + flight_number_errors(
            number@,
            prefix@,
        ));
    }
    value
}

/// The timing checks of `schedule_errors`.
fn check_schedule(
    scheduled_departure_at: Timestamp,
    scheduled_arrival_at: Timestamp,
    actual_departure_at: Option<Timestamp>,
    actual_arrival_at: Option<Timestamp>,
    prefix: &str,
    errors: &mut Vec<String>,
)
    ensures
        views(final(errors)@) == views(old(errors)@) + order_errors(
            scheduled_departure_at,
            scheduled_arrival_at,
            field_path(prefix@, "scheduled_arrival_at"@),
            field_path(prefix@, "scheduled_departure_at"@),
        ) + actual_order_errors(actual_departure_at, actual_arrival_at, prefix@),
{
    let ghost start = views(errors@);
    let arrival_field = field(prefix, "scheduled_arrival_at");
    let departure_field = field(prefix, "scheduled_departure_at");
    check_order(
        scheduled_departure_at,
        scheduled_arrival_at,
        arrival_field.as_str(),
        departure_field.as_str(),
        errors,
    );
    let ghost middle = views(errors@);
    match (actual_departure_at, actual_arrival_at) {
        (Some(departure), Some(arrival)) => {
            let actual_arrival_field = field(prefix, "actual_arrival_at");
            let actual_departure_field = field(prefix, "actual_departure_at");
            check_order(
                departure,
                arrival,
                actual_arrival_field.as_str(),
                actual_departure_field.as_str(),
                errors,
            );
        },
        _ => {},
    }
    proof {
        assert(views(errors@) =~= middle + actual_order_errors(
            actual_departure_at,
            actual_arrival_at,
            prefix@,
        ));
        assert(views(errors@) =~= start + order_errors(
            scheduled_departure_at,
            scheduled_arrival_at,
            field_path(prefix@, "scheduled_arrival_at"@),
            field_path(prefix@, "scheduled_departure_at"@),
        ) + actual_order_errors(actual_departure_at, actual_arrival_at, prefix@));
    }
}

/// The optional terminal, gate and aircraft fields, trimmed and length-checked.
fn check_extras(
    departure_terminal: Option<String>,
    departure_gate: Option<String>,
    arrival_terminal: Option<String>,
    arrival_gate: Option<String>,
    aircraft_type: Option<String>,
    aircraft_registration: Option<String>,
    prefix: &str,
    errors: &mut Vec<String>,
) -> (r: (
    Option<String>,
    Option<String>,
    Option<String>,
    Option<String>,
    Option<String>,
    Option<String>,
))
    ensures
        opt_view(r.0) == trimmed_opt(departure_terminal),
        opt_view(r.1) == trimmed_opt(departure_gate),
        opt_view(r.2) == trimmed_opt(arrival_terminal),
        opt_view(r.3) == trimmed_opt(arrival_gate),
        opt_view(r.4) == trimmed_opt(aircraft_type),
        opt_view(r.5) == trimmed_opt(aircraft_registration),
        views(final(errors)@) == views(old(errors)@) + text_errors(
            departure_terminal,
            field_path(prefix@, "departure_terminal"@),
            10,
        ) + text_errors(departure_gate, field_path(prefix@, "departure_gate"@), 10) + text_errors(
            arrival_terminal,
            field_path(prefix@, "arrival_terminal"@),
            10,
        ) + text_errors(arrival_gate, field_path(prefix@, "arrival_gate"@), 10) + text_errors(
            aircraft_type,
            field_path(prefix@, "aircraft_type"@),
            50,
        ) + text_errors(
            aircraft_registration,
            field_path(prefix@, "aircraft_registration"@),
            20,
        ),
{
    let ghost start = views(errors@);
    let f = field(prefix, "departure_terminal");
    let a = optional_text(departure_terminal, f.as_str(), MAX_TERMINAL_OR_GATE_LEN, errors);
    let f = field(prefix, "departure_gate");
    let b = optional_text(departure_gate, f.as_str(), MAX_TERMINAL_OR_GATE_LEN, errors);
    let f = field(prefix, "arrival_terminal");
    let c = optional_text(arrival_terminal, f.as_str(), MAX_TERMINAL_OR_GATE_LEN, errors);
    let f = field(prefix, "arrival_gate");
    let d = optional_text(arrival_gate, f.as_str(), MAX_TERMINAL_OR_GATE_LEN, errors);
    let f = field(prefix, "aircraft_type");
    let e = optional_text(aircraft_type, f.as_str(), MAX_AIRCRAFT_TYPE_LEN, errors);
    let f = field(prefix, "aircraft_registration");
    let g = optional_text(
        aircraft_registration,
        f.as_str(),
        MAX_AIRCRAFT_REGISTRATION_LEN,
        errors,
    );
    proof {
        assert(views(errors@) =~= start + text_errors(
            departure_terminal,
            field_path(prefix@, "departure_terminal"@),
            10,
        ) + text_errors(departure_gate, field_path(prefix@, "departure_gate"@), 10) + text_errors(
            arrival_terminal,
            field_path(prefix@, "arrival_terminal"@),
            10,
        ) + text_errors(arrival_gate, field_path(prefix@, "arrival_gate"@), 10) + text_errors(
            aircraft_type,
            field_path(prefix@, "aircraft_type"@),
            50,
        ) + text_errors(
            aircraft_registration,
            field_path(prefix@, "aircraft_registration"@),
            20,
        ));
    }
    (a, b, c, d, e, g)
}

impl FlightInput {
    /// Check and normalise, collecting into a caller-owned error list so a
    /// journey can report problems across every segment at once.
    ///
    /// `prefix` names where this flight sits in the request body — pass `""`
    /// when it stands alone.
    pub fn validate_into(self, prefix: &str, errors: &mut Vec<String>) -> (r: ValidatedFlight)
        ensures
            flight_kept(r, self),
            views(final(errors)@) == views(old(errors)@) + flight_errors(self, prefix@),
    {
        let ghost start = views(errors@);
        let ghost input = self;
        let airline = self.airline.validate(prefix, errors);
        let origin_field = field(prefix, "origin");
        let origin = self.origin.validate(origin_field.as_str(), errors);
        let destination_field = field(prefix, "destination");
        let destination = self.destination.validate(destination_field.as_str(), errors);
        let ghost e3 = views(errors@);
        proof {
            reveal(parties_errors);
            assert(e3 =~= start + parties_errors(input, prefix@));
        }
        let flight_number = check_flight_number(self.flight_number.as_str(), prefix, errors);
        let ghost e4 = views(errors@);
        let status_field = field(prefix, "status");
        let status = one_of(
            self.status,
            status_field.as_str(),
            FLIGHT_STATUSES.as_slice(),
            DEFAULT_STATUS,
            errors,
        );
        let ghost e5 = views(errors@);
        proof {
            assert(str_views(FLIGHT_STATUSES@) =~= status_names());
        }
        check_schedule(
            self.scheduled_departure_at,
            self.scheduled_arrival_at,
            self.actual_departure_at,
            self.actual_arrival_at,
            prefix,
            errors,
        );
        let ghost e6 = views(errors@);
        // Mirrors the origin/destination check constraint; caught here so the
        // caller gets a named field rather than a constraint name.
        if crate::text::same_text(origin.iata_code.as_str(), destination.iata_code.as_str()) {
            let mut message = concat3(origin_field.as_str(), " and ", destination_field.as_str());
            message.append(" must be different airports");
            report(errors, message);
        }
        let ghost e7 = views(errors@);
        proof {
            reveal(same_airport_errors);
            reveal(airport_kept);
            assert(e7 =~= e6 + same_airport_errors(input, prefix@));
        }
        let extras = check_extras(
            self.departure_terminal,
            self.departure_gate,
            self.arrival_terminal,
            self.arrival_gate,
            self.aircraft_type,
            self.aircraft_registration,
            prefix,
            errors,
        );
        proof {
            reveal(extras_errors);
            reveal(schedule_errors);
            assert(views(errors@) =~= e7 + extras_errors(input, prefix@));
            assert(views(errors@) =~= start + flight_errors(input, prefix@));
        }
        let (
            departure_terminal,
            departure_gate,
            arrival_terminal,
            arrival_gate,
            aircraft_type,
            aircraft_registration,
        ) = extras;
        ValidatedFlight {
            airline,
            flight_number,
            origin,
            destination,
            scheduled_departure_at: self.scheduled_departure_at,
            scheduled_arrival_at: self.scheduled_arrival_at,
            actual_departure_at: self.actual_departure_at,
            actual_arrival_at: self.actual_arrival_at,
            status,
            departure_terminal,
            departure_gate,
            arrival_terminal,
            arrival_gate,
            aircraft_type,
            aircraft_registration,
        }
    }
}

// ---------------------------------------------------------------------------
// Where a flight's messages point
// ---------------------------------------------------------------------------

/// `m` begins with `p`.
pub open spec fn begins(m: Seq<char>, p: Seq<char>) -> bool {
    p.len() <= m.len() && forall|k: int| 0 <= k < p.len() ==> #[trigger] m[k] == p[k]
}

/// Every message in `messages` begins with `p`.
pub open spec fn all_begin(messages: Seq<Seq<char>>, p: Seq<char>) -> bool {
    forall|i: int| 0 <= i < messages.len() ==> begins(#[trigger] messages[i], p)
}

proof fn lemma_all_begin_concat(a: Seq<Seq<char>>, b: Seq<Seq<char>>, p: Seq<char>)
    requires
        all_begin(a, p),
        all_begin(b, p),
    ensures
        all_begin(a + b, p),
{
    assert forall|i: int| 0 <= i < (a + b).len() implies begins(#[trigger] (a + b)[i], p) by {
        if i < a.len() {
            assert((a + b)[i] == a[i]);
        } else {
            assert((a + b)[i] == b[i - a.len()]);
        }
    }
}

/// `prefix.name` begins with `prefix.`, and so does anything it starts.
proof fn lemma_field_begins(prefix: Seq<char>, name: Seq<char>)
    requires
        prefix.len() > 0,
    ensures
        begins(field_path(prefix, name), prefix + seq!['.']),
{
    let f = field_path(prefix, name);
    let p = prefix + seq!['.'];
    assert forall|k: int| 0 <= k < p.len() implies #[trigger] f[k] == p[k] by {
        if k < prefix.len() {
            assert(f[k] == prefix[k]);
        }
    }
}

proof fn lemma_begins_extends(m: Seq<char>, rest: Seq<char>, p: Seq<char>)
    requires
        begins(m, p),
    ensures
        begins(m + rest, p),
{
    assert forall|k: int| 0 <= k < p.len() implies #[trigger] (m + rest)[k] == p[k] by {
        assert((m + rest)[k] == m[k]);
    }
}

proof fn lemma_code_errors_begin(value: Seq<char>, field: Seq<char>, len: nat, p: Seq<char>)
    requires
        begins(field, p),
    ensures
        all_begin(code_errors(value, field, len), p),
{
    reveal(code_errors);
    lemma_begins_extends(field, " must be "@ + decimal(len) + " alphanumeric characters"@, p);
    assert(crate::validation::code_message(field, len) =~= field + (" must be "@ + decimal(len)
        + " alphanumeric characters"@));
}

proof fn lemma_opt_code_errors_begin(value: Option<String>, field: Seq<char>, len: nat, p: Seq<char>)
    requires
        begins(field, p),
    ensures
        all_begin(opt_code_errors(value, field, len), p),
{
    match trimmed_opt(value) {
        Some(t) => lemma_code_errors_begin(t, field, len, p),
        None => {},
    }
}

proof fn lemma_text_errors_begin(value: Option<String>, field: Seq<char>, max: nat, p: Seq<char>)
    requires
        begins(field, p),
    ensures
        all_begin(text_errors(value, field, max), p),
{
    reveal(text_errors);
    lemma_begins_extends(field, " must be at most "@ + decimal(max) + " characters"@, p);
    assert(crate::validation::too_long_message(field, max) =~= field + (" must be at most "@
        + decimal(max) + " characters"@));
}

proof fn lemma_one_of_errors_begin(
    value: Option<String>,
    field: Seq<char>,
    allowed: Seq<Seq<char>>,
    default: Seq<char>,
    p: Seq<char>,
)
    requires
        begins(field, p),
    ensures
        all_begin(one_of_errors(value, field, allowed, default), p),
{
    reveal(one_of_errors);
    lemma_begins_extends(field, " must be one of: "@ + crate::text::joined(allowed, ", "@), p);
    assert(crate::validation::one_of_message(field, allowed) =~= field + (" must be one of: "@
        + crate::text::joined(allowed, ", "@)));
}

proof fn lemma_coordinate_errors_begin(
    latitude: Option<u64>,
    longitude: Option<u64>,
    field: Seq<char>,
    p: Seq<char>,
)
    requires
        begins(field, p),
    ensures
        all_begin(coordinate_errors(latitude, longitude, field), p),
{
    reveal(coordinate_errors);
    lemma_begins_extends(field, ".latitude must be between -90 and 90"@, p);
    lemma_begins_extends(field, ".longitude must be between -180 and 180"@, p);
    lemma_begins_extends(field, ".latitude and "@ + field + ".longitude must be given together"@, p);
    assert(field + ".latitude and "@ + field + ".longitude must be given together"@ =~= field + (
    ".latitude and "@ + field + ".longitude must be given together"@));
    match (latitude, longitude) {
        (Some(lat), Some(lon)) => {
            let a: Seq<Seq<char>> = if crate::geo::within(lat, crate::geo::LATITUDE_LIMIT) {
                Seq::empty()
            } else {
                seq![field + ".latitude must be between -90 and 90"@]
            };
            let b: Seq<Seq<char>> = if crate::geo::within(lon, crate::geo::LONGITUDE_LIMIT) {
                Seq::empty()
            } else {
                seq![field + ".longitude must be between -180 and 180"@]
            };
            lemma_all_begin_concat(a, b, p);
        },
        _ => {},
    }
}

proof fn lemma_airport_errors_begin(a: AirportInput, f: Seq<char>, p: Seq<char>)
    requires
        begins(f, p),
    ensures
        all_begin(airport_errors(a, f), p),
{
    reveal(airport_errors);
    lemma_begins_extends(f, ".iata_code"@, p);
    lemma_begins_extends(f, ".icao_code"@, p);
    lemma_begins_extends(f, ".name"@, p);
    lemma_begins_extends(f, ".city"@, p);
    lemma_begins_extends(f, ".country_code"@, p);
    lemma_begins_extends(f, ".timezone"@, p);
    let e1 = code_errors(a.iata_code@, f + ".iata_code"@, 3);
    let e2 = opt_code_errors(a.icao_code, f + ".icao_code"@, 4);
    let e3 = coordinate_errors(a.latitude, a.longitude, f);
    let e4 = text_errors(a.name, f + ".name"@, 150);
    let e5 = text_errors(a.city, f + ".city"@, 100);
    let e6 = opt_code_errors(a.country_code, f + ".country_code"@, 2);
    let e7 = text_errors(a.timezone, f + ".timezone"@, 50);
    lemma_code_errors_begin(a.iata_code@, f + ".iata_code"@, 3, p);
    lemma_opt_code_errors_begin(a.icao_code, f + ".icao_code"@, 4, p);
    lemma_coordinate_errors_begin(a.latitude, a.longitude, f, p);
    lemma_text_errors_begin(a.name, f + ".name"@, 150, p);
    lemma_text_errors_begin(a.city, f + ".city"@, 100, p);
    lemma_opt_code_errors_begin(a.country_code, f + ".country_code"@, 2, p);
    lemma_text_errors_begin(a.timezone, f + ".timezone"@, 50, p);
    lemma_all_begin_concat(e1, e2, p);
    lemma_all_begin_concat(e1 + e2, e3, p);
    lemma_all_begin_concat(e1 + e2 + e3, e4, p);
    lemma_all_begin_concat(e1 + e2 + e3 + e4, e5, p);
    lemma_all_begin_concat(e1 + e2 + e3 + e4 + e5, e6, p);
    lemma_all_begin_concat(e1 + e2 + e3 + e4 + e5 + e6, e7, p);
}

proof fn lemma_nested_field_begins(prefix: Seq<char>, outer: Seq<char>, inner: Seq<char>)
    requires
        prefix.len() > 0,
    ensures
        begins(field_path(field_path(prefix, outer), inner), prefix + seq!['.']),
{
    lemma_field_begins(prefix, outer);
    let o = field_path(prefix, outer);
    assert(o.len() > 0);
    lemma_begins_extends(o, seq!['.'] + inner, prefix + seq!['.']);
    assert(field_path(o, inner) =~= o + (seq!['.'] + inner));
}

/// Every message `FlightInput::validate_into` reports for a flight that sits
/// under a non-empty `prefix` names a field under it: each begins with the
/// prefix and a dot.
pub proof fn law_flight_errors_name_where_the_flight_sits(f: FlightInput, prefix: Seq<char>)
    requires
        prefix.len() > 0,
    ensures
        forall|i: int|
            0 <= i < flight_errors(f, prefix).len() ==> (prefix + seq!['.']).is_prefix_of(
                #[trigger] flight_errors(f, prefix)[i],
            ),
{
    let p = prefix + seq!['.'];
    reveal(parties_errors);
    reveal(airline_errors);
    reveal(flight_number_errors);
    reveal(schedule_errors);
    reveal(same_airport_errors);
    reveal(extras_errors);
    // The airline.
    let ap = field_path(prefix, "airline"@);
    lemma_nested_field_begins(prefix, "airline"@, "iata_code"@);
    lemma_nested_field_begins(prefix, "airline"@, "icao_code"@);
    lemma_nested_field_begins(prefix, "airline"@, "name"@);
    lemma_code_errors_begin(f.airline.iata_code@, field_path(ap, "iata_code"@), 2, p);
    lemma_opt_code_errors_begin(f.airline.icao_code, field_path(ap, "icao_code"@), 3, p);
    lemma_text_errors_begin(f.airline.name, field_path(ap, "name"@), 150, p);
    let l1 = code_errors(f.airline.iata_code@, field_path(ap, "iata_code"@), 2);
    let l2 = opt_code_errors(f.airline.icao_code, field_path(ap, "icao_code"@), 3);
    let l3 = text_errors(f.airline.name, field_path(ap, "name"@), 150);
    lemma_all_begin_concat(l1, l2, p);
    lemma_all_begin_concat(l1 + l2, l3, p);
    // The airports.
    lemma_field_begins(prefix, "origin"@);
    lemma_field_begins(prefix, "destination"@);
    lemma_airport_errors_begin(f.origin, field_path(prefix, "origin"@), p);
    lemma_airport_errors_begin(f.destination, field_path(prefix, "destination"@), p);
    let parties = airline_errors(f.airline, prefix) + airport_errors(
        f.origin,
        field_path(prefix, "origin"@),
    ) + airport_errors(f.destination, field_path(prefix, "destination"@));
    lemma_all_begin_concat(
        airline_errors(f.airline, prefix),
        airport_errors(f.origin, field_path(prefix, "origin"@)),
        p,
    );
    lemma_all_begin_concat(
        airline_errors(f.airline, prefix) + airport_errors(f.origin, field_path(prefix, "origin"@)),
        airport_errors(f.destination, field_path(prefix, "destination"@)),
        p,
    );
    // The flight number.
    let nf = field_path(prefix, "flight_number"@);
    lemma_field_begins(prefix, "flight_number"@);
    lemma_begins_extends(nf, " must not be empty"@, p);
    lemma_begins_extends(nf, " must be at most 10 characters"@, p);
    lemma_begins_extends(nf, " must be alphanumeric"@, p);
    let numbers = flight_number_errors(f.flight_number@, prefix);
    // The status.
    lemma_field_begins(prefix, "status"@);
    lemma_one_of_errors_begin(f.status, field_path(prefix, "status"@), status_names(), "scheduled"@, p);
    let statuses = one_of_errors(f.status, field_path(prefix, "status"@), status_names(), "scheduled"@);
    // The schedule.
    lemma_field_begins(prefix, "scheduled_arrival_at"@);
    lemma_field_begins(prefix, "actual_arrival_at"@);
    lemma_begins_extends(
        field_path(prefix, "scheduled_arrival_at"@),
        " must be after "@ + field_path(prefix, "scheduled_departure_at"@),
        p,
    );
    lemma_begins_extends(
        field_path(prefix, "actual_arrival_at"@),
        " must be after "@ + field_path(prefix, "actual_departure_at"@),
        p,
    );
    assert(field_path(prefix, "scheduled_arrival_at"@) + " must be after "@ + field_path(
        prefix,
        "scheduled_departure_at"@,
    ) =~= field_path(prefix, "scheduled_arrival_at"@) + (" must be after "@ + field_path(
        prefix,
        "scheduled_departure_at"@,
    )));
    assert(field_path(prefix, "actual_arrival_at"@) + " must be after "@ + field_path(
        prefix,
        "actual_departure_at"@,
    ) =~= field_path(prefix, "actual_arrival_at"@) + (" must be after "@ + field_path(
        prefix,
        "actual_departure_at"@,
    )));
    let s1 = order_errors(
        f.scheduled_departure_at,
        f.scheduled_arrival_at,
        field_path(prefix, "scheduled_arrival_at"@),
        field_path(prefix, "scheduled_departure_at"@),
    );
    let s2 = actual_order_errors(f.actual_departure_at, f.actual_arrival_at, prefix);
    lemma_all_begin_concat(s1, s2, p);
    let schedule = schedule_errors(f, prefix);
    // The same airport twice.
    lemma_field_begins(prefix, "origin"@);
    let so = field_path(prefix, "origin"@);
    let sm = " and "@ + field_path(prefix, "destination"@) + " must be different airports"@;
    lemma_begins_extends(so, sm, p);
    assert(so + " and "@ + field_path(prefix, "destination"@) + " must be different airports"@
        =~= so + sm);
    let same = same_airport_errors(f, prefix);
    // The extras.
    lemma_field_begins(prefix, "departure_terminal"@);
    lemma_field_begins(prefix, "departure_gate"@);
    lemma_field_begins(prefix, "arrival_terminal"@);
    lemma_field_begins(prefix, "arrival_gate"@);
    lemma_field_begins(prefix, "aircraft_type"@);
    lemma_field_begins(prefix, "aircraft_registration"@);
    let x1 = text_errors(f.departure_terminal, field_path(prefix, "departure_terminal"@), 10);
    let x2 = text_errors(f.departure_gate, field_path(prefix, "departure_gate"@), 10);
    let x3 = text_errors(f.arrival_terminal, field_path(prefix, "arrival_terminal"@), 10);
    let x4 = text_errors(f.arrival_gate, field_path(prefix, "arrival_gate"@), 10);
    let x5 = text_errors(f.aircraft_type, field_path(prefix, "aircraft_type"@), 50);
    let x6 = text_errors(
        f.aircraft_registration,
        field_path(prefix, "aircraft_registration"@),
        20,
    );
    lemma_text_errors_begin(f.departure_terminal, field_path(prefix, "departure_terminal"@), 10, p);
    lemma_text_errors_begin(f.departure_gate, field_path(prefix, "departure_gate"@), 10, p);
    lemma_text_errors_begin(f.arrival_terminal, field_path(prefix, "arrival_terminal"@), 10, p);
    lemma_text_errors_begin(f.arrival_gate, field_path(prefix, "arrival_gate"@), 10, p);
    lemma_text_errors_begin(f.aircraft_type, field_path(prefix, "aircraft_type"@), 50, p);
    lemma_text_errors_begin(
        f.aircraft_registration,
        field_path(prefix, "aircraft_registration"@),
        20,
        p,
    );
    lemma_all_begin_concat(x1, x2, p);
    lemma_all_begin_concat(x1 + x2, x3, p);
    lemma_all_begin_concat(x1 + x2 + x3, x4, p);
    lemma_all_begin_concat(x1 + x2 + x3 + x4, x5, p);
    lemma_all_begin_concat(x1 + x2 + x3 + x4 + x5, x6, p);
    let extras = extras_errors(f, prefix);
    // All of it, in order.
    lemma_all_begin_concat(parties, numbers, p);
    lemma_all_begin_concat(parties + numbers, statuses, p);
    lemma_all_begin_concat(parties + numbers + statuses, schedule, p);
    lemma_all_begin_concat(parties + numbers + statuses + schedule, same, p);
    lemma_all_begin_concat(parties + numbers + statuses + schedule + same, extras, p);
    let all = flight_errors(f, prefix);
    assert forall|i: int| 0 <= i < all.len() implies p.is_prefix_of(#[trigger] all[i]) by {
        assert(begins(all[i], p));
        assert(all[i].subrange(0, p.len() as int) =~= p);
    }
}

} // verus!
