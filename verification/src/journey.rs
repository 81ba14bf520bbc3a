//! Journeys: a user's trip and its ordered segments.
//!
//! Request types, the validated forms they become, and the validation between
//! the two.

use vstd::prelude::*;
use vstd::string::*;

use crate::error::ApiError;
use crate::flight::{
    airport_errors, airport_kept, flight_errors, flight_kept, AirportInput, FlightInput,
    ValidatedAirport, ValidatedFlight,
};
use crate::geo::{check_coordinates, coordinate_errors};
use crate::text::{
    all_letters, concat, concat3, decimal, decimal_string, is_all_ascii_letters, lower, same_text,
    str_views, to_lower, to_upper, trim, trimmed, upper, views,
};
use crate::time::{earlier, minutes_between, whole_minutes, Timestamp};
use crate::validation::{
    allowed_message, chosen_value, field, field_path, object_errors, object_or_default,
    object_value, one_of, one_of_errors, one_of_message, opt_view, optional_text, report,
    text_errors, trimmed_nonblank, trimmed_opt,
};

verus! {

/// The modes allowed by the segment mode check.
pub const SEGMENT_MODES: [&'static str; 8] = [
    "flight",
    "drive",
    "train",
    "bus",
    "ferry",
    "walk",
    "bike",
    "other",
];

pub const JOURNEY_STATUSES: [&'static str; 4] = ["planned", "active", "completed", "cancelled"];

pub const VISIBILITIES: [&'static str; 3] = ["private", "friends", "public"];

pub const CABINS: [&'static str; 4] = ["economy", "premium_economy", "business", "first"];

pub const DRIVE_ROLES: [&'static str; 2] = ["driver", "passenger"];

pub const PLACE_KINDS: [&'static str; 7] = [
    "airport",
    "station",
    "port",
    "address",
    "city",
    "landmark",
    "other",
];

pub const DEFAULT_JOURNEY_STATUS: &'static str = "planned";

pub const DEFAULT_VISIBILITY: &'static str = "private";

pub const DEFAULT_PLACE_KIND: &'static str = "address";

// Column widths of the journey and place tables.
pub const MAX_IDEMPOTENCY_KEY_LEN: usize = 64;

pub const MAX_TITLE_LEN: usize = 200;

pub const MAX_PLACE_NAME_LEN: usize = 200;

pub const MAX_CITY_LEN: usize = 100;

pub const MAX_TIMEZONE_LEN: usize = 50;

pub const MAX_SEAT_LEN: usize = 10;

pub const MAX_BOOKING_REF_LEN: usize = 20;

pub const MAX_VEHICLE_NAME_LEN: usize = 100;

pub const MAX_VEHICLE_PART_LEN: usize = 50;

pub const MAX_LICENSE_PLATE_LEN: usize = 20;

/// Guards against a single request trying to write an unbounded number of rows.
pub const MAX_SEGMENTS: usize = 100;

/// Body of `POST /api/v1/journeys`.
#[derive(Debug)]
pub struct CreateJourneyRequest {
    /// The user's UUID, as its 128-bit value.
    pub user_id: u128,
    /// Opt-in idempotency. Replaying a request with a key this user has already
    /// used returns the stored journey instead of creating a second one.
    pub idempotency_key: Option<String>,
    pub title: String,
    pub description: Option<String>,
    pub started_at: Option<Timestamp>,
    pub ended_at: Option<Timestamp>,
    pub status: Option<String>,
    pub visibility: Option<String>,
    /// A JSON document, as its text.
    pub metadata: Option<String>,
    /// Ordered. `position` is the index in this array, so the caller never has
    /// to keep two orderings in step.
    pub segments: Vec<SegmentInput>,
}

/// The body of `POST /api/v1/journeys`, by the name its service uses.
pub type InsertJourneyRequest = CreateJourneyRequest;

/// One leg of the journey.
#[derive(Debug)]
pub struct SegmentInput {
    pub mode: String,
    /// Omitted for `flight` segments — a flight already knows its airports.
    pub origin: Option<PlaceInput>,
    pub destination: Option<PlaceInput>,
    pub started_at: Option<Timestamp>,
    pub ended_at: Option<Timestamp>,
    pub duration_minutes: Option<i32>,
    /// Road distance for a drive, which is not the great-circle distance, so it
    /// is taken from the caller. Derived for `flight` segments.
    pub distance_miles: Option<i32>,
    pub notes: Option<String>,
    /// A JSON document, as its text.
    pub metadata: Option<String>,
    /// Required for `mode: "flight"`, rejected otherwise.
    pub flight: Option<FlightInput>,
    /// The traveller's own booking on that flight.
    pub booking: Option<BookingInput>,
    /// Optional for `mode: "drive"`, rejected otherwise.
    pub drive: Option<DriveInput>,
}

/// Where a segment starts or ends. Three forms: a place already stored, an
/// airport (resolved or created, then read back through its mirrored place), or
/// a new place described inline.
#[derive(Debug)]
pub enum PlaceInput {
    Saved { id: i64 },
    Airport(AirportInput),
    Custom(CustomPlaceInput),
}

#[derive(Debug)]
pub struct CustomPlaceInput {
    pub name: String,
    pub kind: Option<String>,
    pub address: Option<String>,
    pub city: Option<String>,
    pub country_code: Option<String>,
    /// Degrees, as the bit pattern of a double.
    pub latitude: Option<u64>,
    /// Degrees, as the bit pattern of a double.
    pub longitude: Option<u64>,
    pub timezone: Option<String>,
}

/// What is personal about a flight, as opposed to the flight itself.
#[derive(Debug)]
pub struct BookingInput {
    pub seat: Option<String>,
    pub cabin: Option<String>,
    pub booking_reference: Option<String>,
    pub ticket_number: Option<String>,
}

#[derive(Debug)]
pub struct DriveInput {
    pub vehicle: Option<VehicleInput>,
    pub role: Option<String>,
    pub route_polyline: Option<String>,
}

#[derive(Debug)]
pub enum VehicleInput {
    Saved { id: i64 },
    New(NewVehicleInput),
}

#[derive(Debug)]
pub struct NewVehicleInput {
    pub nickname: Option<String>,
    pub make: Option<String>,
    pub model: Option<String>,
    pub year: Option<i32>,
    pub license_plate: Option<String>,
}

// ---------------------------------------------------------------------------
// Validated types
// ---------------------------------------------------------------------------

#[derive(Debug)]
pub struct ValidatedJourney {
    pub user_id: u128,
    pub idempotency_key: Option<String>,
    pub title: String,
    pub description: Option<String>,
    pub started_at: Option<Timestamp>,
    pub ended_at: Option<Timestamp>,
    pub status: String,
    pub visibility: String,
    /// A JSON object, as its text.
    pub metadata: String,
    pub segments: Vec<ValidatedSegment>,
}

#[derive(Debug)]
pub struct ValidatedSegment {
    pub position: i32,
    pub mode: String,
    pub origin: Option<ValidatedPlace>,
    pub destination: Option<ValidatedPlace>,
    pub started_at: Option<Timestamp>,
    pub ended_at: Option<Timestamp>,
    pub duration_minutes: Option<i32>,
    pub distance_miles: Option<i32>,
    pub notes: Option<String>,
    /// A JSON object, as its text.
    pub metadata: String,
    pub detail: SegmentDetail,
}

#[derive(Debug)]
pub enum SegmentDetail {
    Flight { flight: Box<ValidatedFlight>, booking: ValidatedBooking },
    Drive(ValidatedDrive),
    /// Modes with nothing extra to say — the parent row is the whole segment.
    Bare,
}

#[derive(Debug)]
pub enum ValidatedPlace {
    Saved(i64),
    Airport(Box<ValidatedAirport>),
    Custom(Box<ValidatedCustomPlace>),
}

#[derive(Debug)]
pub struct ValidatedCustomPlace {
    pub name: String,
    pub kind: String,
    pub address: Option<String>,
    pub city: Option<String>,
    pub country_code: Option<String>,
    pub latitude: Option<u64>,
    pub longitude: Option<u64>,
    pub timezone: Option<String>,
}

#[derive(Debug)]
pub struct ValidatedBooking {
    pub seat: Option<String>,
    pub cabin: Option<String>,
    pub booking_reference: Option<String>,
    pub ticket_number: Option<String>,
}

impl Default for ValidatedBooking {
    fn default() -> (r: Self)
        ensures
            r.seat is None,
            r.cabin is None,
            r.booking_reference is None,
            r.ticket_number is None,
    {
        ValidatedBooking { seat: None, cabin: None, booking_reference: None, ticket_number: None }
    }
}

#[derive(Debug)]
pub struct ValidatedDrive {
    pub vehicle: Option<ValidatedVehicle>,
    pub role: Option<String>,
    pub route_polyline: Option<String>,
}

#[derive(Debug)]
pub enum ValidatedVehicle {
    Saved(i64),
    New(Box<ValidatedNewVehicle>),
}

#[derive(Debug)]
pub struct ValidatedNewVehicle {
    pub nickname: Option<String>,
    pub make: Option<String>,
    pub model: Option<String>,
    pub year: Option<i16>,
    pub license_plate: Option<String>,
}

// ---------------------------------------------------------------------------
// Spec: places, bookings, drives, vehicles
// ---------------------------------------------------------------------------

pub open spec fn place_kind_names() -> Seq<Seq<char>> {
    seq!["airport"@, "station"@, "port"@, "address"@, "city"@, "landmark"@, "other"@]
}

pub open spec fn cabin_names() -> Seq<Seq<char>> {
    seq!["economy"@, "premium_economy"@, "business"@, "first"@]
}

pub open spec fn drive_role_names() -> Seq<Seq<char>> {
    seq!["driver"@, "passenger"@]
}

pub open spec fn mode_names() -> Seq<Seq<char>> {
    seq!["flight"@, "drive"@, "train"@, "bus"@, "ferry"@, "walk"@, "bike"@, "other"@]
}

pub open spec fn journey_status_names() -> Seq<Seq<char>> {
    seq!["planned"@, "active"@, "completed"@, "cancelled"@]
}

pub open spec fn visibility_names() -> Seq<Seq<char>> {
    seq!["private"@, "friends"@, "public"@]
}

/// An optional enum-ish value: trimmed, dropped when blank, lower-cased.
pub open spec fn opt_lower(value: Option<String>) -> Option<Seq<char>> {
    match trimmed_opt(value) {
        Some(t) => Some(lower(t)),
        None => None,
    }
}

/// Reported when an optional enum-ish value is present but not allowed.
pub open spec fn opt_choice_errors(value: Option<String>, p: Seq<char>, allowed: Seq<Seq<char>>) -> Seq<
    Seq<char>,
> {
    match opt_lower(value) {
        Some(v) => if allowed.contains(v) {
            Seq::empty()
        } else {
            seq![one_of_message(p, allowed)]
        },
        None => Seq::empty(),
    }
}

pub open spec fn place_name_errors(name: Seq<char>, prefix: Seq<char>) -> Seq<Seq<char>> {
    if trim(name).len() == 0 {
        seq![prefix + ".name must not be empty"@]
    } else if trim(name).len() > 200 {
        seq![prefix + ".name must be at most 200 characters"@]
    } else {
        Seq::empty()
    }
}

pub open spec fn airport_kind_message(prefix: Seq<char>) -> Seq<char> {
    prefix + ".kind cannot be \"airport\"; use {\"type\": \"airport\"} instead"@
}

/// A country code given with a custom place: upper-cased, two letters.
pub open spec fn opt_upper(value: Option<String>) -> Option<Seq<char>> {
    match trimmed_opt(value) {
        Some(t) => Some(upper(t)),
        None => None,
    }
}

pub open spec fn country_errors(value: Option<String>, prefix: Seq<char>) -> Seq<Seq<char>> {
    match opt_upper(value) {
        Some(c) => if c.len() == 2 && all_letters(c) {
            Seq::empty()
        } else {
            seq![prefix + ".country_code must be 2 letters"@]
        },
        None => Seq::empty(),
    }
}

/// Everything `CustomPlaceInput::validate` reports, in order.
#[verifier::opaque]
pub open spec fn custom_place_errors(p: CustomPlaceInput, prefix: Seq<char>) -> Seq<Seq<char>> {
    let kind = chosen_value(p.kind, "address"@);
    place_name_errors(p.name@, prefix) + one_of_errors(
        p.kind,
        field_path(prefix, "kind"@),
        place_kind_names(),
        "address"@,
    ) + (if kind == "airport"@ {
        seq![airport_kind_message(prefix)]
    } else {
        Seq::empty()
    }) + coordinate_errors(p.latitude, p.longitude, prefix) + text_errors(
        p.city,
        field_path(prefix, "city"@),
        100,
    ) + country_errors(p.country_code, prefix) + text_errors(
        p.timezone,
        field_path(prefix, "timezone"@),
        50,
    )
}

/// What `CustomPlaceInput::validate` keeps.
#[verifier::opaque]
pub open spec fn custom_place_kept(r: ValidatedCustomPlace, p: CustomPlaceInput) -> bool {
    &&& r.name@ == trim(p.name@)
    &&& r.kind@ == chosen_value(p.kind, "address"@)
    &&& opt_view(r.address) == trimmed_opt(p.address)
    &&& opt_view(r.city) == trimmed_opt(p.city)
    &&& opt_view(r.country_code) == opt_upper(p.country_code)
    &&& r.latitude == p.latitude
    &&& r.longitude == p.longitude
    &&& opt_view(r.timezone) == trimmed_opt(p.timezone)
}

/// Everything `PlaceInput::validate` reports.
#[verifier::opaque]
pub open spec fn place_errors(p: PlaceInput, prefix: Seq<char>) -> Seq<Seq<char>> {
    match p {
        PlaceInput::Saved { id } => if id <= 0 {
            seq![prefix + ".id must be a positive place id"@]
        } else {
            Seq::empty()
        },
        PlaceInput::Airport(a) => airport_errors(a, prefix),
        PlaceInput::Custom(c) => custom_place_errors(c, prefix),
    }
}

/// What `PlaceInput::validate` keeps.
#[verifier::opaque]
pub open spec fn place_kept(r: ValidatedPlace, p: PlaceInput) -> bool {
    match (r, p) {
        (ValidatedPlace::Saved(a), PlaceInput::Saved { id }) => a == id,
        (ValidatedPlace::Airport(a), PlaceInput::Airport(b)) => airport_kept(*a, b),
        (ValidatedPlace::Custom(a), PlaceInput::Custom(b)) => custom_place_kept(*a, b),
        _ => false,
    }
}

/// Everything `BookingInput::validate` reports.
#[verifier::opaque]
pub open spec fn booking_errors(b: BookingInput, prefix: Seq<char>) -> Seq<Seq<char>> {
    let p = field_path(prefix, "booking"@);
    text_errors(b.seat, field_path(p, "seat"@), 10) + opt_choice_errors(
        b.cabin,
        p + ".cabin"@,
        cabin_names(),
    ) + text_errors(b.booking_reference, field_path(p, "booking_reference"@), 20) + text_errors(
        b.ticket_number,
        field_path(p, "ticket_number"@),
        20,
    )
}

#[verifier::opaque]
pub open spec fn booking_kept(r: ValidatedBooking, b: BookingInput) -> bool {
    &&& opt_view(r.seat) == trimmed_opt(b.seat)
    &&& opt_view(r.cabin) == opt_lower(b.cabin)
    &&& opt_view(r.booking_reference) == trimmed_opt(b.booking_reference)
    &&& opt_view(r.ticket_number) == trimmed_opt(b.ticket_number)
}

pub open spec fn year_in_range(year: i32) -> bool {
    1885 <= year <= 2100
}

/// Everything `VehicleInput::validate` reports.
#[verifier::opaque]
pub open spec fn vehicle_errors(v: VehicleInput, prefix: Seq<char>) -> Seq<Seq<char>> {
    match v {
        VehicleInput::Saved { id } => if id <= 0 {
            seq![prefix + ".id must be a positive vehicle id"@]
        } else {
            Seq::empty()
        },
        VehicleInput::New(n) => text_errors(n.nickname, field_path(prefix, "nickname"@), 100)
            + text_errors(n.make, field_path(prefix, "make"@), 50) + text_errors(
            n.model,
            field_path(prefix, "model"@),
            50,
        ) + (if trimmed_opt(n.nickname) is None && trimmed_opt(n.make) is None && trimmed_opt(
            n.model,
        ) is None {
            seq![prefix + " needs at least one of nickname, make, or model"@]
        } else {
            Seq::empty()
        }) + (match n.year {
            Some(y) => if year_in_range(y) {
                Seq::empty()
            } else {
                seq![prefix + ".year must be between 1885 and 2100"@]
            },
            None => Seq::empty(),
        }) + text_errors(n.license_plate, field_path(prefix, "license_plate"@), 20),
    }
}

/// What `VehicleInput::validate` keeps.
#[verifier::opaque]
pub open spec fn vehicle_kept(r: ValidatedVehicle, v: VehicleInput) -> bool {
    match (r, v) {
        (ValidatedVehicle::Saved(a), VehicleInput::Saved { id }) => a == id,
        (ValidatedVehicle::New(a), VehicleInput::New(n)) => {
            &&& opt_view(a.nickname) == trimmed_opt(n.nickname)
            &&& opt_view(a.make) == trimmed_opt(n.make)
            &&& opt_view(a.model) == trimmed_opt(n.model)
            &&& a.year == (match n.year {
                Some(y) => if year_in_range(y) {
                    Some(y as i16)
                } else {
                    None
                },
                None => None,
            })
            &&& opt_view(a.license_plate) == trimmed_opt(n.license_plate)
        },
        _ => false,
    }
}

/// A route is kept as sent, unless it is blank.
pub open spec fn kept_route(route: Option<String>) -> Option<Seq<char>> {
    match route {
        Some(r) => if trim(r@).len() == 0 {
            None
        } else {
            Some(r@)
        },
        None => None,
    }
}

/// Everything `DriveInput::validate` reports.
#[verifier::opaque]
pub open spec fn drive_errors(d: DriveInput, prefix: Seq<char>) -> Seq<Seq<char>> {
    let p = field_path(prefix, "drive"@);
    (match d.vehicle {
        Some(v) => vehicle_errors(v, field_path(p, "vehicle"@)),
        None => Seq::empty(),
    }) + opt_choice_errors(d.role, p + ".role"@, drive_role_names())
}

#[verifier::opaque]
pub open spec fn drive_kept(r: ValidatedDrive, d: DriveInput) -> bool {
    &&& match (r.vehicle, d.vehicle) {
        (Some(a), Some(b)) => vehicle_kept(a, b),
        (None, None) => true,
        _ => false,
    }
    &&& opt_view(r.role) == opt_lower(d.role)
    &&& opt_view(r.route_polyline) == kept_route(d.route_polyline)
}

// ---------------------------------------------------------------------------
// Validation: places, bookings, drives, vehicles
// ---------------------------------------------------------------------------

/// An optional enum-ish value: trimmed, dropped when blank, lower-cased, and
/// reported under `p` when it is not one of `allowed`.
fn optional_choice(value: Option<String>, p: &str, allowed: &[&str], errors: &mut Vec<String>) -> (r:
    Option<String>)
    ensures
        opt_view(r) == opt_lower(value),
        views(final(errors)@) == views(old(errors)@) + opt_choice_errors(
            value,
            p@,
            str_views(allowed@),
        ),
{
    match trimmed_nonblank(value) {
        Some(t) => {
            let v = to_lower(t.as_str());
            if !crate::text::is_one_of(allowed, v.as_str()) {
                report(errors, allowed_message(p, allowed));
                proof {
                    assert(views(final(errors)@) =~= views(old(errors)@) + opt_choice_errors(
                        value,
                        p@,
                        str_views(allowed@),
                    ));
                }
            } else {
                proof {
                    assert(views(errors@) =~= views(old(errors)@) + opt_choice_errors(
                        value,
                        p@,
                        str_views(allowed@),
                    ));
                }
            }
            Some(v)
        },
        None => {
            proof {
                assert(views(errors@) =~= views(old(errors)@) + opt_choice_errors(
                    value,
                    p@,
                    str_views(allowed@),
                ));
            }
            None
        },
    }
}

fn check_place_name(name: &String, prefix: &str, errors: &mut Vec<String>) -> (r: String)
    ensures
        r@ == trim(name@),
        views(final(errors)@) == views(old(errors)@) + place_name_errors(name@, prefix@),
{
    let t = trimmed(name.as_str());
    if t.unicode_len() == 0 {
        report(errors, concat(prefix, ".name must not be empty"));
    } else if t.unicode_len() > MAX_PLACE_NAME_LEN {
        report(errors, concat(prefix, ".name must be at most 200 characters"));
    }
    proof {
        assert(views(final(errors)@) =~= views(old(errors)@) + place_name_errors(name@, prefix@));
    }
    t
}

fn check_country(value: Option<String>, prefix: &str, errors: &mut Vec<String>) -> (r: Option<
    String,
>)
    ensures
        opt_view(r) == opt_upper(value),
        views(final(errors)@) == views(old(errors)@) + country_errors(value, prefix@),
{
    match trimmed_nonblank(value) {
        Some(t) => {
            let code = to_upper(t.as_str());
            if code.unicode_len() != 2 || !is_all_ascii_letters(code.as_str()) {
                report(errors, concat(prefix, ".country_code must be 2 letters"));
            }
            proof {
                assert(views(final(errors)@) =~= views(old(errors)@) + country_errors(
                    value,
                    prefix@,
                ));
            }
            Some(code)
        },
        None => {
            proof {
                assert(views(errors@) =~= views(old(errors)@) + country_errors(value, prefix@));
            }
            None
        },
    }
}

impl CustomPlaceInput {
    /// Check and normalise a place described inline under `prefix`.
    pub fn validate(self, prefix: &str, errors: &mut Vec<String>) -> (r: ValidatedCustomPlace)
        ensures
            custom_place_kept(r, self),
            views(final(errors)@) == views(old(errors)@) + custom_place_errors(self, prefix@),
    {
        let ghost start = views(errors@);
        let ghost input = self;
        let name = check_place_name(&self.name, prefix, errors);
        let kind_field = field(prefix, "kind");
        let kind = one_of(self.kind, kind_field.as_str(), PLACE_KINDS.as_slice(), DEFAULT_PLACE_KIND, errors);
        let ghost e2 = views(errors@);
        // The airport kind is reserved for the rows the airport trigger owns.
        if same_text(kind.as_str(), "airport") {
            report(
                errors,
                concat(prefix, ".kind cannot be \"airport\"; use {\"type\": \"airport\"} instead"),
            );
        }
        let ghost e3 = views(errors@);
        check_coordinates(self.latitude, self.longitude, prefix, errors);
        let address = trimmed_nonblank(self.address);
        let city_field = field(prefix, "city");
        let city = optional_text(self.city, city_field.as_str(), MAX_CITY_LEN, errors);
        let country_code = check_country(self.country_code, prefix, errors);
        let timezone_field = field(prefix, "timezone");
        let timezone = optional_text(
            self.timezone,
            timezone_field.as_str(),
            MAX_TIMEZONE_LEN,
            errors,
        );
        proof {
            reveal(custom_place_errors);
            reveal(custom_place_kept);
            assert(str_views(PLACE_KINDS@) =~= place_kind_names());
            let kind_v = chosen_value(input.kind, "address"@);
            assert(e3 =~= e2 + (if kind_v == "airport"@ {
                seq![airport_kind_message(prefix@)]
            } else {
                Seq::<Seq<char>>::empty()
            }));
            assert(views(errors@) =~= start + custom_place_errors(input, prefix@));
        }
        ValidatedCustomPlace {
            name,
            kind,
            address,
            city,
            country_code,
            latitude: self.latitude,
            longitude: self.longitude,
            timezone,
        }
    }
}

impl PlaceInput {
    /// Check and normalise a segment endpoint described under `prefix`.
    pub fn validate(self, prefix: &str, errors: &mut Vec<String>) -> (r: ValidatedPlace)
        ensures
            place_kept(r, self),
            views(final(errors)@) == views(old(errors)@) + place_errors(self, prefix@),
    {
        proof {
            reveal(place_errors);
            reveal(place_kept);
        }
        match self {
            PlaceInput::Saved { id } => {
                if id <= 0 {
                    report(errors, concat(prefix, ".id must be a positive place id"));
                }
                proof {
                    assert(views(final(errors)@) =~= views(old(errors)@) + place_errors(
                        self,
                        prefix@,
                    ));
                }
                ValidatedPlace::Saved(id)
            },
            PlaceInput::Airport(airport) => {
                // Reuses the airport rules from the flight path, so an airport
                // is described the same way wherever it appears.
                let mut collected: Vec<String> = Vec::new();
                let validated = airport.validate(prefix, &mut collected);
                let ghost before = views(errors@);
                let ghost found = views(collected@);
                errors.append(&mut collected);
                proof {
                    assert(views(errors@) =~= before + found);
                }
                ValidatedPlace::Airport(Box::new(validated))
            },
            PlaceInput::Custom(place) => {
                ValidatedPlace::Custom(Box::new(place.validate(prefix, errors)))
            },
        }
    }
}

impl BookingInput {
    /// Check and normalise a booking, whose fields are named under
    /// `prefix.booking`.
    pub fn validate(self, prefix: &str, errors: &mut Vec<String>) -> (r: ValidatedBooking)
        ensures
            booking_kept(r, self),
            views(final(errors)@) == views(old(errors)@) + booking_errors(self, prefix@),
    {
        let ghost start = views(errors@);
        let p = field(prefix, "booking");
        let f = field(p.as_str(), "seat");
        let seat = optional_text(self.seat, f.as_str(), MAX_SEAT_LEN, errors);
        let cabin_field = concat(p.as_str(), ".cabin");
        let cabin = optional_choice(self.cabin, cabin_field.as_str(), CABINS.as_slice(), errors);
        let f = field(p.as_str(), "booking_reference");
        let booking_reference = optional_text(
            self.booking_reference,
            f.as_str(),
            MAX_BOOKING_REF_LEN,
            errors,
        );
        let f = field(p.as_str(), "ticket_number");
        let ticket_number = optional_text(self.ticket_number, f.as_str(), MAX_BOOKING_REF_LEN, errors);
        proof {
            reveal(booking_errors);
            reveal(booking_kept);
            assert(str_views(CABINS@) =~= cabin_names());
            assert(views(errors@) =~= start + booking_errors(self, prefix@));
        }
        ValidatedBooking { seat, cabin, booking_reference, ticket_number }
    }
}

impl VehicleInput {
    /// Check and normalise a vehicle described under `prefix`.
    pub fn validate(self, prefix: &str, errors: &mut Vec<String>) -> (r: ValidatedVehicle)
        ensures
            vehicle_kept(r, self),
            views(final(errors)@) == views(old(errors)@) + vehicle_errors(self, prefix@),
    {
        proof {
            reveal(vehicle_errors);
            reveal(vehicle_kept);
        }
        match self {
            VehicleInput::Saved { id } => {
                if id <= 0 {
                    report(errors, concat(prefix, ".id must be a positive vehicle id"));
                }
                proof {
                    assert(views(final(errors)@) =~= views(old(errors)@) + vehicle_errors(
                        self,
                        prefix@,
                    ));
                }
                ValidatedVehicle::Saved(id)
            },
            VehicleInput::New(vehicle) => {
                let ghost start = views(errors@);
                let ghost input = vehicle;
                let f = field(prefix, "nickname");
                let nickname = optional_text(vehicle.nickname, f.as_str(), MAX_VEHICLE_NAME_LEN, errors);
                let f = field(prefix, "make");
                let make = optional_text(vehicle.make, f.as_str(), MAX_VEHICLE_PART_LEN, errors);
                let f = field(prefix, "model");
                let model = optional_text(vehicle.model, f.as_str(), MAX_VEHICLE_PART_LEN, errors);
                let ghost e3 = views(errors@);
                // Mirrors the check that a vehicle be identifiable.
                if nickname.is_none() && make.is_none() && model.is_none() {
                    report(errors, concat(prefix, " needs at least one of nickname, make, or model"));
                }
                let ghost e4 = views(errors@);
                let year: Option<i16> = match vehicle.year {
                    Some(y) => {
                        if !(1885 <= y && y <= 2100) {
                            report(errors, concat(prefix, ".year must be between 1885 and 2100"));
                            None
                        } else {
                            Some(y as i16)
                        }
                    },
                    None => None,
                };
                let ghost e5 = views(errors@);
                let f = field(prefix, "license_plate");
                let license_plate = optional_text(
                    vehicle.license_plate,
                    f.as_str(),
                    MAX_LICENSE_PLATE_LEN,
                    errors,
                );
                proof {
                    assert(e4 =~= e3 + (if trimmed_opt(input.nickname) is None && trimmed_opt(
                        input.make,
                    ) is None && trimmed_opt(input.model) is None {
                        seq![prefix@ + " needs at least one of nickname, make, or model"@]
                    } else {
                        Seq::<Seq<char>>::empty()
                    }));
                    assert(e5 =~= e4 + (match input.year {
                        Some(y) => if year_in_range(y) {
                            Seq::<Seq<char>>::empty()
                        } else {
                            seq![prefix@ + ".year must be between 1885 and 2100"@]
                        },
                        None => Seq::<Seq<char>>::empty(),
                    }));
                    assert(views(errors@) =~= start + vehicle_errors(self, prefix@));
                }
                ValidatedVehicle::New(
                    Box::new(ValidatedNewVehicle { nickname, make, model, year, license_plate }),
                )
            },
        }
    }
}

impl DriveInput {
    /// Check and normalise a drive, whose fields are named under
    /// `prefix.drive`.
    pub fn validate(self, prefix: &str, errors: &mut Vec<String>) -> (r: ValidatedDrive)
        ensures
            drive_kept(r, self),
            views(final(errors)@) == views(old(errors)@) + drive_errors(self, prefix@),
    {
        let ghost start = views(errors@);
        let p = field(prefix, "drive");
        let vehicle = match self.vehicle {
            Some(v) => {
                let f = field(p.as_str(), "vehicle");
                Some(v.validate(f.as_str(), errors))
            },
            None => None,
        };
        let ghost e1 = views(errors@);
        let role_field = concat(p.as_str(), ".role");
        let role = optional_choice(self.role, role_field.as_str(), DRIVE_ROLES.as_slice(), errors);
        let route_polyline = match self.route_polyline {
            Some(route) => {
                let t = trimmed(route.as_str());
                if t.unicode_len() == 0 {
                    None
                } else {
                    Some(route)
                }
            },
            None => None,
        };
        proof {
            reveal(drive_errors);
            reveal(drive_kept);
            assert(str_views(DRIVE_ROLES@) =~= drive_role_names());
            assert(views(errors@) =~= start + drive_errors(self, prefix@));
        }
        ValidatedDrive { vehicle, role, route_polyline }
    }
}


// ---------------------------------------------------------------------------
// Spec: segments and journeys
// ---------------------------------------------------------------------------

/// `segments[index]`, the name every error of one segment starts with.
pub open spec fn segment_prefix(index: nat) -> Seq<char> {
    "segments["@ + decimal(index) + "]"@
}

/// The segment's mode, trimmed and lower-cased.
pub open spec fn mode_value(s: SegmentInput) -> Seq<char> {
    lower(trim(s.mode@))
}

pub open spec fn is_flight_mode(s: SegmentInput) -> bool {
    mode_value(s) == "flight"@
}

pub open spec fn is_drive_mode(s: SegmentInput) -> bool {
    mode_value(s) == "drive"@
}

/// What the mode check reports: an unknown mode, and detail objects that do
/// not match it. Each mode admits exactly one detail object.
#[verifier::opaque]
pub open spec fn mode_errors(s: SegmentInput, prefix: Seq<char>) -> Seq<Seq<char>> {
    let flight = is_flight_mode(s);
    let drive = is_drive_mode(s);
    (if mode_names().contains(mode_value(s)) {
        Seq::empty()
    } else {
        seq![one_of_message(prefix + ".mode"@, mode_names())]
    }) + (if !flight && s.flight is Some {
        seq![prefix + ".flight is only valid when mode is \"flight\""@]
    } else {
        Seq::empty()
    }) + (if !flight && s.booking is Some {
        seq![prefix + ".booking is only valid when mode is \"flight\""@]
    } else {
        Seq::empty()
    }) + (if !drive && s.drive is Some {
        seq![prefix + ".drive is only valid when mode is \"drive\""@]
    } else {
        Seq::empty()
    }) + (if flight && s.flight is None {
        seq![prefix + ".flight is required when mode is \"flight\""@]
    } else {
        Seq::empty()
    }) + (if flight && (s.origin is Some || s.destination is Some) {
        seq![
            prefix + ".origin and "@ + prefix
                + ".destination are derived from the flight; omit them"@,
        ]
    } else {
        Seq::empty()
    })
}

/// What the endpoints report.
#[verifier::opaque]
pub open spec fn endpoint_errors(s: SegmentInput, prefix: Seq<char>) -> Seq<Seq<char>> {
    (match s.origin {
        Some(o) => place_errors(o, field_path(prefix, "origin"@)),
        None => Seq::empty(),
    }) + (match s.destination {
        Some(d) => place_errors(d, field_path(prefix, "destination"@)),
        None => Seq::empty(),
    })
}

/// What the times and measures report.
pub open spec fn timing_errors(s: SegmentInput, prefix: Seq<char>) -> Seq<Seq<char>> {
    timing_errors_of(s.started_at, s.ended_at, s.duration_minutes, s.distance_miles, prefix)
}

/// What a segment's times and measures report.
#[verifier::opaque]
pub open spec fn timing_errors_of(
    started_at: Option<Timestamp>,
    ended_at: Option<Timestamp>,
    duration_minutes: Option<i32>,
    distance_miles: Option<i32>,
    prefix: Seq<char>,
) -> Seq<Seq<char>> {
    (match (started_at, ended_at) {
        (Some(start), Some(end)) => if earlier(end, start) {
            seq![prefix + ".ended_at must not be before "@ + prefix + ".started_at"@]
        } else {
            Seq::empty()
        },
        _ => Seq::empty(),
    }) + (match duration_minutes {
        Some(d) => if d < 0 {
            seq![prefix + ".duration_minutes must not be negative"@]
        } else {
            Seq::empty()
        },
        None => Seq::empty(),
    }) + (match distance_miles {
        Some(d) => if d < 0 {
            seq![prefix + ".distance_miles must not be negative"@]
        } else {
            Seq::empty()
        },
        None => Seq::empty(),
    })
}

/// What a detail object reports, given the mode it arrived with.
#[verifier::opaque]
pub open spec fn detail_errors_of(
    flight: Option<FlightInput>,
    booking: Option<BookingInput>,
    drive: Option<DriveInput>,
    flight_mode: bool,
    drive_mode: bool,
    prefix: Seq<char>,
) -> Seq<Seq<char>> {
    if flight_mode {
        match flight {
            Some(f) => flight_errors(f, field_path(prefix, "flight"@)) + (match booking {
                Some(b) => booking_errors(b, prefix),
                None => Seq::empty(),
            }),
            None => Seq::empty(),
        }
    } else if drive_mode {
        match drive {
            Some(d) => drive_errors(d, prefix),
            None => Seq::empty(),
        }
    } else {
        Seq::empty()
    }
}

/// What the mode's detail object reports.
pub open spec fn detail_errors(s: SegmentInput, prefix: Seq<char>) -> Seq<Seq<char>> {
    detail_errors_of(s.flight, s.booking, s.drive, is_flight_mode(s), is_drive_mode(s), prefix)
}

/// Everything `SegmentInput::validate` reports for the segment at `index`.
pub open spec fn segment_errors(s: SegmentInput, index: nat) -> Seq<Seq<char>> {
    let prefix = segment_prefix(index);
    mode_errors(s, prefix) + endpoint_errors(s, prefix) + timing_errors(s, prefix) + detail_errors(
        s,
        prefix,
    ) + object_errors(s.metadata, field_path(prefix, "metadata"@))
}

/// The duration a segment is stored with: the caller's, or else the whole
/// minutes between its timestamps when both are given and the result fits.
pub open spec fn derived_duration(s: SegmentInput) -> Option<i32> {
    match s.duration_minutes {
        Some(d) => Some(d),
        None => match (s.started_at, s.ended_at) {
            (Some(start), Some(end)) => if i32::MIN <= whole_minutes(start, end) <= i32::MAX {
                Some(whole_minutes(start, end) as i32)
            } else {
                None
            },
            _ => None,
        },
    }
}

pub open spec fn opt_place_kept(r: Option<ValidatedPlace>, p: Option<PlaceInput>) -> bool {
    match (r, p) {
        (Some(a), Some(b)) => place_kept(a, b),
        (None, None) => true,
        _ => false,
    }
}

/// What a detail object becomes, given the mode it arrived with.
#[verifier::opaque]
pub open spec fn detail_kept_of(
    r: SegmentDetail,
    flight: Option<FlightInput>,
    booking: Option<BookingInput>,
    drive: Option<DriveInput>,
    flight_mode: bool,
    drive_mode: bool,
) -> bool {
    if flight_mode {
        match flight {
            Some(f) => match r {
                SegmentDetail::Flight { flight, booking: kept } => flight_kept(*flight, f)
                    && match booking {
                    Some(b) => booking_kept(kept, b),
                    None => kept.seat is None && kept.cabin is None && kept.booking_reference is None
                        && kept.ticket_number is None,
                },
                _ => false,
            },
            None => r is Bare,
        }
    } else if drive_mode {
        match r {
            SegmentDetail::Drive(d) => match drive {
                Some(input) => drive_kept(d, input),
                None => d.vehicle is None && d.role is None && d.route_polyline is None,
            },
            _ => false,
        }
    } else {
        r is Bare
    }
}

/// What a segment's detail becomes.
pub open spec fn detail_kept(r: SegmentDetail, s: SegmentInput) -> bool {
    detail_kept_of(r, s.flight, s.booking, s.drive, is_flight_mode(s), is_drive_mode(s))
}

/// What `SegmentInput::validate` keeps of the segment at `index`.
#[verifier::opaque]
pub open spec fn segment_kept(r: ValidatedSegment, s: SegmentInput, index: nat) -> bool {
    &&& r.position == index + 1
    &&& r.mode@ == mode_value(s)
    &&& opt_place_kept(r.origin, s.origin)
    &&& opt_place_kept(r.destination, s.destination)
    &&& r.started_at == s.started_at
    &&& r.ended_at == s.ended_at
    &&& r.duration_minutes == derived_duration(s)
    &&& r.distance_miles == s.distance_miles
    &&& opt_view(r.notes) == trimmed_opt(s.notes)
    &&& r.metadata@ == object_value(s.metadata)
    &&& detail_kept(r.detail, s)
}

/// The errors of the first `n` segments, in order.
pub open spec fn segments_errors(segments: Seq<SegmentInput>, n: nat) -> Seq<Seq<char>>
    decreases n,
{
    if n == 0 {
        Seq::empty()
    } else {
        segments_errors(segments, (n - 1) as nat) + segment_errors(
            segments[n - 1],
            (n - 1) as nat,
        )
    }
}

/// How many segments are validated (and stored): at most `MAX_SEGMENTS`.
pub open spec fn segments_taken(request: CreateJourneyRequest) -> nat {
    if request.segments@.len() > 100 {
        100
    } else {
        request.segments@.len()
    }
}

/// What the journey's own fields report.
pub open spec fn journey_field_errors(request: CreateJourneyRequest) -> Seq<Seq<char>> {
    journey_field_errors_of(
        request.title@,
        request.idempotency_key,
        request.status,
        request.visibility,
        request.started_at,
        request.ended_at,
        request.metadata,
        request.segments@.len(),
    )
}

/// What a journey's own fields report, given each of them.
#[verifier::opaque]
pub open spec fn journey_field_errors_of(
    title: Seq<char>,
    idempotency_key: Option<String>,
    status: Option<String>,
    visibility: Option<String>,
    started_at: Option<Timestamp>,
    ended_at: Option<Timestamp>,
    metadata: Option<String>,
    segment_count: nat,
) -> Seq<Seq<char>> {
    let title = trim(title);
    (if title.len() == 0 {
        seq!["title must not be empty"@]
    } else if title.len() > 200 {
        seq!["title must be at most 200 characters"@]
    } else {
        Seq::empty()
    }) + text_errors(idempotency_key, "idempotency_key"@, 64) + one_of_errors(
        status,
        "status"@,
        journey_status_names(),
        "planned"@,
    ) + one_of_errors(visibility, "visibility"@, visibility_names(), "private"@) + (match (
        started_at,
        ended_at,
    ) {
        (Some(start), Some(end)) => if earlier(end, start) {
            seq!["ended_at must not be before started_at"@]
        } else {
            Seq::empty()
        },
        _ => Seq::empty(),
    }) + object_errors(metadata, "metadata"@) + (if segment_count > 100 {
        seq!["segments must contain at most 100 entries"@]
    } else {
        Seq::empty()
    })
}

/// Everything `CreateJourneyRequest::validate` reports, in order: the
/// journey's own fields, then every validated segment's problems.
pub open spec fn journey_errors(request: CreateJourneyRequest) -> Seq<Seq<char>> {
    journey_field_errors(request) + segments_errors(request.segments@, segments_taken(request))
}

/// What `CreateJourneyRequest::validate` keeps.
pub open spec fn journey_kept(r: ValidatedJourney, request: CreateJourneyRequest) -> bool {
    &&& r.user_id == request.user_id
    &&& opt_view(r.idempotency_key) == trimmed_opt(request.idempotency_key)
    &&& r.title@ == trim(request.title@)
    &&& opt_view(r.description) == trimmed_opt(request.description)
    &&& r.started_at == request.started_at
    &&& r.ended_at == request.ended_at
    &&& r.status@ == chosen_value(request.status, "planned"@)
    &&& r.visibility@ == chosen_value(request.visibility, "private"@)
    &&& r.metadata@ == object_value(request.metadata)
    &&& r.segments@.len() == segments_taken(request)
    &&& forall|i: int|
        0 <= i < r.segments@.len() ==> segment_kept(
            #[trigger] r.segments@[i],
            request.segments@[i],
            i as nat,
        )
}


// ---------------------------------------------------------------------------
// Validation: segments and journeys
// ---------------------------------------------------------------------------

/// The mode check of `mode_errors`; returns the normalised mode.
fn check_mode(s: &SegmentInput, prefix: &str, errors: &mut Vec<String>) -> (r: String)
    ensures
        r@ == mode_value(*s),
        views(final(errors)@) == views(old(errors)@) + mode_errors(*s, prefix@),
{
    proof {
        reveal(mode_errors);
    }
    let ghost start = views(errors@);
    let t = trimmed(s.mode.as_str());
    let mode = to_lower(t.as_str());
    let mode_field = concat(prefix, ".mode");
    if !crate::text::is_one_of(SEGMENT_MODES.as_slice(), mode.as_str()) {
        report(errors, allowed_message(mode_field.as_str(), SEGMENT_MODES.as_slice()));
    }
    let ghost e1 = views(errors@);
    let is_flight = same_text(mode.as_str(), "flight");
    let is_drive = same_text(mode.as_str(), "drive");
    if !is_flight && s.flight.is_some() {
        report(errors, concat(prefix, ".flight is only valid when mode is \"flight\""));
    }
    let ghost e2 = views(errors@);
    if !is_flight && s.booking.is_some() {
        report(errors, concat(prefix, ".booking is only valid when mode is \"flight\""));
    }
    let ghost e3 = views(errors@);
    if !is_drive && s.drive.is_some() {
        report(errors, concat(prefix, ".drive is only valid when mode is \"drive\""));
    }
    let ghost e4 = views(errors@);
    if is_flight && s.flight.is_none() {
        report(errors, concat(prefix, ".flight is required when mode is \"flight\""));
    }
    let ghost e5 = views(errors@);
    // A flight already knows its airports; repeating them invites a
    // contradiction nobody can resolve.
    if is_flight && (s.origin.is_some() || s.destination.is_some()) {
        let mut message = concat3(prefix, ".origin and ", prefix);
        message.append(".destination are derived from the flight; omit them");
        report(errors, message);
    }
    proof {
        assert(str_views(SEGMENT_MODES@) =~= mode_names());
        let flight = is_flight_mode(*s);
        let drive = is_drive_mode(*s);
        assert(e1 =~= start + (if mode_names().contains(mode_value(*s)) {
            Seq::<Seq<char>>::empty()
        } else {
            seq![one_of_message(prefix@ + ".mode"@, mode_names())]
        }));
        assert(e2 =~= e1 + (if !flight && s.flight is Some {
            seq![prefix@ + ".flight is only valid when mode is \"flight\""@]
        } else {
            Seq::<Seq<char>>::empty()
        }));
        assert(e3 =~= e2 + (if !flight && s.booking is Some {
            seq![prefix@ + ".booking is only valid when mode is \"flight\""@]
        } else {
            Seq::<Seq<char>>::empty()
        }));
        assert(e4 =~= e3 + (if !drive && s.drive is Some {
            seq![prefix@ + ".drive is only valid when mode is \"drive\""@]
        } else {
            Seq::<Seq<char>>::empty()
        }));
        assert(e5 =~= e4 + (if flight && s.flight is None {
            seq![prefix@ + ".flight is required when mode is \"flight\""@]
        } else {
            Seq::<Seq<char>>::empty()
        }));
        assert(views(errors@) =~= start + mode_errors(*s, prefix@));
    }
    mode
}

/// The time and measure checks of `timing_errors`.
fn check_timing(
    started_at: Option<Timestamp>,
    ended_at: Option<Timestamp>,
    duration_minutes: Option<i32>,
    distance_miles: Option<i32>,
    prefix: &str,
    errors: &mut Vec<String>,
)
    ensures
        views(final(errors)@) == views(old(errors)@) + timing_errors_of(
            started_at,
            ended_at,
            duration_minutes,
            distance_miles,
            prefix@,
        ),
{
    proof {
        reveal(timing_errors_of);
    }
    let ghost start = views(errors@);
    match (started_at, ended_at) {
        (Some(started), Some(ended)) => {
            if ended.is_before(&started) {
                let mut message = concat3(prefix, ".ended_at must not be before ", prefix);
                message.append(".started_at");
                report(errors, message);
            }
        },
        _ => {},
    }
    let ghost e1 = views(errors@);
    match duration_minutes {
        Some(d) => {
            if d < 0 {
                report(errors, concat(prefix, ".duration_minutes must not be negative"));
            }
        },
        None => {},
    }
    let ghost e2 = views(errors@);
    match distance_miles {
        Some(d) => {
            if d < 0 {
                report(errors, concat(prefix, ".distance_miles must not be negative"));
            }
        },
        None => {},
    }
    proof {
        assert(e1 =~= start + (match (started_at, ended_at) {
            (Some(a), Some(b)) => if earlier(b, a) {
                seq![prefix@ + ".ended_at must not be before "@ + prefix@ + ".started_at"@]
            } else {
                Seq::<Seq<char>>::empty()
            },
            _ => Seq::<Seq<char>>::empty(),
        }));
        assert(e2 =~= e1 + (match duration_minutes {
            Some(d) => if d < 0 {
                seq![prefix@ + ".duration_minutes must not be negative"@]
            } else {
                Seq::<Seq<char>>::empty()
            },
            None => Seq::<Seq<char>>::empty(),
        }));
        assert(views(errors@) =~= start + timing_errors_of(
            started_at,
            ended_at,
            duration_minutes,
            distance_miles,
            prefix@,
        ));
    }
}

/// An optional endpoint, validated under `prefix.name`.
fn validate_endpoint(
    place: Option<PlaceInput>,
    prefix: &str,
    name: &str,
    errors: &mut Vec<String>,
) -> (r: Option<ValidatedPlace>)
    ensures
        opt_place_kept(r, place),
        views(final(errors)@) == views(old(errors)@) + (match place {
            Some(p) => place_errors(p, field_path(prefix@, name@)),
            None => Seq::<Seq<char>>::empty(),
        }),
{
    match place {
        Some(p) => {
            let f = field(prefix, name);
            Some(p.validate(f.as_str(), errors))
        },
        None => {
            proof {
                assert(views(errors@) =~= views(old(errors)@) + Seq::<Seq<char>>::empty());
            }
            None
        },
    }
}

/// The detail object a segment's mode calls for.
fn validate_detail(
    flight: Option<FlightInput>,
    booking: Option<BookingInput>,
    drive: Option<DriveInput>,
    flight_mode: bool,
    drive_mode: bool,
    prefix: &str,
    errors: &mut Vec<String>,
) -> (r: SegmentDetail)
    ensures
        detail_kept_of(r, flight, booking, drive, flight_mode, drive_mode),
        views(final(errors)@) == views(old(errors)@) + detail_errors_of(
            flight,
            booking,
            drive,
            flight_mode,
            drive_mode,
            prefix@,
        ),
{
    proof {
        reveal(detail_kept_of);
        reveal(detail_errors_of);
    }
    if flight_mode {
        match flight {
            Some(f) => {
                let flight_field = field(prefix, "flight");
                let validated = f.validate_into(flight_field.as_str(), errors);
                let ghost middle = views(errors@);
                let kept = match booking {
                    Some(b) => b.validate(prefix, errors),
                    None => ValidatedBooking::default(),
                };
                proof {
                    assert(views(errors@) =~= views(old(errors)@) + detail_errors_of(
                        flight,
                        booking,
                        drive,
                        flight_mode,
                        drive_mode,
                        prefix@,
                    ));
                }
                SegmentDetail::Flight { flight: Box::new(validated), booking: kept }
            },
            None => {
                // Already reported; keep collecting other segments.
                proof {
                    assert(views(errors@) =~= views(old(errors)@) + Seq::<Seq<char>>::empty());
                }
                SegmentDetail::Bare
            },
        }
    } else if drive_mode {
        match drive {
            Some(d) => SegmentDetail::Drive(d.validate(prefix, errors)),
            None => {
                proof {
                    assert(views(errors@) =~= views(old(errors)@) + Seq::<Seq<char>>::empty());
                }
                SegmentDetail::Drive(ValidatedDrive { vehicle: None, role: None, route_polyline: None })
            },
        }
    } else {
        proof {
            assert(views(errors@) =~= views(old(errors)@) + Seq::<Seq<char>>::empty());
        }
        SegmentDetail::Bare
    }
}

/// `segments[index]`.
pub fn segment_name(index: usize) -> (r: String)
    ensures
        r@ == segment_prefix(index as nat),
{
    let mut name = String::from_str("segments[");
    let digits = decimal_string(index as u64);
    name.append(digits.as_str());
    name.append("]");
    name
}

/// The duration a segment is stored with.
fn duration_for(
    duration_minutes: Option<i32>,
    started_at: Option<Timestamp>,
    ended_at: Option<Timestamp>,
) -> (r: Option<i32>)
    ensures
        r == (match duration_minutes {
            Some(d) => Some(d),
            None => match (started_at, ended_at) {
                (Some(start), Some(end)) => if i32::MIN <= whole_minutes(start, end) <= i32::MAX {
                    Some(whole_minutes(start, end) as i32)
                } else {
                    None
                },
                _ => None,
            },
        }),
{
    match duration_minutes {
        Some(d) => Some(d),
        // Absent duration with both timestamps is a subtraction, not a question.
        None => match (started_at, ended_at) {
            (Some(start), Some(end)) => {
                let minutes = minutes_between(start, end);
                if minutes >= i32::MIN as i64 && minutes <= i32::MAX as i64 {
                    Some(minutes as i32)
                } else {
                    None
                }
            },
            _ => None,
        },
    }
}

impl SegmentInput {
    /// Check and normalise the segment at `index` of a journey.
    pub fn validate(self, index: usize, errors: &mut Vec<String>) -> (r: ValidatedSegment)
        requires
            index < i32::MAX,
        ensures
            segment_kept(r, self, index as nat),
            views(final(errors)@) == views(old(errors)@) + segment_errors(self, index as nat),
    {
        let ghost start = views(errors@);
        let ghost input = self;
        let prefix = segment_name(index);
        let mode = check_mode(&self, prefix.as_str(), errors);
        let is_flight = same_text(mode.as_str(), "flight");
        let is_drive = same_text(mode.as_str(), "drive");
        let ghost e1 = views(errors@);
        let origin = validate_endpoint(self.origin, prefix.as_str(), "origin", errors);
        let destination = validate_endpoint(self.destination, prefix.as_str(), "destination", errors);
        let ghost e2 = views(errors@);
        check_timing(
            self.started_at,
            self.ended_at,
            self.duration_minutes,
            self.distance_miles,
            prefix.as_str(),
            errors,
        );
        let ghost e3 = views(errors@);
        let detail = validate_detail(
            self.flight,
            self.booking,
            self.drive,
            is_flight,
            is_drive,
            prefix.as_str(),
            errors,
        );
        let ghost e4 = views(errors@);
        let duration_minutes = duration_for(self.duration_minutes, self.started_at, self.ended_at);
        let notes = trimmed_nonblank(self.notes);
        let metadata_field = field(prefix.as_str(), "metadata");
        let metadata = object_or_default(self.metadata, metadata_field.as_str(), errors);
        proof {
            reveal(endpoint_errors);
            reveal(segment_kept);
            assert(e2 =~= e1 + endpoint_errors(input, prefix@));
            assert(views(errors@) =~= start + segment_errors(input, index as nat));
        }
        ValidatedSegment {
            position: index as i32 + 1,
            mode,
            origin,
            destination,
            started_at: self.started_at,
            ended_at: self.ended_at,
            duration_minutes,
            distance_miles: self.distance_miles,
            notes,
            metadata,
            detail,
        }
    }
}

/// The journey's own checks of `journey_field_errors`.
fn check_journey_fields(
    title: &String,
    idempotency_key: Option<String>,
    status: Option<String>,
    visibility: Option<String>,
    started_at: Option<Timestamp>,
    ended_at: Option<Timestamp>,
    metadata: Option<String>,
    segment_count: usize,
    errors: &mut Vec<String>,
) -> (r: (String, Option<String>, String, String, String))
    ensures
        r.0@ == trim(title@),
        opt_view(r.1) == trimmed_opt(idempotency_key),
        r.2@ == chosen_value(status, "planned"@),
        r.3@ == chosen_value(visibility, "private"@),
        r.4@ == object_value(metadata),
        views(final(errors)@) == views(old(errors)@) + journey_field_errors_of(
            title@,
            idempotency_key,
            status,
            visibility,
            started_at,
            ended_at,
            metadata,
            segment_count as nat,
        ),
{
    let ghost start = views(errors@);
    let title_text = trimmed(title.as_str());
    if title_text.unicode_len() == 0 {
        report(errors, String::from_str("title must not be empty"));
    } else if title_text.unicode_len() > MAX_TITLE_LEN {
        report(errors, String::from_str("title must be at most 200 characters"));
    }
    let ghost e1 = views(errors@);
    let key = optional_text(idempotency_key, "idempotency_key", MAX_IDEMPOTENCY_KEY_LEN, errors);
    let chosen_status = one_of(
        status,
        "status",
        JOURNEY_STATUSES.as_slice(),
        DEFAULT_JOURNEY_STATUS,
        errors,
    );
    let chosen_visibility = one_of(
        visibility,
        "visibility",
        VISIBILITIES.as_slice(),
        DEFAULT_VISIBILITY,
        errors,
    );
    let ghost e4 = views(errors@);
    match (started_at, ended_at) {
        (Some(start_at), Some(end_at)) => {
            if end_at.is_before(&start_at) {
                report(errors, String::from_str("ended_at must not be before started_at"));
            }
        },
        _ => {},
    }
    let ghost e5 = views(errors@);
    let kept_metadata = object_or_default(metadata, "metadata", errors);
    let ghost e6 = views(errors@);
    if segment_count > MAX_SEGMENTS {
        report(errors, String::from_str("segments must contain at most 100 entries"));
    }
    proof {
        reveal(journey_field_errors_of);
        assert(str_views(JOURNEY_STATUSES@) =~= journey_status_names());
        assert(str_views(VISIBILITIES@) =~= visibility_names());
        let title_v = trim(title@);
        assert(e1 =~= start + (if title_v.len() == 0 {
            seq!["title must not be empty"@]
        } else if title_v.len() > 200 {
            seq!["title must be at most 200 characters"@]
        } else {
            Seq::<Seq<char>>::empty()
        }));
        assert(e5 =~= e4 + (match (started_at, ended_at) {
            (Some(a), Some(b)) => if earlier(b, a) {
                seq!["ended_at must not be before started_at"@]
            } else {
                Seq::<Seq<char>>::empty()
            },
            _ => Seq::<Seq<char>>::empty(),
        }));
        assert(views(errors@) =~= e6 + (if segment_count > 100 {
            seq!["segments must contain at most 100 entries"@]
        } else {
            Seq::<Seq<char>>::empty()
        }));
        assert(views(errors@) =~= start + journey_field_errors_of(
            title@,
            idempotency_key,
            status,
            visibility,
            started_at,
            ended_at,
            metadata,
            segment_count as nat,
        ));
    }
    (title_text, key, chosen_status, chosen_visibility, kept_metadata)
}

impl CreateJourneyRequest {
    /// Check and normalise the whole journey, reporting every problem in every
    /// segment at once. Position is the array index, so the ordering the
    /// caller sends is the ordering that is stored.
    pub fn validate(self) -> (r: Result<ValidatedJourney, ApiError>)
        ensures
            r is Err <==> journey_errors(self).len() > 0,
            r is Err ==> (r->Err_0 is Validation && views(r->Err_0->Validation_0@)
                == journey_errors(self)),
            r is Ok ==> journey_kept(r->Ok_0, self),
            r is Ok ==> forall|i: int|
                0 <= i < r->Ok_0.segments@.len() ==> (#[trigger] r->Ok_0.segments@[i]).position
                    == i + 1,
    {
        let ghost input = self;
        let mut errors: Vec<String> = Vec::new();
        proof {
            assert(views(errors@) =~= Seq::<Seq<char>>::empty());
        }
        let (title, idempotency_key, status, visibility, metadata) = check_journey_fields(
            &self.title,
            self.idempotency_key,
            self.status,
            self.visibility,
            self.started_at,
            self.ended_at,
            self.metadata,
            self.segments.len(),
            &mut errors,
        );
        let ghost base = views(errors@);
        let total = self.segments.len();
        let count: usize = if total > MAX_SEGMENTS {
            MAX_SEGMENTS
        } else {
            total
        };
        let mut rest = self.segments;
        let mut segments: Vec<ValidatedSegment> = Vec::new();
        let mut i: usize = 0;
        while i < count
            invariant
                count == segments_taken(input),
                count <= total,
                total == input.segments@.len(),
                i <= count,
                rest@ == input.segments@.subrange(i as int, total as int),
                segments@.len() == i,
                forall|k: int|
                    0 <= k < i ==> segment_kept(
                        #[trigger] segments@[k],
                        input.segments@[k],
                        k as nat,
                    ),
                views(errors@) == base + segments_errors(input.segments@, i as nat),
            decreases count - i,
        {
            let segment = rest.remove(0);
            proof {
                assert(segment == input.segments@[i as int]);
            }
            let validated = segment.validate(i, &mut errors);
            segments.push(validated);
            proof {
                assert(rest@ =~= input.segments@.subrange(i + 1, total as int));
                assert(views(errors@) =~= base + segments_errors(input.segments@, (i + 1) as nat));
            }
            i = i + 1;
        }
        if errors.len() > 0 {
            return Err(ApiError::Validation(errors));
        }
        let description = trimmed_nonblank(self.description);
        let journey = ValidatedJourney {
            user_id: self.user_id,
            idempotency_key,
            title,
            description,
            started_at: self.started_at,
            ended_at: self.ended_at,
            status,
            visibility,
            metadata,
            segments,
        };
        proof {
            assert forall|k: int| 0 <= k < journey.segments@.len() implies (
            #[trigger] journey.segments@[k]).position == k + 1 by {
                reveal(segment_kept);
                assert(segment_kept(journey.segments@[k], input.segments@[k], k as nat));
            }
        }
        Ok(journey)
    }
}


// ---------------------------------------------------------------------------
// Place identity within one request
// ---------------------------------------------------------------------------

/// The optional city, or nothing.
pub open spec fn city_text(city: Option<String>) -> Seq<char> {
    match city {
        Some(c) => c@,
        None => Seq::empty(),
    }
}

/// What makes two descriptions in one request the same place.
///
/// A name at a coordinate is an identity; `kind` and `city` are description,
/// and a caller who spells the arrival out in full and the departure in
/// shorthand still means one building. Coordinates enter the key as the
/// decimal numerals of their bit patterns: two coordinates that validation
/// lets through share a numeral exactly when they print the same.
pub open spec fn place_key(place: ValidatedPlace) -> Seq<char> {
    match place {
        ValidatedPlace::Saved(id) => "saved:"@ + crate::text::signed_decimal(id as int),
        ValidatedPlace::Airport(a) => "airport:"@ + a.iata_code@,
        ValidatedPlace::Custom(c) => match (c.latitude, c.longitude) {
            (Some(latitude), Some(longitude)) => "custom:"@ + c.name@ + "|"@ + decimal(
                latitude as nat,
            ) + "|"@ + decimal(longitude as nat),
            _ => "custom:"@ + c.name@ + "|"@ + c.kind@ + "|"@ + city_text(c.city),
        },
    }
}

/// The key an airport is cached under, from its code.
pub open spec fn airport_key(iata_code: Seq<char>) -> Seq<char> {
    "airport:"@ + iata_code
}

/// `airport:CODE`, the key an airport resolved for a flight is cached under,
/// so that a later leg naming the same airport reuses its place.
pub fn airport_cache_key(iata_code: &str) -> (r: String)
    ensures
        r@ == airport_key(iata_code@),
{
    concat("airport:", iata_code)
}

impl ValidatedPlace {
    /// What makes two descriptions in one request the same place.
    pub fn cache_key(&self) -> (r: String)
        ensures
            r@ == place_key(*self),
    {
        match self {
            ValidatedPlace::Saved(id) => {
                let digits = crate::text::signed_decimal_string(*id);
                concat("saved:", digits.as_str())
            },
            ValidatedPlace::Airport(airport) => concat("airport:", airport.iata_code.as_str()),
            ValidatedPlace::Custom(place) => match (place.latitude, place.longitude) {
                (Some(latitude), Some(longitude)) => {
                    let mut key = concat3("custom:", place.name.as_str(), "|");
                    let lat = decimal_string(latitude);
                    key.append(lat.as_str());
                    key.append("|");
                    let lon = decimal_string(longitude);
                    key.append(lon.as_str());
                    key
                },
                // Nothing to pin it to but the words, so use all of them.
                _ => {
                    let mut key = concat3("custom:", place.name.as_str(), "|");
                    key.append(place.kind.as_str());
                    key.append("|");
                    match &place.city {
                        Some(city) => key.append(city.as_str()),
                        None => {
                            proof {
                                assert(key@ =~= key@ + Seq::<char>::empty());
                            }
                        },
                    }
                    key
                },
            },
        }
    }
}

/// One waypoint described twice is one place: two inline descriptions with the
/// same name at the same coordinates share a key, however differently their
/// kind and city were given.
pub proof fn law_same_name_at_same_position_is_one_place(
    a: ValidatedCustomPlace,
    b: ValidatedCustomPlace,
)
    requires
        a.name@ == b.name@,
        a.latitude is Some,
        a.longitude is Some,
        a.latitude == b.latitude,
        a.longitude == b.longitude,
    ensures
        place_key(ValidatedPlace::Custom(Box::new(a))) == place_key(
            ValidatedPlace::Custom(Box::new(b)),
        ),
{
}

/// What follows a custom place's name in its key.
spec fn custom_key_rest(c: ValidatedCustomPlace) -> Seq<char> {
    match (c.latitude, c.longitude) {
        (Some(latitude), Some(longitude)) => decimal(latitude as nat) + "|"@ + decimal(
            longitude as nat,
        ),
        _ => c.kind@ + "|"@ + city_text(c.city),
    }
}

proof fn lemma_custom_key_shape(c: ValidatedCustomPlace)
    ensures
        place_key(ValidatedPlace::Custom(Box::new(c))) =~= "custom:"@ + (c.name@ + seq!['|']
            + custom_key_rest(c)),
{
    reveal_strlit("|");
}

/// Two texts each cut at their first `|` are equal only when both halves are.
proof fn lemma_bar_split(x1: Seq<char>, r1: Seq<char>, x2: Seq<char>, r2: Seq<char>)
    requires
        x1 + seq!['|'] + r1 == x2 + seq!['|'] + r2,
        !x1.contains('|'),
        !x2.contains('|'),
    ensures
        x1 == x2,
        r1 == r2,
{
    let s = x1 + seq!['|'] + r1;
    let t = x2 + seq!['|'] + r2;
    if x1.len() < x2.len() {
        assert(s[x1.len() as int] == '|');
        assert(t[x1.len() as int] == x2[x1.len() as int]);
        assert(x2.contains('|'));
    } else if x2.len() < x1.len() {
        assert(t[x2.len() as int] == '|');
        assert(s[x2.len() as int] == x1[x2.len() as int]);
        assert(x1.contains('|'));
    }
    assert(x1 =~= s.subrange(0, x1.len() as int));
    assert(x2 =~= t.subrange(0, x2.len() as int));
    assert(r1 =~= s.subrange(x1.len() as int + 1, s.len() as int));
    assert(r2 =~= t.subrange(x2.len() as int + 1, t.len() as int));
}

/// A custom place's key tells its name apart: two custom places whose names
/// hold no `|` share a key only when their names are the same. Without
/// coordinates, and with kinds that hold no `|`, they share a key only when
/// name, kind and city all agree, so two differently named waypoints are
/// never taken for one place.
pub proof fn law_custom_keys_tell_places_apart(a: ValidatedCustomPlace, b: ValidatedCustomPlace)
    requires
        !a.name@.contains('|'),
        !b.name@.contains('|'),
    ensures
        place_key(ValidatedPlace::Custom(Box::new(a))) == place_key(
            ValidatedPlace::Custom(Box::new(b)),
        ) ==> a.name@ == b.name@,
        (place_key(ValidatedPlace::Custom(Box::new(a))) == place_key(
            ValidatedPlace::Custom(Box::new(b)),
        ) && (a.latitude is None || a.longitude is None) && (b.latitude is None || b.longitude
            is None) && !a.kind@.contains('|') && !b.kind@.contains('|')) ==> (a.kind@ == b.kind@
            && city_text(a.city) == city_text(b.city)),
{
    let ka = place_key(ValidatedPlace::Custom(Box::new(a)));
    let kb = place_key(ValidatedPlace::Custom(Box::new(b)));
    if ka == kb {
        lemma_custom_key_shape(a);
        lemma_custom_key_shape(b);
        let p = "custom:"@;
        let ra = a.name@ + seq!['|'] + custom_key_rest(a);
        let rb = b.name@ + seq!['|'] + custom_key_rest(b);
        assert(ra =~= ka.subrange(p.len() as int, ka.len() as int));
        assert(rb =~= kb.subrange(p.len() as int, kb.len() as int));
        lemma_bar_split(a.name@, custom_key_rest(a), b.name@, custom_key_rest(b));
        if (a.latitude is None || a.longitude is None) && (b.latitude is None || b.longitude
            is None) && !a.kind@.contains('|') && !b.kind@.contains('|') {
            reveal_strlit("|");
            assert(custom_key_rest(a) =~= a.kind@ + seq!['|'] + city_text(a.city));
            assert(custom_key_rest(b) =~= b.kind@ + seq!['|'] + city_text(b.city));
            lemma_bar_split(a.kind@, city_text(a.city), b.kind@, city_text(b.city));
        }
    }
}

/// An airport named as a segment endpoint is found under the key its flight
/// leg seeded: the same airport resolves to a single place.
pub proof fn law_airport_endpoint_matches_seeded_key(a: ValidatedAirport)
    ensures
        place_key(ValidatedPlace::Airport(Box::new(a))) == airport_key(a.iata_code@),
{
}

/// The id a sequence of insertions leaves under `key`: the latest one wins.
pub open spec fn lookup(entries: Seq<(Seq<char>, i64)>, key: Seq<char>) -> Option<i64>
    decreases entries.len(),
{
    if entries.len() == 0 {
        None
    } else if entries.last().0 == key {
        Some(entries.last().1)
    } else {
        lookup(entries.drop_last(), key)
    }
}

/// Places resolved so far in one request.
///
/// A journey is a chain: leg N ends where leg N+1 begins, and the caller
/// describes that waypoint twice. Without this, each description would insert
/// its own row and the trip would end up with two places that are the same
/// building.
pub struct PlaceCache {
    entries: Vec<(String, i64)>,
}

impl PlaceCache {
    pub closed spec fn entries_view(&self) -> Seq<(Seq<char>, i64)> {
        self.entries@.map_values(|e: (String, i64)| (e.0@, e.1))
    }
}

impl View for PlaceCache {
    type V = Map<Seq<char>, i64>;

    closed spec fn view(&self) -> Map<Seq<char>, i64> {
        Map::new(
            |k: Seq<char>| lookup(self.entries_view(), k) is Some,
            |k: Seq<char>| lookup(self.entries_view(), k)->0,
        )
    }
}

impl Default for PlaceCache {
    fn default() -> (r: Self)
        ensures
            r@ == Map::<Seq<char>, i64>::empty(),
    {
        let r = PlaceCache { entries: Vec::new() };
        proof {
            assert(r.entries_view() =~= Seq::<(Seq<char>, i64)>::empty());
            assert(r@ =~= Map::<Seq<char>, i64>::empty());
        }
        r
    }
}

impl PlaceCache {
    /// An empty cache.
    pub fn new() -> (r: Self)
        ensures
            r@ == Map::<Seq<char>, i64>::empty(),
    {
        PlaceCache::default()
    }

    /// The place id stored under `key`, if any.
    pub fn get(&self, key: &str) -> (r: Option<i64>)
        ensures
            r == (if self@.contains_key(key@) {
                Some(self@[key@])
            } else {
                None::<i64>
            }),
    {
        let ghost all = self.entries_view();
        let mut i = self.entries.len();
        proof {
            assert(all.subrange(0, i as int) =~= all);
        }
        while i > 0
            invariant
                i <= self.entries@.len(),
                all == self.entries_view(),
                all.len() == self.entries@.len(),
                lookup(all, key@) == lookup(all.subrange(0, i as int), key@),
            decreases i,
        {
            let entry = &self.entries[i - 1];
            let ghost prefix = all.subrange(0, i as int);
            proof {
                assert(prefix.last() == (entry.0@, entry.1));
                assert(prefix.drop_last() =~= all.subrange(0, i - 1));
            }
            if same_text(entry.0.as_str(), key) {
                return Some(entry.1);
            }
            i = i - 1;
        }
        None
    }

    /// Store `id` under `key`, replacing whatever was there.
    pub fn insert(&mut self, key: String, id: i64)
        ensures
            final(self)@ == old(self)@.insert(key@, id),
    {
        let ghost before = self.entries_view();
        let ghost k = key@;
        self.entries.push((key, id));
        proof {
            assert(self.entries_view() =~= before.push((k, id)));
            assert forall|q: Seq<char>| #[trigger] lookup(self.entries_view(), q) == (if q == k {
                Some(id)
            } else {
                lookup(before, q)
            }) by {
                assert(self.entries_view().drop_last() =~= before);
            }
            assert(self@ =~= old(self)@.insert(k, id));
        }
    }
}

/// What a cache is asked for after storing an id is that id; every other key
/// reads as it did before.
pub proof fn law_cache_reads_back_what_was_stored(
    before: PlaceCache,
    after: PlaceCache,
    key: Seq<char>,
    id: i64,
    other: Seq<char>,
)
    requires
        after@ == before@.insert(key, id),
        other != key,
    ensures
        after@.contains_key(key),
        after@[key] == id,
        after@.contains_key(other) == before@.contains_key(other),
        before@.contains_key(other) ==> after@[other] == before@[other],
{
}

} // verus!
