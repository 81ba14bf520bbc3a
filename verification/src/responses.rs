//! What `POST` and `GET` return, and how a journey is put together from the
//! rows its four reads bring back.

use vstd::prelude::*;

use crate::entities::{DriveRow, Journey, JourneyTotals, LegRow, User};
use crate::time::Timestamp;

verus! {

/// `POST /api/v1/users`: the created row plus the key it was issued. The key
/// is shown exactly once, at creation time.
#[derive(Debug)]
pub struct InsertUserResponse {
    pub user: User,
    pub api_key: String,
}

pub type CreateUserResponse = InsertUserResponse;

/// `GET /api/v1/users/{id}`: the row, with no secret columns.
pub type GetUserResponse = User;

/// A segment endpoint as read back.
#[derive(Debug)]
pub struct PlaceResponse {
    pub id: i64,
    pub name: String,
    pub kind: String,
    /// Present only for airport places.
    pub iata_code: Option<String>,
    pub city: Option<String>,
    pub country_code: Option<String>,
    /// The latitude's `float8` bit pattern.
    pub latitude: Option<u64>,
    /// The longitude's `float8` bit pattern.
    pub longitude: Option<u64>,
    pub timezone: Option<String>,
}

/// A flight segment's flight and booking, as read back. `leg_id` says which
/// segment it belongs to and is not shown to the caller.
#[derive(Debug)]
pub struct FlightResponse {
    pub leg_id: u128,
    pub flight_id: u128,
    pub airline_id: i64,
    pub flight_number: String,
    pub origin_airport_id: i64,
    pub destination_airport_id: i64,
    pub distance_miles: Option<i32>,
    pub scheduled_departure_at: Timestamp,
    pub scheduled_arrival_at: Timestamp,
    pub status: String,
    pub seat: Option<String>,
    pub cabin: Option<String>,
    pub booking_reference: Option<String>,
    pub ticket_number: Option<String>,
}

#[derive(Debug)]
pub struct VehicleResponse {
    pub id: i64,
    pub nickname: Option<String>,
    pub make: Option<String>,
    pub model: Option<String>,
    pub year: Option<i16>,
}

#[derive(Debug)]
pub struct DriveResponse {
    pub vehicle: Option<VehicleResponse>,
    pub role: Option<String>,
    pub route_polyline: Option<String>,
}

#[derive(Debug)]
pub struct SegmentResponse {
    pub id: u128,
    pub position: i32,
    pub mode: String,
    pub origin: Option<PlaceResponse>,
    pub destination: Option<PlaceResponse>,
    pub started_at: Option<Timestamp>,
    pub ended_at: Option<Timestamp>,
    pub duration_minutes: Option<i32>,
    pub distance_miles: Option<i32>,
    pub notes: Option<String>,
    /// The stored JSON document, as text.
    pub metadata: String,
    pub flight: Option<FlightResponse>,
    pub drive: Option<DriveResponse>,
}

/// A journey with its totals and its segments in position order.
#[derive(Debug)]
pub struct JourneyResponse {
    pub journey: Journey,
    pub totals: JourneyTotals,
    pub segments: Vec<SegmentResponse>,
}

/// `POST /api/v1/journeys`: the trip it recorded.
pub type InsertJourneyResponse = JourneyResponse;

/// `GET /api/v1/journeys/{id}`: the same shape, read back.
pub type GetJourneyResponse = JourneyResponse;

pub type SegmentView = SegmentResponse;

pub type PlaceView = PlaceResponse;

pub type FlightView = FlightResponse;

pub type DriveView = DriveResponse;

pub type VehicleView = VehicleResponse;

/// The place read under `id`; when the read returned it twice, the later row.
pub open spec fn place_with_id(places: Seq<PlaceResponse>, id: i64) -> Option<PlaceResponse>
    decreases places.len(),
{
    if places.len() == 0 {
        None
    } else if places.last().id == id {
        Some(places.last())
    } else {
        place_with_id(places.drop_last(), id)
    }
}

/// The endpoint a leg names, if it names one and it was read.
pub open spec fn endpoint(places: Seq<PlaceResponse>, id: Option<i64>) -> Option<PlaceResponse> {
    match id {
        Some(i) => place_with_id(places, i),
        None => None,
    }
}

/// The flight read for `leg`; when there were two, the later row.
pub open spec fn flight_of_leg(flights: Seq<FlightResponse>, leg: u128) -> Option<FlightResponse>
    decreases flights.len(),
{
    if flights.len() == 0 {
        None
    } else if flights.last().leg_id == leg {
        Some(flights.last())
    } else {
        flight_of_leg(flights.drop_last(), leg)
    }
}

/// The drive read for `leg`; when there were two, the later row.
pub open spec fn drive_row_of_leg(drives: Seq<DriveRow>, leg: u128) -> Option<DriveRow>
    decreases drives.len(),
{
    if drives.len() == 0 {
        None
    } else if drives.last().leg_id == leg {
        Some(drives.last())
    } else {
        drive_row_of_leg(drives.drop_last(), leg)
    }
}

/// A drive row split into the drive and, when one is attached, its vehicle.
pub open spec fn drive_of(row: DriveRow) -> DriveResponse {
    DriveResponse {
        vehicle: match row.vehicle_id {
            Some(id) => Some(
                VehicleResponse {
                    id,
                    nickname: row.nickname,
                    make: row.make,
                    model: row.model,
                    year: row.year,
                },
            ),
            None => None,
        },
        role: row.role,
        route_polyline: row.route_polyline,
    }
}

/// An earlier leg has the same id as leg `i`. Each detail is handed to the
/// first leg that asks for it, so such a leg gets none.
pub open spec fn seen_before(legs: Seq<LegRow>, i: int) -> bool {
    exists|j: int| 0 <= j < i && #[trigger] legs[j].id == legs[i].id
}

/// Leg `i` with its endpoints and its per-mode detail attached.
pub open spec fn segment_of(
    legs: Seq<LegRow>,
    i: int,
    places: Seq<PlaceResponse>,
    flights: Seq<FlightResponse>,
    drives: Seq<DriveRow>,
) -> SegmentResponse {
    let row = legs[i];
    SegmentResponse {
        id: row.id,
        position: row.position,
        mode: row.mode,
        origin: endpoint(places, row.origin_place_id),
        destination: endpoint(places, row.destination_place_id),
        started_at: row.started_at,
        ended_at: row.ended_at,
        duration_minutes: row.duration_minutes,
        distance_miles: row.distance_miles,
        notes: row.notes,
        metadata: row.metadata,
        flight: if seen_before(legs, i) {
            None
        } else {
            flight_of_leg(flights, row.id)
        },
        drive: if seen_before(legs, i) {
            None
        } else {
            match drive_row_of_leg(drives, row.id) {
                Some(d) => Some(drive_of(d)),
                None => None,
            }
        },
    }
}

/// The ids of the places the legs name, origin before destination, leg by leg.
pub open spec fn endpoint_ids(legs: Seq<LegRow>) -> Seq<i64>
    decreases legs.len(),
{
    if legs.len() == 0 {
        Seq::empty()
    } else {
        let last = legs.last();
        let origin = match last.origin_place_id {
            Some(id) => seq![id],
            None => Seq::empty(),
        };
        let destination = match last.destination_place_id {
            Some(id) => seq![id],
            None => Seq::empty(),
        };
        endpoint_ids(legs.drop_last()) + origin + destination
    }
}

fn copy_text(value: &Option<String>) -> (r: Option<String>)
    ensures
        r == *value,
{
    match value {
        Some(s) => Some(s.clone()),
        None => None,
    }
}

impl PlaceResponse {
    /// An equal, separately owned place.
    pub fn duplicate(&self) -> (r: Self)
        ensures
            r == *self,
    {
        PlaceResponse {
            id: self.id,
            name: self.name.clone(),
            kind: self.kind.clone(),
            iata_code: copy_text(&self.iata_code),
            city: copy_text(&self.city),
            country_code: copy_text(&self.country_code),
            latitude: self.latitude,
            longitude: self.longitude,
            timezone: copy_text(&self.timezone),
        }
    }
}

impl FlightResponse {
    /// An equal, separately owned flight.
    pub fn duplicate(&self) -> (r: Self)
        ensures
            r == *self,
    {
        FlightResponse {
            leg_id: self.leg_id,
            flight_id: self.flight_id,
            airline_id: self.airline_id,
            flight_number: self.flight_number.clone(),
            origin_airport_id: self.origin_airport_id,
            destination_airport_id: self.destination_airport_id,
            distance_miles: self.distance_miles,
            scheduled_departure_at: self.scheduled_departure_at,
            scheduled_arrival_at: self.scheduled_arrival_at,
            status: self.status.clone(),
            seat: copy_text(&self.seat),
            cabin: copy_text(&self.cabin),
            booking_reference: copy_text(&self.booking_reference),
            ticket_number: copy_text(&self.ticket_number),
        }
    }
}

/// Split a drive row into the drive and, when one is attached, its vehicle.
pub fn drive_response(row: &DriveRow) -> (r: DriveResponse)
    ensures
        r == drive_of(*row),
{
    let vehicle = match row.vehicle_id {
        Some(id) => Some(
            VehicleResponse {
                id,
                nickname: copy_text(&row.nickname),
                make: copy_text(&row.make),
                model: copy_text(&row.model),
                year: row.year,
            },
        ),
        None => None,
    };
    DriveResponse {
        vehicle,
        role: copy_text(&row.role),
        route_polyline: copy_text(&row.route_polyline),
    }
}

fn find_place(places: &Vec<PlaceResponse>, id: Option<i64>) -> (r: Option<PlaceResponse>)
    ensures
        r == endpoint(places@, id),
{
    let key = match id {
        Some(k) => k,
        None => return None,
    };
    proof {
        assert(places@.subrange(0, places@.len() as int) =~= places@);
    }
    let mut i = places.len();
    while i > 0
        invariant
            i <= places@.len(),
            id == Some(key),
            place_with_id(places@, key) == place_with_id(places@.subrange(0, i as int), key),
        decreases i,
    {
        proof {
            let s = places@.subrange(0, i as int);
            assert(s.drop_last() =~= places@.subrange(0, i - 1));
        }
        if places[i - 1].id == key {
            return Some(places[i - 1].duplicate());
        }
        i = i - 1;
    }
    None
}

fn find_flight(flights: &Vec<FlightResponse>, leg: u128) -> (r: Option<FlightResponse>)
    ensures
        r == flight_of_leg(flights@, leg),
{
    proof {
        assert(flights@.subrange(0, flights@.len() as int) =~= flights@);
    }
    let mut i = flights.len();
    while i > 0
        invariant
            i <= flights@.len(),
            flight_of_leg(flights@, leg) == flight_of_leg(flights@.subrange(0, i as int), leg),
        decreases i,
    {
        proof {
            let s = flights@.subrange(0, i as int);
            assert(s.drop_last() =~= flights@.subrange(0, i - 1));
        }
        if flights[i - 1].leg_id == leg {
            return Some(flights[i - 1].duplicate());
        }
        i = i - 1;
    }
    None
}

fn find_drive(drives: &Vec<DriveRow>, leg: u128) -> (r: Option<DriveResponse>)
    ensures
        r == (match drive_row_of_leg(drives@, leg) {
            Some(d) => Some(drive_of(d)),
            None => None,
        }),
{
    proof {
        assert(drives@.subrange(0, drives@.len() as int) =~= drives@);
    }
    let mut i = drives.len();
    while i > 0
        invariant
            i <= drives@.len(),
            drive_row_of_leg(drives@, leg) == drive_row_of_leg(drives@.subrange(0, i as int), leg),
        decreases i,
    {
        proof {
            let s = drives@.subrange(0, i as int);
            assert(s.drop_last() =~= drives@.subrange(0, i - 1));
        }
        if drives[i - 1].leg_id == leg {
            return Some(drive_response(&drives[i - 1]));
        }
        i = i - 1;
    }
    None
}

fn leg_seen_before(legs: &Vec<LegRow>, i: usize) -> (r: bool)
    requires
        i < legs@.len(),
    ensures
        r == seen_before(legs@, i as int),
{
    let mut j: usize = 0;
    while j < i
        invariant
            j <= i < legs@.len(),
            forall|k: int| 0 <= k < j ==> legs@[k].id != legs@[i as int].id,
        decreases i - j,
    {
        if legs[j].id == legs[i].id {
            return true;
        }
        j = j + 1;
    }
    false
}

/// The ids every leg was written with, in leg order: what the flight and drive
/// reads look up.
pub fn leg_ids(legs: &Vec<LegRow>) -> (r: Vec<u128>)
    ensures
        r@ == legs@.map_values(|l: LegRow| l.id),
{
    let mut ids: Vec<u128> = Vec::new();
    let mut i: usize = 0;
    while i < legs.len()
        invariant
            i <= legs@.len(),
            ids@ == legs@.subrange(0, i as int).map_values(|l: LegRow| l.id),
        decreases legs@.len() - i,
    {
        ids.push(legs[i].id);
        proof {
            assert(ids@ =~= legs@.subrange(0, i + 1).map_values(|l: LegRow| l.id));
        }
        i = i + 1;
    }
    proof {
        assert(legs@.subrange(0, legs@.len() as int) =~= legs@);
    }
    ids
}

/// The places the legs name, origin before destination, leg by leg: what the
/// place read looks up.
pub fn endpoint_place_ids(legs: &Vec<LegRow>) -> (r: Vec<i64>)
    ensures
        r@ == endpoint_ids(legs@),
{
    let mut ids: Vec<i64> = Vec::new();
    let mut i: usize = 0;
    while i < legs.len()
        invariant
            i <= legs@.len(),
            ids@ == endpoint_ids(legs@.subrange(0, i as int)),
        decreases legs@.len() - i,
    {
        let ghost before = ids@;
        let leg = &legs[i];
        match leg.origin_place_id {
            Some(id) => ids.push(id),
            None => {},
        }
        match leg.destination_place_id {
            Some(id) => ids.push(id),
            None => {},
        }
        proof {
            let s = legs@.subrange(0, i + 1);
            assert(s.drop_last() =~= legs@.subrange(0, i as int));
            let origin = match s.last().origin_place_id {
                Some(id) => seq![id],
                None => Seq::<i64>::empty(),
            };
            let destination = match s.last().destination_place_id {
                Some(id) => seq![id],
                None => Seq::<i64>::empty(),
            };
            assert(ids@ =~= before + origin + destination);
        }
        i = i + 1;
    }
    proof {
        assert(legs@.subrange(0, legs@.len() as int) =~= legs@);
    }
    ids
}

/// Put a journey together from what its reads returned: each leg, in the order
/// read, with its origin and destination looked up among `places`, and its
/// flight and drive among `flights` and `drives` by leg id.
pub fn assemble(
    journey: Journey,
    totals: JourneyTotals,
    legs: Vec<LegRow>,
    places: Vec<PlaceResponse>,
    flights: Vec<FlightResponse>,
    drives: Vec<DriveRow>,
) -> (r: JourneyResponse)
    ensures
        r.journey == journey,
        r.totals == totals,
        r.segments@.len() == legs@.len(),
        forall|i: int|
            0 <= i < legs@.len() ==> #[trigger] r.segments@[i] == segment_of(
                legs@,
                i,
                places@,
                flights@,
                drives@,
            ),
{
    let mut segments: Vec<SegmentResponse> = Vec::new();
    let mut i: usize = 0;
    while i < legs.len()
        invariant
            i <= legs@.len(),
            segments@.len() == i,
            forall|k: int|
                0 <= k < i ==> #[trigger] segments@[k] == segment_of(
                    legs@,
                    k,
                    places@,
                    flights@,
                    drives@,
                ),
        decreases legs@.len() - i,
    {
        let row = &legs[i];
        let seen = leg_seen_before(&legs, i);
        let flight = if seen {
            None
        } else {
            find_flight(&flights, row.id)
        };
        let drive = if seen {
            None
        } else {
            find_drive(&drives, row.id)
        };
        let segment = SegmentResponse {
            id: row.id,
            position: row.position,
            mode: row.mode.clone(),
            origin: find_place(&places, row.origin_place_id),
            destination: find_place(&places, row.destination_place_id),
            started_at: row.started_at,
            ended_at: row.ended_at,
            duration_minutes: row.duration_minutes,
            distance_miles: row.distance_miles,
            notes: copy_text(&row.notes),
            metadata: row.metadata.clone(),
            flight,
            drive,
        };
        segments.push(segment);
        i = i + 1;
    }
    JourneyResponse { journey, totals, segments }
}

proof fn lemma_place_with_id(places: Seq<PlaceResponse>, id: i64)
    ensures
        place_with_id(places, id) matches Some(p) ==> p.id == id && places.contains(p),
        (exists|k: int| 0 <= k < places.len() && #[trigger] places[k].id == id) ==> place_with_id(
            places,
            id,
        ) is Some,
    decreases places.len(),
{
    if places.len() > 0 {
        let rest = places.drop_last();
        lemma_place_with_id(rest, id);
        if place_with_id(places, id) is Some && places.last().id != id {
            let p = place_with_id(rest, id)->0;
            let k = choose|k: int| 0 <= k < rest.len() && rest[k] == p;
            assert(places[k] == p);
        }
        if exists|k: int| 0 <= k < places.len() && #[trigger] places[k].id == id {
            let k = choose|k: int| 0 <= k < places.len() && #[trigger] places[k].id == id;
            if k < places.len() - 1 {
                assert(rest[k].id == id);
            }
        }
        if places.last().id == id {
            assert(places[places.len() - 1] == places.last());
        }
    }
}

proof fn lemma_flight_of_leg(flights: Seq<FlightResponse>, leg: u128)
    ensures
        flight_of_leg(flights, leg) matches Some(f) ==> f.leg_id == leg && flights.contains(f),
        (exists|k: int| 0 <= k < flights.len() && #[trigger] flights[k].leg_id == leg)
            ==> flight_of_leg(flights, leg) is Some,
    decreases flights.len(),
{
    if flights.len() > 0 {
        let rest = flights.drop_last();
        lemma_flight_of_leg(rest, leg);
        if flight_of_leg(flights, leg) is Some && flights.last().leg_id != leg {
            let f = flight_of_leg(rest, leg)->0;
            let k = choose|k: int| 0 <= k < rest.len() && rest[k] == f;
            assert(flights[k] == f);
        }
        if exists|k: int| 0 <= k < flights.len() && #[trigger] flights[k].leg_id == leg {
            let k = choose|k: int| 0 <= k < flights.len() && #[trigger] flights[k].leg_id == leg;
            if k < flights.len() - 1 {
                assert(rest[k].leg_id == leg);
            }
        }
        if flights.last().leg_id == leg {
            assert(flights[flights.len() - 1] == flights.last());
        }
    }
}

proof fn lemma_drive_row_of_leg(drives: Seq<DriveRow>, leg: u128)
    ensures
        drive_row_of_leg(drives, leg) matches Some(d) ==> d.leg_id == leg && drives.contains(d),
    decreases drives.len(),
{
    if drives.len() > 0 {
        let rest = drives.drop_last();
        lemma_drive_row_of_leg(rest, leg);
        if drive_row_of_leg(drives, leg) is Some && drives.last().leg_id != leg {
            let d = drive_row_of_leg(rest, leg)->0;
            let k = choose|k: int| 0 <= k < rest.len() && rest[k] == d;
            assert(drives[k] == d);
        }
        if drives.last().leg_id == leg {
            assert(drives[drives.len() - 1] == drives.last());
        }
    }
}

/// Each segment read back is the leg it was built from: the same id,
/// position, mode, times, duration, distance, notes and metadata. Its origin
/// and destination are places read under the leg's own place ids, and are
/// there whenever such a place was read; its flight and drive, when it has
/// them, were read for that leg.
pub proof fn law_segments_are_their_legs(
    legs: Seq<LegRow>,
    places: Seq<PlaceResponse>,
    flights: Seq<FlightResponse>,
    drives: Seq<DriveRow>,
    i: int,
)
    requires
        0 <= i < legs.len(),
    ensures
        segment_of(legs, i, places, flights, drives).id == legs[i].id,
        segment_of(legs, i, places, flights, drives).position == legs[i].position,
        segment_of(legs, i, places, flights, drives).mode == legs[i].mode,
        segment_of(legs, i, places, flights, drives).started_at == legs[i].started_at,
        segment_of(legs, i, places, flights, drives).ended_at == legs[i].ended_at,
        segment_of(legs, i, places, flights, drives).duration_minutes == legs[i].duration_minutes,
        segment_of(legs, i, places, flights, drives).distance_miles == legs[i].distance_miles,
        segment_of(legs, i, places, flights, drives).notes == legs[i].notes,
        segment_of(legs, i, places, flights, drives).metadata == legs[i].metadata,
        segment_of(legs, i, places, flights, drives).origin matches Some(p) ==> legs[i].origin_place_id
            == Some(p.id) && places.contains(p),
        segment_of(legs, i, places, flights, drives).destination matches Some(p)
            ==> legs[i].destination_place_id == Some(p.id) && places.contains(p),
        legs[i].origin_place_id matches Some(id) ==> ((exists|k: int|
            0 <= k < places.len() && #[trigger] places[k].id == id) ==> segment_of(
            legs,
            i,
            places,
            flights,
            drives,
        ).origin is Some),
        legs[i].destination_place_id matches Some(id) ==> ((exists|k: int|
            0 <= k < places.len() && #[trigger] places[k].id == id) ==> segment_of(
            legs,
            i,
            places,
            flights,
            drives,
        ).destination is Some),
        segment_of(legs, i, places, flights, drives).flight matches Some(f) ==> f.leg_id
            == legs[i].id && flights.contains(f),
        segment_of(legs, i, places, flights, drives).drive matches Some(d) ==> exists|row: DriveRow|
            row.leg_id == legs[i].id && drives.contains(row) && d == #[trigger] drive_of(row),
{
    let row = legs[i];
    match row.origin_place_id {
        Some(id) => lemma_place_with_id(places, id),
        None => {},
    }
    match row.destination_place_id {
        Some(id) => lemma_place_with_id(places, id),
        None => {},
    }
    lemma_flight_of_leg(flights, row.id);
    lemma_drive_row_of_leg(drives, row.id);
    let s = segment_of(legs, i, places, flights, drives);
    if s.drive is Some {
        let r = drive_row_of_leg(drives, row.id)->0;
        assert(s.drive->0 == drive_of(r));
    }
}

} // verus!
