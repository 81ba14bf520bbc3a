//! `places`: the endpoint of any segment, whatever the mode.

use vstd::prelude::*;
use vstd::string::*;

use crate::error::{ApiError, DbError};
use crate::flight::{ValidatedAirport, ValidatedFlight};
use crate::journey::{airport_key, place_key, PlaceCache, ValidatedCustomPlace, ValidatedPlace};
use crate::sql_builder::insert::{lemma_writes_at, writes, Insert, InsertView};
use crate::sql_builder::params::placeholder;
use crate::sql_builder::query::Query;
use crate::sql_builder::select::{Select, SelectView};
use crate::sql_builder::value::{SqlValue, SqlValueView};
use crate::store::steps::{cast, opt_text, placeholders, runs_insert, runs_select, single_error, text};
use crate::text::{concat, concat3, signed_decimal, signed_decimal_string};

verus! {

/// Whether a place id exists, for the saved form.
pub open spec fn find_view(id: i64) -> SelectView {
    SelectView {
        from: "places"@,
        columns: seq!["id"@],
        joins: Seq::empty(),
        conditions: seq!["id"@ + " = "@ + placeholder(1)],
        order_by: None,
        params: seq![SqlValueView::BigInt(Some(id))],
    }
}

/// The place mirroring an airport.
pub open spec fn for_airport_view(airport_id: i64) -> SelectView {
    SelectView {
        from: "places"@,
        columns: seq!["id"@],
        joins: Seq::empty(),
        conditions: seq!["airport_id"@ + " = "@ + placeholder(1)],
        order_by: None,
        params: seq![SqlValueView::BigInt(Some(airport_id))],
    }
}

/// The insert of a place described inline by the caller. The coordinates go
/// in as `float8` and are cast to the column's `DECIMAL(9,6)`.
pub open spec fn insert_view(p: ValidatedCustomPlace) -> InsertView {
    InsertView {
        table: "places"@,
        columns: seq![
            "name"@,
            "kind"@,
            "address"@,
            "city"@,
            "country_code"@,
            "latitude"@,
            "longitude"@,
            "timezone"@,
        ],
        values: placeholders(5) + seq![
            cast(6, "float8::numeric"@),
            cast(7, "float8::numeric"@),
            placeholder(8),
        ],
        on_conflict: None,
        returning: seq!["id"@],
        params: seq![
            text(p.name@),
            text(p.kind@),
            opt_text(p.address),
            opt_text(p.city),
            opt_text(p.country_code),
            SqlValueView::Float8(p.latitude),
            SqlValueView::Float8(p.longitude),
            opt_text(p.timezone),
        ],
    }
}

pub open spec fn unknown_place_message(field: Seq<char>, id: i64) -> Seq<char> {
    field + ".id "@ + signed_decimal(id as int) + " is not a known place"@
}

pub open spec fn no_mirror_message(airport_id: i64) -> Seq<char> {
    "airport "@ + signed_decimal(airport_id as int)
        + " has no mirrored place; is the airports_sync_place trigger installed?"@
}

/// Find a place id.
pub fn find(id: i64) -> (r: Query)
    ensures
        runs_select(r, find_view(id)),
{
    let built = Select::from("places").columns(&["id"]).where_eq("id", id);
    proof {
        let v = find_view(id);
        assert(built@.columns =~= v.columns);
        assert(built@.conditions =~= v.conditions);
        assert(built@.params =~= v.params);
        assert(built@.joins =~= v.joins);
        assert(built@ == v);
    }
    built.into_query()
}

/// Insert a place described inline by the caller, reading back its id.
pub fn insert(place: &ValidatedCustomPlace) -> (r: Query)
    ensures
        runs_insert(r, insert_view(*place)),
{
    let built = Insert::into("places")
        .set("name", &place.name)
        .set("kind", &place.kind)
        .set("address", &place.address)
        .set("city", &place.city)
        .set("country_code", &place.country_code)
        .set_cast("latitude", SqlValue::Float8(place.latitude), "float8::numeric")
        .set_cast("longitude", SqlValue::Float8(place.longitude), "float8::numeric")
        .set("timezone", &place.timezone)
        .returning(&["id"]);
    proof {
        let v = insert_view(*place);
        reveal_with_fuel(placeholders, 6);
        assert(built@.columns =~= v.columns);
        assert(built@.values =~= v.values);
        assert(built@.returning =~= v.returning);
        assert(built@.params =~= v.params);
        assert(built@ == v);
    }
    built.into_query()
}

/// The place mirroring an airport. Every airport has exactly one, kept so by
/// the `airports_sync_place` trigger.
pub fn for_airport(airport_id: i64) -> (r: Query)
    ensures
        runs_select(r, for_airport_view(airport_id)),
{
    let built = Select::from("places").columns(&["id"]).where_eq("airport_id", airport_id);
    proof {
        let v = for_airport_view(airport_id);
        assert(built@.columns =~= v.columns);
        assert(built@.conditions =~= v.conditions);
        assert(built@.params =~= v.params);
        assert(built@.joins =~= v.joins);
        assert(built@ == v);
    }
    built.into_query()
}

/// What the read of a saved place, named `field` in the request, means: its
/// id, or a validation failure when there is no such place.
pub fn found(id: i64, field: &str, reply: Result<Option<i64>, DbError>) -> (r: Result<i64, ApiError>)
    ensures
        match reply {
            Err(e) => r == Err::<i64, ApiError>(ApiError::Database(e)),
            Ok(Some(found)) => r == Ok::<i64, ApiError>(found),
            Ok(None) => r matches Err(err) && single_error(err, unknown_place_message(field@, id)),
        },
{
    match reply {
        Err(e) => Err(ApiError::Database(e)),
        Ok(Some(found)) => Ok(found),
        Ok(None) => {
            let digits = signed_decimal_string(id);
            let mut message = concat3(field, ".id ", digits.as_str());
            message.append(" is not a known place");
            Err(ApiError::Validation(vec![message]))
        },
    }
}

/// What the read of an airport's mirrored place means: its id, or an internal
/// failure when the trigger that keeps one for every airport is missing.
pub fn mirrored(airport_id: i64, reply: Result<Option<i64>, DbError>) -> (r: Result<i64, ApiError>)
    ensures
        match reply {
            Err(e) => r == Err::<i64, ApiError>(ApiError::Database(e)),
            Ok(Some(found)) => r == Ok::<i64, ApiError>(found),
            Ok(None) => r matches Err(ApiError::Internal(m)) && m@ == no_mirror_message(airport_id),
        },
{
    match reply {
        Err(e) => Err(ApiError::Database(e)),
        Ok(Some(found)) => Ok(found),
        Ok(None) => {
            let digits = signed_decimal_string(airport_id);
            let mut message = concat("airport ", digits.as_str());
            message.append(" has no mirrored place; is the airports_sync_place trigger installed?");
            Err(ApiError::Internal(message))
        },
    }
}

/// How a place descriptor is to be resolved to a `places.id`.
#[derive(Debug)]
pub enum PlacePlan {
    /// This request already resolved the same place.
    Cached(i64),
    /// Check that the saved id exists, then hand the reply to [`found`].
    Saved(Query),
    /// Get-or-create the airport, then read its mirrored place.
    Airport,
    /// Insert the place and read back its id.
    Custom(Query),
}

/// How `place` is resolved, given what this request resolved so far: anything
/// already in `cache` under the place's key is reused, whatever its form.
pub fn plan(cache: &PlaceCache, place: &ValidatedPlace) -> (r: PlacePlan)
    ensures
        cache@.contains_key(place_key(*place)) ==> r == PlacePlan::Cached(cache@[place_key(*place)]),
        !cache@.contains_key(place_key(*place)) ==> match *place {
            ValidatedPlace::Saved(id) => r matches PlacePlan::Saved(q) && runs_select(q, find_view(id)),
            ValidatedPlace::Airport(_) => r is Airport,
            ValidatedPlace::Custom(c) => r matches PlacePlan::Custom(q) && runs_insert(
                q,
                insert_view(*c),
            ),
        },
{
    let key = place.cache_key();
    match cache.get(key.as_str()) {
        Some(id) => PlacePlan::Cached(id),
        None => match place {
            ValidatedPlace::Saved(id) => PlacePlan::Saved(find(*id)),
            ValidatedPlace::Airport(_) => PlacePlan::Airport,
            ValidatedPlace::Custom(c) => PlacePlan::Custom(insert(c)),
        },
    }
}

/// Remember that `place` resolved to `id`, so a later leg naming it reuses the
/// row instead of inserting a second one.
pub fn remember(cache: &mut PlaceCache, place: &ValidatedPlace, id: i64)
    ensures
        final(cache)@ == old(cache)@.insert(place_key(*place), id),
{
    let key = place.cache_key();
    cache.insert(key, id);
}

/// One waypoint described twice is one place: once the first description has
/// been resolved and remembered, a second description with the same name at
/// the same coordinates is planned as the place already resolved, however
/// differently its kind and city were given.
pub proof fn law_second_description_reuses_the_first(
    before: PlaceCache,
    after: PlaceCache,
    first: ValidatedCustomPlace,
    second: ValidatedCustomPlace,
    id: i64,
)
    requires
        after@ == before@.insert(place_key(ValidatedPlace::Custom(Box::new(first))), id),
        first.name@ == second.name@,
        first.latitude is Some,
        first.longitude is Some,
        first.latitude == second.latitude,
        first.longitude == second.longitude,
    ensures
        after@.contains_key(place_key(ValidatedPlace::Custom(Box::new(second)))),
        after@[place_key(ValidatedPlace::Custom(Box::new(second)))] == id,
{
    crate::journey::law_same_name_at_same_position_is_one_place(first, second);
}

/// An airport a flight leg seeded is one place: a later leg naming either of
/// the flight's airports is planned as the place the flight leg resolved.
pub proof fn law_seeded_airports_are_reused(
    before: PlaceCache,
    after: PlaceCache,
    flight: ValidatedFlight,
    origin_place_id: i64,
    destination_place_id: i64,
    named: ValidatedAirport,
)
    requires
        after@ == before@.insert(airport_key(flight.origin.iata_code@), origin_place_id).insert(
            airport_key(flight.destination.iata_code@),
            destination_place_id,
        ),
        named.iata_code@ == flight.origin.iata_code@ || named.iata_code@
            == flight.destination.iata_code@,
    ensures
        after@.contains_key(place_key(ValidatedPlace::Airport(Box::new(named)))),
        named.iata_code@ == flight.destination.iata_code@ ==> after@[place_key(
            ValidatedPlace::Airport(Box::new(named)),
        )] == destination_place_id,
        named.iata_code@ != flight.destination.iata_code@ ==> after@[place_key(
            ValidatedPlace::Airport(Box::new(named)),
        )] == origin_place_id,
{
    crate::journey::law_airport_endpoint_matches_seeded_key(named);
    if named.iata_code@ != flight.destination.iata_code@ {
        assert(airport_key(named.iata_code@) != airport_key(flight.destination.iata_code@)) by {
            let a = airport_key(named.iata_code@);
            let b = airport_key(flight.destination.iata_code@);
            if a == b {
                assert(named.iata_code@ =~= a.subrange("airport:"@.len() as int, a.len() as int));
                assert(flight.destination.iata_code@ =~= b.subrange(
                    "airport:"@.len() as int,
                    b.len() as int,
                ));
            }
        }
    }
}

/// A place described inline is stored as described, each value under the
/// column of its own name.
pub proof fn law_place_insert_writes_each_value_to_its_column(p: ValidatedCustomPlace)
    ensures
        writes(insert_view(p), "name"@, text(p.name@)),
        writes(insert_view(p), "kind"@, text(p.kind@)),
        writes(insert_view(p), "address"@, opt_text(p.address)),
        writes(insert_view(p), "city"@, opt_text(p.city)),
        writes(insert_view(p), "country_code"@, opt_text(p.country_code)),
        writes(insert_view(p), "latitude"@, SqlValueView::Float8(p.latitude)),
        writes(insert_view(p), "longitude"@, SqlValueView::Float8(p.longitude)),
        writes(insert_view(p), "timezone"@, opt_text(p.timezone)),
{
    let v = insert_view(p);
    reveal_strlit("address");
    reveal_strlit("city");
    reveal_strlit("country_code");
    reveal_strlit("kind");
    reveal_strlit("latitude");
    reveal_strlit("longitude");
    reveal_strlit("name");
    reveal_strlit("timezone");
    assert(v.columns =~= seq!["name"@, "kind"@, "address"@, "city"@, "country_code"@, "latitude"@, "longitude"@, "timezone"@]);
    assert forall|i: int| 0 <= i < v.columns.len() && i != 0 implies v.columns[i] != "name"@ by {
        if i == 1 {
            assert(v.columns[1][0] != "name"@[0]);
        } else if i == 2 {
            assert(v.columns[2].len() != "name"@.len());
        } else if i == 3 {
            assert(v.columns[3][0] != "name"@[0]);
        } else if i == 4 {
            assert(v.columns[4].len() != "name"@.len());
        } else if i == 5 {
            assert(v.columns[5].len() != "name"@.len());
        } else if i == 6 {
            assert(v.columns[6].len() != "name"@.len());
        } else if i == 7 {
            assert(v.columns[7].len() != "name"@.len());
        }
    }
    lemma_writes_at(v, 0, "name"@, text(p.name@));
    assert forall|i: int| 0 <= i < v.columns.len() && i != 1 implies v.columns[i] != "kind"@ by {
        if i == 0 {
            assert(v.columns[0][0] != "kind"@[0]);
        } else if i == 2 {
            assert(v.columns[2].len() != "kind"@.len());
        } else if i == 3 {
            assert(v.columns[3][0] != "kind"@[0]);
        } else if i == 4 {
            assert(v.columns[4].len() != "kind"@.len());
        } else if i == 5 {
            assert(v.columns[5].len() != "kind"@.len());
        } else if i == 6 {
            assert(v.columns[6].len() != "kind"@.len());
        } else if i == 7 {
            assert(v.columns[7].len() != "kind"@.len());
        }
    }
    lemma_writes_at(v, 1, "kind"@, text(p.kind@));
    assert forall|i: int| 0 <= i < v.columns.len() && i != 2 implies v.columns[i] != "address"@ by {
        if i == 0 {
            assert(v.columns[0].len() != "address"@.len());
        } else if i == 1 {
            assert(v.columns[1].len() != "address"@.len());
        } else if i == 3 {
            assert(v.columns[3].len() != "address"@.len());
        } else if i == 4 {
            assert(v.columns[4].len() != "address"@.len());
        } else if i == 5 {
            assert(v.columns[5].len() != "address"@.len());
        } else if i == 6 {
            assert(v.columns[6].len() != "address"@.len());
        } else if i == 7 {
            assert(v.columns[7].len() != "address"@.len());
        }
    }
    lemma_writes_at(v, 2, "address"@, opt_text(p.address));
    assert forall|i: int| 0 <= i < v.columns.len() && i != 3 implies v.columns[i] != "city"@ by {
        if i == 0 {
            assert(v.columns[0][0] != "city"@[0]);
        } else if i == 1 {
            assert(v.columns[1][0] != "city"@[0]);
        } else if i == 2 {
            assert(v.columns[2].len() != "city"@.len());
        } else if i == 4 {
            assert(v.columns[4].len() != "city"@.len());
        } else if i == 5 {
            assert(v.columns[5].len() != "city"@.len());
        } else if i == 6 {
            assert(v.columns[6].len() != "city"@.len());
        } else if i == 7 {
            assert(v.columns[7].len() != "city"@.len());
        }
    }
    lemma_writes_at(v, 3, "city"@, opt_text(p.city));
    assert forall|i: int| 0 <= i < v.columns.len() && i != 4 implies v.columns[i] != "country_code"@ by {
        if i == 0 {
            assert(v.columns[0].len() != "country_code"@.len());
        } else if i == 1 {
            assert(v.columns[1].len() != "country_code"@.len());
        } else if i == 2 {
            assert(v.columns[2].len() != "country_code"@.len());
        } else if i == 3 {
            assert(v.columns[3].len() != "country_code"@.len());
        } else if i == 5 {
            assert(v.columns[5].len() != "country_code"@.len());
        } else if i == 6 {
            assert(v.columns[6].len() != "country_code"@.len());
        } else if i == 7 {
            assert(v.columns[7].len() != "country_code"@.len());
        }
    }
    lemma_writes_at(v, 4, "country_code"@, opt_text(p.country_code));
    assert forall|i: int| 0 <= i < v.columns.len() && i != 5 implies v.columns[i] != "latitude"@ by {
        if i == 0 {
            assert(v.columns[0].len() != "latitude"@.len());
        } else if i == 1 {
            assert(v.columns[1].len() != "latitude"@.len());
        } else if i == 2 {
            assert(v.columns[2].len() != "latitude"@.len());
        } else if i == 3 {
            assert(v.columns[3].len() != "latitude"@.len());
        } else if i == 4 {
            assert(v.columns[4].len() != "latitude"@.len());
        } else if i == 6 {
            assert(v.columns[6].len() != "latitude"@.len());
        } else if i == 7 {
            assert(v.columns[7][0] != "latitude"@[0]);
        }
    }
    lemma_writes_at(v, 5, "latitude"@, SqlValueView::Float8(p.latitude));
    assert forall|i: int| 0 <= i < v.columns.len() && i != 6 implies v.columns[i] != "longitude"@ by {
        if i == 0 {
            assert(v.columns[0].len() != "longitude"@.len());
        } else if i == 1 {
            assert(v.columns[1].len() != "longitude"@.len());
        } else if i == 2 {
            assert(v.columns[2].len() != "longitude"@.len());
        } else if i == 3 {
            assert(v.columns[3].len() != "longitude"@.len());
        } else if i == 4 {
            assert(v.columns[4].len() != "longitude"@.len());
        } else if i == 5 {
            assert(v.columns[5].len() != "longitude"@.len());
        } else if i == 7 {
            assert(v.columns[7].len() != "longitude"@.len());
        }
    }
    lemma_writes_at(v, 6, "longitude"@, SqlValueView::Float8(p.longitude));
    assert forall|i: int| 0 <= i < v.columns.len() && i != 7 implies v.columns[i] != "timezone"@ by {
        if i == 0 {
            assert(v.columns[0].len() != "timezone"@.len());
        } else if i == 1 {
            assert(v.columns[1].len() != "timezone"@.len());
        } else if i == 2 {
            assert(v.columns[2].len() != "timezone"@.len());
        } else if i == 3 {
            assert(v.columns[3].len() != "timezone"@.len());
        } else if i == 4 {
            assert(v.columns[4].len() != "timezone"@.len());
        } else if i == 5 {
            assert(v.columns[5][0] != "timezone"@[0]);
        } else if i == 6 {
            assert(v.columns[6].len() != "timezone"@.len());
        }
    }
    lemma_writes_at(v, 7, "timezone"@, opt_text(p.timezone));
}

} // verus!
