//! `airports`, and the get-or-create behind an airport reference.

use vstd::prelude::*;
use vstd::string::*;

use crate::error::{has_code, unique_violation_code, unique_violation_on, ApiError, DbError};
use crate::flight::{ResolvedAirport, ValidatedAirport};
use crate::sql_builder::insert::{do_nothing_clause, insert_sql, lemma_writes_at, writes, Insert, InsertView};
use crate::sql_builder::params::placeholder;
use crate::sql_builder::query::Query;
use crate::sql_builder::select::{select_sql, Select, SelectView};
use crate::sql_builder::value::{SqlValue, SqlValueView};
use crate::store::steps::{
    cast, conflict_with, opt_text, placeholders, runs_insert, runs_select, single_error, text, Stage,
    Step,
};
use crate::text::{concat, concat3};

verus! {

/// What a [`ResolvedAirport`] is made of, for the read and the insert alike.
/// The coordinates are `DECIMAL(9,6)`, read back as `float8`.
pub const RESOLVED_COLUMNS: [&'static str; 3] = [
    "id",
    "latitude::float8 AS latitude",
    "longitude::float8 AS longitude",
];

pub open spec fn resolved_columns() -> Seq<Seq<char>> {
    seq!["id"@, "latitude::float8 AS latitude"@, "longitude::float8 AS longitude"@]
}

/// The read of an airport by its IATA code.
pub open spec fn select_view(iata_code: Seq<char>) -> SelectView {
    SelectView {
        from: "airports"@,
        columns: resolved_columns(),
        joins: Seq::empty(),
        conditions: seq!["iata_code"@ + " = "@ + placeholder(1)],
        order_by: None,
        params: seq![text(iata_code)],
    }
}

/// The insert-if-absent of an airport, under the name the caller gave it.
pub open spec fn insert_view(a: ValidatedAirport, name: Seq<char>) -> InsertView {
    InsertView {
        table: "airports"@,
        columns: seq![
            "iata_code"@,
            "icao_code"@,
            "name"@,
            "city"@,
            "country_code"@,
            "latitude"@,
            "longitude"@,
            "timezone"@,
        ],
        values: placeholders(5) + seq![
            cast(6, "float8::numeric"@),
            cast(7, "float8::numeric"@),
            placeholder(8),
        ],
        on_conflict: Some(do_nothing_clause(seq!["iata_code"@])),
        returning: resolved_columns(),
        params: seq![
            text(a.iata_code@),
            opt_text(a.icao_code),
            text(name),
            opt_text(a.city),
            opt_text(a.country_code),
            SqlValueView::Float8(a.latitude),
            SqlValueView::Float8(a.longitude),
            opt_text(a.timezone),
        ],
    }
}

/// An unknown airport can only be inserted with a name.
pub open spec fn missing_name_message(field: Seq<char>, iata_code: Seq<char>) -> Seq<char> {
    field + ".name is required: airport "@ + iata_code + " is not in the database yet"@
}

/// The ICAO code is unique too, and belongs to whichever airport has it.
pub open spec fn icao_taken_message(field: Seq<char>) -> Seq<char> {
    field + ".icao_code already belongs to a different airport"@
}

/// The insert conflicted, yet the read after it found nothing.
pub open spec fn race_message(iata_code: Seq<char>) -> Seq<char> {
    "airport "@ + iata_code + " is being created by another request; retry"@
}

/// Find the airport by IATA code.
pub fn select(iata_code: &str) -> (r: Query)
    ensures
        runs_select(r, select_view(iata_code@)),
{
    let built = Select::from("airports").columns(&RESOLVED_COLUMNS).where_eq("iata_code", iata_code);
    proof {
        let v = select_view(iata_code@);
        assert(built@.columns =~= v.columns);
        assert(built@.conditions =~= v.conditions);
        assert(built@.params =~= v.params);
        assert(built@.joins =~= v.joins);
        assert(built@ == v);
    }
    built.into_query()
}

/// Insert the airport unless one with its IATA code exists, reading back what
/// a [`ResolvedAirport`] is made of.
pub fn insert(airport: &ValidatedAirport, name: &str) -> (r: Query)
    ensures
        runs_insert(r, insert_view(*airport, name@)),
{
    let built = Insert::into("airports")
        .set("iata_code", &airport.iata_code)
        .set("icao_code", &airport.icao_code)
        .set("name", name)
        .set("city", &airport.city)
        .set("country_code", &airport.country_code)
        .set_cast("latitude", SqlValue::Float8(airport.latitude), "float8::numeric")
        .set_cast("longitude", SqlValue::Float8(airport.longitude), "float8::numeric")
        .set("timezone", &airport.timezone)
        .on_conflict_do_nothing(&["iata_code"])
        .returning(&RESOLVED_COLUMNS);
    proof {
        let v = insert_view(*airport, name@);
        reveal_with_fuel(placeholders, 6);
        assert(built@.columns =~= v.columns);
        assert(built@.values =~= v.values);
        assert(built@.returning =~= v.returning);
        assert(built@.params =~= v.params);
        assert(built@.on_conflict == v.on_conflict) by {
            assert(seq!["iata_code"].map_values(|s: &str| s@) =~= seq!["iata_code"@]);
        }
        assert(built@ == v);
    }
    built.into_query()
}

/// Where resolving `airport` starts: the read, which is the common case and
/// writes nothing.
pub fn start(airport: &ValidatedAirport) -> (r: Step<ResolvedAirport>)
    ensures
        r matches Step::Run(Stage::Lookup, q) && runs_select(q, select_view(airport.iata_code@)),
{
    Step::Run(Stage::Lookup, select(airport.iata_code.as_str()))
}

/// The next step of resolving `airport`, named `field` in the request, once
/// the statement run at `stage` has answered `reply`.
///
/// Read, insert-if-absent, read again: an unknown airport needs a name to be
/// inserted, a conflict on the insert means a concurrent request created it,
/// and the stored details always win over the request's.
pub fn advance(
    airport: &ValidatedAirport,
    field: &str,
    stage: Stage,
    reply: Result<Option<ResolvedAirport>, DbError>,
) -> (r: Step<ResolvedAirport>)
    ensures
        match reply {
            Err(e) => match stage {
                Stage::Insert => {
                    if has_code(e, unique_violation_code()) && e.constraint is Some
                        && e.constraint->0@ == "airports_icao_code_key"@ {
                        r matches Step::Failed(err) && conflict_with(err, icao_taken_message(field@))
                    } else {
                        r == Step::<ResolvedAirport>::Failed(ApiError::Database(e))
                    }
                },
                _ => r == Step::<ResolvedAirport>::Failed(ApiError::Database(e)),
            },
            Ok(Some(found)) => r == Step::Done(found),
            Ok(None) => match stage {
                Stage::Lookup => match airport.name {
                    Some(name) => r matches Step::Run(Stage::Insert, q) && runs_insert(
                        q,
                        insert_view(*airport, name@),
                    ),
                    None => r matches Step::Failed(err) && single_error(
                        err,
                        missing_name_message(field@, airport.iata_code@),
                    ),
                },
                Stage::Insert => r matches Step::Run(Stage::LookupAgain, q) && runs_select(
                    q,
                    select_view(airport.iata_code@),
                ),
                Stage::LookupAgain => r matches Step::Failed(err) && conflict_with(
                    err,
                    race_message(airport.iata_code@),
                ),
            },
        },
{
    match reply {
        Err(e) => {
            if stage == Stage::Insert {
                let message = concat(field, ".icao_code already belongs to a different airport");
                Step::Failed(unique_violation_on(e, "airports_icao_code_key", message))
            } else {
                Step::Failed(ApiError::Database(e))
            }
        },
        Ok(Some(found)) => Step::Done(found),
        Ok(None) => match stage {
            Stage::Lookup => match &airport.name {
                Some(name) => Step::Run(Stage::Insert, insert(airport, name.as_str())),
                None => {
                    let mut message = concat3(field, ".name is required: airport ", airport.iata_code.as_str());
                    message.append(" is not in the database yet");
                    Step::Failed(ApiError::Validation(vec![message]))
                },
            },
            Stage::Insert => Step::Run(Stage::LookupAgain, select(airport.iata_code.as_str())),
            Stage::LookupAgain => {
                let mut message = concat("airport ", airport.iata_code.as_str());
                message.append(" is being created by another request; retry");
                Step::Failed(ApiError::Conflict(message))
            },
        },
    }
}

/// An unknown airport is stored as the request describes it, under the name
/// given, each value under the column of its own name.
pub proof fn law_airport_insert_writes_each_value_to_its_column(a: ValidatedAirport, name: Seq<char>)
    ensures
        writes(insert_view(a, name), "iata_code"@, text(a.iata_code@)),
        writes(insert_view(a, name), "icao_code"@, opt_text(a.icao_code)),
        writes(insert_view(a, name), "name"@, text(name)),
        writes(insert_view(a, name), "city"@, opt_text(a.city)),
        writes(insert_view(a, name), "country_code"@, opt_text(a.country_code)),
        writes(insert_view(a, name), "latitude"@, SqlValueView::Float8(a.latitude)),
        writes(insert_view(a, name), "longitude"@, SqlValueView::Float8(a.longitude)),
        writes(insert_view(a, name), "timezone"@, opt_text(a.timezone)),
{
    let v = insert_view(a, name);
    reveal_strlit("city");
    reveal_strlit("country_code");
    reveal_strlit("iata_code");
    reveal_strlit("icao_code");
    reveal_strlit("latitude");
    reveal_strlit("longitude");
    reveal_strlit("name");
    reveal_strlit("timezone");
    assert(v.columns =~= seq!["iata_code"@, "icao_code"@, "name"@, "city"@, "country_code"@, "latitude"@, "longitude"@, "timezone"@]);
    assert forall|i: int| 0 <= i < v.columns.len() && i != 0 implies v.columns[i] != "iata_code"@ by {
        if i == 1 {
            assert(v.columns[1][1] != "iata_code"@[1]);
        } else if i == 2 {
            assert(v.columns[2].len() != "iata_code"@.len());
        } else if i == 3 {
            assert(v.columns[3].len() != "iata_code"@.len());
        } else if i == 4 {
            assert(v.columns[4].len() != "iata_code"@.len());
        } else if i == 5 {
            assert(v.columns[5].len() != "iata_code"@.len());
        } else if i == 6 {
            assert(v.columns[6][0] != "iata_code"@[0]);
        } else if i == 7 {
            assert(v.columns[7].len() != "iata_code"@.len());
        }
    }
    lemma_writes_at(v, 0, "iata_code"@, text(a.iata_code@));
    assert forall|i: int| 0 <= i < v.columns.len() && i != 1 implies v.columns[i] != "icao_code"@ by {
        if i == 0 {
            assert(v.columns[0][1] != "icao_code"@[1]);
        } else if i == 2 {
            assert(v.columns[2].len() != "icao_code"@.len());
        } else if i == 3 {
            assert(v.columns[3].len() != "icao_code"@.len());
        } else if i == 4 {
            assert(v.columns[4].len() != "icao_code"@.len());
        } else if i == 5 {
            assert(v.columns[5].len() != "icao_code"@.len());
        } else if i == 6 {
            assert(v.columns[6][0] != "icao_code"@[0]);
        } else if i == 7 {
            assert(v.columns[7].len() != "icao_code"@.len());
        }
    }
    lemma_writes_at(v, 1, "icao_code"@, opt_text(a.icao_code));
    assert forall|i: int| 0 <= i < v.columns.len() && i != 2 implies v.columns[i] != "name"@ by {
        if i == 0 {
            assert(v.columns[0].len() != "name"@.len());
        } else if i == 1 {
            assert(v.columns[1].len() != "name"@.len());
        } else if i == 3 {
            assert(v.columns[3][0] != "name"@[0]);
        } else if i == 4 {
            assert(v.columns[4].len() != "name"@.len());
        } else if i == 5 {
            assert(v.columns[5].len() != "name"@.len());
        } else if i == 6 {
            assert(v.columns[6].len() != "name"@.len());
        } else if i == 7 {
            assert(v.columns[7].len() != "name"@.len());
        }
    }
    lemma_writes_at(v, 2, "name"@, text(name));
    assert forall|i: int| 0 <= i < v.columns.len() && i != 3 implies v.columns[i] != "city"@ by {
        if i == 0 {
            assert(v.columns[0].len() != "city"@.len());
        } else if i == 1 {
            assert(v.columns[1].len() != "city"@.len());
        } else if i == 2 {
            assert(v.columns[2][0] != "city"@[0]);
        } else if i == 4 {
            assert(v.columns[4].len() != "city"@.len());
        } else if i == 5 {
            assert(v.columns[5].len() != "city"@.len());
        } else if i == 6 {
            assert(v.columns[6].len() != "city"@.len());
        } else if i == 7 {
            assert(v.columns[7].len() != "city"@.len());
        }
    }
    lemma_writes_at(v, 3, "city"@, opt_text(a.city));
    assert forall|i: int| 0 <= i < v.columns.len() && i != 4 implies v.columns[i] != "country_code"@ by {
        if i == 0 {
            assert(v.columns[0].len() != "country_code"@.len());
        } else if i == 1 {
            assert(v.columns[1].len() != "country_code"@.len());
        } else if i == 2 {
            assert(v.columns[2].len() != "country_code"@.len());
        } else if i == 3 {
            assert(v.columns[3].len() != "country_code"@.len());
        } else if i == 5 {
            assert(v.columns[5].len() != "country_code"@.len());
        } else if i == 6 {
            assert(v.columns[6].len() != "country_code"@.len());
        } else if i == 7 {
            assert(v.columns[7].len() != "country_code"@.len());
        }
    }
    lemma_writes_at(v, 4, "country_code"@, opt_text(a.country_code));
    assert forall|i: int| 0 <= i < v.columns.len() && i != 5 implies v.columns[i] != "latitude"@ by {
        if i == 0 {
            assert(v.columns[0].len() != "latitude"@.len());
        } else if i == 1 {
            assert(v.columns[1].len() != "latitude"@.len());
        } else if i == 2 {
            assert(v.columns[2].len() != "latitude"@.len());
        } else if i == 3 {
            assert(v.columns[3].len() != "latitude"@.len());
        } else if i == 4 {
            assert(v.columns[4].len() != "latitude"@.len());
        } else if i == 6 {
            assert(v.columns[6].len() != "latitude"@.len());
        } else if i == 7 {
            assert(v.columns[7][0] != "latitude"@[0]);
        }
    }
    lemma_writes_at(v, 5, "latitude"@, SqlValueView::Float8(a.latitude));
    assert forall|i: int| 0 <= i < v.columns.len() && i != 6 implies v.columns[i] != "longitude"@ by {
        if i == 0 {
            assert(v.columns[0][0] != "longitude"@[0]);
        } else if i == 1 {
            assert(v.columns[1][0] != "longitude"@[0]);
        } else if i == 2 {
            assert(v.columns[2].len() != "longitude"@.len());
        } else if i == 3 {
            assert(v.columns[3].len() != "longitude"@.len());
        } else if i == 4 {
            assert(v.columns[4].len() != "longitude"@.len());
        } else if i == 5 {
            assert(v.columns[5].len() != "longitude"@.len());
        } else if i == 7 {
            assert(v.columns[7].len() != "longitude"@.len());
        }
    }
    lemma_writes_at(v, 6, "longitude"@, SqlValueView::Float8(a.longitude));
    assert forall|i: int| 0 <= i < v.columns.len() && i != 7 implies v.columns[i] != "timezone"@ by {
        if i == 0 {
            assert(v.columns[0].len() != "timezone"@.len());
        } else if i == 1 {
            assert(v.columns[1].len() != "timezone"@.len());
        } else if i == 2 {
            assert(v.columns[2].len() != "timezone"@.len());
        } else if i == 3 {
            assert(v.columns[3].len() != "timezone"@.len());
        } else if i == 4 {
            assert(v.columns[4].len() != "timezone"@.len());
        } else if i == 5 {
            assert(v.columns[5][0] != "timezone"@[0]);
        } else if i == 6 {
            assert(v.columns[6].len() != "timezone"@.len());
        }
    }
    lemma_writes_at(v, 7, "timezone"@, opt_text(a.timezone));
}

} // verus!
