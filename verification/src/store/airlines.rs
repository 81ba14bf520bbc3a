//! `airlines`, on the same get-or-create terms as airports.

use vstd::prelude::*;
use vstd::string::*;

use crate::error::{has_code, unique_violation_code, unique_violation_on, ApiError, DbError};
use crate::flight::ValidatedAirline;
use crate::sql_builder::insert::{do_nothing_clause, lemma_writes_at, writes, Insert, InsertView};
use crate::sql_builder::params::placeholder;
use crate::sql_builder::query::Query;
use crate::sql_builder::select::{Select, SelectView};
use crate::store::steps::{
    conflict_with, opt_text, placeholders, runs_insert, runs_select, single_error, text, Stage,
    Step,
};
use crate::text::{concat, concat3};

verus! {

/// The read of an airline's id by its IATA code.
pub open spec fn select_view(iata_code: Seq<char>) -> SelectView {
    SelectView {
        from: "airlines"@,
        columns: seq!["id"@],
        joins: Seq::empty(),
        conditions: seq!["iata_code"@ + " = "@ + placeholder(1)],
        order_by: None,
        params: seq![text(iata_code)],
    }
}

/// The insert-if-absent of an airline, under the name the caller gave it.
pub open spec fn insert_view(a: ValidatedAirline, name: Seq<char>) -> InsertView {
    InsertView {
        table: "airlines"@,
        columns: seq!["iata_code"@, "icao_code"@, "name"@],
        values: placeholders(3),
        on_conflict: Some(do_nothing_clause(seq!["iata_code"@])),
        returning: seq!["id"@],
        params: seq![text(a.iata_code@), opt_text(a.icao_code), text(name)],
    }
}

pub open spec fn missing_name_message(iata_code: Seq<char>) -> Seq<char> {
    "airline.name is required: airline "@ + iata_code + " is not in the database yet"@
}

pub open spec fn icao_taken_message() -> Seq<char> {
    "airline.icao_code already belongs to a different airline"@
}

pub open spec fn race_message(iata_code: Seq<char>) -> Seq<char> {
    "airline "@ + iata_code + " is being created by another request; retry"@
}

/// Find the airline's id by IATA code.
pub fn select(iata_code: &str) -> (r: Query)
    ensures
        runs_select(r, select_view(iata_code@)),
{
    let built = Select::from("airlines").columns(&["id"]).where_eq("iata_code", iata_code);
    proof {
        let v = select_view(iata_code@);
        assert(built@.columns =~= v.columns);
        assert(built@.conditions =~= v.conditions);
        assert(built@.params =~= v.params);
        assert(built@.joins =~= v.joins);
        assert(built@ == v);
    }
    built.into_query()
}

/// Insert the airline unless one with its IATA code exists.
pub fn insert(airline: &ValidatedAirline, name: &str) -> (r: Query)
    ensures
        runs_insert(r, insert_view(*airline, name@)),
{
    let built = Insert::into("airlines")
        .set("iata_code", &airline.iata_code)
        .set("icao_code", &airline.icao_code)
        .set("name", name)
        .on_conflict_do_nothing(&["iata_code"])
        .returning(&["id"]);
    proof {
        let v = insert_view(*airline, name@);
        reveal_with_fuel(placeholders, 4);
        assert(built@.columns =~= v.columns);
        assert(built@.values =~= v.values);
        assert(built@.returning =~= v.returning);
        assert(built@.params =~= v.params);
        assert(built@.on_conflict == v.on_conflict) by {
            assert(seq!["iata_code"].map_values(|s: &str| s@) =~= seq!["iata_code"@]);
        }
        assert(built@ == v);
    }
    built.into_query()
}

/// Where resolving `airline` starts: the read.
pub fn start(airline: &ValidatedAirline) -> (r: Step<i64>)
    ensures
        r matches Step::Run(Stage::Lookup, q) && runs_select(q, select_view(airline.iata_code@)),
{
    Step::Run(Stage::Lookup, select(airline.iata_code.as_str()))
}

/// The next step of resolving `airline` to its id, once the statement run at
/// `stage` has answered `reply`: read, insert-if-absent, read again, as for
/// airports.
pub fn advance(airline: &ValidatedAirline, stage: Stage, reply: Result<Option<i64>, DbError>) -> (r:
    Step<i64>)
    ensures
        match reply {
            Err(e) => match stage {
                Stage::Insert => {
                    if has_code(e, unique_violation_code()) && e.constraint is Some
                        && e.constraint->0@ == "airlines_icao_code_key"@ {
                        r matches Step::Failed(err) && conflict_with(err, icao_taken_message())
                    } else {
                        r == Step::<i64>::Failed(ApiError::Database(e))
                    }
                },
                _ => r == Step::<i64>::Failed(ApiError::Database(e)),
            },
            Ok(Some(id)) => r == Step::Done(id),
            Ok(None) => match stage {
                Stage::Lookup => match airline.name {
                    Some(name) => r matches Step::Run(Stage::Insert, q) && runs_insert(
                        q,
                        insert_view(*airline, name@),
                    ),
                    None => r matches Step::Failed(err) && single_error(
                        err,
                        missing_name_message(airline.iata_code@),
                    ),
                },
                Stage::Insert => r matches Step::Run(Stage::LookupAgain, q) && runs_select(
                    q,
                    select_view(airline.iata_code@),
                ),
                Stage::LookupAgain => r matches Step::Failed(err) && conflict_with(
                    err,
                    race_message(airline.iata_code@),
                ),
            },
        },
{
    match reply {
        Err(e) => {
            if stage == Stage::Insert {
                let message = String::from_str(
                    "airline.icao_code already belongs to a different airline",
                );
                Step::Failed(unique_violation_on(e, "airlines_icao_code_key", message))
            } else {
                Step::Failed(ApiError::Database(e))
            }
        },
        Ok(Some(id)) => Step::Done(id),
        Ok(None) => match stage {
            Stage::Lookup => match &airline.name {
                Some(name) => Step::Run(Stage::Insert, insert(airline, name.as_str())),
                None => {
                    let message = concat3(
                        "airline.name is required: airline ",
                        airline.iata_code.as_str(),
                        " is not in the database yet",
                    );
                    Step::Failed(ApiError::Validation(vec![message]))
                },
            },
            Stage::Insert => Step::Run(Stage::LookupAgain, select(airline.iata_code.as_str())),
            Stage::LookupAgain => {
                let mut message = concat("airline ", airline.iata_code.as_str());
                message.append(" is being created by another request; retry");
                Step::Failed(ApiError::Conflict(message))
            },
        },
    }
}

/// An unknown airline is stored under the codes and name given, each value
/// under the column of its own name.
pub proof fn law_airline_insert_writes_each_value_to_its_column(a: ValidatedAirline, name: Seq<char>)
    ensures
        writes(insert_view(a, name), "iata_code"@, text(a.iata_code@)),
        writes(insert_view(a, name), "icao_code"@, opt_text(a.icao_code)),
        writes(insert_view(a, name), "name"@, text(name)),
{
    let v = insert_view(a, name);
    reveal_strlit("iata_code");
    reveal_strlit("icao_code");
    reveal_strlit("name");
    assert(v.columns =~= seq!["iata_code"@, "icao_code"@, "name"@]);
    assert forall|i: int| 0 <= i < v.columns.len() && i != 0 implies v.columns[i] != "iata_code"@ by {
        if i == 1 {
            assert(v.columns[1][1] != "iata_code"@[1]);
        } else if i == 2 {
            assert(v.columns[2].len() != "iata_code"@.len());
        }
    }
    lemma_writes_at(v, 0, "iata_code"@, text(a.iata_code@));
    assert forall|i: int| 0 <= i < v.columns.len() && i != 1 implies v.columns[i] != "icao_code"@ by {
        if i == 0 {
            assert(v.columns[0][1] != "icao_code"@[1]);
        } else if i == 2 {
            assert(v.columns[2].len() != "icao_code"@.len());
        }
    }
    lemma_writes_at(v, 1, "icao_code"@, opt_text(a.icao_code));
    assert forall|i: int| 0 <= i < v.columns.len() && i != 2 implies v.columns[i] != "name"@ by {
        if i == 0 {
            assert(v.columns[0].len() != "name"@.len());
        } else if i == 1 {
            assert(v.columns[1].len() != "name"@.len());
        }
    }
    lemma_writes_at(v, 2, "name"@, text(name));
}

} // verus!
