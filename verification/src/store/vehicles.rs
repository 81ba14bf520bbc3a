//! `vehicles`: the car used, stored once per user and reused.

use vstd::prelude::*;
use vstd::string::*;

use crate::error::{ApiError, DbError};
use crate::journey::{ValidatedNewVehicle, ValidatedVehicle};
use crate::sql_builder::insert::{do_nothing_where_clause, lemma_writes_at, writes, Insert, InsertView};
use crate::sql_builder::params::placeholder;
use crate::sql_builder::query::Query;
use crate::sql_builder::select::{compares, Select, SelectView};
use crate::sql_builder::value::SqlValueView;
use crate::store::steps::{
    conflict_with, opt_text, placeholders, runs_insert, runs_select, single_error, text, Stage,
    Step,
};
use crate::text::{concat, concat3, signed_decimal, signed_decimal_string};

verus! {

/// A vehicle by id, scoped to its owner so one user cannot name another's car.
pub open spec fn find_for_user_view(user_id: u128, id: i64) -> SelectView {
    SelectView {
        from: "vehicles"@,
        columns: seq!["id"@],
        joins: Seq::empty(),
        conditions: seq!["id"@ + " = "@ + placeholder(1), "user_id"@ + " = "@ + placeholder(2)],
        order_by: None,
        params: seq![SqlValueView::BigInt(Some(id)), SqlValueView::Uuid(Some(user_id))],
    }
}

/// A vehicle by the nickname its owner gave it.
pub open spec fn find_by_nickname_view(user_id: u128, nickname: Seq<char>) -> SelectView {
    SelectView {
        from: "vehicles"@,
        columns: seq!["id"@],
        joins: Seq::empty(),
        conditions: seq!["user_id"@ + " = "@ + placeholder(1), "nickname"@ + " = "@ + placeholder(2)],
        order_by: None,
        params: seq![SqlValueView::Uuid(Some(user_id)), text(nickname)],
    }
}

/// The insert of a vehicle, doing nothing when its owner already has one by
/// that nickname.
pub open spec fn insert_view(user_id: u128, v: ValidatedNewVehicle) -> InsertView {
    InsertView {
        table: "vehicles"@,
        columns: seq!["user_id"@, "nickname"@, "make"@, "model"@, "year"@, "license_plate"@],
        values: placeholders(6),
        on_conflict: Some(
            do_nothing_where_clause(
                seq!["user_id"@, "nickname"@],
                "nickname IS NOT NULL"@,
            ),
        ),
        returning: seq!["id"@],
        params: seq![
            SqlValueView::Uuid(Some(user_id)),
            opt_text(v.nickname),
            opt_text(v.make),
            opt_text(v.model),
            SqlValueView::SmallInt(v.year),
            opt_text(v.license_plate),
        ],
    }
}

pub open spec fn not_owned_message(field: Seq<char>, id: i64) -> Seq<char> {
    field + ".id "@ + signed_decimal(id as int) + " is not a vehicle belonging to this user"@
}

pub open spec fn race_message(nickname: Seq<char>) -> Seq<char> {
    "vehicle "@ + nickname + " is being created by another request; retry"@
}

/// Find a vehicle by id among its owner's.
pub fn find_for_user(user_id: u128, id: i64) -> (r: Query)
    ensures
        runs_select(r, find_for_user_view(user_id, id)),
{
    let built = Select::from("vehicles").columns(&["id"]).where_eq("id", id).where_eq(
        "user_id",
        user_id,
    );
    proof {
        let v = find_for_user_view(user_id, id);
        assert(built@.columns =~= v.columns);
        assert(built@.conditions =~= v.conditions);
        assert(built@.params =~= v.params);
        assert(built@.joins =~= v.joins);
        assert(built@ == v);
    }
    built.into_query()
}

/// Find a vehicle by the nickname its owner gave it.
pub fn find_by_nickname(user_id: u128, nickname: &str) -> (r: Query)
    ensures
        runs_select(r, find_by_nickname_view(user_id, nickname@)),
{
    let built = Select::from("vehicles").columns(&["id"]).where_eq("user_id", user_id).where_eq(
        "nickname",
        nickname,
    );
    proof {
        let v = find_by_nickname_view(user_id, nickname@);
        assert(built@.columns =~= v.columns);
        assert(built@.conditions =~= v.conditions);
        assert(built@.params =~= v.params);
        assert(built@.joins =~= v.joins);
        assert(built@ == v);
    }
    built.into_query()
}

/// Insert a vehicle, or return no row when one with the same nickname already
/// exists for this user: the caller reads theirs instead.
pub fn insert(user_id: u128, vehicle: &ValidatedNewVehicle) -> (r: Query)
    ensures
        runs_insert(r, insert_view(user_id, *vehicle)),
{
    let built = Insert::into("vehicles")
        .set("user_id", user_id)
        .set("nickname", &vehicle.nickname)
        .set("make", &vehicle.make)
        .set("model", &vehicle.model)
        .set("year", vehicle.year)
        .set("license_plate", &vehicle.license_plate)
        .on_conflict_do_nothing_where(&["user_id", "nickname"], "nickname IS NOT NULL")
        .returning(&["id"]);
    proof {
        let v = insert_view(user_id, *vehicle);
        reveal_with_fuel(placeholders, 7);
        assert(built@.columns =~= v.columns);
        assert(built@.values =~= v.values);
        assert(built@.returning =~= v.returning);
        assert(built@.params =~= v.params);
        assert(built@.on_conflict == v.on_conflict) by {
            assert(seq!["user_id", "nickname"].map_values(|s: &str| s@) =~= seq![
                "user_id"@,
                "nickname"@,
            ]);
        }
        assert(built@ == v);
    }
    built.into_query()
}

/// Where resolving a vehicle starts. A saved id is looked up among the user's
/// own; a new vehicle with a nickname is looked up by it first, so naming the
/// same car across two journeys reuses one row; a new vehicle without one is
/// simply inserted.
pub fn start(user_id: u128, vehicle: &ValidatedVehicle) -> (r: Step<i64>)
    ensures
        match *vehicle {
            ValidatedVehicle::Saved(id) => r matches Step::Run(Stage::Lookup, q) && runs_select(
                q,
                find_for_user_view(user_id, id),
            ),
            ValidatedVehicle::New(v) => match v.nickname {
                Some(n) => r matches Step::Run(Stage::Lookup, q) && runs_select(
                    q,
                    find_by_nickname_view(user_id, n@),
                ),
                None => r matches Step::Run(Stage::Insert, q) && runs_insert(
                    q,
                    insert_view(user_id, *v),
                ),
            },
        },
{
    match vehicle {
        ValidatedVehicle::Saved(id) => Step::Run(Stage::Lookup, find_for_user(user_id, *id)),
        ValidatedVehicle::New(v) => match &v.nickname {
            Some(n) => Step::Run(Stage::Lookup, find_by_nickname(user_id, n.as_str())),
            None => Step::Run(Stage::Insert, insert(user_id, v)),
        },
    }
}

/// The next step of resolving `vehicle`, named `field` in the request, once the
/// statement run at `stage` has answered `reply`.
///
/// A nickname-less insert has no conflict target, so it always returns its
/// row; that is the one reply this machine is not asked to handle.
pub fn advance(
    user_id: u128,
    vehicle: &ValidatedVehicle,
    field: &str,
    stage: Stage,
    reply: Result<Option<i64>, DbError>,
) -> (r: Step<i64>)
    requires
        vehicle matches ValidatedVehicle::New(v) && v.nickname is None ==> !(reply matches Ok(None)),
    ensures
        match reply {
            Err(e) => r == Step::<i64>::Failed(ApiError::Database(e)),
            Ok(Some(id)) => r == Step::Done(id),
            Ok(None) => match *vehicle {
                ValidatedVehicle::Saved(id) => r matches Step::Failed(err) && single_error(
                    err,
                    not_owned_message(field@, id),
                ),
                ValidatedVehicle::New(v) => match stage {
                    Stage::Lookup => r matches Step::Run(Stage::Insert, q) && runs_insert(
                        q,
                        insert_view(user_id, *v),
                    ),
                    Stage::Insert => r matches Step::Run(Stage::LookupAgain, q) && runs_select(
                        q,
                        find_by_nickname_view(user_id, v.nickname->0@),
                    ),
                    Stage::LookupAgain => r matches Step::Failed(err) && conflict_with(
                        err,
                        race_message(v.nickname->0@),
                    ),
                },
            },
        },
{
    match reply {
        Err(e) => Step::Failed(ApiError::Database(e)),
        Ok(Some(id)) => Step::Done(id),
        Ok(None) => match vehicle {
            ValidatedVehicle::Saved(id) => {
                let digits = signed_decimal_string(*id);
                let mut message = concat3(field, ".id ", digits.as_str());
                message.append(" is not a vehicle belonging to this user");
                Step::Failed(ApiError::Validation(vec![message]))
            },
            ValidatedVehicle::New(v) => {
                let nickname = match &v.nickname {
                    Some(n) => n,
                    None => {
                        // Unreachable: only a nickname can conflict.
                        return Step::Run(Stage::Insert, insert(user_id, v));
                    },
                };
                match stage {
                    Stage::Lookup => Step::Run(Stage::Insert, insert(user_id, v)),
                    Stage::Insert => Step::Run(
                        Stage::LookupAgain,
                        find_by_nickname(user_id, nickname.as_str()),
                    ),
                    Stage::LookupAgain => {
                        let mut message = concat("vehicle ", nickname.as_str());
                        message.append(" is being created by another request; retry");
                        Step::Failed(ApiError::Conflict(message))
                    },
                }
            },
        },
    }
}

/// A new vehicle is stored for its owner as described, each value under the
/// column of its own name.
pub proof fn law_vehicle_insert_writes_each_value_to_its_column(user_id: u128, vehicle: ValidatedNewVehicle)
    ensures
        writes(insert_view(user_id, vehicle), "user_id"@, SqlValueView::Uuid(Some(user_id))),
        writes(insert_view(user_id, vehicle), "nickname"@, opt_text(vehicle.nickname)),
        writes(insert_view(user_id, vehicle), "make"@, opt_text(vehicle.make)),
        writes(insert_view(user_id, vehicle), "model"@, opt_text(vehicle.model)),
        writes(insert_view(user_id, vehicle), "year"@, SqlValueView::SmallInt(vehicle.year)),
        writes(insert_view(user_id, vehicle), "license_plate"@, opt_text(vehicle.license_plate)),
{
    let v = insert_view(user_id, vehicle);
    reveal_strlit("license_plate");
    reveal_strlit("make");
    reveal_strlit("model");
    reveal_strlit("nickname");
    reveal_strlit("user_id");
    reveal_strlit("year");
    assert(v.columns =~= seq!["user_id"@, "nickname"@, "make"@, "model"@, "year"@, "license_plate"@]);
    assert forall|i: int| 0 <= i < v.columns.len() && i != 0 implies v.columns[i] != "user_id"@ by {
        if i == 1 {
            assert(v.columns[1].len() != "user_id"@.len());
        } else if i == 2 {
            assert(v.columns[2].len() != "user_id"@.len());
        } else if i == 3 {
            assert(v.columns[3].len() != "user_id"@.len());
        } else if i == 4 {
            assert(v.columns[4].len() != "user_id"@.len());
        } else if i == 5 {
            assert(v.columns[5].len() != "user_id"@.len());
        }
    }
    lemma_writes_at(v, 0, "user_id"@, SqlValueView::Uuid(Some(user_id)));
    assert forall|i: int| 0 <= i < v.columns.len() && i != 1 implies v.columns[i] != "nickname"@ by {
        if i == 0 {
            assert(v.columns[0].len() != "nickname"@.len());
        } else if i == 2 {
            assert(v.columns[2].len() != "nickname"@.len());
        } else if i == 3 {
            assert(v.columns[3].len() != "nickname"@.len());
        } else if i == 4 {
            assert(v.columns[4].len() != "nickname"@.len());
        } else if i == 5 {
            assert(v.columns[5].len() != "nickname"@.len());
        }
    }
    lemma_writes_at(v, 1, "nickname"@, opt_text(vehicle.nickname));
    assert forall|i: int| 0 <= i < v.columns.len() && i != 2 implies v.columns[i] != "make"@ by {
        if i == 0 {
            assert(v.columns[0].len() != "make"@.len());
        } else if i == 1 {
            assert(v.columns[1].len() != "make"@.len());
        } else if i == 3 {
            assert(v.columns[3].len() != "make"@.len());
        } else if i == 4 {
            assert(v.columns[4][0] != "make"@[0]);
        } else if i == 5 {
            assert(v.columns[5].len() != "make"@.len());
        }
    }
    lemma_writes_at(v, 2, "make"@, opt_text(vehicle.make));
    assert forall|i: int| 0 <= i < v.columns.len() && i != 3 implies v.columns[i] != "model"@ by {
        if i == 0 {
            assert(v.columns[0].len() != "model"@.len());
        } else if i == 1 {
            assert(v.columns[1].len() != "model"@.len());
        } else if i == 2 {
            assert(v.columns[2].len() != "model"@.len());
        } else if i == 4 {
            assert(v.columns[4].len() != "model"@.len());
        } else if i == 5 {
            assert(v.columns[5].len() != "model"@.len());
        }
    }
    lemma_writes_at(v, 3, "model"@, opt_text(vehicle.model));
    assert forall|i: int| 0 <= i < v.columns.len() && i != 4 implies v.columns[i] != "year"@ by {
        if i == 0 {
            assert(v.columns[0].len() != "year"@.len());
        } else if i == 1 {
            assert(v.columns[1].len() != "year"@.len());
        } else if i == 2 {
            assert(v.columns[2][0] != "year"@[0]);
        } else if i == 3 {
            assert(v.columns[3].len() != "year"@.len());
        } else if i == 5 {
            assert(v.columns[5].len() != "year"@.len());
        }
    }
    lemma_writes_at(v, 4, "year"@, SqlValueView::SmallInt(vehicle.year));
    assert forall|i: int| 0 <= i < v.columns.len() && i != 5 implies v.columns[i] != "license_plate"@ by {
        if i == 0 {
            assert(v.columns[0].len() != "license_plate"@.len());
        } else if i == 1 {
            assert(v.columns[1].len() != "license_plate"@.len());
        } else if i == 2 {
            assert(v.columns[2].len() != "license_plate"@.len());
        } else if i == 3 {
            assert(v.columns[3].len() != "license_plate"@.len());
        } else if i == 4 {
            assert(v.columns[4].len() != "license_plate"@.len());
        }
    }
    lemma_writes_at(v, 5, "license_plate"@, opt_text(vehicle.license_plate));
}

/// A saved vehicle is looked up by its own id among its owner's: each
/// condition compares a column with the value of the same name.
pub proof fn law_vehicle_lookups_compare_each_key_with_its_value(user_id: u128, id: i64)
    ensures
        compares(find_for_user_view(user_id, id), "id"@, SqlValueView::BigInt(Some(id))),
        compares(find_for_user_view(user_id, id), "user_id"@, SqlValueView::Uuid(Some(user_id))),
{
    let v = find_for_user_view(user_id, id);
    assert(v.conditions[0] == "id"@ + " = "@ + placeholder((0 + 1) as nat));
    assert(v.conditions[1] == "user_id"@ + " = "@ + placeholder((1 + 1) as nat));
}

/// A vehicle by nickname is looked up under its owner and that nickname.
pub proof fn law_nickname_lookup_compares_each_key_with_its_value(user_id: u128, nickname: Seq<char>)
    ensures
        compares(find_by_nickname_view(user_id, nickname), "user_id"@, SqlValueView::Uuid(Some(user_id))),
        compares(find_by_nickname_view(user_id, nickname), "nickname"@, text(nickname)),
{
    let v = find_by_nickname_view(user_id, nickname);
    assert(v.conditions[0] == "user_id"@ + " = "@ + placeholder((0 + 1) as nat));
    assert(v.conditions[1] == "nickname"@ + " = "@ + placeholder((1 + 1) as nat));
}

} // verus!
