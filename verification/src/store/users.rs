//! `users`.

use vstd::prelude::*;
use vstd::string::*;

use crate::sql_builder::insert::{insert_sql, lemma_writes_at, writes, Insert, InsertView};
use crate::sql_builder::params::placeholder;
use crate::sql_builder::query::Query;
use crate::sql_builder::select::{select_sql, Select, SelectView};
use crate::sql_builder::value::SqlValueView;
use crate::store::steps::{placeholders, text};
use crate::user::ValidatedUser;

verus! {

/// A user without any secret columns: never `api_key`, never `password_hash`.
pub const PUBLIC_COLUMNS: [&'static str; 6] = [
    "id",
    "first_name",
    "last_name",
    "role",
    "created_at",
    "updated_at",
];

pub open spec fn public_columns() -> Seq<Seq<char>> {
    seq!["id"@, "first_name"@, "last_name"@, "role"@, "created_at"@, "updated_at"@]
}

/// The insert of a user with the key and hash the caller minted.
pub open spec fn insert_view(user: ValidatedUser, api_key: Seq<char>, password_hash: Seq<char>) -> InsertView {
    InsertView {
        table: "users"@,
        columns: seq!["first_name"@, "last_name"@, "role"@, "api_key"@, "password_hash"@],
        values: placeholders(5),
        on_conflict: None,
        returning: public_columns(),
        params: seq![
            text(user.first_name@),
            text(user.last_name@),
            text(user.role@),
            text(api_key),
            text(password_hash),
        ],
    }
}

/// The read of one user by id, the public columns only.
pub open spec fn find_view(id: u128) -> SelectView {
    SelectView {
        from: "users"@,
        columns: public_columns(),
        joins: Seq::empty(),
        conditions: seq!["id"@ + " = "@ + placeholder(1)],
        order_by: None,
        params: seq![SqlValueView::Uuid(Some(id))],
    }
}

/// Whether a user exists: its id, or no row.
pub open spec fn find_id_view(id: u128) -> SelectView {
    SelectView {
        from: "users"@,
        columns: seq!["id"@],
        joins: Seq::empty(),
        conditions: seq!["id"@ + " = "@ + placeholder(1)],
        order_by: None,
        params: seq![SqlValueView::Uuid(Some(id))],
    }
}

/// Insert a user and read back its public columns. The API key is supplied by
/// the caller rather than generated here: this layer writes SQL, it does not
/// mint secrets.
pub fn insert(user: &ValidatedUser, api_key: &str, password_hash: &str) -> (r: Query)
    ensures
        r.sql_text() == insert_sql(insert_view(*user, api_key@, password_hash@)),
        r.arguments() == insert_view(*user, api_key@, password_hash@).params,
{
    let built = Insert::into("users")
        .set("first_name", &user.first_name)
        .set("last_name", &user.last_name)
        .set("role", &user.role)
        .set("api_key", api_key)
        .set("password_hash", password_hash)
        .returning(&PUBLIC_COLUMNS);
    proof {
        let v = insert_view(*user, api_key@, password_hash@);
        reveal_with_fuel(placeholders, 6);
        assert(built@.columns =~= v.columns);
        assert(built@.values =~= v.values);
        assert(built@.returning =~= v.returning);
        assert(built@.params =~= v.params);
        assert(built@ == v);
    }
    built.into_query()
}

/// Read a user back without any secret columns.
pub fn find(id: u128) -> (r: Query)
    ensures
        r.sql_text() == select_sql(find_view(id)),
        r.arguments() == find_view(id).params,
{
    let built = Select::from("users").columns(&PUBLIC_COLUMNS).where_eq("id", id);
    proof {
        let v = find_view(id);
        assert(built@.columns =~= v.columns);
        assert(built@.conditions =~= v.conditions);
        assert(built@.params =~= v.params);
        assert(built@.joins =~= v.joins);
        assert(built@ == v);
    }
    built.into_query()
}

/// Whether a user exists, for the foreign keys that would otherwise fail as an
/// opaque 500 halfway through a transaction.
pub fn find_id(id: u128) -> (r: Query)
    ensures
        r.sql_text() == select_sql(find_id_view(id)),
        r.arguments() == find_id_view(id).params,
{
    let built = Select::from("users").columns(&["id"]).where_eq("id", id);
    proof {
        let v = find_id_view(id);
        assert(built@.columns =~= v.columns);
        assert(built@.conditions =~= v.conditions);
        assert(built@.params =~= v.params);
        assert(built@.joins =~= v.joins);
        assert(built@ == v);
    }
    built.into_query()
}

/// A user is never read back with a secret: no column a user is read with is
/// `api_key` or `password_hash`.
pub proof fn law_public_columns_hold_no_secret(i: int)
    requires
        0 <= i < public_columns().len(),
    ensures
        public_columns()[i] != "api_key"@,
        public_columns()[i] != "password_hash"@,
{
    reveal_strlit("api_key");
    reveal_strlit("password_hash");
    reveal_strlit("id");
    reveal_strlit("first_name");
    reveal_strlit("last_name");
    reveal_strlit("role");
    reveal_strlit("created_at");
    reveal_strlit("updated_at");
    let c = public_columns();
    assert(c[0].len() == 2);
    assert(c[1].len() == 10);
    assert(c[2].len() == 9);
    assert(c[3].len() == 4);
    assert(c[4].len() == 10);
    assert(c[5].len() == 10);
    assert(c[i].len() != "api_key"@.len());
    assert(c[i].len() != "password_hash"@.len());
}

/// A user is stored as validated: the first name in `first_name`, the last
/// name in `last_name`, the role in `role`, and the key and hash the caller
/// minted in `api_key` and `password_hash`.
pub proof fn law_user_insert_writes_each_value_to_its_column(user: ValidatedUser, api_key: Seq<char>, password_hash: Seq<char>)
    ensures
        writes(insert_view(user, api_key, password_hash), "first_name"@, text(user.first_name@)),
        writes(insert_view(user, api_key, password_hash), "last_name"@, text(user.last_name@)),
        writes(insert_view(user, api_key, password_hash), "role"@, text(user.role@)),
        writes(insert_view(user, api_key, password_hash), "api_key"@, text(api_key)),
        writes(insert_view(user, api_key, password_hash), "password_hash"@, text(password_hash)),
{
    let v = insert_view(user, api_key, password_hash);
    reveal_strlit("api_key");
    reveal_strlit("first_name");
    reveal_strlit("last_name");
    reveal_strlit("password_hash");
    reveal_strlit("role");
    assert(v.columns =~= seq!["first_name"@, "last_name"@, "role"@, "api_key"@, "password_hash"@]);
    assert forall|i: int| 0 <= i < v.columns.len() && i != 0 implies v.columns[i] != "first_name"@ by {
        if i == 1 {
            assert(v.columns[1].len() != "first_name"@.len());
        } else if i == 2 {
            assert(v.columns[2].len() != "first_name"@.len());
        } else if i == 3 {
            assert(v.columns[3].len() != "first_name"@.len());
        } else if i == 4 {
            assert(v.columns[4].len() != "first_name"@.len());
        }
    }
    lemma_writes_at(v, 0, "first_name"@, text(user.first_name@));
    assert forall|i: int| 0 <= i < v.columns.len() && i != 1 implies v.columns[i] != "last_name"@ by {
        if i == 0 {
            assert(v.columns[0].len() != "last_name"@.len());
        } else if i == 2 {
            assert(v.columns[2].len() != "last_name"@.len());
        } else if i == 3 {
            assert(v.columns[3].len() != "last_name"@.len());
        } else if i == 4 {
            assert(v.columns[4].len() != "last_name"@.len());
        }
    }
    lemma_writes_at(v, 1, "last_name"@, text(user.last_name@));
    assert forall|i: int| 0 <= i < v.columns.len() && i != 2 implies v.columns[i] != "role"@ by {
        if i == 0 {
            assert(v.columns[0].len() != "role"@.len());
        } else if i == 1 {
            assert(v.columns[1].len() != "role"@.len());
        } else if i == 3 {
            assert(v.columns[3].len() != "role"@.len());
        } else if i == 4 {
            assert(v.columns[4].len() != "role"@.len());
        }
    }
    lemma_writes_at(v, 2, "role"@, text(user.role@));
    assert forall|i: int| 0 <= i < v.columns.len() && i != 3 implies v.columns[i] != "api_key"@ by {
        if i == 0 {
            assert(v.columns[0].len() != "api_key"@.len());
        } else if i == 1 {
            assert(v.columns[1].len() != "api_key"@.len());
        } else if i == 2 {
            assert(v.columns[2].len() != "api_key"@.len());
        } else if i == 4 {
            assert(v.columns[4].len() != "api_key"@.len());
        }
    }
    lemma_writes_at(v, 3, "api_key"@, text(api_key));
    assert forall|i: int| 0 <= i < v.columns.len() && i != 4 implies v.columns[i] != "password_hash"@ by {
        if i == 0 {
            assert(v.columns[0].len() != "password_hash"@.len());
        } else if i == 1 {
            assert(v.columns[1].len() != "password_hash"@.len());
        } else if i == 2 {
            assert(v.columns[2].len() != "password_hash"@.len());
        } else if i == 3 {
            assert(v.columns[3].len() != "password_hash"@.len());
        }
    }
    lemma_writes_at(v, 4, "password_hash"@, text(password_hash));
}

} // verus!
