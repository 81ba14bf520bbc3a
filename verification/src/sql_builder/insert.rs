//! `INSERT`.

use vstd::prelude::*;
use vstd::string::*;

use crate::sql_builder::params::{placeholder, Params};
use crate::sql_builder::query::Query;
use crate::sql_builder::value::{Bind, SqlValueView};
use crate::text::{join, join_strings, joined, lemma_str_views_prefix, lemma_str_views_push, str_views, views};

verus! {

/// What an [`Insert`] is made of.
pub struct InsertView {
    pub table: Seq<char>,
    pub columns: Seq<Seq<char>>,
    pub values: Seq<Seq<char>>,
    pub on_conflict: Option<Seq<char>>,
    pub returning: Seq<Seq<char>>,
    pub params: Seq<SqlValueView>,
}

/// `value` is the placeholder `$n`, possibly followed by a `::cast`.
pub open spec fn names_argument(value: Seq<char>, n: nat) -> bool {
    &&& placeholder(n).is_prefix_of(value)
    &&& (value.len() == placeholder(n).len() || value[placeholder(n).len() as int] == ':')
}

/// The `n`-th column, the `n`-th entry of `VALUES` and the `n`-th argument
/// belong together: there are as many of each, and entry `n` is `$n`.
pub open spec fn aligned(columns: Seq<Seq<char>>, values: Seq<Seq<char>>, params: Seq<SqlValueView>) -> bool {
    &&& columns.len() == values.len()
    &&& values.len() == params.len()
    &&& forall|i: int| 0 <= i < values.len() ==> names_argument(#[trigger] values[i], (i + 1) as nat)
}

impl InsertView {
    pub open spec fn wf(&self) -> bool {
        aligned(self.columns, self.values, self.params)
    }
}

pub open spec fn comma() -> Seq<char> {
    ", "@
}

/// The statement an insert renders.
pub open spec fn insert_sql(v: InsertView) -> Seq<char> {
    let head = "INSERT INTO "@ + v.table + " ("@ + joined(v.columns, comma()) + ")\nVALUES ("@
        + joined(v.values, comma()) + ")"@;
    let conflict = match v.on_conflict {
        Some(c) => seq!['\n'] + c,
        None => Seq::empty(),
    };
    let returning = if v.returning.len() > 0 {
        "\nRETURNING "@ + joined(v.returning, comma())
    } else {
        Seq::empty()
    };
    head + conflict + returning
}

/// `ON CONFLICT (columns) DO NOTHING`.
pub open spec fn do_nothing_clause(columns: Seq<Seq<char>>) -> Seq<char> {
    "ON CONFLICT ("@ + joined(columns, comma()) + ") DO NOTHING"@
}

/// `ON CONFLICT (columns) WHERE predicate DO NOTHING`.
pub open spec fn do_nothing_where_clause(columns: Seq<Seq<char>>, predicate: Seq<char>) -> Seq<
    char,
> {
    "ON CONFLICT ("@ + joined(columns, comma()) + ") WHERE "@ + predicate + " DO NOTHING"@
}

/// An `INSERT`, with every column written next to the value going into it.
///
/// The column list, the `VALUES` list, and the arguments are all produced by the
/// same `set` calls: adding a column is one call, and there is no second list
/// to keep in step with the first.
pub struct Insert {
    table: &'static str,
    columns: Vec<&'static str>,
    values: Vec<String>,
    on_conflict: Option<String>,
    returning: Vec<&'static str>,
    params: Params,
}

impl View for Insert {
    type V = InsertView;

    closed spec fn view(&self) -> InsertView {
        InsertView {
            table: self.table@,
            columns: str_views(self.columns@),
            values: views(self.values@),
            on_conflict: match self.on_conflict {
                Some(c) => Some(c@),
                None => None,
            },
            returning: str_views(self.returning@),
            params: self.params@,
        }
    }
}

impl Insert {
    /// Start an `INSERT INTO table`.
    pub fn into(table: &'static str) -> (r: Self)
        ensures
            r@.wf(),
            r@.table == table@,
            r@.columns == Seq::<Seq<char>>::empty(),
            r@.values == Seq::<Seq<char>>::empty(),
            r@.on_conflict == None::<Seq<char>>,
            r@.returning == Seq::<Seq<char>>::empty(),
            r@.params == Seq::<SqlValueView>::empty(),
    {
        let r = Insert {
            table,
            columns: Vec::new(),
            values: Vec::new(),
            on_conflict: None,
            returning: Vec::new(),
            params: Params::new(),
        };
        proof {
            assert(r@.columns =~= Seq::<Seq<char>>::empty());
            assert(r@.values =~= Seq::<Seq<char>>::empty());
            assert(r@.returning =~= Seq::<Seq<char>>::empty());
        }
        r
    }

    /// Write `value` to `column`.
    pub fn set<T: Bind>(self, column: &'static str, value: T) -> (r: Self)
        requires
            self@.wf(),
        ensures
            r@.wf(),
            r@.table == self@.table,
            r@.columns == self@.columns.push(column@),
            r@.values == self@.values.push(placeholder(r@.params.len())),
            r@.params == self@.params.push(value.bound()),
            r@.on_conflict == self@.on_conflict,
            r@.returning == self@.returning,
    {
        let mut s = self;
        let ghost before = s@;
        let placeholder_text = s.params.bind(value);
        s.columns.push(column);
        s.values.push(placeholder_text);
        proof {
            assert(s@.columns =~= before.columns.push(column@));
            assert(s@.values =~= before.values.push(placeholder(s@.params.len())));
            let n = s@.values.len();
            assert(names_argument(s@.values[n - 1], n as nat)) by {
                assert(placeholder(n as nat).is_prefix_of(placeholder(n as nat))) by {
                    assert(placeholder(n as nat).subrange(0, placeholder(n as nat).len() as int)
                        =~= placeholder(n as nat));
                }
            }
        }
        s
    }

    /// [`Insert::set`], for a value Postgres needs told the type of:
    /// `set_cast("latitude", value, "float8::numeric")` renders `$3::float8::numeric`.
    pub fn set_cast<T: Bind>(self, column: &'static str, value: T, cast: &'static str) -> (r: Self)
        requires
            self@.wf(),
        ensures
            r@.wf(),
            r@.table == self@.table,
            r@.columns == self@.columns.push(column@),
            r@.values == self@.values.push(placeholder(r@.params.len()) + "::"@ + cast@),
            r@.params == self@.params.push(value.bound()),
            r@.on_conflict == self@.on_conflict,
            r@.returning == self@.returning,
    {
        let mut s = self;
        let ghost before = s@;
        let mut entry = s.params.bind(value);
        let ghost p = entry@;
        entry.append("::");
        entry.append(cast);
        s.columns.push(column);
        s.values.push(entry);
        proof {
            reveal_strlit("::");
            assert(s@.columns =~= before.columns.push(column@));
            assert(s@.values =~= before.values.push(placeholder(s@.params.len()) + "::"@ + cast@));
            let n = s@.values.len();
            let v = s@.values[n - 1];
            assert(v =~= p + "::"@ + cast@);
            assert(p.is_prefix_of(v)) by {
                assert(v.subrange(0, p.len() as int) =~= p);
            }
            assert(v[p.len() as int] == ':');
        }
        s
    }

    /// `ON CONFLICT (columns) DO NOTHING` — the row is already there, and the
    /// stored one wins. Paired with [`Insert::returning`] this is the
    /// get-or-create shape: a row back means this call created it.
    pub fn on_conflict_do_nothing(self, columns: &[&'static str]) -> (r: Self)
        requires
            self@.wf(),
        ensures
            r@ == (InsertView { on_conflict: Some(do_nothing_clause(str_views(columns@))), ..self@ }),
            r@.wf(),
    {
        let mut s = self;
        let mut clause = String::from_str("ON CONFLICT (");
        let list = join(columns, ", ");
        clause.append(list.as_str());
        clause.append(") DO NOTHING");
        s.on_conflict = Some(clause);
        s
    }

    /// [`Insert::on_conflict_do_nothing`] against a *partial* unique index, whose
    /// `WHERE` has to be repeated here for Postgres to recognise the target.
    pub fn on_conflict_do_nothing_where(
        self,
        columns: &[&'static str],
        index_predicate: &'static str,
    ) -> (r: Self)
        requires
            self@.wf(),
        ensures
            r@ == (InsertView {
                on_conflict: Some(do_nothing_where_clause(str_views(columns@), index_predicate@)),
                ..self@
            }),
            r@.wf(),
    {
        let mut s = self;
        let mut clause = String::from_str("ON CONFLICT (");
        let list = join(columns, ", ");
        clause.append(list.as_str());
        clause.append(") WHERE ");
        clause.append(index_predicate);
        clause.append(" DO NOTHING");
        s.on_conflict = Some(clause);
        s
    }

    /// `RETURNING columns`. Takes the same column list a `SELECT` of this row
    /// would, so the two can share one constant.
    pub fn returning(self, columns: &[&'static str]) -> (r: Self)
        requires
            self@.wf(),
        ensures
            r@ == (InsertView { returning: self@.returning + str_views(columns@), ..self@ }),
            r@.wf(),
    {
        let mut s = self;
        let ghost before = s@;
        let mut i: usize = 0;
        while i < columns.len()
            invariant
                i <= columns@.len(),
                s@ == (InsertView {
                    returning: before.returning + str_views(columns@.subrange(0, i as int)),
                    ..before
                }),
            decreases columns@.len() - i,
        {
            let ghost prev = s.returning@;
            s.returning.push(columns[i]);
            proof {
                lemma_str_views_push(prev, columns@[i as int]);
                lemma_str_views_prefix(columns@, i as int);
                assert(s@.returning =~= before.returning + str_views(
                    columns@.subrange(0, i + 1),
                ));
            }
            i = i + 1;
        }
        proof {
            assert(columns@.subrange(0, columns@.len() as int) =~= columns@);
        }
        s
    }

    /// The SQL this builder renders, for tests and for reading.
    pub fn to_sql(&self) -> (r: String)
        ensures
            r@ == insert_sql(self@),
    {
        let mut sql = String::from_str("INSERT INTO ");
        sql.append(self.table);
        sql.append(" (");
        let columns = join(self.columns.as_slice(), ", ");
        sql.append(columns.as_str());
        sql.append(")\nVALUES (");
        let values = join_strings(&self.values, ", ");
        sql.append(values.as_str());
        sql.append(")");
        let ghost head = sql@;
        match &self.on_conflict {
            Some(c) => {
                sql.push('\n');
                sql.append(c.as_str());
            },
            None => {},
        }
        let ghost with_conflict = sql@;
        if self.returning.len() > 0 {
            sql.append("\nRETURNING ");
            let list = join(self.returning.as_slice(), ", ");
            sql.append(list.as_str());
        }
        proof {
            let v = self@;
            assert(head == "INSERT INTO "@ + v.table + " ("@ + joined(v.columns, comma())
                + ")\nVALUES ("@ + joined(v.values, comma()) + ")"@);
            match v.on_conflict {
                Some(c) => {
                    assert(with_conflict =~= head + (seq!['\n'] + c));
                },
                None => {
                    assert(with_conflict =~= head + Seq::<char>::empty());
                },
            }
            if v.returning.len() > 0 {
                assert(sql@ =~= with_conflict + ("\nRETURNING "@ + joined(v.returning, comma())));
            } else {
                assert(sql@ =~= with_conflict + Seq::<char>::empty());
            }
        }
        sql
    }

    /// The rendered statement and its arguments, ready to run.
    pub fn into_query(self) -> (r: Query)
        ensures
            r.sql_text() == insert_sql(self@),
            r.arguments() == self@.params,
    {
        let sql = self.to_sql();
        Query::new(sql, self.params)
    }
}

/// The n-th column and the n-th argument are written by one call, so they
/// cannot be given different positions: in any insert the builder can make,
/// the `VALUES` entry under column `i` is the placeholder `$(i+1)`, and
/// argument `i` is the value bound with that column.
pub proof fn law_columns_and_arguments_stay_aligned(v: InsertView, i: int)
    requires
        v.wf(),
        0 <= i < v.columns.len(),
    ensures
        v.values.len() == v.columns.len(),
        v.params.len() == v.columns.len(),
        placeholder((i + 1) as nat).is_prefix_of(v.values[i]),
        v.values[i].len() == placeholder((i + 1) as nat).len() || v.values[i][placeholder(
            (i + 1) as nat,
        ).len() as int] == ':',
{
    assert(names_argument(v.values[i], (i + 1) as nat));
}

/// The `VALUES` entry a call writes for the `n`-th column: `$n`, or `$n::cast`.
pub open spec fn entry(n: nat, cast: Option<Seq<char>>) -> Seq<char> {
    match cast {
        Some(c) => placeholder(n) + "::"@ + c,
        None => placeholder(n),
    }
}

/// Column `i` and placeholder `$i` always come from the same call: starting
/// from `Insert::into` and making `k` calls of `set` (no cast) or `set_cast`,
/// each writing its column, its entry under the new argument count, and its
/// value together, the columns are the ones named in call order, the `i`-th
/// `VALUES` entry is `$(i+1)` (with its cast, if any), the arguments are the
/// values in call order, and the statement opens with the two lists.
pub proof fn law_each_call_writes_its_column_and_placeholder(
    states: Seq<InsertView>,
    columns: Seq<Seq<char>>,
    casts: Seq<Option<Seq<char>>>,
    values: Seq<SqlValueView>,
)
    requires
        states.len() == columns.len() + 1,
        casts.len() == columns.len(),
        values.len() == columns.len(),
        states[0].columns == Seq::<Seq<char>>::empty(),
        states[0].values == Seq::<Seq<char>>::empty(),
        states[0].params == Seq::<SqlValueView>::empty(),
        forall|i: int|
            0 <= i < columns.len() ==> {
                &&& #[trigger] states[i + 1].table == states[i].table
                &&& states[i + 1].columns == states[i].columns.push(columns[i])
                &&& states[i + 1].params == states[i].params.push(values[i])
                &&& states[i + 1].values == states[i].values.push(
                    entry(states[i + 1].params.len(), casts[i]),
                )
            },
    ensures
        states[columns.len() as int].columns == columns,
        states[columns.len() as int].params == values,
        states[columns.len() as int].table == states[0].table,
        states[columns.len() as int].values.len() == columns.len(),
        forall|i: int|
            0 <= i < columns.len() ==> #[trigger] states[columns.len() as int].values[i] == entry(
                (i + 1) as nat,
                casts[i],
            ),
        ("INSERT INTO "@ + states[0].table + " ("@ + joined(columns, comma()) + ")\nVALUES ("@
            + joined(states[columns.len() as int].values, comma()) + ")"@).is_prefix_of(
            insert_sql(states[columns.len() as int]),
        ),
    decreases columns.len(),
{
    let k = columns.len() as int;
    if k > 0 {
        let n = k - 1;
        let ss = states.drop_last();
        let cs = columns.drop_last();
        let xs = casts.drop_last();
        let vs = values.drop_last();
        assert forall|i: int| 0 <= i < cs.len() implies {
            &&& #[trigger] ss[i + 1].table == ss[i].table
            &&& ss[i + 1].columns == ss[i].columns.push(cs[i])
            &&& ss[i + 1].params == ss[i].params.push(vs[i])
            &&& ss[i + 1].values == ss[i].values.push(entry(ss[i + 1].params.len(), xs[i]))
        } by {
            assert(ss[i + 1] == states[i + 1]);
            assert(ss[i] == states[i]);
            assert(states[i + 1].table == states[i].table);
        }
        law_each_call_writes_its_column_and_placeholder(
            states.drop_last(),
            columns.drop_last(),
            casts.drop_last(),
            values.drop_last(),
        );
        assert(states[n].columns == columns.drop_last());
        assert(states[n].params == values.drop_last());
        assert(states[n + 1].table == states[n].table);
        assert(columns.drop_last().push(columns[n]) =~= columns);
        assert(values.drop_last().push(values[n]) =~= values);
        assert(states[k].columns =~= columns);
        assert(states[k].params =~= values);
        assert forall|i: int| 0 <= i < k implies #[trigger] states[k].values[i] == entry(
            (i + 1) as nat,
            casts[i],
        ) by {
            if i < n {
                assert(states[k].values[i] == states[n].values[i]);
                assert(casts.drop_last()[i] == casts[i]);
            }
        }
    }
    let v = states[k];
    let head = "INSERT INTO "@ + v.table + " ("@ + joined(v.columns, comma()) + ")\nVALUES ("@
        + joined(v.values, comma()) + ")"@;
    let conflict = match v.on_conflict {
        Some(c) => seq!['\n'] + c,
        None => Seq::<char>::empty(),
    };
    let returning = if v.returning.len() > 0 {
        "\nRETURNING "@ + joined(v.returning, comma())
    } else {
        Seq::<char>::empty()
    };
    assert(insert_sql(v) == head + conflict + returning);
    assert((head + conflict + returning).subrange(0, head.len() as int) =~= head);
}

/// In the insert `v`, the column named `column` is written with `value`: some
/// column has that name, and every column with that name binds that value.
pub open spec fn writes(v: InsertView, column: Seq<char>, value: SqlValueView) -> bool {
    &&& exists|i: int| 0 <= i < v.columns.len() && #[trigger] v.columns[i] == column
    &&& forall|i: int|
        0 <= i < v.columns.len() && #[trigger] v.columns[i] == column ==> i < v.params.len()
            && v.params[i] == value
}

/// `column` is written at position `k` and at no other.
pub proof fn lemma_writes_at(v: InsertView, k: int, column: Seq<char>, value: SqlValueView)
    requires
        0 <= k < v.columns.len(),
        k < v.params.len(),
        v.columns[k] == column,
        v.params[k] == value,
        forall|i: int| 0 <= i < v.columns.len() && i != k ==> v.columns[i] != column,
    ensures
        writes(v, column, value),
{
}

} // verus!
