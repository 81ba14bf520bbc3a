//! `SELECT`.

use vstd::prelude::*;
use vstd::string::*;

use crate::sql_builder::insert::comma;
use crate::sql_builder::params::{placeholder, Params};
use crate::sql_builder::query::Query;
use crate::sql_builder::value::{Bind, SqlValueView};
use crate::text::{join, join_strings, joined, lemma_str_views_prefix, lemma_str_views_push, str_views, views};

verus! {

/// What a [`Select`] is made of.
pub struct SelectView {
    pub from: Seq<char>,
    pub columns: Seq<Seq<char>>,
    pub joins: Seq<Seq<char>>,
    pub conditions: Seq<Seq<char>>,
    pub order_by: Option<Seq<char>>,
    pub params: Seq<SqlValueView>,
}

/// `condition` ends with the placeholder `$n`, bare or as `ANY($n)`.
pub open spec fn condition_binds(condition: Seq<char>, n: nat) -> bool {
    placeholder(n).is_suffix_of(condition) || (placeholder(n) + ")"@).is_suffix_of(condition)
}

impl SelectView {
    /// The `n`-th condition compares against the `n`-th argument.
    pub open spec fn wf(&self) -> bool {
        &&& self.conditions.len() == self.params.len()
        &&& forall|i: int|
            0 <= i < self.conditions.len() ==> condition_binds(
                #[trigger] self.conditions[i],
                (i + 1) as nat,
            )
    }
}

/// The joins, each on a line of its own.
pub open spec fn join_lines(joins: Seq<Seq<char>>) -> Seq<char>
    decreases joins.len(),
{
    if joins.len() == 0 {
        Seq::empty()
    } else {
        join_lines(joins.drop_last()) + seq!['\n'] + joins.last()
    }
}

/// The statement a select renders: clauses always in SQL's order, whatever
/// order the builder calls came in.
pub open spec fn select_sql(v: SelectView) -> Seq<char> {
    let head = "SELECT "@ + joined(v.columns, comma()) + "\nFROM "@ + v.from;
    let conditions = if v.conditions.len() > 0 {
        "\nWHERE "@ + joined(v.conditions, " AND "@)
    } else {
        Seq::empty()
    };
    let order = match v.order_by {
        Some(c) => "\nORDER BY "@ + c,
        None => Seq::empty(),
    };
    head + join_lines(v.joins) + conditions + order
}

/// `v` with one more join clause.
pub open spec fn with_join(v: SelectView, clause: Seq<char>) -> SelectView {
    SelectView { joins: v.joins.push(clause), ..v }
}

/// `v` with one more condition and the argument it compares against.
pub open spec fn with_condition(v: SelectView, condition: Seq<char>, value: SqlValueView) -> SelectView {
    SelectView { conditions: v.conditions.push(condition), params: v.params.push(value), ..v }
}

/// A `SELECT`, written in the order you would say it out loud.
///
/// Clauses render in SQL's order no matter which order they are called in, so a
/// `where_eq` can sit next to the value it filters on rather than at the bottom
/// of the statement.
pub struct Select {
    from: &'static str,
    columns: Vec<&'static str>,
    joins: Vec<String>,
    conditions: Vec<String>,
    order_by: Option<&'static str>,
    params: Params,
}

impl View for Select {
    type V = SelectView;

    closed spec fn view(&self) -> SelectView {
        SelectView {
            from: self.from@,
            columns: str_views(self.columns@),
            joins: views(self.joins@),
            conditions: views(self.conditions@),
            order_by: match self.order_by {
                Some(c) => Some(c@),
                None => None,
            },
            params: self.params@,
        }
    }
}

impl Select {
    /// Start a `SELECT` against `table`, which may carry an alias:
    /// `Select::from("places p")`.
    pub fn from(table: &'static str) -> (r: Self)
        ensures
            r@.wf(),
            r@.from == table@,
            r@.columns == Seq::<Seq<char>>::empty(),
            r@.joins == Seq::<Seq<char>>::empty(),
            r@.conditions == Seq::<Seq<char>>::empty(),
            r@.order_by == None::<Seq<char>>,
            r@.params == Seq::<SqlValueView>::empty(),
    {
        let r = Select {
            from: table,
            columns: Vec::new(),
            joins: Vec::new(),
            conditions: Vec::new(),
            order_by: None,
            params: Params::new(),
        };
        proof {
            assert(r@.columns =~= Seq::<Seq<char>>::empty());
            assert(r@.joins =~= Seq::<Seq<char>>::empty());
            assert(r@.conditions =~= Seq::<Seq<char>>::empty());
        }
        r
    }

    /// The columns to read. Each entry is any SQL expression, and repeated
    /// calls append, so a shared column constant can be extended.
    pub fn columns(self, columns: &[&'static str]) -> (r: Self)
        requires
            self@.wf(),
        ensures
            r@ == (SelectView { columns: self@.columns + str_views(columns@), ..self@ }),
            r@.wf(),
    {
        let mut s = self;
        let ghost before = s@;
        let mut i: usize = 0;
        while i < columns.len()
            invariant
                i <= columns@.len(),
                s@ == (SelectView {
                    columns: before.columns + str_views(columns@.subrange(0, i as int)),
                    ..before
                }),
            decreases columns@.len() - i,
        {
            let ghost prev = s.columns@;
            s.columns.push(columns[i]);
            proof {
                lemma_str_views_push(prev, columns@[i as int]);
                lemma_str_views_prefix(columns@, i as int);
                assert(s@.columns =~= before.columns + str_views(columns@.subrange(0, i + 1)));
            }
            i = i + 1;
        }
        proof {
            assert(columns@.subrange(0, columns@.len() as int) =~= columns@);
        }
        s
    }

    /// `JOIN table ON predicate`.
    pub fn join(self, table: &'static str, on: &'static str) -> (r: Self)
        requires
            self@.wf(),
        ensures
            r@ == with_join(self@, "JOIN "@ + table@ + " ON "@ + on@),
            r@.wf(),
    {
        let mut s = self;
        let ghost before = s@;
        let mut clause = String::from_str("JOIN ");
        clause.append(table);
        clause.append(" ON ");
        clause.append(on);
        s.joins.push(clause);
        proof {
            assert(s@.joins =~= before.joins.push("JOIN "@ + table@ + " ON "@ + on@));
        }
        s
    }

    /// `LEFT JOIN table ON predicate`, for a row that may have no match.
    pub fn left_join(self, table: &'static str, on: &'static str) -> (r: Self)
        requires
            self@.wf(),
        ensures
            r@ == with_join(self@, "LEFT JOIN "@ + table@ + " ON "@ + on@),
            r@.wf(),
    {
        let mut s = self;
        let ghost before = s@;
        let mut clause = String::from_str("LEFT JOIN ");
        clause.append(table);
        clause.append(" ON ");
        clause.append(on);
        s.joins.push(clause);
        proof {
            assert(s@.joins =~= before.joins.push("LEFT JOIN "@ + table@ + " ON "@ + on@));
        }
        s
    }

    /// `column = value`. Call it once per column; the conditions are `AND`ed.
    pub fn where_eq<T: Bind>(self, column: &'static str, value: T) -> (r: Self)
        requires
            self@.wf(),
        ensures
            r@ == with_condition(
                self@,
                column@ + " = "@ + placeholder(self@.params.len() + 1),
                value.bound(),
            ),
            r@.wf(),
    {
        let mut s = self;
        let ghost before = s@;
        let p = s.params.bind(value);
        let mut condition = String::from_str(column);
        condition.append(" = ");
        condition.append(p.as_str());
        s.conditions.push(condition);
        proof {
            let c = column@ + " = "@ + placeholder(before.params.len() + 1);
            assert(s@.conditions =~= before.conditions.push(c));
            let n = s@.conditions.len();
            assert(placeholder(n as nat).is_suffix_of(c)) by {
                assert(c.subrange(c.len() - placeholder(n as nat).len(), c.len() as int)
                    =~= placeholder(n as nat));
            }
        }
        s
    }

    /// `column = ANY(values)` — one row per id, in one round trip, instead of a
    /// query per id.
    pub fn where_any_of<T: Bind>(self, column: &'static str, values: T) -> (r: Self)
        requires
            self@.wf(),
        ensures
            r@ == with_condition(
                self@,
                column@ + " = ANY("@ + placeholder(self@.params.len() + 1) + ")"@,
                values.bound(),
            ),
            r@.wf(),
    {
        let mut s = self;
        let ghost before = s@;
        let p = s.params.bind(values);
        let mut condition = String::from_str(column);
        condition.append(" = ANY(");
        condition.append(p.as_str());
        condition.append(")");
        s.conditions.push(condition);
        proof {
            let ph = placeholder(before.params.len() + 1);
            let c = column@ + " = ANY("@ + ph + ")"@;
            assert(s@.conditions =~= before.conditions.push(c));
            let tail = ph + ")"@;
            assert(tail.is_suffix_of(c)) by {
                assert(c.subrange(c.len() - tail.len(), c.len() as int) =~= tail);
            }
        }
        s
    }

    /// `ORDER BY column`.
    pub fn order_by(self, column: &'static str) -> (r: Self)
        requires
            self@.wf(),
        ensures
            r@ == (SelectView { order_by: Some(column@), ..self@ }),
            r@.wf(),
    {
        let mut s = self;
        s.order_by = Some(column);
        s
    }

    /// The SQL this builder renders, for tests and for reading.
    pub fn to_sql(&self) -> (r: String)
        ensures
            r@ == select_sql(self@),
    {
        let mut sql = String::from_str("SELECT ");
        let columns = join(self.columns.as_slice(), ", ");
        sql.append(columns.as_str());
        sql.append("\nFROM ");
        sql.append(self.from);
        let ghost head = sql@;
        let mut i: usize = 0;
        while i < self.joins.len()
            invariant
                i <= self@.joins.len(),
                self@.joins.len() == self.joins@.len(),
                sql@ == head + join_lines(self@.joins.subrange(0, i as int)),
            decreases self@.joins.len() - i,
        {
            sql.push('\n');
            sql.append(self.joins[i].as_str());
            proof {
                let js = self@.joins.subrange(0, i + 1);
                assert(js.drop_last() =~= self@.joins.subrange(0, i as int));
                assert(js.last() == self.joins@[i as int]@);
                assert(sql@ =~= head + join_lines(js));
            }
            i = i + 1;
        }
        proof {
            assert(self@.joins.subrange(0, self@.joins.len() as int) =~= self@.joins);
        }
        let ghost with_joins = sql@;
        if self.conditions.len() > 0 {
            sql.append("\nWHERE ");
            let list = join_strings(&self.conditions, " AND ");
            sql.append(list.as_str());
        }
        let ghost with_conditions = sql@;
        match self.order_by {
            Some(c) => {
                sql.append("\nORDER BY ");
                sql.append(c);
            },
            None => {},
        }
        proof {
            let v = self@;
            if v.conditions.len() > 0 {
                assert(with_conditions =~= with_joins + ("\nWHERE "@ + joined(
                    v.conditions,
                    " AND "@,
                )));
            } else {
                assert(with_conditions =~= with_joins + Seq::<char>::empty());
            }
            match v.order_by {
                Some(c) => {
                    assert(sql@ =~= with_conditions + ("\nORDER BY "@ + c));
                },
                None => {
                    assert(sql@ =~= with_conditions + Seq::<char>::empty());
                },
            }
        }
        sql
    }

    /// The rendered statement and its arguments, ready to run.
    pub fn into_query(self) -> (r: Query)
        ensures
            r.sql_text() == select_sql(self@),
            r.arguments() == self@.params,
    {
        let sql = self.to_sql();
        Query::new(sql, self.params)
    }
}

/// Clauses render in SQL's order no matter which order they are called in:
/// adding a join and adding a condition commute, so the statement is the same
/// either way round.
pub proof fn law_join_and_condition_commute(
    v: SelectView,
    clause: Seq<char>,
    condition: Seq<char>,
    value: SqlValueView,
)
    ensures
        select_sql(with_condition(with_join(v, clause), condition, value)) == select_sql(
            with_join(with_condition(v, condition, value), clause),
        ),
{
    assert(with_condition(with_join(v, clause), condition, value) == with_join(
        with_condition(v, condition, value),
        clause,
    ));
}

/// The n-th condition compares against the n-th argument: in any select the
/// builder can make, condition `i` ends with the placeholder `$(i+1)`, and
/// argument `i` is the value bound with it.
pub proof fn law_conditions_name_their_arguments(v: SelectView, i: int)
    requires
        v.wf(),
        0 <= i < v.conditions.len(),
    ensures
        v.params.len() == v.conditions.len(),
        condition_binds(v.conditions[i], (i + 1) as nat),
{
}

/// In the select `v`, a condition compares `column` with the argument
/// `value`: some condition reads `column = $n`, and the `n`-th argument is
/// `value`.
pub open spec fn compares(v: SelectView, column: Seq<char>, value: SqlValueView) -> bool {
    exists|i: int|
        0 <= i < v.conditions.len() && i < v.params.len() && #[trigger] v.conditions[i] == column
            + " = "@ + placeholder((i + 1) as nat) && v.params[i] == value
}

} // verus!
