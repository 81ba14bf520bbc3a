//! The bound values of a statement, and the `$1`, `$2`, … that name them.

use vstd::prelude::*;
use vstd::string::*;

use crate::sql_builder::value::{Bind, SqlValue, SqlValueView};
use crate::text::{decimal, decimal_string};

verus! {

/// `$n`, the placeholder that names the `n`-th argument.
pub open spec fn placeholder(n: nat) -> Seq<char> {
    seq!['$'] + decimal(n)
}

/// A statement's arguments, in the order Postgres will read them.
///
/// The one rule this type exists to enforce: a placeholder is *returned by* the
/// call that binds its value. There is no way to write a `$3` without having
/// just bound the third argument, so the number in the SQL and the position in
/// the argument list cannot drift apart.
#[derive(Debug)]
pub struct Params {
    values: Vec<SqlValue>,
}

impl View for Params {
    type V = Seq<SqlValueView>;

    closed spec fn view(&self) -> Seq<SqlValueView> {
        self.values@.map_values(|v: SqlValue| v@)
    }
}

impl Default for Params {
    fn default() -> (r: Self)
        ensures
            r@ == Seq::<SqlValueView>::empty(),
    {
        let r = Params { values: Vec::new() };
        proof {
            assert(r@ =~= Seq::<SqlValueView>::empty());
        }
        r
    }
}

impl Params {
    /// No arguments yet.
    pub fn new() -> (r: Self)
        ensures
            r@ == Seq::<SqlValueView>::empty(),
    {
        Params::default()
    }

    /// How many arguments have been bound.
    pub fn len(&self) -> (r: usize)
        ensures
            r == self@.len(),
    {
        self.values.len()
    }

    /// Bind `value` and return the placeholder that refers to it.
    pub fn bind<T: Bind>(&mut self, value: T) -> (r: String)
        ensures
            final(self)@ == old(self)@.push(value.bound()),
            r@ == placeholder(final(self)@.len()),
    {
        let v = value.into_value();
        self.values.push(v);
        proof {
            assert(self@ =~= old(self)@.push(value.bound()));
        }
        let n = self.values.len();
        let mut r = String::new();
        r.push('$');
        let digits = decimal_string(n as u64);
        r.append(digits.as_str());
        proof {
            assert(r@ =~= placeholder(n as nat));
        }
        r
    }

    /// The arguments, in bind order.
    pub fn finish(self) -> (r: Vec<SqlValue>)
        ensures
            r@.map_values(|v: SqlValue| v@) == self@,
    {
        self.values
    }
}

/// Placeholders count binds from one: starting from no arguments
/// (`Params::new`) and binding `values` one after another (`Params::bind`, which
/// pushes its value and returns the placeholder naming the new length), the
/// `i`-th bind returns `$(i+1)`, and the arguments are `values`, in order.
pub proof fn law_binds_number_from_one(
    states: Seq<Seq<SqlValueView>>,
    values: Seq<SqlValueView>,
    returned: Seq<Seq<char>>,
)
    requires
        states.len() == values.len() + 1,
        returned.len() == values.len(),
        states[0] == Seq::<SqlValueView>::empty(),
        forall|i: int| 0 <= i < values.len() ==> #[trigger] states[i + 1] == states[i].push(values[i]),
        forall|i: int| 0 <= i < values.len() ==> #[trigger] returned[i] == placeholder(states[i + 1].len()),
    ensures
        forall|i: int| 0 <= i < values.len() ==> #[trigger] returned[i] == placeholder((i + 1) as nat),
        states[values.len() as int] == values,
    decreases values.len(),
{
    if values.len() > 0 {
        let n = values.len() - 1;
        law_binds_number_from_one(states.drop_last(), values.drop_last(), returned.drop_last());
        assert(states[n] == values.drop_last());
        assert(states[n + 1] == states[n].push(values[n]));
        assert(states[values.len() as int] =~= values);
        assert forall|i: int| 0 <= i < values.len() implies #[trigger] returned[i] == placeholder(
            (i + 1) as nat,
        ) by {
            if i < n {
                assert(returned.drop_last()[i] == returned[i]);
            } else {
                assert(states[i + 1].len() == i + 1);
            }
        }
    }
}

} // verus!
