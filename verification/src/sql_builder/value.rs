//! The values a statement binds.

use vstd::prelude::*;
use vstd::string::*;

use crate::time::Timestamp;

verus! {

/// One bound argument, typed as Postgres will read it. `None` is a `NULL` of
/// that type.
#[derive(Debug)]
pub enum SqlValue {
    Bool(Option<bool>),
    SmallInt(Option<i16>),
    Int(Option<i32>),
    BigInt(Option<i64>),
    Text(Option<String>),
    /// A UUID, as its 128-bit value.
    Uuid(Option<u128>),
    Timestamp(Option<Timestamp>),
    /// A `float8`, as the IEEE-754 bit pattern of the double.
    Float8(Option<u64>),
    /// A JSON document, as its text.
    Json(String),
    BigIntArray(Vec<i64>),
    UuidArray(Vec<u128>),
}

/// What a [`SqlValue`] holds.
pub enum SqlValueView {
    Bool(Option<bool>),
    SmallInt(Option<i16>),
    Int(Option<i32>),
    BigInt(Option<i64>),
    Text(Option<Seq<char>>),
    Uuid(Option<u128>),
    Timestamp(Option<Timestamp>),
    Float8(Option<u64>),
    Json(Seq<char>),
    BigIntArray(Seq<i64>),
    UuidArray(Seq<u128>),
}

impl View for SqlValue {
    type V = SqlValueView;

    open spec fn view(&self) -> SqlValueView {
        match self {
            SqlValue::Bool(v) => SqlValueView::Bool(*v),
            SqlValue::SmallInt(v) => SqlValueView::SmallInt(*v),
            SqlValue::Int(v) => SqlValueView::Int(*v),
            SqlValue::BigInt(v) => SqlValueView::BigInt(*v),
            SqlValue::Text(v) => SqlValueView::Text(
                match v {
                    Some(s) => Some(s@),
                    None => None,
                },
            ),
            SqlValue::Uuid(v) => SqlValueView::Uuid(*v),
            SqlValue::Timestamp(v) => SqlValueView::Timestamp(*v),
            SqlValue::Float8(v) => SqlValueView::Float8(*v),
            SqlValue::Json(s) => SqlValueView::Json(s@),
            SqlValue::BigIntArray(v) => SqlValueView::BigIntArray(v@),
            SqlValue::UuidArray(v) => SqlValueView::UuidArray(v@),
        }
    }
}

/// A Rust value that can be bound as a statement argument.
pub trait Bind {
    /// The argument this value binds as.
    spec fn bound(&self) -> SqlValueView;

    fn into_value(self) -> (r: SqlValue)
        ensures
            r@ == self.bound(),
    ;
}

impl Bind for SqlValue {
    open spec fn bound(&self) -> SqlValueView {
        self@
    }

    fn into_value(self) -> (r: SqlValue) {
        self
    }
}

impl<'a> Bind for &'a str {
    open spec fn bound(&self) -> SqlValueView {
        SqlValueView::Text(Some((*self)@))
    }

    fn into_value(self) -> (r: SqlValue) {
        SqlValue::Text(Some(String::from_str(self)))
    }
}

impl<'a> Bind for &'a String {
    open spec fn bound(&self) -> SqlValueView {
        SqlValueView::Text(Some((*self)@))
    }

    fn into_value(self) -> (r: SqlValue) {
        SqlValue::Text(Some(self.clone()))
    }
}

impl<'a> Bind for &'a Option<String> {
    open spec fn bound(&self) -> SqlValueView {
        SqlValueView::Text(
            match *self {
                Some(s) => Some(s@),
                None => None,
            },
        )
    }

    fn into_value(self) -> (r: SqlValue) {
        match self {
            Some(s) => SqlValue::Text(Some(s.clone())),
            None => SqlValue::Text(None),
        }
    }
}

impl Bind for bool {
    open spec fn bound(&self) -> SqlValueView {
        SqlValueView::Bool(Some(*self))
    }

    fn into_value(self) -> (r: SqlValue) {
        SqlValue::Bool(Some(self))
    }
}

impl Bind for i16 {
    open spec fn bound(&self) -> SqlValueView {
        SqlValueView::SmallInt(Some(*self))
    }

    fn into_value(self) -> (r: SqlValue) {
        SqlValue::SmallInt(Some(self))
    }
}

impl Bind for Option<i16> {
    open spec fn bound(&self) -> SqlValueView {
        SqlValueView::SmallInt(*self)
    }

    fn into_value(self) -> (r: SqlValue) {
        SqlValue::SmallInt(self)
    }
}

impl Bind for i32 {
    open spec fn bound(&self) -> SqlValueView {
        SqlValueView::Int(Some(*self))
    }

    fn into_value(self) -> (r: SqlValue) {
        SqlValue::Int(Some(self))
    }
}

impl Bind for Option<i32> {
    open spec fn bound(&self) -> SqlValueView {
        SqlValueView::Int(*self)
    }

    fn into_value(self) -> (r: SqlValue) {
        SqlValue::Int(self)
    }
}

impl Bind for i64 {
    open spec fn bound(&self) -> SqlValueView {
        SqlValueView::BigInt(Some(*self))
    }

    fn into_value(self) -> (r: SqlValue) {
        SqlValue::BigInt(Some(self))
    }
}

impl Bind for Option<i64> {
    open spec fn bound(&self) -> SqlValueView {
        SqlValueView::BigInt(*self)
    }

    fn into_value(self) -> (r: SqlValue) {
        SqlValue::BigInt(self)
    }
}

impl Bind for u128 {
    open spec fn bound(&self) -> SqlValueView {
        SqlValueView::Uuid(Some(*self))
    }

    fn into_value(self) -> (r: SqlValue) {
        SqlValue::Uuid(Some(self))
    }
}

impl Bind for Timestamp {
    open spec fn bound(&self) -> SqlValueView {
        SqlValueView::Timestamp(Some(*self))
    }

    fn into_value(self) -> (r: SqlValue) {
        SqlValue::Timestamp(Some(self))
    }
}

impl Bind for Option<Timestamp> {
    open spec fn bound(&self) -> SqlValueView {
        SqlValueView::Timestamp(*self)
    }

    fn into_value(self) -> (r: SqlValue) {
        SqlValue::Timestamp(self)
    }
}

impl<'a> Bind for &'a [i64] {
    open spec fn bound(&self) -> SqlValueView {
        SqlValueView::BigIntArray((*self)@)
    }

    fn into_value(self) -> (r: SqlValue) {
        SqlValue::BigIntArray(vstd::slice::slice_to_vec(self))
    }
}

impl<'a> Bind for &'a [u128] {
    open spec fn bound(&self) -> SqlValueView {
        SqlValueView::UuidArray((*self)@)
    }

    fn into_value(self) -> (r: SqlValue) {
        SqlValue::UuidArray(vstd::slice::slice_to_vec(self))
    }
}

} // verus!
