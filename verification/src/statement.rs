//! A statement for the database: its text, and the values bound to it in order.
use vstd::prelude::*;

use crate::clock::Timestamp;
use crate::json::{json, optional_json, Json};
use crate::text::{optional_view, views};

verus! {

/// A value bound to a statement.
#[derive(Debug)]
pub enum BindValue {
    BigInt(i64),
    OptionalBigInt(Option<i64>),
    Integer(i32),
    OptionalInteger(Option<i32>),
    Text(String),
    OptionalText(Option<String>),
    TextArray(Vec<String>),
    Json(serde_json::Value),
    OptionalJson(Option<serde_json::Value>),
    Moment(Timestamp),
    OptionalMoment(Option<Timestamp>),
}

/// What a bound value is.
pub enum Bound {
    BigInt(i64),
    OptionalBigInt(Option<i64>),
    Integer(i32),
    OptionalInteger(Option<i32>),
    Text(Seq<char>),
    OptionalText(Option<Seq<char>>),
    TextArray(Seq<Seq<char>>),
    Json(Json),
    OptionalJson(Option<Json>),
    Moment(Timestamp),
    OptionalMoment(Option<Timestamp>),
}

impl View for BindValue {
    type V = Bound;

    open spec fn view(&self) -> Bound {
        match *self {
            BindValue::BigInt(n) => Bound::BigInt(n),
            BindValue::OptionalBigInt(n) => Bound::OptionalBigInt(n),
            BindValue::Integer(n) => Bound::Integer(n),
            BindValue::OptionalInteger(n) => Bound::OptionalInteger(n),
            BindValue::Text(s) => Bound::Text(s@),
            BindValue::OptionalText(s) => Bound::OptionalText(optional_view(s)),
            BindValue::TextArray(texts) => Bound::TextArray(views(texts@)),
            BindValue::Json(v) => Bound::Json(json(v)),
            BindValue::OptionalJson(v) => Bound::OptionalJson(optional_json(v)),
            BindValue::Moment(t) => Bound::Moment(t),
            BindValue::OptionalMoment(t) => Bound::OptionalMoment(t),
        }
    }
}

/// What the bound values are.
pub open spec fn bounds(binds: Seq<BindValue>) -> Seq<Bound> {
    Seq::new(binds.len(), |i: int| binds[i]@)
}

/// A statement and the values bound to it, in the order of its parameters.
#[derive(Debug)]
pub struct Statement {
    pub sql: String,
    pub binds: Vec<BindValue>,
}

impl Statement {
    /// The statement has this text and binds these values in this order.
    pub open spec fn reads(self, sql: Seq<char>, binds: Seq<Bound>) -> bool {
        &&& self.sql@ == sql
        &&& bounds(self.binds@) =~= binds
    }
}

/// A statement that reads so has that text, as many values bound, and each value in its
/// place: what is bound is the number, the text or the time itself.
pub proof fn lemma_statement_binds(statement: Statement, sql: Seq<char>, binds: Seq<Bound>, i: int)
    requires
        statement.reads(sql, binds),
        0 <= i < binds.len(),
    ensures
        statement.sql@ == sql,
        statement.binds@.len() == binds.len(),
        binds[i] is BigInt ==> statement.binds@[i] == BindValue::BigInt(binds[i]->BigInt_0),
        binds[i] is OptionalBigInt ==> statement.binds@[i] == BindValue::OptionalBigInt(
            binds[i]->OptionalBigInt_0,
        ),
        binds[i] is Integer ==> statement.binds@[i] == BindValue::Integer(binds[i]->Integer_0),
        binds[i] is OptionalInteger ==> statement.binds@[i] == BindValue::OptionalInteger(
            binds[i]->OptionalInteger_0,
        ),
        binds[i] is Text ==> statement.binds@[i] is Text && statement.binds@[i]->Text_0@
            == binds[i]->Text_0,
        binds[i] is OptionalText ==> statement.binds@[i] is OptionalText && match binds[i]->OptionalText_0 {
            Some(text) => statement.binds@[i]->OptionalText_0 is Some
                && statement.binds@[i]->OptionalText_0->0@ == text,
            None => statement.binds@[i]->OptionalText_0 is None,
        },
        binds[i] is TextArray ==> statement.binds@[i] is TextArray
            && statement.binds@[i]->TextArray_0@.map_values(|text: String| text@)
            == binds[i]->TextArray_0,
        binds[i] is Json ==> statement.binds@[i] is Json && json(statement.binds@[i]->Json_0)
            == binds[i]->Json_0,
        binds[i] is OptionalJson ==> statement.binds@[i] is OptionalJson && match binds[i]->OptionalJson_0 {
            Some(value) => statement.binds@[i]->OptionalJson_0 is Some && json(
                statement.binds@[i]->OptionalJson_0->0,
            ) == value,
            None => statement.binds@[i]->OptionalJson_0 is None,
        },
        binds[i] is Moment ==> statement.binds@[i] == BindValue::Moment(binds[i]->Moment_0),
        binds[i] is OptionalMoment ==> statement.binds@[i] == BindValue::OptionalMoment(
            binds[i]->OptionalMoment_0,
        ),
{
    assert(bounds(statement.binds@).len() == statement.binds@.len());
    assert(bounds(statement.binds@)[i] == statement.binds@[i]@);
    if binds[i] is TextArray {
        assert(statement.binds@[i]->TextArray_0@.map_values(|text: String| text@)
            =~= binds[i]->TextArray_0);
    }
}

} // verus!
