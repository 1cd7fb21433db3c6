//! Statements and their parameters.

use vstd::prelude::*;

use crate::clock::Civil;
use crate::sql::Sql;

verus! {

/// A parameter of a statement.
#[derive(Debug)]
pub enum Value {
    Null,
    Int(i64),
    Text(String),
    Bytes(Vec<u8>),
    Time(Civil),
}

/// What [`Value`] stands for.
pub enum ValueView {
    Null,
    Int(i64),
    Text(Seq<char>),
    Bytes(Seq<u8>),
    Time(Civil),
}

impl DeepView for Value {
    type V = ValueView;

    open spec fn deep_view(&self) -> ValueView {
        match self {
            Value::Null => ValueView::Null,
            Value::Int(a) => ValueView::Int(*a),
            Value::Text(a) => ValueView::Text(a@),
            Value::Bytes(a) => ValueView::Bytes(a.deep_view()),
            Value::Time(a) => ValueView::Time(*a),
        }
    }
}

/// A statement with its parameters, in the order in which they are bound.
#[derive(Debug)]
pub struct Statement {
    pub sql: Sql,
    pub params: Vec<Value>,
}

/// What [`Statement`] stands for.
pub struct StatementView {
    pub sql: Sql,
    pub params: Seq<ValueView>,
}

impl DeepView for Statement {
    type V = StatementView;

    open spec fn deep_view(&self) -> StatementView {
        StatementView {
            sql: self.sql,
            params: self.params.deep_view(),
        }
    }
}

/// A number as a parameter.
pub open spec fn int_value(n: int) -> ValueView {
    ValueView::Int(n as i64)
}

/// A text as a parameter.
pub open spec fn text_value(text: Seq<char>) -> ValueView {
    ValueView::Text(text)
}

/// A text as a parameter, or null.
pub open spec fn opt_text_value(text: Option<Seq<char>>) -> ValueView {
    match text {
        Some(text) => ValueView::Text(text),
        None => ValueView::Null,
    }
}

/// A number as a parameter, or null.
pub open spec fn opt_int_value(n: Option<i32>) -> ValueView {
    match n {
        Some(n) => ValueView::Int(n as i64),
        None => ValueView::Null,
    }
}

/// Bytes as a parameter, or null.
pub open spec fn opt_bytes_value(bytes: Option<Seq<u8>>) -> ValueView {
    match bytes {
        Some(bytes) => ValueView::Bytes(bytes),
        None => ValueView::Null,
    }
}

/// A statement with its parameters.
pub open spec fn statement(sql: Sql, params: Seq<ValueView>) -> StatementView {
    StatementView { sql, params }
}

pub(crate) fn int64(n: i64) -> (value: Value)
    ensures
        value.deep_view() == int_value(n as int),
{
    Value::Int(n)
}

pub(crate) fn int32(n: i32) -> (value: Value)
    ensures
        value.deep_view() == int_value(n as int),
{
    Value::Int(n as i64)
}

pub(crate) fn int16(n: i16) -> (value: Value)
    ensures
        value.deep_view() == int_value(n as int),
{
    Value::Int(n as i64)
}

pub(crate) fn opt_int32(n: Option<i32>) -> (value: Value)
    ensures
        value.deep_view() == opt_int_value(n),
{
    match n {
        Some(n) => Value::Int(n as i64),
        None => Value::Null,
    }
}

pub(crate) fn text(t: &String) -> (value: Value)
    ensures
        value.deep_view() == text_value(t@),
{
    Value::Text(t.clone())
}

pub(crate) fn opt_text(text: &Option<String>) -> (value: Value)
    ensures
        value.deep_view() == opt_text_value(text.deep_view()),
{
    match text {
        Some(text) => Value::Text(text.clone()),
        None => Value::Null,
    }
}

/// A copy of bytes.
pub(crate) fn copy_bytes(bytes: &Vec<u8>) -> (copy: Vec<u8>)
    ensures
        copy.deep_view() == bytes.deep_view(),
{
    let copy = bytes.clone();
    assert(copy@ =~= bytes@);
    assert(copy.deep_view() =~= bytes.deep_view());
    copy
}

/// A copy of bytes, where there are any.
pub(crate) fn copy_opt_bytes(bytes: &Option<Vec<u8>>) -> (copy: Option<Vec<u8>>)
    ensures
        copy.deep_view() == bytes.deep_view(),
{
    match bytes {
        Some(bytes) => Some(copy_bytes(bytes)),
        None => None,
    }
}

pub(crate) fn opt_bytes(bytes: &Option<Vec<u8>>) -> (value: Value)
    ensures
        value.deep_view() == opt_bytes_value(bytes.deep_view()),
{
    match bytes {
        Some(bytes) => Value::Bytes(copy_bytes(bytes)),
        None => Value::Null,
    }
}

/// A copy of a text, where there is one.
pub(crate) fn copy_opt_text(text: &Option<String>) -> (copy: Option<String>)
    ensures
        copy.deep_view() == text.deep_view(),
{
    match text {
        Some(text) => Some(text.clone()),
        None => None,
    }
}

/// Whether two texts are the same.
pub(crate) fn same_text(a: &String, b: &String) -> (same: bool)
    ensures
        same == (a@ == b@),
{
    *a == *b
}

/// A statement with one parameter.
pub(crate) fn statement1(
    sql: Sql,
    a: Value,
) -> (made: Statement)
    ensures
        made.deep_view() == statement(
            sql,
            seq![a.deep_view()],
        ),
{
    let made = Statement { sql, params: vec![a] };
    assert(made.deep_view().params =~= seq![a.deep_view()]);
    made
}

/// A statement with two parameters.
pub(crate) fn statement2(
    sql: Sql,
    a: Value,
    b: Value,
) -> (made: Statement)
    ensures
        made.deep_view() == statement(
            sql,
            seq![a.deep_view(), b.deep_view()],
        ),
{
    let made = Statement { sql, params: vec![a, b] };
    assert(made.deep_view().params =~= seq![a.deep_view(), b.deep_view()]);
    made
}

/// A statement with three parameters.
pub(crate) fn statement3(
    sql: Sql,
    a: Value,
    b: Value,
    c: Value,
) -> (made: Statement)
    ensures
        made.deep_view() == statement(
            sql,
            seq![a.deep_view(), b.deep_view(), c.deep_view()],
        ),
{
    let made = Statement { sql, params: vec![a, b, c] };
    assert(made.deep_view().params =~= seq![a.deep_view(), b.deep_view(), c.deep_view()]);
    made
}

/// A statement with four parameters.
pub(crate) fn statement4(
    sql: Sql,
    a: Value,
    b: Value,
    c: Value,
    d: Value,
) -> (made: Statement)
    ensures
        made.deep_view() == statement(
            sql,
            seq![a.deep_view(), b.deep_view(), c.deep_view(), d.deep_view()],
        ),
{
    let made = Statement { sql, params: vec![a, b, c, d] };
    assert(made.deep_view().params =~= seq![
        a.deep_view(),
        b.deep_view(),
        c.deep_view(),
        d.deep_view(),
    ]);
    made
}

/// A statement with five parameters.
pub(crate) fn statement5(
    sql: Sql,
    a: Value,
    b: Value,
    c: Value,
    d: Value,
    e: Value,
) -> (made: Statement)
    ensures
        made.deep_view() == statement(
            sql,
            seq![a.deep_view(), b.deep_view(), c.deep_view(), d.deep_view(), e.deep_view()],
        ),
{
    let made = Statement { sql, params: vec![a, b, c, d, e] };
    assert(made.deep_view().params =~= seq![
        a.deep_view(),
        b.deep_view(),
        c.deep_view(),
        d.deep_view(),
        e.deep_view(),
    ]);
    made
}

/// A statement with six parameters.
pub(crate) fn statement6(
    sql: Sql,
    a: Value,
    b: Value,
    c: Value,
    d: Value,
    e: Value,
    f: Value,
) -> (made: Statement)
    ensures
        made.deep_view() == statement(
            sql,
            seq![
                a.deep_view(),
                b.deep_view(),
                c.deep_view(),
                d.deep_view(),
                e.deep_view(),
                f.deep_view(),
            ],
        ),
{
    let made = Statement { sql, params: vec![a, b, c, d, e, f] };
    assert(made.deep_view().params =~= seq![
        a.deep_view(),
        b.deep_view(),
        c.deep_view(),
        d.deep_view(),
        e.deep_view(),
        f.deep_view(),
    ]);
    made
}

/// A statement with seven parameters.
pub(crate) fn statement7(
    sql: Sql,
    a: Value,
    b: Value,
    c: Value,
    d: Value,
    e: Value,
    f: Value,
    g: Value,
) -> (made: Statement)
    ensures
        made.deep_view() == statement(
            sql,
            seq![
                a.deep_view(),
                b.deep_view(),
                c.deep_view(),
                d.deep_view(),
                e.deep_view(),
                f.deep_view(),
                g.deep_view(),
            ],
        ),
{
    let made = Statement { sql, params: vec![a, b, c, d, e, f, g] };
    assert(made.deep_view().params =~= seq![
        a.deep_view(),
        b.deep_view(),
        c.deep_view(),
        d.deep_view(),
        e.deep_view(),
        f.deep_view(),
        g.deep_view(),
    ]);
    made
}

/// A statement with eight parameters.
pub(crate) fn statement8(
    sql: Sql,
    a: Value,
    b: Value,
    c: Value,
    d: Value,
    e: Value,
    f: Value,
    g: Value,
    h: Value,
) -> (made: Statement)
    ensures
        made.deep_view() == statement(
            sql,
            seq![
                a.deep_view(),
                b.deep_view(),
                c.deep_view(),
                d.deep_view(),
                e.deep_view(),
                f.deep_view(),
                g.deep_view(),
                h.deep_view(),
            ],
        ),
{
    let made = Statement { sql, params: vec![a, b, c, d, e, f, g, h] };
    assert(made.deep_view().params =~= seq![
        a.deep_view(),
        b.deep_view(),
        c.deep_view(),
        d.deep_view(),
        e.deep_view(),
        f.deep_view(),
        g.deep_view(),
        h.deep_view(),
    ]);
    made
}

/// A statement with ten parameters.
pub(crate) fn statement10(
    sql: Sql,
    a: Value,
    b: Value,
    c: Value,
    d: Value,
    e: Value,
    f: Value,
    g: Value,
    h: Value,
    i: Value,
    j: Value,
) -> (made: Statement)
    ensures
        made.deep_view() == statement(
            sql,
            seq![
                a.deep_view(),
                b.deep_view(),
                c.deep_view(),
                d.deep_view(),
                e.deep_view(),
                f.deep_view(),
                g.deep_view(),
                h.deep_view(),
                i.deep_view(),
                j.deep_view(),
            ],
        ),
{
    let made = Statement { sql, params: vec![a, b, c, d, e, f, g, h, i, j] };
    assert(made.deep_view().params =~= seq![
        a.deep_view(),
        b.deep_view(),
        c.deep_view(),
        d.deep_view(),
        e.deep_view(),
        f.deep_view(),
        g.deep_view(),
        h.deep_view(),
        i.deep_view(),
        j.deep_view(),
    ]);
    made
}

/// A parameter holds what it was made of, and two parameters of one kind are the same only where
/// they were made of the same.
pub proof fn a_parameter_holds_its_value(
    n: i64,
    text: Seq<char>,
    number: Option<i32>,
    bytes: Option<Seq<u8>>,
    sql: Sql,
    params: Seq<ValueView>,
)
    ensures
        int_value(n as int) == ValueView::Int(n),
        text_value(text) == ValueView::Text(text),
        opt_text_value(Some(text)) == ValueView::Text(text),
        opt_text_value(None) == ValueView::Null,
        opt_int_value(number) == match number {
            Some(number) => ValueView::Int(number as i64),
            None => ValueView::Null,
        },
        opt_bytes_value(bytes) == match bytes {
            Some(bytes) => ValueView::Bytes(bytes),
            None => ValueView::Null,
        },
        statement(sql, params) == (StatementView { sql, params }),
{
}

} // verus!
