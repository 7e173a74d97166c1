use vstd::prelude::*;
use vstd::string::{StrSliceExecFns, StringExecFns};

use crate::interpreter::{ExecutionError, ExecutionErrorVariant};
use crate::parser::grammar::Value;

use super::Expression;
use super::{spec_parse_constant_or_identifier_or_bracket_expression, spec_parse_expression, AccessModel, ExprModel};
use crate::parser::{
    grammar::utility::{fail_at, spec_expect_operator, spec_operator, ErroVar, Op, Parsed, Res, WarnVar},
    not_behind, remaining, ParseEnv, ParseState,
};
use super::{access_model, opt_expr_model, parse_constant_or_identifier_or_bracket_expression, parse_expression};
use crate::parser::grammar::utility::{parsed, parsed_res, ErrorHandler, OptRes, Parser, ParsingHelper};

verus! {

/// Two ways of accessing list elements
#[derive(Debug, PartialEq)]
pub enum IndexOrRange {
    Index(Box<Expression>),
    Range(Box<Expression>, Box<Expression>),
}

impl IndexOrRange {
    pub fn index(i: Expression) -> (r: Self)
        ensures
            r == IndexOrRange::Index(Box::new(i)),
    {
        IndexOrRange::Index(Box::new(i))
    }

    pub fn range(li: Expression, ri: Expression) -> (r: Self)
        ensures
            r == IndexOrRange::Range(Box::new(li), Box::new(ri)),
    {
        IndexOrRange::Range(Box::new(li), Box::new(ri))
    }
}

/// List element or list slice access expression
#[derive(Debug, PartialEq)]
pub struct ListAccessExpr {
    pub list: Box<Expression>,
    pub access: IndexOrRange,
}

impl ListAccessExpr {
    pub fn new(list: Expression, access: IndexOrRange) -> (r: Self)
        ensures
            r == (ListAccessExpr { list: Box::new(list), access }),
    {
        Self { list: Box::new(list), access }
    }
}

impl From<ListAccessExpr> for Expression {
    fn from(e: ListAccessExpr) -> (r: Self)
        ensures
            r == Expression::ListAccess(e),
    {
        Expression::ListAccess(e)
    }
}

impl vstd::std_specs::convert::FromSpecImpl<ListAccessExpr> for Expression {
    open spec fn obeys_from_spec() -> bool {
        true
    }

    open spec fn from_spec(e: ListAccessExpr) -> Self {
        Expression::ListAccess(e)
    }
}


/// index_or_range_access
///     = expression, [RANGE, expression]
///     ;
pub open spec fn spec_parse_index_or_range_access(e: ParseEnv, s: ParseState) -> (
    ParseState,
    Res<AccessModel>,
)
    decreases remaining(e, s), 45int,
{
    proof {
        reveal(spec_operator);
    }
    let (s1, r) = spec_parse_expression(e, s);
    match r {
        Err(x) => (s1, Err(x)),
        Ok(None) => fail_at(s1, ErroVar::ListAccessEmpty),
        Ok(Some(l)) => {
            let (s2, range) = spec_operator(e, s1, Op::DoubleColon);
            if !range || !not_behind(s, s1) {
                (s2, Ok(AccessModel::Index(Box::new(l))))
            } else {
                let (s3, r2) = spec_parse_expression(e, s2);
                match r2 {
                    Err(x) => (s3, Err(x)),
                    Ok(None) => fail_at(s3, ErroVar::ListRangeAccessIncomplete),
                    Ok(Some(rr)) => (s3, Ok(AccessModel::Range(Box::new(l), Box::new(rr)))),
                }
            }
        },
    }
}

/// list_access
///     = OPEN_LIST, index_or_range_access, CLOSE_LIST
///     ;
pub open spec fn spec_parse_list_access(e: ParseEnv, s: ParseState) -> Parsed<AccessModel>
    decreases remaining(e, s), 18int,
{
    proof {
        reveal(spec_operator);
    }
    let (s1, open) = spec_operator(e, s, Op::OpenSquareBracket);
    if !open {
        (s1, Ok(None))
    } else {
        let (s2, r) = spec_parse_index_or_range_access(e, s1);
        match r {
            Err(x) => (s2, Err(x)),
            Ok(a) => {
                let (s3, w) = spec_expect_operator(
                    e,
                    s2,
                    Op::CloseSquareBracket,
                    WarnVar::MissingClosingSquareBracket,
                );
                match w {
                    Err(x) => (s3, Err(x)),
                    Ok(_) => (s3, Ok(Some(a))),
                }
            },
        }
    }
}

/// list_access_expression
///     = const_or_identifier_or_function_call_expression, [list_access]
///     ;
pub open spec fn spec_parse_list_access_expression(e: ParseEnv, s: ParseState) -> Parsed<ExprModel>
    decreases remaining(e, s), 19int,
{
    let (s1, r) = spec_parse_constant_or_identifier_or_bracket_expression(e, s);
    match r {
        Ok(Some(x)) => if !not_behind(s, s1) {
            (s1, Ok(None))
        } else {
            let (s2, a) = spec_parse_list_access(e, s1);
            match a {
                Err(y) => (s2, Err(y)),
                Ok(None) => (s2, Ok(Some(x))),
                Ok(Some(acc)) => (
                    s2,
                    Ok(Some(ExprModel::ListAccess { list: Box::new(x), access: acc })),
                ),
            }
        },
        _ => (s1, r),
    }
}


/// The model of a list access found by a parsing step.
pub open spec fn res_access_model(r: Res<IndexOrRange>) -> Res<AccessModel> {
    match r {
        Ok(a) => Ok(access_model(a)),
        Err(x) => Err(x),
    }
}

/// The model of an optional list access found by a parsing step.
pub open spec fn opt_access_model(r: OptRes<IndexOrRange>) -> OptRes<AccessModel> {
    match r {
        Ok(Some(a)) => Ok(Some(access_model(a))),
        Ok(None) => Ok(None),
        Err(x) => Err(x),
    }
}

/// index_or_range_access
///     = expression, [RANGE, expression]
///     ;
fn parse_index_or_range_access(p: &mut Parser) -> (r: Res<IndexOrRange>)
    ensures
        parsed_res(
            *old(p),
            *final(p),
            res_access_model(r),
            spec_parse_index_or_range_access(old(p).env(), old(p).state()),
        ),
    decreases remaining(old(p).env(), old(p).state()), 45int,
{
    let left_index = match parse_expression(p)? {
        Some(e) => e,
        None => return Err(p.error(ErroVar::ListAccessEmpty)),
    };
    if !p.operator(Op::DoubleColon)? {
        return Ok(IndexOrRange::index(left_index));
    }
    let right_index = match parse_expression(p)? {
        Some(e) => e,
        None => return Err(p.error(ErroVar::ListRangeAccessIncomplete)),
    };
    Ok(IndexOrRange::range(left_index, right_index))
}

/// list_access
///     = OPEN_LIST, index_or_range_access, CLOSE_LIST
///     ;
fn parse_list_access(p: &mut Parser) -> (r: OptRes<IndexOrRange>)
    ensures
        parsed(
            *old(p),
            *final(p),
            opt_access_model(r),
            spec_parse_list_access(old(p).env(), old(p).state()),
        ),
    decreases remaining(old(p).env(), old(p).state()), 18int,
{
    proof {
        reveal(spec_expect_operator);
    }
    if !p.operator(Op::OpenSquareBracket)? {
        return Ok(None);
    }
    let index_or_range = parse_index_or_range_access(p)?;
    if !p.operator(Op::CloseSquareBracket)? {
        p.warn(WarnVar::MissingClosingSquareBracket)?;
    }
    Ok(Some(index_or_range))
}

/// list_access_expression
///     = const_or_identifier_or_function_call_expression, [list_access]
///     ;
pub fn parse_list_access_expression(p: &mut Parser) -> (r: OptRes<Expression>)
    ensures
        parsed(
            *old(p),
            *final(p),
            opt_expr_model(r),
            spec_parse_list_access_expression(old(p).env(), old(p).state()),
        ),
    decreases remaining(old(p).env(), old(p).state()), 19int,
{
    if let Some(mut expression) = parse_constant_or_identifier_or_bracket_expression(p)? {
        if let Some(access) = parse_list_access(p)? {
            expression = Expression::ListAccess(ListAccessExpr::new(expression, access));
        }
        return Ok(Some(expression));
    }
    Ok(None)
}

/// Where an index value points into a list of `len` items: the position, or
/// the error that the access raises
pub open spec fn index_position(idx: Value, len: int) -> Result<int, ExecutionError> {
    match idx {
        Value::Int(i) => if 0 <= i < len {
            Ok(i as int)
        } else {
            Err(ExecutionError { variant: ExecutionErrorVariant::IndexOutOfBounds })
        },
        _ => Err(ExecutionError { variant: ExecutionErrorVariant::NonIntegerIndex }),
    }
}

/// Where the exclusive end of a range points into a list of `len` items
pub open spec fn range_end_position(idx: Value, len: int) -> Result<int, ExecutionError> {
    match idx {
        Value::Int(i) => if 0 < i <= len {
            Ok(i as int)
        } else {
            Err(ExecutionError { variant: ExecutionErrorVariant::IndexOutOfBounds })
        },
        _ => Err(ExecutionError { variant: ExecutionErrorVariant::NonIntegerIndex }),
    }
}

/// The item of `list` at `idx`
pub open spec fn spec_eval_index<T>(list: Seq<T>, idx: Value) -> Result<T, ExecutionError> {
    match index_position(idx, list.len() as int) {
        Ok(i) => Ok(list[i]),
        Err(e) => Err(e),
    }
}

/// The items of `list` from `lidx` up to, not including, `ridx`
pub open spec fn spec_eval_range<T>(list: Seq<T>, lidx: Value, ridx: Value) -> Result<
    Seq<T>,
    ExecutionError,
> {
    match index_position(lidx, list.len() as int) {
        Ok(l) => match range_end_position(ridx, list.len() as int) {
            Ok(r) => Ok(list.subrange(l, r)),
            Err(e) => Err(e),
        },
        Err(e) => Err(e),
    }
}

/// Both ends of a range are valid on their own but the range runs backwards
pub open spec fn reversed_range(len: int, lidx: Value, ridx: Value) -> bool {
    &&& index_position(lidx, len) matches Ok(l)
    &&& range_end_position(ridx, len) matches Ok(r)
    &&& l > r
}

fn int_position(idx: &Value, len: usize, end: bool) -> (r: Result<usize, ExecutionError>)
    ensures
        match r {
            Ok(i) => (if end {
                range_end_position(*idx, len as int)
            } else {
                index_position(*idx, len as int)
            }) == Ok::<int, ExecutionError>(i as int),
            Err(e) => (if end {
                range_end_position(*idx, len as int)
            } else {
                index_position(*idx, len as int)
            }) == Err::<int, ExecutionError>(e),
        },
{
    if let Value::Int(i) = idx {
        let i: i64 = *i;
        let ok = if end {
            0 < i && (i as u64) <= (len as u64)
        } else {
            0 <= i && (i as u64) < (len as u64)
        };
        if ok {
            Ok(i as usize)
        } else {
            Err(ExecutionError::new(ExecutionErrorVariant::IndexOutOfBounds))
        }
    } else {
        Err(ExecutionError::new(ExecutionErrorVariant::NonIntegerIndex))
    }
}

/// The sublist from `lidx` up to, not including, `ridx`
pub fn eval_range<T: Clone>(list: Vec<T>, lidx: Value, ridx: Value) -> (r: Result<
    Vec<T>,
    ExecutionError,
>)
    requires
        !reversed_range(list.len() as int, lidx, ridx),
    ensures
        match r {
            Ok(v) => spec_eval_range(list@, lidx, ridx) == Ok::<Seq<T>, ExecutionError>(v@),
            Err(e) => spec_eval_range(list@, lidx, ridx) == Err::<Seq<T>, ExecutionError>(e),
        },
{
    let mut list = list;
    let l = int_position(&lidx, list.len(), false)?;
    let r = int_position(&ridx, list.len(), true)?;
    let ghost whole = list@;
    assert(l <= r);
    list.truncate(r);
    let sub = list.split_off(l);
    assert(sub@ =~= whole.subrange(l as int, r as int));
    Ok(sub)
}

/// The item at `idx`
pub fn eval_index<T: Clone>(list: Vec<T>, idx: Value) -> (r: Result<T, ExecutionError>)
    ensures
        r == spec_eval_index(list@, idx),
{
    let mut list = list;
    let i = int_position(&idx, list.len(), false)?;
    Ok(list.swap_remove(i))
}

/// The one-character string at `idx` of a string
pub fn eval_string_index(list: &String, idx: Value) -> (r: Result<Value, ExecutionError>)
    ensures
        match spec_eval_index(list@, idx) {
            Ok(c) => r matches Ok(Value::String(s)) && s@ == seq![c],
            Err(e) => r == Err::<Value, ExecutionError>(e),
        },
{
    let text = list.as_str();
    let len = text.unicode_len();
    let i = int_position(&idx, len, false)?;
    let piece = text.substring_char(i, i + 1);
    let s = String::from_str(piece);
    proof {
        assert(s@ =~= seq![list@[i as int]]);
    }
    Ok(Value::String(s))
}

/// The substring from `lidx` up to, not including, `ridx`
pub fn eval_string_range(list: &String, lidx: Value, ridx: Value) -> (r: Result<
    Value,
    ExecutionError,
>)
    requires
        !reversed_range(list@.len() as int, lidx, ridx),
    ensures
        match spec_eval_range(list@, lidx, ridx) {
            Ok(sub) => r matches Ok(Value::String(s)) && s@ == sub,
            Err(e) => r == Err::<Value, ExecutionError>(e),
        },
{
    let text = list.as_str();
    let len = text.unicode_len();
    let l = int_position(&lidx, len, false)?;
    let r = int_position(&ridx, len, true)?;
    let piece = text.substring_char(l, r);
    Ok(Value::String(String::from_str(piece)))
}

} // verus!
