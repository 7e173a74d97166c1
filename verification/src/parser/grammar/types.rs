use vstd::prelude::*;

use super::{
    utility::{
        spec_expect_operator, spec_keyword, spec_operator, ErrorHandler, Kw, Op, OptRes, Parser,
        ParsingHelper, WarnVar, parsed,
    },
    DataType,
};
use crate::parser::{ParseEnv, ParseState};

verus! {

/// primitive_type
///     = TYPE_INT | TYPE_FLOAT | TYPE_BOOL | TYPE_STRING | list_type
///     ;
#[verifier::opaque]
pub open spec fn spec_parse_type(e: ParseEnv, s: ParseState) -> (ParseState, OptRes<DataType>) {
    let (s1, is_int) = spec_keyword(e, s, Kw::Int);
    if is_int {
        (s1, Ok(Some(DataType::Integer)))
    } else {
        let (s2, is_float) = spec_keyword(e, s1, Kw::Float);
        if is_float {
            (s2, Ok(Some(DataType::Float)))
        } else {
            let (s3, is_bool) = spec_keyword(e, s2, Kw::Bool);
            if is_bool {
                (s3, Ok(Some(DataType::Bool)))
            } else {
                let (s4, is_string) = spec_keyword(e, s3, Kw::String);
                if is_string {
                    (s4, Ok(Some(DataType::String)))
                } else {
                    spec_parse_list_type(e, s4)
                }
            }
        }
    }
}

/// list_type
///     = OPEN_LIST, CLOSE_LIST
///     ;
#[verifier::opaque]
pub open spec fn spec_parse_list_type(e: ParseEnv, s: ParseState) -> (
    ParseState,
    OptRes<DataType>,
) {
    let (s1, open) = spec_operator(e, s, Op::OpenSquareBracket);
    if !open {
        (s1, Ok(None))
    } else {
        let (s2, r) = spec_expect_operator(e, s1, Op::CloseSquareBracket, WarnVar::MissingClosingSquareBracket);
        match r {
            Err(x) => (s2, Err(x)),
            Ok(_) => (s2, Ok(Some(DataType::List))),
        }
    }
}

/// Parses a data type.
pub fn parse_type(p: &mut Parser) -> (r: OptRes<DataType>)
    ensures
        parsed(*old(p), *final(p), r, spec_parse_type(old(p).env(), old(p).state())),
{
    proof {
        reveal(spec_parse_type);
    }
    if p.keyword(Kw::Int)? {
        return Ok(Some(DataType::Integer));
    }
    if p.keyword(Kw::Float)? {
        return Ok(Some(DataType::Float));
    }
    if p.keyword(Kw::Bool)? {
        return Ok(Some(DataType::Bool));
    }
    if p.keyword(Kw::String)? {
        return Ok(Some(DataType::String));
    }
    parse_list_type(p)
}

fn parse_list_type(p: &mut Parser) -> (r: OptRes<DataType>)
    ensures
        parsed(*old(p), *final(p), r, spec_parse_list_type(old(p).env(), old(p).state())),
{
    proof {
        reveal(spec_parse_list_type);
        reveal(spec_expect_operator);
    }
    if !p.operator(Op::OpenSquareBracket)? {
        return Ok(None);
    }
    if !p.operator(Op::CloseSquareBracket)? {
        p.warn(WarnVar::MissingClosingSquareBracket)?;
    }
    Ok(Some(DataType::List))
}

} // verus!
