use vstd::prelude::*;

use super::{
    expressions::{
        statement::{opt_statements_model, parse_code_block, spec_parse_code_block, Statement},
        statements_model, StatementModel,
    },
    types::{parse_type, spec_parse_type},
    utility::{
        fail_at, parsed, parsed_res, spec_expect_operator, spec_identifier, spec_keyword,
        spec_operator, ErrorHandler, ErroVar, Kw, Op, OptRes, Parsed, Parser, ParsingHelper, Res,
        WarnVar,
    },
    DataType,
};
use crate::parser::{advance, not_behind, remaining, spec_warn, ParseEnv, ParseState, ParserError};

verus! {

/// A single function parameter
#[derive(Debug, PartialEq)]
pub struct Parameter {
    pub name: String,
    pub data_type: DataType,
}

impl Parameter {
    pub fn new(name: String, data_type: DataType) -> (r: Self)
        ensures
            r == (Parameter { name, data_type }),
    {
        Self { name, data_type }
    }
}

/// Definition of a function
#[derive(Debug, PartialEq)]
pub struct FunctionDefinition {
    pub identifier: String,
    pub params: Vec<Parameter>,
    pub statements: Vec<Statement>,
    pub data_type: DataType,
}

/// Mathematical model of a function definition
pub struct FunctionModel {
    pub identifier: String,
    pub params: Seq<Parameter>,
    pub statements: Seq<StatementModel>,
    pub data_type: DataType,
}

/// The model of a function definition.
pub open spec fn function_model(f: FunctionDefinition) -> FunctionModel {
    FunctionModel {
        identifier: f.identifier,
        params: f.params@,
        statements: statements_model(f.statements@),
        data_type: f.data_type,
    }
}

/// The model of a function definition found by a parsing step.
pub open spec fn opt_function_model(r: OptRes<FunctionDefinition>) -> OptRes<FunctionModel> {
    match r {
        Ok(Some(f)) => Ok(Some(function_model(f))),
        Ok(None) => Ok(None),
        Err(x) => Err(x),
    }
}

impl FunctionDefinition {
    pub fn new(
        identifier: String,
        params: Vec<Parameter>,
        statements: Vec<Statement>,
        data_type: DataType,
    ) -> (r: Self)
        ensures
            r == (FunctionDefinition { identifier, params, statements, data_type }),
    {
        Self { identifier, params, statements, data_type }
    }
}

/// Whether one of `params` has the given name.
pub open spec fn has_parameter_named(params: Seq<Parameter>, name: String) -> bool {
    exists|i: int| 0 <= i < params.len() && (#[trigger] params[i]).name@ == name@
}

/// Whether no two of `params` have the same name.
pub open spec fn distinct_parameters(params: Seq<Parameter>) -> bool {
    forall|i: int, j: int|
        0 <= i < params.len() && 0 <= j < params.len() && i != j ==> (#[trigger] params[i]).name@
            != (#[trigger] params[j]).name@
}

/// parameter
///     = IDENTIFIER, TYPE_SIGNATURE, type
///     ;
#[verifier::opaque]
pub open spec fn spec_parse_parameter(e: ParseEnv, s: ParseState) -> Parsed<Parameter> {
    let (s1, id) = spec_identifier(e, s);
    match id {
        None => (s1, Ok(None)),
        Some(name) => {
            let (s2, w) = spec_expect_operator(e, s1, Op::Colon, WarnVar::MissingColon);
            match w {
                Err(x) => (s2, Err(x)),
                Ok(_) => {
                    let (s3, t) = spec_parse_type(e, s2);
                    match t {
                        Err(x) => (s3, Err(x)),
                        Ok(None) => fail_at(s3, ErroVar::FunctionParameterMissingType),
                        Ok(Some(data_type)) => (s3, Ok(Some(Parameter { name, data_type }))),
                    }
                },
            }
        },
    }
}

/// parameters
///     = [parameter, {SPLIT, parameter}]
///     ;
/// A parameter named like an earlier one is a critical error; a `SPLIT`
/// not followed by a parameter is reported and skipped.
pub open spec fn spec_parse_parameters(e: ParseEnv, s: ParseState) -> (ParseState, Res<Seq<Parameter>>) {
    let (s1, r) = spec_parse_parameter(e, s);
    match r {
        Err(x) => (s1, Err(x)),
        Ok(None) => (s1, Ok(Seq::empty())),
        Ok(Some(param)) => spec_parse_parameters_tail(e, s1, seq![param]),
    }
}

/// The parameters that follow the ones in `acc`.
pub open spec fn spec_parse_parameters_tail(e: ParseEnv, s: ParseState, acc: Seq<Parameter>) -> (
    ParseState,
    Res<Seq<Parameter>>,
)
    decreases remaining(e, s),
{
    proof {
        reveal(spec_operator);
    }
    let (s1, split) = spec_operator(e, s, Op::Split);
    if !split {
        (s1, Ok(acc))
    } else {
        let (s2, r) = spec_parse_parameter(e, s1);
        match r {
            Err(x) => (s2, Err(x)),
            Ok(Some(param)) => if has_parameter_named(acc, param.name) {
                fail_at(s2, ErroVar::DuplicateParameter)
            } else if !not_behind(s1, s2) {
                (s2, Ok(acc))
            } else {
                spec_parse_parameters_tail(e, s2, acc.push(param))
            },
            Ok(None) => {
                let (s3, w) = spec_warn(e, s2, WarnVar::ExpectedParameter);
                match w {
                    Err(x) => (s3, Err(x)),
                    Ok(_) => if !not_behind(s1, s3) {
                        (s3, Ok(acc))
                    } else {
                        spec_parse_parameters_tail(e, s3, acc)
                    },
                }
            },
        }
    }
}

/// function_definition
///     = KW_FN, IDENTIFIER, OPEN_BRACKET, parameters, CLOSE_BRACKET,
///       [RETURN_SIGNATURE, type], code_block
///     ;
/// Without a return type the function returns nothing.
#[verifier::opaque]
pub open spec fn spec_parse_function_def(e: ParseEnv, s: ParseState) -> Parsed<FunctionModel> {
    let (s1, kw) = spec_keyword(e, s, Kw::Fn);
    if !kw {
        (s1, Ok(None))
    } else {
        let (s2, id) = spec_identifier(e, s1);
        match id {
            None => fail_at(s2, ErroVar::FunctionMissingIdentifier),
            Some(identifier) => {
                let (s3, w1) = spec_expect_operator(
                    e,
                    s2,
                    Op::OpenRoundBracket,
                    WarnVar::MissingOpeningRoundBracket,
                );
                match w1 {
                    Err(x) => (s3, Err(x)),
                    Ok(_) => {
                        let (s4, ps) = spec_parse_parameters(e, s3);
                        match ps {
                            Err(x) => (s4, Err(x)),
                            Ok(params) => {
                                let (s5, w2) = spec_expect_operator(
                                    e,
                                    s4,
                                    Op::CloseRoundBracket,
                                    WarnVar::MissingClosingRoundBracket,
                                );
                                match w2 {
                                    Err(x) => (s5, Err(x)),
                                    Ok(_) => {
                                        let (s6, arrow) = spec_operator(e, s5, Op::Arrow);
                                        let (s7, t) = if arrow {
                                            spec_parse_type(e, s6)
                                        } else {
                                            (s6, Ok(Some(DataType::Nothing)))
                                        };
                                        match t {
                                            Err(x) => (s7, Err(x)),
                                            Ok(None) => fail_at(s7, ErroVar::FunctionMissingReturnType),
                                            Ok(Some(data_type)) => {
                                                let (s8, b) = spec_parse_code_block(e, s7);
                                                match b {
                                                    Err(x) => (s8, Err(x)),
                                                    Ok(None) => fail_at(
                                                        s8,
                                                        ErroVar::FunctionMissingBody,
                                                    ),
                                                    Ok(Some(statements)) => (
                                                        s8,
                                                        Ok(
                                                            Some(
                                                                FunctionModel {
                                                                    identifier,
                                                                    params,
                                                                    statements,
                                                                    data_type,
                                                                },
                                                            ),
                                                        ),
                                                    ),
                                                }
                                            },
                                        }
                                    },
                                }
                            },
                        }
                    },
                }
            },
        }
    }
}

fn parse_parameter(p: &mut Parser) -> (r: OptRes<Parameter>)
    ensures
        parsed(*old(p), *final(p), r, spec_parse_parameter(old(p).env(), old(p).state())),
{
    proof {
        reveal(spec_parse_parameter);
        reveal(spec_expect_operator);
    }
    if let Some(name) = p.identifier()? {
        if !p.operator(Op::Colon)? {
            p.warn(WarnVar::MissingColon)?;
        }
        let data_type = match parse_type(p)? {
            Some(t) => t,
            None => return Err(p.error(ErroVar::FunctionParameterMissingType)),
        };
        return Ok(Some(Parameter { name, data_type }));
    }
    Ok(None)
}

/// Whether one of `params` has the same name as `param`.
fn has_duplicate(params: &Vec<Parameter>, param: &Parameter) -> (r: bool)
    ensures
        r == has_parameter_named(params@, param.name),
{
    let mut i: usize = 0;
    while i < params.len()
        invariant
            i <= params.len(),
            forall|j: int| 0 <= j < i ==> (#[trigger] params@[j]).name@ != param.name@,
        decreases params.len() - i,
    {
        if params[i].name == param.name {
            return true;
        }
        i = i + 1;
    }
    false
}

fn parse_parameters(p: &mut Parser) -> (r: Res<Vec<Parameter>>)
    ensures
        parsed_res(
            *old(p),
            *final(p),
            match r {
                Ok(v) => Ok(v@),
                Err(x) => Err(x),
            },
            spec_parse_parameters(old(p).env(), old(p).state()),
        ),
        r matches Ok(v) ==> distinct_parameters(v@),
{
    let mut params: Vec<Parameter> = Vec::new();
    if let Some(param) = parse_parameter(p)? {
        params.push(param);
        assert(params@ =~= seq![param]);
        loop
            invariant
                p.env() == old(p).env(),
                spec_parse_parameters_tail(p.env(), p.state(), params@)
                    == spec_parse_parameters(old(p).env(), old(p).state()),
                advance(old(p).env(), old(p).state(), p.state(), false),
                distinct_parameters(params@),
            decreases remaining(p.env(), p.state()),
        {
            if !p.operator(Op::Split)? {
                return Ok(params);
            }
            if let Some(param) = parse_parameter(p)? {
                if has_duplicate(&params, &param) {
                    return Err(p.error(ErroVar::DuplicateParameter));
                }
                let ghost before = params@;
                params.push(param);
                assert(distinct_parameters(params@)) by {
                    assert forall|i: int, j: int|
                        0 <= i < params@.len() && 0 <= j < params@.len() && i != j implies (
                        #[trigger] params@[i]).name@ != (#[trigger] params@[j]).name@ by {
                        if i == before.len() {
                            assert(params@[j] == before[j]);
                        } else if j == before.len() {
                            assert(params@[i] == before[i]);
                        } else {
                            assert(params@[i] == before[i] && params@[j] == before[j]);
                        }
                    }
                }
            } else {
                p.warn(WarnVar::ExpectedParameter)?;
            }
        }
    }
    Ok(params)
}

/// function_definition
///     = KW_FN, IDENTIFIER, OPEN_BRACKET, parameters, CLOSE_BRACKET,
///       [RETURN_SIGNATURE, type], code_block
///     ;
pub fn parse_function_def(p: &mut Parser) -> (r: OptRes<FunctionDefinition>)
    ensures
        parsed(
            *old(p),
            *final(p),
            opt_function_model(r),
            spec_parse_function_def(old(p).env(), old(p).state()),
        ),
        r matches Ok(Some(f)) ==> distinct_parameters(f.params@),
{
    proof {
        reveal(spec_parse_function_def);
        reveal(spec_expect_operator);
    }
    if !p.keyword(Kw::Fn)? {
        return Ok(None);
    }
    let identifier = match p.identifier()? {
        Some(i) => i,
        None => return Err(p.error(ErroVar::FunctionMissingIdentifier)),
    };
    if !p.operator(Op::OpenRoundBracket)? {
        p.warn(WarnVar::MissingOpeningRoundBracket)?;
    }
    let params = parse_parameters(p)?;
    if !p.operator(Op::CloseRoundBracket)? {
        p.warn(WarnVar::MissingClosingRoundBracket)?;
    }
    let data_type = if p.operator(Op::Arrow)? {
        match parse_type(p)? {
            Some(t) => t,
            None => return Err(p.error(ErroVar::FunctionMissingReturnType)),
        }
    } else {
        DataType::Nothing
    };
    let statements = match parse_code_block(p)? {
        Some(b) => b,
        None => return Err(p.error(ErroVar::FunctionMissingBody)),
    };
    Ok(Some(FunctionDefinition { identifier, params, statements, data_type }))
}

} // verus!
