use vstd::prelude::*;

use super::{
    function::{
        function_model, opt_function_model, parse_function_def, spec_parse_function_def,
        FunctionDefinition, FunctionModel,
    },
    utility::{parsed_res, Parser, Res},
};
use crate::interpreter::{ExecutionError, ExecutionErrorVariant};
use crate::parser::grammar::DataType;
use crate::parser::{advance, ahead, remaining, ParseEnv, ParseState, ParserError};
use vstd::string::StringExecFns;

verus! {

/// Main program: the functions it defines, at most one for each name.
#[derive(Debug, PartialEq)]
pub struct Program {
    functions: Vec<FunctionDefinition>,
}

/// Whether no two of the functions have the same name.
pub open spec fn distinct_names(fs: Seq<FunctionModel>) -> bool {
    forall|i: int, j: int|
        0 <= i < fs.len() && 0 <= j < fs.len() && i != j ==> (#[trigger] fs[i]).identifier@
            != (#[trigger] fs[j]).identifier@
}

/// Whether one of the functions has the given name.
pub open spec fn defines(fs: Seq<FunctionModel>, name: Seq<char>) -> bool {
    exists|i: int| 0 <= i < fs.len() && (#[trigger] fs[i]).identifier@ == name
}

/// Adding a function definition: it takes the place of the function of the
/// same name where there is one, else it comes last.
pub open spec fn insert_function(fs: Seq<FunctionModel>, f: FunctionModel) -> Seq<FunctionModel> {
    if defines(fs, f.identifier@) {
        let i = choose|i: int| 0 <= i < fs.len() && (#[trigger] fs[i]).identifier@ == f.identifier@;
        fs.update(i, f)
    } else {
        fs.push(f)
    }
}

proof fn lemma_insert_existing(fs: Seq<FunctionModel>, f: FunctionModel, k: int)
    requires
        distinct_names(fs),
        0 <= k < fs.len(),
        fs[k].identifier@ == f.identifier@,
    ensures
        insert_function(fs, f) == fs.update(k, f),
{
    assert(defines(fs, f.identifier@));
    let i = choose|i: int| 0 <= i < fs.len() && (#[trigger] fs[i]).identifier@ == f.identifier@;
    assert(fs[i].identifier@ == fs[k].identifier@);
}

/// The function of the given name, if one is defined.
pub open spec fn function_named(fs: Seq<FunctionModel>, name: Seq<char>) -> Option<FunctionModel> {
    if defines(fs, name) {
        Some(fs[choose|i: int| 0 <= i < fs.len() && (#[trigger] fs[i]).identifier@ == name])
    } else {
        None
    }
}

/// Adding a definition to functions of distinct names keeps the names
/// distinct; afterwards its name gives the new definition, and every other
/// name gives what it gave before.
pub proof fn law_later_definition_wins(fs: Seq<FunctionModel>, f: FunctionModel)
    requires
        distinct_names(fs),
    ensures
        distinct_names(insert_function(fs, f)),
        function_named(insert_function(fs, f), f.identifier@) == Some(f),
        forall|name: Seq<char>|
            name != f.identifier@ ==> #[trigger] function_named(insert_function(fs, f), name)
                == function_named(fs, name),
{
    let g = insert_function(fs, f);
    if defines(fs, f.identifier@) {
        let k = choose|i: int| 0 <= i < fs.len() && (#[trigger] fs[i]).identifier@ == f.identifier@;
        lemma_insert_existing(fs, f, k);
        assert(g == fs.update(k, f));
    } else {
        assert(g == fs.push(f));
    }
    assert(distinct_names(g)) by {
        assert forall|a: int, b: int|
            0 <= a < g.len() && 0 <= b < g.len() && a != b implies (#[trigger] g[a]).identifier@
            != (#[trigger] g[b]).identifier@ by {
            if defines(fs, f.identifier@) {
                let k = choose|i: int| 0 <= i < fs.len() && (#[trigger] fs[i]).identifier@ == f.identifier@;
                assert(g[a].identifier@ == fs[a].identifier@);
                assert(g[b].identifier@ == fs[b].identifier@);
            } else {
                if a == fs.len() {
                    assert(g[b] == fs[b]);
                } else if b == fs.len() {
                    assert(g[a] == fs[a]);
                } else {
                    assert(g[a] == fs[a] && g[b] == fs[b]);
                }
            }
        }
    }
    // the new definition is found under its name
    let j = choose|i: int| 0 <= i < g.len() && (#[trigger] g[i]).identifier@ == f.identifier@;
    if defines(fs, f.identifier@) {
        let k = choose|i: int| 0 <= i < fs.len() && (#[trigger] fs[i]).identifier@ == f.identifier@;
        assert(g[k] == f);
        assert(defines(g, f.identifier@));
        assert(j == k);
    } else {
        assert(g[fs.len() as int] == f);
        assert(defines(g, f.identifier@));
        assert(j == fs.len());
    }
    assert forall|name: Seq<char>| name != f.identifier@ implies #[trigger] function_named(g, name)
        == function_named(fs, name) by {
        if defines(fs, name) {
            let a = choose|i: int| 0 <= i < fs.len() && (#[trigger] fs[i]).identifier@ == name;
            assert(g[a] == fs[a]);
            assert(defines(g, name));
            let b = choose|i: int| 0 <= i < g.len() && (#[trigger] g[i]).identifier@ == name;
            assert(b == a);
        } else {
            if defines(g, name) {
                let b = choose|i: int| 0 <= i < g.len() && (#[trigger] g[i]).identifier@ == name;
                if b < fs.len() {
                    assert(g[b] == fs[b]);
                }
                assert(false);
            }
        }
    }
}

/// Which function a program starts from, or why it cannot start: there
/// must be a function `main`, returning nothing and taking no parameters.
pub open spec fn spec_main_function(fs: Seq<FunctionModel>) -> Result<FunctionModel, ExecutionError> {
    match function_named(fs, "main"@) {
        None => Err(ExecutionError { variant: ExecutionErrorVariant::MissingMainFunction }),
        Some(f) => if f.data_type != DataType::Nothing {
            Err(ExecutionError { variant: ExecutionErrorVariant::InvalidType })
        } else if f.params.len() != 0 {
            Err(ExecutionError { variant: ExecutionErrorVariant::InvalidArgumentCount })
        } else {
            Ok(f)
        },
    }
}

proof fn lemma_function_named_at(fs: Seq<FunctionModel>, k: int)
    requires
        distinct_names(fs),
        0 <= k < fs.len(),
    ensures
        function_named(fs, fs[k].identifier@) == Some(fs[k]),
{
    let name = fs[k].identifier@;
    assert(defines(fs, name));
    let i = choose|i: int| 0 <= i < fs.len() && (#[trigger] fs[i]).identifier@ == name;
    assert(fs[i].identifier@ == fs[k].identifier@);
}

/// The functions defined by adding the given definitions one after the
/// other.
pub open spec fn insert_functions(fs: Seq<FunctionModel>) -> Seq<FunctionModel>
    decreases fs.len(),
{
    if fs.len() == 0 {
        Seq::empty()
    } else {
        insert_function(insert_functions(fs.drop_last()), fs.last())
    }
}

/// The models of a sequence of function definitions, one for one.
pub open spec fn functions_model(v: Seq<FunctionDefinition>) -> Seq<FunctionModel> {
    v.map_values(|f: FunctionDefinition| function_model(f))
}

/// function_definitions
///     = {function_definition}
///     ;
pub open spec fn spec_parse_program(e: ParseEnv, s: ParseState) -> (
    ParseState,
    Res<Seq<FunctionModel>>,
) {
    spec_parse_program_tail(e, s, Seq::empty())
}

/// The function definitions that follow those already in `acc`.
pub open spec fn spec_parse_program_tail(e: ParseEnv, s: ParseState, acc: Seq<FunctionModel>) -> (
    ParseState,
    Res<Seq<FunctionModel>>,
)
    decreases remaining(e, s),
{
    let (s1, r) = spec_parse_function_def(e, s);
    match r {
        Err(x) => (s1, Err(x)),
        Ok(None) => (s1, Ok(acc)),
        Ok(Some(f)) => if !ahead(e, s, s1) {
            (s1, Ok(acc))
        } else {
            spec_parse_program_tail(e, s1, insert_function(acc, f))
        },
    }
}

/// The model of a program found by a parsing step.
pub open spec fn res_program_model(r: Result<Program, ParserError>) -> Res<Seq<FunctionModel>> {
    match r {
        Ok(p) => Ok(p.model()),
        Err(x) => Err(x),
    }
}

impl Program {
    #[verifier::type_invariant]
    spec fn inv(self) -> bool {
        distinct_names(functions_model(self.functions@))
    }

    /// The functions of the program.
    pub closed spec fn model(self) -> Seq<FunctionModel> {
        functions_model(self.functions@)
    }

    /// The program defining the given functions; of two functions with the
    /// same name the later one stays, in the place of the earlier one.
    pub fn new(functions: Vec<FunctionDefinition>) -> (r: Self)
        ensures
            r.model() == insert_functions(functions_model(functions@)),
            distinct_names(r.model()),
    {
        let mut program = Program { functions: Vec::new() };
        assert(functions_model(program.functions@) =~= Seq::empty());
        let mut rest = functions;
        let ghost all = functions_model(functions@);
        let total = rest.len();
        let mut n: usize = 0;
        while rest.len() > 0
            invariant
                n + rest.len() == total,
                total == functions@.len(),
                functions_model(rest@) =~= all.subrange(n as int, all.len() as int),
                program.model() == insert_functions(all.take(n as int)),
                all == functions_model(functions@),
            decreases rest.len(),
        {
            let ghost before = rest@;
            let f = rest.remove(0);
            proof {
                assert(functions_model(rest@) =~= functions_model(before).subrange(1, before.len() as int));
                assert(all.take(n + 1).drop_last() =~= all.take(n as int));
                assert(functions_model(before)[0] == function_model(f));
                assert(all.take(n + 1).last() == function_model(f));
            }
            program.insert(f);
            n = n + 1;
        }
        assert(all.take(n as int) =~= all);
        proof {
            use_type_invariant(&program);
        }
        program
    }

    /// The function the program starts from: `main`, which must return
    /// nothing and take no parameters.
    pub fn main_function(&self) -> (r: Result<&FunctionDefinition, ExecutionError>)
        ensures
            match r {
                Ok(f) => spec_main_function(self.model()) == Ok::<FunctionModel, ExecutionError>(
                    function_model(*f),
                ),
                Err(e) => spec_main_function(self.model()) == Err::<FunctionModel, ExecutionError>(e),
            },
    {
        proof {
            use_type_invariant(self);
            reveal_strlit("main");
        }
        let main = String::from_str("main");
        let ghost fs = self.model();
        let mut i: usize = 0;
        while i < self.functions.len()
            invariant
                i <= self.functions.len(),
                fs == self.model(),
                fs == functions_model(self.functions@),
                distinct_names(fs),
                main@ == "main"@,
                forall|j: int| 0 <= j < i ==> (#[trigger] self.functions@[j]).identifier@ != main@,
            decreases self.functions.len() - i,
        {
            let f = &self.functions[i];
            if f.identifier == main {
                proof {
                    lemma_function_named_at(fs, i as int);
                    assert(fs[i as int] == function_model(*f));
                }
                if f.data_type != DataType::Nothing {
                    return Err(ExecutionError::new(ExecutionErrorVariant::InvalidType));
                }
                if f.params.len() != 0 {
                    return Err(ExecutionError::new(ExecutionErrorVariant::InvalidArgumentCount));
                }
                return Ok(f);
            }
            i = i + 1;
        }
        proof {
            assert(!defines(fs, "main"@)) by {
                if defines(fs, "main"@) {
                    let j = choose|j: int| 0 <= j < fs.len() && (#[trigger] fs[j]).identifier@ == "main"@;
                    assert(self.functions@[j].identifier@ == fs[j].identifier@);
                }
            }
        }
        Err(ExecutionError::new(ExecutionErrorVariant::MissingMainFunction))
    }

    /// The functions of the program, in the order in which they were first
    /// defined.
    pub fn functions(&self) -> (r: &Vec<FunctionDefinition>)
        ensures
            functions_model(r@) == self.model(),
    {
        &self.functions
    }

    /// Adds a function definition, replacing the one of the same name.
    fn insert(&mut self, f: FunctionDefinition)
        ensures
            final(self).model() == insert_function(old(self).model(), function_model(f)),
    {
        proof {
            use_type_invariant(&*self);
        }
        let ghost fs = self.model();
        let mut i: usize = 0;
        while i < self.functions.len()
            invariant
                i <= self.functions.len(),
                fs == self.model(),
                fs == old(self).model(),
                distinct_names(fs),
                forall|j: int|
                    0 <= j < i ==> (#[trigger] self.functions@[j]).identifier@ != f.identifier@,
            decreases self.functions.len() - i,
        {
            if self.functions[i].identifier == f.identifier {
                proof {
                    lemma_insert_existing(fs, function_model(f), i as int);
                }
                let ghost updated = fs.update(i as int, function_model(f));
                assert(distinct_names(updated)) by {
                    assert forall|a: int, b: int|
                        0 <= a < updated.len() && 0 <= b < updated.len() && a != b implies (
                        #[trigger] updated[a]).identifier@ != (#[trigger] updated[b]).identifier@ by {
                        assert(updated[a].identifier@ == fs[a].identifier@);
                        assert(updated[b].identifier@ == fs[b].identifier@);
                    }
                }
                let mut functions = Vec::new();
                std::mem::swap(&mut functions, &mut self.functions);
                functions.set(i, f);
                assert(functions_model(functions@) =~= updated);
                self.functions = functions;
                return;
            }
            i = i + 1;
        }
        assert(!defines(fs, f.identifier@));
        let ghost pushed = fs.push(function_model(f));
        assert(distinct_names(pushed)) by {
            assert forall|a: int, b: int|
                0 <= a < pushed.len() && 0 <= b < pushed.len() && a != b implies (
                #[trigger] pushed[a]).identifier@ != (#[trigger] pushed[b]).identifier@ by {
                if a == fs.len() {
                    assert(pushed[b] == fs[b]);
                } else if b == fs.len() {
                    assert(pushed[a] == fs[a]);
                }
            }
        }
        let mut functions = Vec::new();
        std::mem::swap(&mut functions, &mut self.functions);
        functions.push(f);
        assert(functions_model(functions@) =~= pushed);
        self.functions = functions;
    }
}

/// function_definitions
///     = {function_definition}
///     ;
/// A later definition of a name takes the place of an earlier one.
pub fn parse_program(p: &mut Parser) -> (r: Result<Program, ParserError>)
    ensures
        parsed_res(
            *old(p),
            *final(p),
            res_program_model(r),
            spec_parse_program(old(p).env(), old(p).state()),
        ),
        r matches Ok(prog) ==> distinct_names(prog.model()),
{
    let mut program = Program { functions: Vec::new() };
    assert(program.model() =~= Seq::empty());
    loop
        invariant
            p.env() == old(p).env(),
            spec_parse_program_tail(p.env(), p.state(), program.model())
                == spec_parse_program(old(p).env(), old(p).state()),
            advance(old(p).env(), old(p).state(), p.state(), false),
        decreases remaining(p.env(), p.state()),
    {
        match parse_function_def(p)? {
            Some(function) => program.insert(function),
            None => {
                proof {
                    use_type_invariant(&program);
                }
                return Ok(program);
            },
        }
    }
}

} // verus!
