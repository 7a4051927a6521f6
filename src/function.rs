use vstd::prelude::*;
use crate::data::{BaseSet, Data, Expression, List, SymbolicSet};
use crate::error::EvalError;
use crate::coerce::bind_params_exec;
use crate::interpreter::{all_in_exec, eval_expression};
use crate::lists::{copy_vars, len_matches};
use crate::semantics::Variables;
use crate::standardlibrary::StandardLibrary;

verus! {

/// A user function: a name, its formal parameters, a body, and the domain
/// that each argument must lie in.
#[derive(Debug)]
pub struct Function {
    pub name: String,
    pub args: Vec<String>,
    pub expr: Expression,
    pub domain: SymbolicSet,
}

impl Function {
    /// A function over the unrestricted real domain.
    pub fn new(name: String, args: Vec<String>, expr: Expression) -> (f: Function)
        ensures
            f.name == name,
            f.args == args,
            f.expr == expr,
            f.domain == SymbolicSet::Base(BaseSet::Real),
    {
        Function { name, args, expr, domain: SymbolicSet::Base(BaseSet::Real) }
    }

    /// Runs this function on `args`: the count of arguments is checked, then
    /// the domain (unless it is the whole real line), then the body is
    /// evaluated with the parameters bound over `variables`.
    pub fn run(
        &self,
        args: &List<Data>,
        variables: &Variables,
        functions: &Vec<Function>,
        std: &StandardLibrary,
        fuel: u64,
    ) -> (r: Result<Data, EvalError>)
        ensures
            r == crate::semantics::run(*self, *args, *variables, functions@, std.map@, fuel as nat),
        decreases fuel,
    {
        if fuel == 0 {
            return Err(EvalError::DepthError);
        }
        let f = fuel - 1;
        if !len_matches(args, &self.args, 0) {
            return Err(EvalError::ArityError);
        }
        let checked = match &self.domain {
            SymbolicSet::Base(BaseSet::Real) => Ok(true),
            _ => all_in_exec(args, &self.domain, variables, functions, std, f),
        };
        match checked {
            Err(err) => Err(err),
            Ok(false) => Err(EvalError::DomainError),
            Ok(true) => {
                let inner = bind_params_exec(&self.args, args, 0, copy_vars(variables));
                eval_expression(&self.expr, &inner, functions, std, f)
            },
        }
    }
}

} // verus!
