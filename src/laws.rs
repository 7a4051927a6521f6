use vstd::prelude::*;
use crate::data::{BaseSet, BinOp, Data, Expression, List, SymbolicSet};
use crate::error::EvalError;
use crate::function::Function;
use crate::number::{is_int, Rational};
use crate::semantics::{
    binop, builtin, count, in_base, eval, find_builtin, find_function, lookup_var, member, num_result,
    reduce_list, run, Variables,
};
use crate::standardlibrary::Builtin;

verus! {

/// A number literal evaluates to exactly that number, at any depth.
pub proof fn law_literal(
    n: Rational,
    vars: Variables,
    fs: Seq<Function>,
    lib: Seq<(String, Builtin)>,
    fuel: nat,
)
    ensures
        eval(Expression::Number(n), vars, fs, lib, fuel) == Ok::<Data, EvalError>(Data::Number(n)),
{
}

/// A conditional with a literal condition has the value of the branch that
/// the condition picks; the other branch does not matter, even where it fails.
pub proof fn law_conditional(
    a: Expression,
    b: Expression,
    vars: Variables,
    fs: Seq<Function>,
    lib: Seq<(String, Builtin)>,
    fuel: nat,
)
    requires
        fuel > 0,
    ensures
        eval(Expression::If(Box::new(Expression::Bool(true)), Box::new(a), Box::new(b)), vars, fs, lib, fuel)
            == eval(a, vars, fs, lib, (fuel - 1) as nat),
        eval(Expression::If(Box::new(Expression::Bool(false)), Box::new(a), Box::new(b)), vars, fs, lib, fuel)
            == eval(b, vars, fs, lib, (fuel - 1) as nat),
{
    reveal_with_fuel(eval, 2);
}

/// Reading back a position just written gives the value written; the length
/// is kept.
pub proof fn law_update_then_at(l: List<Data>, i: int, v: Data)
    requires
        0 <= i < l.len(),
    ensures
        l.update(i, v).at(i) == v,
        l.update(i, v).len() == l.len(),
    decreases l,
{
    if let List::Cons(_, rest) = l {
        if i > 0 {
            law_update_then_at(*rest, i - 1, v);
        }
    }
}

/// `len` of a bounded set is its element count; `len` of the real line is
/// the unbounded sentinel.
#[verifier::rlimit(50)]
#[verifier::spinoff_prover]
pub proof fn law_len(
    l: List<Data>,
    vars: Variables,
    fs: Seq<Function>,
    lib: Seq<(String, Builtin)>,
    fuel: nat,
)
    requires
        fuel >= 3,
    ensures
        builtin(Builtin::Len, List::Cons(Data::BoundedSet(Box::new(l)), Box::new(List::Nil)), vars, fs, lib, fuel)
            == num_result(count(l)),
        l.len() <= i64::MAX ==> count(l) == Ok::<Rational, EvalError>(Rational { num: l.len() as i64, den: 1 }),
        builtin(
            Builtin::Len,
            List::Cons(Data::SymbolicSet(Box::new(SymbolicSet::Base(BaseSet::Real))), Box::new(List::Nil)),
            vars,
            fs,
            lib,
            fuel,
        ) == Ok::<Data, EvalError>(Data::Unbounded),
{
    reveal_with_fuel(builtin, 1);
    reveal_with_fuel(crate::semantics::enumerate, 1);
}

/// Summing or multiplying a set of one number gives that number.
pub proof fn law_single_reduce(n: Rational)
    requires
        n.wf(),
    ensures
        reduce_list(List::Cons(Data::Number(n), Box::new(List::Nil)), false) == Ok::<Rational, EvalError>(n),
        reduce_list(List::Cons(Data::Number(n), Box::new(List::Nil)), true) == Ok::<Rational, EvalError>(n),
{
    reveal(crate::semantics::combine);
    reveal_with_fuel(reduce_list, 2);
    assert(n.num * 1 + 0 * n.den == n.num);
    assert(n.den * 1 == n.den);
    assert(n.num * 1 == n.num);
}

/// Every number lies in the real line.
pub proof fn law_real_membership(
    x: Data,
    vars: Variables,
    fs: Seq<Function>,
    lib: Seq<(String, Builtin)>,
    fuel: nat,
)
    requires
        fuel > 0,
        x is Number || x is Bool,
    ensures
        member(x, SymbolicSet::Base(BaseSet::Real), vars, fs, lib, fuel) == Ok::<bool, EvalError>(true),
{
}

/// A function restricted to the integers refuses a number that is not whole.
pub proof fn law_integer_domain(
    func: Function,
    n: Rational,
    vars: Variables,
    fs: Seq<Function>,
    lib: Seq<(String, Builtin)>,
    fuel: nat,
)
    requires
        fuel >= 3,
        func.domain == SymbolicSet::Base(BaseSet::Integer),
        func.args@.len() == 1,
        !is_int(n),
    ensures
        run(func, List::Cons(Data::Number(n), Box::new(List::Nil)), vars, fs, lib, fuel)
            == Err::<Data, EvalError>(EvalError::DomainError),
{
    reveal_with_fuel(run, 1);
    reveal_with_fuel(crate::semantics::all_in, 1);
    reveal_with_fuel(member, 1);
    let f = (fuel - 1) as nat;
    let args = List::Cons(Data::Number(n), Box::new(List::Nil));
    assert(args.len() == 1) by {
        reveal_with_fuel(List::len, 2);
    }
    assert(!in_base(Data::Number(n), BaseSet::Integer));
    assert(member(Data::Number(n), func.domain, vars, fs, lib, (f - 1) as nat) == Ok::<bool, EvalError>(false));
    assert(crate::semantics::all_in(args, func.domain, vars, fs, lib, f) == Ok::<bool, EvalError>(false));
}

/// Division by zero fails with an arithmetic error.
pub proof fn law_division_by_zero(x: Data, d: i64)
    requires
        x is Number || x is Bool,
    ensures
        binop(BinOp::Div, x, Data::Number(Rational { num: 0, den: d })) == Err::<Data, EvalError>(
            EvalError::ArithmeticError,
        ),
{
}

/// A name bound nowhere fails with an undefined-name error.
pub proof fn law_unbound_name(
    name: String,
    vars: Variables,
    fs: Seq<Function>,
    lib: Seq<(String, Builtin)>,
    fuel: nat,
)
    requires
        lookup_var(vars, name@) is None,
        find_function(fs, name@, 0) is None,
        find_builtin(lib, name@, 0) is None,
    ensures
        eval(Expression::Identifier(name), vars, fs, lib, fuel) == Err::<Data, EvalError>(
            EvalError::UndefinedNameError,
        ),
{
}

} // verus!
