use vstd::prelude::*;
use crate::data::{BaseSet, BinOp, Data, Expression, List, SymbolicSet};
use crate::error::EvalError;
use crate::function::Function;
use crate::number::{
    add_spec, ceil_spec, div_spec, floor_spec, is_int, less, make, mul_spec, pow_spec, rem_spec,
    round_spec, same_value, sub_spec, Rational,
};
use crate::standardlibrary::Builtin;

verus! {

/// Variable bindings, newest first.
pub type Variables = List<(String, Data)>;

/// The value bound to `name`, the newest binding first.
pub open spec fn lookup_var(vars: Variables, name: Seq<char>) -> Option<Data>
    decreases vars,
{
    match vars {
        List::Nil => None,
        List::Cons(b, rest) => if b.0@ == name {
            Some(b.1)
        } else {
            lookup_var(*rest, name)
        },
    }
}

/// The position of the first function named `name`, from position `i` on.
pub open spec fn find_function(fs: Seq<Function>, name: Seq<char>, i: int) -> Option<int>
    decreases fs.len() - i,
{
    if i < 0 || i >= fs.len() {
        None
    } else if fs[i].name@ == name {
        Some(i)
    } else {
        find_function(fs, name, i + 1)
    }
}

/// The first operation registered under `name`, from position `i` on.
pub open spec fn find_builtin(lib: Seq<(String, Builtin)>, name: Seq<char>, i: int) -> Option<
    Builtin,
>
    decreases lib.len() - i,
{
    if i < 0 || i >= lib.len() {
        None
    } else if lib[i].0@ == name {
        Some(lib[i].1)
    } else {
        find_builtin(lib, name, i + 1)
    }
}

/// Numeric coercion: booleans read as zero and one.
pub open spec fn to_number(d: Data) -> Result<Rational, EvalError> {
    match d {
        Data::Number(n) => Ok(n),
        Data::Bool(b) => Ok(Rational { num: if b { 1 } else { 0 }, den: 1 }),
        _ => Err(EvalError::TypeError),
    }
}

/// Truth of a condition: a number is true when it is not zero.
pub open spec fn to_bool(d: Data) -> Result<bool, EvalError> {
    match d {
        Data::Bool(b) => Ok(b),
        Data::Number(n) => Ok(n.num != 0),
        _ => Err(EvalError::TypeError),
    }
}

/// Equality of two values: numbers and booleans by value, bounded sets
/// position by position, function values by name. `None` where the two
/// cannot be compared.
pub open spec fn data_equal(a: Data, b: Data) -> Option<bool>
    decreases a,
{
    match (a, b) {
        (Data::BoundedSet(x), Data::BoundedSet(y)) => list_equal(*x, *y),
        (Data::Function(f), Data::Function(g)) => Some(f@ == g@),
        (Data::Unbounded, Data::Unbounded) => Some(true),
        _ => match (to_number(a), to_number(b)) {
            (Ok(x), Ok(y)) => Some(same_value(x, y)),
            _ => None,
        },
    }
}

/// Position-by-position equality of two lists of values.
pub open spec fn list_equal(x: List<Data>, y: List<Data>) -> Option<bool>
    decreases x,
{
    match (x, y) {
        (List::Nil, List::Nil) => Some(true),
        (List::Cons(a, xs), List::Cons(b, ys)) => match data_equal(a, b) {
            Some(true) => list_equal(*xs, *ys),
            other => other,
        },
        _ => Some(false),
    }
}

/// Some element of `l` equals `x`.
pub open spec fn in_list(x: Data, l: List<Data>) -> bool
    decreases l,
{
    match l {
        List::Nil => false,
        List::Cons(a, rest) => data_equal(x, a) == Some(true) || in_list(x, *rest),
    }
}

pub open spec fn num_result(r: Result<Rational, EvalError>) -> Result<Data, EvalError> {
    match r {
        Ok(n) => Ok(Data::Number(n)),
        Err(e) => Err(e),
    }
}

/// A binary operator on two numbers.
pub open spec fn arith(op: BinOp, x: Rational, y: Rational) -> Result<Data, EvalError> {
    match op {
        BinOp::Add => num_result(add_spec(x, y)),
        BinOp::Sub => num_result(sub_spec(x, y)),
        BinOp::Mul => num_result(mul_spec(x, y)),
        BinOp::Div => num_result(div_spec(x, y)),
        BinOp::Pow => num_result(pow_spec(x, y)),
        BinOp::Mod => num_result(rem_spec(x, y)),
        BinOp::Gt => Ok(Data::Bool(less(y, x))),
        BinOp::Lt => Ok(Data::Bool(less(x, y))),
        BinOp::GtEq => Ok(Data::Bool(!less(x, y))),
        BinOp::LtEq => Ok(Data::Bool(!less(y, x))),
        BinOp::IsEq => Ok(Data::Bool(same_value(x, y))),
        BinOp::NEq => Ok(Data::Bool(!same_value(x, y))),
    }
}

/// A binary operator on two values.
pub open spec fn binop(op: BinOp, a: Data, b: Data) -> Result<Data, EvalError> {
    if op == BinOp::IsEq || op == BinOp::NEq {
        match data_equal(a, b) {
            Some(e) => Ok(Data::Bool(if op == BinOp::IsEq { e } else { !e })),
            None => Err(EvalError::TypeError),
        }
    } else {
        match to_number(a) {
            Err(e) => Err(e),
            Ok(x) => match to_number(b) {
                Err(e) => Err(e),
                Ok(y) => arith(op, x, y),
            },
        }
    }
}

/// Membership of a value in a base domain.
pub open spec fn in_base(x: Data, b: BaseSet) -> bool {
    match to_number(x) {
        Err(_) => false,
        Ok(n) => match b {
            BaseSet::Real => true,
            BaseSet::Integer => is_int(n),
            BaseSet::Natural => is_int(n) && n.num >= 0,
        },
    }
}

/// The number of elements of `l`, as a number.
pub open spec fn count(l: List<Data>) -> Result<Rational, EvalError> {
    make(l.len() as int, 1)
}

/// Sum (or, with `product`, product) of the numeric values of `l`.
pub open spec fn reduce_list(l: List<Data>, product: bool) -> Result<Rational, EvalError>
    decreases l,
{
    match l {
        List::Nil => Ok(Rational { num: if product { 1 } else { 0 }, den: 1 }),
        List::Cons(x, rest) => match to_number(x) {
            Err(e) => Err(e),
            Ok(n) => match reduce_list(*rest, product) {
                Err(e) => Err(e),
                Ok(s) => combine(n, s, product),
            },
        },
    }
}

/// `x * y` with `product`, else `x + y`.
#[verifier::opaque]
pub open spec fn combine(x: Rational, y: Rational, product: bool) -> Result<Rational, EvalError> {
    if product {
        mul_spec(x, y)
    } else {
        add_spec(x, y)
    }
}

/// The last element of `l`.
pub open spec fn last_of(l: List<Data>) -> Option<Data>
    decreases l,
{
    match l {
        List::Nil => None,
        List::Cons(x, rest) => match *rest {
            List::Nil => Some(x),
            _ => last_of(*rest),
        },
    }
}

/// The position that a number names in a list of `len` elements.
pub open spec fn index_of(d: Data, len: nat) -> Result<int, EvalError> {
    match to_number(d) {
        Err(e) => Err(e),
        Ok(n) => if is_int(n) && 0 <= n.num / n.den < len {
            Ok(n.num / n.den)
        } else {
            Err(EvalError::IndexError)
        },
    }
}

/// `vars` with each of `args` bound to the parameter at the same position
/// of `names`, from position `i` on.
pub open spec fn bind_params(names: Seq<String>, args: List<Data>, i: int, vars: Variables) -> Variables
    decreases args,
{
    match args {
        List::Nil => vars,
        List::Cons(a, rest) => bind_params(names, *rest, i + 1, List::Cons((names[i], a), Box::new(vars))),
    }
}

/// The step used by the derivative's central difference.
pub open spec fn diff_step() -> Rational {
    Rational { num: 1, den: 1000 }
}

/// The evaluation of `e`, nested at most `fuel` deep.
pub open spec fn eval(
    e: Expression,
    vars: Variables,
    fs: Seq<Function>,
    lib: Seq<(String, Builtin)>,
    fuel: nat,
) -> Result<Data, EvalError>
    decreases fuel,
{
    match e {
        Expression::Number(n) => Ok(Data::Number(n)),
        Expression::Bool(b) => Ok(Data::Bool(b)),
        Expression::Identifier(x) => match lookup_var(vars, x@) {
            Some(v) => Ok(v),
            None => if find_function(fs, x@, 0) is Some || find_builtin(lib, x@, 0) is Some {
                Ok(Data::Function(x))
            } else {
                Err(EvalError::UndefinedNameError)
            },
        },
        _ => if fuel == 0 {
            Err(EvalError::DepthError)
        } else {
            let f = (fuel - 1) as nat;
            match e {
                Expression::Binary(a, op, b) => match eval(*a, vars, fs, lib, f) {
                    Err(err) => Err(err),
                    Ok(x) => match eval(*b, vars, fs, lib, f) {
                        Err(err) => Err(err),
                        Ok(y) => binop(op, x, y),
                    },
                },
                Expression::If(c, a, b) => match eval(*c, vars, fs, lib, f) {
                    Err(err) => Err(err),
                    Ok(cv) => match to_bool(cv) {
                        Err(err) => Err(err),
                        Ok(true) => eval(*a, vars, fs, lib, f),
                        Ok(false) => eval(*b, vars, fs, lib, f),
                    },
                },
                Expression::Belongs(a, b) => match eval(*a, vars, fs, lib, f) {
                    Err(err) => Err(err),
                    Ok(x) => match eval(*b, vars, fs, lib, f) {
                        Err(err) => Err(err),
                        Ok(Data::SymbolicSet(s)) => match member(x, *s, vars, fs, lib, f) {
                            Err(err) => Err(err),
                            Ok(m) => Ok(Data::Bool(m)),
                        },
                        Ok(Data::BoundedSet(l)) => Ok(Data::Bool(in_list(x, *l))),
                        Ok(_) => Err(EvalError::TypeError),
                    },
                },
                Expression::Differentiate(a, b) => match eval(*a, vars, fs, lib, f) {
                    Err(err) => Err(err),
                    Ok(Data::Function(name)) => match eval(*b, vars, fs, lib, f) {
                        Err(err) => Err(err),
                        Ok(p) => match to_number(p) {
                            Err(err) => Err(err),
                            Ok(x) => derivative(name@, x, vars, fs, lib, f),
                        },
                    },
                    Ok(_) => Err(EvalError::TypeError),
                },
                Expression::Call(name, args) => match eval_list(*args, vars, fs, lib, f) {
                    Err(err) => Err(err),
                    Ok(vs) => call(name@, vs, vars, fs, lib, f),
                },
                Expression::SetLiteral(es) => match eval_list(*es, vars, fs, lib, f) {
                    Err(err) => Err(err),
                    Ok(vs) => Ok(Data::BoundedSet(Box::new(vs))),
                },
                Expression::Domain(s) => Ok(Data::SymbolicSet(Box::new(s))),
                _ => Err(EvalError::DepthError),
            }
        },
    }
}

/// The values of `es`, evaluated left to right; the first failure ends it.
pub open spec fn eval_list(
    es: List<Expression>,
    vars: Variables,
    fs: Seq<Function>,
    lib: Seq<(String, Builtin)>,
    fuel: nat,
) -> Result<List<Data>, EvalError>
    decreases fuel,
{
    if fuel == 0 {
        Err(EvalError::DepthError)
    } else {
        match es {
            List::Nil => Ok(List::Nil),
            List::Cons(e, rest) => match eval(e, vars, fs, lib, (fuel - 1) as nat) {
                Err(err) => Err(err),
                Ok(v) => match eval_list(*rest, vars, fs, lib, (fuel - 1) as nat) {
                    Err(err) => Err(err),
                    Ok(vs) => Ok(List::Cons(v, Box::new(vs))),
                },
            },
        }
    }
}

/// Whether `x` lies in the domain `s`.
pub open spec fn member(
    x: Data,
    s: SymbolicSet,
    vars: Variables,
    fs: Seq<Function>,
    lib: Seq<(String, Builtin)>,
    fuel: nat,
) -> Result<bool, EvalError>
    decreases fuel,
{
    if fuel == 0 {
        Err(EvalError::DepthError)
    } else {
        let f = (fuel - 1) as nat;
        match s {
            SymbolicSet::Base(b) => Ok(in_base(x, b)),
            SymbolicSet::Enumeration(l) => Ok(in_list(x, *l)),
            SymbolicSet::Union(a, b) => match member(x, *a, vars, fs, lib, f) {
                Err(err) => Err(err),
                Ok(true) => Ok(true),
                Ok(false) => member(x, *b, vars, fs, lib, f),
            },
            SymbolicSet::Intersection(a, b) => match member(x, *a, vars, fs, lib, f) {
                Err(err) => Err(err),
                Ok(false) => Ok(false),
                Ok(true) => member(x, *b, vars, fs, lib, f),
            },
            SymbolicSet::Difference(a, b) => match member(x, *a, vars, fs, lib, f) {
                Err(err) => Err(err),
                Ok(false) => Ok(false),
                Ok(true) => match member(x, *b, vars, fs, lib, f) {
                    Err(err) => Err(err),
                    Ok(m) => Ok(!m),
                },
            },
            SymbolicSet::Where(v, p, b) => match member(x, *b, vars, fs, lib, f) {
                Err(err) => Err(err),
                Ok(false) => Ok(false),
                Ok(true) => match eval(*p, List::Cons((v, x), Box::new(vars)), fs, lib, f) {
                    Err(err) => Err(err),
                    Ok(d) => to_bool(d),
                },
            },
        }
    }
}

/// The elements of `l` whose membership in `s` is `keep`, in order.
pub open spec fn filter_member(
    l: List<Data>,
    s: SymbolicSet,
    keep: bool,
    vars: Variables,
    fs: Seq<Function>,
    lib: Seq<(String, Builtin)>,
    fuel: nat,
) -> Result<List<Data>, EvalError>
    decreases fuel,
{
    if fuel == 0 {
        Err(EvalError::DepthError)
    } else {
        let f = (fuel - 1) as nat;
        match l {
            List::Nil => Ok(List::Nil),
            List::Cons(x, rest) => match member(x, s, vars, fs, lib, f) {
                Err(err) => Err(err),
                Ok(m) => match filter_member(*rest, s, keep, vars, fs, lib, f) {
                    Err(err) => Err(err),
                    Ok(r) => if m == keep {
                        Ok(List::Cons(x, Box::new(r)))
                    } else {
                        Ok(r)
                    },
                },
            },
        }
    }
}

/// The elements of `s` in order, where `s` is reduced to a listed domain;
/// `None` where it is not.
#[verifier::opaque]
pub open spec fn enumerate(
    s: SymbolicSet,
    vars: Variables,
    fs: Seq<Function>,
    lib: Seq<(String, Builtin)>,
    fuel: nat,
) -> Result<Option<List<Data>>, EvalError>
    decreases fuel,
{
    if fuel == 0 {
        Err(EvalError::DepthError)
    } else {
        let f = (fuel - 1) as nat;
        match s {
            SymbolicSet::Base(_) => Ok(None),
            SymbolicSet::Enumeration(l) => Ok(Some(*l)),
            SymbolicSet::Union(a, b) => match enumerate(*a, vars, fs, lib, f) {
                Err(err) => Err(err),
                Ok(None) => Ok(None),
                Ok(Some(la)) => match enumerate(*b, vars, fs, lib, f) {
                    Err(err) => Err(err),
                    Ok(None) => Ok(None),
                    Ok(Some(lb)) => match filter_member(lb, *a, false, vars, fs, lib, f) {
                        Err(err) => Err(err),
                        Ok(extra) => Ok(Some(la.concat(extra))),
                    },
                },
            },
            SymbolicSet::Intersection(a, b) => match enumerate(*a, vars, fs, lib, f) {
                Err(err) => Err(err),
                Ok(Some(la)) => match filter_member(la, *b, true, vars, fs, lib, f) {
                    Err(err) => Err(err),
                    Ok(r) => Ok(Some(r)),
                },
                Ok(None) => match enumerate(*b, vars, fs, lib, f) {
                    Err(err) => Err(err),
                    Ok(None) => Ok(None),
                    Ok(Some(lb)) => match filter_member(lb, *a, true, vars, fs, lib, f) {
                        Err(err) => Err(err),
                        Ok(r) => Ok(Some(r)),
                    },
                },
            },
            SymbolicSet::Difference(a, b) => match enumerate(*a, vars, fs, lib, f) {
                Err(err) => Err(err),
                Ok(None) => Ok(None),
                Ok(Some(la)) => match filter_member(la, *b, false, vars, fs, lib, f) {
                    Err(err) => Err(err),
                    Ok(r) => Ok(Some(r)),
                },
            },
            SymbolicSet::Where(v, p, b) => match enumerate(*b, vars, fs, lib, f) {
                Err(err) => Err(err),
                Ok(None) => Ok(None),
                Ok(Some(lb)) => match filter_member(lb, s, true, vars, fs, lib, f) {
                    Err(err) => Err(err),
                    Ok(r) => Ok(Some(r)),
                },
            },
        }
    }
}

/// Set coercion: a bounded set is itself, a listed domain its elements, a
/// scalar a set of one.
pub open spec fn to_set(
    d: Data,
    vars: Variables,
    fs: Seq<Function>,
    lib: Seq<(String, Builtin)>,
    fuel: nat,
) -> Result<List<Data>, EvalError>
    decreases fuel,
{
    if fuel == 0 {
        Err(EvalError::DepthError)
    } else {
        match d {
            Data::BoundedSet(l) => Ok(*l),
            Data::SymbolicSet(s) => match enumerate(*s, vars, fs, lib, (fuel - 1) as nat) {
                Err(err) => Err(err),
                Ok(None) => Err(EvalError::TypeError),
                Ok(Some(l)) => Ok(l),
            },
            Data::Unbounded => Err(EvalError::TypeError),
            _ => Ok(List::Cons(d, Box::new(List::Nil))),
        }
    }
}

/// The call of `name` on the values `args`: a registered operation first,
/// then a user function.
pub open spec fn call(
    name: Seq<char>,
    args: List<Data>,
    vars: Variables,
    fs: Seq<Function>,
    lib: Seq<(String, Builtin)>,
    fuel: nat,
) -> Result<Data, EvalError>
    decreases fuel,
{
    if fuel == 0 {
        Err(EvalError::DepthError)
    } else {
        let f = (fuel - 1) as nat;
        match find_builtin(lib, name, 0) {
            Some(b) => builtin(b, args, vars, fs, lib, f),
            None => match find_function(fs, name, 0) {
                Some(i) => run(fs[i], args, vars, fs, lib, f),
                None => Err(EvalError::UndefinedNameError),
            },
        }
    }
}

/// Whether every one of `args` lies in `s`.
pub open spec fn all_in(
    args: List<Data>,
    s: SymbolicSet,
    vars: Variables,
    fs: Seq<Function>,
    lib: Seq<(String, Builtin)>,
    fuel: nat,
) -> Result<bool, EvalError>
    decreases fuel,
{
    if fuel == 0 {
        Err(EvalError::DepthError)
    } else {
        let f = (fuel - 1) as nat;
        match args {
            List::Nil => Ok(true),
            List::Cons(a, rest) => match member(a, s, vars, fs, lib, f) {
                Err(err) => Err(err),
                Ok(false) => Ok(false),
                Ok(true) => all_in(*rest, s, vars, fs, lib, f),
            },
        }
    }
}

/// A run of the user function `func` on `args`: the count is checked, then
/// the domain (unless it is the whole real line), then the body is evaluated
/// with the parameters bound over the caller's variables.
pub open spec fn run(
    func: Function,
    args: List<Data>,
    vars: Variables,
    fs: Seq<Function>,
    lib: Seq<(String, Builtin)>,
    fuel: nat,
) -> Result<Data, EvalError>
    decreases fuel,
{
    if fuel == 0 {
        Err(EvalError::DepthError)
    } else {
        let f = (fuel - 1) as nat;
        if args.len() != func.args@.len() {
            Err(EvalError::ArityError)
        } else {
            let checked = if func.domain == SymbolicSet::Base(BaseSet::Real) {
                Ok(true)
            } else {
                all_in(args, func.domain, vars, fs, lib, f)
            };
            match checked {
                Err(err) => Err(err),
                Ok(false) => Err(EvalError::DomainError),
                Ok(true) => eval(func.expr, bind_params(func.args@, args, 0, vars), fs, lib, f),
            }
        }
    }
}

/// `f(x + h) - f(x - h)` over `2h`, for the step `h` of `diff_step`.
pub open spec fn derivative(
    name: Seq<char>,
    x: Rational,
    vars: Variables,
    fs: Seq<Function>,
    lib: Seq<(String, Builtin)>,
    fuel: nat,
) -> Result<Data, EvalError>
    decreases fuel,
{
    if fuel == 0 {
        Err(EvalError::DepthError)
    } else {
        let f = (fuel - 1) as nat;
        match add_spec(x, diff_step()) {
            Err(err) => Err(err),
            Ok(hi) => match sub_spec(x, diff_step()) {
                Err(err) => Err(err),
                Ok(lo) => match call(name, List::Cons(Data::Number(hi), Box::new(List::Nil)), vars, fs, lib, f) {
                    Err(err) => Err(err),
                    Ok(yh) => match call(name, List::Cons(Data::Number(lo), Box::new(List::Nil)), vars, fs, lib, f) {
                        Err(err) => Err(err),
                        Ok(yl) => match (to_number(yh), to_number(yl)) {
                            (Err(err), _) => Err(err),
                            (_, Err(err)) => Err(err),
                            (Ok(a), Ok(b)) => match sub_spec(a, b) {
                                Err(err) => Err(err),
                                Ok(d) => num_result(div_spec(d, Rational { num: 2, den: 1000 })),
                            },
                        },
                    },
                },
            },
        }
    }
}

/// The sum (or, with `product`, the product) over all values of all sets in `args`.
pub open spec fn reduce_args(
    args: List<Data>,
    product: bool,
    vars: Variables,
    fs: Seq<Function>,
    lib: Seq<(String, Builtin)>,
    fuel: nat,
) -> Result<Rational, EvalError>
    decreases fuel,
{
    if fuel == 0 {
        Err(EvalError::DepthError)
    } else {
        let f = (fuel - 1) as nat;
        match args {
            List::Nil => Ok(Rational { num: if product { 1 } else { 0 }, den: 1 }),
            List::Cons(a, rest) => match to_set(a, vars, fs, lib, f) {
                Err(err) => Err(err),
                Ok(l) => match reduce_list(l, product) {
                    Err(err) => Err(err),
                    Ok(x) => match reduce_args(*rest, product, vars, fs, lib, f) {
                        Err(err) => Err(err),
                        Ok(y) => combine(x, y, product),
                    },
                },
            },
        }
    }
}

/// `name` applied to each element of `l`, in order.
pub open spec fn map_list(
    l: List<Data>,
    name: Seq<char>,
    vars: Variables,
    fs: Seq<Function>,
    lib: Seq<(String, Builtin)>,
    fuel: nat,
) -> Result<List<Data>, EvalError>
    decreases fuel,
{
    if fuel == 0 {
        Err(EvalError::DepthError)
    } else {
        let f = (fuel - 1) as nat;
        match l {
            List::Nil => Ok(List::Nil),
            List::Cons(x, rest) => match call(name, List::Cons(x, Box::new(List::Nil)), vars, fs, lib, f) {
                Err(err) => Err(err),
                Ok(y) => match map_list(*rest, name, vars, fs, lib, f) {
                    Err(err) => Err(err),
                    Ok(ys) => Ok(List::Cons(y, Box::new(ys))),
                },
            },
        }
    }
}

/// `name` applied to each element of each set in `args` but the last, in order.
pub open spec fn map_args(
    args: List<Data>,
    name: Seq<char>,
    vars: Variables,
    fs: Seq<Function>,
    lib: Seq<(String, Builtin)>,
    fuel: nat,
) -> Result<List<Data>, EvalError>
    decreases fuel,
{
    if fuel == 0 {
        Err(EvalError::DepthError)
    } else {
        let f = (fuel - 1) as nat;
        match args {
            List::Nil => Ok(List::Nil),
            List::Cons(a, rest) => if rest.len() == 0 {
                Ok(List::Nil)
            } else {
                match to_set(a, vars, fs, lib, f) {
                    Err(err) => Err(err),
                    Ok(l) => match map_list(l, name, vars, fs, lib, f) {
                        Err(err) => Err(err),
                        Ok(ys) => match map_args(*rest, name, vars, fs, lib, f) {
                            Err(err) => Err(err),
                            Ok(zs) => Ok(ys.concat(zs)),
                        },
                    },
                }
            },
        }
    }
}

/// A registered operation on `args`.
pub open spec fn builtin(
    b: Builtin,
    args: List<Data>,
    vars: Variables,
    fs: Seq<Function>,
    lib: Seq<(String, Builtin)>,
    fuel: nat,
) -> Result<Data, EvalError>
    decreases fuel,
{
    if fuel == 0 {
        Err(EvalError::DepthError)
    } else {
        let f = (fuel - 1) as nat;
        match b {
            Builtin::Round | Builtin::Ceil | Builtin::Floor | Builtin::Len => if args.len() != 1 {
                Err(EvalError::ArityError)
            } else {
                let x = args.at(0);
                if b == Builtin::Len {
                    match x {
                        Data::BoundedSet(l) => num_result(count(*l)),
                        Data::SymbolicSet(s) => match enumerate(*s, vars, fs, lib, f) {
                            Err(err) => Err(err),
                            Ok(None) => Ok(Data::Unbounded),
                            Ok(Some(l)) => num_result(count(l)),
                        },
                        Data::Unbounded => Err(EvalError::TypeError),
                        _ => Ok(Data::Number(Rational { num: 1, den: 1 })),
                    }
                } else {
                    match to_number(x) {
                        Err(err) => Err(err),
                        Ok(n) => num_result(
                            if b == Builtin::Round {
                                round_spec(n)
                            } else if b == Builtin::Ceil {
                                ceil_spec(n)
                            } else {
                                floor_spec(n)
                            },
                        ),
                    }
                }
            },
            Builtin::Get | Builtin::Put => if args.len() != (if b == Builtin::Get { 2nat } else { 3nat }) {
                Err(EvalError::ArityError)
            } else {
                match to_set(args.at(0), vars, fs, lib, f) {
                    Err(err) => Err(err),
                    Ok(l) => match index_of(args.at(1), l.len()) {
                        Err(err) => Err(err),
                        Ok(i) => if b == Builtin::Get {
                            Ok(l.at(i))
                        } else {
                            Ok(Data::BoundedSet(Box::new(l.update(i, args.at(2)))))
                        },
                    },
                }
            },
            Builtin::Sum | Builtin::Product => num_result(
                reduce_args(args, b == Builtin::Product, vars, fs, lib, f),
            ),
            Builtin::MapOver => match last_of(args) {
                Some(Data::Function(name)) => match map_args(args, name@, vars, fs, lib, f) {
                    Err(err) => Err(err),
                    Ok(ys) => Ok(Data::BoundedSet(Box::new(ys))),
                },
                _ => Err(EvalError::TypeError),
            },
        }
    }
}

} // verus!
