use vstd::prelude::*;
use crate::data::{copy_data, BaseSet, BinOp, Data, List};
use crate::error::EvalError;
use crate::function::Function;
use crate::number::{
    is_integer, rat_add, rat_ceil, rat_div, rat_eq, rat_floor, rat_lt, rat_mul, rat_pow, rat_rem,
    rat_round, rat_sub, Rational,
};
use crate::semantics::{
    arith, bind_params, combine, binop, data_equal, find_builtin, find_function, in_base, in_list,
    last_of, list_equal, lookup_var, reduce_list, to_bool, to_number, Variables,
};
use crate::standardlibrary::Builtin;

verus! {

/// A copy of the value bound to `name`, the newest binding first.
pub fn lookup_var_exec(vars: &Variables, name: &String) -> (r: Option<Data>)
    ensures
        r == lookup_var(*vars, name@),
    decreases vars,
{
    match vars {
        List::Nil => None,
        List::Cons(b, rest) => if b.0 == *name {
            Some(copy_data(&b.1))
        } else {
            lookup_var_exec(rest, name)
        },
    }
}

/// The position of the first function named `name`, from position `i` on.
pub fn find_function_exec(fs: &Vec<Function>, name: &String, i: usize) -> (r: Option<usize>)
    ensures
        r matches Some(k) ==> find_function(fs@, name@, i as int) == Some(k as int) && k < fs@.len(),
        r is None ==> find_function(fs@, name@, i as int) is None,
    decreases fs.len() - i,
{
    if i >= fs.len() {
        None
    } else if fs[i].name == *name {
        Some(i)
    } else {
        find_function_exec(fs, name, i + 1)
    }
}

/// The first operation registered under `name`, from position `i` on.
pub fn find_builtin_exec(lib: &Vec<(String, Builtin)>, name: &String, i: usize) -> (r: Option<
    Builtin,
>)
    ensures
        r == find_builtin(lib@, name@, i as int),
    decreases lib.len() - i,
{
    if i >= lib.len() {
        None
    } else if lib[i].0 == *name {
        Some(lib[i].1)
    } else {
        find_builtin_exec(lib, name, i + 1)
    }
}

pub fn to_number_exec(d: &Data) -> (r: Result<Rational, EvalError>)
    ensures
        r == to_number(*d),
{
    match d {
        Data::Number(n) => Ok(*n),
        Data::Bool(b) => Ok(Rational::from_int(if *b { 1 } else { 0 })),
        _ => Err(EvalError::TypeError),
    }
}

pub fn to_bool_exec(d: &Data) -> (r: Result<bool, EvalError>)
    ensures
        r == to_bool(*d),
{
    match d {
        Data::Bool(b) => Ok(*b),
        Data::Number(n) => Ok(n.num != 0),
        _ => Err(EvalError::TypeError),
    }
}

pub fn data_equal_exec(a: &Data, b: &Data) -> (r: Option<bool>)
    ensures
        r == data_equal(*a, *b),
    decreases a,
{
    match (a, b) {
        (Data::BoundedSet(x), Data::BoundedSet(y)) => list_equal_exec(x, y),
        (Data::Function(f), Data::Function(g)) => Some(*f == *g),
        (Data::Unbounded, Data::Unbounded) => Some(true),
        _ => match (to_number_exec(a), to_number_exec(b)) {
            (Ok(x), Ok(y)) => Some(rat_eq(x, y)),
            _ => None,
        },
    }
}

pub fn list_equal_exec(x: &List<Data>, y: &List<Data>) -> (r: Option<bool>)
    ensures
        r == list_equal(*x, *y),
    decreases x,
{
    match (x, y) {
        (List::Nil, List::Nil) => Some(true),
        (List::Cons(a, xs), List::Cons(b, ys)) => match data_equal_exec(a, b) {
            Some(true) => list_equal_exec(xs, ys),
            other => other,
        },
        _ => Some(false),
    }
}

pub fn in_list_exec(x: &Data, l: &List<Data>) -> (r: bool)
    ensures
        r == in_list(*x, *l),
    decreases l,
{
    match l {
        List::Nil => false,
        List::Cons(a, rest) => data_equal_exec(x, a) == Some(true) || in_list_exec(x, rest),
    }
}

fn num_data(r: Result<Rational, EvalError>) -> (d: Result<Data, EvalError>)
    ensures
        d == crate::semantics::num_result(r),
{
    match r {
        Ok(n) => Ok(Data::Number(n)),
        Err(e) => Err(e),
    }
}

pub fn arith_exec(op: BinOp, x: Rational, y: Rational) -> (r: Result<Data, EvalError>)
    ensures
        r == arith(op, x, y),
{
    match op {
        BinOp::Add => num_data(rat_add(x, y)),
        BinOp::Sub => num_data(rat_sub(x, y)),
        BinOp::Mul => num_data(rat_mul(x, y)),
        BinOp::Div => num_data(rat_div(x, y)),
        BinOp::Pow => num_data(rat_pow(x, y)),
        BinOp::Mod => num_data(rat_rem(x, y)),
        BinOp::Gt => Ok(Data::Bool(rat_lt(y, x))),
        BinOp::Lt => Ok(Data::Bool(rat_lt(x, y))),
        BinOp::GtEq => Ok(Data::Bool(!rat_lt(x, y))),
        BinOp::LtEq => Ok(Data::Bool(!rat_lt(y, x))),
        BinOp::IsEq => Ok(Data::Bool(rat_eq(x, y))),
        BinOp::NEq => Ok(Data::Bool(!rat_eq(x, y))),
    }
}

/// A binary operator applied to two values.
pub fn binop_exec(op: BinOp, a: &Data, b: &Data) -> (r: Result<Data, EvalError>)
    ensures
        r == binop(op, *a, *b),
{
    if op == BinOp::IsEq || op == BinOp::NEq {
        match data_equal_exec(a, b) {
            Some(e) => Ok(Data::Bool(if op == BinOp::IsEq { e } else { !e })),
            None => Err(EvalError::TypeError),
        }
    } else {
        match to_number_exec(a) {
            Err(e) => Err(e),
            Ok(x) => match to_number_exec(b) {
                Err(e) => Err(e),
                Ok(y) => arith_exec(op, x, y),
            },
        }
    }
}

pub fn in_base_exec(x: &Data, b: BaseSet) -> (r: bool)
    ensures
        r == in_base(*x, b),
{
    match to_number_exec(x) {
        Err(_) => false,
        Ok(n) => match b {
            BaseSet::Real => true,
            BaseSet::Integer => is_integer(n),
            BaseSet::Natural => is_integer(n) && n.num >= 0,
        },
    }
}

/// Sum (or, with `product`, product) of the numeric values of `l`.
pub fn reduce_list_exec(l: &List<Data>, product: bool) -> (r: Result<Rational, EvalError>)
    ensures
        r == reduce_list(*l, product),
    decreases l,
{
    match l {
        List::Nil => Ok(Rational::from_int(if product { 1 } else { 0 })),
        List::Cons(x, rest) => match to_number_exec(x) {
            Err(e) => Err(e),
            Ok(n) => match reduce_list_exec(rest, product) {
                Err(e) => Err(e),
                Ok(s) => combine_exec(n, s, product),
            },
        },
    }
}

/// `x * y` with `product`, else `x + y`.
pub fn combine_exec(x: Rational, y: Rational, product: bool) -> (r: Result<Rational, EvalError>)
    ensures
        r == combine(x, y, product),
{
    proof {
        reveal(combine);
    }
    if product {
        rat_mul(x, y)
    } else {
        rat_add(x, y)
    }
}

/// A copy of the last element of `l`.
pub fn last_of_exec(l: &List<Data>) -> (r: Option<Data>)
    ensures
        r == last_of(*l),
    decreases l,
{
    match l {
        List::Nil => None,
        List::Cons(x, rest) => match &**rest {
            List::Nil => Some(copy_data(x)),
            _ => last_of_exec(rest),
        },
    }
}

/// `vars` with each of `args` bound to the parameter of `names` at the same
/// position, from position `i` on.
pub fn bind_params_exec(names: &Vec<String>, args: &List<Data>, i: usize, vars: Variables) -> (r:
    Variables)
    requires
        i + args.len() <= names.len(),
    ensures
        r == bind_params(names@, *args, i as int, vars),
    decreases args,
{
    match args {
        List::Nil => vars,
        List::Cons(a, rest) => bind_params_exec(
            names,
            rest,
            i + 1,
            List::Cons((names[i].clone(), copy_data(a)), Box::new(vars)),
        ),
    }
}

/// `n` rounded to a whole number by the rule of `b`: to nearest, up, or down.
pub fn rounding(b: Builtin, n: Rational) -> (r: Result<Rational, EvalError>)
    ensures
        r == (if b == Builtin::Round {
            crate::number::round_spec(n)
        } else if b == Builtin::Ceil {
            crate::number::ceil_spec(n)
        } else {
            crate::number::floor_spec(n)
        }),
{
    if b == Builtin::Round {
        rat_round(n)
    } else if b == Builtin::Ceil {
        rat_ceil(n)
    } else {
        rat_floor(n)
    }
}

} // verus!
