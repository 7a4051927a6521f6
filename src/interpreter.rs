use vstd::prelude::*;
use crate::coerce::{
    binop_exec, combine_exec, find_builtin_exec, find_function_exec, in_base_exec, in_list_exec,
    last_of_exec, lookup_var_exec, reduce_list_exec, rounding, to_bool_exec, to_number_exec,
};
use crate::data::{copy_data, copy_data_list, copy_set, Data, Expression, List, SymbolicSet};
use crate::error::EvalError;
use crate::function::Function;
use crate::lists::{concat_exec, copy_vars, count_exec, has_len, nth, update_exec};
use crate::number::{rat_add, rat_div, rat_sub, Rational};
use crate::semantics::{
    all_in, builtin, call, derivative, enumerate, eval, eval_list, filter_member, index_of,
    map_args, map_list, member, reduce_args, to_set, Variables,
};
use crate::standardlibrary::{Builtin, StandardLibrary};

verus! {

/// Evaluates `e` under the given variables, user functions and registry,
/// nesting at most `fuel` deep.
#[verifier::spinoff_prover]
pub fn eval_expression(
    e: &Expression,
    variables: &Variables,
    functions: &Vec<Function>,
    std: &StandardLibrary,
    fuel: u64,
) -> (r: Result<Data, EvalError>)
    ensures
        r == eval(*e, *variables, functions@, std.map@, fuel as nat),
    decreases fuel,
{
    match e {
        Expression::Number(n) => Ok(Data::Number(*n)),
        Expression::Bool(b) => Ok(Data::Bool(*b)),
        Expression::Identifier(x) => match lookup_var_exec(variables, x) {
            Some(v) => Ok(v),
            None => if find_function_exec(functions, x, 0).is_some() || find_builtin_exec(
                &std.map,
                x,
                0,
            ).is_some() {
                Ok(Data::Function(x.clone()))
            } else {
                Err(EvalError::UndefinedNameError)
            },
        },
        _ => if fuel == 0 {
            Err(EvalError::DepthError)
        } else {
            let f = fuel - 1;
            match e {
                Expression::Binary(a, op, b) => match eval_expression(a, variables, functions, std, f) {
                    Err(err) => Err(err),
                    Ok(x) => match eval_expression(b, variables, functions, std, f) {
                        Err(err) => Err(err),
                        Ok(y) => binop_exec(*op, &x, &y),
                    },
                },
                Expression::If(c, a, b) => match eval_expression(c, variables, functions, std, f) {
                    Err(err) => Err(err),
                    Ok(cv) => match to_bool_exec(&cv) {
                        Err(err) => Err(err),
                        Ok(true) => eval_expression(a, variables, functions, std, f),
                        Ok(false) => eval_expression(b, variables, functions, std, f),
                    },
                },
                Expression::Belongs(a, b) => match eval_expression(a, variables, functions, std, f) {
                    Err(err) => Err(err),
                    Ok(x) => match eval_expression(b, variables, functions, std, f) {
                        Err(err) => Err(err),
                        Ok(Data::SymbolicSet(s)) => match member_exec(&x, &s, variables, functions, std, f) {
                            Err(err) => Err(err),
                            Ok(m) => Ok(Data::Bool(m)),
                        },
                        Ok(Data::BoundedSet(l)) => Ok(Data::Bool(in_list_exec(&x, &l))),
                        Ok(_) => Err(EvalError::TypeError),
                    },
                },
                Expression::Differentiate(a, b) => match eval_expression(a, variables, functions, std, f) {
                    Err(err) => Err(err),
                    Ok(Data::Function(name)) => match eval_expression(b, variables, functions, std, f) {
                        Err(err) => Err(err),
                        Ok(p) => match to_number_exec(&p) {
                            Err(err) => Err(err),
                            Ok(x) => derivative_exec(&name, x, variables, functions, std, f),
                        },
                    },
                    Ok(_) => Err(EvalError::TypeError),
                },
                Expression::Call(name, args) => match eval_list_exec(args, variables, functions, std, f) {
                    Err(err) => Err(err),
                    Ok(vs) => call_exec(name, &vs, variables, functions, std, f),
                },
                Expression::SetLiteral(es) => match eval_list_exec(es, variables, functions, std, f) {
                    Err(err) => Err(err),
                    Ok(vs) => Ok(Data::BoundedSet(Box::new(vs))),
                },
                Expression::Domain(s) => Ok(Data::SymbolicSet(Box::new(copy_set(s)))),
                _ => Err(EvalError::DepthError),
            }
        },
    }
}

/// The values of `es`, evaluated left to right.
#[verifier::spinoff_prover]
pub fn eval_list_exec(
    es: &List<Expression>,
    variables: &Variables,
    functions: &Vec<Function>,
    std: &StandardLibrary,
    fuel: u64,
) -> (r: Result<List<Data>, EvalError>)
    ensures
        r == eval_list(*es, *variables, functions@, std.map@, fuel as nat),
    decreases fuel,
{
    if fuel == 0 {
        return Err(EvalError::DepthError);
    }
    match es {
        List::Nil => Ok(List::Nil),
        List::Cons(e, rest) => match eval_expression(e, variables, functions, std, fuel - 1) {
            Err(err) => Err(err),
            Ok(v) => match eval_list_exec(rest, variables, functions, std, fuel - 1) {
                Err(err) => Err(err),
                Ok(vs) => Ok(List::Cons(v, Box::new(vs))),
            },
        },
    }
}

/// Whether `x` lies in the domain `s`.
#[verifier::spinoff_prover]
pub fn member_exec(
    x: &Data,
    s: &SymbolicSet,
    variables: &Variables,
    functions: &Vec<Function>,
    std: &StandardLibrary,
    fuel: u64,
) -> (r: Result<bool, EvalError>)
    ensures
        r == member(*x, *s, *variables, functions@, std.map@, fuel as nat),
    decreases fuel,
{
    if fuel == 0 {
        return Err(EvalError::DepthError);
    }
    let f = fuel - 1;
    match s {
        SymbolicSet::Base(b) => Ok(in_base_exec(x, *b)),
        SymbolicSet::Enumeration(l) => Ok(in_list_exec(x, l)),
        SymbolicSet::Union(a, b) => match member_exec(x, a, variables, functions, std, f) {
            Err(err) => Err(err),
            Ok(true) => Ok(true),
            Ok(false) => member_exec(x, b, variables, functions, std, f),
        },
        SymbolicSet::Intersection(a, b) => match member_exec(x, a, variables, functions, std, f) {
            Err(err) => Err(err),
            Ok(false) => Ok(false),
            Ok(true) => member_exec(x, b, variables, functions, std, f),
        },
        SymbolicSet::Difference(a, b) => match member_exec(x, a, variables, functions, std, f) {
            Err(err) => Err(err),
            Ok(false) => Ok(false),
            Ok(true) => match member_exec(x, b, variables, functions, std, f) {
                Err(err) => Err(err),
                Ok(m) => Ok(!m),
            },
        },
        SymbolicSet::Where(v, p, b) => match member_exec(x, b, variables, functions, std, f) {
            Err(err) => Err(err),
            Ok(false) => Ok(false),
            Ok(true) => {
                let inner = List::Cons((v.clone(), copy_data(x)), Box::new(copy_vars(variables)));
                match eval_expression(p, &inner, functions, std, f) {
                    Err(err) => Err(err),
                    Ok(d) => to_bool_exec(&d),
                }
            },
        },
    }
}

/// The elements of `l` whose membership in `s` is `keep`, in order.
#[verifier::spinoff_prover]
pub fn filter_member_exec(
    l: &List<Data>,
    s: &SymbolicSet,
    keep: bool,
    variables: &Variables,
    functions: &Vec<Function>,
    std: &StandardLibrary,
    fuel: u64,
) -> (r: Result<List<Data>, EvalError>)
    ensures
        r == filter_member(*l, *s, keep, *variables, functions@, std.map@, fuel as nat),
    decreases fuel,
{
    if fuel == 0 {
        return Err(EvalError::DepthError);
    }
    let f = fuel - 1;
    match l {
        List::Nil => Ok(List::Nil),
        List::Cons(x, rest) => match member_exec(x, s, variables, functions, std, f) {
            Err(err) => Err(err),
            Ok(m) => match filter_member_exec(rest, s, keep, variables, functions, std, f) {
                Err(err) => Err(err),
                Ok(r) => if m == keep {
                    Ok(List::Cons(copy_data(x), Box::new(r)))
                } else {
                    Ok(r)
                },
            },
        },
    }
}

/// The elements of `s` in order where `s` is reduced to a listed domain;
/// `None` where it is not.
#[verifier::spinoff_prover]
pub fn enumerate_exec(
    s: &SymbolicSet,
    variables: &Variables,
    functions: &Vec<Function>,
    std: &StandardLibrary,
    fuel: u64,
) -> (r: Result<Option<List<Data>>, EvalError>)
    ensures
        r == enumerate(*s, *variables, functions@, std.map@, fuel as nat),
    decreases fuel,
{
    proof {
        reveal_with_fuel(enumerate, 1);
    }
    if fuel == 0 {
        return Err(EvalError::DepthError);
    }
    let f = fuel - 1;
    match s {
        SymbolicSet::Base(_) => Ok(None),
        SymbolicSet::Enumeration(l) => Ok(Some(copy_data_list(l))),
        SymbolicSet::Union(a, b) => match enumerate_exec(a, variables, functions, std, f) {
            Err(err) => Err(err),
            Ok(None) => Ok(None),
            Ok(Some(la)) => match enumerate_exec(b, variables, functions, std, f) {
                Err(err) => Err(err),
                Ok(None) => Ok(None),
                Ok(Some(lb)) => match filter_member_exec(&lb, a, false, variables, functions, std, f) {
                    Err(err) => Err(err),
                    Ok(extra) => Ok(Some(concat_exec(la, extra))),
                },
            },
        },
        SymbolicSet::Intersection(a, b) => match enumerate_exec(a, variables, functions, std, f) {
            Err(err) => Err(err),
            Ok(Some(la)) => match filter_member_exec(&la, b, true, variables, functions, std, f) {
                Err(err) => Err(err),
                Ok(r) => Ok(Some(r)),
            },
            Ok(None) => match enumerate_exec(b, variables, functions, std, f) {
                Err(err) => Err(err),
                Ok(None) => Ok(None),
                Ok(Some(lb)) => match filter_member_exec(&lb, a, true, variables, functions, std, f) {
                    Err(err) => Err(err),
                    Ok(r) => Ok(Some(r)),
                },
            },
        },
        SymbolicSet::Difference(a, b) => match enumerate_exec(a, variables, functions, std, f) {
            Err(err) => Err(err),
            Ok(None) => Ok(None),
            Ok(Some(la)) => match filter_member_exec(&la, b, false, variables, functions, std, f) {
                Err(err) => Err(err),
                Ok(r) => Ok(Some(r)),
            },
        },
        SymbolicSet::Where(_, _, b) => match enumerate_exec(b, variables, functions, std, f) {
            Err(err) => Err(err),
            Ok(None) => Ok(None),
            Ok(Some(lb)) => match filter_member_exec(&lb, s, true, variables, functions, std, f) {
                Err(err) => Err(err),
                Ok(r) => Ok(Some(r)),
            },
        },
    }
}

/// Set coercion of `d`.
#[verifier::rlimit(50)]
#[verifier::spinoff_prover]
pub fn to_set_exec(
    d: &Data,
    variables: &Variables,
    functions: &Vec<Function>,
    std: &StandardLibrary,
    fuel: u64,
) -> (r: Result<List<Data>, EvalError>)
    ensures
        r == to_set(*d, *variables, functions@, std.map@, fuel as nat),
    decreases fuel,
{
    if fuel == 0 {
        return Err(EvalError::DepthError);
    }
    match d {
        Data::BoundedSet(l) => Ok(copy_data_list(l)),
        Data::SymbolicSet(s) => match enumerate_exec(s, variables, functions, std, fuel - 1) {
            Err(err) => Err(err),
            Ok(None) => Err(EvalError::TypeError),
            Ok(Some(l)) => Ok(l),
        },
        Data::Unbounded => Err(EvalError::TypeError),
        _ => Ok(List::Cons(copy_data(d), Box::new(List::Nil))),
    }
}

/// Calls `name` on `args`: a registered operation first, then a user function.
#[verifier::spinoff_prover]
pub fn call_exec(
    name: &String,
    args: &List<Data>,
    variables: &Variables,
    functions: &Vec<Function>,
    std: &StandardLibrary,
    fuel: u64,
) -> (r: Result<Data, EvalError>)
    ensures
        r == call(name@, *args, *variables, functions@, std.map@, fuel as nat),
    decreases fuel,
{
    if fuel == 0 {
        return Err(EvalError::DepthError);
    }
    let f = fuel - 1;
    match find_builtin_exec(&std.map, name, 0) {
        Some(b) => builtin_exec(b, args, variables, functions, std, f),
        None => match find_function_exec(functions, name, 0) {
            Some(i) => functions[i].run(args, variables, functions, std, f),
            None => Err(EvalError::UndefinedNameError),
        },
    }
}

/// Whether every one of `args` lies in `s`.
#[verifier::spinoff_prover]
pub fn all_in_exec(
    args: &List<Data>,
    s: &SymbolicSet,
    variables: &Variables,
    functions: &Vec<Function>,
    std: &StandardLibrary,
    fuel: u64,
) -> (r: Result<bool, EvalError>)
    ensures
        r == all_in(*args, *s, *variables, functions@, std.map@, fuel as nat),
    decreases fuel,
{
    if fuel == 0 {
        return Err(EvalError::DepthError);
    }
    let f = fuel - 1;
    match args {
        List::Nil => Ok(true),
        List::Cons(a, rest) => match member_exec(a, s, variables, functions, std, f) {
            Err(err) => Err(err),
            Ok(false) => Ok(false),
            Ok(true) => all_in_exec(rest, s, variables, functions, std, f),
        },
    }
}

/// The central-difference derivative of the function named `name` at `x`.
#[verifier::spinoff_prover]
pub fn derivative_exec(
    name: &String,
    x: Rational,
    variables: &Variables,
    functions: &Vec<Function>,
    std: &StandardLibrary,
    fuel: u64,
) -> (r: Result<Data, EvalError>)
    ensures
        r == derivative(name@, x, *variables, functions@, std.map@, fuel as nat),
    decreases fuel,
{
    if fuel == 0 {
        return Err(EvalError::DepthError);
    }
    let f = fuel - 1;
    let h = Rational { num: 1, den: 1000 };
    let hi = match rat_add(x, h) {
        Err(err) => return Err(err),
        Ok(v) => v,
    };
    let lo = match rat_sub(x, h) {
        Err(err) => return Err(err),
        Ok(v) => v,
    };
    let yh = match call_exec(name, &List::Cons(Data::Number(hi), Box::new(List::Nil)), variables, functions, std, f) {
        Err(err) => return Err(err),
        Ok(v) => v,
    };
    let yl = match call_exec(name, &List::Cons(Data::Number(lo), Box::new(List::Nil)), variables, functions, std, f) {
        Err(err) => return Err(err),
        Ok(v) => v,
    };
    match (to_number_exec(&yh), to_number_exec(&yl)) {
        (Err(err), _) => Err(err),
        (_, Err(err)) => Err(err),
        (Ok(a), Ok(b)) => match rat_sub(a, b) {
            Err(err) => Err(err),
            Ok(d) => match rat_div(d, Rational { num: 2, den: 1000 }) {
                Ok(n) => Ok(Data::Number(n)),
                Err(err) => Err(err),
            },
        },
    }
}

/// The sum (or, with `product`, the product) over all values of all sets in `args`.
#[verifier::rlimit(50)]
#[verifier::spinoff_prover]
pub fn reduce_args_exec(
    args: &List<Data>,
    product: bool,
    variables: &Variables,
    functions: &Vec<Function>,
    std: &StandardLibrary,
    fuel: u64,
) -> (r: Result<Rational, EvalError>)
    ensures
        r == reduce_args(*args, product, *variables, functions@, std.map@, fuel as nat),
    decreases fuel,
{
    proof {
        reveal_with_fuel(reduce_args, 1);
    }
    if fuel == 0 {
        return Err(EvalError::DepthError);
    }
    let f = fuel - 1;
    match args {
        List::Nil => Ok(Rational::from_int(if product { 1 } else { 0 })),
        List::Cons(a, rest) => {
            let l = match to_set_exec(a, variables, functions, std, f) {
                Err(err) => return Err(err),
                Ok(l) => l,
            };
            let x = match reduce_list_exec(&l, product) {
                Err(err) => return Err(err),
                Ok(x) => x,
            };
            let y = match reduce_args_exec(rest, product, variables, functions, std, f) {
                Err(err) => return Err(err),
                Ok(y) => y,
            };
            combine_exec(x, y, product)
        },
    }
}

/// `name` applied to each element of `l`, in order.
#[verifier::spinoff_prover]
pub fn map_list_exec(
    l: &List<Data>,
    name: &String,
    variables: &Variables,
    functions: &Vec<Function>,
    std: &StandardLibrary,
    fuel: u64,
) -> (r: Result<List<Data>, EvalError>)
    ensures
        r == map_list(*l, name@, *variables, functions@, std.map@, fuel as nat),
    decreases fuel,
{
    if fuel == 0 {
        return Err(EvalError::DepthError);
    }
    let f = fuel - 1;
    match l {
        List::Nil => Ok(List::Nil),
        List::Cons(x, rest) => match call_exec(
            name,
            &List::Cons(copy_data(x), Box::new(List::Nil)),
            variables,
            functions,
            std,
            f,
        ) {
            Err(err) => Err(err),
            Ok(y) => match map_list_exec(rest, name, variables, functions, std, f) {
                Err(err) => Err(err),
                Ok(ys) => Ok(List::Cons(y, Box::new(ys))),
            },
        },
    }
}

/// `name` applied to each element of each set in `args` but the last, in order.
#[verifier::rlimit(50)]
#[verifier::spinoff_prover]
pub fn map_args_exec(
    args: &List<Data>,
    name: &String,
    variables: &Variables,
    functions: &Vec<Function>,
    std: &StandardLibrary,
    fuel: u64,
) -> (r: Result<List<Data>, EvalError>)
    ensures
        r == map_args(*args, name@, *variables, functions@, std.map@, fuel as nat),
    decreases fuel,
{
    proof {
        reveal_with_fuel(map_args, 1);
    }
    if fuel == 0 {
        return Err(EvalError::DepthError);
    }
    let f = fuel - 1;
    match args {
        List::Nil => Ok(List::Nil),
        List::Cons(a, rest) => {
            if let List::Nil = &**rest {
                return Ok(List::Nil);
            }
            let l = match to_set_exec(a, variables, functions, std, f) {
                Err(err) => return Err(err),
                Ok(l) => l,
            };
            let ys = match map_list_exec(&l, name, variables, functions, std, f) {
                Err(err) => return Err(err),
                Ok(ys) => ys,
            };
            let zs = match map_args_exec(rest, name, variables, functions, std, f) {
                Err(err) => return Err(err),
                Ok(zs) => zs,
            };
            Ok(concat_exec(ys, zs))
        },
    }
}

/// Runs the registered operation `b` on `args`.
#[verifier::spinoff_prover]
pub fn builtin_exec(
    b: Builtin,
    args: &List<Data>,
    variables: &Variables,
    functions: &Vec<Function>,
    std: &StandardLibrary,
    fuel: u64,
) -> (r: Result<Data, EvalError>)
    ensures
        r == builtin(b, *args, *variables, functions@, std.map@, fuel as nat),
    decreases fuel,
{
    if fuel == 0 {
        return Err(EvalError::DepthError);
    }
    let f = fuel - 1;
    match b {
        Builtin::Round | Builtin::Ceil | Builtin::Floor | Builtin::Len => {
            if !has_len(args, 1) {
                return Err(EvalError::ArityError);
            }
            let x = nth(args, 0).unwrap();
            if b == Builtin::Len {
                match x {
                    Data::BoundedSet(l) => match count_exec(&l) {
                        Ok(n) => Ok(Data::Number(n)),
                        Err(err) => Err(err),
                    },
                    Data::SymbolicSet(s) => match enumerate_exec(&s, variables, functions, std, f) {
                        Err(err) => Err(err),
                        Ok(None) => Ok(Data::Unbounded),
                        Ok(Some(l)) => match count_exec(&l) {
                            Ok(n) => Ok(Data::Number(n)),
                            Err(err) => Err(err),
                        },
                    },
                    Data::Unbounded => Err(EvalError::TypeError),
                    _ => Ok(Data::Number(Rational::from_int(1))),
                }
            } else {
                match to_number_exec(&x) {
                    Err(err) => Err(err),
                    Ok(n) => match rounding(b, n) {
                        Ok(v) => Ok(Data::Number(v)),
                        Err(err) => Err(err),
                    },
                }
            }
        },
        Builtin::Get | Builtin::Put => {
            if !has_len(args, if b == Builtin::Get { 2 } else { 3 }) {
                return Err(EvalError::ArityError);
            }
            let s = nth(args, 0).unwrap();
            let l = match to_set_exec(&s, variables, functions, std, f) {
                Err(err) => return Err(err),
                Ok(l) => l,
            };
            let i = match index_exec(&nth(args, 1).unwrap(), &l) {
                Err(err) => return Err(err),
                Ok(i) => i,
            };
            if b == Builtin::Get {
                Ok(nth(&l, i).unwrap())
            } else {
                Ok(Data::BoundedSet(Box::new(update_exec(l, i, nth(args, 2).unwrap()))))
            }
        },
        Builtin::Sum | Builtin::Product => match reduce_args_exec(
            args,
            b == Builtin::Product,
            variables,
            functions,
            std,
            f,
        ) {
            Ok(n) => Ok(Data::Number(n)),
            Err(err) => Err(err),
        },
        Builtin::MapOver => match last_of_exec(args) {
            Some(Data::Function(name)) => match map_args_exec(args, &name, variables, functions, std, f) {
                Err(err) => Err(err),
                Ok(ys) => Ok(Data::BoundedSet(Box::new(ys))),
            },
            _ => Err(EvalError::TypeError),
        },
    }
}

/// The position in `l` that the number `d` names.
#[verifier::spinoff_prover]
pub fn index_exec(d: &Data, l: &List<Data>) -> (r: Result<u64, EvalError>)
    ensures
        r matches Ok(i) ==> index_of(*d, l.len()) == Ok::<int, EvalError>(i as int),
        r matches Err(e) ==> index_of(*d, l.len()) == Err::<int, EvalError>(e),
{
    let n = match to_number_exec(d) {
        Err(err) => return Err(err),
        Ok(n) => n,
    };
    if !crate::number::is_integer(n) {
        return Err(EvalError::IndexError);
    }
    if n.num < 0 {
        assert(n.num / n.den < 0) by (nonlinear_arith)
            requires
                n.num < 0,
                n.den > 0,
        ;
        return Err(EvalError::IndexError);
    }
    let q = (n.num as u64) / (n.den as u64);
    if nth(l, q).is_none() {
        return Err(EvalError::IndexError);
    }
    Ok(q)
}

} // verus!
