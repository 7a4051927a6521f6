use vstd::prelude::*;
use crate::data::{copy_data, Data, List};
use crate::error::EvalError;
use crate::number::{make, Rational};
use crate::semantics::Variables;

verus! {

/// A copy of a list of bindings.
pub fn copy_vars(v: &Variables) -> (r: Variables)
    ensures
        r == *v,
    decreases v,
{
    match v {
        List::Nil => List::Nil,
        List::Cons(b, rest) => List::Cons((b.0.clone(), copy_data(&b.1)), Box::new(copy_vars(rest))),
    }
}

/// A copy of the element at position `i`, if there is one.
pub fn nth(l: &List<Data>, i: u64) -> (r: Option<Data>)
    ensures
        r is Some <==> i < l.len(),
        i < l.len() ==> r == Some(l.at(i as int)),
    decreases l,
{
    match l {
        List::Nil => None,
        List::Cons(x, rest) => if i == 0 {
            Some(copy_data(x))
        } else {
            nth(rest, i - 1)
        },
    }
}

/// `l` has exactly `k` elements.
pub fn has_len<T>(l: &List<T>, k: u64) -> (r: bool)
    ensures
        r == (l.len() == k),
    decreases l,
{
    match l {
        List::Nil => k == 0,
        List::Cons(_, rest) => if k == 0 {
            false
        } else {
            has_len(rest, k - 1)
        },
    }
}

/// `l` has as many elements as `names` has from position `i` on.
pub fn len_matches(l: &List<Data>, names: &Vec<String>, i: usize) -> (r: bool)
    requires
        i <= names.len(),
    ensures
        r == (l.len() == names@.len() - i),
    decreases l,
{
    match l {
        List::Nil => i == names.len(),
        List::Cons(_, rest) => if i == names.len() {
            false
        } else {
            len_matches(rest, names, i + 1)
        },
    }
}

/// The element count of `l` as a number.
pub fn count_exec(l: &List<Data>) -> (r: Result<Rational, EvalError>)
    ensures
        r == make(l.len() as int, 1),
    decreases l,
{
    match l {
        List::Nil => Ok(Rational::from_int(0)),
        List::Cons(_, rest) => match count_exec(rest) {
            Err(e) => Err(e),
            Ok(n) => if n.num == i64::MAX {
                Err(EvalError::ArithmeticError)
            } else {
                Ok(Rational::from_int(n.num + 1))
            },
        },
    }
}

/// `l` with the element at position `i` replaced by `v`.
pub fn update_exec(l: List<Data>, i: u64, v: Data) -> (r: List<Data>)
    requires
        i < l.len(),
    ensures
        r == l.update(i as int, v),
    decreases l,
{
    match l {
        List::Nil => List::Nil,
        List::Cons(x, rest) => if i == 0 {
            List::Cons(v, rest)
        } else {
            List::Cons(x, Box::new(update_exec(*rest, i - 1, v)))
        },
    }
}

/// `a` followed by `b`.
pub fn concat_exec(a: List<Data>, b: List<Data>) -> (r: List<Data>)
    ensures
        r == a.concat(b),
    decreases a,
{
    match a {
        List::Nil => b,
        List::Cons(x, rest) => List::Cons(x, Box::new(concat_exec(*rest, b))),
    }
}

} // verus!
