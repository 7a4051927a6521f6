use vstd::prelude::*;
use crate::number::Rational;

verus! {

/// An immutable singly linked list. Copies of a list are equal to it, element
/// for element, which lets contracts speak of values by plain equality.
#[derive(Debug)]
pub enum List<T> {
    Nil,
    Cons(T, Box<List<T>>),
}

impl<T> List<T> {
    pub open spec fn len(self) -> nat
        decreases self,
    {
        match self {
            List::Nil => 0,
            List::Cons(_, rest) => 1 + rest.len(),
        }
    }

    /// The element at position `i`.
    pub open spec fn at(self, i: int) -> T
        recommends
            0 <= i < self.len(),
        decreases self,
    {
        match self {
            List::Nil => arbitrary(),
            List::Cons(x, rest) => if i == 0 {
                x
            } else {
                rest.at(i - 1)
            },
        }
    }

    /// The list with the element at position `i` replaced by `v`.
    pub open spec fn update(self, i: int, v: T) -> List<T>
        decreases self,
    {
        match self {
            List::Nil => List::Nil,
            List::Cons(x, rest) => if i == 0 {
                List::Cons(v, rest)
            } else {
                List::Cons(x, Box::new(rest.update(i - 1, v)))
            },
        }
    }

    /// `self` followed by `other`.
    pub open spec fn concat(self, other: List<T>) -> List<T>
        decreases self,
    {
        match self {
            List::Nil => other,
            List::Cons(x, rest) => List::Cons(x, Box::new(rest.concat(other))),
        }
    }

    /// The elements in order.
    pub open spec fn to_seq(self) -> Seq<T>
        decreases self,
    {
        match self {
            List::Nil => Seq::empty(),
            List::Cons(x, rest) => seq![x].add(rest.to_seq()),
        }
    }
}

/// A named domain of numbers.
#[derive(Clone, Copy, Debug, PartialEq, Eq, Structural)]
pub enum BaseSet {
    Real,
    Integer,
    /// The whole numbers from zero up.
    Natural,
}

/// A domain described rather than listed: a base domain, a listed domain,
/// set algebra over two domains, or the members of a domain for which a
/// predicate on a variable holds.
#[derive(Debug)]
pub enum SymbolicSet {
    Base(BaseSet),
    Enumeration(Box<List<Data>>),
    Union(Box<SymbolicSet>, Box<SymbolicSet>),
    Intersection(Box<SymbolicSet>, Box<SymbolicSet>),
    Difference(Box<SymbolicSet>, Box<SymbolicSet>),
    Where(String, Box<Expression>, Box<SymbolicSet>),
}

/// A value of the language.
#[derive(Debug)]
pub enum Data {
    Number(Rational),
    Bool(bool),
    /// A function passed as a value, by the name it is defined under.
    Function(String),
    /// A finite ordered sequence of values; duplicates allowed.
    BoundedSet(Box<List<Data>>),
    SymbolicSet(Box<SymbolicSet>),
    /// The length of a set that cannot be counted.
    Unbounded,
}

/// The binary operators.
#[derive(Clone, Copy, Debug, PartialEq, Eq, Structural)]
pub enum BinOp {
    Add,
    Sub,
    Mul,
    Div,
    Pow,
    Mod,
    Gt,
    Lt,
    GtEq,
    LtEq,
    IsEq,
    NEq,
}

/// An expression tree.
#[derive(Debug)]
pub enum Expression {
    Number(Rational),
    Bool(bool),
    Identifier(String),
    Binary(Box<Expression>, BinOp, Box<Expression>),
    /// `if c then a else b end`
    If(Box<Expression>, Box<Expression>, Box<Expression>),
    /// `x E s`
    Belongs(Box<Expression>, Box<Expression>),
    /// The derivative of a function value at a point.
    Differentiate(Box<Expression>, Box<Expression>),
    /// A call by name, with its arguments.
    Call(String, Box<List<Expression>>),
    /// A set literal `{a, b, ...}`.
    SetLiteral(Box<List<Expression>>),
    /// A domain literal.
    Domain(SymbolicSet),
}

/// A deep copy of `d`.
pub fn copy_data(d: &Data) -> (r: Data)
    ensures
        r == *d,
    decreases d,
{
    match d {
        Data::Number(n) => Data::Number(*n),
        Data::Bool(b) => Data::Bool(*b),
        Data::Function(f) => Data::Function(f.clone()),
        Data::BoundedSet(v) => Data::BoundedSet(Box::new(copy_data_list(v))),
        Data::SymbolicSet(s) => Data::SymbolicSet(Box::new(copy_set(s))),
        Data::Unbounded => Data::Unbounded,
    }
}

/// A deep copy of `l`.
pub fn copy_data_list(l: &List<Data>) -> (r: List<Data>)
    ensures
        r == *l,
    decreases l,
{
    match l {
        List::Nil => List::Nil,
        List::Cons(x, rest) => List::Cons(copy_data(x), Box::new(copy_data_list(rest))),
    }
}

/// A deep copy of `s`.
pub fn copy_set(s: &SymbolicSet) -> (r: SymbolicSet)
    ensures
        r == *s,
    decreases s,
{
    match s {
        SymbolicSet::Base(b) => SymbolicSet::Base(*b),
        SymbolicSet::Enumeration(v) => SymbolicSet::Enumeration(Box::new(copy_data_list(v))),
        SymbolicSet::Union(a, b) => SymbolicSet::Union(
            Box::new(copy_set(a)),
            Box::new(copy_set(b)),
        ),
        SymbolicSet::Intersection(a, b) => SymbolicSet::Intersection(
            Box::new(copy_set(a)),
            Box::new(copy_set(b)),
        ),
        SymbolicSet::Difference(a, b) => SymbolicSet::Difference(
            Box::new(copy_set(a)),
            Box::new(copy_set(b)),
        ),
        SymbolicSet::Where(x, p, b) => SymbolicSet::Where(
            x.clone(),
            Box::new(copy_expr(p)),
            Box::new(copy_set(b)),
        ),
    }
}

/// A deep copy of `e`.
pub fn copy_expr(e: &Expression) -> (r: Expression)
    ensures
        r == *e,
    decreases e,
{
    match e {
        Expression::Number(n) => Expression::Number(*n),
        Expression::Bool(b) => Expression::Bool(*b),
        Expression::Identifier(s) => Expression::Identifier(s.clone()),
        Expression::Binary(a, o, b) => Expression::Binary(
            Box::new(copy_expr(a)),
            *o,
            Box::new(copy_expr(b)),
        ),
        Expression::If(c, a, b) => Expression::If(
            Box::new(copy_expr(c)),
            Box::new(copy_expr(a)),
            Box::new(copy_expr(b)),
        ),
        Expression::Belongs(a, b) => Expression::Belongs(
            Box::new(copy_expr(a)),
            Box::new(copy_expr(b)),
        ),
        Expression::Differentiate(a, b) => Expression::Differentiate(
            Box::new(copy_expr(a)),
            Box::new(copy_expr(b)),
        ),
        Expression::Call(n, v) => Expression::Call(n.clone(), Box::new(copy_expr_list(v))),
        Expression::SetLiteral(v) => Expression::SetLiteral(Box::new(copy_expr_list(v))),
        Expression::Domain(s) => Expression::Domain(copy_set(s)),
    }
}

/// A deep copy of `l`.
pub fn copy_expr_list(l: &List<Expression>) -> (r: List<Expression>)
    ensures
        r == *l,
    decreases l,
{
    match l {
        List::Nil => List::Nil,
        List::Cons(x, rest) => List::Cons(copy_expr(x), Box::new(copy_expr_list(rest))),
    }
}

/// The list holding the elements of `v` in order.
pub fn list_from_vec<T>(v: Vec<T>) -> (r: List<T>)
    ensures
        r.to_seq() == v@,
{
    let ghost all = v@;
    let mut v = v;
    let mut r: List<T> = List::Nil;
    assert(v@ + r.to_seq() =~= all);
    while v.len() > 0
        invariant
            v@ + r.to_seq() == all,
        decreases v.len(),
    {
        let ghost before = v@ + r.to_seq();
        let x = v.pop().unwrap();
        r = List::Cons(x, Box::new(r));
        assert(v@ + r.to_seq() =~= before);
    }
    assert(v@ + r.to_seq() =~= r.to_seq());
    r
}

} // verus!
