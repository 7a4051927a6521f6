use exprlang::data::{list_from_vec, BaseSet, BinOp, Data, Expression, List, SymbolicSet};
use exprlang::error::EvalError;
use exprlang::function::Function;
use exprlang::interpreter::eval_expression;
use exprlang::number::Rational;
use exprlang::standardlibrary::StandardLibrary;

const FUEL: u64 = 10_000;

fn whole(n: i64) -> Expression {
    Expression::Number(Rational::from_int(n))
}

fn bin(a: Expression, op: BinOp, b: Expression) -> Expression {
    Expression::Binary(Box::new(a), op, Box::new(b))
}

fn set_of(items: Vec<i64>) -> Expression {
    Expression::SetLiteral(Box::new(list_from_vec(items.into_iter().map(whole).collect())))
}

fn call(name: &str, args: Vec<Expression>) -> Expression {
    Expression::Call(name.to_string(), Box::new(list_from_vec(args)))
}

fn std_lib() -> StandardLibrary {
    let mut s = StandardLibrary::new();
    s.init_std();
    s
}

fn run_with(e: &Expression, functions: &Vec<Function>) -> Result<Data, EvalError> {
    eval_expression(e, &List::Nil, functions, &std_lib(), FUEL)
}

fn run(e: &Expression) -> Result<Data, EvalError> {
    run_with(e, &Vec::new())
}

fn number(r: &Result<Data, EvalError>) -> (i64, i64) {
    match r {
        Ok(Data::Number(n)) => (n.num, n.den),
        other => panic!("not a number: {:?}", other),
    }
}

fn numbers(r: &Result<Data, EvalError>) -> Vec<(i64, i64)> {
    let mut out = Vec::new();
    let mut l = match r {
        Ok(Data::BoundedSet(l)) => &**l,
        other => panic!("not a set: {:?}", other),
    };
    while let List::Cons(x, rest) = l {
        match x {
            Data::Number(n) => out.push((n.num, n.den)),
            other => panic!("not a number: {:?}", other),
        }
        l = &**rest;
    }
    out
}

#[test]
fn literal_evaluates_to_itself() {
    let r = run(&Expression::Number(Rational { num: 5, den: 2 }));
    assert_eq!(number(&r), (5, 2));
}

#[test]
fn conditional_never_evaluates_untaken_branch() {
    let bad = bin(whole(1), BinOp::Div, whole(0));
    let e = Expression::If(Box::new(Expression::Bool(true)), Box::new(whole(1)), Box::new(bad));
    assert_eq!(number(&run(&e)), (1, 1));
    let bad = Expression::Identifier("nowhere".to_string());
    let e = Expression::If(Box::new(Expression::Bool(false)), Box::new(bad), Box::new(whole(2)));
    assert_eq!(number(&run(&e)), (2, 1));
}

#[test]
fn get_after_set_reads_the_value_written() {
    let updated = call("set", vec![set_of(vec![1, 2, 3]), whole(1), whole(9)]);
    assert_eq!(numbers(&run(&updated)), vec![(1, 1), (9, 1), (3, 1)]);
    let e = call("get", vec![updated, whole(1)]);
    assert_eq!(number(&run(&e)), (9, 1));
}

#[test]
fn get_out_of_range_is_index_error() {
    let e = call("get", vec![set_of(vec![1, 2, 3]), whole(3)]);
    assert!(matches!(run(&e), Err(EvalError::IndexError)));
}

#[test]
fn len_of_sets() {
    assert_eq!(number(&run(&call("len", vec![set_of(vec![4, 5, 6])]))), (3, 1));
    assert_eq!(number(&run(&call("len", vec![set_of(vec![])]))), (0, 1));
    assert_eq!(number(&run(&call("len", vec![whole(7)]))), (1, 1));
    let real = Expression::Domain(SymbolicSet::Base(BaseSet::Real));
    assert!(matches!(run(&call("len", vec![real])), Ok(Data::Unbounded)));
}

#[test]
fn len_of_intersected_domain_counts_members() {
    let listed = SymbolicSet::Enumeration(Box::new(list_from_vec(vec![
        Data::Number(Rational::from_int(1)),
        Data::Number(Rational { num: 3, den: 2 }),
        Data::Number(Rational::from_int(2)),
    ])));
    let d = SymbolicSet::Intersection(Box::new(SymbolicSet::Base(BaseSet::Integer)), Box::new(listed));
    assert_eq!(number(&run(&call("len", vec![Expression::Domain(d)]))), (2, 1));
}

#[test]
fn sum_and_product() {
    assert_eq!(number(&run(&call("sum", vec![set_of(vec![7])]))), (7, 1));
    assert_eq!(number(&run(&call("product", vec![set_of(vec![7])]))), (7, 1));
    assert_eq!(number(&run(&call("sum", vec![set_of(vec![2, 3, 5])]))), (10, 1));
    assert_eq!(number(&run(&call("product", vec![set_of(vec![2, 3, 5])]))), (30, 1));
    assert_eq!(number(&run(&call("sum", vec![set_of(vec![1, 2]), whole(4)]))), (7, 1));
}

#[test]
fn map_squares_in_order() {
    let sq = Function::new(
        "f".to_string(),
        vec!["x".to_string()],
        bin(Expression::Identifier("x".to_string()), BinOp::Pow, whole(2)),
    );
    let fs = vec![sq];
    let e = call("map", vec![set_of(vec![1, 2, 3]), Expression::Identifier("f".to_string())]);
    assert_eq!(numbers(&run_with(&e, &fs)), vec![(1, 1), (4, 1), (9, 1)]);
}

#[test]
fn membership() {
    let real = Expression::Domain(SymbolicSet::Base(BaseSet::Real));
    let e = Expression::Belongs(Box::new(Expression::Number(Rational { num: -7, den: 3 })), Box::new(real));
    assert!(matches!(run(&e), Ok(Data::Bool(true))));
    let e = Expression::Belongs(Box::new(whole(5)), Box::new(set_of(vec![1, 2, 3])));
    assert!(matches!(run(&e), Ok(Data::Bool(false))));
    let e = Expression::Belongs(Box::new(whole(2)), Box::new(set_of(vec![1, 2, 3])));
    assert!(matches!(run(&e), Ok(Data::Bool(true))));
}

#[test]
fn predicate_domain_membership() {
    let even = SymbolicSet::Where(
        "y".to_string(),
        Box::new(bin(
            bin(Expression::Identifier("y".to_string()), BinOp::Mod, whole(2)),
            BinOp::IsEq,
            whole(0),
        )),
        Box::new(SymbolicSet::Base(BaseSet::Integer)),
    );
    let e = Expression::Belongs(Box::new(whole(4)), Box::new(Expression::Domain(even)));
    assert!(matches!(run(&e), Ok(Data::Bool(true))));
}

#[test]
fn integer_domain_refuses_fraction() {
    let mut g = Function::new("g".to_string(), vec!["x".to_string()], Expression::Identifier("x".to_string()));
    g.domain = SymbolicSet::Base(BaseSet::Integer);
    let fs = vec![g];
    let e = call("g", vec![Expression::Number(Rational { num: 5, den: 2 })]);
    assert!(matches!(run_with(&e, &fs), Err(EvalError::DomainError)));
    let e = call("g", vec![whole(4)]);
    assert_eq!(number(&run_with(&e, &fs)), (4, 1));
}

#[test]
fn arity_mismatch() {
    let g = Function::new("g".to_string(), vec!["x".to_string()], whole(0));
    let fs = vec![g];
    let e = call("g", vec![whole(1), whole(2)]);
    assert!(matches!(run_with(&e, &fs), Err(EvalError::ArityError)));
}

#[test]
fn failures() {
    assert!(matches!(run(&bin(whole(1), BinOp::Div, whole(0))), Err(EvalError::ArithmeticError)));
    assert!(matches!(run(&bin(whole(1), BinOp::Mod, whole(0))), Err(EvalError::ArithmeticError)));
    assert!(matches!(run(&Expression::Identifier("q".to_string())), Err(EvalError::UndefinedNameError)));
    assert!(matches!(run(&call("nothing", vec![])), Err(EvalError::UndefinedNameError)));
    let e = bin(set_of(vec![1]), BinOp::Add, whole(1));
    assert!(matches!(run(&e), Err(EvalError::TypeError)));
}

#[test]
fn arithmetic_and_comparison() {
    assert_eq!(number(&run(&bin(whole(7), BinOp::Mod, whole(3)))), (1, 1));
    assert_eq!(number(&run(&bin(whole(2), BinOp::Pow, whole(10)))), (1024, 1));
    let r = number(&run(&bin(whole(1), BinOp::Div, whole(4))));
    assert_eq!(r.0 * 4, r.1);
    assert!(matches!(run(&bin(whole(2), BinOp::Lt, whole(3))), Ok(Data::Bool(true))));
    assert!(matches!(run(&bin(Expression::Bool(true), BinOp::IsEq, whole(1))), Ok(Data::Bool(true))));
    assert!(matches!(run(&bin(set_of(vec![1, 2]), BinOp::IsEq, set_of(vec![1, 2]))), Ok(Data::Bool(true))));
}

#[test]
fn rounding_builtins() {
    let half = |n: i64| Expression::Number(Rational { num: n, den: 2 });
    assert_eq!(number(&run(&call("round", vec![half(5)]))), (3, 1));
    assert_eq!(number(&run(&call("round", vec![half(-5)]))), (-3, 1));
    assert_eq!(number(&run(&call("floor", vec![half(-5)]))), (-3, 1));
    assert_eq!(number(&run(&call("ceil", vec![half(-5)]))), (-2, 1));
    assert_eq!(number(&run(&call("ceil", vec![half(5)]))), (3, 1));
}

#[test]
fn derivative_of_square() {
    let sq = Function::new(
        "f".to_string(),
        vec!["x".to_string()],
        bin(Expression::Identifier("x".to_string()), BinOp::Mul, Expression::Identifier("x".to_string())),
    );
    let fs = vec![sq];
    let e = Expression::Differentiate(Box::new(Expression::Identifier("f".to_string())), Box::new(whole(3)));
    let (n, d) = number(&run_with(&e, &fs));
    assert_eq!(n, 6 * d);
}
