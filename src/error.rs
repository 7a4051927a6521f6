use vstd::prelude::*;

verus! {

/// The ways an evaluation can fail. Every failure ends the evaluation.
#[derive(Clone, Copy, Debug, PartialEq, Eq, Structural)]
pub enum EvalError {
    /// A coercion was applied to a value of an incompatible kind.
    TypeError,
    /// Division or remainder by zero, or a result that does not fit the number format.
    ArithmeticError,
    /// A name that is bound neither as a variable, nor as a function, nor as a built-in.
    UndefinedNameError,
    /// A function was called with the wrong number of arguments.
    ArityError,
    /// An argument lies outside the domain of the function it was passed to.
    DomainError,
    /// A position outside a set.
    IndexError,
    /// Text that does not read as a number.
    InputError,
    /// The evaluation nested deeper than the depth it was allowed.
    DepthError,
}

} // verus!
