use vstd::prelude::*;
use vstd::std_specs::ops::{AddSpec, DivSpec, MulSpec, SubSpec};

verus! {

/// The four binary operations `+`, `-`, `*` and `/`, each over any operand
/// type that provides the matching operator.
///
/// Every operation takes two operands of one type and gives a value of that
/// same type. Its precondition is the operator's own (no overflow for a
/// machine integer, a non-zero divisor for an integer division), and where the
/// operand type states what its operator computes, the result is exactly that.
pub trait Operator {
    /// Performs `a + b`.
    fn add<T: core::ops::Add<Output = T>>(a: T, b: T) -> (r: T)
        requires
            a.add_req(b),
        ensures
            T::obeys_add_spec() ==> r == a.add_spec(b),
    ;

    /// Performs `a - b`.
    fn sub<T: core::ops::Sub<Output = T>>(a: T, b: T) -> (r: T)
        requires
            a.sub_req(b),
        ensures
            T::obeys_sub_spec() ==> r == a.sub_spec(b),
    ;

    /// Performs `a * b`.
    fn mul<T: core::ops::Mul<Output = T>>(a: T, b: T) -> (r: T)
        requires
            a.mul_req(b),
        ensures
            T::obeys_mul_spec() ==> r == a.mul_spec(b),
    ;

    /// Performs `a / b`.
    ///
    /// For a machine integer the precondition asks for a non-zero divisor
    /// (and, for a signed type, a quotient that fits): those are the inputs on
    /// which the native operator panics with "attempt to divide by zero" or
    /// overflows.
    fn div<T: core::ops::Div<Output = T>>(a: T, b: T) -> (r: T)
        requires
            a.div_req(b),
        ensures
            T::obeys_div_spec() ==> r == a.div_spec(b),
    ;
}

/// The stateless implementation of [`Operator`]: each operation applies the
/// operand type's own operator once.
pub struct Calculator {}

impl Operator for Calculator {
    fn add<T: core::ops::Add<Output = T>>(a: T, b: T) -> (r: T)
        ensures
            T::obeys_add_spec() ==> r == a.add_spec(b),
    {
        a + b
    }

    fn sub<T: core::ops::Sub<Output = T>>(a: T, b: T) -> (r: T)
        ensures
            T::obeys_sub_spec() ==> r == a.sub_spec(b),
    {
        a - b
    }

    fn mul<T: core::ops::Mul<Output = T>>(a: T, b: T) -> (r: T)
        ensures
            T::obeys_mul_spec() ==> r == a.mul_spec(b),
    {
        a * b
    }

    fn div<T: core::ops::Div<Output = T>>(a: T, b: T) -> (r: T)
        ensures
            T::obeys_div_spec() ==> r == a.div_spec(b),
    {
        a / b
    }
}

} // verus!
