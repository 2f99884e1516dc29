use vstd::prelude::*;
use vstd::std_specs::ops::{AddSpec, DivSpec, MulSpec, SubSpec};

use crate::point::{lemma_i32_div_truncates, trunc_div, Point};

verus! {

/// Dividing two `u64` values with a non-zero divisor is always allowed, and
/// the quotient that `Calculator::div` promises is the machine's integer
/// quotient, rounded down.
pub proof fn unsigned_division_is_native(a: u64, b: u64)
    requires
        b != 0,
    ensures
        a.div_req(b),
        <u64 as DivSpec>::obeys_div_spec(),
        a.div_spec(b) == a / b,
{
}

/// On `u64`, adding or subtracting zero and multiplying or dividing by one
/// are always allowed and give the operand back.
pub proof fn u64_identities(a: u64)
    ensures
        a.add_req(0u64) && a.add_spec(0u64) == a,
        a.sub_req(0u64) && a.sub_spec(0u64) == a,
        a.mul_req(1u64) && a.mul_spec(1u64) == a,
        a.div_req(1u64) && a.div_spec(1u64) == a,
{
}

/// On `i64`, adding or subtracting zero and multiplying or dividing by one
/// are always allowed and give the operand back.
pub proof fn i64_identities(a: i64)
    ensures
        a.add_req(0i64) && a.add_spec(0i64) == a,
        a.sub_req(0i64) && a.sub_spec(0i64) == a,
        a.mul_req(1i64) && a.mul_spec(1i64) == a,
        a.div_req(1i64) && a.div_spec(1i64) == a,
{
}

/// On `Point`, adding or subtracting the origin and multiplying or dividing
/// by the point `(1, 1)` are always allowed and give the operand back.
pub proof fn point_identities(p: Point)
    ensures
        p.add_req(Point { x: 0, y: 0 }) && p.add_spec(Point { x: 0, y: 0 }) == p,
        p.sub_req(Point { x: 0, y: 0 }) && p.sub_spec(Point { x: 0, y: 0 }) == p,
        p.mul_req(Point { x: 1, y: 1 }) && p.mul_spec(Point { x: 1, y: 1 }) == p,
        p.div_req(Point { x: 1, y: 1 }) && p.div_spec(Point { x: 1, y: 1 }) == p,
{
    assert(trunc_div(p.x as int, 1) == p.x);
    assert(trunc_div(p.y as int, 1) == p.y);
    let one = Point { x: 1, y: 1 };
    assert(p.div_spec(one).x == p.x);
    assert(p.div_spec(one).y == p.y);
}

/// Each operation on points is allowed exactly when the same operation is
/// allowed on both coordinates, and then gives the point of the two
/// coordinate results.
pub proof fn point_operations_are_componentwise(p: Point, q: Point)
    ensures
        p.add_req(q) <==> p.x.add_req(q.x) && p.y.add_req(q.y),
        p.add_spec(q) == (Point { x: p.x.add_spec(q.x), y: p.y.add_spec(q.y) }),
        p.sub_req(q) <==> p.x.sub_req(q.x) && p.y.sub_req(q.y),
        p.sub_spec(q) == (Point { x: p.x.sub_spec(q.x), y: p.y.sub_spec(q.y) }),
        p.mul_req(q) <==> p.x.mul_req(q.x) && p.y.mul_req(q.y),
        p.mul_spec(q) == (Point { x: p.x.mul_spec(q.x), y: p.y.mul_spec(q.y) }),
        p.div_req(q) <==> p.x.div_req(q.x) && p.y.div_req(q.y),
        p.div_req(q) ==> p.div_spec(q) == (Point {
            x: p.x.div_spec(q.x),
            y: p.y.div_spec(q.y),
        }),
{
    if q.x != 0 {
        lemma_i32_div_truncates(p.x, q.x);
    }
    if q.y != 0 {
        lemma_i32_div_truncates(p.y, q.y);
    }
}

} // verus!
