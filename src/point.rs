use vstd::prelude::*;
use vstd::std_specs::ops::DivSpec;

verus! {

/// Whether `v` is a value of `i32`.
pub open spec fn fits_i32(v: int) -> bool {
    i32::MIN <= v <= i32::MAX
}

/// The quotient of `a` by `b` rounded toward zero, as machine division of
/// signed integers computes it.
pub open spec fn trunc_div(a: int, b: int) -> int
    recommends
        b != 0,
{
    let q: int = (if a >= 0 { a } else { -a }) / (if b >= 0 { b } else { -b });
    if (a >= 0) == (b >= 0) {
        q
    } else {
        -q
    }
}

/// Division of `i32` values rounds toward zero, and is defined for a
/// non-zero divisor exactly where that rounded quotient is an `i32`.
pub(crate) proof fn lemma_i32_div_truncates(a: i32, b: i32)
    requires
        b != 0,
    ensures
        a.div_req(b) <==> fits_i32(trunc_div(a as int, b as int)),
        a.div_req(b) ==> a.div_spec(b) == trunc_div(a as int, b as int) as i32,
{
    let na: int = if a >= 0 { a as int } else { -a };
    let nb: int = if b >= 0 { b as int } else { -b };
    assert(0 <= na / nb <= na) by (nonlinear_arith)
        requires
            na >= 0,
            nb >= 1,
    ;
    if nb == 1 {
        assert(na / nb == na) by (nonlinear_arith)
            requires
                nb == 1,
        ;
    }
    if nb >= 2 {
        assert(na / nb <= na / 2) by (nonlinear_arith)
            requires
                na >= 0,
                nb >= 2,
        ;
    }
    if a >= 0 {
        if b < 0 {
            assert(a as int / b as int == -(a as int / (-b) as int)) by (nonlinear_arith)
                requires
                    a >= 0,
                    b < 0,
            ;
        }
    } else {
        if b < 0 {
            assert((-a) as int / b as int == -((-a) as int / (-b) as int)) by (nonlinear_arith)
                requires
                    a < 0,
                    b < 0,
            ;
        }
    }
}

/// A point of the plane with integer coordinates, whose operators act on
/// each coordinate separately: `p + q` is `(p.x + q.x, p.y + q.y)`, and so on
/// for `-`, `*` and `/` (the last one truncating, as `i32` division does).
#[derive(Debug, PartialEq, Eq, Structural)]
pub struct Point {
    pub x: i32,
    pub y: i32,
}

impl core::ops::Add for Point {
    type Output = Self;

    fn add(self, rhs: Self) -> (r: Self)
        ensures
            r == (Point { x: (self.x + rhs.x) as i32, y: (self.y + rhs.y) as i32 }),
    {
        Point { x: self.x + rhs.x, y: self.y + rhs.y }
    }
}

impl vstd::std_specs::ops::AddSpecImpl for Point {
    open spec fn obeys_add_spec() -> bool {
        true
    }

    open spec fn add_req(self, rhs: Self) -> bool {
        fits_i32(self.x + rhs.x) && fits_i32(self.y + rhs.y)
    }

    open spec fn add_spec(self, rhs: Self) -> Self {
        Point { x: (self.x + rhs.x) as i32, y: (self.y + rhs.y) as i32 }
    }
}

impl core::ops::Sub for Point {
    type Output = Self;

    fn sub(self, rhs: Self) -> (r: Self)
        ensures
            r == (Point { x: (self.x - rhs.x) as i32, y: (self.y - rhs.y) as i32 }),
    {
        Point { x: self.x - rhs.x, y: self.y - rhs.y }
    }
}

impl vstd::std_specs::ops::SubSpecImpl for Point {
    open spec fn obeys_sub_spec() -> bool {
        true
    }

    open spec fn sub_req(self, rhs: Self) -> bool {
        fits_i32(self.x - rhs.x) && fits_i32(self.y - rhs.y)
    }

    open spec fn sub_spec(self, rhs: Self) -> Self {
        Point { x: (self.x - rhs.x) as i32, y: (self.y - rhs.y) as i32 }
    }
}

impl core::ops::Mul for Point {
    type Output = Self;

    fn mul(self, rhs: Self) -> (r: Self)
        ensures
            r == (Point { x: (self.x * rhs.x) as i32, y: (self.y * rhs.y) as i32 }),
    {
        Point { x: self.x * rhs.x, y: self.y * rhs.y }
    }
}

impl vstd::std_specs::ops::MulSpecImpl for Point {
    open spec fn obeys_mul_spec() -> bool {
        true
    }

    open spec fn mul_req(self, rhs: Self) -> bool {
        fits_i32(self.x * rhs.x) && fits_i32(self.y * rhs.y)
    }

    open spec fn mul_spec(self, rhs: Self) -> Self {
        Point { x: (self.x * rhs.x) as i32, y: (self.y * rhs.y) as i32 }
    }
}

impl core::ops::Div for Point {
    type Output = Self;

    fn div(self, rhs: Self) -> (r: Self)
        ensures
            r == (Point {
                x: trunc_div(self.x as int, rhs.x as int) as i32,
                y: trunc_div(self.y as int, rhs.y as int) as i32,
            }),
    {
        proof {
            lemma_i32_div_truncates(self.x, rhs.x);
            lemma_i32_div_truncates(self.y, rhs.y);
        }
        Point { x: self.x / rhs.x, y: self.y / rhs.y }
    }
}

impl vstd::std_specs::ops::DivSpecImpl for Point {
    open spec fn obeys_div_spec() -> bool {
        true
    }

    open spec fn div_req(self, rhs: Self) -> bool {
        rhs.x != 0 && rhs.y != 0 && fits_i32(trunc_div(self.x as int, rhs.x as int)) && fits_i32(
            trunc_div(self.y as int, rhs.y as int),
        )
    }

    open spec fn div_spec(self, rhs: Self) -> Self {
        Point {
            x: trunc_div(self.x as int, rhs.x as int) as i32,
            y: trunc_div(self.y as int, rhs.y as int) as i32,
        }
    }
}

} // verus!
