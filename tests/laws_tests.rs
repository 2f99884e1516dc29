use calculator::{Calculator, Operator, Point};

#[test]
fn unsigned_division_rounds_down() {
    assert_eq!(Calculator::div(19u64, 15u64), 1);
    assert_eq!(Calculator::div(14u64, 15u64), 0);
    assert_eq!(Calculator::div(u64::MAX, 2u64), u64::MAX / 2);
    assert_eq!(Calculator::div(u64::MAX, u64::MAX), 1);
}

#[test]
fn signed_operations_on_sample_values() {
    assert_eq!(Calculator::add(20i64, 5i64), 25);
    assert_eq!(Calculator::sub(20i64, 5i64), 15);
    assert_eq!(Calculator::mul(20i64, 5i64), 100);
    assert_eq!(Calculator::div(20i64, 5i64), 4);
    assert_eq!(Calculator::sub(5i64, 20i64), -15);
    assert_eq!(Calculator::div(-7i64, 2i64), -3);
}

#[test]
fn float_division_by_zero_returns_a_value() {
    let q = Calculator::div(1.0f64, 0.0f64);
    assert!(q.is_infinite() && q > 0.0);
    let q = Calculator::div(-1.0f64, 0.0f64);
    assert!(q.is_infinite() && q < 0.0);
    let q = Calculator::div(0.0f64, 0.0f64);
    assert!(q.is_nan());
}

#[test]
fn integer_identities_hold() {
    for a in [0u64, 1, 19, u64::MAX] {
        assert_eq!(Calculator::add(a, 0), a);
        assert_eq!(Calculator::sub(a, 0), a);
        assert_eq!(Calculator::mul(a, 1), a);
        assert_eq!(Calculator::div(a, 1), a);
    }
    for a in [i64::MIN, -20, 0, 20, i64::MAX] {
        assert_eq!(Calculator::add(a, 0), a);
        assert_eq!(Calculator::sub(a, 0), a);
        assert_eq!(Calculator::mul(a, 1), a);
        assert_eq!(Calculator::div(a, 1), a);
    }
}

#[test]
fn float_identities_hold() {
    let a: f64 = 18.5;
    assert_eq!(Calculator::add(a, 0.0), a);
    assert_eq!(Calculator::sub(a, 0.0), a);
    assert_eq!(Calculator::mul(a, 1.0), a);
    assert_eq!(Calculator::div(a, 1.0), a);
}

#[test]
fn point_identities_hold() {
    let zero = || Point { x: 0, y: 0 };
    let one = || Point { x: 1, y: 1 };
    let p = || Point { x: i32::MIN, y: -56 };
    assert_eq!(Calculator::add(p(), zero()), p());
    assert_eq!(Calculator::sub(p(), zero()), p());
    assert_eq!(Calculator::mul(p(), one()), p());
    assert_eq!(Calculator::div(p(), one()), p());
}

#[test]
fn point_operations_act_on_each_coordinate() {
    let p = || Point { x: -48, y: 56 };
    let q = || Point { x: 7, y: -8 };
    assert_eq!(Calculator::add(p(), q()), Point { x: -41, y: 48 });
    assert_eq!(Calculator::sub(p(), q()), Point { x: -55, y: 64 });
    assert_eq!(Calculator::mul(p(), q()), Point { x: -336, y: -448 });
    assert_eq!(Calculator::div(p(), q()), Point { x: -6, y: -7 });
}

#[test]
fn point_division_truncates_toward_zero() {
    let p = Point { x: -7, y: 7 };
    let q = Point { x: 2, y: -2 };
    assert_eq!(Calculator::div(p, q), Point { x: -3, y: -3 });
    let p = Point { x: i32::MIN, y: 9 };
    let q = Point { x: 2, y: 4 };
    assert_eq!(Calculator::div(p, q), Point { x: i32::MIN / 2, y: 2 });
}
