//! The evaluator: the division-by-zero guard and the floating-point
//! semantics of the five operations.

use calculator::ops::Computation;
use calculator::ops::EvalError;
use calculator::ops::FloatBits;
use calculator::ops::Operation;

fn fb(x: f64) -> FloatBits {
    FloatBits { bits: x.to_bits() }
}

fn compute(c: Computation) -> f64 {
    let a = f64::from_bits(c.a.bits);
    let b = f64::from_bits(c.b.bits);
    match c.op {
        Operation::Add => a + b,
        Operation::Subtract => a - b,
        Operation::Multiply => a * b,
        Operation::Divide => a / b,
        Operation::Exponentiation => a.powf(b),
    }
}

fn eval(op: Operation, a: f64, b: f64) -> Result<f64, EvalError> {
    op.calculate(fb(a), fb(b)).map(compute)
}

#[test]
fn division_by_zero_always_fails() {
    for a in [0.0, 1.0, -5.5, 1e300, f64::INFINITY, f64::NAN] {
        assert_eq!(eval(Operation::Divide, a, 0.0), Err(EvalError::DivisionByZero));
        assert_eq!(eval(Operation::Divide, a, -0.0), Err(EvalError::DivisionByZero));
    }
}

#[test]
fn division_by_nonzero_is_exact_float_division() {
    let pairs = [(1.0, 3.0), (10.0, 4.0), (-7.5, 0.3), (5.0, 1e-300), (0.0, 2.0)];
    for (a, b) in pairs {
        let r = eval(Operation::Divide, a, b).unwrap();
        assert_eq!(r.to_bits(), (a / b).to_bits());
    }
    // Division by a tiny nonzero divisor succeeds and may overflow to
    // infinity, per standard float semantics.
    assert_eq!(eval(Operation::Divide, 1e300, 1e-300).unwrap(), f64::INFINITY);
}

#[test]
fn only_division_can_fail() {
    for op in [
        Operation::Add,
        Operation::Subtract,
        Operation::Multiply,
        Operation::Exponentiation,
    ] {
        assert!(eval(op, 1.0, 0.0).is_ok());
        assert!(eval(op, 0.0, 0.0).is_ok());
    }
}

#[test]
fn addition_is_commutative() {
    let pairs = [(1.0, 2.0), (0.1, 0.2), (-3.5, 7.25), (1e300, -2e299)];
    for (a, b) in pairs {
        assert_eq!(eval(Operation::Add, a, b), eval(Operation::Add, b, a));
    }
    assert_eq!(eval(Operation::Add, 2.0, 3.0), Ok(5.0));
}

#[test]
fn subtraction_anticommutes() {
    let pairs = [(1.0, 2.0), (0.1, 0.2), (-3.5, 7.25), (4.0, 4.0)];
    for (a, b) in pairs {
        let r1 = eval(Operation::Subtract, a, b).unwrap();
        let r2 = eval(Operation::Subtract, b, a).unwrap();
        assert_eq!(r1, -r2);
    }
    assert_eq!(eval(Operation::Subtract, 2.0, 3.0), Ok(-1.0));
}

#[test]
fn multiplication_is_commutative() {
    let pairs = [(1.5, 2.0), (0.1, 0.3), (-3.0, 7.0)];
    for (a, b) in pairs {
        assert_eq!(eval(Operation::Multiply, a, b), eval(Operation::Multiply, b, a));
    }
    assert_eq!(eval(Operation::Multiply, 2.0, 3.0), Ok(6.0));
}

#[test]
fn exponentiation_matches_the_power_function() {
    assert_eq!(eval(Operation::Exponentiation, 2.0, 10.0), Ok(1024.0));
    assert_eq!(eval(Operation::Exponentiation, 4.0, 0.5), Ok(2.0));
    assert_eq!(eval(Operation::Exponentiation, 2.0, -1.0), Ok(0.5));
    let pairs = [(3.0, 2.5), (-2.0, 3.0), (0.5, -0.5)];
    for (a, b) in pairs {
        let r = eval(Operation::Exponentiation, a, b).unwrap();
        assert_eq!(r.to_bits(), a.powf(b).to_bits());
    }
}

#[test]
fn negative_base_with_fractional_exponent_yields_nan() {
    let r = eval(Operation::Exponentiation, -2.0, 0.5).unwrap();
    assert!(r.is_nan());
}

#[test]
fn any_nonzero_base_to_the_zeroth_power_is_one() {
    for a in [2.0, -3.0, 1e-10, 1e300, f64::INFINITY] {
        assert_eq!(eval(Operation::Exponentiation, a, 0.0), Ok(1.0));
    }
}
