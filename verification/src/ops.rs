//! The five arithmetic operations, their numeric codes, the bit-level model
//! of an operand, and the evaluator's division-by-zero guard.

use vstd::prelude::*;

verus! {

/// One of the five supported arithmetic operations.
#[derive(Clone, Copy, Debug, PartialEq, Eq, Structural)]
pub enum Operation {
    Add,
    Subtract,
    Multiply,
    Divide,
    Exponentiation,
}

/// The operation selected by a menu code, if any: codes 1 through 5 select
/// the five operations in menu order; every other code selects nothing.
pub open spec fn op_of(n: nat) -> Option<Operation> {
    if n == 1 {
        Some(Operation::Add)
    } else if n == 2 {
        Some(Operation::Subtract)
    } else if n == 3 {
        Some(Operation::Multiply)
    } else if n == 4 {
        Some(Operation::Divide)
    } else if n == 5 {
        Some(Operation::Exponentiation)
    } else {
        None
    }
}

/// The menu code of an operation: the inverse of `op_of` on codes 1 through 5.
pub open spec fn code_of(op: Operation) -> nat {
    match op {
        Operation::Add => 1,
        Operation::Subtract => 2,
        Operation::Multiply => 3,
        Operation::Divide => 4,
        Operation::Exponentiation => 5,
    }
}

/// Selecting a code in 1..=5 yields exactly the operation whose own code it
/// is, and every code outside that range yields no operation.
pub proof fn lemma_op_codes(n: nat)
    ensures
        op_of(n) is Some <==> 1 <= n <= 5,
        op_of(n) matches Some(op) ==> code_of(op) == n,
        op_of(n) matches Some(op) ==> op_of(code_of(op)) == Some(op),
{
}

impl Operation {
    /// The operation selected by a menu code, or `None` when the code is
    /// outside 1..=5.
    pub fn from_u8(n: u8) -> (r: Option<Operation>)
        ensures
            r == op_of(n as nat),
            r is Some <==> 1 <= n <= 5,
    {
        match n {
            1 => Some(Operation::Add),
            2 => Some(Operation::Subtract),
            3 => Some(Operation::Multiply),
            4 => Some(Operation::Divide),
            5 => Some(Operation::Exponentiation),
            _ => None,
        }
    }
}

/// An operand: the bit pattern of an IEEE 754 binary64 value. The core never
/// computes with the value; it only needs to recognise a zero divisor, which
/// the bit pattern determines.
#[derive(Clone, Copy, Debug, PartialEq, Eq, Structural)]
pub struct FloatBits {
    pub bits: u64,
}

impl FloatBits {
    /// The two IEEE 754 binary64 encodings of zero: all bits clear (+0.0) or
    /// the sign bit alone (-0.0). These are exactly the values that compare
    /// equal to zero under float equality.
    pub open spec fn spec_is_zero(self) -> bool {
        self.bits == 0 || self.bits == 0x8000_0000_0000_0000u64
    }

    /// Whether the operand encodes a zero.
    pub fn is_zero(&self) -> (r: bool)
        ensures
            r == self.spec_is_zero(),
    {
        self.bits == 0 || self.bits == 0x8000_0000_0000_0000u64
    }
}

/// The one domain error the evaluator can raise.
#[derive(Clone, Copy, Debug, PartialEq, Eq, Structural)]
pub enum EvalError {
    DivisionByZero,
}

/// An arithmetic step that passed the evaluator's checks and is ready to be
/// carried out on the operands' floating-point values.
#[derive(Clone, Copy, Debug, PartialEq, Eq, Structural)]
pub struct Computation {
    pub op: Operation,
    pub a: FloatBits,
    pub b: FloatBits,
}

impl Operation {
    /// The evaluator's guard: division is the only partial operation, and it
    /// fails exactly when the divisor is zero. Every other request is handed
    /// back unchanged, ready to be computed.
    pub fn calculate(&self, a: FloatBits, b: FloatBits) -> (r: Result<Computation, EvalError>)
        ensures
            r is Ok <==> !(*self is Divide && b.spec_is_zero()),
            r matches Ok(c) ==> c == (Computation { op: *self, a, b }),
            r is Err ==> r->Err_0 is DivisionByZero,
    {
        let dividing = match self {
            Operation::Divide => true,
            _ => false,
        };
        if dividing && b.is_zero() {
            Err(EvalError::DivisionByZero)
        } else {
            Ok(Computation { op: *self, a, b })
        }
    }
}

} // verus!
