//! An interactive-calculator core: operation selection, operand-line
//! validation, the division-by-zero guard, and the session state machine,
//! all verified. Reading lines, printing messages and the floating-point
//! arithmetic itself are left to an unverified driver.

pub mod ops;
pub mod session;
pub mod text;
