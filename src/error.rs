use vstd::prelude::*;

verus! {

/// Why an operation on a quantity failed.
#[derive(Clone, Copy, Debug, PartialEq, Eq, Structural)]
pub enum QuantityError {
    /// The result does not fit the canonical storage of the quantity.
    Overflow,
    /// A scalar division by zero.
    DivideByZero,
    /// A floating-point operand was infinite.
    InfiniteOperand,
    /// A floating-point operand was NaN.
    NanOperand,
    /// A negative operand was given to a quantity that cannot be negative.
    NegativeOperand,
    /// Voltage divided by a zero resistance: the current would be infinite.
    ZeroResistance,
    /// Voltage divided by a zero current: the resistance would be infinite.
    ZeroCurrent,
}

} // verus!
