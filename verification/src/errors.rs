use vstd::prelude::*;

verus! {

/// Every failure the calculator reports.
///
/// `evaluate` stops at the first token that fails and returns one of
/// these to its caller; an empty stack is reported by `top` through
/// `Option` rather than through this type.
#[derive(Clone, Copy, Debug, PartialEq, Eq, Structural)]
pub enum RpnCalculatorError {
    /// A token is neither a registered operator symbol nor a numeric
    /// literal the numeric back end accepts.
    ParsingError,
    /// A fixed-arity operator found fewer operands on the stack than
    /// it consumes.
    NotEnoughOperands,
    /// A registered operator asks the embedding input loop to stop;
    /// by convention this is not reported as an error.
    Quit,
    /// An input/output failure outside the engine, kept here so the
    /// embedding caller can route it through the same result type.
    IOError,
}

} // verus!
