use crate::errors::RpnCalculatorError;
use vstd::prelude::*;

verus! {

/// The characters of a token, as a back end's `spec_parse` receives
/// them.  Implementors outside the library can name the type through
/// this alias when they stub the specification items.
pub type TokenChars = Seq<char>;

/// A mathematical view of the stack's values, deepest first.
pub type ValueSeq = Seq<u64>;

/// What a raw operator leaves behind: the stack to keep and the
/// failure it reports, if any.
pub type RawEffect = (Seq<u64>, Option<RpnCalculatorError>);

/// The numeric back end of a calculator.
///
/// The engine keeps its stack as 64-bit encoded values and never
/// interprets them: what a literal token denotes and what an operator
/// computes are this trait's business.  The intended back end encodes
/// IEEE 754 double-precision numbers through their bit patterns,
/// parses literals with the standard float parser, and computes the
/// default behavior codes (`OP_ADD` through `OP_DIV`) as IEEE
/// addition, subtraction, multiplication and division of the decoded
/// operands, in argument order.  Floating-point arithmetic stays
/// outside the verified engine by design; any back end that keeps
/// each executable method equal to its specification function fits.
///
/// A back end must be a pure function of its inputs: the same token
/// or the same operands always give the same answer, which is what
/// the paired specification functions express.
pub trait Numerics: Sized {
    /// The value `token` encodes as a numeric literal, if any.
    spec fn spec_parse(&self, token: TokenChars) -> Option<u64>;

    /// The value a fixed-arity operator with behavior `code` computes
    /// from `args` (deepest operand first, top of stack last).
    spec fn spec_apply(&self, code: u64, args: ValueSeq) -> u64;

    /// The stack a raw operator with behavior `code` leaves behind,
    /// and the failure it reports, if any.
    spec fn spec_apply_raw(&self, code: u64, stack: ValueSeq) -> RawEffect;

    /// Parses `token` as a numeric literal; `None` rejects the token.
    fn parse(&self, token: &str) -> (r: Option<u64>)
        ensures
            r == self.spec_parse(token@),
    ;

    /// Computes the one result a fixed-arity operator pushes.
    fn apply(&self, code: u64, args: &Vec<u64>) -> (r: u64)
        ensures
            r == self.spec_apply(code, args@),
    ;

    /// Runs a raw operator against the whole stack; returns the stack
    /// to keep and the failure to report, if any.  Whatever stack it
    /// returns is final, failure or not.
    fn apply_raw(&self, code: u64, stack: &Vec<u64>) -> (r: (Vec<u64>, Option<RpnCalculatorError>))
        ensures
            r.0@ == self.spec_apply_raw(code, stack@).0,
            r.1 == self.spec_apply_raw(code, stack@).1,
    ;
}

} // verus!
