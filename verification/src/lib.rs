//! A verified Reverse-Polish-Notation calculator engine.
//!
//! The engine owns a stack of 64-bit encoded numeric values and an
//! extensible registry that maps operator symbols to operator
//! descriptions.  Evaluating a line of text splits it into
//! whitespace-separated tokens and processes them in order: a token
//! bound in the registry invokes its operator, any other token is
//! handed to the numeric back end to be parsed and pushed.  Processing
//! stops at the first failing token; everything applied before the
//! failure stays on the stack.
//!
//! The engine never interprets the encoded values itself: parsing
//! literals and computing operator results belong to a caller-supplied
//! [`numerics::Numerics`] back end, so the numeric domain (typically
//! IEEE 754 doubles, encoded through their bit patterns) stays outside
//! the verified core.

pub mod engine;
pub mod errors;
pub mod integers;
pub mod laws;
pub mod numerics;
pub mod registry;
pub mod tokens;

pub use engine::RpnCalculator;
pub use errors::RpnCalculatorError;
pub use numerics::Numerics;
pub use registry::default_operators;
pub use registry::Operator;
pub use registry::OperatorsMap;
