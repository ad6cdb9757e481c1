use crate::errors::RpnCalculatorError;
use crate::numerics::Numerics;
use crate::registry::{OP_ADD, OP_DIV, OP_MUL, OP_SUB};
use vstd::prelude::*;

verus! {

/// Raw behavior code `IntegerNumerics` understands: duplicate the
/// top value, or fail with `NotEnoughOperands` on an empty stack.
pub const INT_DUPLICATE: u64 = 64;

/// Raw behavior code `IntegerNumerics` understands: leave the stack
/// alone and report `Quit`.
pub const INT_QUIT: u64 = 65;

/// Whether `c` is one of the ten decimal digits.
pub open spec fn is_ascii_digit(c: char) -> bool {
    '0' <= c && c <= '9'
}

/// The number the digit string `s` denotes in base ten; 0 when `s`
/// is empty.
pub open spec fn decimal_value(s: Seq<char>) -> int
    decreases s.len(),
{
    if s.len() == 0 {
        0
    } else {
        decimal_value(s.drop_last()) * 10 + (s.last() as int - '0' as int)
    }
}

/// The operand `args` holds at `i`, or 0 past the end: the back end
/// is total, whatever argument list it is handed.
pub open spec fn operand_or_zero(args: Seq<u64>, i: int) -> u64 {
    if 0 <= i < args.len() {
        args[i]
    } else {
        0
    }
}

proof fn lemma_decimal_value_bounds(s: Seq<char>)
    requires
        forall|j: int| 0 <= j < s.len() ==> is_ascii_digit(s[j]),
    ensures
        decimal_value(s) >= 0,
    decreases s.len(),
{
    if s.len() > 0 {
        assert(forall|j: int| 0 <= j < s.drop_last().len() ==> is_ascii_digit(s.drop_last()[j]));
        lemma_decimal_value_bounds(s.drop_last());
    }
}

/// A longer digit string never denotes a smaller number: appending
/// digits multiplies the prefix's value by ten before adding.
proof fn lemma_decimal_value_monotonic(s: Seq<char>, i: int)
    requires
        0 <= i <= s.len(),
        forall|j: int| 0 <= j < s.len() ==> is_ascii_digit(s[j]),
    ensures
        decimal_value(s) >= decimal_value(s.take(i)),
    decreases s.len() - i,
{
    if i < s.len() {
        let longer = s.take(i + 1);
        assert(longer.drop_last() =~= s.take(i));
        assert(forall|j: int| 0 <= j < s.take(i).len() ==> is_ascii_digit(s.take(i)[j]));
        lemma_decimal_value_bounds(s.take(i));
        assert(decimal_value(longer) >= decimal_value(s.take(i)));
        lemma_decimal_value_monotonic(s, i + 1);
    } else {
        assert(s.take(i) =~= s);
    }
}

/// A numeric back end over exact unsigned 64-bit integers: literals
/// are strings of decimal digits, the default behavior codes compute
/// wrapping addition, subtraction and multiplication and truncating
/// division (division by zero gives 0), and two raw codes duplicate
/// the top value and request a quit.  It shows the `Numerics` trait
/// implemented and verified inside the library; back ends over other
/// encodings, such as IEEE 754 bit patterns, live with the embedding
/// caller.
pub struct IntegerNumerics;

impl Numerics for IntegerNumerics {
    open spec fn spec_parse(&self, token: Seq<char>) -> Option<u64> {
        if token.len() > 0 && (forall|j: int| 0 <= j < token.len() ==> is_ascii_digit(token[j]))
            && decimal_value(token) <= u64::MAX {
            Some(decimal_value(token) as u64)
        } else {
            None
        }
    }

    open spec fn spec_apply(&self, code: u64, args: Seq<u64>) -> u64 {
        let a = operand_or_zero(args, 0);
        let b = operand_or_zero(args, 1);
        if code == OP_ADD {
            a.wrapping_add(b)
        } else if code == OP_SUB {
            a.wrapping_sub(b)
        } else if code == OP_MUL {
            a.wrapping_mul(b)
        } else if code == OP_DIV {
            if b == 0 {
                0
            } else {
                a / b
            }
        } else {
            0
        }
    }

    open spec fn spec_apply_raw(&self, code: u64, stack: Seq<u64>) -> (Seq<u64>, Option<
        RpnCalculatorError,
    >) {
        if code == INT_DUPLICATE {
            if stack.len() > 0 {
                (stack.push(stack.last()), None)
            } else {
                (stack, Some(RpnCalculatorError::NotEnoughOperands))
            }
        } else if code == INT_QUIT {
            (stack, Some(RpnCalculatorError::Quit))
        } else {
            (stack, None)
        }
    }

    fn parse(&self, token: &str) -> (r: Option<u64>) {
        let n: usize = token.unicode_len();
        if n == 0 {
            return None;
        }
        let mut acc: u64 = 0;
        let mut i: usize = 0;
        while i < n
            invariant
                n == token@.len(),
                i <= n,
                forall|j: int| 0 <= j < i ==> is_ascii_digit(token@[j]),
                acc == decimal_value(token@.take(i as int)),
            decreases n - i,
        {
            let c = token.get_char(i);
            if !(c >= '0' && c <= '9') {
                return None;
            }
            let d: u64 = c as u64 - 48;
            proof {
                assert(token@.take(i as int + 1).drop_last() =~= token@.take(i as int));
                assert(token@.take(i as int + 1).last() == token@[i as int]);
            }
            if acc > (u64::MAX - d) / 10 {
                proof {
                    if forall|j: int| 0 <= j < token@.len() ==> is_ascii_digit(token@[j]) {
                        lemma_decimal_value_monotonic(token@, i as int + 1);
                        assert(decimal_value(token@.take(i as int + 1)) == acc * 10 + d);
                        assert(acc * 10 + d > u64::MAX);
                    }
                }
                return None;
            }
            acc = acc * 10 + d;
            i = i + 1;
        }
        proof {
            assert(token@.take(n as int) =~= token@);
        }
        Some(acc)
    }

    fn apply(&self, code: u64, args: &Vec<u64>) -> (r: u64) {
        let a = if args.len() > 0 {
            args[0]
        } else {
            0
        };
        let b = if args.len() > 1 {
            args[1]
        } else {
            0
        };
        if code == OP_ADD {
            a.wrapping_add(b)
        } else if code == OP_SUB {
            a.wrapping_sub(b)
        } else if code == OP_MUL {
            a.wrapping_mul(b)
        } else if code == OP_DIV {
            if b == 0 {
                0
            } else {
                a / b
            }
        } else {
            0
        }
    }

    fn apply_raw(&self, code: u64, stack: &Vec<u64>) -> (r: (Vec<u64>, Option<
        RpnCalculatorError,
    >)) {
        let mut kept: Vec<u64> = Vec::new();
        let mut i: usize = 0;
        while i < stack.len()
            invariant
                i <= stack@.len(),
                kept@ == stack@.take(i as int),
            decreases stack@.len() - i,
        {
            kept.push(stack[i]);
            proof {
                assert(stack@.take(i as int + 1) =~= stack@.take(i as int).push(stack@[i as int]));
            }
            i = i + 1;
        }
        proof {
            assert(stack@.take(stack@.len() as int) =~= stack@);
        }
        if code == INT_DUPLICATE {
            if kept.len() > 0 {
                let top: u64 = kept[kept.len() - 1];
                kept.push(top);
                (kept, None)
            } else {
                (kept, Some(RpnCalculatorError::NotEnoughOperands))
            }
        } else if code == INT_QUIT {
            (kept, Some(RpnCalculatorError::Quit))
        } else {
            (kept, None)
        }
    }
}

} // verus!
