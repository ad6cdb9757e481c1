use rpncalc::numerics::{RawEffect, TokenChars, ValueSeq};
use rpncalc::registry::{OP_ADD, OP_DIV, OP_MUL, OP_SUB};
use rpncalc::{
    default_operators, Numerics, Operator, OperatorsMap, RpnCalculator, RpnCalculatorError,
};

/// Behavior code for a test operator that always computes 0.0.
const CODE_ZERO: u64 = 100;
/// Behavior code for a test operator of arity zero that pushes 10.0.
const CODE_TEN: u64 = 101;
/// Behavior code for a raw test operator that pops the top value.
const CODE_DROP: u64 = 102;
/// Behavior code for a raw test operator that reports `Quit`.
const CODE_QUIT: u64 = 103;
/// Behavior code for a raw test operator that pushes 7.0, then fails.
const CODE_PUSH_THEN_FAIL: u64 = 104;

/// The intended numeric back end: IEEE 754 doubles carried through
/// their bit patterns.
struct F64Numerics;

impl Numerics for F64Numerics {
    // The three specification items carry no run-time behavior; they
    // are never called, so stubs satisfy the trait here.
    fn spec_parse(&self, _token: TokenChars) -> Option<u64> {
        panic!("specification item; never called at run time")
    }

    fn spec_apply(&self, _code: u64, _args: ValueSeq) -> u64 {
        panic!("specification item; never called at run time")
    }

    fn spec_apply_raw(&self, _code: u64, _stack: ValueSeq) -> RawEffect {
        panic!("specification item; never called at run time")
    }

    fn parse(&self, token: &str) -> Option<u64> {
        token.parse::<f64>().ok().map(f64::to_bits)
    }

    fn apply(&self, code: u64, args: &Vec<u64>) -> u64 {
        let operand = |i: usize| f64::from_bits(args[i]);
        let result = match code {
            OP_ADD => operand(0) + operand(1),
            OP_SUB => operand(0) - operand(1),
            OP_MUL => operand(0) * operand(1),
            OP_DIV => operand(0) / operand(1),
            CODE_ZERO => 0.0,
            CODE_TEN => 10.0,
            _ => f64::NAN,
        };
        result.to_bits()
    }

    fn apply_raw(&self, code: u64, stack: &Vec<u64>) -> (Vec<u64>, Option<RpnCalculatorError>) {
        let mut kept = stack.clone();
        match code {
            CODE_DROP => {
                kept.pop();
                (kept, None)
            }
            CODE_QUIT => (kept, Some(RpnCalculatorError::Quit)),
            CODE_PUSH_THEN_FAIL => {
                kept.push(7.0f64.to_bits());
                (kept, Some(RpnCalculatorError::IOError))
            }
            _ => (kept, None),
        }
    }
}

fn make_calculator() -> RpnCalculator<F64Numerics> {
    RpnCalculator::new(F64Numerics)
}

fn make_calculator_with_operators(operators: OperatorsMap) -> RpnCalculator<F64Numerics> {
    RpnCalculator::new_with_operators(F64Numerics, operators)
}

fn top_value(calc: &RpnCalculator<F64Numerics>) -> f64 {
    f64::from_bits(calc.top().expect("Should have a result"))
}

#[test]
fn should_create_a_calculator() {
    let _ = make_calculator();
}

#[test]
fn should_add_f64_to_stack() {
    let mut calc = make_calculator();
    calc.evaluate("2.5").unwrap();
    assert_eq!(2.5, top_value(&calc));
}

#[test]
fn should_return_error_when_evaluating_garbage() {
    let mut calc = make_calculator();
    let result = calc.evaluate("garbage");
    assert!(result.is_err());
}

#[test]
fn should_add_two_f64_to_stack() {
    let mut calc = make_calculator();
    calc.register("X".to_string(), Operator::Fixed { arity: 2, code: CODE_ZERO });
    calc.evaluate("2.5 3.2").unwrap();
    assert_eq!(3.2, top_value(&calc));
    calc.evaluate("X").unwrap();
    assert_eq!(0.0, top_value(&calc));
}

#[test]
fn should_add_two_f64_in_stack() {
    let mut calc = make_calculator();
    calc.evaluate("2.5 3.2 +").unwrap();
    assert_eq!(5.7, top_value(&calc), "Calcultor's top should be result of addition");
}

#[test]
fn should_return_error_when_adding_without_enough_operands() {
    let mut calc = make_calculator();
    let result = calc.evaluate("+");
    assert!(result.is_err(), "Should return error because '+' expects two operands");
    match result {
        Err(RpnCalculatorError::NotEnoughOperands) => (),
        _ => assert!(false, "Should return NotEnoughOperands error"),
    }
}

#[test]
fn should_use_operators_passed_at_construction_time() {
    let mut operators = OperatorsMap::new();
    operators.insert("?".to_string(), Operator::Fixed { arity: 0, code: CODE_TEN });
    let mut calc = make_calculator_with_operators(operators);
    let result = calc.evaluate("?");
    assert!(result.is_ok(), "Should return ok as input is valid");
    assert_eq!(10.0, top_value(&calc), "Should have returned value at the top");
}

#[test]
fn should_extend_default_operators_with_operators() {
    let mut calc = make_calculator();
    calc.register("?".to_string(), Operator::Fixed { arity: 0, code: CODE_TEN });
    let result = calc.evaluate("? 2 +");
    assert!(result.is_ok(), "Should return ok as input is valid");
    assert_eq!(12.0, top_value(&calc), "Should have returned result of 10.0 + 2 at the top");
}

#[test]
fn should_be_possible_to_add_operator_that_operates_on_stack() {
    let mut calc = make_calculator();
    calc.register("?".to_string(), Operator::Raw { code: CODE_DROP });
    let result = calc.evaluate("2 3 ?");
    assert!(result.is_ok());
    assert_eq!(2.0, top_value(&calc), "top should be popped");
}

#[test]
fn should_not_pop_without_enough_operands() {
    let mut calc = make_calculator();
    calc.evaluate("1.0").expect("Should push to the stack");
    let result = calc.evaluate("+");
    assert!(result.is_err(), "Should return error because '+' expects two operands");
    match result {
        Err(RpnCalculatorError::NotEnoughOperands) => (),
        _ => assert!(false, "Should return NotEnoughOperands error"),
    }
    assert_eq!(
        1.0,
        f64::from_bits(
            calc.top().expect("Stack should not be popped since there was not enough operands")
        ),
        "Stack should not be popped since there was not enough operands"
    );
}

fn check_evaluation(input: &str, expected: f64) {
    let mut calc = make_calculator();
    let result = calc.evaluate(input);
    assert!(result.is_ok());
    let result = top_value(&calc);
    let delta = expected - result;
    let expected_delta = 0.00001;
    assert!(expected_delta > delta, "{} - {} > {}", expected, result, expected_delta);
}

#[test]
fn should_calculate_subtraction() {
    check_evaluation("6 2 -", 4.0);
}

#[test]
fn should_calculate_division() {
    check_evaluation("6 2 /", 3.0);
}

#[test]
fn should_calculate_multiplication() {
    check_evaluation("6 2 *", 12.0);
}

#[test]
fn should_calculate_the_example_from_the_site() {
    check_evaluation("19 2.14 + 4.5 2 4.3 / - *", 85.2974);
}

#[test]
fn empty_line_is_a_noop() {
    let mut calc = make_calculator();
    assert!(calc.evaluate("").is_ok());
    assert!(calc.top().is_none());
    calc.evaluate("4").unwrap();
    assert!(calc.evaluate("").is_ok());
    assert_eq!(4.0, top_value(&calc));
}

#[test]
fn whitespace_only_line_is_a_noop() {
    let mut calc = make_calculator();
    calc.evaluate("2.5").unwrap();
    assert!(calc.evaluate(" \t \n ").is_ok());
    assert_eq!(2.5, top_value(&calc));
}

#[test]
fn tabs_and_newlines_separate_tokens() {
    let mut calc = make_calculator();
    assert!(calc.evaluate("6\t2\n-").is_ok());
    assert_eq!(4.0, top_value(&calc));
}

#[test]
fn extra_spaces_around_tokens_are_ignored() {
    let mut calc = make_calculator();
    assert!(calc.evaluate("   6   2    -   ").is_ok());
    assert_eq!(4.0, top_value(&calc));
}

#[test]
fn parsing_error_keeps_earlier_tokens_applied() {
    let mut calc = make_calculator();
    let result = calc.evaluate("2 garbage 3");
    assert!(matches!(result, Err(RpnCalculatorError::ParsingError)));
    assert_eq!(2.0, top_value(&calc));
}

#[test]
fn operand_order_is_second_from_top_then_top() {
    let mut calc = make_calculator();
    calc.evaluate("6 2 -").unwrap();
    assert_eq!(4.0, top_value(&calc));
    calc.evaluate("6 2 /").unwrap();
    assert_eq!(3.0, top_value(&calc));
}

#[test]
fn canonical_example_within_tolerance() {
    let mut calc = make_calculator();
    calc.evaluate("19 2.14 + 4.5 2 4.3 / - *").unwrap();
    let result = top_value(&calc);
    assert!((result - 85.2974).abs() < 1e-4, "top was {}", result);
}

#[test]
fn quit_operator_reports_quit_and_keeps_stack() {
    let mut calc = make_calculator();
    calc.register("q".to_string(), Operator::Raw { code: CODE_QUIT });
    calc.evaluate("3").unwrap();
    let result = calc.evaluate("q");
    assert!(matches!(result, Err(RpnCalculatorError::Quit)));
    assert_eq!(3.0, top_value(&calc));
}

#[test]
fn failing_raw_operator_keeps_the_stack_it_returned() {
    let mut calc = make_calculator();
    calc.register("!".to_string(), Operator::Raw { code: CODE_PUSH_THEN_FAIL });
    let result = calc.evaluate("!");
    assert!(matches!(result, Err(RpnCalculatorError::IOError)));
    assert_eq!(7.0, top_value(&calc));
}

#[test]
fn registry_lookup_finds_defaults() {
    let operators = default_operators();
    assert_eq!(Some(Operator::Fixed { arity: 2, code: OP_ADD }), operators.get("+"));
    assert_eq!(Some(Operator::Fixed { arity: 2, code: OP_SUB }), operators.get("-"));
    assert_eq!(Some(Operator::Fixed { arity: 2, code: OP_MUL }), operators.get("*"));
    assert_eq!(Some(Operator::Fixed { arity: 2, code: OP_DIV }), operators.get("/"));
    assert_eq!(None, operators.get("%"));
    assert!(operators.contains_key("*"));
    assert!(!operators.contains_key("plus"));
}

#[test]
fn registry_insert_replaces_earlier_binding() {
    let mut operators = default_operators();
    operators.insert("+".to_string(), Operator::Fixed { arity: 0, code: CODE_TEN });
    assert_eq!(Some(Operator::Fixed { arity: 0, code: CODE_TEN }), operators.get("+"));
}

#[test]
fn registry_merge_prefers_the_merged_bindings() {
    let mut operators = default_operators();
    let mut extension = OperatorsMap::new();
    extension.insert("+".to_string(), Operator::Fixed { arity: 0, code: CODE_TEN });
    extension.insert("?".to_string(), Operator::Raw { code: CODE_DROP });
    operators.merge(&extension);
    assert_eq!(Some(Operator::Fixed { arity: 0, code: CODE_TEN }), operators.get("+"));
    assert_eq!(Some(Operator::Raw { code: CODE_DROP }), operators.get("?"));
    assert_eq!(Some(Operator::Fixed { arity: 2, code: OP_SUB }), operators.get("-"));
}

#[test]
fn default_registries_behave_identically() {
    let first = default_operators();
    let second = default_operators();
    for symbol in ["+", "-", "*", "/"] {
        assert_eq!(first.get(symbol), second.get(symbol));
    }
    let mut calc_a = make_calculator_with_operators(first);
    let mut calc_b = make_calculator_with_operators(second);
    calc_a.evaluate("19 2.14 + 4.5 2 4.3 / - *").unwrap();
    calc_b.evaluate("19 2.14 + 4.5 2 4.3 / - *").unwrap();
    assert_eq!(calc_a.top(), calc_b.top());
}

#[test]
fn custom_parser_decides_literals() {
    struct HexNumerics;
    impl Numerics for HexNumerics {
        fn spec_parse(&self, _token: TokenChars) -> Option<u64> {
            panic!("specification item; never called at run time")
        }
        fn spec_apply(&self, _code: u64, _args: ValueSeq) -> u64 {
            panic!("specification item; never called at run time")
        }
        fn spec_apply_raw(&self, _code: u64, _stack: ValueSeq) -> RawEffect {
            panic!("specification item; never called at run time")
        }
        fn parse(&self, token: &str) -> Option<u64> {
            u64::from_str_radix(token, 16).ok()
        }
        fn apply(&self, _code: u64, args: &Vec<u64>) -> u64 {
            args.iter().copied().sum()
        }
        fn apply_raw(&self, _code: u64, stack: &Vec<u64>) -> (Vec<u64>, Option<RpnCalculatorError>) {
            (stack.clone(), None)
        }
    }
    let mut calc = RpnCalculator::new_with_operators(HexNumerics, default_operators());
    calc.evaluate("ff 1 +").unwrap();
    assert_eq!(Some(0x100), calc.top());
    let result = calc.evaluate("xyz");
    assert!(matches!(result, Err(RpnCalculatorError::ParsingError)));
}
