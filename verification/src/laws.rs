use crate::engine::{spec_eval, spec_step};
use crate::errors::RpnCalculatorError;
use crate::numerics::Numerics;
use crate::registry::{default_symbol_table, Operator, OP_ADD, OP_DIV, OP_MUL, OP_SUB};
use crate::tokens::{is_unicode_whitespace, spec_tokens};
use vstd::prelude::*;

verus! {

/// Law: a line with no tokens — empty, or whitespace throughout —
/// yields nothing to process, so evaluation succeeds and leaves the
/// stack exactly as it was.
pub proof fn lemma_blank_line_is_noop<K: Numerics>(
    numerics: K,
    operators: Map<Seq<char>, Operator>,
    stack: Seq<u64>,
    input: Seq<char>,
)
    requires
        forall|i: int| 0 <= i < input.len() ==> is_unicode_whitespace(input[i]),
    ensures
        spec_tokens(input) == Seq::<Seq<char>>::empty(),
        spec_eval(numerics, operators, stack, spec_tokens(input)) == (
            stack,
            None::<RpnCalculatorError>,
        ),
    decreases input.len(),
{
    if input.len() > 0 {
        assert(forall|i: int|
            0 <= i < input.drop_first().len() ==> is_unicode_whitespace(input.drop_first()[i]));
        lemma_blank_line_is_noop(numerics, operators, stack, input.drop_first());
    }
}

/// Law: a fixed-arity operator invoked with fewer operands than it
/// consumes fails with `NotEnoughOperands` and leaves the stack
/// untouched — no partial pop; stated for the operator's step and
/// for a line holding that one token.
pub proof fn lemma_underflow_leaves_stack<K: Numerics>(
    numerics: K,
    operators: Map<Seq<char>, Operator>,
    stack: Seq<u64>,
    token: Seq<char>,
    arity: usize,
    code: u64,
)
    requires
        operators.contains_key(token),
        operators[token] == (Operator::Fixed { arity, code }),
        stack.len() < arity,
    ensures
        spec_step(numerics, operators, stack, token) == (
            stack,
            Some(RpnCalculatorError::NotEnoughOperands),
        ),
        spec_eval(numerics, operators, stack, seq![token]) == (
            stack,
            Some(RpnCalculatorError::NotEnoughOperands),
        ),
{
}

/// Law: a token that is neither a registered symbol nor a literal
/// the back end accepts fails with `ParsingError` and leaves the
/// stack untouched; stated for the token's step and for a line
/// holding that one token.
pub proof fn lemma_unknown_token_fails<K: Numerics>(
    numerics: K,
    operators: Map<Seq<char>, Operator>,
    stack: Seq<u64>,
    token: Seq<char>,
)
    requires
        !operators.contains_key(token),
        numerics.spec_parse(token) is None,
    ensures
        spec_step(numerics, operators, stack, token) == (
            stack,
            Some(RpnCalculatorError::ParsingError),
        ),
        spec_eval(numerics, operators, stack, seq![token]) == (
            stack,
            Some(RpnCalculatorError::ParsingError),
        ),
{
}

/// Law: whenever a token fails other than through a raw operator —
/// underflow of a fixed-arity operator, or an unparseable literal —
/// the stack after the step is exactly the stack before it.
pub proof fn lemma_failed_step_preserves_stack<K: Numerics>(
    numerics: K,
    operators: Map<Seq<char>, Operator>,
    stack: Seq<u64>,
    token: Seq<char>,
)
    requires
        spec_step(numerics, operators, stack, token).1 is Some,
        operators.contains_key(token) ==> !(operators[token] is Raw),
    ensures
        spec_step(numerics, operators, stack, token).0 == stack,
{
}

/// Law: a line `a b s` — two literals, then a fixed-arity-two
/// operator — pushes onto the prior stack the one value the back end
/// computes from the two literals in that order: the second-from-top
/// operand stands first, the top operand last.
pub proof fn lemma_fixed_binary_operator<K: Numerics>(
    numerics: K,
    operators: Map<Seq<char>, Operator>,
    stack: Seq<u64>,
    lit_a: Seq<char>,
    lit_b: Seq<char>,
    symbol: Seq<char>,
    a: u64,
    b: u64,
    code: u64,
)
    requires
        !operators.contains_key(lit_a),
        numerics.spec_parse(lit_a) == Some(a),
        !operators.contains_key(lit_b),
        numerics.spec_parse(lit_b) == Some(b),
        operators.contains_key(symbol),
        operators[symbol] == (Operator::Fixed { arity: 2, code }),
    ensures
        spec_eval(numerics, operators, stack, seq![lit_a, lit_b, symbol]) == (
            stack.push(numerics.spec_apply(code, seq![a, b])),
            None::<RpnCalculatorError>,
        ),
{
    reveal_with_fuel(spec_eval, 4);
    let line = seq![lit_a, lit_b, symbol];
    assert(line[0] == lit_a);
    assert(line.drop_first() =~= seq![lit_b, symbol]);
    assert(line.drop_first().drop_first() =~= seq![symbol]);
    assert(seq![symbol].drop_first() =~= Seq::<Seq<char>>::empty());
    let grown = stack.push(a).push(b);
    assert(spec_step(numerics, operators, stack, lit_a) == (
        stack.push(a),
        None::<RpnCalculatorError>,
    ));
    assert(spec_step(numerics, operators, stack.push(a), lit_b) == (
        grown,
        None::<RpnCalculatorError>,
    ));
    assert(grown.skip(grown.len() - 2) =~= seq![a, b]);
    assert(grown.take(grown.len() - 2) =~= stack);
    assert(spec_step(numerics, operators, grown, symbol) == (
        stack.push(numerics.spec_apply(code, seq![a, b])),
        None::<RpnCalculatorError>,
    ));
}

/// Law: the default registry binds exactly the four arithmetic
/// symbols, each to a fixed-arity-two operator with its own behavior
/// code.
pub proof fn lemma_default_table_bindings()
    ensures
        default_symbol_table().contains_key("+"@),
        default_symbol_table()["+"@] == (Operator::Fixed { arity: 2, code: OP_ADD }),
        default_symbol_table().contains_key("-"@),
        default_symbol_table()["-"@] == (Operator::Fixed { arity: 2, code: OP_SUB }),
        default_symbol_table().contains_key("*"@),
        default_symbol_table()["*"@] == (Operator::Fixed { arity: 2, code: OP_MUL }),
        default_symbol_table().contains_key("/"@),
        default_symbol_table()["/"@] == (Operator::Fixed { arity: 2, code: OP_DIV }),
        default_symbol_table().dom() =~= set!["+"@, "-"@, "*"@, "/"@],
{
    reveal_strlit("+");
    reveal_strlit("-");
    reveal_strlit("*");
    reveal_strlit("/");
    assert("+"@[0] == '+' && "-"@[0] == '-' && "*"@[0] == '*' && "/"@[0] == '/');
    assert("+"@ != "-"@);
    assert("+"@ != "*"@);
    assert("+"@ != "/"@);
    assert("-"@ != "*"@);
    assert("-"@ != "/"@);
    assert("*"@ != "/"@);
}

/// Law: the stack persists across lines — evaluating the tokens
/// `first + rest` is evaluating `first` and, when nothing failed,
/// evaluating `rest` against the stack `first` left behind.  Feeding
/// one line or splitting it over several makes no difference.
pub proof fn lemma_eval_append<K: Numerics>(
    numerics: K,
    operators: Map<Seq<char>, Operator>,
    stack: Seq<u64>,
    first: Seq<Seq<char>>,
    rest: Seq<Seq<char>>,
)
    ensures
        ({
            let head = spec_eval(numerics, operators, stack, first);
            spec_eval(numerics, operators, stack, first + rest) == (if head.1 is Some {
                head
            } else {
                spec_eval(numerics, operators, head.0, rest)
            })
        }),
    decreases first.len(),
{
    if first.len() == 0 {
        assert(first + rest =~= rest);
    } else {
        assert((first + rest)[0] == first[0]);
        assert((first + rest).len() > 0);
        let step = spec_step(numerics, operators, stack, first[0]);
        if step.1 is Some {
        } else {
            assert((first + rest).drop_first() =~= first.drop_first() + rest);
            lemma_eval_append(numerics, operators, step.0, first.drop_first(), rest);
        }
    }
}

/// Law: processing stops at the first failing token — when the
/// tokens before position `i` succeed and the token at `i` fails,
/// the whole line's outcome is that failing step's outcome: the
/// earlier tokens' effects remain applied, and nothing after `i` is
/// processed.
pub proof fn lemma_first_failure_stops_the_line<K: Numerics>(
    numerics: K,
    operators: Map<Seq<char>, Operator>,
    stack: Seq<u64>,
    tokens: Seq<Seq<char>>,
    i: int,
)
    requires
        0 <= i < tokens.len(),
        spec_eval(numerics, operators, stack, tokens.take(i)).1 is None,
        spec_step(
            numerics,
            operators,
            spec_eval(numerics, operators, stack, tokens.take(i)).0,
            tokens[i],
        ).1 is Some,
    ensures
        spec_eval(numerics, operators, stack, tokens) == spec_step(
            numerics,
            operators,
            spec_eval(numerics, operators, stack, tokens.take(i)).0,
            tokens[i],
        ),
{
    lemma_eval_append(numerics, operators, stack, tokens.take(i), tokens.skip(i));
    assert(tokens.take(i) + tokens.skip(i) =~= tokens);
    let reached = spec_eval(numerics, operators, stack, tokens.take(i)).0;
    assert(tokens.skip(i)[0] == tokens[i]);
    assert(spec_eval(numerics, operators, reached, tokens.skip(i)) == spec_step(
        numerics,
        operators,
        reached,
        tokens[i],
    ));
}

/// Law: building the default registry is deterministic — any two
/// registries that carry the default table have the same bindings
/// and give every line the same evaluation.
pub proof fn lemma_default_operators_deterministic<K: Numerics>(
    first: Map<Seq<char>, Operator>,
    second: Map<Seq<char>, Operator>,
    numerics: K,
    stack: Seq<u64>,
    tokens: Seq<Seq<char>>,
)
    requires
        first == default_symbol_table(),
        second == default_symbol_table(),
    ensures
        first == second,
        spec_eval(numerics, first, stack, tokens) == spec_eval(numerics, second, stack, tokens),
{
}

} // verus!
