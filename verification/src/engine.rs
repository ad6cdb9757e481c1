use crate::errors::RpnCalculatorError;
use crate::numerics::Numerics;
use crate::registry::{default_operators, default_symbol_table, Operator, OperatorsMap};
use crate::tokens::{spec_tokens, tokenize, views_of};
use vstd::prelude::*;

verus! {

/// One token's effect on a calculator: the stack it leaves behind and
/// the failure it reports, if any.
///
/// A token bound in the registry invokes its operator: a fixed-arity
/// operator pops its operands all-or-nothing and pushes the one value
/// the back end computes from them; a raw operator replaces the whole
/// stack with whatever the back end returns.  Any other token is
/// parsed as a literal and pushed, or rejected.
pub open spec fn spec_step<K: Numerics>(
    numerics: K,
    operators: Map<Seq<char>, Operator>,
    stack: Seq<u64>,
    token: Seq<char>,
) -> (Seq<u64>, Option<RpnCalculatorError>) {
    if operators.contains_key(token) {
        match operators[token] {
            Operator::Fixed { arity, code } => {
                if stack.len() < arity {
                    (stack, Some(RpnCalculatorError::NotEnoughOperands))
                } else {
                    let args = stack.skip(stack.len() - arity);
                    (stack.take(stack.len() - arity).push(numerics.spec_apply(code, args)), None)
                }
            },
            Operator::Raw { code } => numerics.spec_apply_raw(code, stack),
        }
    } else {
        match numerics.spec_parse(token) {
            Some(value) => (stack.push(value), None),
            None => (stack, Some(RpnCalculatorError::ParsingError)),
        }
    }
}

/// The effect of a whole token sequence: tokens apply in order and
/// processing stops at the first failure, so everything applied
/// before the failing token stays.
pub open spec fn spec_eval<K: Numerics>(
    numerics: K,
    operators: Map<Seq<char>, Operator>,
    stack: Seq<u64>,
    tokens: Seq<Seq<char>>,
) -> (Seq<u64>, Option<RpnCalculatorError>)
    decreases tokens.len(),
{
    if tokens.len() == 0 {
        (stack, None)
    } else {
        let step = spec_step(numerics, operators, stack, tokens[0]);
        if step.1 is Some {
            step
        } else {
            spec_eval(numerics, operators, step.0, tokens.drop_first())
        }
    }
}

/// The calculator: one stack of encoded values, one operator
/// registry, one numeric back end, and nothing else.
pub struct RpnCalculator<K: Numerics> {
    stack: Vec<u64>,
    operators: OperatorsMap,
    numerics: K,
}

impl<K: Numerics> RpnCalculator<K> {
    /// The values on the stack, deepest first.
    pub closed spec fn stack_view(&self) -> Seq<u64> {
        self.stack@
    }

    /// The registry's bindings.
    pub closed spec fn operators_view(&self) -> Map<Seq<char>, Operator> {
        self.operators@
    }

    /// The numeric back end.
    pub closed spec fn numerics_view(&self) -> K {
        self.numerics
    }

    /// A calculator with an empty stack and the default registry.
    pub fn new(numerics: K) -> (r: RpnCalculator<K>)
        ensures
            r.stack_view() == Seq::<u64>::empty(),
            r.operators_view() == default_symbol_table(),
            r.numerics_view() == numerics,
    {
        RpnCalculator { stack: Vec::new(), operators: default_operators(), numerics }
    }

    /// A calculator with an empty stack and the registry given, which
    /// may extend or replace the defaults entirely.
    pub fn new_with_operators(numerics: K, operators: OperatorsMap) -> (r: RpnCalculator<K>)
        ensures
            r.stack_view() == Seq::<u64>::empty(),
            r.operators_view() == operators@,
            r.numerics_view() == numerics,
    {
        RpnCalculator { stack: Vec::new(), operators, numerics }
    }

    /// Binds `symbol` to `operator` in this calculator's registry,
    /// replacing any earlier binding of the same symbol.
    pub fn register(&mut self, symbol: String, operator: Operator)
        ensures
            final(self).stack_view() == old(self).stack_view(),
            final(self).operators_view() == old(self).operators_view().insert(symbol@, operator),
            final(self).numerics_view() == old(self).numerics_view(),
    {
        self.operators.insert(symbol, operator);
    }

    /// The current top of the stack, without mutation; `None` when
    /// the stack is empty.
    pub fn top(&self) -> (r: Option<u64>)
        ensures
            r == (if self.stack_view().len() == 0 {
                None::<u64>
            } else {
                Some(self.stack_view().last())
            }),
    {
        if self.stack.len() == 0 {
            None
        } else {
            Some(self.stack[self.stack.len() - 1])
        }
    }

    /// Evaluates one line of input against the current stack.
    ///
    /// The line is split into whitespace-separated tokens and each
    /// token applies in order, exactly as `spec_eval` says: the final
    /// stack is the one `spec_eval` computes, and the call returns
    /// `Ok` exactly when no token fails.  Tokens after the first
    /// failing one are never processed.
    #[verifier::loop_isolation(false)]
    pub fn evaluate(&mut self, input: &str) -> (r: Result<(), RpnCalculatorError>)
        ensures
            final(self).operators_view() == old(self).operators_view(),
            final(self).numerics_view() == old(self).numerics_view(),
            ({
                let outcome = spec_eval(
                    old(self).numerics_view(),
                    old(self).operators_view(),
                    old(self).stack_view(),
                    spec_tokens(input@),
                );
                &&& final(self).stack_view() == outcome.0
                &&& (match r {
                    Ok(_) => outcome.1 is None,
                    Err(e) => outcome.1 == Some(e),
                })
            }),
    {
        let tokens = tokenize(input);
        let ghost toks = views_of(tokens@);
        let ghost numerics0 = self.numerics_view();
        let ghost operators0 = self.operators_view();
        let ghost stack0 = self.stack_view();
        proof {
            assert(toks.skip(0) =~= toks);
        }
        let n: usize = tokens.len();
        let mut i: usize = 0;
        while i < n
            invariant
                n == tokens@.len(),
                i <= n,
                toks == views_of(tokens@),
                self.operators_view() == operators0,
                self.numerics_view() == numerics0,
                spec_eval(numerics0, operators0, stack0, toks) == spec_eval(
                    numerics0,
                    operators0,
                    self.stack_view(),
                    toks.skip(i as int),
                ),
            decreases n - i,
        {
            let token = tokens[i];
            proof {
                assert(token@ == toks[i as int]);
                assert(toks.skip(i as int)[0] == toks[i as int]);
                assert(toks.skip(i as int).drop_first() =~= toks.skip(i as int + 1));
            }
            match self.parse_token(token) {
                Ok(_) => {
                    i = i + 1;
                },
                Err(failure) => {
                    return Err(failure);
                },
            }
        }
        proof {
            assert(toks.skip(n as int) =~= Seq::<Seq<char>>::empty());
        }
        Ok(())
    }

    /// Applies one token: dispatch to its registered operator, or
    /// parse it as a literal and push.
    fn parse_token(&mut self, token: &str) -> (r: Result<(), RpnCalculatorError>)
        ensures
            final(self).operators_view() == old(self).operators_view(),
            final(self).numerics_view() == old(self).numerics_view(),
            ({
                let outcome = spec_step(
                    old(self).numerics_view(),
                    old(self).operators_view(),
                    old(self).stack_view(),
                    token@,
                );
                &&& final(self).stack_view() == outcome.0
                &&& (match r {
                    Ok(_) => outcome.1 is None,
                    Err(e) => outcome.1 == Some(e),
                })
            }),
    {
        match self.operators.get(token) {
            Some(Operator::Fixed { arity, code }) => {
                if self.stack.len() < arity {
                    Err(RpnCalculatorError::NotEnoughOperands)
                } else {
                    let ghost pre = self.stack@;
                    let base: usize = self.stack.len() - arity;
                    let args = self.stack.split_off(base);
                    proof {
                        assert(args@ =~= pre.skip(pre.len() - arity));
                        assert(self.stack@ =~= pre.take(pre.len() - arity));
                    }
                    let result: u64 = self.numerics.apply(code, &args);
                    self.stack.push(result);
                    Ok(())
                }
            },
            Some(Operator::Raw { code }) => {
                let outcome = self.numerics.apply_raw(code, &self.stack);
                self.stack = outcome.0;
                match outcome.1 {
                    None => Ok(()),
                    Some(failure) => Err(failure),
                }
            },
            None => {
                match self.numerics.parse(token) {
                    Some(value) => {
                        self.stack.push(value);
                        Ok(())
                    },
                    None => Err(RpnCalculatorError::ParsingError),
                }
            },
        }
    }
}

} // verus!
