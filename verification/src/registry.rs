use vstd::prelude::*;

verus! {

/// The behavior code the default registry binds to `+`.
pub const OP_ADD: u64 = 1;

/// The behavior code the default registry binds to `-`.
pub const OP_SUB: u64 = 2;

/// The behavior code the default registry binds to `*`.
pub const OP_MUL: u64 = 3;

/// The behavior code the default registry binds to `/`.
pub const OP_DIV: u64 = 4;

/// How the engine drives one registered operator.
///
/// The `code` is opaque to the engine: it is handed to the numeric
/// back end, which decides what the operator computes.  New operators
/// are data, not engine code: a caller registers a fresh symbol with a
/// fresh code and teaches its back end that code's meaning.
#[derive(Clone, Copy, Debug, PartialEq, Eq, Structural)]
pub enum Operator {
    /// Consumes exactly `arity` values off the top of the stack and
    /// pushes the one result the back end computes from them.  With
    /// fewer than `arity` values present it fails without touching
    /// the stack.
    Fixed { arity: usize, code: u64 },
    /// Receives the whole stack and may replace it freely; whatever
    /// it leaves behind is final, even when it also reports a
    /// failure.
    Raw { code: u64 },
}

/// The bindings a sequence of `(symbol, operator)` entries makes,
/// later entries shadowing earlier ones.
pub open spec fn symbol_table(entries: Seq<(String, Operator)>) -> Map<Seq<char>, Operator>
    decreases entries.len(),
{
    if entries.len() == 0 {
        Map::empty()
    } else {
        symbol_table(entries.drop_last()).insert(entries.last().0@, entries.last().1)
    }
}

/// The extensible mapping from operator symbol to operator.
///
/// Symbols are case-sensitive and looked up whole; insertion order is
/// irrelevant except that a later binding for the same symbol wins.
/// A symbol holding whitespace can be stored but never matches a
/// token, since tokens are whitespace-free by construction.
pub struct OperatorsMap {
    entries: Vec<(String, Operator)>,
}

impl View for OperatorsMap {
    type V = Map<Seq<char>, Operator>;

    closed spec fn view(&self) -> Map<Seq<char>, Operator> {
        symbol_table(self.entries@)
    }
}

proof fn lemma_table_skip_unmatched(entries: Seq<(String, Operator)>, k: Seq<char>, i: int)
    requires
        0 <= i <= entries.len(),
        forall|j: int| i <= j < entries.len() ==> entries[j].0@ != k,
    ensures
        symbol_table(entries).contains_key(k) == symbol_table(entries.take(i)).contains_key(k),
        symbol_table(entries).contains_key(k) ==> symbol_table(entries)[k] == symbol_table(
            entries.take(i),
        )[k],
    decreases entries.len() - i,
{
    if i == entries.len() {
        assert(entries.take(i) =~= entries);
    } else {
        let shorter = entries.drop_last();
        assert(entries.last().0@ != k);
        assert(forall|j: int| i <= j < shorter.len() ==> shorter[j].0@ != k);
        lemma_table_skip_unmatched(shorter, k, i);
        assert(shorter.take(i) =~= entries.take(i));
    }
}

impl OperatorsMap {
    /// A registry with no bindings.
    pub fn new() -> (r: OperatorsMap)
        ensures
            r@ == Map::<Seq<char>, Operator>::empty(),
    {
        OperatorsMap { entries: Vec::new() }
    }

    /// Binds `symbol` to `operator`, replacing any earlier binding of
    /// the same symbol; never fails.
    pub fn insert(&mut self, symbol: String, operator: Operator)
        ensures
            final(self)@ == old(self)@.insert(symbol@, operator),
    {
        let ghost prior = self.entries@;
        let ghost key = symbol@;
        self.entries.push((symbol, operator));
        proof {
            assert(self.entries@.drop_last() =~= prior);
            assert(self.entries@.last().0@ == key);
        }
    }

    /// Looks `symbol` up; a pure read with no side effect.
    pub fn get(&self, symbol: &str) -> (r: Option<Operator>)
        ensures
            r == (if self@.contains_key(symbol@) {
                Some(self@[symbol@])
            } else {
                None::<Operator>
            }),
    {
        let key: String = symbol.to_owned();
        let n: usize = self.entries.len();
        let mut idx: usize = n;
        while idx > 0
            invariant
                idx <= n,
                n == self.entries@.len(),
                key@ == symbol@,
                forall|j: int| idx <= j < n ==> self.entries@[j].0@ != symbol@,
            decreases idx,
        {
            idx = idx - 1;
            if self.entries[idx].0 == key {
                proof {
                    lemma_table_skip_unmatched(self.entries@, symbol@, idx as int + 1);
                    let prefix = self.entries@.take(idx as int + 1);
                    assert(prefix.drop_last() =~= self.entries@.take(idx as int));
                    assert(prefix.last() == self.entries@[idx as int]);
                }
                return Some(self.entries[idx].1);
            }
        }
        proof {
            lemma_table_skip_unmatched(self.entries@, symbol@, 0);
            assert(self.entries@.take(0) =~= Seq::<(String, Operator)>::empty());
        }
        None
    }

    /// Whether `symbol` is bound; a pure read.
    pub fn contains_key(&self, symbol: &str) -> (r: bool)
        ensures
            r == self@.contains_key(symbol@),
    {
        self.get(symbol).is_some()
    }

    /// Adds every binding of `other`, overriding this registry's own
    /// binding wherever both bind the same symbol.
    pub fn merge(&mut self, other: &OperatorsMap)
        ensures
            final(self)@ == old(self)@.union_prefer_right(other@),
    {
        let n: usize = other.entries.len();
        let mut i: usize = 0;
        proof {
            assert(other.entries@.take(0) =~= Seq::<(String, Operator)>::empty());
            assert(old(self)@.union_prefer_right(Map::empty()) =~= old(self)@);
        }
        while i < n
            invariant
                i <= n,
                n == other.entries@.len(),
                self@ == old(self)@.union_prefer_right(symbol_table(other.entries@.take(i as int))),
            decreases n - i,
        {
            let symbol = other.entries[i].0.clone();
            let operator = other.entries[i].1;
            let ghost prior = self.entries@;
            let ghost key = symbol@;
            self.entries.push((symbol, operator));
            proof {
                assert(self.entries@.drop_last() =~= prior);
                assert(self.entries@.last().0@ == key);
                let shown = other.entries@.take(i as int + 1);
                assert(shown.drop_last() =~= other.entries@.take(i as int));
                assert(shown.last() == other.entries@[i as int]);
                assert(key == other.entries@[i as int].0@);
                assert(old(self)@.union_prefer_right(symbol_table(shown)) =~= old(self)@
                    .union_prefer_right(symbol_table(other.entries@.take(i as int))).insert(
                    key,
                    operator,
                ));
            }
            i = i + 1;
        }
        proof {
            assert(other.entries@.take(n as int) =~= other.entries@);
        }
    }
}

/// The table of bindings `default_operators` makes: the four
/// arithmetic symbols, each consuming two operands and pushing one
/// result.
pub open spec fn default_symbol_table() -> Map<Seq<char>, Operator> {
    Map::empty().insert("+"@, Operator::Fixed { arity: 2, code: OP_ADD }).insert(
        "-"@,
        Operator::Fixed { arity: 2, code: OP_SUB },
    ).insert("*"@, Operator::Fixed { arity: 2, code: OP_MUL }).insert(
        "/"@,
        Operator::Fixed { arity: 2, code: OP_DIV },
    )
}

/// Builds the default registry: `+`, `-`, `*` and `/`, each a
/// fixed-arity-two operator whose arguments reach the numeric back
/// end with the second-from-top operand first and the top operand
/// last.
pub fn default_operators() -> (r: OperatorsMap)
    ensures
        r@ == default_symbol_table(),
{
    let mut r = OperatorsMap::new();
    r.insert("+".to_owned(), Operator::Fixed { arity: 2, code: OP_ADD });
    r.insert("-".to_owned(), Operator::Fixed { arity: 2, code: OP_SUB });
    r.insert("*".to_owned(), Operator::Fixed { arity: 2, code: OP_MUL });
    r.insert("/".to_owned(), Operator::Fixed { arity: 2, code: OP_DIV });
    r
}

} // verus!
