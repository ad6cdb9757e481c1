use vstd::prelude::*;

verus! {

/// Whether `c` has the Unicode `White_Space` property, exactly as
/// `char::is_whitespace` decides it.  The character table behind that
/// function is not restated here; this name stands for its result.
pub uninterp spec fn is_unicode_whitespace(c: char) -> bool;

/// Relies on `char::is_whitespace`: a pure classification of the
/// character alone, used to delimit tokens.
pub assume_specification[ char::is_whitespace ](c: char) -> (r: bool)
    ensures
        r == is_unicode_whitespace(c),
;

/// The length of the maximal whitespace-free prefix of `s`: how many
/// leading characters belong to the token that starts at `s[0]`.
pub open spec fn token_run(s: Seq<char>) -> nat
    decreases s.len(),
{
    if s.len() == 0 || is_unicode_whitespace(s[0]) {
        0
    } else {
        1 + token_run(s.drop_first())
    }
}

pub proof fn lemma_token_run_le_len(s: Seq<char>)
    ensures
        token_run(s) <= s.len(),
    decreases s.len(),
{
    if s.len() == 0 || is_unicode_whitespace(s[0]) {
    } else {
        lemma_token_run_le_len(s.drop_first());
    }
}

/// The whitespace-separated tokens of `s`, in order: each token is a
/// maximal run of non-whitespace characters, and whitespace only
/// separates.
pub open spec fn spec_tokens(s: Seq<char>) -> Seq<Seq<char>>
    decreases s.len(),
    via spec_tokens_decreases
{
    if s.len() == 0 {
        Seq::empty()
    } else if is_unicode_whitespace(s[0]) {
        spec_tokens(s.drop_first())
    } else {
        seq![s.take(token_run(s) as int)] + spec_tokens(s.skip(token_run(s) as int))
    }
}

#[via_fn]
proof fn spec_tokens_decreases(s: Seq<char>) {
    lemma_token_run_le_len(s);
}

/// The views of a sequence of borrowed tokens, so that contracts can
/// speak of the characters rather than the borrows.
pub open spec fn views_of(tokens: Seq<&str>) -> Seq<Seq<char>> {
    tokens.map_values(|t: &str| t@)
}

/// Splits `input` into its whitespace-separated tokens, in order.
pub fn tokenize<'a>(input: &'a str) -> (tokens: Vec<&'a str>)
    ensures
        views_of(tokens@) == spec_tokens(input@),
{
    let n: usize = input.unicode_len();
    let mut tokens: Vec<&'a str> = Vec::new();
    let mut i: usize = 0;
    proof {
        assert(input@.skip(0) =~= input@);
        assert(views_of(tokens@) + spec_tokens(input@) =~= spec_tokens(input@));
    }
    while i < n
        invariant
            n == input@.len(),
            i <= n,
            views_of(tokens@) + spec_tokens(input@.skip(i as int)) == spec_tokens(input@),
        decreases n - i,
    {
        let c = input.get_char(i);
        if c.is_whitespace() {
            proof {
                assert(input@.skip(i as int).drop_first() =~= input@.skip(i as int + 1));
            }
            i = i + 1;
        } else {
            let ghost start: int = i as int;
            let mut j: usize = i + 1;
            proof {
                assert(input@.skip(start).drop_first() =~= input@.skip(start + 1));
            }
            while j < n && !input.get_char(j).is_whitespace()
                invariant
                    n == input@.len(),
                    start < j <= n,
                    token_run(input@.skip(start)) == j - start + token_run(
                        input@.skip(j as int),
                    ),
                decreases n - j,
            {
                proof {
                    assert(input@.skip(j as int).drop_first() =~= input@.skip(j as int + 1));
                }
                j = j + 1;
            }
            proof {
                if j < n {
                    assert(input@.skip(j as int).len() > 0);
                    assert(token_run(input@.skip(j as int)) == 0);
                } else {
                    assert(input@.skip(j as int).len() == 0);
                }
                assert(token_run(input@.skip(start)) == j - start);
            }
            let token = input.substring_char(i, j);
            let ghost prior = tokens@;
            tokens.push(token);
            proof {
                let s = input@;
                let rest = s.skip(start);
                let run: int = token_run(rest) as int;
                assert(rest.take(run) =~= s.subrange(start, j as int));
                assert(spec_tokens(rest) == seq![token@] + spec_tokens(rest.skip(run)));
                assert(rest.skip(run) =~= s.skip(j as int));
                assert(views_of(tokens@) =~= views_of(prior).push(token@));
                assert(views_of(tokens@) + spec_tokens(s.skip(j as int)) =~= views_of(prior)
                    + spec_tokens(rest));
            }
            i = j;
        }
    }
    proof {
        assert(input@.skip(i as int) =~= Seq::<char>::empty());
        assert(views_of(tokens@) + spec_tokens(input@.skip(i as int)) =~= views_of(tokens@));
    }
    tokens
}

} // verus!
