//! Text handling: the characters of a string, and comma-separated tokens.

use vstd::prelude::*;
use vstd::std_specs::iter::IteratorSpec;

verus! {

/// The characters of `s`, in order.
pub fn chars_of(s: &str) -> (v: Vec<char>)
    ensures
        v@ == s@,
{
    let mut v: Vec<char> = Vec::new();
    for c in it: s.chars()
        invariant
            it.seq() == s@,
            v@ == s@.subrange(0, it.index() as int),
    {
        v.push(c);
    }
    v
}

/// The pieces of `s` between its commas, in order. Every comma ends one piece
/// and starts the next, so text without a comma is one piece, the empty text
/// too, and a piece may be empty. Nothing is trimmed.
pub open spec fn comma_tokens(s: Seq<char>) -> Seq<Seq<char>>
    decreases s.len(),
{
    if s.len() == 0 {
        seq![Seq::empty()]
    } else {
        let before = comma_tokens(s.drop_last());
        if s.last() == ',' {
            before.push(Seq::empty())
        } else {
            before.drop_last().push(before.last().push(s.last()))
        }
    }
}

/// `tokens` written one after another with a comma between neighbours.
pub open spec fn comma_joined(tokens: Seq<Seq<char>>) -> Seq<char>
    decreases tokens.len(),
{
    if tokens.len() == 0 {
        Seq::empty()
    } else if tokens.len() == 1 {
        tokens[0]
    } else {
        comma_joined(tokens.drop_last()) + seq![','] + tokens.last()
    }
}

/// Splitting loses nothing: there is at least one token, no token holds a
/// comma, and the tokens joined by commas are the text again.
pub proof fn lemma_comma_tokens_rejoin(s: Seq<char>)
    ensures
        comma_tokens(s).len() >= 1,
        forall|k: int, j: int|
            0 <= k < comma_tokens(s).len() && 0 <= j < comma_tokens(s)[k].len()
                ==> comma_tokens(s)[k][j] != ',',
        comma_joined(comma_tokens(s)) == s,
    decreases s.len(),
{
    if s.len() == 0 {
        assert(comma_joined(comma_tokens(s)) =~= s);
    } else {
        let before = comma_tokens(s.drop_last());
        lemma_comma_tokens_rejoin(s.drop_last());
        let after = comma_tokens(s);
        if s.last() == ',' {
            assert(after.drop_last() =~= before);
            assert(comma_joined(after) =~= s);
        } else {
            let grown = before.last().push(s.last());
            assert(after.last() == grown);
            if before.len() == 1 {
                assert(comma_joined(after) =~= s);
            } else {
                assert(after.drop_last() =~= before.drop_last());
                let head = comma_joined(before.drop_last()) + seq![','];
                assert(comma_joined(before) == head + before.last());
                assert(comma_joined(after) == head + grown);
                assert(head + grown =~= (head + before.last()).push(s.last()));
                assert(s =~= s.drop_last().push(s.last()));
            }
        }
    }
}

/// Splits `s` at its commas.
pub fn split_commas(s: &str) -> (tokens: Vec<String>)
    ensures
        tokens.deep_view() == comma_tokens(s@),
{
    let chars = chars_of(s);
    let n = chars.len();
    let mut tokens: Vec<String> = Vec::new();
    let mut start: usize = 0;
    let mut i: usize = 0;
    assert(s@.subrange(0, 0) =~= Seq::<char>::empty());
    assert(tokens.deep_view().push(s@.subrange(0, 0)) =~= comma_tokens(s@.subrange(0, 0)));
    while i < n
        invariant
            chars@ == s@,
            n == chars.len(),
            start <= i <= n,
            tokens.deep_view().push(s@.subrange(start as int, i as int)) == comma_tokens(
                s@.subrange(0, i as int),
            ),
        decreases n - i,
    {
        let ghost seen = s@.subrange(0, i as int);
        let ghost next = s@.subrange(0, i + 1);
        let ghost done = tokens.deep_view();
        assert(next.drop_last() =~= seen);
        assert(next.last() == chars@[i as int]);
        if chars[i] == ',' {
            let token = s.substring_char(start, i).to_owned();
            tokens.push(token);
            assert(tokens.deep_view() =~= done.push(s@.subrange(start as int, i as int)));
            start = i + 1;
            assert(s@.subrange(start as int, start as int) =~= Seq::<char>::empty());
        } else {
            assert(comma_tokens(seen).drop_last() =~= done);
            assert(s@.subrange(start as int, i as int).push(chars@[i as int]) =~= s@.subrange(
                start as int,
                i + 1,
            ));
        }
        i += 1;
    }
    let ghost done = tokens.deep_view();
    assert(s@.subrange(0, n as int) =~= s@);
    let token = s.substring_char(start, n).to_owned();
    tokens.push(token);
    assert(tokens.deep_view() =~= done.push(s@.subrange(start as int, n as int)));
    tokens
}

} // verus!
