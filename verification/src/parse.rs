//! Line tokenization for the interactive loop: a command line is split into
//! whitespace-separated words, the first being the command name and the rest
//! its arguments.

use vstd::prelude::*;
use vstd::string::*;

verus! {

/// The characters the tokenizer treats as separators.
pub open spec fn is_space(c: char) -> bool {
    c == ' ' || c == '\t' || c == '\r' || c == '\n'
}

/// Length of the leading run of non-separator characters.
pub open spec fn token_len(s: Seq<char>) -> int
    decreases s.len(),
{
    if s.len() == 0 || is_space(s[0]) {
        0
    } else {
        1 + token_len(s.drop_first())
    }
}

proof fn lemma_token_len_bounds(s: Seq<char>)
    ensures
        0 <= token_len(s) <= s.len(),
    decreases s.len(),
{
    if s.len() != 0 && !is_space(s[0]) {
        lemma_token_len_bounds(s.drop_first());
    }
}

/// `token_len` is exactly the position of the first separator (or the end).
proof fn lemma_token_len_is(s: Seq<char>, j: int)
    requires
        0 <= j <= s.len(),
        forall|i: int| 0 <= i < j ==> !is_space(s[i]),
        j == s.len() || is_space(s[j]),
    ensures
        token_len(s) == j,
    decreases s.len(),
{
    if j == 0 {
    } else {
        assert(!is_space(s[0]));
        let t = s.drop_first();
        assert forall|i: int| 0 <= i < j - 1 implies !is_space(t[i]) by {
            assert(t[i] == s[i + 1]);
        }
        if j < s.len() {
            assert(t[j - 1] == s[j]);
        }
        lemma_token_len_is(t, j - 1);
    }
}

/// The whitespace-separated words of `s`, in order.
pub open spec fn tokens(s: Seq<char>) -> Seq<Seq<char>>
    decreases s.len() via tokens_decreases
{
    if s.len() == 0 {
        seq![]
    } else if is_space(s[0]) {
        tokens(s.drop_first())
    } else {
        seq![s.take(token_len(s))] + tokens(s.skip(token_len(s)))
    }
}

#[via_fn]
proof fn tokens_decreases(s: Seq<char>) {
    if s.len() != 0 && !is_space(s[0]) {
        lemma_token_len_bounds(s.drop_first());
    }
}

/// Whether `c` is a separator, decided exactly as the tokenizer does.
pub fn is_space_char(c: char) -> (r: bool)
    ensures
        r == is_space(c),
{
    c == ' ' || c == '\t' || c == '\r' || c == '\n'
}

/// Splits a line into its words, exactly the `tokens` of its text.
pub fn split_line(s: &str) -> (r: Vec<String>)
    ensures
        r.deep_view() == tokens(s@),
{
    let n = s.unicode_len();
    let mut out: Vec<String> = Vec::new();
    let mut i: usize = 0;
    proof {
        assert(out.deep_view() =~= Seq::<Seq<char>>::empty());
        assert(s@.skip(0) =~= s@);
        assert(out.deep_view() + tokens(s@) =~= tokens(s@));
    }
    while i < n
        invariant
            i <= n,
            n == s@.len(),
            out.deep_view() + tokens(s@.skip(i as int)) =~= tokens(s@),
        decreases n - i,
    {
        let c = s.get_char(i);
        if is_space_char(c) {
            proof {
                let rest = s@.skip(i as int);
                assert(rest[0] == s@[i as int]);
                assert(rest.drop_first() =~= s@.skip(i as int + 1));
            }
            i = i + 1;
        } else {
            let start = i;
            let mut j = i + 1;
            while j < n && !is_space_char(s.get_char(j))
                invariant
                    start < j <= n,
                    n == s@.len(),
                    forall|k: int| start <= k < j ==> !is_space(s@[k]),
                decreases n - j,
            {
                j = j + 1;
            }
            let word = s.substring_char(start, j).to_owned();
            let ghost old_out = out.deep_view();
            out.push(word);
            proof {
                let rest = s@.skip(start as int);
                assert forall|k: int| 0 <= k < j - start implies !is_space(rest[k]) by {
                    assert(rest[k] == s@[k + start]);
                }
                if (j as int) < n as int {
                    assert(rest[j - start] == s@[j as int]);
                }
                lemma_token_len_is(rest, j - start);
                assert(rest.take(j - start) =~= s@.subrange(start as int, j as int));
                assert(rest.skip(j - start) =~= s@.skip(j as int));
                assert(out.deep_view() =~= old_out.push(s@.subrange(start as int, j as int)));
                assert(out.deep_view() + tokens(s@.skip(j as int)) =~= tokens(s@));
            }
            i = j;
        }
    }
    proof {
        assert(s@.skip(n as int) =~= Seq::<char>::empty());
        assert(out.deep_view() + tokens(s@.skip(n as int)) =~= out.deep_view());
    }
    out
}

/// Splits a line into the command word and its arguments; `None` when the
/// line holds no word at all.
pub fn parse_command(s: &str) -> (r: Option<(String, Vec<String>)>)
    ensures
        match r {
            None => tokens(s@).len() == 0,
            Some((cmd, args)) => {
                &&& tokens(s@).len() > 0
                &&& cmd@ == tokens(s@)[0]
                &&& args.deep_view() == tokens(s@).drop_first()
            },
        },
{
    let mut words = split_line(s);
    if words.len() == 0 {
        None
    } else {
        let cmd = words.remove(0);
        proof {
            assert(words.deep_view() =~= tokens(s@).drop_first());
        }
        Some((cmd, words))
    }
}

/// Text equality of two borrowed strings.
pub fn str_eq(a: &str, b: &str) -> (r: bool)
    ensures
        r == (a@ == b@),
{
    let sa: String = a.to_owned();
    let sb: String = b.to_owned();
    sa == sb
}

} // verus!
