//! Splitting an input line into argument words.
//!
//! A line is cut on runs of blank characters (spaces, tabs and the line
//! terminators left at the end of a read line); the tokens are the maximal
//! runs of non-blank characters, in order.  A line that holds only blanks
//! yields no tokens.  No quoting or escaping is interpreted.

use vstd::prelude::*;
use vstd::string::StrSliceExecFns;
use vstd::string::StringExecFns;

verus! {

/// A character that separates tokens: the word separators proper and the
/// line terminators stripped from the end of a read line.
pub open spec fn is_blank(c: char) -> bool {
    c == ' ' || c == '\t' || c == '\n' || c == '\r'
}

/// Length of the leading run of non-blank characters of `s`.
pub open spec fn word_len(s: Seq<char>) -> nat
    decreases s.len(),
{
    if s.len() == 0 || is_blank(s[0]) {
        0nat
    } else {
        1nat + word_len(s.skip(1))
    }
}

pub proof fn lemma_word_len_le(s: Seq<char>)
    ensures
        word_len(s) <= s.len(),
        forall|m: int| 0 <= m < word_len(s) ==> !is_blank(s[m]),
        word_len(s) < s.len() ==> is_blank(s[word_len(s) as int]),
    decreases s.len(),
{
    if s.len() == 0 || is_blank(s[0]) {
    } else {
        lemma_word_len_le(s.skip(1));
        assert forall|m: int| 0 <= m < word_len(s) implies !is_blank(s[m]) by {
            if m > 0 {
                assert(s.skip(1)[m - 1] == s[m]);
            }
        }
        if word_len(s) < s.len() {
            assert(s.skip(1)[word_len(s) - 1] == s[word_len(s) as int]);
        }
    }
}

/// The token sequence of a line: the maximal runs of non-blank characters,
/// in order.
pub open spec fn spec_tokens(s: Seq<char>) -> Seq<Seq<char>>
    decreases s.len(),
    via spec_tokens_decreases
{
    if s.len() == 0 {
        Seq::empty()
    } else if is_blank(s[0]) {
        spec_tokens(s.skip(1))
    } else {
        seq![s.take(word_len(s) as int)] + spec_tokens(s.skip(word_len(s) as int))
    }
}

#[via_fn]
proof fn spec_tokens_decreases(s: Seq<char>) {
    if s.len() > 0 && !is_blank(s[0]) {
        lemma_word_len_le(s);
        assert(word_len(s) == 1 + word_len(s.skip(1)));
    }
}

/// If the first `k` characters of `s` are non-blank and the run stops at `k`
/// (end of the line or a blank), the leading word is exactly `k` long.
proof fn lemma_word_len_exact(s: Seq<char>, k: nat)
    requires
        k <= s.len(),
        forall|m: int| 0 <= m < k ==> !is_blank(s[m]),
        k == s.len() || is_blank(s[k as int]),
    ensures
        word_len(s) == k,
    decreases k,
{
    if k == 0 {
    } else {
        assert(!is_blank(s[0]));
        let t = s.skip(1);
        assert forall|m: int| 0 <= m < k - 1 implies !is_blank(t[m]) by {
            assert(t[m] == s[m + 1]);
        }
        if k < s.len() {
            assert(t[k - 1] == s[k as int]);
        }
        lemma_word_len_exact(t, (k - 1) as nat);
    }
}

/// Stepping over one leading blank leaves the token sequence unchanged.
proof fn lemma_tokens_skip_blank(s: Seq<char>, i: int)
    requires
        0 <= i < s.len(),
        is_blank(s[i]),
    ensures
        spec_tokens(s.skip(i)) == spec_tokens(s.skip(i + 1)),
{
    assert(s.skip(i)[0] == s[i]);
    assert(s.skip(i).skip(1) =~= s.skip(i + 1));
}

/// A maximal non-blank run `[i, j)` contributes exactly one token.
proof fn lemma_tokens_take_word(s: Seq<char>, i: int, j: int)
    requires
        0 <= i < j <= s.len(),
        forall|m: int| i <= m < j ==> !is_blank(s[m]),
        j == s.len() || is_blank(s[j]),
    ensures
        spec_tokens(s.skip(i)) == seq![s.subrange(i, j)] + spec_tokens(s.skip(j)),
{
    let t = s.skip(i);
    assert forall|m: int| 0 <= m < j - i implies !is_blank(t[m]) by {
        assert(t[m] == s[m + i]);
    }
    if j < s.len() {
        assert(t[j - i] == s[j]);
    }
    lemma_word_len_exact(t, (j - i) as nat);
    assert(t[0] == s[i]);
    assert(t.take(j - i) =~= s.subrange(i, j));
    assert(t.skip(j - i) =~= s.skip(j));
}

/// A well-formed token: non-empty and free of blank characters.  Every
/// token that `spec_tokens` produces has this shape.
pub open spec fn wf_token(t: Seq<char>) -> bool {
    t.len() > 0 && forall|m: int| 0 <= m < t.len() ==> !is_blank(t[m])
}

/// The tokens rejoined with a single space between adjacent tokens.
pub open spec fn join_tokens(ts: Seq<Seq<char>>) -> Seq<char>
    decreases ts.len(),
{
    if ts.len() == 0 {
        Seq::empty()
    } else if ts.len() == 1 {
        ts[0]
    } else {
        ts[0] + seq![' '] + join_tokens(ts.skip(1))
    }
}

/// Every token a line splits into is non-empty and free of blanks.
pub proof fn lemma_spec_tokens_wf(s: Seq<char>)
    ensures
        forall|k: int| 0 <= k < spec_tokens(s).len() ==> wf_token(#[trigger] spec_tokens(s)[k]),
    decreases s.len(),
{
    if s.len() == 0 {
    } else if is_blank(s[0]) {
        lemma_spec_tokens_wf(s.skip(1));
        assert(spec_tokens(s) == spec_tokens(s.skip(1)));
        assert forall|k: int| 0 <= k < spec_tokens(s).len() implies wf_token(
            #[trigger] spec_tokens(s)[k],
        ) by {
            assert(spec_tokens(s)[k] == spec_tokens(s.skip(1))[k]);
        }
    } else {
        lemma_word_len_le(s);
        assert(word_len(s) == 1 + word_len(s.skip(1)));
        lemma_spec_tokens_wf(s.skip(word_len(s) as int));
        let w = s.take(word_len(s) as int);
        assert forall|m: int| 0 <= m < w.len() implies !is_blank(w[m]) by {
            assert(w[m] == s[m]);
        }
        assert(wf_token(w));
        let rest = spec_tokens(s.skip(word_len(s) as int));
        assert forall|k: int| 0 <= k < spec_tokens(s).len() implies wf_token(
            #[trigger] spec_tokens(s)[k],
        ) by {
            if k == 0 {
                assert(spec_tokens(s)[0] == w);
            } else {
                assert(spec_tokens(s)[k] == rest[k - 1]);
            }
        }
    }
}

/// Splitting a line that was joined from well-formed tokens with single
/// spaces gives back exactly those tokens.  Together with
/// `lemma_spec_tokens_wf` this says that tokenizing and rejoining with
/// single spaces is idempotent.
pub proof fn lemma_tokens_of_join(ts: Seq<Seq<char>>)
    requires
        forall|k: int| 0 <= k < ts.len() ==> wf_token(#[trigger] ts[k]),
    ensures
        spec_tokens(join_tokens(ts)) == ts,
    decreases ts.len(),
{
    if ts.len() == 0 {
        assert(spec_tokens(join_tokens(ts)) =~~= ts);
    } else if ts.len() == 1 {
        let s = ts[0];
        assert(join_tokens(ts) == s);
        assert(wf_token(s));
        lemma_word_len_exact(s, s.len());
        assert(s.take(s.len() as int) =~= s);
        assert(s.skip(s.len() as int) =~= Seq::<char>::empty());
        assert(spec_tokens(s) == seq![s.take(s.len() as int)] + spec_tokens(
            s.skip(s.len() as int),
        ));
        assert(spec_tokens(s.skip(s.len() as int)) =~= Seq::<Seq<char>>::empty());
        assert(spec_tokens(s) =~~= ts);
    } else {
        let s = join_tokens(ts);
        let t0 = ts[0];
        let rest = seq![' '] + join_tokens(ts.skip(1));
        assert(s =~= t0 + rest);
        assert forall|m: int| 0 <= m < t0.len() implies !is_blank(s[m]) by {
            assert(s[m] == t0[m]);
        }
        assert(s[t0.len() as int] == ' ');
        lemma_word_len_exact(s, t0.len());
        assert(s.take(t0.len() as int) =~= t0);
        assert(s.skip(t0.len() as int) =~= rest);
        assert(!is_blank(s[0]));
        assert(spec_tokens(s) == seq![s.take(word_len(s) as int)] + spec_tokens(
            s.skip(word_len(s) as int),
        ));
        assert(rest[0] == ' ');
        assert(spec_tokens(rest) == spec_tokens(rest.skip(1)));
        assert(rest.skip(1) =~= join_tokens(ts.skip(1)));
        lemma_tokens_of_join(ts.skip(1));
        assert(spec_tokens(s) == seq![t0] + ts.skip(1));
        assert(seq![t0] + ts.skip(1) =~~= ts);
    }
}

/// Rejoining the tokens of a line and tokenizing again changes nothing:
/// the joined form is a fixed point of tokenize-then-join.
pub proof fn lemma_rejoin_idempotent(s: Seq<char>)
    ensures
        spec_tokens(join_tokens(spec_tokens(s))) == spec_tokens(s),
{
    lemma_spec_tokens_wf(s);
    lemma_tokens_of_join(spec_tokens(s));
}

/// Whether `c` separates tokens.
pub fn is_blank_char(c: char) -> (b: bool)
    ensures
        b == is_blank(c),
{
    c == ' ' || c == '\t' || c == '\n' || c == '\r'
}

/// Split `line` into its tokens: the maximal runs of non-blank characters,
/// in order.  A line of blanks alone yields an empty vector.
pub fn tokenize(line: &str) -> (tokens: Vec<String>)
    ensures
        tokens.deep_view() == spec_tokens(line@),
{
    let n = line.unicode_len();
    let mut tokens: Vec<String> = Vec::new();
    let mut i: usize = 0;
    proof {
        assert(line@.skip(0) =~= line@);
        assert(tokens.deep_view() =~= Seq::<Seq<char>>::empty());
        assert(tokens.deep_view() + spec_tokens(line@) =~= spec_tokens(line@));
    }
    while i < n
        invariant
            n == line@.len(),
            i <= n,
            tokens.deep_view() + spec_tokens(line@.skip(i as int)) == spec_tokens(line@),
        decreases n - i,
    {
        let c = line.get_char(i);
        if is_blank_char(c) {
            proof {
                lemma_tokens_skip_blank(line@, i as int);
            }
            i = i + 1;
        } else {
            let start = i;
            let mut j = i + 1;
            while j < n && !is_blank_char(line.get_char(j))
                invariant
                    n == line@.len(),
                    start < j <= n,
                    forall|m: int| start <= m < j ==> !is_blank(line@[m]),
                decreases n - j,
            {
                j = j + 1;
            }
            let word = line.substring_char(start, j);
            let token = String::from_str(word);
            let ghost before = tokens.deep_view();
            tokens.push(token);
            proof {
                lemma_tokens_take_word(line@, start as int, j as int);
                assert(tokens.deep_view() =~= before + seq![line@.subrange(start as int, j as int)]);
                assert(tokens.deep_view() + spec_tokens(line@.skip(j as int)) =~= before
                    + spec_tokens(line@.skip(start as int)));
            }
            i = j;
        }
    }
    proof {
        assert(line@.skip(n as int) =~= Seq::<char>::empty());
        assert(tokens.deep_view() + spec_tokens(line@.skip(n as int)) =~= tokens.deep_view());
    }
    tokens
}

} // verus!
