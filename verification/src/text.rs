//! Character-level text helpers shared by the line buffer, the scrollback
//! log and the tokenizer: splitting on a separator, line splitting in the
//! manner of `str::lines`, and concatenation.

use vstd::prelude::*;
use vstd::string::StrSliceExecFns;

verus! {

/// Relies on `String::push`: appends the character to the end of the string.
#[verifier::external_body]
pub(crate) fn push_char(s: &mut String, c: char)
    ensures
        final(s)@ == old(s)@.push(c),
{
    s.push(c);
}

/// Relies on `String::pop`: removes and returns the last character, or
/// returns `None` when the string is empty.
#[verifier::external_body]
pub(crate) fn pop_char(s: &mut String) -> (r: Option<char>)
    ensures
        old(s)@.len() == 0 ==> final(s)@ == old(s)@ && r is None,
        old(s)@.len() > 0 ==> final(s)@ == old(s)@.drop_last() && r == Some(old(s)@.last()),
{
    s.pop()
}

/// Split `s` at every occurrence of `sep`, keeping empty pieces.
/// The result always holds at least one piece; an empty input yields one
/// empty piece, and a trailing separator yields a trailing empty piece.
pub open spec fn split_term(s: Seq<char>, sep: char) -> Seq<Seq<char>>
    decreases s.len(),
{
    if s.len() == 0 {
        seq![Seq::<char>::empty()]
    } else {
        let prev = split_term(s.drop_last(), sep);
        if s.last() == sep {
            prev.push(Seq::<char>::empty())
        } else {
            prev.drop_last().push(prev.last().push(s.last()))
        }
    }
}

pub proof fn lemma_split_term_len(s: Seq<char>, sep: char)
    ensures
        split_term(s, sep).len() >= 1,
    decreases s.len(),
{
    if s.len() > 0 {
        lemma_split_term_len(s.drop_last(), sep);
    }
}

/// How one more character extends the split of a prefix.
pub proof fn lemma_split_term_step(s: Seq<char>, i: int, sep: char)
    requires
        0 <= i < s.len(),
    ensures
        s[i] == sep ==> split_term(s.take(i + 1), sep) == split_term(s.take(i), sep).push(
            Seq::<char>::empty(),
        ),
        s[i] != sep ==> split_term(s.take(i + 1), sep) == split_term(s.take(i), sep).drop_last().push(
            split_term(s.take(i), sep).last().push(s[i]),
        ),
{
    let t = s.take(i + 1);
    assert(t.len() == i + 1);
    assert(t.drop_last() =~= s.take(i));
    assert(t.last() == s[i]);
}

/// Drop a single carriage return left at the end of a line.
pub open spec fn strip_cr(line: Seq<char>) -> Seq<char> {
    if line.len() > 0 && line.last() == '\r' {
        line.drop_last()
    } else {
        line
    }
}

/// `strip_cr` applied to every piece, in order.
pub open spec fn strip_all(pieces: Seq<Seq<char>>) -> Seq<Seq<char>>
    decreases pieces.len(),
{
    if pieces.len() == 0 {
        Seq::empty()
    } else {
        strip_all(pieces.drop_last()).push(strip_cr(pieces.last()))
    }
}

/// The lines of `s`, in the manner of `str::lines`: pieces are cut at every
/// `'\n'`, a carriage return directly before the cut is dropped, and a final
/// empty piece (from a trailing line break) yields no line of its own.
pub open spec fn lines_of(s: Seq<char>) -> Seq<Seq<char>> {
    let pieces = split_term(s, '\n');
    let cut = strip_all(pieces.drop_last());
    if pieces.last().len() == 0 {
        cut
    } else {
        cut.push(pieces.last())
    }
}

/// Concatenation of a sequence of lines into one sequence of characters.
pub open spec fn concat_all(ls: Seq<Seq<char>>) -> Seq<char>
    decreases ls.len(),
{
    if ls.len() == 0 {
        Seq::empty()
    } else {
        ls.first() + concat_all(ls.drop_first())
    }
}

/// Pushing one string onto a vector of strings pushes the string's view
/// onto the vector's deep view.
pub proof fn lemma_deep_view_push(pre: Vec<String>, post: Vec<String>, s: String)
    requires
        post@ == pre@.push(s),
    ensures
        post.deep_view() == pre.deep_view().push(s@),
{
    assert(post.deep_view() =~= pre.deep_view().push(s@));
}

/// Split `s` into tokens at every single space, keeping empty tokens, as
/// `str::split(' ')` does.
pub fn split_spaces(s: &str) -> (tokens: Vec<String>)
    ensures
        tokens.deep_view() == split_term(s@, ' '),
{
    let n: usize = s.unicode_len();
    let mut tokens: Vec<String> = Vec::new();
    let mut cur = String::new();
    proof {
        assert(s@.take(0) =~= Seq::<char>::empty());
        assert(tokens.deep_view().push(cur@) =~= seq![Seq::<char>::empty()]);
    }
    let mut i: usize = 0;
    while i < n
        invariant
            n == s@.len(),
            i <= n,
            tokens.deep_view().push(cur@) == split_term(s@.take(i as int), ' '),
        decreases n - i,
    {
        let c = s.get_char(i);
        proof {
            lemma_split_term_step(s@, i as int, ' ');
        }
        let ghost pre_tokens = tokens.deep_view();
        let ghost pre_cur = cur@;
        if c == ' ' {
            let ghost tokens_snap = tokens;
            let ghost cur_snap = cur;
            tokens.push(cur);
            cur = String::new();
            proof {
                lemma_deep_view_push(tokens_snap, tokens, cur_snap);
            }
        } else {
            push_char(&mut cur, c);
            proof {
                assert(pre_tokens.push(pre_cur).drop_last() =~= pre_tokens);
                assert(pre_tokens.push(pre_cur).last() == pre_cur);
            }
        }
        i = i + 1;
    }
    proof {
        assert(s@.take(n as int) =~= s@);
    }
    let ghost tokens_snap = tokens;
    let ghost cur_snap = cur;
    tokens.push(cur);
    proof {
        lemma_deep_view_push(tokens_snap, tokens, cur_snap);
    }
    tokens
}

} // verus!
