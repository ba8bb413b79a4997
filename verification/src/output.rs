//! The scrollback log: an append-only sequence of output lines, and the
//! pure render projection that first wraps every stored line to the screen
//! width and then windows the most recent wrapped lines.

use vstd::prelude::*;
use vstd::string::StrSliceExecFns;
use crate::text::{
    concat_all, lemma_deep_view_push, lemma_split_term_len, lemma_split_term_step, lines_of,
    pop_char, push_char, split_term, strip_all, strip_cr,
};

verus! {

/// One stored line cut into segments of at most `w` characters: a full
/// segment of `w` characters is cut off as long as more than `w` remain,
/// and the remainder (possibly the whole line) is the last segment.
pub open spec fn wrap_line(s: Seq<char>, w: nat) -> Seq<Seq<char>>
    recommends
        w >= 1,
    decreases s.len(),
{
    if s.len() <= w || w == 0 {
        seq![s]
    } else {
        seq![s.take(w as int)] + wrap_line(s.skip(w as int), w)
    }
}

/// Every stored line wrapped, oldest first, segments in order.
pub open spec fn wrap_all(hist: Seq<Seq<char>>, w: nat) -> Seq<Seq<char>>
    decreases hist.len(),
{
    if hist.len() == 0 {
        Seq::empty()
    } else {
        wrap_all(hist.drop_last(), w) + wrap_line(hist.last(), w)
    }
}

/// The last `h` entries, in their original order; all of them when there
/// are no more than `h`.
pub open spec fn window(ls: Seq<Seq<char>>, h: nat) -> Seq<Seq<char>> {
    if ls.len() > h {
        ls.skip(ls.len() - h)
    } else {
        ls
    }
}

/// What the output widget shows: wrap every stored line to width `w`,
/// then keep the last `h` wrapped lines. Wrapping before windowing is
/// deliberate: windowing first would lose stored lines whenever long lines
/// wrap into several segments.
pub open spec fn visible_spec(hist: Seq<Seq<char>>, w: nat, h: nat) -> Seq<Seq<char>> {
    window(wrap_all(hist, w), h)
}

/// The append-only scrollback log. It only ever grows; the visible window
/// is chosen at render time by `visible_lines`.
pub struct CommandOutputState {
    history: Vec<String>,
}

impl View for CommandOutputState {
    type V = Seq<Seq<char>>;

    closed spec fn view(&self) -> Seq<Seq<char>> {
        self.history.deep_view()
    }
}

impl Default for CommandOutputState {
    /// An empty scrollback log.
    fn default() -> (r: Self)
        ensures
            r@ =~= Seq::<Seq<char>>::empty(),
    {
        let r = CommandOutputState { history: Vec::new() };
        proof {
            assert(r@ =~= Seq::<Seq<char>>::empty());
        }
        r
    }
}

impl CommandOutputState {
    /// Append one line verbatim as a single scrollback entry.
    pub fn push_line(&mut self, line: String)
        ensures
            final(self)@ == old(self)@.push(line@),
    {
        let ghost hist_snap = self.history;
        let ghost line_snap = line;
        self.history.push(line);
        proof {
            lemma_deep_view_push(hist_snap, self.history, line_snap);
        }
    }

    /// Append `text` to the scrollback, one entry per line of it, lines
    /// taken as `str::lines` takes them.
    pub fn append_text(&mut self, text: &str)
        ensures
            final(self)@ == old(self)@ + lines_of(text@),
    {
        let ghost init = self@;
        let n: usize = text.unicode_len();
        let mut cur = String::new();
        let mut i: usize = 0;
        proof {
            assert(text@.take(0) =~= Seq::<char>::empty());
            assert(init + strip_all(split_term(text@.take(0), '\n').drop_last()) =~= init);
        }
        while i < n
            invariant
                n == text@.len(),
                i <= n,
                self@ == init + strip_all(split_term(text@.take(i as int), '\n').drop_last()),
                cur@ == split_term(text@.take(i as int), '\n').last(),
            decreases n - i,
        {
            let ghost pieces_i = split_term(text@.take(i as int), '\n');
            let c = text.get_char(i);
            proof {
                lemma_split_term_step(text@, i as int, '\n');
                lemma_split_term_len(text@.take(i as int), '\n');
            }
            if c == '\n' {
                let m: usize = cur.as_str().unicode_len();
                if m > 0 && cur.as_str().get_char(m - 1) == '\r' {
                    let _ = pop_char(&mut cur);
                }
                proof {
                    assert(cur@ == strip_cr(pieces_i.last()));
                }
                let ghost hist_snap = self.history;
                let ghost cur_snap = cur;
                self.history.push(cur);
                cur = String::new();
                proof {
                    lemma_deep_view_push(hist_snap, self.history, cur_snap);
                    let pieces_next = pieces_i.push(Seq::<char>::empty());
                    assert(pieces_next.drop_last() =~= pieces_i);
                    assert(strip_all(pieces_i) == strip_all(pieces_i.drop_last()).push(
                        strip_cr(pieces_i.last()),
                    ));
                    assert(init + strip_all(pieces_i.drop_last()).push(strip_cr(pieces_i.last()))
                        =~= (init + strip_all(pieces_i.drop_last())).push(strip_cr(pieces_i.last())));
                }
            } else {
                push_char(&mut cur, c);
                proof {
                    let pieces_next = pieces_i.drop_last().push(pieces_i.last().push(c));
                    assert(pieces_next.drop_last() =~= pieces_i.drop_last());
                    assert(pieces_next.last() == pieces_i.last().push(c));
                }
            }
            i = i + 1;
        }
        proof {
            assert(text@.take(n as int) =~= text@);
        }
        let ghost pieces = split_term(text@, '\n');
        proof {
            lemma_split_term_len(text@, '\n');
        }
        if !cur.as_str().is_empty() {
            let ghost hist_snap = self.history;
            let ghost cur_snap = cur;
            self.history.push(cur);
            proof {
                lemma_deep_view_push(hist_snap, self.history, cur_snap);
                assert(init + strip_all(pieces.drop_last()).push(pieces.last()) =~= (init
                    + strip_all(pieces.drop_last())).push(pieces.last()));
                assert(lines_of(text@) == strip_all(pieces.drop_last()).push(pieces.last()));
            }
        } else {
            proof {
                assert(lines_of(text@) == strip_all(pieces.drop_last()));
            }
        }
    }

    /// Append every given line verbatim, in order, one scrollback entry
    /// each.
    pub fn push_lines(&mut self, lines: &Vec<String>)
        ensures
            final(self)@ == old(self)@ + lines.deep_view(),
    {
        let ghost init = self@;
        proof {
            assert(init + lines.deep_view().take(0) =~= init);
        }
        let mut i: usize = 0;
        while i < lines.len()
            invariant
                i <= lines@.len(),
                self@ == init + lines.deep_view().take(i as int),
            decreases lines@.len() - i,
        {
            let l = lines[i].clone();
            self.push_line(l);
            proof {
                assert((init + lines.deep_view().take(i as int)).push(lines.deep_view()[i as int])
                    =~= init + lines.deep_view().take(i + 1));
            }
            i = i + 1;
        }
        proof {
            assert(lines.deep_view().take(lines@.len() as int) =~= lines.deep_view());
        }
    }

    /// How many entries the scrollback holds.
    pub fn len(&self) -> (r: usize)
        ensures
            r == self@.len(),
    {
        self.history.len()
    }

    /// The `i`-th scrollback entry, oldest first.
    pub fn line_at(&self, i: usize) -> (r: &String)
        requires
            i < self@.len(),
        ensures
            r@ == self@[i as int],
    {
        &self.history[i]
    }

    /// The render projection: every stored line wrapped to at most `width`
    /// characters per segment, then the last `height` wrapped lines, in
    /// chronological order.
    pub fn visible_lines(&self, width: usize, height: usize) -> (r: Vec<String>)
        requires
            width >= 1,
        ensures
            r.deep_view() == visible_spec(self@, width as nat, height as nat),
    {
        let mut wrapped: Vec<String> = Vec::new();
        let len: usize = self.history.len();
        proof {
            assert(self@.take(0) =~= Seq::<Seq<char>>::empty());
        }
        let mut idx: usize = 0;
        while idx < len
            invariant
                len == self@.len(),
                idx <= len,
                width >= 1,
                wrapped.deep_view() == wrap_all(self@.take(idx as int), width as nat),
            decreases len - idx,
        {
            let line: &String = &self.history[idx];
            let m: usize = line.as_str().unicode_len();
            let ghost l = line@;
            let ghost done = wrapped.deep_view();
            if m <= width {
                let ghost wrapped_snap = wrapped;
                let copy = line.clone();
                let ghost copy_snap = copy;
                wrapped.push(copy);
                proof {
                    lemma_deep_view_push(wrapped_snap, wrapped, copy_snap);
                    assert(done + wrap_line(l, width as nat) =~= done.push(l));
                }
            } else {
                let mut k: usize = 0;
                proof {
                    assert(l.skip(0) =~= l);
                }
                while m - k > width
                    invariant
                        m == l.len(),
                        width >= 1,
                        k <= m,
                        line@ == l,
                        wrapped.deep_view() + wrap_line(l.skip(k as int), width as nat) == done
                            + wrap_line(l, width as nat),
                    decreases m - k,
                {
                    let chunk: &str = line.as_str().substring_char(k, k + width);
                    let owned = chunk.to_owned();
                    let ghost wrapped_snap = wrapped;
                    let ghost owned_snap = owned;
                    let ghost before = wrapped.deep_view();
                    wrapped.push(owned);
                    proof {
                        lemma_deep_view_push(wrapped_snap, wrapped, owned_snap);
                        let w = width as nat;
                        let rest = l.skip(k as int);
                        assert(rest.take(w as int) =~= l.subrange(k as int, k + w));
                        assert(rest.skip(w as int) =~= l.skip(k + w));
                        assert(wrap_line(rest, w) == seq![rest.take(w as int)] + wrap_line(
                            rest.skip(w as int),
                            w,
                        ));
                        assert(before.push(l.subrange(k as int, k + w)) + wrap_line(
                            l.skip(k + w),
                            w,
                        ) =~= before + wrap_line(rest, w));
                    }
                    k = k + width;
                }
                let chunk: &str = line.as_str().substring_char(k, m);
                let owned = chunk.to_owned();
                let ghost wrapped_snap = wrapped;
                let ghost owned_snap = owned;
                let ghost before = wrapped.deep_view();
                wrapped.push(owned);
                proof {
                    lemma_deep_view_push(wrapped_snap, wrapped, owned_snap);
                    let w = width as nat;
                    let rest = l.skip(k as int);
                    assert(rest =~= l.subrange(k as int, m as int));
                    assert(wrap_line(rest, w) == seq![rest]);
                    assert(before.push(rest) =~= before + wrap_line(rest, w));
                }
            }
            idx = idx + 1;
            proof {
                assert(self@.take(idx as int).drop_last() =~= self@.take(idx - 1));
                assert(self@.take(idx as int).last() == self@[idx - 1]);
                assert(wrap_all(self@.take(idx as int), width as nat) == wrap_all(
                    self@.take(idx - 1),
                    width as nat,
                ) + wrap_line(self@[idx - 1], width as nat));
            }
        }
        proof {
            assert(self@.take(len as int) =~= self@);
        }
        let total: usize = wrapped.len();
        let start: usize = if total > height {
            total - height
        } else {
            0
        };
        let mut r: Vec<String> = Vec::new();
        proof {
            assert(r.deep_view() =~= wrapped.deep_view().subrange(start as int, start as int));
        }
        let mut j: usize = start;
        while j < total
            invariant
                total == wrapped.deep_view().len(),
                total == wrapped@.len(),
                start <= j <= total,
                r.deep_view() == wrapped.deep_view().subrange(start as int, j as int),
            decreases total - j,
        {
            let copy = wrapped[j].clone();
            let ghost r_snap = r;
            let ghost copy_snap = copy;
            r.push(copy);
            proof {
                lemma_deep_view_push(r_snap, r, copy_snap);
                assert(wrapped.deep_view().subrange(start as int, j + 1) =~= wrapped.deep_view()
                    .subrange(start as int, j as int).push(wrapped.deep_view()[j as int]));
            }
            j = j + 1;
        }
        proof {
            if total > height {
                assert(wrapped.deep_view().subrange(start as int, total as int) =~= window(
                    wrapped.deep_view(),
                    height as nat,
                ));
            } else {
                assert(wrapped.deep_view().subrange(start as int, total as int) =~= window(
                    wrapped.deep_view(),
                    height as nat,
                ));
            }
        }
        r
    }
}

/// The command output widget itself; its state is `CommandOutputState`.
#[derive(Clone)]
pub struct CommandOutput {}

impl Default for CommandOutput {
    fn default() -> (r: Self) {
        CommandOutput {  }
    }
}

/// Wrap law: with width `w >= 1` every wrapped segment holds at most `w`
/// characters, and the segments concatenate back to the original line, in
/// order.
pub proof fn lemma_wrap_line_reconstructs(s: Seq<char>, w: nat)
    requires
        w >= 1,
    ensures
        forall|i: int| 0 <= i < wrap_line(s, w).len() ==> #[trigger] wrap_line(s, w)[i].len() <= w,
        concat_all(wrap_line(s, w)) == s,
        s.len() > 0 ==> wrap_line(s, w).len() == (s.len() - 1) as int / (w as int) + 1,
    decreases s.len(),
{
    if s.len() <= w {
        if s.len() > 0 {
            assert((s.len() - 1) as int / (w as int) == 0) by (nonlinear_arith)
                requires
                    w >= 1,
                    0 <= ((s.len() - 1) as int),
                    ((s.len() - 1) as int) < w,
            ;
        }
        assert(wrap_line(s, w) == seq![s]);
        assert(seq![s].drop_first() =~= Seq::<Seq<char>>::empty());
        assert(concat_all(seq![s]) == s + concat_all(Seq::<Seq<char>>::empty()));
        assert(s + Seq::<char>::empty() =~= s);
    } else {
        lemma_wrap_line_reconstructs(s.skip(w as int), w);
        let head = seq![s.take(w as int)];
        let rest = wrap_line(s.skip(w as int), w);
        assert(wrap_line(s, w) == head + rest);
        assert forall|i: int| 0 <= i < wrap_line(s, w).len() implies #[trigger] wrap_line(
            s,
            w,
        )[i].len() <= w by {
            if i == 0 {
                assert(wrap_line(s, w)[0] == s.take(w as int));
            } else {
                assert(wrap_line(s, w)[i] == rest[i - 1]);
            }
        }
        assert((head + rest).drop_first() =~= rest);
        assert(concat_all(head + rest) == s.take(w as int) + concat_all(rest));
        assert(s.take(w as int) + s.skip(w as int) =~= s);
        assert((s.len() - 1) as int / (w as int) == (s.skip(w as int).len() - 1) as int / (
        w as int) + 1) by (nonlinear_arith)
            requires
                w >= 1,
                s.len() > w,
                s.skip(w as int).len() == s.len() - w,
        ;
    }
}

/// Windowing order law: when every stored line already fits the width,
/// wrapping changes nothing, so the visible lines are exactly the last
/// `height` stored lines, in their original chronological order.
pub proof fn lemma_visible_when_lines_fit(hist: Seq<Seq<char>>, w: nat, h: nat)
    requires
        w >= 1,
        forall|i: int| 0 <= i < hist.len() ==> #[trigger] hist[i].len() <= w,
    ensures
        wrap_all(hist, w) == hist,
        visible_spec(hist, w, h) == window(hist, h),
        hist.len() > h ==> visible_spec(hist, w, h) == hist.skip(hist.len() - h),
    decreases hist.len(),
{
    if hist.len() == 0 {
        assert(wrap_all(hist, w) =~= hist);
    } else {
        assert forall|i: int| 0 <= i < hist.drop_last().len() implies #[trigger] hist.drop_last()[i].len()
            <= w by {
            assert(hist.drop_last()[i] == hist[i]);
        }
        lemma_visible_when_lines_fit(hist.drop_last(), w, h);
        assert(wrap_line(hist.last(), w) == seq![hist.last()]);
        assert(hist.drop_last() + seq![hist.last()] =~= hist);
    }
}

} // verus!
