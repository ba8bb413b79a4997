//! The editable command line: a live character buffer, the history of
//! committed commands, and a clamped history cursor.

use vstd::prelude::*;
use vstd::string::StringExecFns;
use crate::text::{lemma_deep_view_push, pop_char, push_char};

verus! {

/// Mathematical model of the command line editor: the live content, the
/// committed history (oldest first), and the history cursor. Cursor value
/// `0` names the most recent entry; larger values name older entries.
pub ghost struct InputModel {
    pub content: Seq<char>,
    pub history: Seq<Seq<char>>,
    pub index: nat,
}

/// The cursor after one step toward older entries: it never passes the
/// oldest entry, and an empty history leaves it unchanged.
pub open spec fn back_index(index: nat, len: nat) -> nat {
    if len == 0 {
        index
    } else if index + 1 < len {
        index + 1
    } else {
        (len - 1) as nat
    }
}

/// The cursor after one step toward newer entries: it never passes the most
/// recent entry (cursor `0`), and an empty history leaves it unchanged.
pub open spec fn forward_index(index: nat, len: nat) -> nat {
    if len == 0 {
        index
    } else if index == 0 {
        0
    } else {
        (index - 1) as nat
    }
}

/// The history entry the cursor names: cursor `0` is the last committed
/// entry, cursor `len - 1` the first.
pub open spec fn recalled(history: Seq<Seq<char>>, index: nat) -> Seq<char>
    recommends
        index < history.len(),
{
    history[history.len() - 1 - index]
}

/// The editable command line plus its committed history.
pub struct CommandInputState {
    history: Vec<String>,
    index_of_history: usize,
    content: String,
}

impl View for CommandInputState {
    type V = InputModel;

    closed spec fn view(&self) -> InputModel {
        InputModel {
            content: self.content@,
            history: self.history.deep_view(),
            index: self.index_of_history as nat,
        }
    }
}

impl Default for CommandInputState {
    /// A fresh editor: empty content, empty history, cursor at the most
    /// recent position.
    fn default() -> (r: Self)
        ensures
            r@.content =~= Seq::<char>::empty(),
            r@.history =~= Seq::<Seq<char>>::empty(),
            r@.index == 0,
            r.inv(),
    {
        let r = CommandInputState { history: Vec::new(), index_of_history: 0, content: String::new() };
        proof {
            assert(r@.history =~= Seq::<Seq<char>>::empty());
        }
        r
    }
}

impl CommandInputState {
    /// Cursor invariant: within the history when there is one, pinned to
    /// `0` when there is none.
    pub open spec fn inv(&self) -> bool {
        if self@.history.len() == 0 {
            self@.index == 0
        } else {
            self@.index < self@.history.len()
        }
    }

    /// Append one character to the live content.
    pub fn add_char(&mut self, c: char)
        ensures
            final(self)@.content == old(self)@.content.push(c),
            final(self)@.history == old(self)@.history,
            final(self)@.index == old(self)@.index,
    {
        push_char(&mut self.content, c);
    }

    /// Remove the last character of the live content; on empty content this
    /// is a no-op (the content floor is the empty string).
    pub fn del_char(&mut self)
        ensures
            old(self)@.content.len() > 0 ==> final(self)@.content == old(self)@.content.drop_last(),
            old(self)@.content.len() == 0 ==> final(self)@.content == old(self)@.content,
            final(self)@.history == old(self)@.history,
            final(self)@.index == old(self)@.index,
    {
        let _ = pop_char(&mut self.content);
    }

    /// Clear the live content; history and cursor stay as they are.
    pub fn reset(&mut self)
        ensures
            final(self)@.content =~= Seq::<char>::empty(),
            final(self)@.history == old(self)@.history,
            final(self)@.index == old(self)@.index,
    {
        self.content = String::new();
    }

    /// Commit the live content: push a copy onto the history, clear the
    /// content, and return the committed command.
    pub fn enter(&mut self) -> (command: String)
        ensures
            command@ == old(self)@.content,
            final(self)@.content =~= Seq::<char>::empty(),
            final(self)@.history == old(self)@.history.push(old(self)@.content),
            final(self)@.index == old(self)@.index,
            old(self).inv() ==> final(self).inv(),
    {
        let command = self.content.clone();
        let copy = command.clone();
        let ghost hist_snap = self.history;
        let ghost copy_snap = copy;
        self.history.push(copy);
        proof {
            lemma_deep_view_push(hist_snap, self.history, copy_snap);
        }
        self.reset();
        command
    }

    /// Move the cursor one step toward older entries and recall that entry
    /// into the live content; an empty history leaves everything unchanged.
    pub fn back_in_history(&mut self)
        requires
            old(self).inv(),
        ensures
            final(self).inv(),
            final(self)@.history == old(self)@.history,
            final(self)@.index == back_index(old(self)@.index, old(self)@.history.len()),
            old(self)@.history.len() == 0 ==> final(self)@.content == old(self)@.content,
            old(self)@.history.len() > 0 ==> final(self)@.content == recalled(
                old(self)@.history,
                final(self)@.index,
            ),
    {
        if self.history.is_empty() {
            return ;
        }
        let len: usize = self.history.len();
        let new_index: usize = if self.index_of_history + 1 < len {
            self.index_of_history + 1
        } else {
            len - 1
        };
        self.index_of_history = new_index;
        let entry = self.history[len - 1 - new_index].clone();
        self.content = entry;
    }

    /// Move the cursor one step toward newer entries and recall that entry
    /// into the live content; an empty history leaves everything unchanged.
    pub fn forward_in_history(&mut self)
        requires
            old(self).inv(),
        ensures
            final(self).inv(),
            final(self)@.history == old(self)@.history,
            final(self)@.index == forward_index(old(self)@.index, old(self)@.history.len()),
            old(self)@.history.len() == 0 ==> final(self)@.content == old(self)@.content,
            old(self)@.history.len() > 0 ==> final(self)@.content == recalled(
                old(self)@.history,
                final(self)@.index,
            ),
    {
        if self.history.is_empty() {
            return ;
        }
        let len: usize = self.history.len();
        let new_index: usize = if self.index_of_history == 0 {
            0
        } else {
            self.index_of_history - 1
        };
        self.index_of_history = new_index;
        let entry = self.history[len - 1 - new_index].clone();
        self.content = entry;
    }

    /// The live content, for rendering.
    pub fn content(&self) -> (r: &String)
        ensures
            r@ == self@.content,
    {
        &self.content
    }

    /// How many commands have been committed.
    pub fn history_len(&self) -> (r: usize)
        ensures
            r == self@.history.len(),
    {
        self.history.len()
    }

    /// The current cursor position.
    pub fn history_index(&self) -> (r: usize)
        ensures
            r == self@.index,
    {
        self.index_of_history
    }

    /// The `i`-th committed command, oldest first.
    pub fn history_at(&self, i: usize) -> (r: &String)
        requires
            i < self@.history.len(),
        ensures
            r@ == self@.history[i as int],
    {
        &self.history[i]
    }
}

/// The command input widget: a prompt to draw before the live content.
#[derive(Clone)]
pub struct CommandInput {
    prompt: String,
}

impl View for CommandInput {
    type V = Seq<char>;

    closed spec fn view(&self) -> Seq<char> {
        self.prompt@
    }
}

impl Default for CommandInput {
    /// A widget with an empty prompt.
    fn default() -> (r: Self)
        ensures
            r@ =~= Seq::<char>::empty(),
    {
        CommandInput { prompt: String::new() }
    }
}

impl CommandInput {
    /// Set the prompt that is drawn before the live content.
    pub fn prompt(&mut self, prompt: &str)
        ensures
            final(self)@ == prompt@,
    {
        self.prompt = prompt.to_owned();
    }

    /// The prompt text, for rendering.
    pub fn prompt_text(&self) -> (r: &String)
        ensures
            r@ == self@,
    {
        &self.prompt
    }

    /// The one line the input widget draws: the prompt followed by the live
    /// content.
    pub fn rendered_line(&self, state: &CommandInputState) -> (r: String)
        ensures
            r@ == self@ + state@.content,
    {
        let mut line = self.prompt.clone();
        line.append(state.content.as_str());
        line
    }
}

/// Folding `add_char` over the characters of `s`, starting from `content`.
pub open spec fn append_all(content: Seq<char>, s: Seq<char>) -> Seq<char>
    decreases s.len(),
{
    if s.len() == 0 {
        content
    } else {
        append_all(content.push(s.first()), s.drop_first())
    }
}

pub proof fn lemma_append_all(content: Seq<char>, s: Seq<char>)
    ensures
        append_all(content, s) == content + s,
    decreases s.len(),
{
    if s.len() == 0 {
        assert(content + s =~= content);
    } else {
        lemma_append_all(content.push(s.first()), s.drop_first());
        assert(content.push(s.first()) + s.drop_first() =~= content + s);
    }
}

/// History commit law: appending exactly the characters of `s` to an empty
/// line builds the content `s`; by `enter`'s contract, committing then
/// returns `s`, pushes `s` onto the history, and leaves the content empty.
pub proof fn lemma_commit_after_appends(s: Seq<char>)
    ensures
        append_all(Seq::<char>::empty(), s) == s,
{
    lemma_append_all(Seq::<char>::empty(), s);
    assert(Seq::<char>::empty() + s =~= s);
}

/// Navigation clamp law: stepping back never passes the oldest entry
/// (cursor `len - 1`), stepping forward never passes the most recent
/// (cursor `0`), both keep the cursor inside the history, and on an empty
/// history both leave the cursor unchanged.
pub proof fn lemma_navigation_clamps(index: nat, len: nat)
    requires
        len == 0 ==> index == 0,
        len > 0 ==> index < len,
    ensures
        len > 0 ==> back_index(index, len) < len,
        len > 0 ==> forward_index(index, len) < len,
        len > 0 ==> back_index((len - 1) as nat, len) == len - 1,
        forward_index(0, len) == 0,
        len == 0 ==> back_index(index, len) == index && forward_index(index, len) == index,
{
}

} // verus!
