//! The console state bundle and the event-driven engine around it: one
//! struct owns the buffer, scrollback, history, prediction cache and
//! completion selection, and every key/edit action is a synchronous, total
//! transition on it.  Submission tokenizes the buffer, commits it to
//! history and resolves the first word against the command table, emitting
//! a structured event or an error line on the scrollback.

use vstd::prelude::*;

use crate::buffer::InputBuffer;
use crate::history::HistoryLedger;
use crate::index::{is_prediction_list, CompletionIndex};
use crate::predict::{buffer_hash, compute_hash, spec_cycle, PredictionCache};
use crate::text::{join_spaces, join_words, lines_view, string_of};
use crate::tokenize::{shell_words, split_words};

verus! {

/// A submitted line resolved to a registered command: the command's name
/// and the remaining words as raw arguments.
pub struct ConsoleCommandEntered {
    pub command_name: String,
    pub args: Vec<String>,
}

/// A request to append one line to the scrollback log.
pub struct PrintConsoleLine {
    pub line: String,
}

impl PrintConsoleLine {
    /// Creates a new console line to print.
    pub fn new(line: String) -> (r: PrintConsoleLine)
        ensures
            r.line@ == line@,
    {
        PrintConsoleLine { line }
    }
}

/// Whether the console is shown and receiving input.
pub struct ConsoleOpen {
    pub open: bool,
}

/// The options the hosting application configures before first use.
pub struct ConsoleConfiguration {
    /// Maximum number of prior entries the history retains.
    pub history_size: usize,
    /// Maximum number of predictions shown.
    pub num_suggestions: usize,
    /// Line prefix symbol, display-only.
    pub symbol: String,
    /// Literal multi-word completion phrases merged into the index.
    pub arg_completions: Vec<Vec<String>>,
}

impl Default for ConsoleConfiguration {
    /// The defaults: 20 history entries, 4 suggestions, a `"$ "` prompt,
    /// no extra completion phrases.
    fn default() -> (r: ConsoleConfiguration)
        ensures
            r.history_size == 20,
            r.num_suggestions == 4,
            r.symbol@ == "$ "@,
            r.arg_completions@.len() == 0,
    {
        ConsoleConfiguration {
            history_size: 20,
            num_suggestions: 4,
            symbol: "$ ".to_owned(),
            arg_completions: Vec::new(),
        }
    }
}

/// One console session's mutable state, owned by the host's update cycle
/// and passed by exclusive reference into each event-handling call.
pub struct ConsoleState {
    pub buffer: InputBuffer,
    pub scrollback: Vec<String>,
    pub history: HistoryLedger,
    pub cache: PredictionCache,
    pub suggestion_index: Option<usize>,
}

impl ConsoleState {
    /// The buffer and history are well formed and any highlighted
    /// prediction actually exists.
    pub open spec fn wf(self) -> bool {
        &&& self.buffer.wf()
        &&& self.history.wf()
        &&& match self.suggestion_index {
            Some(i) => i < self.cache.predictions@.len(),
            None => true,
        }
    }

    /// A fresh console: empty buffer, empty scrollback, only the draft
    /// slot in history, nothing cached, nothing selected.
    pub fn new() -> (r: ConsoleState)
        ensures
            r.wf(),
            r.buffer@.len() == 0,
            r.buffer.cursor == 0,
            r.scrollback@.len() == 0,
            r.history@ =~= seq![Seq::<char>::empty()],
            r.history.cursor == 0,
            r.cache.key is None,
            r.cache.predictions@.len() == 0,
            !r.cache.exact_match,
            r.suggestion_index is None,
    {
        ConsoleState {
            buffer: InputBuffer::new(),
            scrollback: Vec::new(),
            history: HistoryLedger::new(),
            cache: PredictionCache::new(),
            suggestion_index: None,
        }
    }

    /// The buffer text, for the presentation layer's render snapshot.
    pub fn buffer_text(&self) -> (r: String)
        ensures
            r@ == self.buffer@,
    {
        string_of(&self.buffer.chars)
    }

    /// The caret position in character units.
    pub fn cursor(&self) -> (r: usize)
        ensures
            r == self.buffer.cursor,
    {
        self.buffer.cursor
    }

    /// The current prediction list.
    pub fn predictions(&self) -> (r: &Vec<String>)
        ensures
            r@ == self.cache.predictions@,
    {
        &self.cache.predictions
    }

    /// The highlighted prediction, if any.
    pub fn selected(&self) -> (r: Option<usize>)
        ensures
            r == self.suggestion_index,
    {
        self.suggestion_index
    }

    /// The scrollback log, oldest line first.
    pub fn scrollback_lines(&self) -> (r: &Vec<String>)
        ensures
            r@ == self.scrollback@,
    {
        &self.scrollback
    }

    /// Empties the scrollback log, leaving everything else in place.
    pub fn clear_scrollback(&mut self)
        ensures
            final(self).scrollback@ == Seq::<String>::empty(),
            final(self).buffer == old(self).buffer,
            final(self).history == old(self).history,
            final(self).cache == old(self).cache,
            final(self).suggestion_index == old(self).suggestion_index,
    {
        self.scrollback.clear();
    }

    /// Appends one line to the scrollback log; this is how externally
    /// requested prints and the console's own messages merge into one
    /// ordered sequence.
    pub fn push_line(&mut self, line: String)
        ensures
            final(self).scrollback@ == old(self).scrollback@.push(line),
            final(self).buffer == old(self).buffer,
            final(self).history == old(self).history,
            final(self).cache == old(self).cache,
            final(self).suggestion_index == old(self).suggestion_index,
    {
        self.scrollback.push(line);
    }
}

impl Default for ConsoleState {
    /// Same as [`ConsoleState::new`].
    fn default() -> (r: ConsoleState)
        ensures
            r.wf(),
            r.buffer@.len() == 0,
            r.scrollback@.len() == 0,
            r.history@ =~= seq![Seq::<char>::empty()],
            r.suggestion_index is None,
    {
        ConsoleState::new()
    }
}

/// A key identity as the front end reports it: either a named key or a
/// platform scan code.
#[derive(Clone, Copy, PartialEq, Eq, Structural)]
pub enum ConsoleKey {
    Named(u32),
    Native(u32),
}

/// Whether a key event should toggle the console: the key must be pressed
/// and must be one of the configured toggle keys.
pub fn console_key_pressed(pressed: bool, key: ConsoleKey, configured_keys: &Vec<ConsoleKey>) -> (r:
    bool)
    ensures
        r == (pressed && configured_keys@.contains(key)),
{
    if !pressed {
        return false;
    }
    let mut i: usize = 0;
    while i < configured_keys.len()
        invariant
            pressed,
            i <= configured_keys@.len(),
            forall|j: int| 0 <= j < i ==> configured_keys@[j] != key,
        decreases configured_keys@.len() - i,
    {
        if configured_keys[i] == key {
            proof {
                assert(configured_keys@[i as int] == key);
                assert(configured_keys@.contains(key));
            }
            return true;
        }
        i = i + 1;
    }
    false
}

/// The completion-index contents the engine is working against, if the
/// index has been built.
pub open spec fn entries_of(index: Option<&CompletionIndex>) -> Option<Set<Seq<char>>> {
    match index {
        Some(i) => Some(i@),
        None => None,
    }
}

/// How one recompute changes the prediction cache.  An empty buffer clears
/// it; a buffer whose hash matches the stored key leaves it untouched;
/// otherwise the buffer is tokenized, normalized by joining the words with
/// single spaces, and the index is queried for the entries extending that
/// normalized query.
pub open spec fn cache_after_recompute(
    pre: PredictionCache,
    post: PredictionCache,
    buf: Seq<char>,
    entries: Option<Set<Seq<char>>>,
    n: int,
) -> bool {
    if buf.len() == 0 {
        &&& post.key is None
        &&& post.predictions@.len() == 0
        &&& !post.exact_match
    } else if pre.key == Some(buffer_hash(buf)) {
        post == pre
    } else {
        let q = join_spaces(shell_words(buf));
        &&& post.key == Some(buffer_hash(buf))
        &&& match entries {
            Some(es) => if q.len() > 0 {
                is_prediction_list(es, q, n, lines_view(post.predictions@))
            } else {
                post.predictions@.len() == 0
            },
            None => post.predictions@.len() == 0,
        }
        &&& post.exact_match == (post.predictions@.len() == 1 && post.predictions@[0]@ == buf)
    }
}

/// The completion selection after a recompute: it survives only a cache
/// hit; clearing or refilling the prediction list resets it.
pub open spec fn sel_after_recompute(sel: Option<usize>, key: Option<u64>, buf: Seq<char>) -> Option<
    usize,
> {
    if buf.len() > 0 && key == Some(buffer_hash(buf)) {
        sel
    } else {
        None
    }
}

/// Recomputes the predictions for the current buffer, lazily: a buffer
/// whose hash matches the cache key is a hit and nothing changes.
pub fn recompute_predictions(
    state: &mut ConsoleState,
    index: Option<&CompletionIndex>,
    num_suggestions: usize,
)
    requires
        old(state).wf(),
    ensures
        final(state).wf(),
        final(state).buffer == old(state).buffer,
        final(state).history == old(state).history,
        final(state).scrollback == old(state).scrollback,
        cache_after_recompute(
            old(state).cache,
            final(state).cache,
            old(state).buffer@,
            entries_of(index),
            num_suggestions as int,
        ),
        final(state).suggestion_index == sel_after_recompute(
            old(state).suggestion_index,
            old(state).cache.key,
            old(state).buffer@,
        ),
{
    if state.buffer.char_count() == 0 {
        state.cache.reset();
        state.suggestion_index = None;
        return ;
    }
    let h = compute_hash(&state.buffer.chars);
    let hit = match state.cache.key {
        Some(k) => k == h,
        None => false,
    };
    if hit {
        return ;
    }
    let text = string_of(&state.buffer.chars);
    let words = split_words(text.as_str());
    let query = join_words(&words);
    let mut predictions: Vec<String> = Vec::new();
    if let Some(idx) = index {
        if !query.as_str().is_empty() {
            predictions = idx.search(&query, num_suggestions);
        }
    }
    let exact = predictions.len() == 1 && predictions[0].eq(&text);
    state.cache.predictions = predictions;
    state.cache.key = Some(h);
    state.cache.exact_match = exact;
    state.suggestion_index = None;
}

/// One completion-trigger press: with predictions available and no exact
/// match to suppress it, the selection advances cyclically; the buffer is
/// never altered.
pub fn cycle_selection(state: &mut ConsoleState)
    requires
        old(state).wf(),
    ensures
        final(state).wf(),
        final(state).buffer == old(state).buffer,
        final(state).history == old(state).history,
        final(state).scrollback == old(state).scrollback,
        final(state).cache == old(state).cache,
        final(state).suggestion_index == if old(state).cache.predictions@.len() > 0 && !old(state).cache.exact_match {
            spec_cycle(
                old(state).suggestion_index,
                old(state).cache.predictions@.len() as usize,
            )
        } else {
            old(state).suggestion_index
        },
{
    let n = state.cache.predictions.len();
    if n > 0 && !state.cache.exact_match {
        state.suggestion_index = match state.suggestion_index {
            None => Some(0),
            Some(i) => Some((i + 1) % n),
        };
    }
}

/// Whether a submit is intercepted to accept the highlighted prediction:
/// something is selected, it exists, and it is not an exact match of the
/// buffer (which would offer nothing new).
pub open spec fn accepts_completion(pre: ConsoleState) -> bool {
    match pre.suggestion_index {
        Some(i) => i < pre.cache.predictions@.len() && !pre.cache.exact_match,
        None => false,
    }
}

/// The submit transition.  With a live selection the buffer is replaced by
/// the selected prediction and nothing is dispatched this round.  A blank
/// line only appends one blank scrollback line and clears the buffer.
/// Anything else is committed to history and tokenized: a registered first
/// word dispatches a command event, an unregistered one reports an invalid
/// command on the scrollback, an empty word list does neither.  The buffer
/// is cleared and the selection reset in every non-intercepted case.
pub open spec fn submit_post(
    pre: ConsoleState,
    post: ConsoleState,
    r: Option<ConsoleCommandEntered>,
    commands: Set<Seq<char>>,
    size: nat,
) -> bool {
    let b = pre.buffer@;
    if accepts_completion(pre) {
        let i = pre.suggestion_index->0;
        &&& r is None
        &&& post.buffer@ == pre.cache.predictions@[i as int]@
        &&& post.buffer.cursor == post.buffer@.len()
        &&& post.suggestion_index is None
        &&& post.history == pre.history
        &&& post.scrollback == pre.scrollback
        &&& post.cache == pre.cache
    } else if crate::text::is_blank(b) {
        &&& r is None
        &&& lines_view(post.scrollback@) == lines_view(pre.scrollback@).push(
            Seq::<char>::empty(),
        )
        &&& post.history == pre.history
        &&& post.buffer@.len() == 0
        &&& post.buffer.cursor == 0
        &&& post.suggestion_index is None
        &&& post.cache == pre.cache
    } else {
        let toks = shell_words(b);
        &&& post.history@ == crate::history::spec_commit(pre.history@, b, size)
        &&& post.history.cursor == 0
        &&& post.buffer@.len() == 0
        &&& post.buffer.cursor == 0
        &&& post.suggestion_index is None
        &&& post.cache == pre.cache
        &&& if toks.len() == 0 {
            r is None && post.scrollback == pre.scrollback
        } else if commands.contains(toks[0]) {
            match r {
                Some(e) => e.command_name@ == toks[0] && lines_view(e.args@)
                    == toks.drop_first() && post.scrollback == pre.scrollback,
                None => false,
            }
        } else {
            r is None && lines_view(post.scrollback@) == lines_view(pre.scrollback@).push(
                "error: Invalid command"@,
            )
        }
    }
}

/// Resolves an already-tokenized line: the first word names the command,
/// the rest are its arguments.  An unregistered name reports an invalid
/// command on the scrollback; an empty word list does nothing.
pub fn dispatch_tokens(
    state: &mut ConsoleState,
    table: &crate::command_table::CommandTable,
    tokens: Vec<String>,
) -> (r: Option<ConsoleCommandEntered>)
    requires
        old(state).wf(),
    ensures
        final(state).wf(),
        final(state).buffer == old(state).buffer,
        final(state).history == old(state).history,
        final(state).cache == old(state).cache,
        final(state).suggestion_index == old(state).suggestion_index,
        tokens@.len() == 0 ==> r is None && final(state).scrollback == old(state).scrollback,
        tokens@.len() > 0 && table@.contains(tokens@[0]@) ==> (match r {
            Some(e) => e.command_name@ == tokens@[0]@ && lines_view(e.args@) == lines_view(
                tokens@,
            ).drop_first() && final(state).scrollback == old(state).scrollback,
            None => false,
        }),
        tokens@.len() > 0 && !table@.contains(tokens@[0]@) ==> r is None && lines_view(
            final(state).scrollback@,
        ) == lines_view(old(state).scrollback@).push("error: Invalid command"@),
{
    if tokens.len() == 0 {
        return None;
    }
    let ghost toks = tokens@;
    let mut args = tokens;
    let command_name = args.remove(0);
    proof {
        assert(lines_view(args@) =~= lines_view(toks).drop_first());
    }
    if table.contains(&command_name) {
        Some(ConsoleCommandEntered { command_name, args })
    } else {
        let ghost sb = state.scrollback@;
        state.scrollback.push("error: Invalid command".to_owned());
        proof {
            assert(lines_view(state.scrollback@) =~= lines_view(sb).push(
                "error: Invalid command"@,
            ));
        }
        None
    }
}

/// Submits the buffer: accepts a highlighted prediction instead when one
/// is selected, otherwise advances the scrollback for a blank line or
/// commits, tokenizes and dispatches a real one.
pub fn submit(
    state: &mut ConsoleState,
    config: &ConsoleConfiguration,
    table: &crate::command_table::CommandTable,
) -> (r: Option<ConsoleCommandEntered>)
    requires
        old(state).wf(),
    ensures
        final(state).wf(),
        submit_post(*old(state), *final(state), r, table@, config.history_size as nat),
{
    if let Some(i) = state.suggestion_index {
        if i < state.cache.predictions.len() && !state.cache.exact_match {
            let chosen = crate::text::chars_of(state.cache.predictions[i].as_str());
            state.buffer.set_text_end(chosen);
            state.suggestion_index = None;
            return None;
        }
    }
    if crate::text::blank_chars(&state.buffer.chars) {
        let ghost sb = state.scrollback@;
        state.scrollback.push(String::new());
        state.buffer.clear();
        state.suggestion_index = None;
        proof {
            assert(lines_view(state.scrollback@) =~= lines_view(sb).push(Seq::<char>::empty()));
        }
        return None;
    }
    let live = string_of(&state.buffer.chars);
    state.history.commit(live.clone(), config.history_size);
    let tokens = split_words(live.as_str());
    let r = dispatch_tokens(state, table, tokens);
    state.buffer.clear();
    state.suggestion_index = None;
    r
}

/// Walks one entry up into history, snapshotting a non-blank live edit
/// into the draft slot first and loading the older entry into the buffer
/// with the caret at its end; a no-op at the oldest entry.
pub fn history_older(state: &mut ConsoleState)
    requires
        old(state).wf(),
    ensures
        final(state).wf(),
        final(state).scrollback == old(state).scrollback,
        final(state).cache == old(state).cache,
        final(state).suggestion_index == old(state).suggestion_index,
        ({
            let (e, c, loaded) = crate::history::spec_older(
                old(state).history@,
                old(state).history.cursor as nat,
                old(state).buffer@,
            );
            &&& final(state).history@ == e
            &&& final(state).history.cursor as nat == c
            &&& match loaded {
                Some(t) => final(state).buffer@ == t && final(state).buffer.cursor == t.len(),
                None => final(state).buffer == old(state).buffer,
            }
        }),
{
    let live = string_of(&state.buffer.chars);
    match state.history.older(&live) {
        Some(entry) => {
            let chars = crate::text::chars_of(entry.as_str());
            state.buffer.set_text_end(chars);
        },
        None => {},
    }
}

/// Walks one entry back towards the live slot, loading it into the buffer
/// with the caret at its end; a no-op when already there.
pub fn history_newer(state: &mut ConsoleState)
    requires
        old(state).wf(),
    ensures
        final(state).wf(),
        final(state).scrollback == old(state).scrollback,
        final(state).cache == old(state).cache,
        final(state).suggestion_index == old(state).suggestion_index,
        final(state).history@ == old(state).history@,
        ({
            let (c, loaded) = crate::history::spec_newer(
                old(state).history@,
                old(state).history.cursor as nat,
            );
            &&& final(state).history.cursor as nat == c
            &&& match loaded {
                Some(t) => final(state).buffer@ == t && final(state).buffer.cursor == t.len(),
                None => final(state).buffer == old(state).buffer,
            }
        }),
{
    match state.history.newer() {
        Some(entry) => {
            let chars = crate::text::chars_of(entry.as_str());
            state.buffer.set_text_end(chars);
        },
        None => {},
    }
}

/// The discrete edit/key actions the presentation layer feeds the engine.
pub enum Action {
    InsertChar(char),
    Backspace,
    MoveLeft,
    MoveRight,
    HistoryOlder,
    HistoryNewer,
    CompletionCycle,
    Submit,
    Clear,
}

/// Everything but the buffer is untouched.
pub open spec fn only_buffer_changed(pre: ConsoleState, post: ConsoleState) -> bool {
    &&& post.scrollback == pre.scrollback
    &&& post.history == pre.history
    &&& post.cache == pre.cache
    &&& post.suggestion_index == pre.suggestion_index
}

/// Applies one action to the console state: the single state-transition
/// entry point a front end drives, one call per delivered event.
pub fn apply_action(
    state: &mut ConsoleState,
    config: &ConsoleConfiguration,
    table: &crate::command_table::CommandTable,
    index: Option<&CompletionIndex>,
    action: Action,
) -> (r: Option<ConsoleCommandEntered>)
    requires
        old(state).wf(),
        action is InsertChar ==> old(state).buffer@.len() < usize::MAX,
    ensures
        final(state).wf(),
        match action {
            Action::InsertChar(c) => r is None && only_buffer_changed(*old(state), *final(state))
                && final(state).buffer@ == old(state).buffer@.insert(
                old(state).buffer.cursor as int,
                c,
            ) && final(state).buffer.cursor == old(state).buffer.cursor + 1,
            Action::Backspace => r is None && only_buffer_changed(*old(state), *final(state)) && (
            if old(state).buffer.cursor == 0 {
                final(state).buffer@ == old(state).buffer@ && final(state).buffer.cursor == old(
                    state,
                ).buffer.cursor
            } else {
                final(state).buffer@ == old(state).buffer@.remove(old(state).buffer.cursor - 1)
                    && final(state).buffer.cursor == old(state).buffer.cursor - 1
            }),
            Action::MoveLeft => r is None && only_buffer_changed(*old(state), *final(state))
                && final(state).buffer@ == old(state).buffer@ && final(state).buffer.cursor
                == crate::buffer::step_left(old(state).buffer.cursor as nat),
            Action::MoveRight => r is None && only_buffer_changed(*old(state), *final(state))
                && final(state).buffer@ == old(state).buffer@ && final(state).buffer.cursor
                == crate::buffer::step_right(
                old(state).buffer.cursor as nat,
                old(state).buffer@.len(),
            ),
            Action::HistoryOlder => r is None && final(state).scrollback == old(state).scrollback
                && final(state).cache == old(state).cache && final(state).suggestion_index == old(state).suggestion_index && ({
                let (e, c, loaded) = crate::history::spec_older(
                    old(state).history@,
                    old(state).history.cursor as nat,
                    old(state).buffer@,
                );
                &&& final(state).history@ == e
                &&& final(state).history.cursor as nat == c
                &&& match loaded {
                    Some(t) => final(state).buffer@ == t && final(state).buffer.cursor == t.len(),
                    None => final(state).buffer == old(state).buffer,
                }
            }),
            Action::HistoryNewer => r is None && final(state).scrollback == old(state).scrollback
                && final(state).cache == old(state).cache && final(state).suggestion_index == old(state).suggestion_index && final(state).history@ == old(state).history@ && ({
                let (c, loaded) = crate::history::spec_newer(
                    old(state).history@,
                    old(state).history.cursor as nat,
                );
                &&& final(state).history.cursor as nat == c
                &&& match loaded {
                    Some(t) => final(state).buffer@ == t && final(state).buffer.cursor == t.len(),
                    None => final(state).buffer == old(state).buffer,
                }
            }),
            Action::CompletionCycle => r is None && final(state).buffer == old(state).buffer
                && final(state).history == old(state).history && final(state).scrollback == old(state).scrollback && cache_after_recompute(
                old(state).cache,
                final(state).cache,
                old(state).buffer@,
                entries_of(index),
                config.num_suggestions as int,
            ) && ({
                let sel_mid = sel_after_recompute(
                    old(state).suggestion_index,
                    old(state).cache.key,
                    old(state).buffer@,
                );
                final(state).suggestion_index == if final(state).cache.predictions@.len() > 0
                    && !final(state).cache.exact_match {
                    spec_cycle(sel_mid, final(state).cache.predictions@.len() as usize)
                } else {
                    sel_mid
                }
            }),
            Action::Submit => submit_post(
                *old(state),
                *final(state),
                r,
                table@,
                config.history_size as nat,
            ),
            Action::Clear => r is None && final(state).buffer@.len() == 0 && final(state).buffer.cursor == 0 && final(state).suggestion_index is None && final(state).scrollback
                == old(state).scrollback && final(state).history == old(state).history && final(state).cache == old(state).cache,
        },
{
    match action {
        Action::InsertChar(c) => {
            state.buffer.insert_char(c);
            None
        },
        Action::Backspace => {
            let _ = state.buffer.delete_before_cursor();
            None
        },
        Action::MoveLeft => {
            state.buffer.move_left();
            None
        },
        Action::MoveRight => {
            state.buffer.move_right();
            None
        },
        Action::HistoryOlder => {
            history_older(state);
            None
        },
        Action::HistoryNewer => {
            history_newer(state);
            None
        },
        Action::CompletionCycle => {
            recompute_predictions(state, index, config.num_suggestions);
            cycle_selection(state);
            None
        },
        Action::Submit => submit(state, config, table),
        Action::Clear => {
            state.buffer.clear();
            state.suggestion_index = None;
            None
        },
    }
}

/// Prediction cache coherence: recomputing twice for the same buffer
/// yields an identical prediction list, an unchanged key and an unchanged
/// selection — the second recompute is a cache hit and changes nothing.
pub proof fn lemma_recompute_idempotent(
    c1: PredictionCache,
    c2: PredictionCache,
    c3: PredictionCache,
    s1: Option<usize>,
    s2: Option<usize>,
    s3: Option<usize>,
    buf: Seq<char>,
    entries: Option<Set<Seq<char>>>,
    n: int,
)
    requires
        cache_after_recompute(c1, c2, buf, entries, n),
        s2 == sel_after_recompute(s1, c1.key, buf),
        cache_after_recompute(c2, c3, buf, entries, n),
        s3 == sel_after_recompute(s2, c2.key, buf),
    ensures
        c3.key == c2.key,
        lines_view(c3.predictions@) == lines_view(c2.predictions@),
        c3.exact_match == c2.exact_match,
        s3 == s2,
{
    if buf.len() == 0 {
        assert(lines_view(c3.predictions@) =~= lines_view(c2.predictions@));
    }
}

/// Toggles the console when its key is pressed, unless the console is
/// closed and another widget is capturing keyboard input.
pub fn toggle_open(open: &mut ConsoleOpen, pressed: bool, typing_elsewhere: bool)
    ensures
        final(open).open == if pressed && (old(open).open || !typing_elsewhere) {
            !old(open).open
        } else {
            old(open).open
        },
{
    if pressed && (open.open || !typing_elsewhere) {
        open.open = !open.open;
    }
}

} // verus!
