//! The parser state: a cursor over the tokens, the edits of the syntax tree
//! under construction, the syntax errors, and the token buffers.
//!
//! The syntax tree is recorded as a sequence of [`Event`]s (open a node, add
//! a token, close a node) in the order in which a tree builder receives them.
use std::ops::Range;
use vstd::prelude::*;

use crate::lexer::{tokens_text, Token, TokenType, TokenView};
use crate::message::{expected_kind_text, expected_message, expected_token_text, token_debug};
use crate::syntax_kind::SyntaxKind;
use crate::text::{TextRange, TextSize};

verus! {

/// Whether the parser skips tokens of this kind when it looks ahead past
/// whitespace.
pub open spec fn is_whitespace_kind(kind: SyntaxKind) -> bool {
    ||| kind == SyntaxKind::Whitespace
    ||| kind == SyntaxKind::Tab
    ||| kind == SyntaxKind::Newline
    ||| kind == SyntaxKind::SqlComment
}

/// Whether the parser skips tokens of this kind when it looks ahead past
/// whitespace.
pub fn is_whitespace_token_kind(kind: SyntaxKind) -> (r: bool)
    ensures
        r == is_whitespace_kind(kind),
{
    kind == SyntaxKind::Whitespace || kind == SyntaxKind::Tab || kind == SyntaxKind::Newline
        || kind == SyntaxKind::SqlComment
}

/// An edit of the syntax tree under construction.
#[derive(Debug, PartialEq, Eq)]
pub enum Event {
    /// Open a node of this kind.
    StartNode(SyntaxKind),
    /// Add a token of this kind and text to the open node.
    Token(SyntaxKind, String),
    /// Close the innermost open node.
    FinishNode,
}

/// An [`Event`] with its text as characters.
pub ghost enum EventView {
    StartNode(SyntaxKind),
    Token(SyntaxKind, Seq<char>),
    FinishNode,
}

impl View for Event {
    type V = EventView;

    open spec fn view(&self) -> EventView {
        match self {
            Event::StartNode(k) => EventView::StartNode(*k),
            Event::Token(k, t) => EventView::Token(*k, t@),
            Event::FinishNode => EventView::FinishNode,
        }
    }
}

impl Clone for Event {
    fn clone(&self) -> (r: Self)
        ensures
            r@ == self@,
    {
        match self {
            Event::StartNode(k) => Event::StartNode(*k),
            Event::Token(k, t) => Event::Token(*k, t.clone()),
            Event::FinishNode => Event::FinishNode,
        }
    }
}

/// A syntax error: a message and the range of the text it is about.
#[derive(Debug, PartialEq, Eq)]
pub struct SyntaxError {
    pub message: String,
    pub range: TextRange,
}

/// A [`SyntaxError`] with its message as characters.
pub ghost struct SyntaxErrorView {
    pub message: Seq<char>,
    pub range: TextRange,
}

impl View for SyntaxError {
    type V = SyntaxErrorView;

    open spec fn view(&self) -> SyntaxErrorView {
        SyntaxErrorView { message: self.message@, range: self.range }
    }
}

impl SyntaxError {
    /// An error with `message` about `range`.
    pub fn new(message: String, range: TextRange) -> (r: SyntaxError)
        ensures
            r@ == (SyntaxErrorView { message: message@, range }),
    {
        SyntaxError { message, range }
    }

    /// An error with `message` about the empty range at `offset`.
    pub fn new_at_offset(message: String, offset: TextSize) -> (r: SyntaxError)
        ensures
            r@ == (SyntaxErrorView { message: message@, range: TextRange { start: offset, end: offset } }),
    {
        SyntaxError { message, range: TextRange::empty(offset) }
    }
}

/// What a parse yields: the edits of the syntax tree, in order, and the
/// syntax errors.
pub struct Parse {
    pub events: Vec<Event>,
    pub errors: Vec<SyntaxError>,
}

/// The parser over a list of tokens.
pub struct Parser {
    /// The edits of the syntax tree so far.
    pub events: Vec<Event>,
    /// The syntax errors so far.
    pub errors: Vec<SyntaxError>,
    /// The tokens to parse.
    pub tokens: Vec<Token>,
    /// The current position in the tokens.
    pub pos: usize,
    /// The index from which whitespace tokens are held back.
    pub whitespace_token_buffer: Option<usize>,
    /// The index from which tokens are buffered: while it is set, no token
    /// reaches the tree.
    pub token_buffer: Option<usize>,
    /// The number of open nodes.
    pub depth: usize,
    /// The token seen past the last token.
    pub eof_token: Token,
}

/// The part of the parser state that parsing changes.
pub ghost struct ParserState {
    pub events: Seq<EventView>,
    pub errors: Seq<SyntaxErrorView>,
    pub pos: int,
    pub whitespace_token_buffer: Option<int>,
    pub token_buffer: Option<int>,
    pub depth: int,
}

/// The token events for `tokens[from..to]` (none when `to <= from`).
pub open spec fn token_events(tokens: Seq<TokenView>, from: int, to: int) -> Seq<EventView> {
    Seq::new(
        if from < to { (to - from) as nat } else { 0 },
        |i: int| EventView::Token(tokens[from + i].kind, tokens[from + i].text),
    )
}

/// The state after the held-back whitespace tokens are released: they reach
/// the tree unless a token buffer is open.
pub open spec fn flushed(tokens: Seq<TokenView>, s: ParserState) -> ParserState {
    match s.whitespace_token_buffer {
        None => s,
        Some(w) => ParserState {
            events: if s.token_buffer is None {
                s.events + token_events(tokens, w, s.pos)
            } else {
                s.events
            },
            whitespace_token_buffer: None,
            ..s
        },
    }
}

/// The state after one step over the current token: a whitespace token is
/// held back, any other token releases the held-back ones and reaches the
/// tree itself, unless a token buffer is open.
pub open spec fn advanced(tokens: Seq<TokenView>, s: ParserState) -> ParserState {
    if tokens[s.pos].kind == SyntaxKind::Whitespace {
        ParserState {
            whitespace_token_buffer: if s.whitespace_token_buffer is None {
                Some(s.pos)
            } else {
                s.whitespace_token_buffer
            },
            pos: s.pos + 1,
            ..s
        }
    } else {
        let f = flushed(tokens, s);
        ParserState {
            events: if f.token_buffer is None {
                f.events.push(EventView::Token(tokens[s.pos].kind, tokens[s.pos].text))
            } else {
                f.events
            },
            pos: s.pos + 1,
            ..f
        }
    }
}

/// The state after `n` steps.
pub open spec fn advanced_n(tokens: Seq<TokenView>, s: ParserState, n: nat) -> ParserState
    decreases n,
{
    if n == 0 {
        s
    } else {
        advanced_n(tokens, advanced(tokens, s), (n - 1) as nat)
    }
}

/// The `k`-th token (from 0) at or after index `idx` whose kind is not
/// whitespace, or `eof` when there is none.
pub open spec fn nth_non_whitespace(tokens: Seq<TokenView>, eof: TokenView, idx: int, k: int) -> TokenView
    decreases tokens.len() - idx,
{
    if idx >= tokens.len() || idx < 0 {
        eof
    } else if is_whitespace_kind(tokens[idx].kind) {
        nth_non_whitespace(tokens, eof, idx + 1, k)
    } else if k <= 0 {
        tokens[idx]
    } else {
        nth_non_whitespace(tokens, eof, idx + 1, k - 1)
    }
}

/// The number of consecutive tokens from `idx` on whose class is whitespace.
pub open spec fn whitespace_run(tokens: Seq<TokenView>, idx: int) -> nat
    decreases tokens.len() - idx,
{
    if 0 <= idx < tokens.len() && tokens[idx].token_type == TokenType::Whitespace {
        1 + whitespace_run(tokens, idx + 1)
    } else {
        0
    }
}

/// The index of the token the error of an unmet expectation at `pos` is
/// placed on.
pub open spec fn error_index(n_tokens: int, pos: int) -> int {
    if n_tokens - 1 < pos {
        n_tokens - 1
    } else {
        pos
    }
}

/// The state after a node of `kind` is opened, once the held-back
/// whitespace is released.
pub open spec fn started(tokens: Seq<TokenView>, s: ParserState, kind: SyntaxKind) -> ParserState {
    let f = flushed(tokens, s);
    ParserState { events: f.events.push(EventView::StartNode(kind)), depth: f.depth + 1, ..f }
}

/// The state after the innermost open node is closed.
pub open spec fn finished(s: ParserState) -> ParserState {
    ParserState { events: s.events.push(EventView::FinishNode), depth: s.depth - 1, ..s }
}

/// The kind of the token at `pos` (the end token's past the last).
pub open spec fn kind_at(tokens: Seq<TokenView>, pos: int) -> SyntaxKind {
    if 0 <= pos < tokens.len() {
        tokens[pos].kind
    } else {
        SyntaxKind::Eof
    }
}

/// The state after an expectation of `kind`: a step over the current token
/// if it is of `kind`; else an error that names `kind` and what was found,
/// at the first held-back space or else past the current token.
pub open spec fn expected(tokens: Seq<TokenView>, eof: TokenView, s: ParserState, kind: SyntaxKind) -> ParserState {
    if kind_at(tokens, s.pos) == kind && 0 <= s.pos < tokens.len() {
        advanced(tokens, s)
    } else {
        let (message, at_pos) = match s.whitespace_token_buffer {
            Some(w) => (expected_message(kind, tokens[w].kind.debug_name_spec()), w),
            None => (
                expected_message(
                    kind,
                    token_debug(
                        if 0 <= s.pos < tokens.len() {
                            tokens[s.pos]
                        } else {
                            eof
                        },
                    ),
                ),
                s.pos + 1,
            ),
        };
        let at = tokens[error_index(tokens.len() as int, at_pos)].span.start;
        ParserState {
            errors: s.errors.push(SyntaxErrorView { message, range: TextRange { start: at, end: at } }),
            ..s
        }
    }
}

impl Parser {
    /// The tokens are not empty, the position and the token buffer lie within
    /// them, and the end token sits at the end of the last one.
    pub open spec fn wf(&self) -> bool {
        &&& self.tokens.len() > 0
        &&& self.pos <= self.tokens.len()
        &&& (self.token_buffer matches Some(b) ==> b <= self.tokens.len())
        &&& (self.whitespace_token_buffer matches Some(w) ==> w < self.tokens.len())
        &&& self.eof_token@ == crate::lexer::eof_token_view(self.tokens@.last().span.end)
    }

    /// The tokens as views.
    pub open spec fn views(&self) -> Seq<TokenView> {
        self.tokens@.map_values(|t: Token| t@)
    }

    /// The part of the state that parsing changes.
    pub open spec fn state(&self) -> ParserState {
        ParserState {
            events: self.events@.map_values(|e: Event| e@),
            errors: self.errors@.map_values(|e: SyntaxError| e@),
            pos: self.pos as int,
            whitespace_token_buffer: match self.whitespace_token_buffer {
                Some(w) => Some(w as int),
                None => None,
            },
            token_buffer: match self.token_buffer {
                Some(b) => Some(b as int),
                None => None,
            },
            depth: self.depth as int,
        }
    }

    /// The input: the tokens and the end token.
    pub open spec fn same_input(&self, other: &Parser) -> bool {
        self.tokens@ == other.tokens@ && self.eof_token == other.eof_token
    }

    /// A parser at the start of `tokens`, with an empty tree.
    pub fn new(tokens: Vec<Token>) -> (r: Parser)
        requires
            tokens.len() > 0,
        ensures
            r.wf(),
            r.tokens@ == tokens@,
            r.events@.len() == 0,
            r.errors@.len() == 0,
            r.pos == 0,
            r.whitespace_token_buffer is None,
            r.token_buffer is None,
            r.depth == 0,
    {
        let last = tokens.len() - 1;
        let end = tokens[last].span.end;
        Parser {
            eof_token: Token::eof(end),
            events: Vec::new(),
            errors: Vec::new(),
            tokens,
            pos: 0,
            whitespace_token_buffer: None,
            token_buffer: None,
            depth: 0,
        }
    }

    /// Whether all tokens have been passed.
    pub fn eof(&self) -> (r: bool)
        ensures
            r == (self.pos == self.tokens.len()),
    {
        self.pos == self.tokens.len()
    }

    /// The token `lookahead` places ahead; with `ignore_whitespace`, the
    /// `lookahead`-th token from here whose kind is not whitespace. Past the
    /// last token, the end token.
    pub fn nth(&self, lookahead: usize, ignore_whitespace: bool) -> (r: &Token)
        requires
            self.wf(),
        ensures
            ignore_whitespace ==> r@ == nth_non_whitespace(
                self.views(),
                self.eof_token@,
                self.pos as int,
                lookahead as int,
            ),
            !ignore_whitespace ==> *r == (if self.pos + lookahead < self.tokens.len() {
                self.tokens@[self.pos + lookahead]
            } else {
                self.eof_token
            }),
    {
        if ignore_whitespace {
            let mut idx: usize = self.pos;
            let mut counted: usize = 0;
            while idx < self.tokens.len()
                invariant
                    self.wf(),
                    ignore_whitespace,
                    self.pos <= idx <= self.tokens.len(),
                    counted <= lookahead,
                    nth_non_whitespace(self.views(), self.eof_token@, idx as int, lookahead - counted)
                        == nth_non_whitespace(
                        self.views(),
                        self.eof_token@,
                        self.pos as int,
                        lookahead as int,
                    ),
                decreases self.tokens.len() - idx,
            {
                let token = &self.tokens[idx];
                if !is_whitespace_token_kind(token.kind) {
                    if counted == lookahead {
                        return token;
                    }
                    counted = counted + 1;
                }
                idx = idx + 1;
            }
            &self.eof_token
        } else {
            if lookahead < self.tokens.len() - self.pos {
                &self.tokens[self.pos + lookahead]
            } else {
                &self.eof_token
            }
        }
    }

    /// Whether the current token is of `kind`.
    pub fn at(&self, kind: SyntaxKind) -> (r: bool)
        requires
            self.wf(),
        ensures
            r == (self.current_kind() == kind),
    {
        self.nth(0, false).kind == kind
    }

    /// The kind of the current token (the end token's past the last).
    pub open spec fn current_kind(&self) -> SyntaxKind {
        kind_at(self.views(), self.pos as int)
    }

    /// The kind of the token `idx` places ahead (the end token's past the
    /// last).
    pub open spec fn kind_ahead(&self, idx: int) -> SyntaxKind {
        if self.pos + idx < self.tokens.len() {
            self.tokens@[self.pos + idx].kind
        } else {
            SyntaxKind::Eof
        }
    }

    /// Whether the tokens from here on are of the `kinds`, one by one.
    pub open spec fn kinds_ahead(&self, kinds: Seq<SyntaxKind>) -> bool {
        forall|i: int| 0 <= i < kinds.len() ==> kinds[i] == self.kind_ahead(i)
    }

    /// Whether the current token is of any of `kinds`.
    pub fn at_any(&self, kinds: &[SyntaxKind]) -> (r: bool)
        requires
            self.wf(),
        ensures
            r == (exists|i: int| 0 <= i < kinds@.len() && kinds@[i] == self.current_kind()),
    {
        let mut i: usize = 0;
        while i < kinds.len()
            invariant
                self.wf(),
                i <= kinds@.len(),
                forall|j: int| 0 <= j < i ==> kinds@[j] != self.current_kind(),
            decreases kinds.len() - i,
        {
            if self.at(kinds[i]) {
                return true;
            }
            i = i + 1;
        }
        false
    }

    /// Whether the tokens from here on are of the `kinds`, one by one.
    pub fn at_all(&self, kinds: &[SyntaxKind]) -> (r: bool)
        requires
            self.wf(),
        ensures
            r == self.kinds_ahead(kinds@),
    {
        let mut i: usize = 0;
        while i < kinds.len()
            invariant
                self.wf(),
                i <= kinds@.len(),
                forall|j: int| 0 <= j < i ==> kinds@[j] == self.kind_ahead(j),
            decreases kinds.len() - i,
        {
            if self.nth(i, false).kind != kinds[i] {
                return false;
            }
            i = i + 1;
        }
        true
    }

    /// Whether the tokens from here on are, one by one, of the kinds of any
    /// of the lists in `kinds`.
    pub fn at_any_all(&self, kinds: &Vec<&[SyntaxKind]>) -> (r: bool)
        requires
            self.wf(),
        ensures
            r == (exists|l: int| 0 <= l < kinds@.len() && #[trigger] self.kinds_ahead(kinds@[l]@)),
    {
        let mut l: usize = 0;
        while l < kinds.len()
            invariant
                self.wf(),
                l <= kinds@.len(),
                forall|m: int| 0 <= m < l ==> !#[trigger] self.kinds_ahead(kinds@[m]@),
            decreases kinds.len() - l,
        {
            if self.at_all(kinds[l]) {
                return true;
            }
            l = l + 1;
        }
        false
    }

    /// Whether the current token is a space.
    pub fn at_whitespace(&self) -> (r: bool)
        requires
            self.wf(),
        ensures
            r == (self.current_kind() == SyntaxKind::Whitespace),
    {
        self.nth(0, false).kind == SyntaxKind::Whitespace
    }

    /// Releases the held-back whitespace tokens: they reach the tree unless a
    /// token buffer is open.
    pub fn flush_token_buffer(&mut self)
        requires
            old(self).wf(),
        ensures
            final(self).wf(),
            final(self).same_input(old(self)),
            final(self).state() == flushed(old(self).views(), old(self).state()),
    {
        let ghost s0 = self.state();
        let w0 = match self.whitespace_token_buffer {
            None => {
                return;
            },
            Some(w) => w,
        };
        let mut w = w0;
        while w < self.pos
            invariant
                self.wf(),
                self.tokens@ == old(self).tokens@,
                self.eof_token == old(self).eof_token,
                self.pos == old(self).pos,
                self.token_buffer == old(self).token_buffer,
                self.depth == old(self).depth,
                self.errors@ == old(self).errors@,
                w0 <= w,
                w0 < self.pos ==> w <= self.pos,
                w0 >= self.pos ==> w == w0,
                self.whitespace_token_buffer == Some(w0),
                self.events@.map_values(|e: Event| e@) == if self.token_buffer is None {
                    s0.events + token_events(self.views(), w0 as int, w as int)
                } else {
                    s0.events
                },
            decreases self.pos - w,
        {
            if self.token_buffer.is_none() {
                let token = &self.tokens[w];
                let e = Event::Token(token.kind, token.text.clone());
                let ghost before = self.events@;
                self.events.push(e);
                proof {
                    assert(self.events@.map_values(|e: Event| e@) =~= before.map_values(|e: Event| e@).push(
                        EventView::Token(self.tokens@[w as int].kind, self.tokens@[w as int].text@),
                    ));
                    assert(token_events(self.views(), w0 as int, w + 1) =~= token_events(
                        self.views(),
                        w0 as int,
                        w as int,
                    ).push(EventView::Token(self.tokens@[w as int].kind, self.tokens@[w as int].text@)));
                }
            }
            w = w + 1;
        }
        self.whitespace_token_buffer = None;
        proof {
            if w0 >= self.pos {
                assert(token_events(self.views(), w0 as int, w as int) =~= Seq::empty());
                assert(token_events(self.views(), w0 as int, self.pos as int) =~= Seq::empty());
            }
            assert(self.events@.map_values(|e: Event| e@) =~= flushed(old(self).views(), s0).events);
        }
    }

    /// Steps over the current token: a space is held back, any other token
    /// releases the held-back ones and reaches the tree itself, unless a
    /// token buffer is open.
    pub fn advance(&mut self)
        requires
            old(self).wf(),
            old(self).pos < old(self).tokens.len(),
        ensures
            final(self).wf(),
            final(self).same_input(old(self)),
            final(self).state() == advanced(old(self).views(), old(self).state()),
    {
        if self.nth(0, false).kind == SyntaxKind::Whitespace {
            if self.whitespace_token_buffer.is_none() {
                self.whitespace_token_buffer = Some(self.pos);
            }
        } else {
            self.flush_token_buffer();
            if self.token_buffer.is_none() {
                let token = &self.tokens[self.pos];
                let e = Event::Token(token.kind, token.text.clone());
                self.events.push(e);
            }
        }
        self.pos = self.pos + 1;
        proof {
            let s = advanced(old(self).views(), old(self).state());
            assert(self.events@.map_values(|e: Event| e@) =~= s.events);
        }
    }

    /// Steps over the current token if it is of `kind`; says whether it did.
    pub fn eat(&mut self, kind: SyntaxKind) -> (r: bool)
        requires
            old(self).wf(),
        ensures
            final(self).wf(),
            final(self).same_input(old(self)),
            r == (old(self).current_kind() == kind && old(self).pos < old(self).tokens.len()),
            final(self).state() == if r {
                advanced(old(self).views(), old(self).state())
            } else {
                old(self).state()
            },
    {
        if self.at(kind) && !self.eof() {
            self.advance();
            true
        } else {
            false
        }
    }

    /// Steps over the tokens whose class is whitespace.
    pub fn eat_whitespace(&mut self)
        requires
            old(self).wf(),
        ensures
            final(self).wf(),
            final(self).same_input(old(self)),
            final(self).state() == advanced_n(
                old(self).views(),
                old(self).state(),
                whitespace_run(old(self).views(), old(self).pos as int),
            ),
    {
        let ghost target = advanced_n(
            old(self).views(),
            old(self).state(),
            whitespace_run(old(self).views(), old(self).pos as int),
        );
        while self.nth(0, false).token_type == TokenType::Whitespace
            invariant
                self.wf(),
                self.same_input(old(self)),
                advanced_n(
                    self.views(),
                    self.state(),
                    whitespace_run(self.views(), self.pos as int),
                ) == target,
            decreases self.tokens.len() - self.pos,
        {
            proof {
                if self.pos >= self.tokens.len() {
                    assert(self.eof_token.token_type == TokenType::NoKeyword);
                }
            }
            self.advance();
        }
    }

    /// Opens a node of `kind`, after releasing the held-back whitespace.
    pub fn start_node(&mut self, kind: SyntaxKind)
        requires
            old(self).wf(),
            old(self).depth < usize::MAX,
        ensures
            final(self).wf(),
            final(self).same_input(old(self)),
            final(self).state() == started(old(self).views(), old(self).state(), kind),
    {
        self.flush_token_buffer();
        self.events.push(Event::StartNode(kind));
        self.depth = self.depth + 1;
        proof {
            let f = flushed(old(self).views(), old(self).state());
            assert(self.events@.map_values(|e: Event| e@) =~= f.events.push(EventView::StartNode(kind)));
        }
    }

    /// Closes the innermost open node.
    pub fn finish_node(&mut self)
        requires
            old(self).wf(),
            old(self).depth > 0,
        ensures
            final(self).wf(),
            final(self).same_input(old(self)),
            final(self).state() == finished(old(self).state()),
    {
        self.events.push(Event::FinishNode);
        self.depth = self.depth - 1;
        proof {
            assert(self.events@.map_values(|e: Event| e@) =~= old(self).state().events.push(
                EventView::FinishNode,
            ));
        }
    }

    /// Records an error with `error` as message about `range`.
    pub fn error(&mut self, error: String, range: TextRange)
        requires
            old(self).wf(),
        ensures
            final(self).wf(),
            final(self).same_input(old(self)),
            final(self).state() == (ParserState {
                errors: old(self).state().errors.push(SyntaxErrorView { message: error@, range }),
                ..old(self).state()
            }),
    {
        self.errors.push(SyntaxError::new(error, range));
        proof {
            assert(self.errors@.map_values(|e: SyntaxError| e@) =~= old(self).state().errors.push(
                SyntaxErrorView { message: error@, range },
            ));
        }
    }

    /// Records an error with `error` as message at `offset`.
    pub fn error_at_offset(&mut self, error: String, offset: TextSize)
        requires
            old(self).wf(),
        ensures
            final(self).wf(),
            final(self).same_input(old(self)),
            final(self).state() == (ParserState {
                errors: old(self).state().errors.push(
                    SyntaxErrorView { message: error@, range: TextRange { start: offset, end: offset } },
                ),
                ..old(self).state()
            }),
    {
        self.errors.push(SyntaxError::new_at_offset(error, offset));
        proof {
            assert(self.errors@.map_values(|e: SyntaxError| e@) =~= old(self).state().errors.push(
                SyntaxErrorView { message: error@, range: TextRange { start: offset, end: offset } },
            ));
        }
    }

    /// Records an error with `error` as message at the start of the token at
    /// `pos` (of the last token, when `pos` lies past it).
    pub fn error_at_pos(&mut self, error: String, pos: usize)
        requires
            old(self).wf(),
        ensures
            final(self).wf(),
            final(self).same_input(old(self)),
            final(self).state() == ({
                let at = old(self).tokens@[error_index(old(self).tokens.len() as int, pos as int)].span.start;
                ParserState {
                    errors: old(self).state().errors.push(
                        SyntaxErrorView { message: error@, range: TextRange { start: at, end: at } },
                    ),
                    ..old(self).state()
                }
            }),
    {
        let last = self.tokens.len() - 1;
        let idx = if last < pos {
            last
        } else {
            pos
        };
        let offset = self.tokens[idx].span.start;
        self.error_at_offset(error, offset);
    }

    /// Opens a token buffer at the current position: until it is closed, no
    /// token reaches the tree.
    pub fn open_buffer(&mut self)
        requires
            old(self).wf(),
        ensures
            final(self).wf(),
            final(self).same_input(old(self)),
            final(self).state() == (ParserState { token_buffer: Some(old(self).pos as int), ..old(self).state() }),
    {
        self.token_buffer = Some(self.pos);
    }

    /// Closes the token buffer and goes back to where it was opened; returns
    /// the range of tokens passed since, up to the held-back whitespace.
    pub fn close_buffer(&mut self) -> (r: Range<usize>)
        requires
            old(self).wf(),
            old(self).token_buffer is Some,
        ensures
            final(self).wf(),
            final(self).same_input(old(self)),
            r.start == old(self).token_buffer.unwrap(),
            r.end == match old(self).whitespace_token_buffer {
                Some(w) => w,
                None => old(self).pos,
            },
            final(self).state() == (ParserState {
                token_buffer: None,
                pos: old(self).token_buffer.unwrap() as int,
                ..old(self).state()
            }),
    {
        let start = self.token_buffer.unwrap();
        let end = match self.whitespace_token_buffer {
            Some(w) => w,
            None => self.pos,
        };
        self.token_buffer = None;
        self.pos = start;
        start..end
    }

    /// Steps over the current token if it is of `kind`; otherwise records an
    /// error that names `kind` and what was found.
    pub fn expect(&mut self, kind: SyntaxKind)
        requires
            old(self).wf(),
        ensures
            final(self).wf(),
            final(self).same_input(old(self)),
            final(self).state() == expected(old(self).views(), old(self).eof_token@, old(self).state(), kind),
    {
        if self.eat(kind) {
            return;
        }
        match self.whitespace_token_buffer {
            Some(w) => {
                let message = expected_kind_text(kind, self.tokens[w].kind);
                self.error_at_pos(message, w);
            },
            None => {
                let message = expected_token_text(kind, self.nth(0, false));
                let at = if self.pos < usize::MAX {
                    self.pos + 1
                } else {
                    self.pos
                };
                self.error_at_pos(message, at);
            },
        }
    }

    /// Ends parsing: the edits of the tree and the errors.
    pub fn finish(self) -> (r: Parse)
        ensures
            r.events@ == self.events@,
            r.errors@ == self.errors@,
    {
        Parse { events: self.events, errors: self.errors }
    }
}

/// The text of the tree: the texts of its tokens, one after the other.
pub open spec fn tree_text(events: Seq<EventView>) -> Seq<char>
    decreases events.len(),
{
    if events.len() == 0 {
        Seq::empty()
    } else {
        tree_text(events.drop_last()) + match events.last() {
            EventView::Token(_, t) => t,
            _ => Seq::empty(),
        }
    }
}

/// The text of joined edits is the joined texts.
pub proof fn lemma_tree_text_concat(a: Seq<EventView>, b: Seq<EventView>)
    ensures
        tree_text(a + b) == tree_text(a) + tree_text(b),
    decreases b.len(),
{
    if b.len() == 0 {
        assert(a + b =~= a);
        assert(tree_text(a) + Seq::<char>::empty() =~= tree_text(a));
    } else {
        lemma_tree_text_concat(a, b.drop_last());
        assert((a + b).drop_last() =~= a + b.drop_last());
        let t = match b.last() {
            EventView::Token(_, t) => t,
            _ => Seq::empty(),
        };
        assert(tree_text(a) + tree_text(b.drop_last()) + t =~= tree_text(a) + (tree_text(b.drop_last()) + t));
    }
}

/// The token edits of `tokens[from..to]` hold the texts of those tokens.
pub proof fn lemma_tree_text_of_tokens(tokens: Seq<TokenView>, from: int, to: int)
    requires
        0 <= from <= to <= tokens.len(),
    ensures
        tree_text(token_events(tokens, from, to)) == tokens_text(tokens.subrange(from, to)),
    decreases to - from,
{
    if to == from {
        assert(token_events(tokens, from, to) =~= Seq::<EventView>::empty());
        assert(tokens.subrange(from, to) =~= Seq::<TokenView>::empty());
    } else {
        lemma_tree_text_of_tokens(tokens, from, to - 1);
        assert(token_events(tokens, from, to).drop_last() =~= token_events(tokens, from, to - 1));
        assert(tokens.subrange(from, to).drop_last() =~= tokens.subrange(from, to - 1));
    }
}

/// While a token buffer is open, steps add nothing to the tree and leave
/// the buffer open.
pub proof fn lemma_buffered_steps_keep_tree(tokens: Seq<TokenView>, s: ParserState, n: nat)
    requires
        s.token_buffer is Some,
    ensures
        advanced_n(tokens, s, n).events == s.events,
        advanced_n(tokens, s, n).token_buffer == s.token_buffer,
    decreases n,
{
    if n > 0 {
        lemma_buffered_steps_keep_tree(tokens, advanced(tokens, s), (n - 1) as nat);
    }
}

/// A buffer opened at `s` and kept open over any number of steps adds
/// nothing to the tree and stays opened at `s`'s position, so closing it (see
/// [`Parser::close_buffer`]) returns the range from that position and goes
/// back to it with the tree as it was.
pub proof fn lemma_buffer_returns_to_start(tokens: Seq<TokenView>, s: ParserState, n: nat)
    requires
        s.token_buffer is None,
    ensures
        advanced_n(tokens, ParserState { token_buffer: Some(s.pos), ..s }, n).events == s.events,
        advanced_n(tokens, ParserState { token_buffer: Some(s.pos), ..s }, n).token_buffer == Some(s.pos),
{
    lemma_buffered_steps_keep_tree(tokens, ParserState { token_buffer: Some(s.pos), ..s }, n);
}

/// One step without a token buffer: once the held-back spaces are released,
/// the tree has gained the token passed.
proof fn lemma_step_reaches_tree(tokens: Seq<TokenView>, s: ParserState)
    requires
        s.token_buffer is None,
        s.whitespace_token_buffer matches Some(w) ==> 0 <= w <= s.pos,
        0 <= s.pos < tokens.len(),
    ensures
        flushed(tokens, advanced(tokens, s)).events == flushed(tokens, s).events.push(
            EventView::Token(tokens[s.pos].kind, tokens[s.pos].text),
        ),
        advanced(tokens, s).token_buffer is None,
        advanced(tokens, s).whitespace_token_buffer matches Some(w) ==> 0 <= w <= s.pos + 1,
        advanced(tokens, s).pos == s.pos + 1,
{
    let t = EventView::Token(tokens[s.pos].kind, tokens[s.pos].text);
    match s.whitespace_token_buffer {
        Some(w) => {
            assert(token_events(tokens, w, s.pos + 1) =~= token_events(tokens, w, s.pos).push(t));
        },
        None => {
            if tokens[s.pos].kind == SyntaxKind::Whitespace {
                assert(token_events(tokens, s.pos, s.pos + 1) =~= seq![t]);
                assert(s.events + seq![t] =~= s.events.push(t));
            }
        },
    }
}

/// Steps without a token buffer: once the held-back spaces are released,
/// the tree has gained the tokens passed, in order.
proof fn lemma_steps_reach_tree_from(tokens: Seq<TokenView>, s: ParserState, n: nat)
    requires
        s.token_buffer is None,
        s.whitespace_token_buffer matches Some(w) ==> 0 <= w <= s.pos,
        0 <= s.pos,
        s.pos + n <= tokens.len(),
    ensures
        flushed(tokens, advanced_n(tokens, s, n)).events == flushed(tokens, s).events + token_events(
            tokens,
            s.pos,
            s.pos + n,
        ),
    decreases n,
{
    if n == 0 {
        assert(token_events(tokens, s.pos, s.pos) =~= Seq::<EventView>::empty());
        assert(flushed(tokens, s).events + Seq::<EventView>::empty() =~= flushed(tokens, s).events);
    } else {
        let a = advanced(tokens, s);
        lemma_step_reaches_tree(tokens, s);
        lemma_steps_reach_tree_from(tokens, a, (n - 1) as nat);
        let t = EventView::Token(tokens[s.pos].kind, tokens[s.pos].text);
        assert(token_events(tokens, s.pos, s.pos + n) =~= seq![t] + token_events(tokens, s.pos + 1, s.pos + n));
        assert(flushed(tokens, s).events.push(t) + token_events(tokens, s.pos + 1, s.pos + n) =~= flushed(
            tokens,
            s,
        ).events + (seq![t] + token_events(tokens, s.pos + 1, s.pos + n)));
    }
}

/// Without a token buffer, every token that is stepped over reaches the
/// tree, once and in order: once the held-back spaces are released, the tree
/// has gained exactly the tokens passed.
pub proof fn lemma_steps_reach_tree(tokens: Seq<TokenView>, s: ParserState, n: nat)
    requires
        s.token_buffer is None,
        s.whitespace_token_buffer is None,
        0 <= s.pos,
        s.pos + n <= tokens.len(),
    ensures
        flushed(tokens, advanced_n(tokens, s, n)).events == s.events + token_events(tokens, s.pos, s.pos + n),
{
    lemma_steps_reach_tree_from(tokens, s, n);
}

} // verus!
