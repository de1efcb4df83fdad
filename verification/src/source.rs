//! Parsing a whole source text: finding the statements in it.
use vstd::prelude::*;

use crate::lexer::{
    eof_token_view, lemma_lexed_tokens_cover_text, lex_requires, lexed, scan_ok, tokens_text, try_lex, ScanToken, TokenView,
};
use crate::parser::{
    advanced, advanced_n, finished, flushed, lemma_steps_reach_tree, lemma_tree_text_concat, lemma_tree_text_of_tokens,
    started, token_events, tree_text, EventView, Parse, Parser, ParserState,
};
use crate::statement::{lemma_advanced_n, lemma_statement_token_range, statement_token_range, try_collect_statement_token_range};
use crate::statement_start::{
    maps_wf, start_table, statement_start, statement_start_at, statement_start_token_maps, StartTable,
    StartTokenMaps,
};
use crate::strings::{byte_len, slice_bytes, substring, valid_slice};
use crate::syntax_kind::SyntaxKind;
use crate::text::TextRange;

verus! {

/// The statements found from state `s` on, each with its range in the text
/// and its text: where a statement starts, its tokens are collected and the
/// parser steps over them; elsewhere it steps over one token. `None` where
/// the parser would stop or never end: at an ambiguous statement start, or
/// at a statement whose range is empty or does not cut out of the text.
pub open spec fn statements_from(
    table: StartTable,
    text: Seq<char>,
    tokens: Seq<TokenView>,
    eof: TokenView,
    s: ParserState,
) -> Option<Seq<(TextRange, Seq<char>)>>
    decreases tokens.len() - s.pos,
{
    if s.pos >= tokens.len() || s.pos < 0 {
        Some(Seq::empty())
    } else {
        match statement_start(table, tokens, eof, s.pos) {
            None => None,
            Some(None) => statements_from(table, text, tokens, eof, advanced(tokens, s)),
            Some(Some(kind)) => match statement_token_range(table, tokens, eof, s, kind) {
                None => None,
                Some(range) => {
                    if range.end <= s.pos || range.end > tokens.len() || range.start != s.pos {
                        None
                    } else {
                        let first = tokens[range.start].span.start;
                        let last = tokens[range.end - 1].span.end;
                        if !valid_slice(text, first as int, last as int) {
                            None
                        } else {
                            let next = advanced_n(tokens, range.state, (range.end - s.pos) as nat);
                            proof {
                                lemma_advanced_n(tokens, range.state, (range.end - s.pos) as nat);
                                lemma_statement_token_range(table, tokens, eof, s, kind);
                            }
                            match statements_from(table, text, tokens, eof, next) {
                                None => None,
                                Some(rest) => Some(
                                    seq![(TextRange { start: first, end: last }, slice_bytes(text, first as int, last as int))]
                                        + rest,
                                ),
                            }
                        }
                    }
                },
            },
        }
    }
}

/// The parser state for a text whose tokens are `tokens`, after the source
/// node is opened.
pub open spec fn source_start(tokens: Seq<TokenView>) -> ParserState {
    ParserState {
        events: seq![EventView::StartNode(SyntaxKind::SourceFile)],
        errors: Seq::empty(),
        pos: 0,
        whitespace_token_buffer: None,
        token_buffer: None,
        depth: 1,
    }
}

/// The end token after the tokens of a text.
pub open spec fn end_token(tokens: Seq<TokenView>) -> TokenView {
    eof_token_view(tokens.last().span.end)
}

/// The statements of `text` (see [`statements_from`]), given what the
/// scanner found in it.
pub open spec fn text_statements(text: Seq<char>, scanned: Seq<ScanToken>) -> Option<Seq<(TextRange, Seq<char>)>> {
    let tokens = lexed(text, scanned);
    statements_from(start_table(), text, tokens, end_token(tokens), source_start(tokens))
}

/// Whether the statements of `text` can be found: the tokens merge, there
/// is at least one, and the parser neither stops nor runs forever (see
/// [`statements_from`]).
pub open spec fn statements_found(text: Seq<char>, scanned: Seq<ScanToken>) -> bool {
    &&& lex_requires(text, scanned)
    &&& lexed(text, scanned).len() > 0
    &&& text_statements(text, scanned) is Some
}

/// The ranges and texts of the statements of `text`, in order (see
/// [`statements_from`]), or `None` where they cannot be found (see
/// [`statements_found`]); `scanned` is what the Postgres scanner found in
/// it.
#[verifier::rlimit(60)]
pub fn try_get_statements(text: &str, scanned: &Vec<ScanToken>) -> (r: Option<Vec<(TextRange, String)>>)
    requires
        scan_ok(text@, scanned@),
    ensures
        r is Some <==> statements_found(text@, scanned@),
        r matches Some(v) ==> Some(v@.map_values(|e: (TextRange, String)| (e.0, e.1@))) == text_statements(
            text@,
            scanned@,
        ),
{
    let ghost tv = lexed(text@, scanned@);
    let tokens = match try_lex(text, scanned) {
        Some(tokens) => tokens,
        None => {
            return None;
        },
    };
    if tokens.len() == 0 {
        return None;
    }
    let mut parser = Parser::new(tokens);
    parser.start_node(SyntaxKind::SourceFile);
    let maps = statement_start_token_maps();
    let ghost table = start_table();
    let ghost eof = end_token(tv);
    let ghost all_found = text_statements(text@, scanned@);
    let ghost all = all_found->0;
    proof {
        assert(parser.views() == tv);
        assert(parser.state().events =~= source_start(tv).events);
        assert(parser.state().errors =~= source_start(tv).errors);
        assert(parser.state() == source_start(tv));
    }
    let mut ranges: Vec<(TextRange, String)> = Vec::new();
    while !parser.eof()
        invariant
            parser.wf(),
            parser.views() == tv,
            parser.eof_token@ == eof,
            parser.depth == 1,
            parser.token_buffer is None,
            maps_wf(maps@),
            maps.table() == table,
            table == start_table(),
            lex_requires(text@, scanned@),
            tv == lexed(text@, scanned@),
            tv.len() > 0,
            all_found == text_statements(text@, scanned@),
            all_found == match statements_from(table, text@, tv, eof, parser.state()) {
                Some(rest) => Some(ranges@.map_values(|e: (TextRange, String)| (e.0, e.1@)) + rest),
                None => None,
            },
        decreases parser.tokens.len() - parser.pos,
    {
        let ghost s = parser.state();
        let pos0 = parser.pos;
        match statement_start_at(&parser, &maps) {
            None => {
                return None;
            },
            Some(Some(kind)) => {
                let range = match try_collect_statement_token_range(&mut parser, &maps, kind) {
                    Some(range) => range,
                    None => {
                        return None;
                    },
                };
                proof {
                    lemma_statement_token_range(table, tv, eof, s, kind);
                }
                if range.end <= pos0 || range.end > parser.tokens.len() {
                    return None;
                }
                let first = parser.tokens[range.start].span.start;
                let last = parser.tokens[range.end - 1].span.end;
                if !(first <= last && (last as usize) <= text.len() && text.is_char_boundary(first as usize)
                    && text.is_char_boundary(last as usize)) {
                    return None;
                }
                let piece = substring(text, first as usize, last as usize);
                let ghost entry = (TextRange { start: first, end: last }, slice_bytes(text@, first as int, last as int));
                let ghost rest = statements_from(
                    table,
                    text@,
                    tv,
                    eof,
                    advanced_n(tv, parser.state(), (range.end - s.pos) as nat),
                )->0;
                let ghost next = advanced_n(tv, parser.state(), (range.end - s.pos) as nat);
                proof {
                    assert(byte_len(text@) <= i32::MAX);
                    assert(valid_slice(text@, first as int, last as int));
                    assert(statements_from(table, text@, tv, eof, s) == match statements_from(
                        table,
                        text@,
                        tv,
                        eof,
                        next,
                    ) {
                        Some(rest) => Some(seq![entry] + rest),
                        None => None,
                    });
                }
                let ghost before = ranges@;
                ranges.push((TextRange::new(first, last), piece));
                proof {
                    assert(ranges@.map_values(|e: (TextRange, String)| (e.0, e.1@)) =~= before.map_values(
                        |e: (TextRange, String)| (e.0, e.1@),
                    ).push(entry));
                }
                let ghost target = advanced_n(tv, parser.state(), (range.end - s.pos) as nat);
                proof {
                    lemma_advanced_n(tv, parser.state(), (range.end - s.pos) as nat);
                }
                while parser.pos < range.end
                    invariant
                        parser.wf(),
                        parser.views() == tv,
                        parser.eof_token@ == eof,
                        range.end <= parser.tokens.len(),
                        parser.pos <= range.end,
                        target == advanced_n(tv, parser.state(), (range.end - parser.pos) as nat),
                    decreases range.end - parser.pos,
                {
                    parser.advance();
                }
                proof {
                    lemma_advanced_n(tv, s, 0);
                    assert(parser.state() == target);
                    if statements_from(table, text@, tv, eof, next) is Some {
                        assert(before.map_values(|e: (TextRange, String)| (e.0, e.1@)) + (seq![entry] + rest)
                            =~= ranges@.map_values(|e: (TextRange, String)| (e.0, e.1@)) + rest);
                    }
                }
            },
            Some(None) => {
                parser.advance();
            },
        }
    }
    parser.finish_node();
    proof {
        assert(ranges@.map_values(|e: (TextRange, String)| (e.0, e.1@)) + Seq::empty() =~= ranges@.map_values(
            |e: (TextRange, String)| (e.0, e.1@),
        ));
    }
    Some(ranges)
}

/// The ranges and texts of the statements of `text`, in order (see
/// [`statements_from`]); `scanned` is what the Postgres scanner found in it.
pub fn get_statements(text: &str, scanned: &Vec<ScanToken>) -> (r: Vec<(TextRange, String)>)
    requires
        statements_found(text@, scanned@),
    ensures
        Some(r@.map_values(|e: (TextRange, String)| (e.0, e.1@))) == text_statements(text@, scanned@),
{
    match try_get_statements(text, scanned) {
        Some(v) => v,
        None => {
            assert(false);
            Vec::new()
        },
    }
}

/// Whether no statement starts at any token from `s` on.
pub open spec fn no_statement_from(table: StartTable, tokens: Seq<TokenView>, eof: TokenView, s: ParserState) -> bool
    decreases tokens.len() - s.pos,
{
    if s.pos >= tokens.len() || s.pos < 0 {
        true
    } else {
        statement_start(table, tokens, eof, s.pos) == Some(None::<SyntaxKind>) && no_statement_from(
            table,
            tokens,
            eof,
            advanced(tokens, s),
        )
    }
}

/// The state after the source parser passed the tokens from `s` on: where
/// a statement starts, its tokens are collected and the parser steps over
/// them; elsewhere it steps over one token. `None` where the parser would
/// stop or never end: at an ambiguous statement start, or at a statement
/// whose range is empty.
pub open spec fn source_from(table: StartTable, tokens: Seq<TokenView>, eof: TokenView, s: ParserState) -> Option<ParserState>
    decreases tokens.len() - s.pos,
{
    if s.pos >= tokens.len() || s.pos < 0 {
        Some(s)
    } else {
        match statement_start(table, tokens, eof, s.pos) {
            None => None,
            Some(None) => source_from(table, tokens, eof, advanced(tokens, s)),
            Some(Some(kind)) => match statement_token_range(table, tokens, eof, s, kind) {
                None => None,
                Some(range) => {
                    if range.end <= s.pos || range.end > tokens.len() {
                        None
                    } else {
                        let next = advanced_n(tokens, range.state, (range.end - s.pos) as nat);
                        proof {
                            lemma_advanced_n(tokens, range.state, (range.end - s.pos) as nat);
                            lemma_statement_token_range(table, tokens, eof, s, kind);
                        }
                        source_from(table, tokens, eof, next)
                    }
                },
            },
        }
    }
}

/// The state after the source parser ran from `s`: the source node is
/// opened, the tokens are passed as [`source_from`] says, and the node is
/// closed.
pub open spec fn source_parsed(table: StartTable, tokens: Seq<TokenView>, eof: TokenView, s: ParserState) -> ParserState {
    finished(source_from(table, tokens, eof, started(tokens, s, SyntaxKind::SourceFile))->0)
}

/// Where no statement starts, the source parser steps over the tokens one
/// by one.
proof fn lemma_source_without_statements(table: StartTable, tokens: Seq<TokenView>, eof: TokenView, s: ParserState)
    requires
        0 <= s.pos <= tokens.len(),
        no_statement_from(table, tokens, eof, s),
    ensures
        source_from(table, tokens, eof, s) == Some(advanced_n(tokens, s, (tokens.len() - s.pos) as nat)),
    decreases tokens.len() - s.pos,
{
    if s.pos < tokens.len() {
        let a = advanced(tokens, s);
        lemma_advanced_n(tokens, s, 1);
        assert(advanced_n(tokens, advanced(tokens, s), 0) == advanced(tokens, s));
        lemma_source_without_statements(table, tokens, eof, a);
        lemma_advanced_n(tokens, s, (tokens.len() - s.pos) as nat);
    } else {
        lemma_advanced_n(tokens, s, 0);
    }
}

/// Parses the tokens from the parser's position as a source (see
/// [`source_from`]); false, with the parser left where it stopped, where the
/// parser would stop or never end.
pub fn try_source(parser: &mut Parser, maps: &StartTokenMaps) -> (ok: bool)
    requires
        old(parser).wf(),
        maps_wf(maps@),
        old(parser).depth < usize::MAX,
        old(parser).token_buffer is None,
    ensures
        final(parser).wf(),
        final(parser).same_input(old(parser)),
        ok == source_from(
            maps.table(),
            old(parser).views(),
            old(parser).eof_token@,
            started(old(parser).views(), old(parser).state(), SyntaxKind::SourceFile),
        ) is Some,
        ok ==> final(parser).state() == source_parsed(
            maps.table(),
            old(parser).views(),
            old(parser).eof_token@,
            old(parser).state(),
        ),
{
    parser.start_node(SyntaxKind::SourceFile);
    let ghost s1 = parser.state();
    let ghost table = maps.table();
    let ghost tv = parser.views();
    let ghost eof = parser.eof_token@;
    let ghost target = source_from(table, tv, eof, s1);
    while !parser.eof()
        invariant
            parser.wf(),
            parser.same_input(old(parser)),
            maps_wf(maps@),
            table == maps.table(),
            tv == parser.views(),
            eof == parser.eof_token@,
            parser.token_buffer is None,
            s1 == started(old(parser).views(), old(parser).state(), SyntaxKind::SourceFile),
            target == source_from(table, tv, eof, parser.state()),
            tv == old(parser).views(),
            eof == old(parser).eof_token@,
            target == source_from(table, tv, eof, s1),
            parser.state().depth == s1.depth,
        decreases parser.tokens.len() - parser.pos,
    {
        let ghost s = parser.state();
        let pos0 = parser.pos;
        assert(0 <= s.pos < tv.len());
        match statement_start_at(parser, maps) {
            None => {
                assert(target is None);
                return false;
            },
            Some(Some(kind)) => {
                let range = match try_collect_statement_token_range(parser, maps, kind) {
                    Some(range) => range,
                    None => {
                        assert(target is None);
                        return false;
                    },
                };
                proof {
                    lemma_statement_token_range(table, tv, eof, s, kind);
                }
                if range.end <= pos0 || range.end > parser.tokens.len() {
                    assert(target is None);
                    return false;
                }
                let ghost next = advanced_n(tv, parser.state(), (range.end - s.pos) as nat);
                proof {
                    lemma_advanced_n(tv, parser.state(), (range.end - s.pos) as nat);
                }
                while parser.pos < range.end
                    invariant
                        parser.wf(),
                        parser.same_input(old(parser)),
                        parser.views() == tv,
                        parser.eof_token@ == eof,
                        range.end <= parser.tokens.len(),
                        parser.pos <= range.end,
                        next == advanced_n(tv, parser.state(), (range.end - parser.pos) as nat),
                    decreases range.end - parser.pos,
                {
                    parser.advance();
                }
                proof {
                    lemma_advanced_n(tv, s, 0);
                    assert(parser.state() == next);
                }
            },
            Some(None) => {
                parser.advance();
            },
        }
    }
    parser.finish_node();
    true
}

/// Parses the tokens from the parser's position as a source: a source node
/// around the tokens, with each statement's tokens collected and stepped
/// over (see [`source_from`]).
pub fn source(parser: &mut Parser, maps: &StartTokenMaps)
    requires
        old(parser).wf(),
        maps_wf(maps@),
        old(parser).depth < usize::MAX,
        old(parser).token_buffer is None,
        source_from(
            maps.table(),
            old(parser).views(),
            old(parser).eof_token@,
            started(old(parser).views(), old(parser).state(), SyntaxKind::SourceFile),
        ) is Some,
    ensures
        final(parser).wf(),
        final(parser).same_input(old(parser)),
        final(parser).state() == source_parsed(
            maps.table(),
            old(parser).views(),
            old(parser).eof_token@,
            old(parser).state(),
        ),
{
    try_source(parser, maps);
}

/// Whether the source parser gets through `text`, given what the scanner
/// found in it: the text has tokens and the parser neither stops nor runs
/// forever (see [`source_from`]).
pub open spec fn source_parses(text: Seq<char>, scanned: Seq<ScanToken>) -> bool {
    let tokens = lexed(text, scanned);
    &&& tokens.len() > 0
    &&& source_from(
        start_table(),
        tokens,
        end_token(tokens),
        started(tokens, initial_state(), SyntaxKind::SourceFile),
    ) is Some
}

/// The state of a new parser.
pub open spec fn initial_state() -> ParserState {
    ParserState {
        events: Seq::empty(),
        errors: Seq::empty(),
        pos: 0,
        whitespace_token_buffer: None,
        token_buffer: None,
        depth: 0,
    }
}

/// Parses `text` as a source (see [`source`]), or `None` where the tokens do
/// not merge, there are none, or the parser would stop or never end (see
/// [`source_parses`]); `scanned` is what the Postgres scanner found in it.
pub fn try_parse_source(text: &str, scanned: &Vec<ScanToken>) -> (r: Option<Parse>)
    requires
        scan_ok(text@, scanned@),
    ensures
        r is Some <==> lex_requires(text@, scanned@) && source_parses(text@, scanned@),
        r matches Some(p) ==> p.events@.map_values(|e: crate::parser::Event| e@) == source_parsed(
            start_table(),
            lexed(text@, scanned@),
            end_token(lexed(text@, scanned@)),
            initial_state(),
        ).events,
        r matches Some(p) ==> p.errors@.map_values(|e: crate::parser::SyntaxError| e@) == source_parsed(
            start_table(),
            lexed(text@, scanned@),
            end_token(lexed(text@, scanned@)),
            initial_state(),
        ).errors,
{
    let tokens = match try_lex(text, scanned) {
        Some(tokens) => tokens,
        None => {
            return None;
        },
    };
    if tokens.len() == 0 {
        return None;
    }
    let mut p = Parser::new(tokens);
    let maps = statement_start_token_maps();
    proof {
        assert(p.state().events =~= initial_state().events);
        assert(p.state().errors =~= initial_state().errors);
        assert(p.state() == initial_state());
    }
    if !try_source(&mut p, &maps) {
        return None;
    }
    Some(p.finish())
}

/// Parses `text` as a source (see [`source`]); `scanned` is what the
/// Postgres scanner found in it.
pub fn parse_source(text: &str, scanned: &Vec<ScanToken>) -> (r: Parse)
    requires
        lex_requires(text@, scanned@),
        source_parses(text@, scanned@),
    ensures
        r.events@.map_values(|e: crate::parser::Event| e@) == source_parsed(
            start_table(),
            lexed(text@, scanned@),
            end_token(lexed(text@, scanned@)),
            initial_state(),
        ).events,
        r.errors@.map_values(|e: crate::parser::SyntaxError| e@) == source_parsed(
            start_table(),
            lexed(text@, scanned@),
            end_token(lexed(text@, scanned@)),
            initial_state(),
        ).errors,
{
    match try_parse_source(text, scanned) {
        Some(p) => p,
        None => {
            assert(false);
            Parse { events: Vec::new(), errors: Vec::new() }
        },
    }
}

proof fn lemma_statements_from_slices(
    table: StartTable,
    text: Seq<char>,
    tokens: Seq<TokenView>,
    eof: TokenView,
    s: ParserState,
)
    requires
        statements_from(table, text, tokens, eof, s) is Some,
    ensures
        forall|i: int|
            0 <= i < statements_from(table, text, tokens, eof, s)->0.len() ==> {
                let e = #[trigger] statements_from(table, text, tokens, eof, s)->0[i];
                &&& valid_slice(text, e.0.start as int, e.0.end as int)
                &&& e.1 == slice_bytes(text, e.0.start as int, e.0.end as int)
            },
    decreases tokens.len() - s.pos,
{
    if 0 <= s.pos < tokens.len() {
        match statement_start(table, tokens, eof, s.pos) {
            None => {},
            Some(None) => {
                lemma_statements_from_slices(table, text, tokens, eof, advanced(tokens, s));
            },
            Some(Some(kind)) => {
                let range = statement_token_range(table, tokens, eof, s, kind)->0;
                let next = advanced_n(tokens, range.state, (range.end - s.pos) as nat);
                lemma_advanced_n(tokens, range.state, (range.end - s.pos) as nat);
                lemma_statement_token_range(table, tokens, eof, s, kind);
                lemma_statements_from_slices(table, text, tokens, eof, next);
                let first = tokens[range.start].span.start;
                let last = tokens[range.end - 1].span.end;
                let entry = (TextRange { start: first, end: last }, slice_bytes(text, first as int, last as int));
                let rest = statements_from(table, text, tokens, eof, next)->0;
                assert forall|i: int| 0 <= i < (seq![entry] + rest).len() implies {
                    let e = #[trigger] (seq![entry] + rest)[i];
                    &&& valid_slice(text, e.0.start as int, e.0.end as int)
                    &&& e.1 == slice_bytes(text, e.0.start as int, e.0.end as int)
                } by {
                    if i > 0 {
                        assert((seq![entry] + rest)[i] == rest[i - 1]);
                    }
                }
            },
        }
    }
}

/// Each statement found in a text is the text of its range: its range can
/// be cut out of the text, and cutting it out gives the statement's text.
pub proof fn lemma_statement_texts_are_slices(text: Seq<char>, scanned: Seq<ScanToken>)
    requires
        text_statements(text, scanned) is Some,
    ensures
        forall|i: int|
            0 <= i < text_statements(text, scanned)->0.len() ==> {
                let e = #[trigger] text_statements(text, scanned)->0[i];
                &&& valid_slice(text, e.0.start as int, e.0.end as int)
                &&& e.1 == slice_bytes(text, e.0.start as int, e.0.end as int)
            },
{
    let tokens = lexed(text, scanned);
    lemma_statements_from_slices(start_table(), text, tokens, end_token(tokens), source_start(tokens));
}

/// Steps that end on a token that is not a space leave no space held back.
proof fn lemma_last_step_releases(tokens: Seq<TokenView>, s: ParserState, n: nat)
    requires
        n >= 1,
        0 <= s.pos,
        s.pos + n <= tokens.len(),
        tokens[s.pos + n - 1].kind != SyntaxKind::Whitespace,
    ensures
        advanced_n(tokens, s, n).whitespace_token_buffer is None,
    decreases n,
{
    if n > 1 {
        lemma_last_step_releases(tokens, advanced(tokens, s), (n - 1) as nat);
    } else {
        assert(advanced_n(tokens, advanced(tokens, s), 0) == advanced(tokens, s));
    }
}

/// The tree of a parsed source in which no statement starts holds the
/// source: the texts of its tokens, one after the other, are the text. (A
/// space at the very end stays held back and never reaches the tree, so the
/// text must not end in one; the tokens' texts are cut by character
/// positions, so the text is ASCII.)
pub proof fn lemma_source_tree_holds_text(text: Seq<char>, scanned: Seq<ScanToken>)
    requires
        lex_requires(text, scanned),
        lexed(text, scanned).len() > 0,
        no_statement_from(
            start_table(),
            lexed(text, scanned),
            end_token(lexed(text, scanned)),
            started(lexed(text, scanned), initial_state(), SyntaxKind::SourceFile),
        ),
        vstd::utf8::is_ascii_chars(text),
        lexed(text, scanned).last().kind != SyntaxKind::Whitespace,
    ensures
        tree_text(
            source_parsed(start_table(), lexed(text, scanned), end_token(lexed(text, scanned)), initial_state()).events,
        ) == text,
{
    let tokens = lexed(text, scanned);
    let n = tokens.len();
    let s1 = started(tokens, initial_state(), SyntaxKind::SourceFile);
    lemma_source_without_statements(start_table(), tokens, end_token(tokens), s1);
    assert(s1.events =~= seq![EventView::StartNode(SyntaxKind::SourceFile)]);
    lemma_steps_reach_tree(tokens, s1, n as nat);
    lemma_last_step_releases(tokens, s1, n as nat);
    let big = advanced_n(tokens, s1, n as nat);
    assert(flushed(tokens, big) == big);
    let body = token_events(tokens, 0, n as int);
    let start = seq![EventView::StartNode(SyntaxKind::SourceFile)];
    let finish = seq![EventView::FinishNode];
    assert(big.events.push(EventView::FinishNode) =~= start + body + finish);
    lemma_tree_text_concat(start + body, finish);
    lemma_tree_text_concat(start, body);
    lemma_tree_text_of_tokens(tokens, 0, n as int);
    assert(tokens.subrange(0, n as int) =~= tokens);
    assert(tree_text(start) =~= Seq::<char>::empty()) by {
        assert(start.drop_last() =~= Seq::<EventView>::empty());
        assert(tree_text(Seq::<EventView>::empty()) == Seq::<char>::empty());
        assert(start.last() == EventView::StartNode(SyntaxKind::SourceFile));
    }
    assert(tree_text(finish) =~= Seq::<char>::empty()) by {
        assert(finish.drop_last() =~= Seq::<EventView>::empty());
        assert(tree_text(Seq::<EventView>::empty()) == Seq::<char>::empty());
        assert(finish.last() == EventView::FinishNode);
    }
    lemma_lexed_tokens_cover_text(text, scanned);
    assert(Seq::<char>::empty() + tokens_text(tokens) + Seq::<char>::empty() =~= tokens_text(tokens));
}

} // verus!
