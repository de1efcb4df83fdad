//! The range of tokens a statement spans.
//!
//! A statement runs from its start tokens to the next `;`, or up to the
//! start of the next statement; brackets and the token after `AS` do not
//! count as the start of another statement.
use std::ops::Range;
use vstd::prelude::*;

use crate::lexer::TokenView;
use crate::parser::{advanced, advanced_n, expected, kind_at, whitespace_run, Parser, ParserState};
use crate::statement_start::{
    contains_statement, has_statement, maps_wf, statement_start, statement_start_at, StartTable, StartTokenMaps,
};
use crate::syntax_kind::SyntaxKind;

verus! {

/// The state after stepping over the start tokens of a statement of `kind`
/// from level `i` on: at each level, the whitespace is passed, and the token
/// is expected when the level lists the statement for it; the steps end at
/// the first level that lists the token without the statement. `None` when
/// that happens at the first level.
pub open spec fn over_start_tokens(
    table: StartTable,
    tokens: Seq<TokenView>,
    eof: TokenView,
    s: ParserState,
    kind: SyntaxKind,
    i: int,
) -> Option<ParserState>
    decreases table.levels - i,
{
    if i >= table.levels || i < 0 {
        Some(s)
    } else {
        let s1 = advanced_n(tokens, s, whitespace_run(tokens, s.pos));
        let token = kind_at(tokens, s1.pos);
        match (table.get)(i, token) {
            Some(result) => if has_statement(result, kind) {
                over_start_tokens(table, tokens, eof, expected(tokens, eof, s1, token), kind, i + 1)
            } else if i == 0 {
                None
            } else {
                Some(s1)
            },
            None => over_start_tokens(table, tokens, eof, s1, kind, i + 1),
        }
    }
}

/// Stepping keeps the token buffer and the depth, and moves one token per
/// step.
pub proof fn lemma_advanced_n(tokens: Seq<TokenView>, s: ParserState, n: nat)
    ensures
        advanced_n(tokens, s, n).token_buffer == s.token_buffer,
        advanced_n(tokens, s, n).depth == s.depth,
        advanced_n(tokens, s, n).pos == s.pos + n,
    decreases n,
{
    if n > 0 {
        lemma_advanced_n(tokens, advanced(tokens, s), (n - 1) as nat);
    }
}

/// Stepping over start tokens keeps the token buffer and the depth.
proof fn lemma_over_start_tokens_buffer(
    table: StartTable,
    tokens: Seq<TokenView>,
    eof: TokenView,
    s: ParserState,
    kind: SyntaxKind,
    i: int,
)
    requires
        over_start_tokens(table, tokens, eof, s, kind, i) is Some,
    ensures
        over_start_tokens(table, tokens, eof, s, kind, i)->0.token_buffer == s.token_buffer,
        over_start_tokens(table, tokens, eof, s, kind, i)->0.depth == s.depth,
    decreases table.levels - i,
{
    if 0 <= i < table.levels {
        let s1 = advanced_n(tokens, s, whitespace_run(tokens, s.pos));
        lemma_advanced_n(tokens, s, whitespace_run(tokens, s.pos));
        let token = kind_at(tokens, s1.pos);
        match (table.get)(i, token) {
            Some(result) => if has_statement(result, kind) {
                lemma_over_start_tokens_buffer(table, tokens, eof, expected(tokens, eof, s1, token), kind, i + 1);
            },
            None => {
                lemma_over_start_tokens_buffer(table, tokens, eof, s1, kind, i + 1);
            },
        }
    }
}

/// Steps over the start tokens of a statement of `kind` (see
/// [`over_start_tokens`]); false when the first level does not list the
/// statement for the current token.
fn try_advance_over_start_tokens(parser: &mut Parser, maps: &StartTokenMaps, kind: SyntaxKind) -> (ok: bool)
    requires
        old(parser).wf(),
        maps_wf(maps@),
    ensures
        final(parser).wf(),
        final(parser).same_input(old(parser)),
        ok == over_start_tokens(maps.table(), old(parser).views(), old(parser).eof_token@, old(parser).state(), kind, 0) is Some,
        ok ==> Some(final(parser).state()) == over_start_tokens(
            maps.table(),
            old(parser).views(),
            old(parser).eof_token@,
            old(parser).state(),
            kind,
            0,
        ),
{
    let ghost target = over_start_tokens(maps.table(), parser.views(), parser.eof_token@, parser.state(), kind, 0);
    let mut i: usize = 0;
    while i < maps.levels.len()
        invariant
            parser.wf(),
            parser.same_input(old(parser)),
            maps_wf(maps@),
            maps@.len() == maps.levels@.len(),
            i <= maps@.len(),
            target == over_start_tokens(maps.table(), old(parser).views(), old(parser).eof_token@, old(parser).state(), kind, 0),
            target == over_start_tokens(maps.table(), parser.views(), parser.eof_token@, parser.state(), kind, i as int),
        decreases maps.levels.len() - i,
    {
        let ghost before = parser.state();
        parser.eat_whitespace();
        let token = parser.nth(0, false).kind;
        proof {
            assert(parser.state() == advanced_n(parser.views(), before, whitespace_run(parser.views(), before.pos)));
            assert(token == kind_at(parser.views(), parser.state().pos));
        }
        match maps.get(i, token) {
            Some(result) => {
                if contains_statement(result, kind) {
                    parser.expect(token);
                } else {
                    proof {
                        assert(over_start_tokens(maps.table(), parser.views(), parser.eof_token@, before, kind, i as int)
                            == if i == 0 {
                            None
                        } else {
                            Some(parser.state())
                        });
                    }
                    return i != 0;
                }
            },
            None => {},
        }
        i = i + 1;
    }
    true
}

/// Steps over the start tokens of a statement of `kind` (see
/// [`over_start_tokens`]).
pub fn advance_over_start_tokens(parser: &mut Parser, maps: &StartTokenMaps, kind: SyntaxKind)
    requires
        old(parser).wf(),
        maps_wf(maps@),
        over_start_tokens(maps.table(), old(parser).views(), old(parser).eof_token@, old(parser).state(), kind, 0) is Some,
    ensures
        final(parser).wf(),
        final(parser).same_input(old(parser)),
        Some(final(parser).state()) == over_start_tokens(
            maps.table(),
            old(parser).views(),
            old(parser).eof_token@,
            old(parser).state(),
            kind,
            0,
        ),
{
    try_advance_over_start_tokens(parser, maps, kind);
}

/// The state after passing the body of a statement from `s` on: it ends
/// before a `;`, at the end of the tokens, or at the start of another
/// statement outside brackets and not right after `AS`. `None` when the
/// start of a statement there is ambiguous.
pub open spec fn statement_body(
    table: StartTable,
    tokens: Seq<TokenView>,
    eof: TokenView,
    s: ParserState,
    in_brackets: bool,
    after_as: bool,
) -> Option<ParserState>
    decreases tokens.len() - s.pos,
{
    if s.pos >= tokens.len() || s.pos < 0 || kind_at(tokens, s.pos) == SyntaxKind::Ascii59 {
        Some(s)
    } else {
        let k = kind_at(tokens, s.pos);
        if k == SyntaxKind::Ascii40 {
            statement_body(table, tokens, eof, advanced(tokens, s), true, after_as)
        } else if k == SyntaxKind::Ascii41 {
            statement_body(table, tokens, eof, advanced(tokens, s), false, after_as)
        } else if k == SyntaxKind::As {
            statement_body(table, tokens, eof, advanced(tokens, s), in_brackets, true)
        } else if !after_as && !in_brackets && statement_start(table, tokens, eof, s.pos) != Some(
            None::<SyntaxKind>,
        ) {
            if statement_start(table, tokens, eof, s.pos) is None {
                None
            } else {
                Some(s)
            }
        } else {
            statement_body(
                table,
                tokens,
                eof,
                advanced(tokens, s),
                in_brackets,
                after_as && k == SyntaxKind::Whitespace,
            )
        }
    }
}

/// Passing the body of a statement keeps the token buffer and the depth.
proof fn lemma_statement_body(
    table: StartTable,
    tokens: Seq<TokenView>,
    eof: TokenView,
    s: ParserState,
    in_brackets: bool,
    after_as: bool,
)
    requires
        statement_body(table, tokens, eof, s, in_brackets, after_as) is Some,
    ensures
        statement_body(table, tokens, eof, s, in_brackets, after_as)->0.token_buffer == s.token_buffer,
        statement_body(table, tokens, eof, s, in_brackets, after_as)->0.depth == s.depth,
    decreases tokens.len() - s.pos,
{
    if !(s.pos >= tokens.len() || s.pos < 0 || kind_at(tokens, s.pos) == SyntaxKind::Ascii59) {
        let k = kind_at(tokens, s.pos);
        let a = advanced(tokens, s);
        if k == SyntaxKind::Ascii40 {
            lemma_statement_body(table, tokens, eof, a, true, after_as);
        } else if k == SyntaxKind::Ascii41 {
            lemma_statement_body(table, tokens, eof, a, false, after_as);
        } else if k == SyntaxKind::As {
            lemma_statement_body(table, tokens, eof, a, in_brackets, true);
        } else if !after_as && !in_brackets && statement_start(table, tokens, eof, s.pos) != Some(
            None::<SyntaxKind>,
        ) {
        } else {
            lemma_statement_body(table, tokens, eof, a, in_brackets, after_as && k == SyntaxKind::Whitespace);
        }
    }
}

/// Collecting a statement's tokens keeps the depth and leaves no token
/// buffer open.
pub proof fn lemma_statement_token_range(
    table: StartTable,
    tokens: Seq<TokenView>,
    eof: TokenView,
    s: ParserState,
    kind: SyntaxKind,
)
    requires
        statement_token_range(table, tokens, eof, s, kind) is Some,
    ensures
        statement_token_range(table, tokens, eof, s, kind)->0.state.depth == s.depth,
        statement_token_range(table, tokens, eof, s, kind)->0.state.token_buffer is None,
        statement_token_range(table, tokens, eof, s, kind)->0.state.pos == s.pos,
        statement_token_range(table, tokens, eof, s, kind)->0.start == s.pos,
{
    let s0 = ParserState { token_buffer: Some(s.pos), ..s };
    lemma_over_start_tokens_buffer(table, tokens, eof, s0, kind, 0);
    let s1 = over_start_tokens(table, tokens, eof, s0, kind, 0)->0;
    lemma_statement_body(table, tokens, eof, s1, false, false);
}

/// The state after collecting a statement's tokens, and the range of them.
pub ghost struct StatementRange {
    pub state: ParserState,
    pub start: int,
    pub end: int,
}

/// Where a statement of `kind` that starts at `s` ends: the state after its
/// tokens are collected in a buffer and the parser went back to `s`, and the
/// range of the statement's tokens (without the whitespace held back after
/// them). `None` when the parser would stop there.
pub open spec fn statement_token_range(
    table: StartTable,
    tokens: Seq<TokenView>,
    eof: TokenView,
    s: ParserState,
    kind: SyntaxKind,
) -> Option<StatementRange> {
    let s0 = ParserState { token_buffer: Some(s.pos), ..s };
    match over_start_tokens(table, tokens, eof, s0, kind, 0) {
        None => None,
        Some(s1) => match statement_body(table, tokens, eof, s1, false, false) {
            None => None,
            Some(s2) => {
                let s3 = expected(tokens, eof, s2, SyntaxKind::Ascii59);
                let end = match s3.whitespace_token_buffer {
                    Some(w) => w,
                    None => s3.pos,
                };
                Some(StatementRange { state: ParserState { token_buffer: None, pos: s.pos, ..s3 }, start: s.pos, end })
            },
        },
    }
}

/// Collects the tokens of the statement of `kind` that starts here, up to
/// and with its `;`, and goes back to its start; returns the range of its
/// tokens (see [`statement_token_range`]), or `None` where the parser would
/// stop.
pub fn try_collect_statement_token_range(parser: &mut Parser, maps: &StartTokenMaps, kind: SyntaxKind) -> (r: Option<
    Range<usize>,
>)
    requires
        old(parser).wf(),
        maps_wf(maps@),
    ensures
        final(parser).wf(),
        final(parser).same_input(old(parser)),
        r is Some <==> statement_token_range(
            maps.table(),
            old(parser).views(),
            old(parser).eof_token@,
            old(parser).state(),
            kind,
        ) is Some,
        r matches Some(range) ==> statement_token_range(
            maps.table(),
            old(parser).views(),
            old(parser).eof_token@,
            old(parser).state(),
            kind,
        ) == Some(StatementRange { state: final(parser).state(), start: range.start as int, end: range.end as int }),
{
    let ghost start = parser.pos;
    parser.open_buffer();
    let ghost s0 = parser.state();
    proof {
        assert(s0 == ParserState { token_buffer: Some(start as int), ..old(parser).state() });
    }
    if !try_advance_over_start_tokens(parser, maps, kind) {
        return None;
    }
    proof {
        lemma_over_start_tokens_buffer(maps.table(), parser.views(), parser.eof_token@, s0, kind, 0);
    }
    let ghost s1 = parser.state();
    assert(parser.token_buffer == Some(start));
    let mut in_brackets = false;
    let mut after_as = false;
    while !parser.at(SyntaxKind::Ascii59) && !parser.eof()
        invariant_except_break
            parser.wf(),
            parser.same_input(old(parser)),
            maps_wf(maps@),
            parser.token_buffer == Some(start),
            over_start_tokens(maps.table(), parser.views(), parser.eof_token@, s0, kind, 0) == Some(s1),
            s0 == (ParserState { token_buffer: Some(start as int), ..old(parser).state() }),
            start == old(parser).pos,
            statement_body(maps.table(), parser.views(), parser.eof_token@, s1, false, false) == statement_body(
                maps.table(),
                parser.views(),
                parser.eof_token@,
                parser.state(),
                in_brackets,
                after_as,
            ),
        ensures
            parser.wf(),
            parser.same_input(old(parser)),
            parser.token_buffer == Some(start),
            statement_body(maps.table(), parser.views(), parser.eof_token@, s1, false, false) == Some(parser.state()),
        decreases parser.tokens.len() - parser.pos,
    {
        let k = parser.nth(0, false).kind;
        if k == SyntaxKind::Ascii40 {
            in_brackets = true;
            parser.advance();
        } else if k == SyntaxKind::Ascii41 {
            in_brackets = false;
            parser.advance();
        } else if k == SyntaxKind::As {
            after_as = true;
            parser.advance();
        } else {
            if !after_as && !in_brackets {
                match statement_start_at(parser, maps) {
                    None => {
                        return None;
                    },
                    Some(Some(_)) => {
                        break;
                    },
                    Some(None) => {},
                }
            }
            if after_as && !parser.at_whitespace() {
                after_as = false;
            }
            parser.advance();
        }
    }
    parser.expect(SyntaxKind::Ascii59);
    Some(parser.close_buffer())
}

/// Collects the tokens of the statement of `kind` that starts here, up to
/// and with its `;`, and goes back to its start; returns the range of its
/// tokens (see [`statement_token_range`]).
pub fn collect_statement_token_range(parser: &mut Parser, maps: &StartTokenMaps, kind: SyntaxKind) -> (r: Range<usize>)
    requires
        old(parser).wf(),
        maps_wf(maps@),
        statement_token_range(maps.table(), old(parser).views(), old(parser).eof_token@, old(parser).state(), kind) is Some,
    ensures
        final(parser).wf(),
        final(parser).same_input(old(parser)),
        statement_token_range(maps.table(), old(parser).views(), old(parser).eof_token@, old(parser).state(), kind) == Some(
            StatementRange { state: final(parser).state(), start: r.start as int, end: r.end as int },
        ),
{
    match try_collect_statement_token_range(parser, maps, kind) {
        Some(range) => range,
        None => {
            assert(false);
            0..0
        },
    }
}

} // verus!
