//! Turns SQL text into tokens: the tokens of the Postgres scanner, with the
//! whitespace between them filled in.
use vstd::prelude::*;
use vstd::std_specs::iter::IteratorSpec;

use crate::strings::{byte_len, bytes_of, is_boundary, slice_bytes, substring, text_len};
use crate::syntax_kind::{token_kind, SyntaxKind};
use crate::text::TextRange;

verus! {

broadcast use vstd::utf8::group_utf8_lib;

/// The keyword class the Postgres scanner gives a token.
#[derive(Clone, Copy, Debug, PartialEq, Eq, Structural)]
pub enum KeywordKind {
    NoKeyword,
    UnreservedKeyword,
    ColNameKeyword,
    TypeFuncNameKeyword,
    ReservedKeyword,
}

/// A token as the Postgres scanner reports it: byte offsets, the token number
/// and its keyword class.
#[derive(Clone, Copy, Debug, PartialEq, Eq, Structural)]
pub struct ScanToken {
    pub start: i32,
    pub end: i32,
    pub token: i32,
    pub keyword_kind: KeywordKind,
}

/// The class of a token: whitespace or the scanner's keyword class.
#[derive(Clone, Copy, Debug, PartialEq, Eq, Structural)]
pub enum TokenType {
    Whitespace,
    NoKeyword,
    UnreservedKeyword,
    ColNameKeyword,
    TypeFuncNameKeyword,
    ReservedKeyword,
}

/// The scanner token number of an SQL comment (`SQL_COMMENT`).
pub const SQL_COMMENT_TOKEN: i32 = 275i32;

/// The class of a scanned token: comments count as whitespace, everything else
/// has its keyword class.
pub open spec fn spec_token_type(t: ScanToken) -> TokenType {
    if t.token == SQL_COMMENT_TOKEN {
        TokenType::Whitespace
    } else {
        match t.keyword_kind {
            KeywordKind::NoKeyword => TokenType::NoKeyword,
            KeywordKind::UnreservedKeyword => TokenType::UnreservedKeyword,
            KeywordKind::ColNameKeyword => TokenType::ColNameKeyword,
            KeywordKind::TypeFuncNameKeyword => TokenType::TypeFuncNameKeyword,
            KeywordKind::ReservedKeyword => TokenType::ReservedKeyword,
        }
    }
}

impl TokenType {
    /// The class of a scanned token: comments count as whitespace, everything
    /// else has its keyword class.
    pub fn from_scan_token(token: &ScanToken) -> (r: TokenType)
        ensures
            r == spec_token_type(*token),
    {
        if token.token == SQL_COMMENT_TOKEN {
            TokenType::Whitespace
        } else {
            match token.keyword_kind {
                KeywordKind::NoKeyword => TokenType::NoKeyword,
                KeywordKind::UnreservedKeyword => TokenType::UnreservedKeyword,
                KeywordKind::ColNameKeyword => TokenType::ColNameKeyword,
                KeywordKind::TypeFuncNameKeyword => TokenType::TypeFuncNameKeyword,
                KeywordKind::ReservedKeyword => TokenType::ReservedKeyword,
            }
        }
    }
}

/// A token of the text, with its range in the text.
#[derive(Debug, PartialEq, Eq)]
pub struct Token {
    pub kind: SyntaxKind,
    pub text: String,
    pub span: TextRange,
    pub token_type: TokenType,
}

/// A token with its text as characters.
pub ghost struct TokenView {
    pub kind: SyntaxKind,
    pub text: Seq<char>,
    pub span: TextRange,
    pub token_type: TokenType,
}

impl View for Token {
    type V = TokenView;

    open spec fn view(&self) -> TokenView {
        TokenView { kind: self.kind, text: self.text@, span: self.span, token_type: self.token_type }
    }
}

impl Clone for Token {
    fn clone(&self) -> (r: Self)
        ensures
            r == *self,
    {
        Token { kind: self.kind, text: self.text.clone(), span: self.span, token_type: self.token_type }
    }
}

/// The token that stands for the end of the input, at offset `pos`.
pub open spec fn eof_token_view(pos: u32) -> TokenView {
    TokenView {
        kind: SyntaxKind::Eof,
        text: Seq::empty(),
        span: TextRange { start: pos, end: pos },
        token_type: TokenType::NoKeyword,
    }
}

impl Token {
    /// The token that stands for the end of the input, at offset `pos`.
    pub fn eof(pos: u32) -> (r: Token)
        ensures
            r@ == eof_token_view(pos),
    {
        Token {
            kind: SyntaxKind::Eof,
            text: String::new(),
            span: TextRange::new(pos, pos),
            token_type: TokenType::NoKeyword,
        }
    }
}

/// A space, a line break or a tab.
pub open spec fn is_whitespace_byte(b: u8) -> bool {
    b == 32u8 || b == 10u8 || b == 9u8
}

/// The byte ranges of the spaces, line breaks and tabs of `b` among its first `n` bytes.
pub open spec fn whitespace_spans(b: Seq<u8>, n: int) -> Seq<(int, int)>
    decreases n,
{
    if n <= 0 {
        seq![]
    } else if is_whitespace_byte(b[n - 1]) {
        whitespace_spans(b, n - 1).push((n - 1, n))
    } else {
        whitespace_spans(b, n - 1)
    }
}

/// The byte ranges, in order, of the spaces, line breaks and tabs of
/// `input`. Each is one ASCII byte, which never occurs inside a multi-byte
/// character.
fn whitespace_matches(input: &str) -> (r: Vec<(usize, usize)>)
    ensures
        r@.len() == whitespace_spans(bytes_of(input@), bytes_of(input@).len() as int).len(),
        forall|i: int| 0 <= i < r@.len() ==>
            (#[trigger] r@[i]).0 as int == whitespace_spans(bytes_of(input@), bytes_of(input@).len() as int)[i].0
            && r@[i].1 as int == whitespace_spans(bytes_of(input@), bytes_of(input@).len() as int)[i].1,
{
    let bytes = input.as_bytes();
    let ghost b = bytes_of(input@);
    assert(bytes@ == b);
    let mut r: Vec<(usize, usize)> = Vec::new();
    let mut i: usize = 0;
    while i < bytes.len()
        invariant
            i <= bytes@.len(),
            bytes@ == b,
            r@.len() == whitespace_spans(b, i as int).len(),
            forall|j: int| 0 <= j < r@.len() ==>
                (#[trigger] r@[j]).0 as int == whitespace_spans(b, i as int)[j].0
                && r@[j].1 as int == whitespace_spans(b, i as int)[j].1,
        decreases bytes.len() - i,
    {
        let c = bytes[i];
        if c == 32u8 || c == 10u8 || c == 9u8 {
            r.push((i, i + 1));
        }
        i = i + 1;
    }
    r
}

/// The whitespace token for a space, line break or tab at byte `start` of `text`.
///
/// Spaces are `Whitespace`; line breaks and tabs are both of kind `Newline`.
pub open spec fn whitespace_token_view(text: Seq<char>, start: int) -> TokenView {
    let b = bytes_of(text)[start];
    TokenView {
        kind: if b == 32u8 { SyntaxKind::Whitespace } else { SyntaxKind::Newline },
        text: slice_bytes(text, start, start + 1),
        span: TextRange { start: start as u32, end: (start + 1) as u32 },
        token_type: TokenType::Whitespace,
    }
}

proof fn lemma_whitespace_spans(b: Seq<u8>, n: int)
    requires
        0 <= n <= b.len(),
    ensures
        forall|i: int| 0 <= i < whitespace_spans(b, n).len() ==> {
            let s = #[trigger] whitespace_spans(b, n)[i];
            &&& 0 <= s.0 < n
            &&& s.1 == s.0 + 1
            &&& is_whitespace_byte(b[s.0])
        },
        forall|i: int, j: int| 0 <= i < j < whitespace_spans(b, n).len() ==>
            (#[trigger] whitespace_spans(b, n)[i]).0 < (#[trigger] whitespace_spans(b, n)[j]).0,
    decreases n,
{
    if n > 0 {
        lemma_whitespace_spans(b, n - 1);
        let prev = whitespace_spans(b, n - 1);
        if is_whitespace_byte(b[n - 1]) {
            assert forall|i: int| 0 <= i < prev.len() implies prev.push((n - 1, n))[i] == prev[i] by {}
        }
    }
}

/// An ASCII byte of valid UTF-8 is a character on its own: both its ends are
/// character boundaries.
proof fn lemma_ascii_byte_boundaries(text: Seq<char>, i: int)
    requires
        0 <= i < byte_len(text),
        bytes_of(text)[i] < 128,
    ensures
        is_boundary(text, i),
        is_boundary(text, i + 1),
{
    let b = bytes_of(text);
    vstd::utf8::encode_utf8_valid_utf8(text);
    vstd::utf8::is_char_boundary_iff_not_is_continuation_byte(b, i);
    vstd::utf8::is_char_boundary_start_end_of_seq(b);
    if i + 1 < b.len() {
        vstd::utf8::is_char_boundary_iff_not_is_continuation_byte(b, i + 1);
        vstd::utf8::is_char_boundary_iff_is_leading_byte(b, i);
        assert(!vstd::utf8::is_continuation_byte(b[i + 1])) by {
            lemma_byte_after_ascii(b, i);
        }
    }
}

/// In valid UTF-8, the byte after an ASCII byte starts a character.
proof fn lemma_byte_after_ascii(b: Seq<u8>, i: int)
    requires
        vstd::utf8::valid_utf8(b),
        0 <= i < b.len() - 1,
        b[i] < 128,
    ensures
        !vstd::utf8::is_continuation_byte(b[i + 1]),
{
    vstd::utf8::is_char_boundary_iff_not_is_continuation_byte(b, i);
    assert(!vstd::utf8::is_continuation_byte(b[i]));
    vstd::utf8::valid_utf8_split(b, i);
    let rest = b.subrange(i, b.len() as int);
    assert(rest[0] == b[i]);
    vstd::utf8::is_char_boundary_start_end_of_seq(rest);
    lemma_ascii_first_boundary(rest);
    vstd::utf8::is_char_boundary_iff_not_is_continuation_byte(rest, 1);
    assert(rest[1] == b[i + 1]);
}

/// In valid UTF-8 that starts with an ASCII byte, offset 1 is a boundary.
proof fn lemma_ascii_first_boundary(b: Seq<u8>)
    requires
        vstd::utf8::valid_utf8(b),
        b.len() >= 2,
        b[0] < 128,
    ensures
        vstd::utf8::is_char_boundary(b, 1),
{
    assert(vstd::utf8::is_leading_byte_width_1(b[0]));
    reveal_with_fuel(vstd::utf8::is_char_boundary, 2);
    vstd::utf8::is_char_boundary_start_end_of_seq(vstd::utf8::pop_first_scalar(b));
}


/// The whitespace tokens of `text`: one per space, line break or tab, in order.
pub open spec fn whitespace_token_views(text: Seq<char>) -> Seq<TokenView> {
    let spans = whitespace_spans(bytes_of(text), byte_len(text));
    Seq::new(spans.len(), |i: int| whitespace_token_view(text, spans[i].0))
}

/// One token per space, line break or tab of `input`, in order: spaces are of
/// kind `Whitespace`, line breaks and tabs of kind `Newline`.
pub fn whitespace_tokens(input: &str) -> (r: Vec<Token>)
    requires
        forall|i: int| 0 <= i < whitespace_spans(bytes_of(input@), byte_len(input@)).len() ==>
            (#[trigger] whitespace_spans(bytes_of(input@), byte_len(input@))[i]).1 <= u32::MAX,
    ensures
        r.len() == whitespace_token_views(input@).len(),
        forall|i: int| 0 <= i < r.len() ==> (#[trigger] r@[i])@ == whitespace_token_views(input@)[i],
{
    let ghost spans = whitespace_spans(bytes_of(input@), byte_len(input@));
    proof { lemma_whitespace_spans(bytes_of(input@), byte_len(input@)); }
    let matches = whitespace_matches(input);
    let bytes = input.as_bytes();
    let mut tokens: Vec<Token> = Vec::new();
    let mut i: usize = 0;
    while i < matches.len()
        invariant
            i <= matches.len(),
            matches@.len() == spans.len(),
            bytes@ == bytes_of(input@),
            forall|j: int| 0 <= j < matches@.len() ==>
                (#[trigger] matches@[j]).0 as int == spans[j].0 && matches@[j].1 as int == spans[j].1,
            forall|j: int| 0 <= j < spans.len() ==> {
                let s = #[trigger] spans[j];
                &&& 0 <= s.0 < byte_len(input@)
                &&& s.1 == s.0 + 1
                &&& is_whitespace_byte(bytes_of(input@)[s.0])
                &&& s.1 <= u32::MAX
            },
            tokens.len() == i,
            forall|j: int| 0 <= j < i ==> (#[trigger] tokens@[j])@ == whitespace_token_view(input@, spans[j].0),
        decreases matches.len() - i,
    {
        let (start, end) = matches[i];
        proof {
            let s = spans[i as int];
            lemma_ascii_byte_boundaries(input@, start as int);
        }
        let b = bytes[start];
        let kind = if b == 32u8 { SyntaxKind::Whitespace } else { SyntaxKind::Newline };
        let text = substring(input, start, end);
        tokens.push(Token {
            token_type: TokenType::Whitespace,
            kind,
            text,
            span: TextRange::new(start as u32, end as u32),
        });
        i = i + 1;
    }
    proof {
        assert forall|j: int| 0 <= j < tokens.len() implies (#[trigger] tokens@[j])@ == whitespace_token_views(input@)[j] by {}
    }
    tokens
}

/// `x`, or `n` if `x` is larger.
pub open spec fn clamp(x: int, n: int) -> int {
    if x < n { x } else { n }
}

/// The text of a scanned token: the characters from its start to its end,
/// counting its byte offsets as character positions and cut at the end of the
/// text.
pub open spec fn scan_text(text: Seq<char>, t: ScanToken) -> Seq<char> {
    text.subrange(clamp(t.start as int, text.len() as int), clamp(t.end as int, text.len() as int))
}

/// The token for a scanned token of `text`.
pub open spec fn scan_token_view(text: Seq<char>, t: ScanToken) -> TokenView {
    TokenView {
        kind: token_kind(t.token)->0,
        text: scan_text(text, t),
        span: TextRange { start: t.start as u32, end: t.end as u32 },
        token_type: spec_token_type(t),
    }
}

/// The text holds a space or a line break.
pub open spec fn has_space_or_newline(s: Seq<char>) -> bool {
    exists|i: int| 0 <= i < s.len() && (s[i] == ' ' || s[i] == '\n')
}

/// The index of the first whitespace token at or after `wi` that starts at or
/// after `pos`.
pub open spec fn skip_whitespace_before(ws: Seq<TokenView>, wi: int, pos: int) -> int
    decreases ws.len() - wi,
{
    if wi < ws.len() && ws[wi].span.start < pos {
        skip_whitespace_before(ws, wi + 1, pos)
    } else {
        wi
    }
}

pub proof fn lemma_skip_whitespace_before(ws: Seq<TokenView>, wi: int, pos: int)
    requires
        0 <= wi <= ws.len(),
    ensures
        wi <= skip_whitespace_before(ws, wi, pos) <= ws.len(),
    decreases ws.len() - wi,
{
    if wi < ws.len() && ws[wi].span.start < pos {
        lemma_skip_whitespace_before(ws, wi + 1, pos);
    }
}

/// The tokens the merge produces from byte `pos` on, with the whitespace
/// tokens from `wi` and the scanned tokens from `pi` left; `None` if it finds
/// no token at some position.
///
/// At each position, a scanned token that starts there comes first; its text
/// is taken from the text by character positions, and the position moves on
/// by its length in bytes. If that text holds a space or a line break, the
/// whitespace tokens that start before the new position are dropped. Else a
/// whitespace token that starts there is taken.
#[verifier::opaque]
pub open spec fn lex_from(text: Seq<char>, ws: Seq<TokenView>, pg: Seq<ScanToken>, pos: int, wi: int, pi: int) -> Option<Seq<TokenView>>
    decreases (ws.len() - wi) + (pg.len() - pi),
{
    if wi < 0 || wi > ws.len() || pi < 0 || pi > pg.len() {
        None
    } else if pos >= byte_len(text) {
        Some(seq![])
    } else if pi < pg.len() && pg[pi].start == pos {
        let tok = scan_token_view(text, pg[pi]);
        let pos2 = pos + byte_len(tok.text);
        let wi2 = if has_space_or_newline(tok.text) { skip_whitespace_before(ws, wi, pos2) } else { wi };
        proof { lemma_skip_whitespace_before(ws, wi, pos2); }
        match lex_from(text, ws, pg, pos2, wi2, pi + 1) {
            Some(rest) => Some(seq![tok] + rest),
            None => None,
        }
    } else if wi < ws.len() && ws[wi].span.start == pos {
        match lex_from(text, ws, pg, pos + byte_len(ws[wi].text), wi + 1, pi) {
            Some(rest) => Some(seq![ws[wi]] + rest),
            None => None,
        }
    } else {
        None
    }
}

/// What [`lex`] needs: offsets fit in `i32`, every scanned token has a known
/// number and `0 <= start <= end`, and the merge finds a token at every
/// position it reaches.
pub open spec fn lex_requires(text: Seq<char>, scanned: Seq<ScanToken>) -> bool {
    &&& scan_ok(text, scanned)
    &&& lex_from(text, whitespace_token_views(text), scanned, 0, 0, 0) is Some
}

/// The tokens of `text` given what the scanner found (see [`lex_from`]).
pub open spec fn lexed(text: Seq<char>, scanned: Seq<ScanToken>) -> Seq<TokenView> {
    lex_from(text, whitespace_token_views(text), scanned, 0, 0, 0)->0
}

/// Whether the text holds a space or a line break.
fn contains_space_or_newline(s: &str) -> (r: bool)
    ensures
        r == has_space_or_newline(s@),
{
    broadcast use vstd::string::group_string_axioms;
    let mut it = s.chars();
    let ghost k: int = 0;
    loop
        invariant
            0 <= k <= s@.len(),
            it.remaining() == s@.skip(k),
            it.obeys_prophetic_iter_laws(),
            forall|j: int| 0 <= j < k ==> s@[j] != ' ' && s@[j] != '\n',
        decreases s@.len() - k,
    {
        let ghost before = it.remaining();
        match it.next() {
            Some(c) => {
                proof {
                    assert(s@.skip(k)[0] == s@[k]);
                }
                if c == ' ' || c == '\n' {
                    return true;
                }
                proof {
                    assert(s@.skip(k).drop_first() =~= s@.skip(k + 1));
                    k = k + 1;
                }
            },
            None => {
                proof {
                    assert(k == s@.len());
                }
                return false;
            },
        }
    }
}

/// The index of the first whitespace token at or after `wi` that starts at or
/// after `pos`.
fn skip_whitespace_tokens(ws: &Vec<Token>, wi: usize, pos: usize) -> (r: usize)
    requires
        wi <= ws.len(),
        pos <= u32::MAX,
    ensures
        r as int == skip_whitespace_before(ws@.map_values(|t: Token| t@), wi as int, pos as int),
        wi <= r <= ws.len(),
{
    let ghost v = ws@.map_values(|t: Token| t@);
    let mut i = wi;
    while i < ws.len() && ws[i].span.start < pos as u32
        invariant
            wi <= i <= ws.len(),
            pos <= u32::MAX,
            v == ws@.map_values(|t: Token| t@),
            skip_whitespace_before(v, i as int, pos as int) == skip_whitespace_before(v, wi as int, pos as int),
        decreases ws.len() - i,
    {
        i = i + 1;
    }
    i
}

/// The bytes of a part of a text are no more than the bytes of the text.
proof fn lemma_subrange_bytes(text: Seq<char>, a: int, b: int)
    requires
        0 <= a <= b <= text.len(),
    ensures
        byte_len(text.subrange(a, b)) <= byte_len(text),
{
    let x = text.subrange(0, a);
    let y = text.subrange(a, b);
    let z = text.subrange(b, text.len() as int);
    assert(text =~= x + y + z);
    crate::strings::lemma_encode_concat(x + y, z);
    crate::strings::lemma_encode_concat(x, y);
}

/// Each whitespace token of a text is one byte long and lies in the text.
proof fn lemma_whitespace_views(text: Seq<char>)
    ensures
        forall|j: int| 0 <= j < whitespace_token_views(text).len() ==> {
            let w = #[trigger] whitespace_token_views(text)[j];
            &&& byte_len(w.text) == 1
            &&& w.span.start < byte_len(text)
        },
{
    let spans = whitespace_spans(bytes_of(text), byte_len(text));
    lemma_whitespace_spans(bytes_of(text), byte_len(text));
    assert forall|j: int| 0 <= j < whitespace_token_views(text).len() implies {
        let w = #[trigger] whitespace_token_views(text)[j];
        &&& byte_len(w.text) == 1
        &&& w.span.start < byte_len(text)
    } by {
        let st = spans[j].0;
        lemma_ascii_byte_boundaries(text, st);
        crate::strings::lemma_slice_bytes(text, st, st + 1);
    }
}

proof fn lemma_lex_end(text: Seq<char>, ws: Seq<TokenView>, pg: Seq<ScanToken>, pos: int, wi: int, pi: int)
    requires
        0 <= wi <= ws.len(),
        0 <= pi <= pg.len(),
        pos >= byte_len(text),
    ensures
        lex_from(text, ws, pg, pos, wi, pi) == Some(Seq::<TokenView>::empty()),
{
    reveal(lex_from);
}

proof fn lemma_lex_scanned(text: Seq<char>, ws: Seq<TokenView>, pg: Seq<ScanToken>, pos: int, wi: int, pi: int)
    requires
        0 <= wi <= ws.len(),
        0 <= pi < pg.len(),
        pos < byte_len(text),
        pg[pi].start == pos,
    ensures
        ({
            let tok = scan_token_view(text, pg[pi]);
            let pos2 = pos + byte_len(tok.text);
            let wi2 = if has_space_or_newline(tok.text) { skip_whitespace_before(ws, wi, pos2) } else { wi };
            lex_from(text, ws, pg, pos, wi, pi) == match lex_from(text, ws, pg, pos2, wi2, pi + 1) {
                Some(rest) => Some(seq![tok] + rest),
                None => None,
            }
        }),
{
    reveal(lex_from);
}

proof fn lemma_lex_whitespace(text: Seq<char>, ws: Seq<TokenView>, pg: Seq<ScanToken>, pos: int, wi: int, pi: int)
    requires
        0 <= wi < ws.len(),
        0 <= pi <= pg.len(),
        pos < byte_len(text),
        !(pi < pg.len() && pg[pi].start == pos),
        ws[wi].span.start == pos,
    ensures
        lex_from(text, ws, pg, pos, wi, pi) == match lex_from(text, ws, pg, pos + byte_len(ws[wi].text), wi + 1, pi) {
            Some(rest) => Some(seq![ws[wi]] + rest),
            None => None,
        },
{
    reveal(lex_from);
}

proof fn lemma_lex_stuck(text: Seq<char>, ws: Seq<TokenView>, pg: Seq<ScanToken>, pos: int, wi: int, pi: int)
    requires
        0 <= wi <= ws.len(),
        0 <= pi <= pg.len(),
        pos < byte_len(text),
        !(pi < pg.len() && pg[pi].start == pos),
        !(wi < ws.len() && ws[wi].span.start == pos),
    ensures
        lex_from(text, ws, pg, pos, wi, pi) is None,
{
    reveal(lex_from);
}

/// What the Postgres scanner's tokens must be for the merge: offsets fit in
/// `i32`, and every scanned token has a known number and `0 <= start <= end`.
pub open spec fn scan_ok(text: Seq<char>, scanned: Seq<ScanToken>) -> bool {
    &&& byte_len(text) <= i32::MAX
    &&& forall|i: int| 0 <= i < scanned.len() ==> {
        &&& 0 <= (#[trigger] scanned[i]).start <= scanned[i].end
        &&& token_kind(scanned[i].token) is Some
    }
}

/// The tokens of `text`: the tokens `scanned` by the Postgres scanner, with
/// the whitespace between them filled in, in order (see [`lex_from`]);
/// `None` where the merge finds no token at some position.
#[verifier::rlimit(40)]
pub fn try_lex(text: &str, scanned: &Vec<ScanToken>) -> (r: Option<Vec<Token>>)
    requires
        scan_ok(text@, scanned@),
    ensures
        r is Some <==> lex_from(text@, whitespace_token_views(text@), scanned@, 0, 0, 0) is Some,
        r matches Some(v) ==> lex_from(text@, whitespace_token_views(text@), scanned@, 0, 0, 0) == Some(
            v@.map_values(|t: Token| t@),
        ),
{
    let ghost wsv = whitespace_token_views(text@);
    proof {
        lemma_whitespace_spans(bytes_of(text@), byte_len(text@));
        lemma_whitespace_views(text@);
    }
    let ws = whitespace_tokens(text);
    assert(ws@.map_values(|t: Token| t@) =~= wsv);
    let n_chars = text.unicode_len();
    let len = text_len(text);
    let mut tokens: Vec<Token> = Vec::new();
    let ghost acc: Seq<TokenView> = seq![];
    let mut pos: usize = 0;
    let mut wi: usize = 0;
    let mut pi: usize = 0;
    proof {
        if lex_from(text@, wsv, scanned@, 0, 0, 0) is Some {
            assert(acc + lex_from(text@, wsv, scanned@, 0, 0, 0)->0 =~= lex_from(text@, wsv, scanned@, 0, 0, 0)->0);
        }
    }
    while pos < len
        invariant
            wsv == whitespace_token_views(text@),
            len == byte_len(text@),
            byte_len(text@) <= i32::MAX,
            n_chars == text@.len(),
            ws.len() == wsv.len(),
            ws@.map_values(|t: Token| t@) == wsv,
            forall|j: int| 0 <= j < wsv.len() ==> {
                let w = #[trigger] wsv[j];
                &&& byte_len(w.text) == 1
                &&& w.span.start < byte_len(text@)
            },
            forall|j: int| 0 <= j < scanned.len() ==> {
                &&& 0 <= (#[trigger] scanned@[j]).start <= scanned@[j].end
                &&& token_kind(scanned@[j].token) is Some
            },
            wi <= ws.len(),
            pi <= scanned.len(),
            pos <= 2 * (i32::MAX as int),
            tokens@.map_values(|t: Token| t@) == acc,
            lex_from(text@, wsv, scanned@, 0, 0, 0) == match lex_from(
                text@,
                wsv,
                scanned@,
                pos as int,
                wi as int,
                pi as int,
            ) {
                Some(rest) => Some(acc + rest),
                None => None,
            },
        decreases (ws.len() - wi) + (scanned.len() - pi),
    {
        if pi < scanned.len() && scanned[pi].start == pos as i32 {
            let t = scanned[pi];
            proof { lemma_lex_scanned(text@, wsv, scanned@, pos as int, wi as int, pi as int); }
            let s = if (t.start as usize) < n_chars { t.start as usize } else { n_chars };
            let e = if (t.end as usize) < n_chars { t.end as usize } else { n_chars };
            let token_text = text.substring_char(s, e).to_owned();
            let tl = text_len(token_text.as_str());
            let has_ws = contains_space_or_newline(token_text.as_str());
            let kind = SyntaxKind::from_token_number(t.token).unwrap();
            let tok = Token {
                token_type: TokenType::from_scan_token(&t),
                kind,
                text: token_text,
                span: TextRange::new(t.start as u32, t.end as u32),
            };
            proof {
                assert(tok@ == scan_token_view(text@, t));
                lemma_subrange_bytes(text@, s as int, e as int);
                assert(byte_len(tok@.text) <= byte_len(text@));
                assert(tl as int == byte_len(tok@.text));
            }
            let ghost tv = tok@;
            tokens.push(tok);
            pi = pi + 1;
            let ghost old_wi = wi;
            pos = pos + tl;
            if has_ws {
                wi = skip_whitespace_tokens(&ws, wi, pos);
            }
            proof {
                if lex_from(text@, wsv, scanned@, pos as int, wi as int, pi as int) is Some {
                    let rest = lex_from(text@, wsv, scanned@, pos as int, wi as int, pi as int)->0;
                    assert(acc + (seq![tv] + rest) =~= acc.push(tv) + rest);
                }
                acc = acc.push(tv);
                assert(tokens@.map_values(|t: Token| t@) =~= acc);
            }
            continue;
        }
        if wi < ws.len() && ws[wi].span.start == pos as u32 {
            proof {
                assert(ws@[wi as int]@ == wsv[wi as int]);
                lemma_lex_whitespace(text@, wsv, scanned@, pos as int, wi as int, pi as int);
            }
            let w = ws[wi].clone();
            let ghost wv = w@;
            wi = wi + 1;
            let l = text_len(w.text.as_str());
            tokens.push(w);
            pos = pos + l;
            proof {
                if lex_from(text@, wsv, scanned@, pos as int, wi as int, pi as int) is Some {
                    let rest = lex_from(text@, wsv, scanned@, pos as int, wi as int, pi as int)->0;
                    assert(acc + (seq![wv] + rest) =~= acc.push(wv) + rest);
                }
                acc = acc.push(wv);
                assert(tokens@.map_values(|t: Token| t@) =~= acc);
            }
            continue;
        }
        proof {
            lemma_lex_stuck(text@, wsv, scanned@, pos as int, wi as int, pi as int);
        }
        return None;
    }
    proof {
        lemma_lex_end(text@, wsv, scanned@, pos as int, wi as int, pi as int);
        assert(acc + seq![] =~= acc);
    }
    Some(tokens)
}

/// The tokens of `text`: the tokens `scanned` by the Postgres scanner, with
/// the whitespace between them filled in, in order (see [`lex_from`]).
pub fn lex(text: &str, scanned: &Vec<ScanToken>) -> (r: Vec<Token>)
    requires
        lex_requires(text@, scanned@),
    ensures
        lex_from(text@, whitespace_token_views(text@), scanned@, 0, 0, 0) == Some(r@.map_values(|t: Token| t@)),
{
    match try_lex(text, scanned) {
        Some(tokens) => tokens,
        None => {
            assert(false);
            Vec::new()
        },
    }
}

/// The texts of `tokens`, one after the other.
pub open spec fn tokens_text(tokens: Seq<TokenView>) -> Seq<char>
    decreases tokens.len(),
{
    if tokens.len() == 0 {
        Seq::empty()
    } else {
        tokens_text(tokens.drop_last()) + tokens.last().text
    }
}

/// The text of joined token lists is the joined texts.
pub proof fn lemma_tokens_text_concat(a: Seq<TokenView>, b: Seq<TokenView>)
    ensures
        tokens_text(a + b) == tokens_text(a) + tokens_text(b),
    decreases b.len(),
{
    if b.len() == 0 {
        assert(a + b =~= a);
        assert(tokens_text(a) + Seq::<char>::empty() =~= tokens_text(a));
    } else {
        lemma_tokens_text_concat(a, b.drop_last());
        assert((a + b).drop_last() =~= a + b.drop_last());
        assert((a + b).last() == b.last());
        assert(tokens_text(a) + tokens_text(b.drop_last()) + b.last().text =~= tokens_text(a) + (tokens_text(
            b.drop_last(),
        ) + b.last().text));
    }
}

/// In ASCII text, bytes are characters: cutting by bytes is cutting by
/// characters.
proof fn lemma_ascii_slice(text: Seq<char>, a: int, b: int)
    requires
        vstd::utf8::is_ascii_chars(text),
        0 <= a <= b <= text.len(),
    ensures
        byte_len(text) == text.len(),
        slice_bytes(text, a, b) == text.subrange(a, b),
{
    let sub = text.subrange(a, b);
    vstd::utf8::is_ascii_chars_encode_utf8(text);
    assert(vstd::utf8::is_ascii_chars(sub));
    vstd::utf8::is_ascii_chars_encode_utf8(sub);
    assert(bytes_of(text).subrange(a, b) =~= bytes_of(sub)) by {
        assert forall|i: int| 0 <= i < b - a implies bytes_of(text).subrange(a, b)[i] == #[trigger] bytes_of(sub)[i] by {
            assert(sub[i] == text[a + i]);
        }
    }
    vstd::utf8::encode_utf8_decode_utf8(sub);
}

proof fn lemma_lex_from_covers(text: Seq<char>, pg: Seq<ScanToken>, pos: int, wi: int, pi: int)
    requires
        vstd::utf8::is_ascii_chars(text),
        text.len() <= i32::MAX,
        forall|i: int| 0 <= i < pg.len() ==> 0 <= (#[trigger] pg[i]).start <= pg[i].end,
        0 <= pos <= text.len(),
        lex_from(text, whitespace_token_views(text), pg, pos, wi, pi) is Some,
    ensures
        tokens_text(lex_from(text, whitespace_token_views(text), pg, pos, wi, pi)->0) == text.subrange(
            pos,
            text.len() as int,
        ),
    decreases (whitespace_token_views(text).len() - wi) + (pg.len() - pi),
{
    reveal(lex_from);
    let ws = whitespace_token_views(text);
    lemma_ascii_slice(text, 0, 0);
    if pos >= byte_len(text) {
        assert(text.subrange(pos, text.len() as int) =~= Seq::<char>::empty());
    } else if pi < pg.len() && pg[pi].start == pos {
        let t = pg[pi];
        let tok = scan_token_view(text, t);
        let e = clamp(t.end as int, text.len() as int);
        assert(tok.text == text.subrange(pos, e));
        lemma_ascii_slice(text, pos, e);
        vstd::utf8::is_ascii_chars_encode_utf8(tok.text);
        let pos2 = pos + byte_len(tok.text);
        assert(pos2 == e);
        let wi2 = if has_space_or_newline(tok.text) {
            skip_whitespace_before(ws, wi, pos2)
        } else {
            wi
        };
        lemma_skip_whitespace_before(ws, wi, pos2);
        lemma_lex_from_covers(text, pg, pos2, wi2, pi + 1);
        let rest = lex_from(text, ws, pg, pos2, wi2, pi + 1)->0;
        lemma_tokens_text_concat(seq![tok], rest);
        assert(tokens_text(seq![tok]) =~= tok.text) by {
            assert(seq![tok].drop_last() =~= Seq::<TokenView>::empty());
            assert(tokens_text(Seq::<TokenView>::empty()) == Seq::<char>::empty());
        }
        assert(text.subrange(pos, text.len() as int) =~= text.subrange(pos, e) + text.subrange(e, text.len() as int));
    } else {
        let w = ws[wi];
        let spans = whitespace_spans(bytes_of(text), byte_len(text));
        lemma_whitespace_spans(bytes_of(text), byte_len(text));
        let st = spans[wi].0;
        assert(w == whitespace_token_view(text, st));
        assert(0 <= st < text.len());
        assert(w.span.start == st as u32);
        assert(st as u32 == st);
        assert(st == pos);
        lemma_ascii_slice(text, pos, pos + 1);
        vstd::utf8::is_ascii_chars_encode_utf8(w.text);
        lemma_lex_from_covers(text, pg, pos + 1, wi + 1, pi);
        let rest = lex_from(text, ws, pg, pos + 1, wi + 1, pi)->0;
        lemma_tokens_text_concat(seq![w], rest);
        assert(tokens_text(seq![w]) =~= w.text) by {
            assert(seq![w].drop_last() =~= Seq::<TokenView>::empty());
            assert(tokens_text(Seq::<TokenView>::empty()) == Seq::<char>::empty());
        }
        assert(text.subrange(pos, text.len() as int) =~= text.subrange(pos, pos + 1) + text.subrange(
            pos + 1,
            text.len() as int,
        ));
    }
}

/// For ASCII text the tokens cover the text: their texts, one after the
/// other, are the text.
pub proof fn lemma_lexed_tokens_cover_text(text: Seq<char>, scanned: Seq<ScanToken>)
    requires
        lex_requires(text, scanned),
        vstd::utf8::is_ascii_chars(text),
    ensures
        tokens_text(lexed(text, scanned)) == text,
{
    lemma_ascii_slice(text, 0, 0);
    lemma_lex_from_covers(text, scanned, 0, 0, 0);
    assert(text.subrange(0, text.len() as int) =~= text);
}


proof fn lemma_lex_from_starts(text: Seq<char>, ws: Seq<TokenView>, pg: Seq<ScanToken>, pos: int, wi: int, pi: int)
    requires
        0 <= pos,
        lex_from(text, ws, pg, pos, wi, pi) is Some,
    ensures
        forall|i: int| 0 <= i < lex_from(text, ws, pg, pos, wi, pi)->0.len() ==>
            (#[trigger] lex_from(text, ws, pg, pos, wi, pi)->0[i]).span.start == pos + byte_len(
                tokens_text(lex_from(text, ws, pg, pos, wi, pi)->0.take(i)),
            ),
    decreases (ws.len() - wi) + (pg.len() - pi),
{
    reveal(lex_from);
    let toks = lex_from(text, ws, pg, pos, wi, pi)->0;
    if pos < byte_len(text) {
        let (tok, pos2, rest) = if pi < pg.len() && pg[pi].start == pos {
            let tok = scan_token_view(text, pg[pi]);
            let pos2 = pos + byte_len(tok.text);
            let wi2 = if has_space_or_newline(tok.text) { skip_whitespace_before(ws, wi, pos2) } else { wi };
            lemma_skip_whitespace_before(ws, wi, pos2);
            lemma_lex_from_starts(text, ws, pg, pos2, wi2, pi + 1);
            (tok, pos2, lex_from(text, ws, pg, pos2, wi2, pi + 1)->0)
        } else {
            let tok = ws[wi];
            let pos2 = pos + byte_len(tok.text);
            lemma_lex_from_starts(text, ws, pg, pos2, wi + 1, pi);
            (tok, pos2, lex_from(text, ws, pg, pos2, wi + 1, pi)->0)
        };
        assert(toks == seq![tok] + rest);
        assert(tok.span.start == pos);
        assert forall|i: int| 0 <= i < toks.len() implies (#[trigger] toks[i]).span.start == pos + byte_len(
            tokens_text(toks.take(i)),
        ) by {
            if i == 0 {
                assert(toks.take(0) =~= Seq::<TokenView>::empty());
                assert(tokens_text(Seq::<TokenView>::empty()) =~= Seq::<char>::empty());
            } else {
                assert(toks[i] == rest[i - 1]);
                assert(toks.take(i) =~= seq![tok] + rest.take(i - 1));
                lemma_tokens_text_concat(seq![tok], rest.take(i - 1));
                assert(tokens_text(seq![tok]) =~= tok.text) by {
                    assert(seq![tok].drop_last() =~= Seq::<TokenView>::empty());
                    assert(tokens_text(Seq::<TokenView>::empty()) == Seq::<char>::empty());
                }
                crate::strings::lemma_encode_concat(tok.text, tokens_text(rest.take(i - 1)));
            }
        }
    }
}

/// The tokens follow one another without gaps: each starts, in bytes, where
/// the texts of the tokens before it end.
pub proof fn lemma_lexed_tokens_are_contiguous(text: Seq<char>, scanned: Seq<ScanToken>)
    requires
        lex_requires(text, scanned),
    ensures
        forall|i: int| 0 <= i < lexed(text, scanned).len() ==>
            (#[trigger] lexed(text, scanned)[i]).span.start == byte_len(tokens_text(lexed(text, scanned).take(i))),
{
    lemma_lex_from_starts(text, whitespace_token_views(text), scanned, 0, 0, 0);
}


/// The class of a scanned token: a comment is whitespace and nothing else
/// is; any other token has the class named like its keyword class.
pub proof fn lemma_token_type_follows_keyword_class(t: ScanToken)
    ensures
        (spec_token_type(t) == TokenType::Whitespace) <==> t.token == SQL_COMMENT_TOKEN,
        t.token != SQL_COMMENT_TOKEN ==> {
            &&& (t.keyword_kind == KeywordKind::NoKeyword) <==> (spec_token_type(t) == TokenType::NoKeyword)
            &&& (t.keyword_kind == KeywordKind::UnreservedKeyword) <==> (spec_token_type(t)
                == TokenType::UnreservedKeyword)
            &&& (t.keyword_kind == KeywordKind::ColNameKeyword) <==> (spec_token_type(t) == TokenType::ColNameKeyword)
            &&& (t.keyword_kind == KeywordKind::TypeFuncNameKeyword) <==> (spec_token_type(t)
                == TokenType::TypeFuncNameKeyword)
            &&& (t.keyword_kind == KeywordKind::ReservedKeyword) <==> (spec_token_type(t)
                == TokenType::ReservedKeyword)
        },
{
}

proof fn lemma_lex_from_origin(text: Seq<char>, ws: Seq<TokenView>, pg: Seq<ScanToken>, pos: int, wi: int, pi: int)
    requires
        lex_from(text, ws, pg, pos, wi, pi) is Some,
    ensures
        forall|x: int| 0 <= x < lex_from(text, ws, pg, pos, wi, pi)->0.len() ==> (exists|w: int|
            0 <= w < ws.len() && #[trigger] lex_from(text, ws, pg, pos, wi, pi)->0[x] == ws[w]) || (exists|i: int|
            0 <= i < pg.len() && lex_from(text, ws, pg, pos, wi, pi)->0[x] == scan_token_view(text, pg[i])),
    decreases (ws.len() - wi) + (pg.len() - pi),
{
    reveal(lex_from);
    let toks = lex_from(text, ws, pg, pos, wi, pi)->0;
    if pos < byte_len(text) {
        if pi < pg.len() && pg[pi].start == pos {
            let tok = scan_token_view(text, pg[pi]);
            let pos2 = pos + byte_len(tok.text);
            let wi2 = if has_space_or_newline(tok.text) { skip_whitespace_before(ws, wi, pos2) } else { wi };
            lemma_skip_whitespace_before(ws, wi, pos2);
            lemma_lex_from_origin(text, ws, pg, pos2, wi2, pi + 1);
            let rest = lex_from(text, ws, pg, pos2, wi2, pi + 1)->0;
            assert(toks == seq![tok] + rest);
            assert forall|x: int| 0 <= x < toks.len() implies (exists|w: int| 0 <= w < ws.len() && #[trigger] toks[x]
                == ws[w]) || (exists|i: int| 0 <= i < pg.len() && toks[x] == scan_token_view(text, pg[i])) by {
                if x == 0 {
                    assert(toks[0] == scan_token_view(text, pg[pi]));
                } else {
                    assert(toks[x] == rest[x - 1]);
                }
            }
        } else {
            let rest = lex_from(text, ws, pg, pos + byte_len(ws[wi].text), wi + 1, pi)->0;
            lemma_lex_from_origin(text, ws, pg, pos + byte_len(ws[wi].text), wi + 1, pi);
            assert(toks == seq![ws[wi]] + rest);
            assert forall|x: int| 0 <= x < toks.len() implies (exists|w: int| 0 <= w < ws.len() && #[trigger] toks[x]
                == ws[w]) || (exists|i: int| 0 <= i < pg.len() && toks[x] == scan_token_view(text, pg[i])) by {
                if x == 0 {
                    assert(toks[0] == ws[wi]);
                } else {
                    assert(toks[x] == rest[x - 1]);
                }
            }
        }
    }
}

/// Every lexed token that is not whitespace is a scanned token that is not a
/// comment, at its start and of its kind, and its class is the one named like
/// the scanned token's keyword class.
pub proof fn lemma_lexed_token_types(text: Seq<char>, scanned: Seq<ScanToken>)
    requires
        lex_requires(text, scanned),
    ensures
        forall|x: int| 0 <= x < lexed(text, scanned).len() && (#[trigger] lexed(text, scanned)[x]).token_type
            != TokenType::Whitespace ==> exists|i: int| #![trigger scanned[i]] {
            let t = scanned[i];
            let tok = lexed(text, scanned)[x];
            &&& 0 <= i < scanned.len()
            &&& t.token != SQL_COMMENT_TOKEN
            &&& tok.span.start == t.start
            &&& tok.kind == token_kind(t.token)->0
            &&& (t.keyword_kind == KeywordKind::NoKeyword ==> tok.token_type == TokenType::NoKeyword)
            &&& (t.keyword_kind == KeywordKind::UnreservedKeyword ==> tok.token_type == TokenType::UnreservedKeyword)
            &&& (t.keyword_kind == KeywordKind::ColNameKeyword ==> tok.token_type == TokenType::ColNameKeyword)
            &&& (t.keyword_kind == KeywordKind::TypeFuncNameKeyword ==> tok.token_type
                == TokenType::TypeFuncNameKeyword)
            &&& (t.keyword_kind == KeywordKind::ReservedKeyword ==> tok.token_type == TokenType::ReservedKeyword)
        },
{
    let ws = whitespace_token_views(text);
    lemma_lex_from_origin(text, ws, scanned, 0, 0, 0);
    let toks = lexed(text, scanned);
    assert forall|x: int| 0 <= x < toks.len() && (#[trigger] toks[x]).token_type != TokenType::Whitespace implies exists|i: int| #![trigger scanned[i]] {
        let t = scanned[i];
        let tok = toks[x];
        &&& 0 <= i < scanned.len()
        &&& t.token != SQL_COMMENT_TOKEN
        &&& tok.span.start == t.start
        &&& tok.kind == token_kind(t.token)->0
        &&& (t.keyword_kind == KeywordKind::NoKeyword ==> tok.token_type == TokenType::NoKeyword)
        &&& (t.keyword_kind == KeywordKind::UnreservedKeyword ==> tok.token_type == TokenType::UnreservedKeyword)
        &&& (t.keyword_kind == KeywordKind::ColNameKeyword ==> tok.token_type == TokenType::ColNameKeyword)
        &&& (t.keyword_kind == KeywordKind::TypeFuncNameKeyword ==> tok.token_type == TokenType::TypeFuncNameKeyword)
        &&& (t.keyword_kind == KeywordKind::ReservedKeyword ==> tok.token_type == TokenType::ReservedKeyword)
    } by {
        if exists|w: int| 0 <= w < ws.len() && toks[x] == ws[w] {
            let w = choose|w: int| 0 <= w < ws.len() && toks[x] == ws[w];
            assert(ws[w].token_type == TokenType::Whitespace);
        } else {
            let i = choose|i: int| 0 <= i < scanned.len() && toks[x] == scan_token_view(text, scanned[i]);
            lemma_token_type_follows_keyword_class(scanned[i]);
            assert(0 <= scanned[i].start) by {
                assert(scan_ok(text, scanned));
            }
        }
    }
}

} // verus!
