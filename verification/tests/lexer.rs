use pglsp::lexer::try_lex;
use pglsp::lexer::{lex, KeywordKind, ScanToken, TokenType};
use pglsp::syntax_kind::SyntaxKind;

fn scan(start: i32, end: i32, token: i32, keyword_kind: KeywordKind) -> ScanToken {
    ScanToken { start, end, token, keyword_kind }
}

const SELECT: i32 = 653;
const ICONST: i32 = 266;
const SEMICOLON: i32 = 59;
const SQL_COMMENT: i32 = 275;

#[test]
fn test_lexer() {
    let input = "select 1; \n -- some comment \n select 2";
    let scanned = vec![
        scan(0, 6, SELECT, KeywordKind::ReservedKeyword),
        scan(7, 8, ICONST, KeywordKind::NoKeyword),
        scan(8, 9, SEMICOLON, KeywordKind::NoKeyword),
        scan(12, 28, SQL_COMMENT, KeywordKind::NoKeyword),
        scan(30, 36, SELECT, KeywordKind::ReservedKeyword),
        scan(37, 38, ICONST, KeywordKind::NoKeyword),
    ];

    let tokens = lex(input, &scanned);
    let mut tokens_iter = tokens.iter();

    let token = tokens_iter.next().unwrap();
    assert_eq!(token.kind, SyntaxKind::Select);
    assert_eq!(token.text, "select");

    let token = tokens_iter.next().unwrap();
    assert_eq!(token.kind, SyntaxKind::Whitespace);

    let token = tokens_iter.next().unwrap();
    assert_eq!(token.kind, SyntaxKind::Iconst);
    assert_eq!(token.text, "1");

    let token = tokens_iter.next().unwrap();
    assert_eq!(token.kind, SyntaxKind::Ascii59);

    let token = tokens_iter.next().unwrap();
    assert_eq!(token.kind, SyntaxKind::Whitespace);

    let token = tokens_iter.next().unwrap();
    assert_eq!(token.kind, SyntaxKind::Newline);

    let token = tokens_iter.next().unwrap();
    assert_eq!(token.kind, SyntaxKind::Whitespace);

    let token = tokens_iter.next().unwrap();
    assert_eq!(token.kind, SyntaxKind::SqlComment);
    assert_eq!(token.text, "-- some comment ");

    let token = tokens_iter.next().unwrap();
    assert_eq!(token.kind, SyntaxKind::Newline);

    let token = tokens_iter.next().unwrap();
    assert_eq!(token.kind, SyntaxKind::Whitespace);

    let token = tokens_iter.next().unwrap();
    assert_eq!(token.kind, SyntaxKind::Select);
    assert_eq!(token.text, "select");

    let token = tokens_iter.next().unwrap();
    assert_eq!(token.kind, SyntaxKind::Whitespace);

    let token = tokens_iter.next().unwrap();
    assert_eq!(token.kind, SyntaxKind::Iconst);
    assert_eq!(token.text, "2");
}

#[test]
fn comments_count_as_whitespace() {
    let c = scan(0, 4, SQL_COMMENT, KeywordKind::NoKeyword);
    assert_eq!(TokenType::from_scan_token(&c), TokenType::Whitespace);
    let s = scan(0, 6, SELECT, KeywordKind::ReservedKeyword);
    assert_eq!(TokenType::from_scan_token(&s), TokenType::ReservedKeyword);
}

#[test]
fn whitespace_tokens_fill_the_gaps() {
    let input = "select\t 1";
    let scanned = vec![scan(0, 6, SELECT, KeywordKind::ReservedKeyword), scan(8, 9, ICONST, KeywordKind::NoKeyword)];
    let tokens = lex(input, &scanned);
    let kinds: Vec<SyntaxKind> = tokens.iter().map(|t| t.kind).collect();
    assert_eq!(kinds, vec![SyntaxKind::Select, SyntaxKind::Newline, SyntaxKind::Whitespace, SyntaxKind::Iconst]);
    assert_eq!(tokens[1].text, "\t");
    assert_eq!(tokens[1].token_type, TokenType::Whitespace);
    assert_eq!(tokens[3].span.start, 8);
    assert_eq!(tokens[3].span.end, 9);
}

#[test]
fn empty_text_has_no_tokens() {
    let tokens = lex("", &vec![]);
    assert!(tokens.is_empty());
}

#[test]
fn merge_fails_without_a_token_at_a_position() {
    // no scanned token covers the `x`
    assert!(try_lex("x", &vec![]).is_none());
    let scanned = vec![scan(0, 6, SELECT, KeywordKind::ReservedKeyword)];
    let tokens = try_lex("select", &scanned).unwrap();
    assert_eq!(tokens.len(), 1);
}
