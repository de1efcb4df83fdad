use pglsp::source::try_parse_source;
use pglsp::lexer::{lex, KeywordKind, ScanToken, Token, TokenType};
use pglsp::text::TextRange;
use pglsp::parser::{Event, Parser};
use pglsp::source::{parse_source, source};
use pglsp::statement_start::statement_start_token_maps;
use pglsp::syntax_kind::SyntaxKind;

fn scan(start: i32, end: i32, token: i32, keyword_kind: KeywordKind) -> ScanToken {
    ScanToken { start, end, token, keyword_kind }
}

const SELECT: i32 = 653;
const ICONST: i32 = 266;
const SEMICOLON: i32 = 59;

fn parser_for_select() -> Parser {
    let text = "select  1;";
    let scanned = vec![
        scan(0, 6, SELECT, KeywordKind::ReservedKeyword),
        scan(8, 9, ICONST, KeywordKind::NoKeyword),
        scan(9, 10, SEMICOLON, KeywordKind::NoKeyword),
    ];
    Parser::new(lex(text, &scanned))
}

#[test]
fn spaces_are_held_back_until_the_next_token() {
    let mut p = parser_for_select();
    p.start_node(SyntaxKind::SourceFile);
    p.advance(); // select
    p.advance(); // space
    p.advance(); // space
    assert_eq!(p.whitespace_token_buffer, Some(1));
    assert_eq!(p.events.len(), 2);
    p.advance(); // 1
    assert_eq!(p.whitespace_token_buffer, None);
    assert_eq!(
        p.events,
        vec![
            Event::StartNode(SyntaxKind::SourceFile),
            Event::Token(SyntaxKind::Select, "select".to_string()),
            Event::Token(SyntaxKind::Whitespace, " ".to_string()),
            Event::Token(SyntaxKind::Whitespace, " ".to_string()),
            Event::Token(SyntaxKind::Iconst, "1".to_string()),
        ]
    );
}

#[test]
fn a_token_buffer_keeps_tokens_out_of_the_tree() {
    let mut p = parser_for_select();
    p.open_buffer();
    p.advance();
    p.advance();
    p.advance();
    p.advance();
    assert!(p.events.is_empty());
    let range = p.close_buffer();
    assert_eq!(range, 0..4);
    assert_eq!(p.pos, 0);
    assert_eq!(p.token_buffer, None);
}

#[test]
fn lookahead_skips_whitespace_when_asked() {
    let p = parser_for_select();
    assert_eq!(p.nth(1, false).kind, SyntaxKind::Whitespace);
    assert_eq!(p.nth(1, true).kind, SyntaxKind::Iconst);
    assert_eq!(p.nth(2, true).kind, SyntaxKind::Ascii59);
    assert_eq!(p.nth(3, true).kind, SyntaxKind::Eof);
    assert!(p.at(SyntaxKind::Select));
    assert!(p.at_any(&[SyntaxKind::Insert, SyntaxKind::Select]));
    assert!(p.at_all(&[SyntaxKind::Select, SyntaxKind::Whitespace]));
    assert!(!p.at_all(&[SyntaxKind::Select, SyntaxKind::Iconst]));
}

#[test]
fn eat_whitespace_passes_spaces() {
    let mut p = parser_for_select();
    assert!(p.eat(SyntaxKind::Select));
    assert!(!p.eat(SyntaxKind::Select));
    p.eat_whitespace();
    assert_eq!(p.pos, 3);
    assert!(p.at(SyntaxKind::Iconst));
}

#[test]
fn expect_records_an_error_when_the_token_differs() {
    let mut p = parser_for_select();
    p.expect(SyntaxKind::Insert);
    assert_eq!(p.pos, 0);
    let errors = p.finish().errors;
    assert_eq!(errors.len(), 1);
    assert_eq!(errors[0].range.start, 6);
    assert!(errors[0].message.starts_with("Expected Insert, found"));
}

#[test]
fn source_without_statements() {
    let text = "1;";
    let scanned = vec![scan(0, 1, ICONST, KeywordKind::NoKeyword), scan(1, 2, SEMICOLON, KeywordKind::NoKeyword)];
    let parse = parse_source(text, &scanned);
    assert_eq!(
        parse.events,
        vec![
            Event::StartNode(SyntaxKind::SourceFile),
            Event::Token(SyntaxKind::Iconst, "1".to_string()),
            Event::Token(SyntaxKind::Ascii59, ";".to_string()),
            Event::FinishNode,
        ]
    );
    assert!(parse.errors.is_empty());
}

fn token_texts(events: &[Event]) -> String {
    let mut out = String::new();
    for e in events {
        if let Event::Token(_, t) = e {
            out.push_str(t);
        }
    }
    out
}

#[test]
fn source_parser_steps_over_a_statement() {
    let text = "select 1;";
    let scanned = vec![
        scan(0, 6, SELECT, KeywordKind::ReservedKeyword),
        scan(7, 8, ICONST, KeywordKind::NoKeyword),
        scan(8, 9, SEMICOLON, KeywordKind::NoKeyword),
    ];
    let parse = try_parse_source(text, &scanned).unwrap();
    assert_eq!(parse.events.first(), Some(&Event::StartNode(SyntaxKind::SourceFile)));
    assert_eq!(parse.events.last(), Some(&Event::FinishNode));
    assert_eq!(token_texts(&parse.events), text);
    assert!(parse.errors.is_empty());
}

#[test]
fn test_parser_very_simple() {
    let input = "select * from public.contact where x = 1;";
    let scanned = vec![
        scan(0, 6, SELECT, KeywordKind::ReservedKeyword),
        scan(7, 8, 42, KeywordKind::NoKeyword),
        scan(9, 13, 435, KeywordKind::ReservedKeyword),
        scan(14, 20, 258, KeywordKind::NoKeyword),
        scan(20, 21, 46, KeywordKind::NoKeyword),
        scan(21, 28, 258, KeywordKind::NoKeyword),
        scan(29, 34, 747, KeywordKind::ReservedKeyword),
        scan(35, 36, 258, KeywordKind::NoKeyword),
        scan(37, 38, 61, KeywordKind::NoKeyword),
        scan(39, 40, ICONST, KeywordKind::NoKeyword),
        scan(40, 41, SEMICOLON, KeywordKind::NoKeyword),
    ];
    let mut p = Parser::new(lex(input, &scanned));
    let maps = statement_start_token_maps();
    source(&mut p, &maps);
    let result = p.finish();
    assert_eq!(token_texts(&result.events), input);
}

#[test]
fn expectation_messages_print_kinds_and_tokens() {
    let token = Token {
        kind: SyntaxKind::Iconst,
        text: "4\"\\\n\u{1}é".to_string(),
        span: TextRange::new(7, 15),
        token_type: TokenType::NoKeyword,
    };
    assert_eq!(
        pglsp::message::expected_token_text(SyntaxKind::Select, &token),
        "Expected Select, found Token {\n    kind: Iconst,\n    text: \"4\\\"\\\\\\n\\u{1}é\",\n    span: 7..15,\n    token_type: NoKeyword,\n}"
    );
    assert_eq!(
        pglsp::message::expected_kind_text(SyntaxKind::NoneKw, SyntaxKind::Ascii59),
        "Expected None, found Ascii59"
    );
}
