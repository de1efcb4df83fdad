use pglsp::lexer::{KeywordKind, ScanToken};
use pglsp::statement_parser::get_token_type_from_pg_query_token;
use pglsp::source_file::{parse_source_file, EventRecorder, RecordedEvent, SourceFileToken};
use pglsp::statement_lexer::StatementToken as LexerToken;
use pglsp::statement_parser::{get_token_type_from_statement_token, StatementToken, TokenType};
use pglsp::syntax_kind::SyntaxKind;

#[test]
fn comments_and_line_breaks_become_tokens() {
    let pieces = vec![
        (SourceFileToken::Comment, "-- test comment".to_string()),
        (SourceFileToken::Newline, "\n\n".to_string()),
    ];
    let mut sink = EventRecorder::new();
    parse_source_file(&pieces, &mut sink);
    assert_eq!(
        sink.events,
        vec![
            RecordedEvent::StartNode(SyntaxKind::SourceFile),
            RecordedEvent::Token(SyntaxKind::Comment, "-- test comment".to_string()),
            RecordedEvent::Token(SyntaxKind::Newline, "\n\n".to_string()),
            RecordedEvent::FinishNode,
        ]
    );
}

#[test]
fn statement_tokens_have_their_kinds() {
    assert_eq!(StatementToken::Whitespace.syntax_kind(), SyntaxKind::Whitespace);
    assert_eq!(StatementToken::Comment.syntax_kind(), SyntaxKind::Comment);
    assert_eq!(LexerToken::Ascii59.syntax_kind(), SyntaxKind::Ascii59);
    assert_eq!(LexerToken::Word.syntax_kind(), SyntaxKind::Word);
    assert_eq!(LexerToken::Sconst.syntax_kind(), SyntaxKind::Sconst);
}

#[test]
fn whitespace_follows() {
    assert_eq!(get_token_type_from_statement_token(&StatementToken::Whitespace), Some(TokenType::Follow));
    assert_eq!(get_token_type_from_statement_token(&StatementToken::Newline), Some(TokenType::Follow));
    assert_eq!(get_token_type_from_statement_token(&StatementToken::Tab), None);
    assert_eq!(get_token_type_from_statement_token(&StatementToken::Comment), None);
}

#[test]
fn scanned_token_types() {
    let t = |token: i32, keyword_kind: KeywordKind| ScanToken { start: 0, end: 1, token, keyword_kind };
    assert_eq!(get_token_type_from_pg_query_token(&t(59, KeywordKind::NoKeyword)), Some(TokenType::Close));
    assert_eq!(get_token_type_from_pg_query_token(&t(40, KeywordKind::NoKeyword)), Some(TokenType::Follow));
    assert_eq!(get_token_type_from_pg_query_token(&t(435, KeywordKind::ReservedKeyword)), Some(TokenType::Follow));
    assert_eq!(get_token_type_from_pg_query_token(&t(653, KeywordKind::ReservedKeyword)), None);
    assert_eq!(get_token_type_from_pg_query_token(&t(728, KeywordKind::UnreservedKeyword)), Some(TokenType::Follow));
}
