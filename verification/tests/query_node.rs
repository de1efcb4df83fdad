use pglsp::lexer::{Token, TokenType};
use pglsp::query_node::{aliases, cmp_tokens, is_skippable, TokenProperty};
use pglsp::syntax_kind::SyntaxKind;
use pglsp::text::TextRange;

fn token(kind: SyntaxKind, text: &str) -> Token {
    Token { kind, text: text.to_string(), span: TextRange::new(0, text.len() as u32), token_type: TokenType::NoKeyword }
}

#[test]
fn aliases_of_data_types() {
    assert_eq!(aliases("int"), vec!["integer", "int", "int4"]);
    assert_eq!(aliases("float4"), vec!["real", "float4"]);
    assert_eq!(aliases("text"), vec!["text"]);
}

#[test]
fn tokens_match_by_value_and_kind() {
    let by_value = TokenProperty { value: Some("integer".to_string()), kind: None };
    assert!(cmp_tokens(&by_value, &token(SyntaxKind::Ident, "INT4")));
    assert!(!cmp_tokens(&by_value, &token(SyntaxKind::Ident, "text")));
    let quoted = TokenProperty { value: Some("abc".to_string()), kind: Some(SyntaxKind::Sconst) };
    assert!(cmp_tokens(&quoted, &token(SyntaxKind::Sconst, "'abc'")));
    assert!(!cmp_tokens(&quoted, &token(SyntaxKind::Ident, "'abc'")));
    let by_kind = TokenProperty { value: None, kind: Some(SyntaxKind::Ascii59) };
    assert!(cmp_tokens(&by_kind, &token(SyntaxKind::Ascii59, ";")));
}

#[test]
fn punctuation_is_skippable() {
    assert!(is_skippable(SyntaxKind::Ascii40));
    assert!(is_skippable(SyntaxKind::Ascii59));
    assert!(!is_skippable(SyntaxKind::Select));
}
