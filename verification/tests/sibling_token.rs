use pglsp::syntax_kind::SyntaxKind;

#[test]
fn test_siblings() {
    assert_eq!(SyntaxKind::Ascii40.is_opening_sibling(), true);
    assert_eq!(SyntaxKind::Ascii40.get_closing_sibling(), SyntaxKind::Ascii41);
}

#[test]
fn closing_bracket_is_a_closing_sibling() {
    assert!(SyntaxKind::Ascii41.is_closing_sibling());
    assert!(!SyntaxKind::Ascii41.is_opening_sibling());
    assert_eq!(SyntaxKind::Ascii41.get_opening_sibling(), SyntaxKind::Ascii40);
}

#[test]
fn other_kinds_are_no_siblings() {
    assert!(!SyntaxKind::Select.is_opening_sibling());
    assert!(!SyntaxKind::Select.is_closing_sibling());
}

#[test]
fn opening_and_closing_siblings_round_trip() {
    let open = SyntaxKind::Ascii40;
    assert_eq!(open.get_closing_sibling().get_opening_sibling(), open);
}
