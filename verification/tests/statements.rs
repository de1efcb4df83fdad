use pglsp::source::try_get_statements;
use pglsp::lexer::{KeywordKind, ScanToken};
use pglsp::source::get_statements;

fn scan(start: i32, end: i32, token: i32, keyword_kind: KeywordKind) -> ScanToken {
    ScanToken { start, end, token, keyword_kind }
}

const SELECT: i32 = 653;
const ICONST: i32 = 266;
const SEMICOLON: i32 = 59;
const ALTER: i32 = 288;
const TABLE: i32 = 692;
const IDENT: i32 = 258;
const RENAME: i32 = 625;
const TO: i32 = 705;

fn select_tokens(offsets: &[(i32, i32)]) -> Vec<ScanToken> {
    let mut v = Vec::new();
    for &(start, number_start) in offsets {
        v.push(scan(start, start + 6, SELECT, KeywordKind::ReservedKeyword));
        v.push(scan(number_start, number_start + 1, ICONST, KeywordKind::NoKeyword));
        v.push(scan(number_start + 1, number_start + 2, SEMICOLON, KeywordKind::NoKeyword));
    }
    v
}

#[test]
fn test_get_statements() {
    let input = "select 1;   \n select 2; \n select 3;";
    let scanned = select_tokens(&[(0, 7), (14, 21), (26, 33)]);

    let ranges = get_statements(input, &scanned);

    assert_eq!(ranges.len(), 3);

    assert_eq!(input.get(ranges[0].0.start() as usize..ranges[0].0.end() as usize), Some("select 1;"));
    assert_eq!(input.get(ranges[1].0.start() as usize..ranges[1].0.end() as usize), Some("select 2;"));
    assert_eq!(input.get(ranges[2].0.start() as usize..ranges[2].0.end() as usize), Some("select 3;"));
}

#[test]
fn statement_texts_are_their_ranges() {
    let input = "select 1;   \n select 2; \n select 3;";
    let scanned = select_tokens(&[(0, 7), (14, 21), (26, 33)]);
    for (range, text) in get_statements(input, &scanned) {
        assert_eq!(&input[range.start() as usize..range.end() as usize], text);
    }
}

#[test]
fn a_statement_ends_where_the_next_starts() {
    // the first statement has no `;`: it ends before the next `select`
    let input = "select 1 select 2;";
    let scanned = vec![
        scan(0, 6, SELECT, KeywordKind::ReservedKeyword),
        scan(7, 8, ICONST, KeywordKind::NoKeyword),
        scan(9, 15, SELECT, KeywordKind::ReservedKeyword),
        scan(16, 17, ICONST, KeywordKind::NoKeyword),
        scan(17, 18, SEMICOLON, KeywordKind::NoKeyword),
    ];
    let ranges = get_statements(input, &scanned);
    assert_eq!(ranges.len(), 2);
    assert_eq!(ranges[0].1, "select 1");
    assert_eq!(ranges[1].1, "select 2;");
}

#[test]
fn alter_table_rename_is_one_statement() {
    let input = "alter table x rename to y;";
    let scanned = vec![
        scan(0, 5, ALTER, KeywordKind::UnreservedKeyword),
        scan(6, 11, TABLE, KeywordKind::ReservedKeyword),
        scan(12, 13, IDENT, KeywordKind::NoKeyword),
        scan(14, 20, RENAME, KeywordKind::UnreservedKeyword),
        scan(21, 23, TO, KeywordKind::ReservedKeyword),
        scan(24, 25, IDENT, KeywordKind::NoKeyword),
        scan(25, 26, SEMICOLON, KeywordKind::NoKeyword),
    ];
    let ranges = get_statements(input, &scanned);
    assert_eq!(ranges.len(), 1);
    assert_eq!(ranges[0].1, "alter table x rename to y;");
    assert_eq!(ranges[0].0.start(), 0);
    assert_eq!(ranges[0].0.end(), 26);
}

#[test]
fn text_without_statements_gives_none() {
    let input = "1;";
    let scanned = vec![scan(0, 1, ICONST, KeywordKind::NoKeyword), scan(1, 2, SEMICOLON, KeywordKind::NoKeyword)];
    assert!(get_statements(input, &scanned).is_empty());
}

#[test]
fn checked_statements_of_an_empty_text() {
    assert!(try_get_statements("", &vec![]).is_none());
    let input = "select 1;";
    let scanned = select_tokens(&[(0, 7)]);
    let found = try_get_statements(input, &scanned).unwrap();
    assert_eq!(found.len(), 1);
    assert_eq!(found[0].1, "select 1;");
}
