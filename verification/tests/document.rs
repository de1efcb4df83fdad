use pglsp::change::{Change, DocumentChange, StatementChange};
use pglsp::document::{Document, DocumentParams, StatementRef};
use pglsp::path::PgLspPath;
use pglsp::text::TextRange;

/// Splits a text into one statement per line that holds more than
/// whitespace; enough for the texts of these tests.
fn split_lines(text: &String) -> Vec<TextRange> {
    let mut ranges = Vec::new();
    let mut start = 0usize;
    for line in text.split('\n') {
        let trimmed_start = line.len() - line.trim_start().len();
        let trimmed = line.trim();
        if !trimmed.is_empty() {
            let s = (start + trimmed_start) as u32;
            ranges.push(TextRange::new(s, s + trimmed.len() as u32));
        }
        start += line.len() + 1;
    }
    ranges
}

/// Splits a text into statements: each one starts at the first character that
/// is no whitespace and ends after its `;`, or after the line break that
/// precedes a line starting with `select`, or at the end of the text.
fn split_statements(text: &String) -> Vec<TextRange> {
    let bytes = text.as_bytes();
    let mut ranges = Vec::new();
    let mut pos = 0usize;
    loop {
        while pos < bytes.len() && (bytes[pos] as char).is_whitespace() {
            pos += 1;
        }
        if pos >= bytes.len() {
            break;
        }
        let start = pos;
        let mut end = bytes.len();
        while pos < bytes.len() {
            if bytes[pos] == b';' {
                end = pos + 1;
                break;
            }
            if bytes[pos] == b'\n' && text[pos + 1..].trim_start().starts_with("select") {
                end = pos + 1;
                break;
            }
            pos += 1;
        }
        ranges.push(TextRange::new(start as u32, end as u32));
        pos = end;
    }
    ranges
}

#[test]
fn test_document_apply_changes() {
    let input = "select id from users;\nselect * from contacts;";

    let mut d = Document::new(
        DocumentParams { url: PgLspPath::new("test.sql"), text: input.to_string() },
        &split_statements,
    );

    assert_eq!(d.statement_ranges.len(), 2);

    let mut change = DocumentChange::new(
        1,
        vec![Change { text: ",test from users\nselect 1;".to_string(), range: Some(TextRange::new(9, 45)) }],
    );

    change.apply(&mut d, &split_statements);
    let changed = change.collect_statement_changes();

    assert_eq!(changed.len(), 4);
    assert_eq!(
        changed[0].statement().to_owned(),
        StatementRef { document_url: PgLspPath::new("test.sql"), text: "select id from users;".to_string(), idx: 0 }
    );
    assert_eq!(
        changed[1].statement().to_owned(),
        StatementRef { document_url: PgLspPath::new("test.sql"), text: "select * from contacts;".to_string(), idx: 1 }
    );

    assert_eq!("select id,test from users\nselect 1;", d.text);
    assert_eq!(d.statement_ranges.len(), 2);

    for r in &split_statements(&d.text) {
        assert_eq!(
            d.statement_ranges.iter().position(|x| r == x).is_some(),
            true,
            "should have stmt with range {:#?}",
            r
        );
    }

    assert_eq!(d.statement_ranges[0], TextRange::new(0, 26));
    assert_eq!(d.statement_ranges[1], TextRange::new(26, 35));
}

#[test]
fn test_statements_at_range() {
    let url = PgLspPath::new("test.sql");

    let doc = Document::new(
        DocumentParams {
            url,
            text: "select unknown from contact;\n\nselect 12345;\n\nalter table test drop column id;\n".to_string(),
        },
        &split_lines,
    );

    let x = doc.statements_at_range(&TextRange::new(2, 5));

    assert_eq!(x.len(), 1);

    assert_eq!(x[0].text, "select unknown from contact;");
}

#[test]
fn test_document_apply_changes_replacement() {
    let path = PgLspPath::new("test.sql");

    let mut doc = Document::new_empty(path);

    let mut c = DocumentChange::new(1, vec![Change { range: None, text: "select 1;\nselect 2;".to_string() }]);

    c.apply(&mut doc, &split_lines);

    assert_eq!(doc.statement_ref(0).text, "select 1;".to_string());
    assert_eq!(doc.statement_ref(1).text, "select 2;".to_string());
    assert_eq!(doc.statement_ranges[0], TextRange::new(0, 9));
    assert_eq!(doc.statement_ranges[1], TextRange::new(10, 19));

    let mut c = DocumentChange::new(2, vec![Change { range: Some(TextRange::new(7, 8)), text: "".to_string() }]);

    c.apply(&mut doc, &split_lines);

    assert_eq!(doc.text, "select ;\nselect 2;");
    assert_eq!(doc.statement_refs().len(), 2);
    assert_eq!(doc.statement_ref(0).text, "select ;".to_string());
    assert_eq!(doc.statement_ref(1).text, "select 2;".to_string());
}

#[test]
fn test_document_apply_changes_within_statement() {
    let input = "select id  from users;\nselect * from contacts;";

    let mut d = Document::new(
        DocumentParams { url: PgLspPath::new("test.sql"), text: input.to_string() },
        &split_lines,
    );

    assert_eq!(d.statement_ranges.len(), 2);

    let stmt_1_range = d.statement_ranges[0];
    let stmt_2_range = d.statement_ranges[1];

    let update_text = ",test";
    let update_range = TextRange::new(9, 10);
    let update_text_len = update_text.chars().count() as u32;
    let update_addition = update_text_len - update_range.len();

    let mut change = DocumentChange::new(1, vec![Change { text: update_text.to_string(), range: Some(update_range) }]);

    change.apply(&mut d, &split_lines);

    assert_eq!("select id,test from users;\nselect * from contacts;", d.text);
    assert_eq!(d.statement_ranges.len(), 2);
    assert_eq!(d.statement_ranges[0].start(), stmt_1_range.start());
    assert_eq!(d.statement_ranges[0].end(), stmt_1_range.end() + update_addition);
    assert_eq!(d.statement_ranges[1].start(), stmt_2_range.start() + update_addition);
    assert_eq!(d.statement_ranges[1].end(), stmt_2_range.end() + update_addition);
}

#[test]
fn test_document_apply_changes_at_end_of_statement() {
    let input = "select id from\nselect * from contacts;";

    let mut d = Document::new(
        DocumentParams { url: PgLspPath::new("test.sql"), text: input.to_string() },
        &split_lines,
    );

    assert_eq!(d.statement_ranges.len(), 2);

    let stmt_1_range = d.statement_ranges[0];
    let stmt_2_range = d.statement_ranges[1];

    let update_text = " contacts;";
    let update_range = TextRange::new(14, 14);
    let update_text_len = update_text.chars().count() as u32;
    let update_addition = update_text_len - update_range.len();

    let mut change = DocumentChange::new(1, vec![Change { text: update_text.to_string(), range: Some(update_range) }]);

    change.apply(&mut d, &split_lines);

    assert_eq!("select id from contacts;\nselect * from contacts;", d.text);
    assert_eq!(d.statement_ranges.len(), 2);
    assert_eq!(d.statement_ranges[0].start(), stmt_1_range.start());
    assert_eq!(d.statement_ranges[0].end(), stmt_1_range.end() + update_addition);
    assert_eq!(d.statement_ranges[1].start(), stmt_2_range.start() + update_addition);
    assert_eq!(d.statement_ranges[1].end(), stmt_2_range.end() + update_addition);
}

#[test]
fn whole_file_change_deletes_and_adds_statements() {
    let mut doc = Document::new(
        DocumentParams { url: PgLspPath::new("a.sql"), text: "select 1;".to_string() },
        &split_lines,
    );
    let mut c = DocumentChange::new(3, vec![Change { range: None, text: "select 2;\nselect 3;".to_string() }]);
    c.apply(&mut doc, &split_lines);
    assert!(c.is_applied());
    assert_eq!(doc.version, 3);
    let changes = c.collect_statement_changes();
    assert_eq!(changes.len(), 3);
    assert!(matches!(changes[0], StatementChange::Deleted(_)));
    assert_eq!(changes[0].statement().text, "select 1;");
    assert!(matches!(changes[1], StatementChange::Added(_)));
    assert_eq!(changes[2].statement().text, "select 3;");
}

#[test]
fn change_sizes() {
    let add = Change { range: Some(TextRange::new(2, 3)), text: "abcd".to_string() };
    assert_eq!(add.diff_size(), 3);
    assert!(add.is_addition());
    assert!(!add.is_deletion());
    let del = Change { range: Some(TextRange::new(2, 6)), text: "a".to_string() };
    assert_eq!(del.diff_size(), 3);
    assert!(del.is_deletion());
    assert_eq!(del.apply_to_text(&"0123456789".to_string()), "01a6789");
    let whole = Change { range: None, text: "new".to_string() };
    assert_eq!(whole.apply_to_text(&"old".to_string()), "new");
}

#[test]
fn statement_at_offset_finds_the_containing_statement() {
    let doc = Document::new(
        DocumentParams { url: PgLspPath::new("a.sql"), text: "select 1;\nselect 2;".to_string() },
        &split_lines,
    );
    assert_eq!(doc.statement_at_offset(&12).unwrap().text, "select 2;");
    assert_eq!(doc.statement_at_offset(&12).unwrap().idx, 1);
    assert!(doc.statement_at_offset(&9).is_none());
    let (range, stmt) = doc.statement_at_offset_with_range(&0).unwrap();
    assert_eq!(range, TextRange::new(0, 9));
    assert_eq!(stmt.text, "select 1;");
}

#[test]
fn changes_keep_statement_ranges_sorted() {
    let mut doc = Document::new(
        DocumentParams { url: PgLspPath::new("test.sql"), text: "select 1;\nselect 2;\nselect 3;".to_string() },
        &split_lines,
    );
    let mut c = DocumentChange::new(
        1,
        vec![
            Change { range: Some(TextRange::new(7, 8)), text: "100".to_string() },
            Change { range: Some(TextRange::new(5, 14)), text: "t;\nselect x".to_string() },
            Change { range: Some(TextRange::new(0, 3)), text: "".to_string() },
        ],
    );
    c.apply(&mut doc, &split_lines);
    for i in 1..doc.statement_ranges.len() {
        assert!(doc.statement_ranges[i - 1].start <= doc.statement_ranges[i].start);
    }
}
