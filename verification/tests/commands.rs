use pglsp::commands::ExecuteStatementCommand;

#[test]
fn new_keeps_the_statement() {
    let c = ExecuteStatementCommand::new("select 1;".to_string());
    assert_eq!(c.statement(), "select 1;");
}

#[test]
fn short_statements_stay() {
    assert_eq!(ExecuteStatementCommand::trim_statement("select 1;".to_string(), 9), "select 1;");
    assert_eq!(ExecuteStatementCommand::trim_statement("select 1;".to_string(), 50), "select 1;");
}

#[test]
fn long_statements_are_cut_in_the_middle() {
    // max 6: three bytes from the start, three from the end
    assert_eq!(ExecuteStatementCommand::trim_statement("abcdefghij".to_string(), 6), "abc...hij");
    // max 5: two bytes from the start, the last byte from the end
    assert_eq!(ExecuteStatementCommand::trim_statement("abcdefghij".to_string(), 5), "ab...j");
}
