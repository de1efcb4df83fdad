use pglsp::cli::{
    check_fix_incompatible_arguments, determine_fix_file_mode, select_files_to_process, CliDiagnostic,
    FileSelection, FixFileMode, FixFileModeOptions,
};

fn options(write: bool, suppress: bool, suppression_reason: Option<String>, fix: bool, unsafe_: bool) -> FixFileModeOptions {
    FixFileModeOptions { write, suppress, suppression_reason, fix, unsafe_ }
}

#[test]
fn incompatible_arguments() {
    {
        let (write, suppress, suppression_reason, fix, unsafe_) = (true, false, None, true, false);
        assert!(check_fix_incompatible_arguments(FixFileModeOptions {
            write,
            suppress,
            suppression_reason,
            fix,
            unsafe_
        })
        .is_err());
    }
}

#[test]
fn safe_fixes() {
    for (write, suppress, suppression_reason, fix, unsafe_) in [
        (true, false, None, false, false),
        (false, false, None, true, false),
    ] {
        assert_eq!(
            determine_fix_file_mode(FixFileModeOptions { write, suppress, suppression_reason, fix, unsafe_ }).unwrap(),
            Some(FixFileMode::SafeFixes)
        );
    }
}

#[test]
fn safe_and_unsafe_fixes() {
    for (write, suppress, suppression_reason, fix, unsafe_) in [
        (true, false, None, false, true),
        (false, false, None, true, true),
    ] {
        assert_eq!(
            determine_fix_file_mode(FixFileModeOptions { write, suppress, suppression_reason, fix, unsafe_ }).unwrap(),
            Some(FixFileMode::SafeAndUnsafeFixes)
        );
    }
}

#[test]
fn no_fix() {
    let (write, suppress, suppression_reason, fix, unsafe_) = (false, false, None, false, false);
    assert_eq!(
        determine_fix_file_mode(FixFileModeOptions { write, suppress, suppression_reason, fix, unsafe_ }).unwrap(),
        None
    );
}

#[test]
fn write_and_fix_name_both_flags() {
    let r = check_fix_incompatible_arguments(options(true, false, None, true, false));
    assert_eq!(
        r,
        Err(CliDiagnostic::IncompatibleArguments { first: "--write".to_string(), second: "--fix".to_string() })
    );
}

#[test]
fn suppress_with_write_or_fix_is_refused() {
    assert_eq!(
        check_fix_incompatible_arguments(options(true, true, None, false, false)),
        Err(CliDiagnostic::IncompatibleArguments { first: "--suppress".to_string(), second: "--write".to_string() })
    );
    assert_eq!(
        check_fix_incompatible_arguments(options(false, true, None, true, false)),
        Err(CliDiagnostic::IncompatibleArguments { first: "--suppress".to_string(), second: "--fix".to_string() })
    );
}

#[test]
fn reason_needs_suppress() {
    assert_eq!(
        check_fix_incompatible_arguments(options(false, false, Some("because".to_string()), false, false)),
        Err(CliDiagnostic::UnexpectedArgument {
            argument: "--reason".to_string(),
            message: "`--reason` is only valid when `--suppress` is used.".to_string()
        })
    );
    assert_eq!(check_fix_incompatible_arguments(options(false, true, Some("because".to_string()), false, false)), Ok(()));
}

#[test]
fn suppress_applies_suppressions() {
    assert_eq!(
        determine_fix_file_mode(options(false, true, Some("why".to_string()), false, false)).unwrap(),
        Some(FixFileMode::ApplySuppressions)
    );
    assert_eq!(determine_fix_file_mode(options(false, false, None, false, true)).unwrap(), None);
}

#[test]
fn file_selection_follows_the_flags() {
    assert_eq!(select_files_to_process(None, false, false), Ok(FileSelection::Given));
    assert_eq!(select_files_to_process(None, true, false), Ok(FileSelection::Changed));
    assert_eq!(select_files_to_process(None, false, true), Ok(FileSelection::Staged));
    assert_eq!(select_files_to_process(Some("main"), true, false), Ok(FileSelection::Changed));
    assert_eq!(
        select_files_to_process(Some("main"), false, false),
        Err(CliDiagnostic::IncompatibleArguments { first: "since".to_string(), second: "changed".to_string() })
    );
    assert_eq!(
        select_files_to_process(Some("main"), true, true),
        Err(CliDiagnostic::IncompatibleArguments { first: "since".to_string(), second: "staged".to_string() })
    );
    assert_eq!(
        select_files_to_process(None, true, true),
        Err(CliDiagnostic::IncompatibleArguments { first: "changed".to_string(), second: "staged".to_string() })
    );
}
