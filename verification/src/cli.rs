//! The decisions of the command line: which fixes to apply, and which
//! files to process, given the flags.
use vstd::prelude::*;

verus! {

/// A diagnostic of the command line about its arguments.
#[derive(Debug, PartialEq, Eq)]
pub enum CliDiagnostic {
    /// Two arguments that cannot be used together.
    IncompatibleArguments { first: String, second: String },
    /// An argument that is not valid here, with the reason.
    UnexpectedArgument { argument: String, message: String },
}

/// A [`CliDiagnostic`] with its texts as characters.
pub ghost enum CliDiagnosticView {
    IncompatibleArguments(Seq<char>, Seq<char>),
    UnexpectedArgument(Seq<char>, Seq<char>),
}

impl View for CliDiagnostic {
    type V = CliDiagnosticView;

    open spec fn view(&self) -> CliDiagnosticView {
        match self {
            CliDiagnostic::IncompatibleArguments { first, second } => CliDiagnosticView::IncompatibleArguments(
                first@,
                second@,
            ),
            CliDiagnostic::UnexpectedArgument { argument, message } => CliDiagnosticView::UnexpectedArgument(
                argument@,
                message@,
            ),
        }
    }
}

/// The error of a result, as a view.
pub open spec fn result_error<T>(r: Result<T, CliDiagnostic>) -> Option<CliDiagnosticView> {
    match r {
        Err(d) => Some(d@),
        Ok(_) => None,
    }
}

impl CliDiagnostic {
    /// `first` and `second` cannot be used together.
    pub fn incompatible_arguments(first: &str, second: &str) -> (r: CliDiagnostic)
        ensures
            r@ == CliDiagnosticView::IncompatibleArguments(first@, second@),
    {
        CliDiagnostic::IncompatibleArguments { first: first.to_owned(), second: second.to_owned() }
    }

    /// `argument` is not valid here, for the reason `message`.
    pub fn unexpected_argument(argument: &str, message: &str) -> (r: CliDiagnostic)
        ensures
            r@ == CliDiagnosticView::UnexpectedArgument(argument@, message@),
    {
        CliDiagnostic::UnexpectedArgument { argument: argument.to_owned(), message: message.to_owned() }
    }
}

/// Which fixes to apply to a file.
#[derive(Clone, Copy, Debug, PartialEq, Eq, Structural)]
pub enum FixFileMode {
    SafeFixes,
    SafeAndUnsafeFixes,
    ApplySuppressions,
}

/// The flags that decide the fix mode.
pub struct FixFileModeOptions {
    pub write: bool,
    pub suppress: bool,
    pub suppression_reason: Option<String>,
    pub fix: bool,
    pub unsafe_: bool,
}

/// What is wrong with the fix flags, checked in this order: `--write` with
/// `--fix`, `--suppress` with `--write`, `--suppress` with `--fix`, and
/// `--reason` without `--suppress`; `None` when they can be used together.
pub open spec fn fix_flags_error(options: FixFileModeOptions) -> Option<CliDiagnosticView> {
    if options.write && options.fix {
        Some(CliDiagnosticView::IncompatibleArguments("--write"@, "--fix"@))
    } else if options.suppress && options.write {
        Some(CliDiagnosticView::IncompatibleArguments("--suppress"@, "--write"@))
    } else if options.suppress && options.fix {
        Some(CliDiagnosticView::IncompatibleArguments("--suppress"@, "--fix"@))
    } else if !options.suppress && options.suppression_reason is Some {
        Some(
            CliDiagnosticView::UnexpectedArgument(
                "--reason"@,
                "`--reason` is only valid when `--suppress` is used."@,
            ),
        )
    } else {
        None
    }
}

/// Checks that the fix flags can be used together: `--write` and `--fix`
/// cannot, nor `--suppress` with either, and `--reason` needs `--suppress`.
pub fn check_fix_incompatible_arguments(options: FixFileModeOptions) -> (r: Result<(), CliDiagnostic>)
    ensures
        result_error(r) == fix_flags_error(options),
{
    let FixFileModeOptions { write, suppress, suppression_reason, fix, .. } = options;
    if write && fix {
        return Err(CliDiagnostic::incompatible_arguments("--write", "--fix"));
    } else if suppress && write {
        return Err(CliDiagnostic::incompatible_arguments("--suppress", "--write"));
    } else if suppress && fix {
        return Err(CliDiagnostic::incompatible_arguments("--suppress", "--fix"));
    } else if !suppress && suppression_reason.is_some() {
        return Err(
            CliDiagnostic::unexpected_argument("--reason", "`--reason` is only valid when `--suppress` is used."),
        );
    }
    Ok(())
}

/// The fix mode the flags ask for, once they are checked: safe and unsafe
/// fixes for `--write` or `--fix` with `--unsafe`, safe fixes for `--write`
/// or `--fix`, suppressions for `--suppress`, else none.
pub open spec fn fix_file_mode(write: bool, fix: bool, suppress: bool, unsafe_: bool) -> Option<FixFileMode> {
    if (write || fix) && unsafe_ {
        Some(FixFileMode::SafeAndUnsafeFixes)
    } else if write || fix {
        Some(FixFileMode::SafeFixes)
    } else if suppress {
        Some(FixFileMode::ApplySuppressions)
    } else {
        None
    }
}

/// The fix mode the flags ask for (see [`fix_file_mode`]), or the error of
/// [`check_fix_incompatible_arguments`]: it fails exactly where the check
/// does.
pub fn determine_fix_file_mode(options: FixFileModeOptions) -> (r: Result<Option<FixFileMode>, CliDiagnostic>)
    ensures
        result_error(r) == fix_flags_error(options),
        r matches Ok(mode) ==> mode == fix_file_mode(options.write, options.fix, options.suppress, options.unsafe_),
{
    let write = options.write;
    let fix = options.fix;
    let suppress = options.suppress;
    let unsafe_ = options.unsafe_;
    check_fix_incompatible_arguments(options)?;
    let safe_fixes = write || fix;
    let unsafe_fixes = (write || safe_fixes) && unsafe_;
    if unsafe_fixes {
        Ok(Some(FixFileMode::SafeAndUnsafeFixes))
    } else if safe_fixes {
        Ok(Some(FixFileMode::SafeFixes))
    } else if suppress {
        Ok(Some(FixFileMode::ApplySuppressions))
    } else {
        Ok(None)
    }
}

/// Which files to process.
#[derive(Clone, Copy, Debug, PartialEq, Eq, Structural)]
pub enum FileSelection {
    /// The files changed since a point of the history.
    Changed,
    /// The files staged for the next commit.
    Staged,
    /// The files given on the command line.
    Given,
}

/// What is wrong with `--since`, `--changed` and `--staged`, checked in
/// this order: `--since` without `--changed`, `--since` with `--staged`, and
/// `--changed` with `--staged`; `None` when they can be used together.
pub open spec fn file_flags_error(since: bool, changed: bool, staged: bool) -> Option<CliDiagnosticView> {
    if since && !changed {
        Some(CliDiagnosticView::IncompatibleArguments("since"@, "changed"@))
    } else if since && staged {
        Some(CliDiagnosticView::IncompatibleArguments("since"@, "staged"@))
    } else if changed && staged {
        Some(CliDiagnosticView::IncompatibleArguments("changed"@, "staged"@))
    } else {
        None
    }
}

/// Which files to process, given `--since`, `--changed` and `--staged`:
/// `--since` needs `--changed` and excludes `--staged`, and `--changed` and
/// `--staged` exclude each other.
pub fn select_files_to_process(since: Option<&str>, changed: bool, staged: bool) -> (r: Result<
    FileSelection,
    CliDiagnostic,
>)
    ensures
        result_error(r) == file_flags_error(since is Some, changed, staged),
        r matches Ok(sel) ==> sel == if changed {
            FileSelection::Changed
        } else if staged {
            FileSelection::Staged
        } else {
            FileSelection::Given
        },
{
    if since.is_some() {
        if !changed {
            return Err(CliDiagnostic::incompatible_arguments("since", "changed"));
        }
        if staged {
            return Err(CliDiagnostic::incompatible_arguments("since", "staged"));
        }
    }
    if changed {
        if staged {
            return Err(CliDiagnostic::incompatible_arguments("changed", "staged"));
        }
        Ok(FileSelection::Changed)
    } else if staged {
        Ok(FileSelection::Staged)
    } else {
        Ok(FileSelection::Given)
    }
}

} // verus!
