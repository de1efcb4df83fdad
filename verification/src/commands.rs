//! Commands that the language server can run against the database.
use vstd::prelude::*;

use crate::strings::{byte_len, concat3, is_boundary, slice_bytes, substring, suffix_from, text_len};

verus! {

/// A command that executes one SQL statement.
pub struct ExecuteStatementCommand {
    statement: String,
}

/// The shortened form of a statement for `max_length`: its first
/// `max_length / 2` bytes, `...`, and its last bytes, as many as the first
/// part holds, one fewer when `max_length` is odd.
pub open spec fn trimmed(stmt: Seq<char>, max_length: int) -> Seq<char> {
    let len = byte_len(stmt);
    let half = max_length / 2;
    slice_bytes(stmt, 0, half) + seq!['.', '.', '.'] + slice_bytes(stmt, len - half + max_length % 2, len)
}

/// Whether `trim_statement` can cut `stmt`: it is short enough, or both
/// cuts fall on character boundaries.
pub open spec fn trim_cuts_ok(stmt: Seq<char>, max_length: int) -> bool {
    let len = byte_len(stmt);
    let half = max_length / 2;
    len <= max_length || (is_boundary(stmt, half) && is_boundary(stmt, len - half + max_length % 2))
}

impl ExecuteStatementCommand {
    /// The statement the command executes.
    pub closed spec fn spec_statement(&self) -> Seq<char> {
        self.statement@
    }

    /// A command that executes `statement`.
    pub fn new(statement: String) -> (r: ExecuteStatementCommand)
        ensures
            r.spec_statement() == statement@,
    {
        ExecuteStatementCommand { statement }
    }

    /// The statement the command executes.
    pub fn statement(&self) -> (r: &str)
        ensures
            r@ == self.spec_statement(),
    {
        self.statement.as_str()
    }

    /// `stmt` shortened to about `max_length` bytes for display: unchanged
    /// when it is no longer; else its first half, `...` and its last half
    /// (see [`trimmed`]).
    pub fn trim_statement(stmt: String, max_length: usize) -> (r: String)
        requires
            trim_cuts_ok(stmt@, max_length as int),
            byte_len(stmt@) <= usize::MAX,
        ensures
            byte_len(stmt@) <= max_length ==> r@ == stmt@,
            byte_len(stmt@) > max_length ==> r@ == trimmed(stmt@, max_length as int),
    {
        let len = text_len(stmt.as_str());
        proof {
            vstd::utf8::encode_utf8_valid_utf8(stmt@);
        }
        if len <= max_length {
            return stmt;
        }
        let half = max_length / 2;
        let start = substring(stmt.as_str(), 0, half);
        let end = suffix_from(stmt.as_str(), len - half + (max_length % 2));
        let dots = "...";
        proof {
            reveal_strlit("...");
            vstd::utf8::is_char_boundary_start_end_of_seq(crate::strings::bytes_of(stmt@));
        }
        concat3(start.as_str(), dots, end.as_str())
    }
}

} // verus!
