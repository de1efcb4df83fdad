//! The tokens of the simple statement lexer: punctuation, string
//! constants, words, whitespace and comments, each with the syntax kind it
//! stands for.
use vstd::prelude::*;

use crate::syntax_kind::SyntaxKind;

verus! {

/// A token of the simple statement lexer. It knows nothing of Postgres
/// keywords: every word is a `Word`.
#[derive(Clone, Copy, Debug, PartialEq, Eq, Structural)]
pub enum StatementToken {
    Ascii37,
    Ascii40,
    Ascii41,
    Ascii42,
    Ascii43,
    Ascii44,
    Ascii45,
    Ascii46,
    Ascii47,
    Ascii58,
    Ascii59,
    Ascii60,
    Ascii61,
    Ascii62,
    Ascii63,
    Ascii91,
    Ascii92,
    Ascii93,
    Ascii94,
    Sconst,
    Word,
    Whitespace,
    Newline,
    Tab,
    Comment,
}

impl StatementToken {
    /// The syntax kind a token stands for: the kind of the same name.
    pub open spec fn spec_syntax_kind(self) -> SyntaxKind {
        match self {
            StatementToken::Ascii37 => SyntaxKind::Ascii37,
            StatementToken::Ascii40 => SyntaxKind::Ascii40,
            StatementToken::Ascii41 => SyntaxKind::Ascii41,
            StatementToken::Ascii42 => SyntaxKind::Ascii42,
            StatementToken::Ascii43 => SyntaxKind::Ascii43,
            StatementToken::Ascii44 => SyntaxKind::Ascii44,
            StatementToken::Ascii45 => SyntaxKind::Ascii45,
            StatementToken::Ascii46 => SyntaxKind::Ascii46,
            StatementToken::Ascii47 => SyntaxKind::Ascii47,
            StatementToken::Ascii58 => SyntaxKind::Ascii58,
            StatementToken::Ascii59 => SyntaxKind::Ascii59,
            StatementToken::Ascii60 => SyntaxKind::Ascii60,
            StatementToken::Ascii61 => SyntaxKind::Ascii61,
            StatementToken::Ascii62 => SyntaxKind::Ascii62,
            StatementToken::Ascii63 => SyntaxKind::Ascii63,
            StatementToken::Ascii91 => SyntaxKind::Ascii91,
            StatementToken::Ascii92 => SyntaxKind::Ascii92,
            StatementToken::Ascii93 => SyntaxKind::Ascii93,
            StatementToken::Ascii94 => SyntaxKind::Ascii94,
            StatementToken::Sconst => SyntaxKind::Sconst,
            StatementToken::Word => SyntaxKind::Word,
            StatementToken::Whitespace => SyntaxKind::Whitespace,
            StatementToken::Newline => SyntaxKind::Newline,
            StatementToken::Tab => SyntaxKind::Tab,
            StatementToken::Comment => SyntaxKind::Comment,
        }
    }

    /// The syntax kind a token stands for: the kind of the same name.
    pub fn syntax_kind(&self) -> (r: SyntaxKind)
        ensures
            r == self.spec_syntax_kind(),
    {
        match self {
            StatementToken::Ascii37 => SyntaxKind::Ascii37,
            StatementToken::Ascii40 => SyntaxKind::Ascii40,
            StatementToken::Ascii41 => SyntaxKind::Ascii41,
            StatementToken::Ascii42 => SyntaxKind::Ascii42,
            StatementToken::Ascii43 => SyntaxKind::Ascii43,
            StatementToken::Ascii44 => SyntaxKind::Ascii44,
            StatementToken::Ascii45 => SyntaxKind::Ascii45,
            StatementToken::Ascii46 => SyntaxKind::Ascii46,
            StatementToken::Ascii47 => SyntaxKind::Ascii47,
            StatementToken::Ascii58 => SyntaxKind::Ascii58,
            StatementToken::Ascii59 => SyntaxKind::Ascii59,
            StatementToken::Ascii60 => SyntaxKind::Ascii60,
            StatementToken::Ascii61 => SyntaxKind::Ascii61,
            StatementToken::Ascii62 => SyntaxKind::Ascii62,
            StatementToken::Ascii63 => SyntaxKind::Ascii63,
            StatementToken::Ascii91 => SyntaxKind::Ascii91,
            StatementToken::Ascii92 => SyntaxKind::Ascii92,
            StatementToken::Ascii93 => SyntaxKind::Ascii93,
            StatementToken::Ascii94 => SyntaxKind::Ascii94,
            StatementToken::Sconst => SyntaxKind::Sconst,
            StatementToken::Word => SyntaxKind::Word,
            StatementToken::Whitespace => SyntaxKind::Whitespace,
            StatementToken::Newline => SyntaxKind::Newline,
            StatementToken::Tab => SyntaxKind::Tab,
            StatementToken::Comment => SyntaxKind::Comment,
        }
    }
}

} // verus!
