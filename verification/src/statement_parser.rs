//! The whitespace and comment tokens that fill the gaps between the tokens
//! of the Postgres scanner, and the token types that say where a token goes
//! in the tree, for these tokens and for the scanner's.
use vstd::prelude::*;

use crate::lexer::{KeywordKind, ScanToken};
use crate::syntax_kind::{token_kind, SyntaxKind};

verus! {

/// A whitespace or comment token between the tokens of the Postgres
/// scanner.
#[derive(Clone, Copy, Debug, PartialEq, Eq, Structural)]
pub enum StatementToken {
    Whitespace,
    Newline,
    Tab,
    Comment,
}

impl StatementToken {
    /// The syntax kind a token stands for: the kind of the same name.
    pub open spec fn spec_syntax_kind(self) -> SyntaxKind {
        match self {
            StatementToken::Whitespace => SyntaxKind::Whitespace,
            StatementToken::Newline => SyntaxKind::Newline,
            StatementToken::Tab => SyntaxKind::Tab,
            StatementToken::Comment => SyntaxKind::Comment,
        }
    }

    /// The syntax kind a token stands for: the kind of the same name.
    pub fn syntax_kind(&self) -> (r: SyntaxKind)
        ensures
            r == self.spec_syntax_kind(),
    {
        match self {
            StatementToken::Whitespace => SyntaxKind::Whitespace,
            StatementToken::Newline => SyntaxKind::Newline,
            StatementToken::Tab => SyntaxKind::Tab,
            StatementToken::Comment => SyntaxKind::Comment,
        }
    }
}

/// Where a token goes in the tree: a `Follow` token is held back and added
/// at the depth of the next node that opens; a `Close` token ends a
/// statement.
#[derive(Clone, Copy, Debug, PartialEq, Eq, Structural)]
pub enum TokenType {
    Follow,
    Close,
}

/// The token type of a gap token: whitespace and line breaks follow; other
/// tokens have none.
pub fn get_token_type_from_statement_token(token: &StatementToken) -> (r: Option<TokenType>)
    ensures
        r == match *token {
            StatementToken::Whitespace | StatementToken::Newline => Some(TokenType::Follow),
            _ => None,
        },
{
    match token {
        StatementToken::Whitespace => Some(TokenType::Follow),
        StatementToken::Newline => Some(TokenType::Follow),
        _ => None,
    }
}

/// Punctuation and string constants that follow: they are held back until
/// the next node opens.
pub open spec fn follows_without_keyword(kind: SyntaxKind) -> bool {
    kind == SyntaxKind::Ascii37 || kind == SyntaxKind::Ascii40 || kind == SyntaxKind::Ascii41 || kind == SyntaxKind::Ascii42 || kind == SyntaxKind::Ascii43 || kind == SyntaxKind::Ascii44 || kind == SyntaxKind::Ascii45 || kind == SyntaxKind::Ascii46 || kind == SyntaxKind::Ascii47 || kind == SyntaxKind::Ascii58 || kind == SyntaxKind::Ascii60 || kind == SyntaxKind::Ascii61 || kind == SyntaxKind::Ascii62 || kind == SyntaxKind::Ascii63 || kind == SyntaxKind::Ascii92 || kind == SyntaxKind::Ascii93 || kind == SyntaxKind::Ascii94 || kind == SyntaxKind::NotEquals || kind == SyntaxKind::Sconst
}

/// Unreserved keywords that follow.
pub open spec fn follows_unreserved(kind: SyntaxKind) -> bool {
    kind == SyntaxKind::AddP || kind == SyntaxKind::Update || kind == SyntaxKind::By
}

/// Reserved keywords that follow.
pub open spec fn follows_reserved(kind: SyntaxKind) -> bool {
    kind == SyntaxKind::And || kind == SyntaxKind::Check || kind == SyntaxKind::EndP || kind == SyntaxKind::For || kind == SyntaxKind::From || kind == SyntaxKind::InP || kind == SyntaxKind::On || kind == SyntaxKind::Then || kind == SyntaxKind::To || kind == SyntaxKind::Using || kind == SyntaxKind::Where || kind == SyntaxKind::With || kind == SyntaxKind::GroupP || kind == SyntaxKind::As
}

/// The token type of a scanned token of `kind` with keyword class
/// `keyword_kind`: `;` closes; the punctuation, string constants and
/// keywords that stand between the parts of a statement follow; other tokens
/// have none.
pub open spec fn scanned_token_type(keyword_kind: KeywordKind, kind: SyntaxKind) -> Option<TokenType> {
    match keyword_kind {
        KeywordKind::NoKeyword => if kind == SyntaxKind::Ascii59 {
            Some(TokenType::Close)
        } else if follows_without_keyword(kind) {
            Some(TokenType::Follow)
        } else {
            None
        },
        KeywordKind::UnreservedKeyword => if follows_unreserved(kind) {
            Some(TokenType::Follow)
        } else {
            None
        },
        KeywordKind::ColNameKeyword => None,
        KeywordKind::TypeFuncNameKeyword => None,
        KeywordKind::ReservedKeyword => if follows_reserved(kind) {
            Some(TokenType::Follow)
        } else {
            None
        },
    }
}

/// The token type of a token of the Postgres scanner (see
/// [`scanned_token_type`]).
pub fn get_token_type_from_pg_query_token(token: &ScanToken) -> (r: Option<TokenType>)
    requires
        token_kind(token.token) is Some,
    ensures
        r == scanned_token_type(token.keyword_kind, token_kind(token.token)->0),
{
    let kind = match SyntaxKind::from_token_number(token.token) {
        Some(kind) => kind,
        None => {
            assert(false);
            return None;
        },
    };
    match token.keyword_kind {
        KeywordKind::NoKeyword => match kind {
            SyntaxKind::Ascii59 => Some(TokenType::Close),
            SyntaxKind::Ascii37 | SyntaxKind::Ascii40 | SyntaxKind::Ascii41 | SyntaxKind::Ascii42 | SyntaxKind::Ascii43 | SyntaxKind::Ascii44 | SyntaxKind::Ascii45 | SyntaxKind::Ascii46 | SyntaxKind::Ascii47 | SyntaxKind::Ascii58 | SyntaxKind::Ascii60 | SyntaxKind::Ascii61 | SyntaxKind::Ascii62 | SyntaxKind::Ascii63 | SyntaxKind::Ascii92 | SyntaxKind::Ascii93 | SyntaxKind::Ascii94 | SyntaxKind::NotEquals | SyntaxKind::Sconst => Some(TokenType::Follow),
            _ => None,
        },
        KeywordKind::UnreservedKeyword => match kind {
            SyntaxKind::AddP | SyntaxKind::Update | SyntaxKind::By => Some(TokenType::Follow),
            _ => None,
        },
        KeywordKind::ColNameKeyword => None,
        KeywordKind::TypeFuncNameKeyword => None,
        KeywordKind::ReservedKeyword => match kind {
            SyntaxKind::And | SyntaxKind::Check | SyntaxKind::EndP | SyntaxKind::For | SyntaxKind::From | SyntaxKind::InP | SyntaxKind::On | SyntaxKind::Then | SyntaxKind::To | SyntaxKind::Using | SyntaxKind::Where | SyntaxKind::With | SyntaxKind::GroupP | SyntaxKind::As => Some(TokenType::Follow),
            _ => None,
        },
    }
}

} // verus!
