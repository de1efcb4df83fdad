//! The text of the parser's error messages: the parts are written as `Debug`
//! prints them, in its pretty form.
use vstd::prelude::*;
use vstd::string::StrSliceExecFns;

use crate::lexer::{Token, TokenType, TokenView};
use crate::syntax_kind::SyntaxKind;

verus! {

/// `String::push` appends one character.
pub assume_specification[ std::string::String::push ](string: &mut std::string::String, ch: char)
    ensures
        final(string)@ == old(string)@.push(ch),
;

/// The digit for `d` in base 16, lowercase; in base 10 the same for `d < 10`.
pub open spec fn digit_char(d: nat) -> char {
    if d < 10 {
        (48 + d) as char
    } else {
        (87 + d) as char
    }
}

/// `n` in decimal.
pub open spec fn decimal(n: nat) -> Seq<char>
    decreases n,
{
    if n < 10 {
        seq![digit_char(n)]
    } else {
        decimal(n / 10).push(digit_char(n % 10))
    }
}

/// `n` in lowercase hexadecimal.
pub open spec fn hexadecimal(n: nat) -> Seq<char>
    decreases n,
{
    if n < 16 {
        seq![digit_char(n)]
    } else {
        hexadecimal(n / 16).push(digit_char(n % 16))
    }
}

/// A character as it stands inside a quoted `Debug` string: the usual
/// escapes for `\0`, tabs, line breaks, `\` and `"`, a `\u{..}` escape for
/// the other ASCII control characters, and the character itself otherwise.
/// (Characters outside ASCII are copied as they are.)
pub open spec fn escaped_char(c: char) -> Seq<char> {
    if c == '\0' {
        seq!['\\', '0']
    } else if c == '\t' {
        seq!['\\', 't']
    } else if c == '\r' {
        seq!['\\', 'r']
    } else if c == '\n' {
        seq!['\\', 'n']
    } else if c == '\\' {
        seq!['\\', '\\']
    } else if c == '"' {
        seq!['\\', '"']
    } else if (c as u32) < 32 || c as u32 == 127 {
        seq!['\\', 'u', '{'] + hexadecimal(c as nat) + seq!['}']
    } else {
        seq![c]
    }
}

/// A text with each character escaped as [`escaped_char`] says.
pub open spec fn escaped(s: Seq<char>) -> Seq<char>
    decreases s.len(),
{
    if s.len() == 0 {
        Seq::empty()
    } else {
        escaped(s.drop_last()) + escaped_char(s.last())
    }
}

/// The name that `Debug` prints for a token type.
pub open spec fn token_type_name(t: TokenType) -> Seq<char> {
    match t {
        TokenType::Whitespace => "Whitespace"@,
        TokenType::NoKeyword => "NoKeyword"@,
        TokenType::UnreservedKeyword => "UnreservedKeyword"@,
        TokenType::ColNameKeyword => "ColNameKeyword"@,
        TokenType::TypeFuncNameKeyword => "TypeFuncNameKeyword"@,
        TokenType::ReservedKeyword => "ReservedKeyword"@,
    }
}

/// A token as `{:#?}` prints it: its fields one per line, the text quoted,
/// the span as `start..end`.
pub open spec fn token_debug(t: TokenView) -> Seq<char> {
    "Token {\n    kind: "@ + t.kind.debug_name_spec() + ",\n    text: \""@ + escaped(t.text) + "\",\n    span: "@
        + decimal(t.span.start as nat) + ".."@ + decimal(t.span.end as nat) + ",\n    token_type: "@
        + token_type_name(t.token_type) + ",\n}"@
}

/// The message of an expectation that `found` did not meet.
pub open spec fn expected_message(expected: SyntaxKind, found: Seq<char>) -> Seq<char> {
    "Expected "@ + expected.debug_name_spec() + ", found "@ + found
}

fn digit(d: u32) -> (c: char)
    requires
        d < 16,
    ensures
        c == digit_char(d as nat),
{
    if d < 10 {
        ((48 + d) as u8) as char
    } else {
        ((87 + d) as u8) as char
    }
}

/// Appends `n` in decimal.
pub(crate) fn push_decimal(s: &mut String, n: u32)
    ensures
        final(s)@ == old(s)@ + decimal(n as nat),
    decreases n,
{
    if n >= 10 {
        push_decimal(s, n / 10);
    }
    s.push(digit(n % 10));
    assert(final(s)@ =~= old(s)@ + decimal(n as nat)) by {
        if n >= 10 {
            assert(decimal(n as nat) == decimal((n / 10) as nat).push(digit_char((n % 10) as nat)));
        }
    }
}

/// Appends `n` in lowercase hexadecimal.
fn push_hexadecimal(s: &mut String, n: u32)
    ensures
        final(s)@ == old(s)@ + hexadecimal(n as nat),
    decreases n,
{
    if n >= 16 {
        push_hexadecimal(s, n / 16);
    }
    s.push(digit(n % 16));
    assert(final(s)@ =~= old(s)@ + hexadecimal(n as nat)) by {
        if n >= 16 {
            assert(hexadecimal(n as nat) == hexadecimal((n / 16) as nat).push(digit_char((n % 16) as nat)));
        }
    }
}

/// Appends one character escaped as [`escaped_char`] says.
fn push_escaped_char(s: &mut String, c: char)
    ensures
        final(s)@ == old(s)@ + escaped_char(c),
{
    let ghost s0 = s@;
    if c == '\0' {
        s.push('\\');
        s.push('0');
    } else if c == '\t' {
        s.push('\\');
        s.push('t');
    } else if c == '\r' {
        s.push('\\');
        s.push('r');
    } else if c == '\n' {
        s.push('\\');
        s.push('n');
    } else if c == '\\' {
        s.push('\\');
        s.push('\\');
    } else if c == '"' {
        s.push('\\');
        s.push('"');
    } else if (c as u32) < 32 || c as u32 == 127 {
        s.push('\\');
        s.push('u');
        s.push('{');
        push_hexadecimal(s, c as u32);
        s.push('}');
    } else {
        s.push(c);
    }
    assert(s@ =~= s0 + escaped_char(c));
}

/// Appends `text` escaped as [`escaped`] says.
fn push_escaped(s: &mut String, text: &str)
    ensures
        final(s)@ == old(s)@ + escaped(text@),
{
    let n = text.unicode_len();
    let ghost s0 = s@;
    let mut i: usize = 0;
    while i < n
        invariant
            i <= n,
            n == text@.len(),
            s@ == s0 + escaped(text@.subrange(0, i as int)),
        decreases n - i,
    {
        let c = text.get_char(i);
        push_escaped_char(s, c);
        assert(text@.subrange(0, i + 1).drop_last() =~= text@.subrange(0, i as int));
        i = i + 1;
    }
    assert(text@.subrange(0, n as int) =~= text@);
}

/// Appends the name that `Debug` prints for a token type.
fn push_token_type(s: &mut String, t: TokenType)
    ensures
        final(s)@ == old(s)@ + token_type_name(t),
{
    let name = match t {
        TokenType::Whitespace => "Whitespace",
        TokenType::NoKeyword => "NoKeyword",
        TokenType::UnreservedKeyword => "UnreservedKeyword",
        TokenType::ColNameKeyword => "ColNameKeyword",
        TokenType::TypeFuncNameKeyword => "TypeFuncNameKeyword",
        TokenType::ReservedKeyword => "ReservedKeyword",
    };
    s.append(name);
}

/// Appends a token as `{:#?}` prints it (see [`token_debug`]).
fn push_token(s: &mut String, t: &Token)
    ensures
        final(s)@ == old(s)@ + token_debug(t@),
{
    let ghost s0 = s@;
    s.append("Token {\n    kind: ");
    s.append(t.kind.debug_name());
    s.append(",\n    text: \"");
    push_escaped(s, t.text.as_str());
    s.append("\",\n    span: ");
    push_decimal(s, t.span.start);
    s.append("..");
    push_decimal(s, t.span.end);
    s.append(",\n    token_type: ");
    push_token_type(s, t.token_type);
    s.append(",\n}");
    assert(s@ =~= s0 + token_debug(t@));
}

/// The message of an expectation of `expected` that the kind `found` did not meet.
pub fn expected_kind_text(expected: SyntaxKind, found: SyntaxKind) -> (r: String)
    ensures
        r@ == expected_message(expected, found.debug_name_spec()),
{
    let mut s = String::new();
    s.append("Expected ");
    s.append(expected.debug_name());
    s.append(", found ");
    s.append(found.debug_name());
    assert(s@ =~= expected_message(expected, found.debug_name_spec()));
    s
}

/// The message of an expectation of `expected` that the token `found` did not meet.
pub fn expected_token_text(expected: SyntaxKind, found: &Token) -> (r: String)
    ensures
        r@ == expected_message(expected, token_debug(found@)),
{
    let mut s = String::new();
    s.append("Expected ");
    s.append(expected.debug_name());
    s.append(", found ");
    push_token(&mut s, found);
    assert(s@ =~= expected_message(expected, token_debug(found@)));
    s
}

} // verus!
