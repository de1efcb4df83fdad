//! Matching the tokens of a statement against the properties of the nodes
//! of the Postgres syntax tree.
use vstd::prelude::*;

use crate::lexer::Token;
use crate::strings::same_text;
use crate::syntax_kind::SyntaxKind;

verus! {

/// A property of a node of the Postgres syntax tree that a token must
/// match: its text, its kind, or both.
pub struct TokenProperty {
    pub value: Option<String>,
    pub kind: Option<SyntaxKind>,
}

/// Whether the parser passes over tokens of this kind without matching
/// them: `(`, `)`, `,`, `.` and `;`.
pub fn is_skippable(kind: SyntaxKind) -> (r: bool)
    ensures
        r == (kind == SyntaxKind::Ascii40 || kind == SyntaxKind::Ascii41 || kind == SyntaxKind::Ascii44 || kind
            == SyntaxKind::Ascii46 || kind == SyntaxKind::Ascii59),
{
    kind == SyntaxKind::Ascii40 || kind == SyntaxKind::Ascii41 || kind == SyntaxKind::Ascii44 || kind
        == SyntaxKind::Ascii46 || kind == SyntaxKind::Ascii59
}

/// The groups of names of one data type.
pub open spec fn alias_groups() -> Seq<Seq<Seq<char>>> {
    seq![seq!["integer"@, "int"@, "int4"@], seq!["real"@, "float4"@]]
}

/// The names of the data type named `text`: its group of aliases, or just
/// `text` when it has none.
pub open spec fn alias_names(text: Seq<char>) -> Seq<Seq<char>> {
    if alias_groups()[0].contains(text) {
        alias_groups()[0]
    } else if alias_groups()[1].contains(text) {
        alias_groups()[1]
    } else {
        seq![text]
    }
}

/// Whether `text` is among `names`.
fn contains_text(names: &Vec<&str>, text: &str) -> (r: bool)
    ensures
        r == names@.map_values(|n: &str| n@).contains(text@),
{
    let ghost v = names@.map_values(|n: &str| n@);
    let mut i: usize = 0;
    while i < names.len()
        invariant
            i <= names@.len(),
            v == names@.map_values(|n: &str| n@),
            forall|j: int| 0 <= j < i ==> v[j] != text@,
        decreases names.len() - i,
    {
        if same_text(names[i], text) {
            assert(v[i as int] == text@);
            return true;
        }
        i = i + 1;
    }
    false
}

/// The names of the data type named `text` (see [`alias_names`]).
pub fn aliases(text: &str) -> (r: Vec<&str>)
    ensures
        r@.map_values(|n: &str| n@) == alias_names(text@),
{
    proof {
        reveal_strlit("integer");
        reveal_strlit("int");
        reveal_strlit("int4");
        reveal_strlit("real");
        reveal_strlit("float4");
    }
    let integer: Vec<&str> = vec!["integer", "int", "int4"];
    assert(integer@.map_values(|n: &str| n@) =~= alias_groups()[0]);
    if contains_text(&integer, text) {
        return integer;
    }
    let float: Vec<&str> = vec!["real", "float4"];
    assert(float@.map_values(|n: &str| n@) =~= alias_groups()[1]);
    if contains_text(&float, text) {
        return float;
    }
    let single: Vec<&str> = vec![text];
    assert(single@.map_values(|n: &str| n@) =~= seq![text@]);
    single
}

/// Whether a character encloses string constants: `'` or `$`.
pub open spec fn is_string_delimiter(c: char) -> bool {
    c == '\'' || c == '$'
}

/// `text` without the string delimiters at its start and at its end.
pub open spec fn trim_delimiters(text: Seq<char>) -> Seq<char> {
    trim_end_delimiters(trim_start_delimiters(text))
}

/// `text` without the string delimiters at its start.
pub open spec fn trim_start_delimiters(text: Seq<char>) -> Seq<char>
    decreases text.len(),
{
    if text.len() > 0 && is_string_delimiter(text[0]) {
        trim_start_delimiters(text.drop_first())
    } else {
        text
    }
}

/// `text` without the string delimiters at its end.
pub open spec fn trim_end_delimiters(text: Seq<char>) -> Seq<char>
    decreases text.len(),
{
    if text.len() > 0 && is_string_delimiter(text.last()) {
        trim_end_delimiters(text.drop_last())
    } else {
        text
    }
}

/// The lowercase form of a text, as `str::to_lowercase` gives it.
pub uninterp spec fn lowercase(text: Seq<char>) -> Seq<char>;

/// Calls `str::to_lowercase`; its Unicode case mapping is named, not stated.
#[verifier::external_body]
fn to_lowercase(text: &str) -> (r: String)
    ensures
        r@ == lowercase(text@),
{
    text.to_lowercase()
}

proof fn lemma_trim_start(text: Seq<char>, lo: int)
    requires
        0 <= lo <= text.len(),
        forall|j: int| 0 <= j < lo ==> is_string_delimiter(#[trigger] text[j]),
        lo < text.len() ==> !is_string_delimiter(text[lo]),
    ensures
        trim_start_delimiters(text) == text.subrange(lo, text.len() as int),
    decreases lo,
{
    if lo > 0 {
        let rest = text.drop_first();
        assert forall|j: int| 0 <= j < lo - 1 implies is_string_delimiter(#[trigger] rest[j]) by {
            assert(rest[j] == text[j + 1]);
        }
        lemma_trim_start(rest, lo - 1);
        assert(rest.subrange(lo - 1, rest.len() as int) =~= text.subrange(lo, text.len() as int));
    } else {
        assert(text.subrange(0, text.len() as int) =~= text);
    }
}

proof fn lemma_trim_end(text: Seq<char>, hi: int)
    requires
        0 <= hi <= text.len(),
        forall|j: int| hi <= j < text.len() ==> is_string_delimiter(#[trigger] text[j]),
        hi > 0 ==> !is_string_delimiter(text[hi - 1]),
    ensures
        trim_end_delimiters(text) == text.subrange(0, hi),
    decreases text.len() - hi,
{
    if hi < text.len() {
        let rest = text.drop_last();
        assert forall|j: int| hi <= j < rest.len() implies is_string_delimiter(#[trigger] rest[j]) by {
            assert(rest[j] == text[j]);
        }
        lemma_trim_end(rest, hi);
        assert(rest.subrange(0, hi) =~= text.subrange(0, hi));
    } else {
        assert(text.subrange(0, hi) =~= text);
    }
}

/// `text` without the string delimiters at its start and at its end.
fn trim_string_delimiters(text: &str) -> (r: &str)
    ensures
        r@ == trim_delimiters(text@),
{
    let n = text.unicode_len();
    let mut lo: usize = 0;
    while lo < n && (text.get_char(lo) == '\'' || text.get_char(lo) == '$')
        invariant
            n == text@.len(),
            lo <= n,
            forall|j: int| 0 <= j < lo ==> is_string_delimiter(#[trigger] text@[j]),
        decreases n - lo,
    {
        lo = lo + 1;
    }
    proof {
        lemma_trim_start(text@, lo as int);
    }
    let start = text.substring_char(lo, n);
    let m = n - lo;
    let mut hi: usize = m;
    while hi > 0 && (start.get_char(hi - 1) == '\'' || start.get_char(hi - 1) == '$')
        invariant
            m == start@.len(),
            hi <= m,
            forall|j: int| hi <= j < m ==> is_string_delimiter(#[trigger] start@[j]),
        decreases hi,
    {
        hi = hi - 1;
    }
    proof {
        lemma_trim_end(start@, hi as int);
    }
    start.substring_char(0, hi)
}

/// Whether `token` matches the property `p`: its text (without string
/// delimiters, in lowercase, or any alias of it) is the property's value
/// when it has one, and its kind is the property's kind when it has one.
pub fn cmp_tokens(p: &TokenProperty, token: &Token) -> (r: bool)
    requires
        p.value is Some || p.kind is Some,
    ensures
        r == ((p.value is None || alias_names(lowercase(trim_delimiters(token.text@))).contains(
            p.value.unwrap()@,
        )) && (p.kind is None || p.kind == Some(token.kind))),
{
    let trimmed = trim_string_delimiters(token.text.as_str());
    let token_text = to_lowercase(trimmed);
    let values = aliases(token_text.as_str());
    let value_ok = match &p.value {
        None => true,
        Some(v) => contains_text(&values, v.as_str()),
    };
    let kind_ok = match p.kind {
        None => true,
        Some(k) => k == token.kind,
    };
    value_ok && kind_ok
}

} // verus!
