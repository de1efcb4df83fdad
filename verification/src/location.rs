//! Where a node of the Postgres syntax tree that carries no location of its
//! own starts in the text of its statement: the match of a pattern for its
//! kind that lies at or after its parent and nearest to its first child.
use regex::Regex;
use vstd::prelude::*;

use crate::strings::{byte_len, concat3, text_len};

verus! {

/// The kinds of nodes whose location is derived, with what the pattern of a
/// kind reads from its node.
#[derive(Debug, PartialEq, Eq)]
pub enum NodeTag {
    InsertStmt,
    DeleteStmt,
    SelectStmt,
    AlterTableStmt,
    /// An `ALTER TABLE` command, with the name it acts on.
    AlterTableCmd(String),
    AStar,
    /// A privilege, with its name.
    AccessPriv(String),
    List,
    Integer,
    Float,
    Boolean,
    StringValue,
    BitString,
    /// Any other node: each carries a location of its own, or its location
    /// cannot be derived.
    Other,
}

/// Whether `Regex::new` accepts `pattern`.
pub uninterp spec fn regex_compiles(pattern: Seq<char>) -> bool;

/// The byte offsets at which the successive matches of `pattern` in `text`
/// start, as `Regex::find_iter` finds them.
pub uninterp spec fn regex_match_starts(pattern: Seq<char>, text: Seq<char>) -> Seq<int>;

/// Compiles `pattern` with `Regex::new` and gives the starts of its matches
/// in `text` by `Regex::find_iter`, or `None` where the pattern does not
/// compile. A match start is a byte offset into `text`, so it is at most the
/// text's length.
#[verifier::external_body]
fn match_starts(pattern: &str, text: &str) -> (r: Option<Vec<usize>>)
    ensures
        r is Some <==> regex_compiles(pattern@),
        r matches Some(v) ==> v@.map_values(|x: usize| x as int) == regex_match_starts(pattern@, text@),
        r matches Some(v) ==> forall|i: int| 0 <= i < v@.len() ==> v@[i] <= byte_len(text@),
{
    match Regex::new(pattern) {
        Ok(re) => Some(re.find_iter(text).map(|m| m.start()).collect()),
        Err(_) => None,
    }
}

/// The pattern whose matches locate a node of `tag`; `None` for the kinds
/// that have no location.
pub open spec fn tag_pattern(tag: NodeTag) -> Option<Seq<char>> {
    match tag {
        NodeTag::InsertStmt => Some("(?mi)insert\\s+into"@),
        NodeTag::DeleteStmt => Some("(?mi)delete\\s+from"@),
        NodeTag::SelectStmt => Some("(?mi)select|values"@),
        NodeTag::AlterTableStmt => Some("(?mi)alter\\s+table"@),
        NodeTag::AlterTableCmd(name) => Some("(?mi)alter.*"@ + name@),
        NodeTag::AStar => Some("(?mi)\\*"@),
        NodeTag::AccessPriv(name) => Some("(?mi)"@ + name@),
        NodeTag::List => Some("(?mi)\\((.*?)\\)"@),
        _ => None,
    }
}

/// Every pattern by which a node is located is matched without regard to
/// letter case and with `^` and `$` at line ends: it opens with the inline
/// flags `(?mi)`. So a keyword is found in upper, lower or mixed case.
pub proof fn lemma_patterns_ignore_case(tag: NodeTag)
    ensures
        tag_pattern(tag) matches Some(p) ==> p.len() >= 5 && p.take(5) == seq!['(', '?', 'm', 'i', ')'],
{
    reveal_strlit("(?mi)insert\\s+into");
    reveal_strlit("(?mi)delete\\s+from");
    reveal_strlit("(?mi)select|values");
    reveal_strlit("(?mi)alter\\s+table");
    reveal_strlit("(?mi)alter.*");
    reveal_strlit("(?mi)\\*");
    reveal_strlit("(?mi)");
    reveal_strlit("(?mi)\\((.*?)\\)");
    match tag_pattern(tag) {
        Some(p) => {
            assert(p.take(5) =~= seq!['(', '?', 'm', 'i', ')']);
        },
        None => {},
    }
}

/// How far a match at `start` is from where the node should be: before its
/// first child where it has children, else after its parent.
pub open spec fn distance(start: int, parent_location: i32, earliest_child_location: Option<i32>) -> int {
    match earliest_child_location {
        Some(e) => e - start,
        None => start - parent_location,
    }
}

/// The absolute value of `x`.
pub open spec fn abs(x: int) -> int {
    if x < 0 { -x } else { x }
}

/// Among the first `n` match starts, the index of the first one at or after
/// the parent whose distance is the smallest in absolute value.
pub open spec fn nearest_match(starts: Seq<int>, n: int, parent_location: i32, earliest_child_location: Option<i32>) -> Option<int>
    decreases n,
{
    if n <= 0 {
        None
    } else {
        let best = nearest_match(starts, n - 1, parent_location, earliest_child_location);
        let s = starts[n - 1];
        if s < parent_location {
            best
        } else {
            match best {
                None => Some(n - 1),
                Some(b) => if abs(distance(s, parent_location, earliest_child_location)) < abs(
                    distance(starts[b], parent_location, earliest_child_location),
                ) {
                    Some(n - 1)
                } else {
                    Some(b)
                },
            }
        }
    }
}

/// What [`location_via_matches`] needs: the starts fit in an `i32`, the
/// distance of each start at or after the parent fits in an `i32` and can be
/// negated, some start lies at or after the parent, and the nearest one does
/// not lie after the first child.
pub open spec fn matches_locate(starts: Seq<int>, parent_location: i32, earliest_child_location: Option<i32>) -> bool {
    &&& forall|i: int| 0 <= i < starts.len() ==> 0 <= #[trigger] starts[i] <= i32::MAX
    &&& forall|i: int|
        0 <= i < starts.len() && #[trigger] starts[i] >= parent_location ==> i32::MIN < distance(
            starts[i],
            parent_location,
            earliest_child_location,
        ) <= i32::MAX
    &&& nearest_match(starts, starts.len() as int, parent_location, earliest_child_location) matches Some(b)
        && (earliest_child_location matches Some(e) ==> starts[b] <= e)
}

/// The location the match starts give: the nearest match at or after the parent.
pub open spec fn located(starts: Seq<int>, parent_location: i32, earliest_child_location: Option<i32>) -> int {
    starts[nearest_match(starts, starts.len() as int, parent_location, earliest_child_location).unwrap()]
}

proof fn lemma_nearest_match_bound(starts: Seq<int>, n: int, parent_location: i32, earliest_child_location: Option<i32>)
    requires
        0 <= n <= starts.len(),
    ensures
        nearest_match(starts, n, parent_location, earliest_child_location) matches Some(b) ==> 0 <= b < n
            && starts[b] >= parent_location,
    decreases n,
{
    if n > 0 {
        lemma_nearest_match_bound(starts, n - 1, parent_location, earliest_child_location);
    }
}

/// The location the match starts give is one of them, so it fits in an `i32`.
pub proof fn lemma_located_fits(starts: Seq<int>, parent_location: i32, earliest_child_location: Option<i32>)
    requires
        matches_locate(starts, parent_location, earliest_child_location),
    ensures
        0 <= located(starts, parent_location, earliest_child_location) <= i32::MAX,
{
    lemma_nearest_match_bound(starts, starts.len() as int, parent_location, earliest_child_location);
    let b = nearest_match(starts, starts.len() as int, parent_location, earliest_child_location).unwrap();
    assert(0 <= starts[b] <= i32::MAX);
}

proof fn lemma_nearest_match_is_nearest(starts: Seq<int>, n: int, parent_location: i32, earliest_child_location: Option<i32>)
    requires
        0 <= n <= starts.len(),
    ensures
        nearest_match(starts, n, parent_location, earliest_child_location) matches Some(b) ==> {
            &&& 0 <= b < n
            &&& starts[b] >= parent_location
            &&& forall|j: int| 0 <= j < n && #[trigger] starts[j] >= parent_location ==> abs(
                distance(starts[b], parent_location, earliest_child_location),
            ) <= abs(distance(starts[j], parent_location, earliest_child_location))
            &&& forall|j: int| 0 <= j < b && #[trigger] starts[j] >= parent_location ==> abs(
                distance(starts[b], parent_location, earliest_child_location),
            ) < abs(distance(starts[j], parent_location, earliest_child_location))
        },
        nearest_match(starts, n, parent_location, earliest_child_location) is None ==> forall|j: int|
            0 <= j < n ==> #[trigger] starts[j] < parent_location,
    decreases n,
{
    if n > 0 {
        lemma_nearest_match_is_nearest(starts, n - 1, parent_location, earliest_child_location);
    }
}

/// The location found from the match starts is the nearest of the starts at
/// or after the parent: with a first child, the one closest to that child;
/// without, the one closest after the parent. Where several are equally
/// close, the earliest of them is taken.
pub proof fn lemma_located_is_nearest(starts: Seq<int>, parent_location: i32, earliest_child_location: Option<i32>)
    requires
        exists|i: int| 0 <= i < starts.len() && #[trigger] starts[i] >= parent_location,
    ensures
        exists|b: int| {
            &&& 0 <= b < starts.len()
            &&& #[trigger] starts[b] == located(starts, parent_location, earliest_child_location)
            &&& starts[b] >= parent_location
            &&& forall|j: int| 0 <= j < starts.len() && #[trigger] starts[j] >= parent_location ==> match earliest_child_location {
                Some(e) => abs(e - starts[b]) <= abs(e - starts[j]) && (j < b ==> abs(e - starts[b]) < abs(e - starts[j])),
                None => starts[b] <= starts[j] && (j < b ==> starts[b] < starts[j]),
            }
        },
{
    let n = starts.len() as int;
    lemma_nearest_match_is_nearest(starts, n, parent_location, earliest_child_location);
    let i = choose|i: int| 0 <= i < starts.len() && #[trigger] starts[i] >= parent_location;
    assert(starts[i] >= parent_location);
    let b = nearest_match(starts, n, parent_location, earliest_child_location).unwrap();
    assert(starts[b] == located(starts, parent_location, earliest_child_location));
}

/// The start of the nearest match at or after the parent (see [`nearest_match`]).
pub fn location_via_matches(starts: &Vec<usize>, parent_location: i32, earliest_child_location: Option<i32>) -> (r: i32)
    requires
        matches_locate(starts@.map_values(|x: usize| x as int), parent_location, earliest_child_location),
    ensures
        r == located(starts@.map_values(|x: usize| x as int), parent_location, earliest_child_location),
{
    let ghost ss = starts@.map_values(|x: usize| x as int);
    let mut best: Option<usize> = None;
    let mut best_abs: i64 = 0;
    let mut i: usize = 0;
    while i < starts.len()
        invariant
            i <= starts.len(),
            ss == starts@.map_values(|x: usize| x as int),
            matches_locate(ss, parent_location, earliest_child_location),
            best.is_some() == nearest_match(ss, i as int, parent_location, earliest_child_location).is_some(),
            best matches Some(b) ==> b as int == nearest_match(ss, i as int, parent_location, earliest_child_location).unwrap()
                && b < i && best_abs == abs(distance(ss[b as int], parent_location, earliest_child_location)),
        decreases starts.len() - i,
    {
        let s = starts[i];
        assert(ss[i as int] == s as int);
        proof {
            lemma_nearest_match_bound(ss, i as int, parent_location, earliest_child_location);
        }
        if (s as i64) >= (parent_location as i64) {
            let d: i64 = match earliest_child_location {
                Some(e) => (e as i64) - (s as i64),
                None => (s as i64) - (parent_location as i64),
            };
            let a: i64 = if d < 0 { -d } else { d };
            match best {
                None => {
                    best = Some(i);
                    best_abs = a;
                },
                Some(b) => {
                    if a < best_abs {
                        best = Some(i);
                        best_abs = a;
                    }
                },
            }
        }
        i = i + 1;
    }
    proof {
        lemma_nearest_match_bound(ss, ss.len() as int, parent_location, earliest_child_location);
    }
    let b = best.unwrap();
    assert(ss[b as int] == starts@[b as int] as int);
    starts[b] as i32
}

/// The pattern of `tag`, where it has one (see [`tag_pattern`]).
fn pattern_of(tag: &NodeTag) -> (r: Option<String>)
    ensures
        match tag_pattern(*tag) {
            Some(p) => r matches Some(s) && s@ == p,
            None => r is None,
        },
{
    proof {
        reveal_strlit("");
    }
    match tag {
        NodeTag::InsertStmt => Some("(?mi)insert\\s+into".to_owned()),
        NodeTag::DeleteStmt => Some("(?mi)delete\\s+from".to_owned()),
        NodeTag::SelectStmt => Some("(?mi)select|values".to_owned()),
        NodeTag::AlterTableStmt => Some("(?mi)alter\\s+table".to_owned()),
        NodeTag::AlterTableCmd(name) => Some(concat3("(?mi)alter.*", name.as_str(), "")),
        NodeTag::AStar => Some("(?mi)\\*".to_owned()),
        NodeTag::AccessPriv(name) => Some(concat3("(?mi)", name.as_str(), "")),
        NodeTag::List => Some("(?mi)\\((.*?)\\)".to_owned()),
        _ => None,
    }
}

/// What [`derive_location`] needs: the node is of a kind whose location can
/// be derived, the text's offsets fit in an `i32`, and, where the kind has a
/// pattern, it compiles and its matches locate the node.
pub open spec fn derive_ok(tag: NodeTag, text: Seq<char>, parent_location: i32, earliest_child_location: Option<i32>) -> bool {
    &&& tag !is Other
    &&& byte_len(text) <= i32::MAX
    &&& tag_pattern(tag) matches Some(p) ==> regex_compiles(p) && matches_locate(
        regex_match_starts(p, text),
        parent_location,
        earliest_child_location,
    )
}

/// The location of a node of `tag` in `text`: none for the literal kinds;
/// else the start of the match of the kind's pattern at or after
/// `parent_location` whose distance to `earliest_child_location` (or, for a
/// node without children, to `parent_location`) is the smallest, the first
/// such.
pub fn derive_location(tag: &NodeTag, text: &str, parent_location: i32, earliest_child_location: Option<i32>) -> (r: Option<i32>)
    requires
        derive_ok(*tag, text@, parent_location, earliest_child_location),
    ensures
        match tag_pattern(*tag) {
            None => r is None,
            Some(p) => r == Some(
                located(regex_match_starts(p, text@), parent_location, earliest_child_location) as i32,
            ),
        },
{
    match pattern_of(tag) {
        None => None,
        Some(pattern) => {
            let starts = match_starts(pattern.as_str(), text).unwrap();
            Some(location_via_matches(&starts, parent_location, earliest_child_location))
        },
    }
}

/// [`derive_location`] where it has what it needs, else `None`.
pub fn try_derive_location(tag: &NodeTag, text: &str, parent_location: i32, earliest_child_location: Option<i32>) -> (r: Option<Option<i32>>)
    ensures
        r is Some <==> derive_ok(*tag, text@, parent_location, earliest_child_location),
        r matches Some(l) ==> match tag_pattern(*tag) {
            None => l is None,
            Some(p) => l == Some(located(regex_match_starts(p, text@), parent_location, earliest_child_location) as i32),
        },
{
    if let NodeTag::Other = tag {
        return None;
    }
    if text_len(text) > 2147483647usize {
        return None;
    }
    match pattern_of(tag) {
        None => Some(None),
        Some(pattern) => match match_starts(pattern.as_str(), text) {
            None => None,
            Some(starts) => {
                if check_matches_locate(&starts, parent_location, earliest_child_location) {
                    Some(Some(location_via_matches(&starts, parent_location, earliest_child_location)))
                } else {
                    None
                }
            },
        },
    }
}

/// Whether the match starts locate the node (see [`matches_locate`]).
fn check_matches_locate(starts: &Vec<usize>, parent_location: i32, earliest_child_location: Option<i32>) -> (r: bool)
    ensures
        r == matches_locate(starts@.map_values(|x: usize| x as int), parent_location, earliest_child_location),
{
    let ghost ss = starts@.map_values(|x: usize| x as int);
    let mut best: Option<usize> = None;
    let mut best_abs: i64 = 0;
    let mut i: usize = 0;
    while i < starts.len()
        invariant
            i <= starts.len(),
            ss == starts@.map_values(|x: usize| x as int),
            forall|j: int| 0 <= j < i ==> 0 <= #[trigger] ss[j] <= i32::MAX,
            forall|j: int|
                0 <= j < i && #[trigger] ss[j] >= parent_location ==> i32::MIN < distance(
                    ss[j],
                    parent_location,
                    earliest_child_location,
                ) <= i32::MAX,
            best.is_some() == nearest_match(ss, i as int, parent_location, earliest_child_location).is_some(),
            best matches Some(b) ==> b as int == nearest_match(ss, i as int, parent_location, earliest_child_location).unwrap()
                && b < i && best_abs == abs(distance(ss[b as int], parent_location, earliest_child_location)),
        decreases starts.len() - i,
    {
        let s = starts[i];
        assert(ss[i as int] == s as int);
        proof {
            lemma_nearest_match_bound(ss, i as int, parent_location, earliest_child_location);
        }
        if s > 2147483647usize {
            return false;
        }
        if (s as i64) >= (parent_location as i64) {
            let d: i64 = match earliest_child_location {
                Some(e) => (e as i64) - (s as i64),
                None => (s as i64) - (parent_location as i64),
            };
            if d <= -2147483648i64 || d > 2147483647i64 {
                return false;
            }
            let a: i64 = if d < 0 { -d } else { d };
            match best {
                None => {
                    best = Some(i);
                    best_abs = a;
                },
                Some(b) => {
                    if a < best_abs {
                        best = Some(i);
                        best_abs = a;
                    }
                },
            }
        }
        i = i + 1;
    }
    proof {
        lemma_nearest_match_bound(ss, ss.len() as int, parent_location, earliest_child_location);
    }
    match best {
        None => false,
        Some(b) => match earliest_child_location {
            Some(e) => {
                assert(ss[b as int] == starts@[b as int] as int);
                starts[b] as i64 <= e as i64
            },
            None => true,
        },
    }
}

} // verus!
