//! Changes to a document, and which statements they touch.
use vstd::prelude::*;

use crate::document::{
    is_statement, line_index_for, line_index_of, range_sliceable, range_text, ranges_sliceable, Document,
    StatementRef,
};
use crate::strings::{byte_len, concat3, is_boundary, slice_bytes, substring, suffix_from, text_len, valid_slice};
use crate::path::PgLspPath;
use crate::text::TextRange;

verus! {

broadcast use vstd::utf8::group_utf8_lib;

/// What a change did to one statement.
#[derive(Debug)]
pub enum StatementChange {
    Added(StatementRef),
    Deleted(StatementRef),
    Modified(ChangedStatement),
}

/// A statement whose text changed inside it.
#[derive(Debug)]
pub struct ChangedStatement {
    /// The statement before the change.
    pub statement: StatementRef,
    /// The range that changed, relative to the start of the statement.
    pub range: TextRange,
    /// The text that replaces `range`.
    pub text: String,
}

/// A batch of changes that bring a document to `version`.
#[derive(Debug)]
pub struct DocumentChange {
    pub version: i32,
    pub changes: Vec<Change>,
    changed_statements: Vec<StatementChange>,
    applied: bool,
}

/// A replacement of `range` by `text`; with no range the whole file is replaced.
#[derive(Debug)]
pub struct Change {
    /// The range of the file that changed. If `None`, the whole file changed.
    pub range: Option<TextRange>,
    pub text: String,
}

impl Clone for Change {
    fn clone(&self) -> (r: Self)
        ensures
            r == *self,
    {
        Change { range: self.range, text: self.text.clone() }
    }
}

/// `text` with `range` replaced by `new`; with no range, `new` itself.
pub open spec fn spliced(text: Seq<char>, range: Option<TextRange>, new: Seq<char>) -> Seq<char> {
    match range {
        None => new,
        Some(r) => slice_bytes(text, 0, r.start as int) + new + slice_bytes(text, r.end as int, byte_len(text)),
    }
}

/// `range` may replace a part of `text`: both its ends are character boundaries.
pub open spec fn splice_ok(text: Seq<char>, range: Option<TextRange>) -> bool {
    range matches Some(r) ==> is_boundary(text, r.start as int) && is_boundary(text, r.end as int)
}

/// `c` records that `s` was added: the statement `idx` of `url` covering `range` of `text`.
pub open spec fn is_added(c: StatementChange, url: crate::path::PgLspPath, text: Seq<char>, range: TextRange, idx: int) -> bool {
    c matches StatementChange::Added(s) && is_statement(s, url, text, range, idx)
}

/// `c` records that the statement `idx` of `url` covering `range` of `text` was deleted.
pub open spec fn is_deleted(c: StatementChange, url: crate::path::PgLspPath, text: Seq<char>, range: TextRange, idx: int) -> bool {
    c matches StatementChange::Deleted(s) && is_statement(s, url, text, range, idx)
}

/// The absolute difference of two integers.
pub open spec fn abs_diff(a: int, b: int) -> int {
    if a >= b { a - b } else { b - a }
}

/// `ranges` is sorted by start.
pub open spec fn sorted_by_start(ranges: Seq<TextRange>) -> bool {
    forall|i: int, j: int| 0 <= i < j < ranges.len() ==> ranges[i].start <= ranges[j].start
}

/// Every range of `ranges` is well formed.
pub open spec fn all_wf(ranges: Seq<TextRange>) -> bool {
    forall|i: int| 0 <= i < ranges.len() ==> (#[trigger] ranges[i]).wf()
}

/// The first index at or after `i` whose range ends at or after `x`, else the length.
pub open spec fn first_end_at_least(ranges: Seq<TextRange>, x: int, i: int) -> int
    decreases ranges.len() - i,
{
    if i >= ranges.len() {
        ranges.len() as int
    } else if ranges[i].end >= x {
        i
    } else {
        first_end_at_least(ranges, x, i + 1)
    }
}

/// The first index at or after `i` whose range ends after `x`, else the length.
pub open spec fn first_end_above(ranges: Seq<TextRange>, x: int, i: int) -> int
    decreases ranges.len() - i,
{
    if i >= ranges.len() {
        ranges.len() as int
    } else if ranges[i].end > x {
        i
    } else {
        first_end_above(ranges, x, i + 1)
    }
}

/// The index of the first range that contains `c` entirely.
pub open spec fn first_containing_range(ranges: Seq<TextRange>, c: TextRange, i: int) -> Option<int>
    decreases ranges.len() - i,
{
    if i >= ranges.len() || i < 0 {
        None
    } else if ranges[i].spec_contains_range(c) {
        Some(i)
    } else {
        first_containing_range(ranges, c, i + 1)
    }
}

/// The number of ranges whose start is before `key`.
pub open spec fn count_start_below(ranges: Seq<TextRange>, key: u32) -> int
    decreases ranges.len(),
{
    if ranges.len() == 0 {
        0
    } else {
        count_start_below(ranges.drop_last(), key) + if ranges.last().start < key { 1int } else { 0int }
    }
}

/// Some range of `ranges` starts at `key`.
pub open spec fn has_start(ranges: Seq<TextRange>, key: u32) -> bool {
    exists|i: int| 0 <= i < ranges.len() && (#[trigger] ranges[i]).start == key
}

/// Inserts the first `n` of `new` into the sorted `ranges`, skipping any whose
/// start is already there; gives the ranges and the `(index, range)` of each
/// range inserted, in order.
pub open spec fn insert_ranges(ranges: Seq<TextRange>, new: Seq<TextRange>, n: int) -> (Seq<TextRange>, Seq<(int, TextRange)>)
    decreases n,
{
    if n <= 0 {
        (ranges, seq![])
    } else {
        let (cur, added) = insert_ranges(ranges, new, n - 1);
        let r = new[n - 1];
        if has_start(cur, r.start) {
            (cur, added)
        } else {
            let pos = count_start_below(cur, r.start);
            (cur.insert(pos, r), added.push((pos, r)))
        }
    }
}

/// Where a change inside statement `p` leaves range `i`, when ranges from `k`
/// on are moved; `add` and `del` say whether the change grows or shrinks the
/// text and `d` is its size difference.
pub open spec fn moved_range(r: TextRange, i: int, p: int, k: int, add: bool, del: bool, d: int) -> TextRange {
    if i < k {
        r
    } else if i == p {
        if add {
            TextRange { start: r.start, end: (r.end + d) as u32 }
        } else if del {
            TextRange { start: r.start, end: (r.end - d) as u32 }
        } else {
            r
        }
    } else if add {
        TextRange { start: (r.start + d) as u32, end: (r.end + d) as u32 }
    } else if del {
        TextRange { start: (r.start - d) as u32, end: (r.end - d) as u32 }
    } else {
        r
    }
}

/// Moving range `i` as in [`moved_range`] does not overflow or underflow.
pub open spec fn move_ok(r: TextRange, i: int, p: int, k: int, add: bool, del: bool, d: int) -> bool {
    i >= k ==> if i == p {
        (add ==> r.end + d <= u32::MAX) && (!add && del ==> r.start + d <= r.end)
    } else {
        (add ==> r.end + d <= u32::MAX) && (!add && del ==> d <= r.start)
    }
}

/// The start of the text that a change across statements hands to the splitter:
/// the least of the change's start and the starts of the deleted statements.
pub open spec fn min_start(ranges: Seq<TextRange>, c: TextRange, lo: int, hi: int) -> int
    decreases hi - lo,
{
    if hi <= lo {
        c.start as int
    } else {
        let m = min_start(ranges, c, lo, hi - 1);
        if (ranges[hi - 1].start as int) < m { ranges[hi - 1].start as int } else { m }
    }
}

/// The greatest of the change's end and the ends of the deleted statements.
pub open spec fn max_end(ranges: Seq<TextRange>, c: TextRange, lo: int, hi: int) -> int
    decreases hi - lo,
{
    if hi <= lo {
        c.end as int
    } else {
        let m = max_end(ranges, c, lo, hi - 1);
        if (ranges[hi - 1].end as int) > m { ranges[hi - 1].end as int } else { m }
    }
}

/// The splitter accepts every text and returns ranges that can be cut out of it.
pub open spec fn splitter_ok<S: Fn(&String) -> Vec<TextRange>>(splitter: S) -> bool {
    &&& forall|s: &String| #[trigger] splitter.requires((s,))
    &&& forall|s: &String, rs: Vec<TextRange>| #[trigger] splitter.ensures((s,), rs) ==> ranges_sliceable(s@, rs@)
}

impl Change {
    /// The range is well formed and the text's byte length fits in `usize`.
    pub open spec fn wf(self) -> bool {
        &&& self.range matches Some(r) ==> r.wf()
        &&& byte_len(self.text@) <= usize::MAX
    }

    /// How much the change grows or shrinks the text: the number of characters
    /// of the new text against the number of bytes of the range it replaces.
    pub open spec fn spec_diff_size(self) -> int {
        match self.range {
            Some(r) => abs_diff(self.text@.len() as int, r.spec_len()),
            None => self.text@.len() as int,
        }
    }

    /// The new text has more bytes than the range it replaces.
    pub open spec fn spec_is_addition(self) -> bool {
        self.range matches Some(r) && byte_len(self.text@) > r.spec_len()
    }

    /// The new text has fewer bytes than the range it replaces.
    pub open spec fn spec_is_deletion(self) -> bool {
        self.range matches Some(r) && byte_len(self.text@) < r.spec_len()
    }

    /// How much the change grows or shrinks the text.
    ///
    /// The size counts the characters of the new text against the bytes of the
    /// replaced range.
    pub fn diff_size(&self) -> (r: u32)
        requires
            self.wf(),
            self.spec_diff_size() <= u32::MAX,
        ensures
            r == self.spec_diff_size(),
    {
        match self.range {
            Some(range) => {
                let range_length = range.len() as usize;
                let text_length = self.text.as_str().unicode_len();
                let diff = if text_length >= range_length {
                    text_length - range_length
                } else {
                    range_length - text_length
                };
                diff as u32
            },
            None => self.text.as_str().unicode_len() as u32,
        }
    }

    /// The change replaces a range by a longer text (in bytes).
    pub fn is_addition(&self) -> (r: bool)
        requires
            self.wf(),
        ensures
            r == self.spec_is_addition(),
    {
        match self.range {
            Some(range) => text_len(self.text.as_str()) > range.len() as usize,
            None => false,
        }
    }

    /// The change replaces a range by a shorter text (in bytes).
    pub fn is_deletion(&self) -> (r: bool)
        requires
            self.wf(),
        ensures
            r == self.spec_is_deletion(),
    {
        match self.range {
            Some(range) => text_len(self.text.as_str()) < (range.len() as usize),
            None => false,
        }
    }

    /// `text` with this change applied.
    pub fn apply_to_text(&self, text: &String) -> (r: String)
        requires
            splice_ok(text@, self.range),
        ensures
            r@ == spliced(text@, self.range, self.text@),
    {
        apply_text_change(text, self.range, &self.text)
    }
}

/// `text` with `range` replaced by `change_text`; with no range, `change_text`.
fn apply_text_change(text: &String, range: Option<TextRange>, change_text: &String) -> (r: String)
    requires
        splice_ok(text@, range),
    ensures
        r@ == spliced(text@, range, change_text@),
{
    match range {
        None => {
            let r = change_text.clone();
            assert(r@ == change_text@);
            r
        },
        Some(range) => {
            proof {
                vstd::utf8::encode_utf8_valid_utf8(text@);
                vstd::utf8::is_char_boundary_start_end_of_seq(crate::strings::bytes_of(text@));
            }
            let pre = substring(text.as_str(), 0, range.start as usize);
            let post = suffix_from(text.as_str(), range.end as usize);
            concat3(pre.as_str(), change_text.as_str(), post.as_str())
        },
    }
}

impl StatementChange {
    /// The statement the change is about: for a modification, the statement before it.
    pub fn statement(&self) -> (r: &StatementRef)
        ensures
            match self {
                StatementChange::Added(s) => r == s,
                StatementChange::Deleted(s) => r == s,
                StatementChange::Modified(m) => r == &m.statement,
            },
    {
        match self {
            StatementChange::Added(stmt) => stmt,
            StatementChange::Deleted(stmt) => stmt,
            StatementChange::Modified(stmt) => &stmt.statement,
        }
    }
}

impl ChangedStatement {
    /// The statement after the change: its text with `range` replaced by `text`.
    pub fn new_statement(&self) -> (r: StatementRef)
        requires
            splice_ok(self.statement.text@, Some(self.range)),
        ensures
            r.idx == self.statement.idx,
            r.document_url == self.statement.document_url,
            r.text@ == spliced(self.statement.text@, Some(self.range), self.text@),
    {
        StatementRef {
            idx: self.statement.idx,
            text: apply_text_change(&self.statement.text, Some(self.range), &self.text),
            document_url: self.statement.document_url.clone(),
        }
    }
}


/// The first index at or after `from` whose range ends at or after `x`, else the length.
fn find_end_at_least(ranges: &Vec<TextRange>, x: u32, from: usize) -> (r: usize)
    requires
        from <= ranges.len(),
    ensures
        r == first_end_at_least(ranges@, x as int, from as int),
        from <= r <= ranges.len(),
        forall|j: int| from <= j < r ==> (#[trigger] ranges@[j]).end < x,
        r < ranges.len() ==> ranges@[r as int].end >= x,
{
    let mut i = from;
    while i < ranges.len()
        invariant
            from <= i <= ranges.len(),
            first_end_at_least(ranges@, x as int, i as int) == first_end_at_least(ranges@, x as int, from as int),
            forall|j: int| from <= j < i ==> (#[trigger] ranges@[j]).end < x,
        decreases ranges.len() - i,
    {
        if ranges[i].end >= x {
            return i;
        }
        i = i + 1;
    }
    i
}

/// The first index at or after `from` whose range ends after `x`, else the length.
fn find_end_above(ranges: &Vec<TextRange>, x: u32, from: usize) -> (r: usize)
    requires
        from <= ranges.len(),
    ensures
        r == first_end_above(ranges@, x as int, from as int),
        from <= r <= ranges.len(),
        forall|j: int| from <= j < r ==> (#[trigger] ranges@[j]).end <= x,
        r < ranges.len() ==> ranges@[r as int].end > x,
{
    let mut i = from;
    while i < ranges.len()
        invariant
            from <= i <= ranges.len(),
            first_end_above(ranges@, x as int, i as int) == first_end_above(ranges@, x as int, from as int),
            forall|j: int| from <= j < i ==> (#[trigger] ranges@[j]).end <= x,
        decreases ranges.len() - i,
    {
        if ranges[i].end > x {
            return i;
        }
        i = i + 1;
    }
    i
}

/// The index of the first range that contains `c` entirely.
fn find_containing_range(ranges: &Vec<TextRange>, c: TextRange) -> (r: Option<usize>)
    ensures
        match first_containing_range(ranges@, c, 0) {
            Some(p) => r matches Some(k) && k as int == p && 0 <= p < ranges.len()
                && ranges@[p].spec_contains_range(c),
            None => r is None,
        },
{
    let mut i: usize = 0;
    while i < ranges.len()
        invariant
            i <= ranges.len(),
            first_containing_range(ranges@, c, i as int) == first_containing_range(ranges@, c, 0),
        decreases ranges.len() - i,
    {
        if ranges[i].contains_range(c) {
            return Some(i);
        }
        i = i + 1;
    }
    None
}

proof fn lemma_first_end_at_least_bound(ranges: Seq<TextRange>, x: int, i: int, p: int)
    requires
        0 <= i <= p < ranges.len(),
        ranges[p].end >= x,
    ensures
        first_end_at_least(ranges, x, i) <= p,
    decreases p - i,
{
    if ranges[i].end < x {
        lemma_first_end_at_least_bound(ranges, x, i + 1, p);
    }
}

/// For sorted ranges, the count of starts below `key` is the partition point.
proof fn lemma_count_partition(ranges: Seq<TextRange>, key: u32, p: int)
    requires
        0 <= p <= ranges.len(),
        forall|j: int| 0 <= j < p ==> (#[trigger] ranges[j]).start < key,
        forall|j: int| p <= j < ranges.len() ==> (#[trigger] ranges[j]).start >= key,
    ensures
        count_start_below(ranges, key) == p,
    decreases ranges.len(),
{
    if ranges.len() > 0 {
        let q = if p == ranges.len() { p - 1 } else { p };
        assert forall|j: int| 0 <= j < q implies (#[trigger] ranges.drop_last()[j]).start < key by {
            assert(ranges.drop_last()[j] == ranges[j]);
        }
        assert forall|j: int| q <= j < ranges.drop_last().len() implies (#[trigger] ranges.drop_last()[j]).start >= key by {
            assert(ranges.drop_last()[j] == ranges[j]);
        }
        lemma_count_partition(ranges.drop_last(), key, q);
    }
}

/// Searches the ranges, sorted by start, for one that starts at `key`: `Ok`
/// with its index if there is one, else `Err` with the index at which a range
/// starting at `key` keeps the order.
fn search_start(ranges: &Vec<TextRange>, key: u32) -> (r: Result<usize, usize>)
    requires
        sorted_by_start(ranges@),
    ensures
        match r {
            Ok(i) => i < ranges.len() && ranges@[i as int].start == key,
            Err(pos) => !has_start(ranges@, key) && pos as int == count_start_below(ranges@, key)
                && pos <= ranges.len()
                && (forall|j: int| 0 <= j < pos ==> (#[trigger] ranges@[j]).start < key)
                && (forall|j: int| pos <= j < ranges.len() ==> (#[trigger] ranges@[j]).start > key),
        },
{
    let mut lo: usize = 0;
    let mut hi: usize = ranges.len();
    while lo < hi
        invariant
            lo <= hi <= ranges.len(),
            sorted_by_start(ranges@),
            forall|j: int| 0 <= j < lo ==> (#[trigger] ranges@[j]).start < key,
            forall|j: int| hi <= j < ranges.len() ==> (#[trigger] ranges@[j]).start >= key,
        decreases hi - lo,
    {
        let mid = lo + (hi - lo) / 2;
        if ranges[mid].start < key {
            lo = mid + 1;
        } else {
            hi = mid;
        }
    }
    if lo < ranges.len() && ranges[lo].start == key {
        Ok(lo)
    } else {
        proof {
            lemma_count_partition(ranges@, key, lo as int);
            assert forall|j: int| lo <= j < ranges.len() implies (#[trigger] ranges@[j]).start > key by {
                assert(ranges@[lo as int].start <= ranges@[j].start);
            }
        }
        Err(lo)
    }
}

/// Inserting at the partition point keeps ranges sorted by start.
proof fn lemma_insert_sorted(ranges: Seq<TextRange>, pos: int, r: TextRange)
    requires
        sorted_by_start(ranges),
        0 <= pos <= ranges.len(),
        forall|j: int| 0 <= j < pos ==> (#[trigger] ranges[j]).start < r.start,
        forall|j: int| pos <= j < ranges.len() ==> (#[trigger] ranges[j]).start > r.start,
    ensures
        sorted_by_start(ranges.insert(pos, r)),
{
    let s = ranges.insert(pos, r);
    assert forall|i: int, j: int| 0 <= i < j < s.len() implies s[i].start <= s[j].start by {
        if i < pos && j < pos {
        } else if i < pos && j == pos {
        } else if i < pos {
            assert(s[j] == ranges[j - 1]);
        } else if i == pos {
            assert(s[j] == ranges[j - 1]);
        } else {
            assert(s[i] == ranges[i - 1]);
            assert(s[j] == ranges[j - 1]);
        }
    }
}


/// What replacing the whole file needs: every statement can be cut out of the text.
pub open spec fn whole_requires(doc: Document) -> bool {
    ranges_sliceable(doc.text@, doc.statement_ranges@)
}

/// Replacing the whole file: every old statement is deleted, the text is the
/// new text, the ranges are what the splitter gave for it, and every new
/// statement is added.
pub open spec fn whole_ensures<S: Fn(&String) -> Vec<TextRange>>(
    ch: Change,
    d0: Document,
    d1: Document,
    res: Seq<StatementChange>,
    splitter: S,
) -> bool {
    let n0 = d0.statement_ranges.len() as int;
    let n1 = d1.statement_ranges.len() as int;
    &&& d1.text == ch.text
    &&& splitter.ensures((&ch.text,), d1.statement_ranges)
    &&& res.len() == n0 + n1
    &&& forall|i: int| 0 <= i < n0 ==>
        is_deleted(#[trigger] res[i], d0.url, d0.text@, d0.statement_ranges@[i], i)
    &&& forall|i: int| 0 <= i < n1 ==>
        is_added(#[trigger] res[n0 + i], d0.url, d1.text@, d1.statement_ranges@[i], i)
}

/// What a change inside statement `p` needs so that nothing overflows or
/// cuts a character.
pub open spec fn within_requires(ch: Change, doc: Document, c: TextRange, p: int) -> bool {
    let rs = doc.statement_ranges@;
    let k = first_end_at_least(rs, c.end as int, 0);
    let add = ch.spec_is_addition();
    let del = ch.spec_is_deletion();
    let d = ch.spec_diff_size();
    &&& 0 <= p < rs.len()
    &&& rs[p].spec_contains_range(c)
    &&& c.wf()
    &&& all_wf(rs)
    &&& range_sliceable(doc.text@, rs[p])
    &&& splice_ok(doc.text@, Some(c))
    &&& (add || del) ==> d <= u32::MAX
    &&& forall|i: int| k <= i < rs.len() ==> move_ok(#[trigger] rs[i], i, p, k, add, del, d)
}

/// A change inside statement `p`: the statement is reported modified, the
/// ranges from the first one that ends at or after the change are moved by
/// the size difference, and the text is spliced.
pub open spec fn within_ensures(ch: Change, d0: Document, d1: Document, res: Seq<StatementChange>, c: TextRange, p: int) -> bool {
    let rs = d0.statement_ranges@;
    let k = first_end_at_least(rs, c.end as int, 0);
    let add = ch.spec_is_addition();
    let del = ch.spec_is_deletion();
    let d = ch.spec_diff_size();
    &&& d1.text@ == spliced(d0.text@, Some(c), ch.text@)
    &&& d1.statement_ranges.len() == rs.len()
    &&& forall|i: int| 0 <= i < rs.len() ==>
        #[trigger] d1.statement_ranges@[i] == moved_range(rs[i], i, p, k, add, del, d)
    &&& res.len() == 1
    &&& res[0] matches StatementChange::Modified(m) && {
        &&& is_statement(m.statement, d0.url, d0.text@, rs[p], p)
        &&& m.range == (TextRange { start: (c.start - rs[p].start) as u32, end: (c.end - rs[p].start) as u32 })
        &&& m.text == ch.text
    }
}

/// The text a change across statements hands to the splitter.
pub open spec fn across_text(ch: Change, doc: Document, c: TextRange) -> Seq<char> {
    let rs = doc.statement_ranges@;
    let k1 = first_end_at_least(rs, c.start as int, 0);
    let k2 = first_end_above(rs, c.end as int, k1);
    let new = spliced(doc.text@, Some(c), ch.text@);
    let mn = min_start(rs, c, k1, k2);
    let mx0 = max_end(rs, c, k1, k2);
    let mx = if byte_len(new) < mx0 { byte_len(new) } else { mx0 };
    slice_bytes(new, mn, mx)
}

/// What a change that no single statement contains needs.
pub open spec fn across_requires(ch: Change, doc: Document, c: TextRange) -> bool {
    let rs = doc.statement_ranges@;
    let k1 = first_end_at_least(rs, c.start as int, 0);
    let k2 = first_end_above(rs, c.end as int, k1);
    let new = spliced(doc.text@, Some(c), ch.text@);
    let mn = min_start(rs, c, k1, k2);
    let mx0 = max_end(rs, c, k1, k2);
    let mx = if byte_len(new) < mx0 { byte_len(new) } else { mx0 };
    &&& k1 < k2
    &&& forall|i: int| k1 <= i < k2 ==> range_sliceable(doc.text@, #[trigger] rs[i])
    &&& splice_ok(doc.text@, Some(c))
    &&& byte_len(new) <= u32::MAX
    &&& valid_slice(new, mn, mx)
    &&& sorted_by_start(rs)
}

/// A change that no single statement contains: the statements from the first
/// one ending at or after its start up to the last one ending at or before its
/// end are deleted; the splitter cuts the new text from the least start to the
/// greatest end of those statements and the change; each statement it finds
/// whose start is not yet a start is inserted in order and reported added.
pub open spec fn across_ensures<S: Fn(&String) -> Vec<TextRange>>(
    ch: Change,
    d0: Document,
    d1: Document,
    res: Seq<StatementChange>,
    c: TextRange,
    splitter: S,
) -> bool {
    let rs = d0.statement_ranges@;
    let k1 = first_end_at_least(rs, c.start as int, 0);
    let k2 = first_end_above(rs, c.end as int, k1);
    let kept = rs.subrange(0, k1) + rs.subrange(k2, rs.len() as int);
    &&& d1.text@ == spliced(d0.text@, Some(c), ch.text@)
    &&& exists|s: String, found: Vec<TextRange>| {
        &&& s@ == across_text(ch, d0, c)
        &&& #[trigger] splitter.ensures((&s,), found)
        &&& d1.statement_ranges@ == insert_ranges(kept, found@, found.len() as int).0
        &&& res.len() == (k2 - k1) + insert_ranges(kept, found@, found.len() as int).1.len()
        &&& forall|i: int| 0 <= i < k2 - k1 ==>
            is_deleted(#[trigger] res[i], d0.url, d0.text@, rs[k1 + i], k1 + i)
        &&& forall|j: int| 0 <= j < insert_ranges(kept, found@, found.len() as int).1.len() ==> {
            let a = insert_ranges(kept, found@, found.len() as int).1[j];
            is_added(#[trigger] res[(k2 - k1) + j], d0.url, s@, a.1, a.0)
        }
    }
}

impl Change {
    /// What [`Change::apply`] needs of the document and the splitter.
    pub open spec fn apply_requires<S: Fn(&String) -> Vec<TextRange>>(self, doc: Document, splitter: S) -> bool {
        &&& splitter_ok(splitter)
        &&& self.wf()
        &&& byte_len(spliced(doc.text@, self.range, self.text@)) < u32::MAX
        &&& match self.range {
            None => whole_requires(doc),
            Some(c) => match first_containing_range(doc.statement_ranges@, c, 0) {
                Some(p) => within_requires(self, doc, c, p),
                None => across_requires(self, doc, c),
            },
        }
    }

    /// What [`Change::apply`] does to the document and returns.
    pub open spec fn apply_ensures<S: Fn(&String) -> Vec<TextRange>>(
        self,
        d0: Document,
        d1: Document,
        res: Seq<StatementChange>,
        splitter: S,
    ) -> bool {
        &&& d1.url == d0.url
        &&& d1.version == d0.version
        &&& d1.line_index == line_index_for(d1.text@)
        &&& match self.range {
            None => whole_ensures(self, d0, d1, res, splitter),
            Some(c) => match first_containing_range(d0.statement_ranges@, c, 0) {
                Some(p) => within_ensures(self, d0, d1, res, c, p),
                None => across_ensures(self, d0, d1, res, c, splitter),
            },
        }
    }

    /// Applies the change to `doc` and reports the statements it added,
    /// deleted or modified. `splitter` cuts a text into statement ranges.
    pub fn apply<S: Fn(&String) -> Vec<TextRange>>(&self, doc: &mut Document, splitter: &S) -> (r: Vec<StatementChange>)
        requires
            self.apply_requires(*old(doc), *splitter),
        ensures
            self.apply_ensures(*old(doc), *final(doc), r@, *splitter),
            all_wf(old(doc).statement_ranges@) && in_order(old(doc).statement_ranges@) && (forall|
                s: &String,
                rs: Vec<TextRange>,
            | #[trigger] splitter.ensures((s,), rs) ==> sorted_by_start(rs@)) ==> sorted_by_start(
                final(doc).statement_ranges@,
            ),
    {
        let ghost d0 = *doc;
        let r = match self.range {
            None => self.apply_whole(doc, splitter),
            Some(c) => match find_containing_range(&doc.statement_ranges, c) {
                Some(p) => self.apply_within(doc, c, p),
                None => self.apply_across(doc, c, splitter),
            },
        };
        proof {
            if all_wf(d0.statement_ranges@) && in_order(d0.statement_ranges@) && (forall|s: &String, rs: Vec<TextRange>|
                #[trigger] splitter.ensures((s,), rs) ==> sorted_by_start(rs@)) {
                lemma_apply_keeps_ranges_sorted(*self, d0, *doc, r@, *splitter);
            }
        }
        r
    }

    fn apply_whole<S: Fn(&String) -> Vec<TextRange>>(&self, doc: &mut Document, splitter: &S) -> (r: Vec<StatementChange>)
        requires
            splitter_ok(*splitter),
            whole_requires(*old(doc)),
            byte_len(self.text@) < u32::MAX,
        ensures
            final(doc).line_index == line_index_for(final(doc).text@),
            final(doc).url == old(doc).url,
            final(doc).version == old(doc).version,
            whole_ensures(*self, *old(doc), *final(doc), r@, *splitter),
    {
        let mut out: Vec<StatementChange> = Vec::new();
        let n0 = doc.statement_ranges.len();
        for i in 0..n0
            invariant
                n0 == doc.statement_ranges.len(),
                *doc == *old(doc),
                whole_requires(*doc),
                out.len() == i,
                forall|j: int| 0 <= j < i ==>
                    is_deleted(#[trigger] out@[j], doc.url, doc.text@, doc.statement_ranges@[j], j),
        {
            let s = crate::document::make_statement_ref(&doc.url, &doc.text, doc.statement_ranges[i], i);
            out.push(StatementChange::Deleted(s));
        }
        let ranges = splitter(&self.text);
        doc.statement_ranges = ranges;
        doc.text = self.text.clone();
        doc.line_index = line_index_of(doc.text.as_str());
        let n1 = doc.statement_ranges.len();
        for i in 0..n1
            invariant
                n1 == doc.statement_ranges.len(),
                doc.text == self.text,
                ranges_sliceable(doc.text@, doc.statement_ranges@),
                out.len() == n0 + i,
                forall|j: int| 0 <= j < n0 ==>
                    is_deleted(#[trigger] out@[j], old(doc).url, old(doc).text@, old(doc).statement_ranges@[j], j),
                forall|j: int| 0 <= j < i ==>
                    is_added(#[trigger] out@[n0 + j], old(doc).url, doc.text@, doc.statement_ranges@[j], j),
                doc.url == old(doc).url,
                doc.version == old(doc).version,
                splitter.ensures((&self.text,), doc.statement_ranges),
        {
            let s = crate::document::make_statement_ref(&doc.url, &doc.text, doc.statement_ranges[i], i);
            out.push(StatementChange::Added(s));
        }
        out
    }
}

proof fn lemma_kept_sorted(rs: Seq<TextRange>, k1: int, k2: int)
    requires
        sorted_by_start(rs),
        0 <= k1 <= k2 <= rs.len(),
    ensures
        sorted_by_start(rs.subrange(0, k1) + rs.subrange(k2, rs.len() as int)),
{
    let kept = rs.subrange(0, k1) + rs.subrange(k2, rs.len() as int);
    assert forall|i: int, j: int| 0 <= i < j < kept.len() implies kept[i].start <= kept[j].start by {
        let oi = if i < k1 { i } else { i - k1 + k2 };
        let oj = if j < k1 { j } else { j - k1 + k2 };
        assert(kept[i] == rs[oi]);
        assert(kept[j] == rs[oj]);
    }
}

impl Change {
    fn apply_within(&self, doc: &mut Document, c: TextRange, p: usize) -> (r: Vec<StatementChange>)
        requires
            self.wf(),
            self.range == Some(c),
            within_requires(*self, *old(doc), c, p as int),
            byte_len(spliced(old(doc).text@, Some(c), self.text@)) < u32::MAX,
        ensures
            final(doc).line_index == line_index_for(final(doc).text@),
            final(doc).url == old(doc).url,
            final(doc).version == old(doc).version,
            within_ensures(*self, *old(doc), *final(doc), r@, c, p as int),
    {
        let ghost rs = doc.statement_ranges@;
        let k = find_end_at_least(&doc.statement_ranges, c.end, 0);
        proof {
            lemma_first_end_at_least_bound(rs, c.end as int, 0, p as int);
        }
        let add = self.is_addition();
        let del = self.is_deletion();
        let d: u32 = if add || del { self.diff_size() } else { 0 };
        let rp = doc.statement_ranges[p];
        let stmt = crate::document::make_statement_ref(&doc.url, &doc.text, rp, p);
        let mut out: Vec<StatementChange> = Vec::new();
        out.push(StatementChange::Modified(ChangedStatement {
            statement: stmt,
            range: c.shifted_back(rp.start),
            text: self.text.clone(),
        }));
        let n = doc.statement_ranges.len();
        let mut i = k;
        while i < n
            invariant
                k <= i <= n,
                k <= p < n,
                n == doc.statement_ranges.len(),
                rs.len() == n,
                k == first_end_at_least(rs, c.end as int, 0),
                add == self.spec_is_addition(),
                del == self.spec_is_deletion(),
                (add || del) ==> d == self.spec_diff_size(),
                all_wf(rs),
                forall|j: int| k <= j < rs.len() ==> move_ok(#[trigger] rs[j], j, p as int, k as int, add, del, self.spec_diff_size()),
                forall|j: int| 0 <= j < i ==>
                    #[trigger] doc.statement_ranges@[j] == moved_range(rs[j], j, p as int, k as int, add, del, self.spec_diff_size()),
                forall|j: int| i <= j < n ==> #[trigger] doc.statement_ranges@[j] == rs[j],
                doc.url == old(doc).url,
                doc.version == old(doc).version,
                doc.text == old(doc).text,
            decreases n - i,
        {
            let r = doc.statement_ranges[i];
            proof {
                assert(move_ok(rs[i as int], i as int, p as int, k as int, add, del, self.spec_diff_size()));
                assert(rs[i as int].wf());
            }
            if i == p {
                if add {
                    doc.statement_ranges.set(i, TextRange::new(r.start, r.end + d));
                } else if del {
                    doc.statement_ranges.set(i, TextRange::new(r.start, r.end - d));
                }
            } else if add {
                doc.statement_ranges.set(i, r.shifted_forward(d));
            } else if del {
                doc.statement_ranges.set(i, r.shifted_back(d));
            }
            i = i + 1;
        }
        proof {
            assert forall|j: int| 0 <= j < k implies #[trigger] doc.statement_ranges@[j]
                == moved_range(rs[j], j, p as int, k as int, add, del, self.spec_diff_size()) by {}
        }
        doc.text = self.apply_to_text(&doc.text);
        doc.line_index = line_index_of(doc.text.as_str());
        out
    }

    fn apply_across<S: Fn(&String) -> Vec<TextRange>>(&self, doc: &mut Document, c: TextRange, splitter: &S) -> (r: Vec<StatementChange>)
        requires
            splitter_ok(*splitter),
            self.wf(),
            self.range == Some(c),
            across_requires(*self, *old(doc), c),
            byte_len(spliced(old(doc).text@, Some(c), self.text@)) < u32::MAX,
        ensures
            final(doc).line_index == line_index_for(final(doc).text@),
            final(doc).url == old(doc).url,
            final(doc).version == old(doc).version,
            across_ensures(*self, *old(doc), *final(doc), r@, c, *splitter),
    {
        let ghost d0 = *doc;
        let ghost rs = doc.statement_ranges@;
        let k1 = find_end_at_least(&doc.statement_ranges, c.start, 0);
        let k2 = find_end_above(&doc.statement_ranges, c.end, k1);
        let mut mn = c.start;
        let mut mx = c.end;
        let mut out: Vec<StatementChange> = Vec::new();
        let mut i = k1;
        while i < k2
            invariant
                k1 <= i <= k2 <= rs.len(),
                *doc == d0,
                rs == d0.statement_ranges@,
                k1 == first_end_at_least(rs, c.start as int, 0),
                k2 == first_end_above(rs, c.end as int, k1 as int),
                forall|j: int| k1 <= j < k2 ==> range_sliceable(d0.text@, #[trigger] rs[j]),
                mn == min_start(rs, c, k1 as int, i as int),
                mx == max_end(rs, c, k1 as int, i as int),
                out.len() == i - k1,
                forall|j: int| 0 <= j < i - k1 ==>
                    is_deleted(#[trigger] out@[j], d0.url, d0.text@, rs[k1 + j], k1 + j),
            decreases k2 - i,
        {
            let r = doc.statement_ranges[i];
            let s = crate::document::make_statement_ref(&doc.url, &doc.text, r, i);
            out.push(StatementChange::Deleted(s));
            if r.start < mn {
                mn = r.start;
            }
            if r.end > mx {
                mx = r.end;
            }
            i = i + 1;
        }
        doc.text = self.apply_to_text(&doc.text);
        doc.line_index = line_index_of(doc.text.as_str());
        let tl = text_len(doc.text.as_str());
        if (tl as u32) < mx {
            mx = tl as u32;
        }
        let extracted = substring(doc.text.as_str(), mn as usize, mx as usize);
        assert(extracted@ == across_text(*self, d0, c));
        let n = doc.statement_ranges.len();
        let mut kept: Vec<TextRange> = Vec::new();
        for j in 0..k1
            invariant
                n == doc.statement_ranges.len(),
                doc.statement_ranges@ == rs,
                k1 <= k2 <= n,
                kept@ == rs.subrange(0, j as int),
        {
            kept.push(doc.statement_ranges[j]);
        }
        for j in k2..n
            invariant
                n == doc.statement_ranges.len(),
                doc.statement_ranges@ == rs,
                k1 <= k2 <= n,
                kept@ == rs.subrange(0, k1 as int) + rs.subrange(k2 as int, j as int),
        {
            kept.push(doc.statement_ranges[j]);
            assert(rs.subrange(k2 as int, j + 1) == rs.subrange(k2 as int, j as int).push(rs[j as int]));
        }
        doc.statement_ranges = kept;
        let ghost kept_seq = doc.statement_ranges@;
        proof {
            lemma_kept_sorted(rs, k1 as int, k2 as int);
        }
        let found = splitter(&extracted);
        let mut added_changes = insert_found(&mut doc.statement_ranges, &found, &extracted, &doc.url);
        let ghost old_out = out@;
        let ghost added_seq = added_changes@;
        out.append(&mut added_changes);
        proof {
            let kept = rs.subrange(0, k1 as int) + rs.subrange(k2 as int, rs.len() as int);
            assert(kept_seq == kept);
            let fin = insert_ranges(kept, found@, found.len() as int);
            assert forall|i: int| 0 <= i < k2 - k1 implies
                is_deleted(#[trigger] out@[i], d0.url, d0.text@, rs[k1 + i], k1 + i) by {
                assert(out@[i] == old_out[i]);
            }
            assert forall|q: int| 0 <= q < fin.1.len() implies {
                let a = fin.1[q];
                is_added(#[trigger] out@[(k2 - k1) + q], d0.url, extracted@, a.1, a.0)
            } by {
                assert(out@[(k2 - k1) + q] == added_seq[q]);
            }
        }
        out
    }
}

/// Inserts each range of `found` whose start is not yet a start of `ranges`,
/// keeping `ranges` sorted, and reports each as a statement added, with its
/// text cut from `extracted`.
fn insert_found(ranges: &mut Vec<TextRange>, found: &Vec<TextRange>, extracted: &String, url: &PgLspPath) -> (r: Vec<StatementChange>)
    requires
        sorted_by_start(old(ranges)@),
        ranges_sliceable(extracted@, found@),
    ensures
        final(ranges)@ == insert_ranges(old(ranges)@, found@, found.len() as int).0,
        r.len() == insert_ranges(old(ranges)@, found@, found.len() as int).1.len(),
        forall|q: int| 0 <= q < r.len() ==> {
            let a = insert_ranges(old(ranges)@, found@, found.len() as int).1[q];
            is_added(#[trigger] r@[q], *url, extracted@, a.1, a.0)
        },
{
    let ghost start = ranges@;
    let ghost added: Seq<(int, TextRange)> = seq![];
    let mut out: Vec<StatementChange> = Vec::new();
    let mut j: usize = 0;
    while j < found.len()
        invariant
            j <= found.len(),
            ranges_sliceable(extracted@, found@),
            insert_ranges(start, found@, j as int) == (ranges@, added),
            sorted_by_start(ranges@),
            out.len() == added.len(),
            forall|q: int| 0 <= q < added.len() ==>
                is_added(#[trigger] out@[q], *url, extracted@, added[q].1, added[q].0),
        decreases found.len() - j,
    {
        let r = found[j];
        match search_start(ranges, r.start) {
            Ok(_) => {},
            Err(pos) => {
                proof {
                    lemma_insert_sorted(ranges@, pos as int, r);
                }
                ranges.insert(pos, r);
                let text = substring(extracted.as_str(), r.start as usize, r.end as usize);
                let s = StatementRef { idx: pos, text, document_url: url.clone() };
                let ghost old_out = out@;
                out.push(StatementChange::Added(s));
                proof {
                    added = added.push((pos as int, r));
                    assert forall|q: int| 0 <= q < added.len() implies
                        is_added(#[trigger] out@[q], *url, extracted@, added[q].1, added[q].0) by {
                        if q < added.len() - 1 {
                            assert(out@[q] == old_out[q]);
                        }
                    }
                }
            },
        }
        j = j + 1;
    }
    out
}

/// Applying `changes[i..]` in order to `doc` never breaks what [`Change::apply`]
/// needs, whatever the splitter returns along the way.
pub open spec fn changes_apply_ok<S: Fn(&String) -> Vec<TextRange>>(
    changes: Seq<Change>,
    i: int,
    doc: Document,
    splitter: S,
) -> bool
    decreases changes.len() - i,
{
    if i >= changes.len() || i < 0 {
        true
    } else {
        &&& changes[i].apply_requires(doc, splitter)
        &&& forall|d1: Document, res: Seq<StatementChange>|
            #[trigger] changes[i].apply_ensures(doc, d1, res, splitter)
                ==> changes_apply_ok(changes, i + 1, d1, splitter)
    }
}

/// `docs[i + 1]` and `results[i]` are what applying `changes[i]` to `docs[i]`
/// gives, for every `i`.
pub open spec fn applied_in_order<S: Fn(&String) -> Vec<TextRange>>(
    changes: Seq<Change>,
    docs: Seq<Document>,
    results: Seq<Seq<StatementChange>>,
    splitter: S,
) -> bool {
    &&& docs.len() == changes.len() + 1
    &&& results.len() == changes.len()
    &&& forall|i: int| 0 <= i < changes.len() ==>
        #[trigger] changes[i].apply_ensures(docs[i], docs[i + 1], results[i], splitter)
}

/// `text` with `changes` applied to it, one after another.
pub open spec fn changes_applied_to(changes: Seq<Change>, text: Seq<char>) -> Seq<char>
    decreases changes.len(),
{
    if changes.len() == 0 {
        text
    } else {
        let c = changes.last();
        spliced(changes_applied_to(changes.drop_last(), text), c.range, c.text@)
    }
}

/// Applying one change gives the text spliced as [`Change::apply_to_text`] does.
proof fn lemma_apply_splices<S: Fn(&String) -> Vec<TextRange>>(
    ch: Change,
    d0: Document,
    d1: Document,
    res: Seq<StatementChange>,
    splitter: S,
)
    requires
        ch.apply_ensures(d0, d1, res, splitter),
    ensures
        d1.text@ == spliced(d0.text@, ch.range, ch.text@),
{
}

/// Applying changes one after another gives, after the first `n`, the text
/// with those changes applied to it.
proof fn lemma_applied_prefix<S: Fn(&String) -> Vec<TextRange>>(
    changes: Seq<Change>,
    docs: Seq<Document>,
    results: Seq<Seq<StatementChange>>,
    splitter: S,
    n: int,
)
    requires
        applied_in_order(changes, docs, results, splitter),
        0 <= n <= changes.len(),
    ensures
        docs[n].text@ == changes_applied_to(changes.take(n), docs[0].text@),
    decreases n,
{
    if n > 0 {
        lemma_applied_prefix(changes, docs, results, splitter, n - 1);
        let j = n - 1;
        assert(changes[j].apply_ensures(docs[j], docs[j + 1], results[j], splitter));
        lemma_apply_splices(changes[j], docs[j], docs[j + 1], results[j], splitter);
        assert(changes.take(n).drop_last() =~= changes.take(j));
    }
}

/// A batch of changes applied in order leaves the text with each change
/// applied to it in turn, the fold of [`Change::apply_to_text`] over the
/// changes.
pub proof fn lemma_batch_text_is_fold<S: Fn(&String) -> Vec<TextRange>>(
    changes: Seq<Change>,
    docs: Seq<Document>,
    results: Seq<Seq<StatementChange>>,
    splitter: S,
)
    requires
        applied_in_order(changes, docs, results, splitter),
    ensures
        docs.last().text@ == changes_applied_to(changes, docs[0].text@),
{
    lemma_applied_prefix(changes, docs, results, splitter, changes.len() as int);
    assert(changes.take(changes.len() as int) =~= changes);
}

/// A batch applied to a document and then collected hands back the
/// statement changes of each change of the batch, in order, as applying them
/// one after another reports them; a second collection hands back nothing.
pub proof fn lemma_collected_changes_are_the_applied_ones<S: Fn(&String) -> Vec<TextRange>>(
    fresh: DocumentChange,
    applied: DocumentChange,
    collected: DocumentChange,
    out: Seq<StatementChange>,
    docs: Seq<Document>,
    results: Seq<Seq<StatementChange>>,
    splitter: S,
)
    requires
        fresh.spec_changed_statements() == Seq::<StatementChange>::empty(),
        applied_in_order(fresh.spec_changes(), docs, results, splitter),
        applied.spec_changed_statements() == fresh.spec_changed_statements() + results.flatten(),
        out == applied.spec_changed_statements(),
        collected.spec_changed_statements() == Seq::<StatementChange>::empty(),
    ensures
        out == results.flatten(),
        forall|i: int| 0 <= i < fresh.spec_changes().len() ==>
            #[trigger] fresh.spec_changes()[i].apply_ensures(docs[i], docs[i + 1], results[i], splitter),
        collected.spec_changed_statements().len() == 0,
{
    assert(Seq::<StatementChange>::empty() + results.flatten() =~= results.flatten());
}

impl DocumentChange {
    /// The version the batch brings a document to.
    pub closed spec fn spec_version(self) -> i32 {
        self.version
    }

    /// The changes of the batch.
    pub closed spec fn spec_changes(self) -> Seq<Change> {
        self.changes@
    }

    /// The statement changes collected so far.
    pub closed spec fn spec_changed_statements(self) -> Seq<StatementChange> {
        self.changed_statements@
    }

    /// Whether the batch was applied.
    pub closed spec fn spec_applied(self) -> bool {
        self.applied
    }

    /// A batch of changes, not yet applied.
    pub fn new(version: i32, changes: Vec<Change>) -> (r: DocumentChange)
        ensures
            r.spec_version() == version,
            r.spec_changes() == changes@,
            r.spec_changed_statements() == Seq::<StatementChange>::empty(),
            !r.spec_applied(),
    {
        DocumentChange { version, changes, changed_statements: Vec::new(), applied: false }
    }

    /// Whether the changes were applied.
    pub fn is_applied(&self) -> (r: bool)
        ensures
            r == self.spec_applied(),
    {
        self.applied
    }

    /// Applies the changes to `doc` in order, sets its version and collects the
    /// statements they touched. A batch is applied at most once.
    pub fn apply<S: Fn(&String) -> Vec<TextRange>>(&mut self, doc: &mut Document, splitter: &S)
        requires
            !old(self).spec_applied(),
            changes_apply_ok(old(self).spec_changes(), 0, *old(doc), *splitter),
        ensures
            final(self).spec_applied(),
            final(self).spec_version() == old(self).spec_version(),
            final(self).spec_changes() == old(self).spec_changes(),
            final(doc).version == old(self).spec_version(),
            final(doc).text@ == changes_applied_to(old(self).spec_changes(), old(doc).text@),
            exists|docs: Seq<Document>, results: Seq<Seq<StatementChange>>| {
                &&& #[trigger] applied_in_order(old(self).spec_changes(), docs, results, *splitter)
                &&& docs[0] == *old(doc)
                &&& final(doc).url == docs.last().url
                &&& final(doc).text == docs.last().text
                &&& final(doc).statement_ranges == docs.last().statement_ranges
                &&& final(self).spec_changed_statements() == old(self).spec_changed_statements() + results.flatten()
            },
    {
        let ghost d0 = *doc;
        let ghost docs: Seq<Document> = seq![d0];
        let ghost results: Seq<Seq<StatementChange>> = seq![];
        let n = self.changes.len();
        let mut i: usize = 0;
        while i < n
            invariant
                i <= n,
                n == self.changes.len(),
                self.changes == old(self).changes,
                self.version == old(self).version,
                !self.applied,
                docs.len() == i + 1,
                results.len() == i,
                docs[0] == d0,
                d0 == *old(doc),
                docs.last() == *doc,
                forall|j: int| 0 <= j < i ==>
                    #[trigger] self.changes@[j].apply_ensures(docs[j], docs[j + 1], results[j], *splitter),
                changes_apply_ok(self.changes@, i as int, *doc, *splitter),
                self.changed_statements@ == old(self).changed_statements@ + results.flatten(),
            decreases n - i,
        {
            let ghost before = *doc;
            let mut res = self.changes[i].apply(doc, splitter);
            let ghost old_results = results;
            proof {
                assert(self.changes@[i as int].apply_ensures(before, *doc, res@, *splitter));
                docs = docs.push(*doc);
                results = results.push(res@);
                assert(results.flatten() == results.drop_last().flatten() + res@) by {
                    results.drop_last().lemma_flatten_push(res@);
                    assert(results.drop_last().push(res@) == results);
                }
            }
            let ghost prev = self.changed_statements@;
            self.changed_statements.append(&mut res);
            proof {
                assert(results.drop_last() =~= old_results);
                assert(self.changed_statements@ =~= old(self).changed_statements@ + results.flatten());
            }
            i = i + 1;
        }
        doc.version = self.version;
        self.applied = true;
        proof {
            assert(applied_in_order(old(self).spec_changes(), docs, results, *splitter));
            lemma_batch_text_is_fold(old(self).spec_changes(), docs, results, *splitter);
        }
    }

    /// Takes the statement changes collected by [`DocumentChange::apply`].
    pub fn collect_statement_changes(&mut self) -> (r: Vec<StatementChange>)
        requires
            old(self).spec_applied(),
        ensures
            r@ == old(self).spec_changed_statements(),
            final(self).spec_changed_statements() == Seq::<StatementChange>::empty(),
            final(self).spec_applied(),
            final(self).spec_version() == old(self).spec_version(),
            final(self).spec_changes() == old(self).spec_changes(),
    {
        let mut out: Vec<StatementChange> = Vec::new();
        std::mem::swap(&mut out, &mut self.changed_statements);
        out
    }
}
/// Replacing a part of a statement by `x` on its own gives what replacing
/// that part of the whole text gives, cut at the statement's moved end.
#[verifier::spinoff_prover]
#[verifier::rlimit(40)]
proof fn lemma_splice_inside(t: Seq<char>, a: int, b: int, c: TextRange, x: Seq<char>)
    requires
        valid_slice(t, a, b),
        a <= c.start <= c.end <= b,
        splice_ok(t, Some(c)),
    ensures
        splice_ok(slice_bytes(t, a, b), Some(TextRange { start: (c.start - a) as u32, end: (c.end - a) as u32 })),
        spliced(slice_bytes(t, a, b), Some(TextRange { start: (c.start - a) as u32, end: (c.end - a) as u32 }), x)
            == slice_bytes(spliced(t, Some(c), x), a, b + byte_len(x) - (c.end - c.start)),
{
    let cs = c.start as int;
    let ce = c.end as int;
    let l = byte_len(t);
    let bt = crate::strings::bytes_of(t);
    let ex = crate::strings::bytes_of(x);
    let m = TextRange { start: (cs - a) as u32, end: (ce - a) as u32 };
    crate::strings::lemma_slice_bytes(t, a, b);
    crate::strings::lemma_boundary_in_slice(t, a, b, cs);
    crate::strings::lemma_boundary_in_slice(t, a, b, ce);
    crate::strings::lemma_slice_of_slice(t, a, b, 0, cs - a);
    crate::strings::lemma_slice_of_slice(t, a, b, ce - a, b - a);
    let lhs = slice_bytes(t, a, cs) + x + slice_bytes(t, ce, b);
    assert(spliced(slice_bytes(t, a, b), Some(m), x) == lhs);
    assert(crate::strings::bytes_of(lhs) == bt.subrange(a, cs) + ex + bt.subrange(ce, b)) by {
        crate::strings::lemma_slice_bytes(t, a, cs);
        crate::strings::lemma_slice_bytes(t, ce, b);
        crate::strings::lemma_encode_concat(slice_bytes(t, a, cs) + x, slice_bytes(t, ce, b));
        crate::strings::lemma_encode_concat(slice_bytes(t, a, cs), x);
    }
    let nt = spliced(t, Some(c), x);
    let bn = crate::strings::bytes_of(nt);
    assert(bn == bt.subrange(0, cs) + ex + bt.subrange(ce, l)) by {
        vstd::utf8::encode_utf8_valid_utf8(t);
        vstd::utf8::is_char_boundary_start_end_of_seq(bt);
        crate::strings::lemma_slice_bytes(t, 0, cs);
        crate::strings::lemma_slice_bytes(t, ce, l);
        crate::strings::lemma_encode_concat(slice_bytes(t, 0, cs) + x, slice_bytes(t, ce, l));
        crate::strings::lemma_encode_concat(slice_bytes(t, 0, cs), x);
    }
    let b1 = b + ex.len() - (ce - cs);
    assert(bn.subrange(a, b1) =~= bt.subrange(a, cs) + ex + bt.subrange(ce, b));
    vstd::utf8::encode_utf8_decode_utf8(lhs);
}

/// A change inside one statement: the modified statement, changed on its own
/// as [`ChangedStatement::new_statement`] does, is the statement the changed
/// document holds at the same index. (The change's size is counted in
/// characters and the text in bytes, so the new text is ASCII.)
pub proof fn lemma_changed_statement_matches_document<S: Fn(&String) -> Vec<TextRange>>(
    ch: Change,
    d0: Document,
    d1: Document,
    res: Seq<StatementChange>,
    splitter: S,
    c: TextRange,
    p: int,
)
    requires
        ch.apply_requires(d0, splitter),
        ch.apply_ensures(d0, d1, res, splitter),
        ch.range == Some(c),
        first_containing_range(d0.statement_ranges@, c, 0) == Some(p),
        vstd::utf8::is_ascii_chars(ch.text@),
    ensures
        res[0] matches StatementChange::Modified(m) && splice_ok(m.statement.text@, Some(m.range)) && spliced(
            m.statement.text@,
            Some(m.range),
            m.text@,
        ) == crate::document::range_text(d1.text@, d1.statement_ranges@[p]),
{
    let rs = d0.statement_ranges@;
    let r = rs[p];
    let m = res[0]->Modified_0;
    lemma_splice_inside(d0.text@, r.start as int, r.end as int, c, ch.text@);
    vstd::utf8::is_ascii_chars_encode_utf8(ch.text@);
    let k = first_end_at_least(rs, c.end as int, 0);
    lemma_first_end_at_least_bound(rs, c.end as int, 0, p);
    let r1 = d1.statement_ranges@[p];
    assert(r1 == moved_range(r, p, p, k, ch.spec_is_addition(), ch.spec_is_deletion(), ch.spec_diff_size()));
    assert(r1.start == r.start);
    assert(r1.end == r.end + byte_len(ch.text@) - (c.end - c.start));
}


/// The ranges follow one another: each ends at or before the next one starts.
pub open spec fn in_order(ranges: Seq<TextRange>) -> bool {
    forall|i: int, j: int| 0 <= i < j < ranges.len() ==> #[trigger] ranges[i].end <= #[trigger] ranges[j].start
}

proof fn lemma_first_end_at_least_facts(ranges: Seq<TextRange>, x: int, i: int)
    requires
        0 <= i <= ranges.len(),
    ensures
        i <= first_end_at_least(ranges, x, i) <= ranges.len(),
        forall|j: int| i <= j < first_end_at_least(ranges, x, i) ==> (#[trigger] ranges[j]).end < x,
        first_end_at_least(ranges, x, i) < ranges.len() ==> ranges[first_end_at_least(ranges, x, i)].end >= x,
    decreases ranges.len() - i,
{
    if i < ranges.len() && ranges[i].end < x {
        lemma_first_end_at_least_facts(ranges, x, i + 1);
    }
}

proof fn lemma_first_end_above_bound(ranges: Seq<TextRange>, x: int, i: int)
    requires
        0 <= i <= ranges.len(),
    ensures
        i <= first_end_above(ranges, x, i) <= ranges.len(),
    decreases ranges.len() - i,
{
    if i < ranges.len() && ranges[i].end <= x {
        lemma_first_end_above_bound(ranges, x, i + 1);
    }
}

proof fn lemma_first_containing_facts(ranges: Seq<TextRange>, c: TextRange, i: int, p: int)
    requires
        0 <= i,
        first_containing_range(ranges, c, i) == Some(p),
    ensures
        i <= p < ranges.len(),
        forall|j: int| i <= j < p ==> !(#[trigger] ranges[j]).spec_contains_range(c),
    decreases ranges.len() - i,
{
    if !ranges[i].spec_contains_range(c) {
        lemma_first_containing_facts(ranges, c, i + 1, p);
    }
}

/// For ranges sorted by start, the ranges before the count of starts below
/// `key` start below it and the others at or after it.
proof fn lemma_count_splits(ranges: Seq<TextRange>, key: u32)
    requires
        sorted_by_start(ranges),
    ensures
        0 <= count_start_below(ranges, key) <= ranges.len(),
        forall|j: int| 0 <= j < count_start_below(ranges, key) ==> (#[trigger] ranges[j]).start < key,
        forall|j: int| count_start_below(ranges, key) <= j < ranges.len() ==> (#[trigger] ranges[j]).start >= key,
    decreases ranges.len(),
{
    if ranges.len() > 0 {
        let s = ranges.drop_last();
        assert(sorted_by_start(s)) by {
            assert forall|i: int, j: int| 0 <= i < j < s.len() implies s[i].start <= s[j].start by {
                assert(s[i] == ranges[i] && s[j] == ranges[j]);
            }
        }
        lemma_count_splits(s, key);
        let c = count_start_below(s, key);
        assert forall|j: int| 0 <= j < s.len() implies (#[trigger] ranges[j]) == s[j] by {}
        if ranges.last().start < key {
            assert forall|j: int| c <= j < s.len() implies (#[trigger] s[j]).start < key by {
                assert(s[j].start <= ranges.last().start);
            }
        }
    }
}

/// Inserting ranges with [`insert_ranges`] keeps ranges sorted by start.
proof fn lemma_insert_ranges_sorted(ranges: Seq<TextRange>, new: Seq<TextRange>, n: int)
    requires
        sorted_by_start(ranges),
        n <= new.len(),
    ensures
        sorted_by_start(insert_ranges(ranges, new, n).0),
    decreases n,
{
    if n > 0 {
        lemma_insert_ranges_sorted(ranges, new, n - 1);
        let cur = insert_ranges(ranges, new, n - 1).0;
        let r = new[n - 1];
        if !has_start(cur, r.start) {
            lemma_count_splits(cur, r.start);
            let pos = count_start_below(cur, r.start);
            assert forall|j: int| pos <= j < cur.len() implies (#[trigger] cur[j]).start > r.start by {
                if cur[j].start == r.start {
                    assert(has_start(cur, r.start));
                }
            }
            lemma_insert_sorted(cur, pos, r);
        }
    }
}

/// A change inside statement `p` of ranges that follow one another moves
/// only the statements from `p` on, and keeps them sorted by start.
proof fn lemma_within_keeps_sorted(ch: Change, d0: Document, d1: Document, res: Seq<StatementChange>, c: TextRange, p: int)
    requires
        within_requires(ch, d0, c, p),
        within_ensures(ch, d0, d1, res, c, p),
        first_containing_range(d0.statement_ranges@, c, 0) == Some(p),
        in_order(d0.statement_ranges@),
    ensures
        sorted_by_start(d1.statement_ranges@),
{
    let rs = d0.statement_ranges@;
    let k = first_end_at_least(rs, c.end as int, 0);
    let add = ch.spec_is_addition();
    let del = ch.spec_is_deletion();
    let d = ch.spec_diff_size();
    lemma_first_end_at_least_facts(rs, c.end as int, 0);
    lemma_first_end_at_least_bound(rs, c.end as int, 0, p);
    lemma_first_containing_facts(rs, c, 0, p);
    if k < p {
        assert(rs[k].end <= rs[p].start);
        assert(rs[k].wf());
        assert(rs[k].spec_contains_range(c));
    }
    assert(k == p);
    let rs1 = d1.statement_ranges@;
    assert forall|i: int, j: int| 0 <= i < j < rs1.len() implies rs1[i].start <= rs1[j].start by {
        assert(rs1[i] == moved_range(rs[i], i, p, k, add, del, d));
        assert(rs1[j] == moved_range(rs[j], j, p, k, add, del, d));
        assert(rs[i].wf());
        assert(rs[i].end <= rs[j].start);
        if i <= p && j > p {
            assert(rs[p].end <= rs[j].start);
            assert(move_ok(rs[p], p, p, k, add, del, d));
            assert(move_ok(rs[j], j, p, k, add, del, d));
        }
    }
}

/// Applying a change keeps the statement ranges sorted by start, when they
/// followed one another before and the splitter gives its ranges sorted.
pub proof fn lemma_apply_keeps_ranges_sorted<S: Fn(&String) -> Vec<TextRange>>(
    ch: Change,
    d0: Document,
    d1: Document,
    res: Seq<StatementChange>,
    splitter: S,
)
    requires
        ch.apply_requires(d0, splitter),
        ch.apply_ensures(d0, d1, res, splitter),
        all_wf(d0.statement_ranges@),
        in_order(d0.statement_ranges@),
        forall|s: &String, rs: Vec<TextRange>| #[trigger] splitter.ensures((s,), rs) ==> sorted_by_start(rs@),
    ensures
        sorted_by_start(d1.statement_ranges@),
{
    match ch.range {
        None => {},
        Some(c) => match first_containing_range(d0.statement_ranges@, c, 0) {
            Some(p) => {
                lemma_within_keeps_sorted(ch, d0, d1, res, c, p);
            },
            None => {
                let rs = d0.statement_ranges@;
                let k1 = first_end_at_least(rs, c.start as int, 0);
                let k2 = first_end_above(rs, c.end as int, k1);
                lemma_first_end_at_least_facts(rs, c.start as int, 0);
                lemma_first_end_above_bound(rs, c.end as int, k1);
                lemma_kept_sorted(rs, k1, k2);
                let kept = rs.subrange(0, k1) + rs.subrange(k2, rs.len() as int);
                let (s, found) = choose|s: String, found: Vec<TextRange>| {
                    &&& s@ == across_text(ch, d0, c)
                    &&& #[trigger] splitter.ensures((&s,), found)
                    &&& d1.statement_ranges@ == insert_ranges(kept, found@, found.len() as int).0
                    &&& res.len() == (k2 - k1) + insert_ranges(kept, found@, found.len() as int).1.len()
                    &&& forall|i: int| 0 <= i < k2 - k1 ==>
                        is_deleted(#[trigger] res[i], d0.url, d0.text@, rs[k1 + i], k1 + i)
                    &&& forall|j: int| 0 <= j < insert_ranges(kept, found@, found.len() as int).1.len() ==> {
                        let a = insert_ranges(kept, found@, found.len() as int).1[j];
                        is_added(#[trigger] res[(k2 - k1) + j], d0.url, s@, a.1, a.0)
                    }
                };
                lemma_insert_ranges_sorted(kept, found@, found.len() as int);
            },
        },
    }
}

} // verus!
