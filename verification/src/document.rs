//! A SQL source file cut into statements.
use line_index::LineIndex;
use vstd::prelude::*;

use crate::path::PgLspPath;
use crate::strings::{byte_len, slice_bytes, substring, valid_slice};
use crate::text::{TextRange, TextSize};

verus! {

#[verifier::external_type_specification]
#[verifier::external_body]
pub struct ExLineIndex(LineIndex);

/// The line index that `LineIndex::new` builds for a text: the offsets of
/// its line breaks and of its wide characters, a function of the text alone.
pub uninterp spec fn line_index_for(text: Seq<char>) -> LineIndex;

/// `LineIndex::new`: the line index of `text`. It measures the text with
/// `TextSize::of`, which panics on a text of more than `u32::MAX` bytes, and
/// asserts that the text is shorter than `u32::MAX` bytes.
#[verifier::external_body]
pub(crate) fn line_index_of(text: &str) -> (r: LineIndex)
    requires
        byte_len(text@) < u32::MAX,
    ensures
        r == line_index_for(text@),
{
    LineIndex::new(text)
}

/// What a new document is made from.
#[derive(Debug)]
pub struct DocumentParams {
    pub url: PgLspPath,
    pub text: String,
}

/// A source file with the ranges of the statements it holds, sorted by start.
pub struct Document {
    pub url: PgLspPath,
    pub text: String,
    pub version: i32,
    pub statement_ranges: Vec<TextRange>,
    pub line_index: LineIndex,
}

/// A statement of a document: its text and its position among the statements.
#[derive(Debug, Hash, PartialEq, Eq)]
pub struct StatementRef {
    pub document_url: PgLspPath,
    pub text: String,
    pub idx: usize,
}

impl Clone for StatementRef {
    fn clone(&self) -> (r: Self)
        ensures
            r == *self,
    {
        StatementRef { document_url: self.document_url.clone(), text: self.text.clone(), idx: self.idx }
    }
}

/// The text that `range` covers in `text`.
pub open spec fn range_text(text: Seq<char>, range: TextRange) -> Seq<char> {
    slice_bytes(text, range.start as int, range.end as int)
}

/// `range` can be cut out of `text`.
pub open spec fn range_sliceable(text: Seq<char>, range: TextRange) -> bool {
    valid_slice(text, range.start as int, range.end as int)
}

/// Every range of `ranges` can be cut out of `text`.
pub open spec fn ranges_sliceable(text: Seq<char>, ranges: Seq<TextRange>) -> bool {
    forall|i: int| 0 <= i < ranges.len() ==> range_sliceable(text, #[trigger] ranges[i])
}

/// `s` is the statement of `url` with index `idx` covering `range` in `text`.
pub open spec fn is_statement(s: StatementRef, url: PgLspPath, text: Seq<char>, range: TextRange, idx: int) -> bool {
    &&& s.document_url == url
    &&& s.text@ == range_text(text, range)
    &&& s.idx == idx
}

/// The index of the first range that contains `offset`.
pub open spec fn first_containing(ranges: Seq<TextRange>, offset: TextSize) -> Option<int>
    decreases ranges.len(),
{
    if ranges.len() == 0 {
        None
    } else if ranges[0].spec_contains(offset) {
        Some(0)
    } else {
        match first_containing(ranges.drop_first(), offset) {
            Some(i) => Some(i + 1),
            None => None,
        }
    }
}

/// The ranges that contain `range` or lie inside it.
pub open spec fn overlaps(r: TextRange, range: TextRange) -> bool {
    range.spec_contains_range(r) || r.spec_contains_range(range)
}

/// The indices `i < n`, in order, whose range overlaps `range` in the sense of [`overlaps`].
pub open spec fn overlapping_indices(ranges: Seq<TextRange>, range: TextRange, n: int) -> Seq<int>
    decreases n,
{
    if n <= 0 {
        seq![]
    } else if overlaps(ranges[n - 1], range) {
        overlapping_indices(ranges, range, n - 1).push(n - 1)
    } else {
        overlapping_indices(ranges, range, n - 1)
    }
}

proof fn lemma_first_containing(ranges: Seq<TextRange>, offset: TextSize)
    ensures
        first_containing(ranges, offset) matches Some(i) ==> {
            &&& 0 <= i < ranges.len()
            &&& ranges[i].spec_contains(offset)
            &&& forall|j: int| 0 <= j < i ==> !(#[trigger] ranges[j]).spec_contains(offset)
        },
        first_containing(ranges, offset) is None ==> forall|j: int|
            0 <= j < ranges.len() ==> !(#[trigger] ranges[j]).spec_contains(offset),
    decreases ranges.len(),
{
    if ranges.len() > 0 {
        lemma_first_containing(ranges.drop_first(), offset);
        assert forall|j: int| 1 <= j < ranges.len() implies ranges[j] == ranges.drop_first()[j - 1] by {}
    }
}

proof fn lemma_overlapping_indices(ranges: Seq<TextRange>, range: TextRange, n: int)
    requires
        0 <= n <= ranges.len(),
    ensures
        forall|j: int| 0 <= j < overlapping_indices(ranges, range, n).len() ==> {
            &&& 0 <= #[trigger] overlapping_indices(ranges, range, n)[j] < n
            &&& overlaps(ranges[overlapping_indices(ranges, range, n)[j]], range)
        },
    decreases n,
{
    if n > 0 {
        lemma_overlapping_indices(ranges, range, n - 1);
        let prev = overlapping_indices(ranges, range, n - 1);
        if overlaps(ranges[n - 1], range) {
            assert forall|j: int| 0 <= j < prev.len() implies prev.push(n - 1)[j] == prev[j] by {}
        }
    }
}

/// The statement with index `pos` of `url` in `text`.
pub(crate) fn make_statement_ref(url: &PgLspPath, text: &String, range: TextRange, pos: usize) -> (r: StatementRef)
    requires
        range_sliceable(text@, range),
    ensures
        is_statement(r, *url, text@, range, pos as int),
{
    StatementRef {
        document_url: url.clone(),
        text: substring(text.as_str(), range.start as usize, range.end as usize),
        idx: pos,
    }
}

impl Document {
    /// An empty document: no text, no statements, version 0.
    pub fn new_empty(url: PgLspPath) -> (d: Document)
        ensures
            d.url == url,
            d.version == 0,
            d.statement_ranges@ == Seq::<TextRange>::empty(),
            d.text@ == Seq::<char>::empty(),
            d.line_index == line_index_for(d.text@),
    {
        proof {
            reveal_strlit("");
        }
        let text = String::new();
        assert(text@ =~= ""@);
        Document {
            version: 0,
            statement_ranges: Vec::new(),
            line_index: line_index_of(""),
            text,
            url,
        }
    }

    /// A document of version 0 whose statement ranges are what `splitter`
    /// gives for its text.
    pub fn new<S: Fn(&String) -> Vec<TextRange>>(params: DocumentParams, splitter: &S) -> (d: Document)
        requires
            splitter.requires((&params.text,)),
            byte_len(params.text@) < u32::MAX,
        ensures
            d.url == params.url,
            d.text == params.text,
            d.line_index == line_index_for(d.text@),
            d.version == 0,
            splitter.ensures((&params.text,), d.statement_ranges),
    {
        let statement_ranges = splitter(&params.text);
        let line_index = line_index_of(params.text.as_str());
        Document {
            version: 0,
            statement_ranges,
            line_index,
            text: params.text,
            url: params.url,
        }
    }

    /// The statement with index `pos`.
    pub fn statement_ref(&self, pos: usize) -> (r: StatementRef)
        requires
            pos < self.statement_ranges.len(),
            range_sliceable(self.text@, self.statement_ranges@[pos as int]),
        ensures
            is_statement(r, self.url, self.text@, self.statement_ranges@[pos as int], pos as int),
    {
        make_statement_ref(&self.url, &self.text, self.statement_ranges[pos], pos)
    }

    /// The statement with index `pos`, with its range.
    pub fn statement_ref_with_range(&self, pos: usize) -> (r: (TextRange, StatementRef))
        requires
            pos < self.statement_ranges.len(),
            range_sliceable(self.text@, self.statement_ranges@[pos as int]),
        ensures
            r.0 == self.statement_ranges@[pos as int],
            is_statement(r.1, self.url, self.text@, self.statement_ranges@[pos as int], pos as int),
    {
        let range = self.statement_ranges[pos];
        (range, make_statement_ref(&self.url, &self.text, range, pos))
    }

    /// All statements, in order.
    pub fn statement_refs(&self) -> (r: Vec<StatementRef>)
        requires
            ranges_sliceable(self.text@, self.statement_ranges@),
        ensures
            r.len() == self.statement_ranges.len(),
            forall|i: int| 0 <= i < r.len() ==>
                is_statement(#[trigger] r@[i], self.url, self.text@, self.statement_ranges@[i], i),
    {
        let mut out: Vec<StatementRef> = Vec::new();
        let n = self.statement_ranges.len();
        for i in 0..n
            invariant
                n == self.statement_ranges.len(),
                ranges_sliceable(self.text@, self.statement_ranges@),
                out.len() == i,
                forall|j: int| 0 <= j < i ==>
                    is_statement(#[trigger] out@[j], self.url, self.text@, self.statement_ranges@[j], j),
        {
            let s = make_statement_ref(&self.url, &self.text, self.statement_ranges[i], i);
            out.push(s);
        }
        out
    }

    /// All statements with their ranges, in order.
    pub fn statement_refs_with_range(&self) -> (r: Vec<(TextRange, StatementRef)>)
        requires
            ranges_sliceable(self.text@, self.statement_ranges@),
        ensures
            r.len() == self.statement_ranges.len(),
            forall|i: int| 0 <= i < r.len() ==> {
                &&& (#[trigger] r@[i]).0 == self.statement_ranges@[i]
                &&& is_statement(r@[i].1, self.url, self.text@, self.statement_ranges@[i], i)
            },
    {
        let mut out: Vec<(TextRange, StatementRef)> = Vec::new();
        let n = self.statement_ranges.len();
        for i in 0..n
            invariant
                n == self.statement_ranges.len(),
                ranges_sliceable(self.text@, self.statement_ranges@),
                out.len() == i,
                forall|j: int| 0 <= j < i ==> {
                    &&& (#[trigger] out@[j]).0 == self.statement_ranges@[j]
                    &&& is_statement(out@[j].1, self.url, self.text@, self.statement_ranges@[j], j)
                },
        {
            let range = self.statement_ranges[i];
            let s = make_statement_ref(&self.url, &self.text, range, i);
            out.push((range, s));
        }
        out
    }

    /// Removes all statement ranges and returns the statements they covered.
    pub fn drain_statements(&mut self) -> (r: Vec<StatementRef>)
        requires
            ranges_sliceable(old(self).text@, old(self).statement_ranges@),
        ensures
            final(self).statement_ranges@ == Seq::<TextRange>::empty(),
            final(self).text == old(self).text,
            final(self).url == old(self).url,
            final(self).version == old(self).version,
            r.len() == old(self).statement_ranges.len(),
            forall|i: int| 0 <= i < r.len() ==>
                is_statement(#[trigger] r@[i], old(self).url, old(self).text@, old(self).statement_ranges@[i], i),
    {
        let out = self.statement_refs();
        self.statement_ranges = Vec::new();
        out
    }

    /// The statement whose range contains `offset`, if any (the first such).
    pub fn statement_at_offset(&self, offset: &TextSize) -> (r: Option<StatementRef>)
        requires
            first_containing(self.statement_ranges@, *offset) matches Some(i) ==>
                range_sliceable(self.text@, self.statement_ranges@[i]),
        ensures
            match first_containing(self.statement_ranges@, *offset) {
                Some(i) => r matches Some(s) && is_statement(s, self.url, self.text@, self.statement_ranges@[i], i),
                None => r is None,
            },
    {
        proof { lemma_first_containing(self.statement_ranges@, *offset); }
        match self.position_containing(*offset) {
            Some(idx) => Some(self.statement_ref(idx)),
            None => None,
        }
    }

    /// The statement whose range contains `offset`, if any (the first such), with its range.
    pub fn statement_at_offset_with_range(&self, offset: &TextSize) -> (r: Option<(TextRange, StatementRef)>)
        requires
            first_containing(self.statement_ranges@, *offset) matches Some(i) ==>
                range_sliceable(self.text@, self.statement_ranges@[i]),
        ensures
            match first_containing(self.statement_ranges@, *offset) {
                Some(i) => r matches Some(p) && p.0 == self.statement_ranges@[i]
                    && is_statement(p.1, self.url, self.text@, self.statement_ranges@[i], i),
                None => r is None,
            },
    {
        proof { lemma_first_containing(self.statement_ranges@, *offset); }
        match self.position_containing(*offset) {
            Some(idx) => Some(self.statement_ref_with_range(idx)),
            None => None,
        }
    }

    /// The index of the first statement range that contains `offset`.
    fn position_containing(&self, offset: TextSize) -> (r: Option<usize>)
        ensures
            match first_containing(self.statement_ranges@, offset) {
                Some(i) => r matches Some(k) && k as int == i,
                None => r is None,
            },
    {
        proof { lemma_first_containing(self.statement_ranges@, offset); }
        let n = self.statement_ranges.len();
        for i in 0..n
            invariant
                n == self.statement_ranges.len(),
                forall|j: int| 0 <= j < i ==> !(#[trigger] self.statement_ranges@[j]).spec_contains(offset),
                first_containing(self.statement_ranges@, offset) matches Some(k) ==> {
                    &&& 0 <= k < n
                    &&& self.statement_ranges@[k].spec_contains(offset)
                    &&& forall|j: int| 0 <= j < k ==> !(#[trigger] self.statement_ranges@[j]).spec_contains(offset)
                },
                first_containing(self.statement_ranges@, offset) is None ==> forall|j: int|
                    0 <= j < n ==> !(#[trigger] self.statement_ranges@[j]).spec_contains(offset),
        {
            if self.statement_ranges[i].contains(offset) {
                return Some(i);
            }
        }
        None
    }

    /// The statements whose range contains `range` or lies inside it, in order.
    pub fn statements_at_range(&self, range: &TextRange) -> (r: Vec<StatementRef>)
        requires
            forall|i: int| 0 <= i < self.statement_ranges.len()
                && overlaps(#[trigger] self.statement_ranges@[i], *range)
                ==> range_sliceable(self.text@, self.statement_ranges@[i]),
        ensures
            r.len() == overlapping_indices(self.statement_ranges@, *range, self.statement_ranges.len() as int).len(),
            forall|j: int| 0 <= j < r.len() ==> {
                let i = overlapping_indices(self.statement_ranges@, *range, self.statement_ranges.len() as int)[j];
                is_statement(#[trigger] r@[j], self.url, self.text@, self.statement_ranges@[i], i)
            },
    {
        let mut out: Vec<StatementRef> = Vec::new();
        let n = self.statement_ranges.len();
        for i in 0..n
            invariant
                n == self.statement_ranges.len(),
                forall|k: int| 0 <= k < self.statement_ranges.len()
                    && overlaps(#[trigger] self.statement_ranges@[k], *range)
                    ==> range_sliceable(self.text@, self.statement_ranges@[k]),
                out.len() == overlapping_indices(self.statement_ranges@, *range, i as int).len(),
                forall|j: int| 0 <= j < out.len() ==> {
                    let k = overlapping_indices(self.statement_ranges@, *range, i as int)[j];
                    is_statement(#[trigger] out@[j], self.url, self.text@, self.statement_ranges@[k], k)
                },
        {
            let r = self.statement_ranges[i];
            proof { lemma_overlapping_indices(self.statement_ranges@, *range, i as int); }
            if range.contains_range(r) || r.contains_range(*range) {
                let s = make_statement_ref(&self.url, &self.text, r, i);
                out.push(s);
            }
        }
        out
    }
}


/// The statement at an offset is the first statement whose range holds the
/// offset (its start at or before the offset, its end after it): one is found
/// exactly when some statement range holds the offset, and no earlier range
/// holds it.
pub proof fn lemma_statement_at_offset_is_first_holding(doc: Document, offset: TextSize, r: Option<StatementRef>)
    requires
        match first_containing(doc.statement_ranges@, offset) {
            Some(i) => r matches Some(s) && is_statement(s, doc.url, doc.text@, doc.statement_ranges@[i], i),
            None => r is None,
        },
    ensures
        r is Some <==> exists|i: int|
            0 <= i < doc.statement_ranges.len() && (#[trigger] doc.statement_ranges@[i]).start <= offset
                && offset < doc.statement_ranges@[i].end,
        r matches Some(s) ==> {
            let i = s.idx as int;
            &&& 0 <= i < doc.statement_ranges.len()
            &&& doc.statement_ranges@[i].start <= offset < doc.statement_ranges@[i].end
            &&& is_statement(s, doc.url, doc.text@, doc.statement_ranges@[i], i)
            &&& forall|j: int| 0 <= j < i ==> !((#[trigger] doc.statement_ranges@[j]).start <= offset
                && offset < doc.statement_ranges@[j].end)
        },
{
    lemma_first_containing(doc.statement_ranges@, offset);
}

proof fn lemma_overlapping_indices_has(ranges: Seq<TextRange>, range: TextRange, n: int, i: int)
    requires
        0 <= i < n <= ranges.len(),
        range.spec_contains_range(ranges[i]) || ranges[i].spec_contains_range(range),
    ensures
        overlapping_indices(ranges, range, n).contains(i),
    decreases n,
{
    let prev = overlapping_indices(ranges, range, n - 1);
    if i == n - 1 {
        assert(overlapping_indices(ranges, range, n) == prev.push(n - 1));
        assert(overlapping_indices(ranges, range, n)[prev.len() as int] == i);
    } else {
        lemma_overlapping_indices_has(ranges, range, n - 1, i);
        let j = choose|j: int| 0 <= j < prev.len() && prev[j] == i;
        if overlaps(ranges[n - 1], range) {
            assert(prev.push(n - 1)[j] == i);
        }
    }
}

/// The statements at a range are exactly those whose range lies inside it
/// or contains it: every such statement is among the results (so a range
/// over the whole text gives every statement), and every result is the
/// statement of a range that lies inside the range or contains it.
pub proof fn lemma_statements_at_range_are_the_overlapping(doc: Document, range: TextRange, r: Seq<StatementRef>)
    requires
        r.len() == overlapping_indices(doc.statement_ranges@, range, doc.statement_ranges.len() as int).len(),
        forall|j: int| 0 <= j < r.len() ==> {
            let i = overlapping_indices(doc.statement_ranges@, range, doc.statement_ranges.len() as int)[j];
            is_statement(#[trigger] r[j], doc.url, doc.text@, doc.statement_ranges@[i], i)
        },
    ensures
        forall|i: int|
            0 <= i < doc.statement_ranges.len() && (range.spec_contains_range(#[trigger] doc.statement_ranges@[i])
                || doc.statement_ranges@[i].spec_contains_range(range)) ==> exists|j: int|
                0 <= j < r.len() && is_statement(#[trigger] r[j], doc.url, doc.text@, doc.statement_ranges@[i], i),
        forall|j: int| 0 <= j < r.len() ==> {
            let i = (#[trigger] r[j]).idx as int;
            &&& 0 <= i < doc.statement_ranges.len()
            &&& is_statement(r[j], doc.url, doc.text@, doc.statement_ranges@[i], i)
            &&& (range.spec_contains_range(doc.statement_ranges@[i]) || doc.statement_ranges@[i].spec_contains_range(
                range,
            ))
        },
{
    let rs = doc.statement_ranges@;
    let n = doc.statement_ranges.len() as int;
    let ov = overlapping_indices(rs, range, n);
    lemma_overlapping_indices(rs, range, n);
    assert forall|i: int|
        0 <= i < n && (range.spec_contains_range(#[trigger] rs[i]) || rs[i].spec_contains_range(range)) implies exists|j: int|
        0 <= j < r.len() && is_statement(#[trigger] r[j], doc.url, doc.text@, rs[i], i) by {
        lemma_overlapping_indices_has(rs, range, n, i);
        let j = choose|j: int| 0 <= j < ov.len() && ov[j] == i;
        assert(is_statement(r[j], doc.url, doc.text@, rs[ov[j]], ov[j]));
    }
    assert forall|j: int| 0 <= j < r.len() implies {
        let i = (#[trigger] r[j]).idx as int;
        &&& 0 <= i < n
        &&& is_statement(r[j], doc.url, doc.text@, rs[i], i)
        &&& (range.spec_contains_range(rs[i]) || rs[i].spec_contains_range(range))
    } by {
        assert(0 <= ov[j] < n);
        assert(is_statement(r[j], doc.url, doc.text@, rs[ov[j]], ov[j]));
    }
}

} // verus!
