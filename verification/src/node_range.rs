//! The ranges of the nodes of a statement's syntax tree: the nodes are
//! taken by path, greatest first, so that children come before their
//! parents; each node spans from the least of its own location, the starts
//! of the ranges below it and the start of its own tokens, to the greatest of
//! the ends below it and the end of its own tokens.
use vstd::prelude::*;

use crate::nested::starts_with;
use crate::text::{TextRange, TextSize};

verus! {

/// A node of the tree: its depth, its path from the root and its own
/// location, where it carries one.
pub struct PathNode {
    pub depth: i32,
    pub path: String,
    pub location: Option<TextSize>,
}

/// A node with the range it spans: the index of the node, its depth, its
/// path and its range.
#[derive(Debug, PartialEq, Eq)]
pub struct RangedNode {
    pub node: usize,
    pub depth: i32,
    pub path: String,
    pub range: TextRange,
}

/// A [`RangedNode`] with its path as characters.
pub ghost struct RangedNodeView {
    pub node: int,
    pub depth: int,
    pub path: Seq<char>,
    pub range: TextRange,
}

impl View for RangedNode {
    type V = RangedNodeView;

    open spec fn view(&self) -> RangedNodeView {
        RangedNodeView { node: self.node as int, depth: self.depth as int, path: self.path@, range: self.range }
    }
}

/// The views of ranged nodes.
pub open spec fn ranged_views(v: Seq<RangedNode>) -> Seq<RangedNodeView> {
    v.map_values(|n: RangedNode| n@)
}

/// The smaller of two optional offsets, where there is one.
pub open spec fn min_opt(a: Option<TextSize>, b: Option<TextSize>) -> Option<TextSize> {
    match (a, b) {
        (Some(x), Some(y)) => Some(if x <= y { x } else { y }),
        (Some(x), None) => Some(x),
        (None, y) => y,
    }
}

/// The greater of two optional offsets, where there is one.
pub open spec fn max_opt(a: Option<TextSize>, b: Option<TextSize>) -> Option<TextSize> {
    match (a, b) {
        (Some(x), Some(y)) => Some(if x >= y { x } else { y }),
        (Some(x), None) => Some(x),
        (None, y) => y,
    }
}

/// The least start of the ranges of `done` whose path starts with `path`.
pub open spec fn children_start(done: Seq<RangedNodeView>, path: Seq<char>) -> Option<TextSize>
    decreases done.len(),
{
    if done.len() == 0 {
        None
    } else {
        let r = done.last();
        let m = children_start(done.drop_last(), path);
        if path.is_prefix_of(r.path) { min_opt(m, Some(r.range.start)) } else { m }
    }
}

/// The greatest end of the ranges of `done` whose path starts with `path`.
pub open spec fn children_end(done: Seq<RangedNodeView>, path: Seq<char>) -> Option<TextSize>
    decreases done.len(),
{
    if done.len() == 0 {
        None
    } else {
        let r = done.last();
        let m = children_end(done.drop_last(), path);
        if path.is_prefix_of(r.path) { max_opt(m, Some(r.range.end)) } else { m }
    }
}

/// The ranged nodes after node `i` is ranged: with a start and an end, it
/// is added; `None` where its start would lie after its end.
pub open spec fn range_step(done: Seq<RangedNodeView>, i: int, n: PathNode, tokens: Option<TextRange>) -> Option<Seq<RangedNodeView>> {
    let from = min_opt(
        min_opt(n.location, children_start(done, n.path@)),
        match tokens { Some(t) => Some(t.start), None => None },
    );
    let to = max_opt(children_end(done, n.path@), match tokens { Some(t) => Some(t.end), None => None });
    match (from, to) {
        (Some(f), Some(t)) => if f <= t {
            Some(done.push(RangedNodeView { node: i, depth: n.depth as int, path: n.path@, range: TextRange { start: f, end: t } }))
        } else {
            None
        },
        _ => Some(done),
    }
}

/// `a` comes before `b` in the order of their characters (which is the order
/// of their UTF-8 bytes): at the first position where they differ, or `a`
/// is a proper prefix of `b`.
pub open spec fn text_lt(a: Seq<char>, b: Seq<char>) -> bool
    decreases a.len(),
{
    if a.len() == 0 {
        b.len() > 0
    } else if b.len() == 0 {
        false
    } else if a[0] != b[0] {
        a[0] < b[0]
    } else {
        text_lt(a.drop_first(), b.drop_first())
    }
}

/// `x` placed into the order `s` after the last index whose path is not
/// smaller than that of `x`.
pub open spec fn insert_by_path(nodes: Seq<PathNode>, s: Seq<int>, x: int) -> Seq<int>
    decreases s.len(),
{
    if s.len() == 0 || !text_lt(nodes[s.last()].path@, nodes[x].path@) {
        s.push(x)
    } else {
        insert_by_path(nodes, s.drop_last(), x).push(s.last())
    }
}

/// The indices of the first `n` nodes ordered by path, greatest first;
/// nodes of equal paths keep their order.
pub open spec fn path_order(nodes: Seq<PathNode>, n: int) -> Seq<int>
    decreases n,
{
    if n <= 0 {
        Seq::empty()
    } else {
        insert_by_path(nodes, path_order(nodes, n - 1), n - 1)
    }
}

/// The ranged nodes of the first `k` nodes of `order`, each ranged after the
/// ones before it.
pub open spec fn ranged_prefix(nodes: Seq<PathNode>, tokens: Seq<Option<TextRange>>, order: Seq<int>, k: int) -> Option<
    Seq<RangedNodeView>,
>
    decreases k,
{
    if k <= 0 {
        Some(Seq::empty())
    } else {
        match ranged_prefix(nodes, tokens, order, k - 1) {
            None => None,
            Some(done) => range_step(done, order[k - 1], nodes[order[k - 1]], tokens[order[k - 1]]),
        }
    }
}

/// `a` comes before `b`: it starts earlier, or at the same offset and less deep.
pub open spec fn range_key_le(a: RangedNodeView, b: RangedNodeView) -> bool {
    a.range.start < b.range.start || (a.range.start == b.range.start && a.depth <= b.depth)
}

/// `x` placed into `s` after the last node that does not come after it.
pub open spec fn insert_ranged(s: Seq<RangedNodeView>, x: RangedNodeView) -> Seq<RangedNodeView>
    decreases s.len(),
{
    if s.len() == 0 || range_key_le(s.last(), x) {
        s.push(x)
    } else {
        insert_ranged(s.drop_last(), x).push(s.last())
    }
}

/// `s` ordered by start and then depth; equal nodes keep their order.
pub open spec fn sort_ranged(s: Seq<RangedNodeView>) -> Seq<RangedNodeView>
    decreases s.len(),
{
    if s.len() == 0 {
        s
    } else {
        insert_ranged(sort_ranged(s.drop_last()), s.last())
    }
}

/// The ranged nodes of `nodes`, taken by path, greatest first (children
/// before their parents), where `tokens[i]` is the range of the tokens of
/// node `i` itself; ordered by start and then depth.
pub open spec fn node_ranges(nodes: Seq<PathNode>, tokens: Seq<Option<TextRange>>) -> Option<Seq<RangedNodeView>> {
    match ranged_prefix(nodes, tokens, path_order(nodes, nodes.len() as int), nodes.len() as int) {
        None => None,
        Some(done) => Some(sort_ranged(done)),
    }
}

fn min_option(a: Option<TextSize>, b: Option<TextSize>) -> (r: Option<TextSize>)
    ensures
        r == min_opt(a, b),
{
    match (a, b) {
        (Some(x), Some(y)) => Some(if x <= y { x } else { y }),
        (Some(x), None) => Some(x),
        (None, y) => y,
    }
}

fn max_option(a: Option<TextSize>, b: Option<TextSize>) -> (r: Option<TextSize>)
    ensures
        r == max_opt(a, b),
{
    match (a, b) {
        (Some(x), Some(y)) => Some(if x >= y { x } else { y }),
        (Some(x), None) => Some(x),
        (None, y) => y,
    }
}

/// The least start and greatest end of the ranges below `path`.
fn children_bounds(done: &Vec<RangedNode>, path: &str) -> (r: (Option<TextSize>, Option<TextSize>))
    ensures
        r.0 == children_start(ranged_views(done@), path@),
        r.1 == children_end(ranged_views(done@), path@),
{
    let ghost v = ranged_views(done@);
    let mut lo: Option<TextSize> = None;
    let mut hi: Option<TextSize> = None;
    let mut i: usize = 0;
    while i < done.len()
        invariant
            i <= done.len(),
            v == ranged_views(done@),
            lo == children_start(v.take(i as int), path@),
            hi == children_end(v.take(i as int), path@),
        decreases done.len() - i,
    {
        assert(v.take(i + 1).drop_last() =~= v.take(i as int));
        assert(v.take(i + 1).last() == done@[i as int]@);
        if starts_with(done[i].path.as_str(), path) {
            lo = min_option(lo, Some(done[i].range.start));
            hi = max_option(hi, Some(done[i].range.end));
        }
        i = i + 1;
    }
    assert(v.take(i as int) =~= v);
    (lo, hi)
}

/// `x` placed at `pos` is what [`insert_ranged`] gives.
proof fn lemma_insert_ranged_at(s: Seq<RangedNodeView>, x: RangedNodeView, pos: int)
    requires
        0 <= pos <= s.len(),
        forall|j: int| pos <= j < s.len() ==> !range_key_le(#[trigger] s[j], x),
        pos == 0 || range_key_le(s[pos - 1], x),
    ensures
        insert_ranged(s, x) == s.insert(pos, x),
    decreases s.len(),
{
    if pos == s.len() {
        assert(s.push(x) =~= s.insert(pos, x));
    } else {
        let d = s.drop_last();
        assert forall|j: int| pos <= j < d.len() implies !range_key_le(#[trigger] d[j], x) by {
            assert(d[j] == s[j]);
        }
        lemma_insert_ranged_at(d, x, pos);
        assert(d.insert(pos, x).push(s.last()) =~= s.insert(pos, x));
    }
}

fn key_le(a: &RangedNode, b: &RangedNode) -> (r: bool)
    ensures
        r == range_key_le(a@, b@),
{
    a.range.start < b.range.start || (a.range.start == b.range.start && a.depth <= b.depth)
}

fn insert_ranged_node(v: &mut Vec<RangedNode>, x: RangedNode)
    ensures
        ranged_views(final(v)@) == insert_ranged(ranged_views(old(v)@), x@),
{
    let ghost s = ranged_views(v@);
    let mut pos = v.len();
    while pos > 0 && !key_le(&v[pos - 1], &x)
        invariant
            pos <= v.len(),
            s == ranged_views(v@),
            forall|j: int| pos <= j < v@.len() ==> !range_key_le(#[trigger] s[j], x@),
        decreases pos,
    {
        pos = pos - 1;
    }
    proof {
        lemma_insert_ranged_at(s, x@, pos as int);
    }
    v.insert(pos, x);
    assert(ranged_views(v@) =~= s.insert(pos as int, x@));
}

/// Whether `a` comes before `b` (see [`text_lt`]).
fn text_less(a: &str, b: &str) -> (r: bool)
    ensures
        r == text_lt(a@, b@),
{
    let la = a.unicode_len();
    let lb = b.unicode_len();
    let mut i: usize = 0;
    assert(a@.skip(0) =~= a@);
    assert(b@.skip(0) =~= b@);
    while i < la && i < lb
        invariant
            i <= la,
            i <= lb,
            la == a@.len(),
            lb == b@.len(),
            text_lt(a@, b@) == text_lt(a@.skip(i as int), b@.skip(i as int)),
        decreases la - i,
    {
        let ca = a.get_char(i);
        let cb = b.get_char(i);
        assert(a@.skip(i as int)[0] == ca);
        assert(b@.skip(i as int)[0] == cb);
        if ca != cb {
            return ca < cb;
        }
        assert(a@.skip(i as int).drop_first() =~= a@.skip(i + 1));
        assert(b@.skip(i as int).drop_first() =~= b@.skip(i + 1));
        i = i + 1;
    }
    i == la && i < lb
}

/// `x` placed at `pos` is what [`insert_by_path`] gives.
proof fn lemma_insert_by_path_at(nodes: Seq<PathNode>, s: Seq<int>, x: int, pos: int)
    requires
        0 <= pos <= s.len(),
        forall|j: int| pos <= j < s.len() ==> text_lt(nodes[#[trigger] s[j]].path@, nodes[x].path@),
        pos == 0 || !text_lt(nodes[s[pos - 1]].path@, nodes[x].path@),
    ensures
        insert_by_path(nodes, s, x) == s.insert(pos, x),
    decreases s.len(),
{
    if pos == s.len() {
        assert(s.push(x) =~= s.insert(pos, x));
    } else {
        let d = s.drop_last();
        assert forall|j: int| pos <= j < d.len() implies text_lt(nodes[#[trigger] d[j]].path@, nodes[x].path@) by {
            assert(d[j] == s[j]);
        }
        lemma_insert_by_path_at(nodes, d, x, pos);
        assert(d.insert(pos, x).push(s.last()) =~= s.insert(pos, x));
    }
}

/// The indices of the nodes ordered by path, greatest first (see [`path_order`]).
fn order_by_path(nodes: &Vec<PathNode>) -> (r: Vec<usize>)
    ensures
        r@.map_values(|i: usize| i as int) == path_order(nodes@, nodes@.len() as int),
        forall|k: int| 0 <= k < r@.len() ==> (#[trigger] r@[k]) < nodes@.len(),
{
    let mut order: Vec<usize> = Vec::new();
    let mut x: usize = 0;
    while x < nodes.len()
        invariant
            x <= nodes@.len(),
            order@.map_values(|i: usize| i as int) == path_order(nodes@, x as int),
            forall|k: int| 0 <= k < order@.len() ==> (#[trigger] order@[k]) < x,
        decreases nodes.len() - x,
    {
        let ghost s = order@.map_values(|i: usize| i as int);
        let mut pos = order.len();
        while pos > 0 && text_less(nodes[order[pos - 1]].path.as_str(), nodes[x].path.as_str())
            invariant
                pos <= order@.len(),
                x < nodes@.len(),
                s == order@.map_values(|i: usize| i as int),
                forall|k: int| 0 <= k < order@.len() ==> (#[trigger] order@[k]) < x,
                forall|j: int| pos <= j < s.len() ==> text_lt(nodes@[#[trigger] s[j]].path@, nodes@[x as int].path@),
            decreases pos,
        {
            assert(s[pos - 1] == order@[pos - 1] as int);
            pos = pos - 1;
        }
        proof {
            if pos > 0 {
                assert(s[pos - 1] == order@[pos - 1] as int);
            }
            lemma_insert_by_path_at(nodes@, s, x as int, pos as int);
        }
        order.insert(pos, x);
        assert(order@.map_values(|i: usize| i as int) =~= s.insert(pos as int, x as int));
        x = x + 1;
    }
    order
}

/// The ranges of the nodes (see [`node_ranges`]): the nodes are taken by
/// path, greatest first, so that children come before their parents, and
/// `tokens[i]` is the range of node `i`'s own tokens. A node without a start
/// or an end is left out.
pub fn estimate_node_range(nodes: &Vec<PathNode>, tokens: &Vec<Option<TextRange>>) -> (r: Vec<RangedNode>)
    requires
        nodes@.len() == tokens@.len(),
        node_ranges(nodes@, tokens@) is Some,
    ensures
        ranged_views(r@) == node_ranges(nodes@, tokens@)->0,
{
    let order = order_by_path(nodes);
    let ghost ov = order@.map_values(|i: usize| i as int);
    let n = order.len();
    proof {
        lemma_path_order_len(nodes@, nodes@.len() as int);
    }
    let mut done: Vec<RangedNode> = Vec::new();
    let mut k: usize = 0;
    while k < n
        invariant
            k <= n,
            n == order@.len(),
            n == nodes@.len(),
            nodes@.len() == tokens@.len(),
            ov == order@.map_values(|i: usize| i as int),
            ov == path_order(nodes@, nodes@.len() as int),
            forall|j: int| 0 <= j < order@.len() ==> (#[trigger] order@[j]) < nodes@.len(),
            ranged_prefix(nodes@, tokens@, ov, k as int) == Some(ranged_views(done@)),
            ranged_prefix(nodes@, tokens@, ov, n as int) is Some,
        decreases n - k,
    {
        proof {
            lemma_prefix_some(nodes@, tokens@, ov, k as int + 1, n as int);
        }
        let i = order[k];
        assert(ov[k as int] == i as int);
        let nd = &nodes[i];
        let (lo, hi) = children_bounds(&done, nd.path.as_str());
        let own = match tokens[i] {
            Some(t) => (Some(t.start), Some(t.end)),
            None => (None, None),
        };
        let from = min_option(min_option(nd.location, lo), own.0);
        let to = max_option(hi, own.1);
        match (from, to) {
            (Some(f), Some(t)) => {
                let ghost old_done = ranged_views(done@);
                done.push(RangedNode { node: i, depth: nd.depth, path: nd.path.clone(), range: TextRange::new(f, t) });
                assert(ranged_views(done@) =~= old_done.push(
                    RangedNodeView { node: i as int, depth: nd.depth as int, path: nd.path@, range: TextRange { start: f, end: t } },
                ));
            },
            _ => {},
        }
        k = k + 1;
    }
    let ghost all = ranged_views(done@);
    let mut out: Vec<RangedNode> = Vec::new();
    let mut j: usize = 0;
    while j < done.len()
        invariant
            j <= done.len(),
            all == ranged_views(done@),
            ranged_views(out@) == sort_ranged(all.take(j as int)),
        decreases done.len() - j,
    {
        let e = &done[j];
        let x = RangedNode { node: e.node, depth: e.depth, path: e.path.clone(), range: e.range };
        assert(x@ == all[j as int]);
        assert(all.take(j + 1).drop_last() =~= all.take(j as int));
        insert_ranged_node(&mut out, x);
        j = j + 1;
    }
    assert(all.take(j as int) =~= all);
    out
}

/// Inserting keeps one more index.
proof fn lemma_insert_by_path_len(nodes: Seq<PathNode>, s: Seq<int>, x: int)
    ensures
        insert_by_path(nodes, s, x).len() == s.len() + 1,
    decreases s.len(),
{
    if !(s.len() == 0 || !text_lt(nodes[s.last()].path@, nodes[x].path@)) {
        lemma_insert_by_path_len(nodes, s.drop_last(), x);
    }
}

/// The order of the first `n` nodes holds `n` indices.
proof fn lemma_path_order_len(nodes: Seq<PathNode>, n: int)
    requires
        n >= 0,
    ensures
        path_order(nodes, n).len() == n,
    decreases n,
{
    if n > 0 {
        lemma_path_order_len(nodes, n - 1);
        lemma_insert_by_path_len(nodes, path_order(nodes, n - 1), n - 1);
    }
}

/// Where the ranges of all nodes are found, those of each prefix are.
proof fn lemma_prefix_some(nodes: Seq<PathNode>, tokens: Seq<Option<TextRange>>, order: Seq<int>, k: int, n: int)
    requires
        0 <= k <= n,
        ranged_prefix(nodes, tokens, order, n) is Some,
    ensures
        ranged_prefix(nodes, tokens, order, k) is Some,
    decreases n - k,
{
    if k < n {
        lemma_prefix_some(nodes, tokens, order, k, n - 1);
    }
}


proof fn lemma_lt_asym(a: Seq<char>, b: Seq<char>)
    requires
        text_lt(a, b),
    ensures
        !text_lt(b, a),
    decreases a.len(),
{
    if a.len() > 0 && b.len() > 0 && a[0] == b[0] {
        lemma_lt_asym(a.drop_first(), b.drop_first());
    }
}

proof fn lemma_lt_trans(a: Seq<char>, b: Seq<char>, c: Seq<char>)
    requires
        text_lt(a, b),
        text_lt(b, c),
    ensures
        text_lt(a, c),
    decreases a.len(),
{
    if a.len() > 0 {
        if a[0] == b[0] && b[0] == c[0] {
            lemma_lt_trans(a.drop_first(), b.drop_first(), c.drop_first());
        }
    }
}

proof fn lemma_lt_total(a: Seq<char>, b: Seq<char>)
    requires
        !text_lt(a, b),
        !text_lt(b, a),
    ensures
        a == b,
    decreases a.len(),
{
    if a.len() > 0 && b.len() > 0 {
        if a[0] == b[0] {
            lemma_lt_total(a.drop_first(), b.drop_first());
            assert forall|i: int| 0 <= i < a.len() implies a[i] == b[i] by {
                if i > 0 {
                    assert(a[i] == a.drop_first()[i - 1]);
                    assert(b[i] == b.drop_first()[i - 1]);
                }
            }
            assert(a =~= b);
        } else {

        }
    } else {
        assert(a =~= b);
    }
}

/// Not coming after is transitive.
proof fn lemma_ge_trans(a: Seq<char>, b: Seq<char>, c: Seq<char>)
    requires
        !text_lt(a, b),
        !text_lt(b, c),
    ensures
        !text_lt(a, c),
{
    if text_lt(a, c) {
        if text_lt(b, a) {
            lemma_lt_trans(b, a, c);
        } else {
            lemma_lt_total(a, b);
        }
    }
}

/// A proper prefix comes before.
proof fn lemma_prefix_lt(p: Seq<char>, q: Seq<char>)
    requires
        p.len() < q.len(),
        p == q.take(p.len() as int),
    ensures
        text_lt(p, q),
    decreases p.len(),
{
    if p.len() > 0 {
        assert(p[0] == q[0]);
        assert(p.drop_first() =~= q.drop_first().take(p.len() - 1));
        lemma_prefix_lt(p.drop_first(), q.drop_first());
    }
}

/// The order holds the index `x` and those of `s`, and nothing else.
proof fn lemma_insert_by_path_elems(nodes: Seq<PathNode>, s: Seq<int>, x: int)
    ensures
        forall|i: int| 0 <= i < insert_by_path(nodes, s, x).len() ==> (#[trigger] insert_by_path(nodes, s, x)[i] == x
            || s.contains(insert_by_path(nodes, s, x)[i])),
    decreases s.len(),
{
    if !(s.len() == 0 || !text_lt(nodes[s.last()].path@, nodes[x].path@)) {
        lemma_insert_by_path_elems(nodes, s.drop_last(), x);
        let t = insert_by_path(nodes, s.drop_last(), x);
        assert forall|i: int| 0 <= i < t.push(s.last()).len() implies (#[trigger] t.push(s.last())[i] == x || s.contains(
            t.push(s.last())[i],
        )) by {
            if i < t.len() {
                if t[i] != x {
                    let j = choose|j: int| 0 <= j < s.drop_last().len() && s.drop_last()[j] == t[i];
                    assert(s[j] == t[i]);
                }
            } else {
                assert(s[s.len() - 1] == s.last());
            }
        }
    } else {
        assert forall|i: int| 0 <= i < s.push(x).len() implies (#[trigger] s.push(x)[i] == x || s.contains(s.push(x)[i])) by {
            if i < s.len() {
                assert(s[i] == s.push(x)[i]);
            }
        }
    }
}

/// The paths of an order do not come one before the next.
pub open spec fn order_sorted(nodes: Seq<PathNode>, s: Seq<int>) -> bool {
    forall|i: int, j: int| 0 <= i < j < s.len() ==> !text_lt(nodes[#[trigger] s[i]].path@, nodes[#[trigger] s[j]].path@)
}

proof fn lemma_insert_by_path_sorted(nodes: Seq<PathNode>, s: Seq<int>, x: int)
    requires
        order_sorted(nodes, s),
    ensures
        order_sorted(nodes, insert_by_path(nodes, s, x)),
    decreases s.len(),
{
    let px = nodes[x].path@;
    if s.len() == 0 || !text_lt(nodes[s.last()].path@, px) {
        let t = s.push(x);
        assert forall|i: int, j: int| 0 <= i < j < t.len() implies !text_lt(nodes[#[trigger] t[i]].path@, nodes[#[trigger] t[j]].path@) by {
            if j == s.len() {
                assert(t[i] == s[i]);
                if i < s.len() - 1 {
                    assert(!text_lt(nodes[s[i]].path@, nodes[s[s.len() - 1]].path@));
                    lemma_ge_trans(nodes[s[i]].path@, nodes[s[s.len() - 1]].path@, px);
                }
            } else {
                assert(t[i] == s[i] && t[j] == s[j]);
            }
        }
    } else {
        let d = s.drop_last();
        let last = s.last();
        assert(order_sorted(nodes, d)) by {
            assert forall|i: int, j: int| 0 <= i < j < d.len() implies !text_lt(nodes[#[trigger] d[i]].path@, nodes[#[trigger] d[j]].path@) by {
                assert(d[i] == s[i] && d[j] == s[j]);
            }
        }
        lemma_insert_by_path_sorted(nodes, d, x);
        lemma_insert_by_path_elems(nodes, d, x);
        lemma_lt_asym(nodes[last].path@, px);
        let t = insert_by_path(nodes, d, x);
        let u = t.push(last);
        assert forall|i: int, j: int| 0 <= i < j < u.len() implies !text_lt(nodes[#[trigger] u[i]].path@, nodes[#[trigger] u[j]].path@) by {
            if j == t.len() {
                assert(u[i] == t[i]);
                assert(u[j] == last);
                if t[i] != x {
                    let k = choose|k: int| 0 <= k < d.len() && d[k] == t[i];
                    assert(s[k] == d[k]);
                    assert(s[s.len() - 1] == last);
                }
            } else {
                assert(u[i] == t[i] && u[j] == t[j]);
            }
        }
    }
}

proof fn lemma_path_order_sorted(nodes: Seq<PathNode>, n: int)
    ensures
        order_sorted(nodes, path_order(nodes, n)),
        forall|i: int| 0 <= i < path_order(nodes, n).len() ==> 0 <= #[trigger] path_order(nodes, n)[i] < n,
    decreases n,
{
    if n > 0 {
        lemma_path_order_sorted(nodes, n - 1);
        lemma_insert_by_path_sorted(nodes, path_order(nodes, n - 1), n - 1);
        lemma_insert_by_path_elems(nodes, path_order(nodes, n - 1), n - 1);
        let s = path_order(nodes, n - 1);
        assert forall|i: int| 0 <= i < path_order(nodes, n).len() implies 0 <= #[trigger] path_order(nodes, n)[i] < n by {
            if path_order(nodes, n)[i] != n - 1 {
                let k = choose|k: int| 0 <= k < s.len() && s[k] == path_order(nodes, n)[i];
            }
        }
    }
}

/// The least start below `path` is at most the start of every range below it.
proof fn lemma_children_bounds(done: Seq<RangedNodeView>, path: Seq<char>, y: int)
    requires
        0 <= y < done.len(),
        path.is_prefix_of(done[y].path),
    ensures
        children_start(done, path) matches Some(m) && m <= done[y].range.start,
        children_end(done, path) matches Some(m) && m >= done[y].range.end,
    decreases done.len(),
{
    let d = done.drop_last();
    if y < done.len() - 1 {
        assert(d[y] == done[y]);
        lemma_children_bounds(d, path, y);
    }
}

/// Nodes ranged in path order keep a node's range around the ranges below it.
pub open spec fn ranges_nest(done: Seq<RangedNodeView>) -> bool {
    forall|a: int, b: int|
        0 <= a < done.len() && 0 <= b < done.len() && (#[trigger] done[a].path + seq!['.']).is_prefix_of(
            #[trigger] done[b].path,
        ) ==> done[a].range.start <= done[b].range.start && done[b].range.end <= done[a].range.end
}

proof fn lemma_ranged_prefix_nests(nodes: Seq<PathNode>, tokens: Seq<Option<TextRange>>, k: int)
    requires
        0 <= k <= nodes.len(),
        nodes.len() == tokens.len(),
        ranged_prefix(nodes, tokens, path_order(nodes, nodes.len() as int), k) is Some,
    ensures
        ranges_nest(ranged_prefix(nodes, tokens, path_order(nodes, nodes.len() as int), k)->0),
        forall|e: int, m: int|
            0 <= e < ranged_prefix(nodes, tokens, path_order(nodes, nodes.len() as int), k)->0.len() && k <= m
                < nodes.len() ==> !text_lt(
                (#[trigger] ranged_prefix(nodes, tokens, path_order(nodes, nodes.len() as int), k)->0[e]).path,
                nodes[#[trigger] path_order(nodes, nodes.len() as int)[m]].path@,
            ),
    decreases k,
{
    let order = path_order(nodes, nodes.len() as int);
    lemma_path_order_len(nodes, nodes.len() as int);
    lemma_path_order_sorted(nodes, nodes.len() as int);
    if k > 0 {
        lemma_ranged_prefix_nests(nodes, tokens, k - 1);
        let done = ranged_prefix(nodes, tokens, order, k - 1)->0;
        let i = order[k - 1];
        let nd = nodes[i];
        let next = ranged_prefix(nodes, tokens, order, k)->0;
        if next.len() == done.len() + 1 {
            assert(next == done.push(next.last()));
            let e = next.last();
            assert(e.path == nd.path@);
            assert forall|a: int, b: int|
                0 <= a < next.len() && 0 <= b < next.len() && (#[trigger] next[a].path + seq!['.']).is_prefix_of(
                    #[trigger] next[b].path,
                ) implies next[a].range.start <= next[b].range.start && next[b].range.end <= next[a].range.end by {
                if a == done.len() && b < done.len() {
                    assert(next[b] == done[b]);
                    assert(nd.path@.is_prefix_of(done[b].path)) by {
                        assert(done[b].path.subrange(0, nd.path@.len() as int) =~= (nd.path@ + seq!['.']).subrange(0, nd.path@.len() as int));
                    }
                    lemma_children_bounds(done, nd.path@, b);
                } else if a < done.len() && b == done.len() {
                    assert(next[a] == done[a]);
                    let pa = done[a].path;
                    assert(pa == nd.path@.take(pa.len() as int)) by {
                        assert(nd.path@.take(pa.len() as int) =~= (pa + seq!['.']).take(pa.len() as int));
                    }
                    lemma_prefix_lt(pa, nd.path@);
                    assert(!text_lt(pa, nodes[order[k - 1]].path@));
                } else if a < done.len() && b < done.len() {
                    assert(next[a] == done[a] && next[b] == done[b]);
                }
            }
            assert forall|x: int, m: int| 0 <= x < next.len() && k <= m < nodes.len() implies !text_lt(
                (#[trigger] next[x]).path,
                nodes[#[trigger] order[m]].path@,
            ) by {
                if x < done.len() {
                    assert(next[x] == done[x]);
                } else {
                    assert(!text_lt(nodes[order[k - 1]].path@, nodes[order[m]].path@));
                }
            }
        } else {
            assert(next == done);
        }
    }
}

proof fn lemma_insert_ranged_elems(s: Seq<RangedNodeView>, x: RangedNodeView)
    ensures
        forall|i: int| 0 <= i < insert_ranged(s, x).len() ==> (#[trigger] insert_ranged(s, x)[i] == x || s.contains(insert_ranged(s, x)[i])),
    decreases s.len(),
{
    if !(s.len() == 0 || range_key_le(s.last(), x)) {
        lemma_insert_ranged_elems(s.drop_last(), x);
        let t = insert_ranged(s.drop_last(), x);
        assert forall|i: int| 0 <= i < t.push(s.last()).len() implies (#[trigger] t.push(s.last())[i] == x || s.contains(
            t.push(s.last())[i],
        )) by {
            if i < t.len() {
                if t[i] != x {
                    let j = choose|j: int| 0 <= j < s.drop_last().len() && s.drop_last()[j] == t[i];
                    assert(s[j] == t[i]);
                }
            } else {
                assert(s[s.len() - 1] == s.last());
            }
        }
    } else {
        assert forall|i: int| 0 <= i < s.push(x).len() implies (#[trigger] s.push(x)[i] == x || s.contains(s.push(x)[i])) by {
            if i < s.len() {
                assert(s[i] == s.push(x)[i]);
            }
        }
    }
}

proof fn lemma_sort_ranged_elems(s: Seq<RangedNodeView>)
    ensures
        forall|i: int| 0 <= i < sort_ranged(s).len() ==> s.contains(#[trigger] sort_ranged(s)[i]),
    decreases s.len(),
{
    if s.len() > 0 {
        lemma_sort_ranged_elems(s.drop_last());
        let t = sort_ranged(s.drop_last());
        lemma_insert_ranged_elems(t, s.last());
        assert forall|i: int| 0 <= i < sort_ranged(s).len() implies s.contains(#[trigger] sort_ranged(s)[i]) by {
            let e = sort_ranged(s)[i];
            if e == s.last() {
                assert(s[s.len() - 1] == e);
            } else {
                let j = choose|j: int| 0 <= j < t.len() && t[j] == e;
                let k = choose|k: int| 0 <= k < s.drop_last().len() && s.drop_last()[k] == t[j];
                assert(s[k] == e);
            }
        }
    }
}

/// Among the ranged nodes, the range of a node contains the range of every
/// node below it (whose path is its path, a `.` and more): children are
/// ranged before their parents, and a parent spans the ranges below it.
pub proof fn lemma_parent_range_contains_child(nodes: Seq<PathNode>, tokens: Seq<Option<TextRange>>)
    requires
        nodes.len() == tokens.len(),
        node_ranges(nodes, tokens) is Some,
    ensures
        forall|a: int, b: int|
            0 <= a < node_ranges(nodes, tokens)->0.len() && 0 <= b < node_ranges(nodes, tokens)->0.len() && (
            #[trigger] node_ranges(nodes, tokens)->0[a].path + seq!['.']).is_prefix_of(
                #[trigger] node_ranges(nodes, tokens)->0[b].path,
            ) ==> node_ranges(nodes, tokens)->0[a].range.start <= node_ranges(nodes, tokens)->0[b].range.start
                && node_ranges(nodes, tokens)->0[b].range.end <= node_ranges(nodes, tokens)->0[a].range.end,
{
    let order = path_order(nodes, nodes.len() as int);
    let done = ranged_prefix(nodes, tokens, order, nodes.len() as int)->0;
    lemma_ranged_prefix_nests(nodes, tokens, nodes.len() as int);
    lemma_sort_ranged_elems(done);
    let r = node_ranges(nodes, tokens)->0;
    assert forall|a: int, b: int|
        0 <= a < r.len() && 0 <= b < r.len() && (#[trigger] r[a].path + seq!['.']).is_prefix_of(#[trigger] r[b].path)
        implies r[a].range.start <= r[b].range.start && r[b].range.end <= r[a].range.end by {
        let x = choose|x: int| 0 <= x < done.len() && done[x] == r[a];
        let y = choose|y: int| 0 <= y < done.len() && done[y] == r[b];
        assert((done[x].path + seq!['.']).is_prefix_of(done[y].path));
    }
}

} // verus!
