//! The nodes of a Postgres syntax tree below its root, each with its depth,
//! its path from the root and its location in the text: the nodes are walked
//! breadth first; a node without a location of its own gets one derived from
//! its parent and its children (see [`crate::location`]); the result is
//! ordered by location.
use vstd::prelude::*;
use vstd::string::StrSliceExecFns;

use crate::location::{derive_ok, located, tag_pattern, try_derive_location, NodeTag};
use crate::message::{decimal, push_decimal};
use crate::strings::same_text;

verus! {

/// A node of a syntax tree: its kind, its own location if it carries one,
/// and the indices of its children, in order.
pub struct TreeNode {
    pub tag: NodeTag,
    pub location: Option<i32>,
    pub children: Vec<usize>,
}

/// A node reached by the walk: the index of the tree node, its depth, its
/// location and its path (the child positions from the root, joined by `.`).
#[derive(Debug, PartialEq, Eq)]
pub struct NestedNode {
    pub node: usize,
    pub depth: i32,
    pub location: i32,
    pub path: String,
}

/// A [`NestedNode`] with its path as characters.
pub ghost struct NestedNodeView {
    pub node: int,
    pub depth: int,
    pub location: int,
    pub path: Seq<char>,
}

impl View for NestedNode {
    type V = NestedNodeView;

    open spec fn view(&self) -> NestedNodeView {
        NestedNodeView { node: self.node as int, depth: self.depth as int, location: self.location as int, path: self.path@ }
    }
}

/// A step of the walk: a node with its depth, its path and the path of its parent.
pub ghost struct WalkEntry {
    pub node: int,
    pub depth: int,
    pub path: Seq<char>,
    pub parent_path: Seq<char>,
}

/// The tree is well formed: the root is node 0, each child comes after its
/// parent and every index is a node.
pub open spec fn tree_shape(tree: Seq<TreeNode>) -> bool {
    &&& tree.len() > 0
    &&& forall|i: int, j: int|
        0 <= i < tree.len() && 0 <= j < tree[i].children@.len() ==> i < #[trigger] tree[i].children@[j] < tree.len()
}

/// The walk's counters fit in an `i32`: the depth of every node it reaches,
/// and the number of children of the root and of every node it reaches.
pub open spec fn walk_fits(tree: Seq<TreeNode>, depth: i32) -> bool {
    &&& tree[0].children@.len() <= i32::MAX
    &&& forall|j: int| 0 <= j < tree_walk(tree, depth).len() ==> (#[trigger] tree_walk(tree, depth)[j]).depth <= i32::MAX
        && tree[tree_walk(tree, depth)[j].node].children@.len() <= i32::MAX
}

/// The tree is well formed and its walk fits in an `i32`.
pub open spec fn tree_wf(tree: Seq<TreeNode>, depth: i32) -> bool {
    &&& tree_shape(tree)
    &&& walk_fits(tree, depth)
}

/// The entries of `level` have no more children than an `i32` counts, and
/// the depth of their children fits in an `i32`.
spec fn level_fits(tree: Seq<TreeNode>, level: Seq<WalkEntry>) -> bool {
    forall|i: int| 0 <= i < level.len() ==> tree[(#[trigger] level[i]).node].children@.len() <= i32::MAX && (
    tree[level[i].node].children@.len() > 0 ==> level[i].depth + 1 <= i32::MAX)
}

/// The children of each entry of a level are in the next level.
proof fn lemma_next_level_has(tree: Seq<TreeNode>, lv: Seq<WalkEntry>, i: int, j: int)
    requires
        0 <= i < lv.len(),
        0 <= j < tree[lv[i].node].children@.len(),
    ensures
        next_level(tree, lv).contains(child_entries(tree, lv[i])[j]),
    decreases lv.len(),
{
    let d = lv.drop_last();
    let a = next_level(tree, d);
    let c = child_entries(tree, lv.last());
    if i == lv.len() - 1 {
        assert((a + c)[a.len() + j] == c[j]);
    } else {
        assert(d[i] == lv[i]);
        lemma_next_level_has(tree, d, i, j);
        let x = choose|x: int| 0 <= x < a.len() && a[x] == child_entries(tree, d[i])[j];
        assert((a + c)[x] == a[x]);
    }
}

/// The entries of the children of `e`, in order.
pub open spec fn child_entries(tree: Seq<TreeNode>, e: WalkEntry) -> Seq<WalkEntry> {
    Seq::new(
        tree[e.node].children@.len(),
        |j: int|
            WalkEntry {
                node: tree[e.node].children@[j] as int,
                depth: e.depth + 1,
                path: e.path + seq!['.'] + decimal(j as nat),
                parent_path: e.path,
            },
    )
}

/// The level after `level`: the children of its entries, in order.
pub open spec fn next_level(tree: Seq<TreeNode>, level: Seq<WalkEntry>) -> Seq<WalkEntry>
    decreases level.len(),
{
    if level.len() == 0 {
        Seq::empty()
    } else {
        next_level(tree, level.drop_last()) + child_entries(tree, level.last())
    }
}

/// The entries below `level`, level by level (breadth first), for at most
/// `fuel` levels.
pub open spec fn walk(tree: Seq<TreeNode>, level: Seq<WalkEntry>, fuel: nat) -> Seq<WalkEntry>
    decreases fuel,
{
    if fuel == 0 || level.len() == 0 {
        Seq::empty()
    } else {
        let next = next_level(tree, level);
        next + walk(tree, next, (fuel - 1) as nat)
    }
}

/// The entry of the root.
pub open spec fn root_entry(depth: i32) -> WalkEntry {
    WalkEntry { node: 0, depth: depth as int, path: seq!['0'], parent_path: Seq::empty() }
}

/// The walk below the root of `tree`, breadth first.
pub open spec fn tree_walk(tree: Seq<TreeNode>, depth: i32) -> Seq<WalkEntry> {
    walk(tree, seq![root_entry(depth)], tree.len() as nat)
}

/// The entries of `walk` whose node carries a location, as nested nodes.
pub open spec fn own_located(tree: Seq<TreeNode>, w: Seq<WalkEntry>) -> Seq<NestedNodeView>
    decreases w.len(),
{
    if w.len() == 0 {
        Seq::empty()
    } else {
        let e = w.last();
        match tree[e.node].location {
            Some(l) => own_located(tree, w.drop_last()).push(
                NestedNodeView { node: e.node, depth: e.depth, location: l as int, path: e.path },
            ),
            None => own_located(tree, w.drop_last()),
        }
    }
}

/// The entries of `walk` whose node carries no location.
pub open spec fn unlocated(tree: Seq<TreeNode>, w: Seq<WalkEntry>) -> Seq<WalkEntry>
    decreases w.len(),
{
    if w.len() == 0 {
        Seq::empty()
    } else {
        let e = w.last();
        match tree[e.node].location {
            Some(_) => unlocated(tree, w.drop_last()),
            None => unlocated(tree, w.drop_last()).push(e),
        }
    }
}

/// The location of the first node of `nodes` whose path is `path`, else 0.
pub open spec fn location_at_path(nodes: Seq<NestedNodeView>, path: Seq<char>) -> int
    decreases nodes.len(),
{
    if nodes.len() == 0 {
        0
    } else if nodes[0].path == path {
        nodes[0].location
    } else {
        location_at_path(nodes.drop_first(), path)
    }
}

/// The least location of the nodes of `nodes` whose path starts with `path`.
pub open spec fn least_location_below(nodes: Seq<NestedNodeView>, path: Seq<char>) -> Option<int>
    decreases nodes.len(),
{
    if nodes.len() == 0 {
        None
    } else {
        let m = least_location_below(nodes.drop_last(), path);
        let n = nodes.last();
        if path.is_prefix_of(n.path) {
            match m {
                None => Some(n.location),
                Some(x) => Some(if n.location < x { n.location } else { x }),
            }
        } else {
            m
        }
    }
}

/// The nodes after the location of `e` is derived from the nodes found so
/// far: its parent's location (0 where the parent is not among them) and the
/// least location below it. `None` where it cannot be derived.
pub open spec fn derive_step(tree: Seq<TreeNode>, text: Seq<char>, nodes: Seq<NestedNodeView>, e: WalkEntry) -> Option<
    Seq<NestedNodeView>,
> {
    let parent = location_at_path(nodes, e.parent_path) as i32;
    let earliest = match least_location_below(nodes, e.path) {
        Some(l) => Some(l as i32),
        None => None,
    };
    let tag = tree[e.node].tag;
    if !derive_ok(tag, text, parent, earliest) {
        None
    } else {
        match tag_pattern(tag) {
            None => Some(nodes),
            Some(p) => Some(
                nodes.push(
                    NestedNodeView {
                        node: e.node,
                        depth: e.depth,
                        location: located(crate::location::regex_match_starts(p, text), parent, earliest),
                        path: e.path,
                    },
                ),
            ),
        }
    }
}

/// The nodes after the locations of `pending` are derived, one after another.
pub open spec fn derive_all(tree: Seq<TreeNode>, text: Seq<char>, nodes: Seq<NestedNodeView>, pending: Seq<WalkEntry>) -> Option<
    Seq<NestedNodeView>,
>
    decreases pending.len(),
{
    if pending.len() == 0 {
        Some(nodes)
    } else {
        match derive_all(tree, text, nodes, pending.drop_last()) {
            None => None,
            Some(ns) => derive_step(tree, text, ns, pending.last()),
        }
    }
}

/// `x` placed into `s` after the last node whose location is not greater.
pub open spec fn insert_by_location(s: Seq<NestedNodeView>, x: NestedNodeView) -> Seq<NestedNodeView>
    decreases s.len(),
{
    if s.len() == 0 || s.last().location <= x.location {
        s.push(x)
    } else {
        insert_by_location(s.drop_last(), x).push(s.last())
    }
}

/// `s` ordered by location; nodes of the same location keep their order.
pub open spec fn sort_by_location(s: Seq<NestedNodeView>) -> Seq<NestedNodeView>
    decreases s.len(),
{
    if s.len() == 0 {
        s
    } else {
        insert_by_location(sort_by_location(s.drop_last()), s.last())
    }
}

/// The nested nodes of `tree` below its root at `depth` in `text`: those with
/// a location of their own in walk order, then the others with a derived
/// location, in walk order, all ordered by location. `None` where a location
/// cannot be derived.
pub open spec fn nested_nodes_of(tree: Seq<TreeNode>, text: Seq<char>, depth: i32) -> Option<Seq<NestedNodeView>> {
    let w = tree_walk(tree, depth);
    match derive_all(tree, text, own_located(tree, w), unlocated(tree, w)) {
        None => None,
        Some(ns) => Some(sort_by_location(ns)),
    }
}


/// The views of nested nodes.
pub open spec fn views(v: Seq<NestedNode>) -> Seq<NestedNodeView> {
    v.map_values(|n: NestedNode| n@)
}

/// A step of the walk, as it is held while walking.
struct Entry {
    node: usize,
    depth: i32,
    path: String,
    parent_path: String,
}

impl View for Entry {
    type V = WalkEntry;

    closed spec fn view(&self) -> WalkEntry {
        WalkEntry { node: self.node as int, depth: self.depth as int, path: self.path@, parent_path: self.parent_path@ }
    }
}

spec fn entry_views(v: Seq<Entry>) -> Seq<WalkEntry> {
    v.map_values(|e: Entry| e@)
}

/// The entries of a level lie at or after node `k`, at depth `depth + k`.
spec fn level_ok(tree: Seq<TreeNode>, level: Seq<WalkEntry>, depth: i32, k: int) -> bool {
    forall|i: int| 0 <= i < level.len() ==> k <= (#[trigger] level[i]).node < tree.len() && level[i].depth == depth + k
}

proof fn lemma_next_level_ok(tree: Seq<TreeNode>, level: Seq<WalkEntry>, depth: i32, k: int)
    requires
        tree_wf(tree, depth),
        level_ok(tree, level, depth, k),
        k >= 0,
    ensures
        level_ok(tree, next_level(tree, level), depth, k + 1),
    decreases level.len(),
{
    if level.len() > 0 {
        lemma_next_level_ok(tree, level.drop_last(), depth, k);
        let e = level.last();
        assert(level_ok(tree, level.drop_last(), depth, k)) by {
            assert forall|i: int| 0 <= i < level.drop_last().len() implies k <= (#[trigger] level.drop_last()[i]).node
                < tree.len() && level.drop_last()[i].depth == depth + k by {
                assert(level.drop_last()[i] == level[i]);
            }
        }
        let a = next_level(tree, level.drop_last());
        let c = child_entries(tree, e);
        assert(level[level.len() - 1] == e);
        assert forall|i: int| 0 <= i < (a + c).len() implies k + 1 <= (#[trigger] (a + c)[i]).node < tree.len()
            && (a + c)[i].depth == depth + k + 1 by {
            if i >= a.len() {
                let j = i - a.len();
                assert((a + c)[i] == c[j]);
                assert(0 <= k <= e.node < tree.len());
                assert(0 <= j < tree[e.node].children@.len());
                assert(e.node < tree[e.node].children@[j] < tree.len());
            }
        }
    }
}

/// Appends `.` and `j` to a copy of `path`.
fn child_path(path: &String, j: u32) -> (r: String)
    ensures
        r@ == path@ + seq!['.'] + decimal(j as nat),
{
    let mut s = path.clone();
    s.push('.');
    push_decimal(&mut s, j);
    s
}

/// The level after `level` (see [`next_level`]).
fn next_level_of(tree: &Vec<TreeNode>, level: &Vec<Entry>, depth: i32, k: usize) -> (r: Vec<Entry>)
    requires
        tree_wf(tree@, depth),
        level_ok(tree@, entry_views(level@), depth, k as int),
        level_fits(tree@, entry_views(level@)),
        k < tree@.len(),
    ensures
        entry_views(r@) == next_level(tree@, entry_views(level@)),
{
    let ghost lv = entry_views(level@);
    let mut next: Vec<Entry> = Vec::new();
    let mut i: usize = 0;
    while i < level.len()
        invariant
            i <= level.len(),
            lv == entry_views(level@),
            tree_wf(tree@, depth),
            level_ok(tree@, lv, depth, k as int),
            level_fits(tree@, lv),
            k < tree@.len(),
            entry_views(next@) == next_level(tree@, lv.take(i as int)),
        decreases level.len() - i,
    {
        let e = &level[i];
        assert(lv[i as int] == e@);
        let children = &tree[e.node].children;
        let ghost ce = child_entries(tree@, e@);
        let ghost before = entry_views(next@);
        let mut j: usize = 0;
        while j < children.len()
            invariant
                j <= children.len(),
                children@ == tree@[e.node as int].children@,
                children@.len() <= i32::MAX,
                children@.len() > 0 ==> e.depth + 1 <= i32::MAX,
                ce == child_entries(tree@, e@),
                entry_views(next@) == before + ce.take(j as int),
            decreases children.len() - j,
        {
            let path = child_path(&e.path, j as u32);
            let parent_path = e.path.clone();
            let ghost old_next = entry_views(next@);
            next.push(Entry { node: children[j], depth: e.depth + 1, path, parent_path });
            assert(entry_views(next@) =~= old_next.push(ce[j as int]));
            assert(ce.take(j + 1) =~= ce.take(j as int).push(ce[j as int]));
            j = j + 1;
        }
        assert(ce.take(j as int) =~= ce);
        assert(lv.take(i + 1).drop_last() =~= lv.take(i as int));
        i = i + 1;
    }
    assert(lv.take(i as int) =~= lv);
    next
}

/// The level of the root fits.
proof fn lemma_root_fits(tree: Seq<TreeNode>, depth: i32)
    requires
        tree_wf(tree, depth),
    ensures
        level_fits(tree, seq![root_entry(depth)]),
{
    let lv = seq![root_entry(depth)];
    assert(lv[0] == root_entry(depth));
    if tree[0].children@.len() > 0 {
        lemma_next_level_has(tree, lv, 0, 0);
        let next = next_level(tree, lv);
        let x = choose|x: int| 0 <= x < next.len() && next[x] == child_entries(tree, lv[0])[0];
        assert(tree_walk(tree, depth) == next + walk(tree, next, (tree.len() - 1) as nat));
        assert(tree_walk(tree, depth)[x] == next[x]);
    }
}

/// The next level fits where the walk does: its entries and their children
/// are in the walk.
proof fn lemma_next_level_fits(tree: Seq<TreeNode>, depth: i32, out: Seq<WalkEntry>, level: Seq<WalkEntry>, k: int)
    requires
        tree_wf(tree, depth),
        0 <= k < tree.len(),
        level.len() > 0,
        level_ok(tree, level, depth, k),
        out + walk(tree, level, (tree.len() - k) as nat) == tree_walk(tree, depth),
    ensures
        level_fits(tree, next_level(tree, level)),
{
    let next = next_level(tree, level);
    let w = tree_walk(tree, depth);
    let rest = walk(tree, next, (tree.len() - k - 1) as nat);
    assert(walk(tree, level, (tree.len() - k) as nat) == next + rest);
    lemma_next_level_ok(tree, level, depth, k);
    assert forall|i: int| 0 <= i < next.len() implies tree[(#[trigger] next[i]).node].children@.len() <= i32::MAX && (
    tree[next[i].node].children@.len() > 0 ==> next[i].depth + 1 <= i32::MAX) by {
        assert(w[out.len() + i] == next[i]);
        if tree[next[i].node].children@.len() > 0 {
            assert(k + 1 <= next[i].node < tree.len());
            assert(next[i].node < tree[next[i].node].children@[0] < tree.len());
            lemma_next_level_has(tree, next, i, 0);
            let nn = next_level(tree, next);
            let x = choose|x: int| 0 <= x < nn.len() && nn[x] == child_entries(tree, next[i])[0];
            assert(tree.len() - k - 1 > 0);
            assert(rest == nn + walk(tree, nn, (tree.len() - k - 2) as nat));
            assert(w[out.len() + next.len() + x] == nn[x]);
        }
    }
}

/// The walk below the root (see [`tree_walk`]).
fn walk_tree(tree: &Vec<TreeNode>, depth: i32) -> (r: Vec<Entry>)
    requires
        tree_wf(tree@, depth),
    ensures
        entry_views(r@) == tree_walk(tree@, depth),
{
    let n = tree.len();
    let root = Entry { node: 0, depth, path: "0".to_owned(), parent_path: String::new() };
    proof {
        reveal_strlit("0");
        assert(root.path@ =~= seq!['0']);
        assert(root.parent_path@ =~= Seq::<char>::empty());
        assert(root@ == root_entry(depth));
    }
    let mut level: Vec<Entry> = Vec::new();
    level.push(root);
    assert(entry_views(level@) =~= seq![root_entry(depth)]);
    proof {
        lemma_root_fits(tree@, depth);
    }
    let mut out: Vec<Entry> = Vec::new();
    let mut k: usize = 0;
    while level.len() > 0
        invariant
            n == tree@.len(),
            tree_wf(tree@, depth),
            k <= n,
            level_ok(tree@, entry_views(level@), depth, k as int),
            level_fits(tree@, entry_views(level@)),
            entry_views(out@) + walk(tree@, entry_views(level@), (n - k) as nat) == tree_walk(tree@, depth),
        decreases n - k,
    {
        assert(k < n) by {
            assert(k <= entry_views(level@)[0].node < n);
        }
        let next = next_level_of(tree, &level, depth, k);
        proof {
            lemma_next_level_ok(tree@, entry_views(level@), depth, k as int);
            lemma_next_level_fits(tree@, depth, entry_views(out@), entry_views(level@), k as int);
        }
        let ghost before = entry_views(out@);
        let mut i: usize = 0;
        while i < next.len()
            invariant
                i <= next.len(),
                entry_views(out@) == before + entry_views(next@).take(i as int),
            decreases next.len() - i,
        {
            let e = &next[i];
            let copy = Entry { node: e.node, depth: e.depth, path: e.path.clone(), parent_path: e.parent_path.clone() };
            let ghost o = entry_views(out@);
            out.push(copy);
            assert(entry_views(out@) =~= o.push(entry_views(next@)[i as int]));
            assert(entry_views(next@).take(i + 1) =~= entry_views(next@).take(i as int).push(entry_views(next@)[i as int]));
            i = i + 1;
        }
        assert(entry_views(next@).take(i as int) =~= entry_views(next@));
        assert(before + entry_views(next@) + walk(tree@, entry_views(next@), (n - k - 1) as nat) =~= before + walk(
            tree@,
            entry_views(level@),
            (n - k) as nat,
        ));
        level = next;
        k = k + 1;
    }
    assert(entry_views(out@) =~= entry_views(out@) + walk(tree@, entry_views(level@), (n - k) as nat));
    out
}


/// Whether `p` starts `s`.
pub(crate) fn starts_with(s: &str, p: &str) -> (r: bool)
    ensures
        r == p@.is_prefix_of(s@),
{
    let n = p.unicode_len();
    let m = s.unicode_len();
    if n > m {
        return false;
    }
    let mut i: usize = 0;
    while i < n
        invariant
            i <= n <= m,
            n == p@.len(),
            m == s@.len(),
            forall|j: int| 0 <= j < i ==> p@[j] == s@[j],
        decreases n - i,
    {
        if p.get_char(i) != s.get_char(i) {
            return false;
        }
        i = i + 1;
    }
    assert(p@ =~= s@.subrange(0, n as int));
    true
}

/// The location of the first node whose path is `path`, else 0 (see [`location_at_path`]).
fn location_of_path(nodes: &Vec<NestedNode>, path: &str) -> (r: i32)
    ensures
        r == location_at_path(views(nodes@), path@),
{
    let ghost v = views(nodes@);
    let mut i: usize = 0;
    assert(v.skip(0) =~= v);
    while i < nodes.len()
        invariant
            i <= nodes.len(),
            v == views(nodes@),
            location_at_path(v, path@) == location_at_path(v.skip(i as int), path@),
        decreases nodes.len() - i,
    {
        assert(v.skip(i as int)[0] == nodes@[i as int]@);
        assert(v.skip(i as int).drop_first() =~= v.skip(i + 1));
        if same_text(nodes[i].path.as_str(), path) {
            return nodes[i].location;
        }
        i = i + 1;
    }
    assert(v.skip(i as int).len() == 0);
    0
}

/// The least location of the nodes whose path starts with `path` (see [`least_location_below`]).
fn least_location_of(nodes: &Vec<NestedNode>, path: &str) -> (r: Option<i32>)
    ensures
        match r {
            Some(x) => least_location_below(views(nodes@), path@) == Some(x as int),
            None => least_location_below(views(nodes@), path@) is None,
        },
{
    let ghost v = views(nodes@);
    let mut m: Option<i32> = None;
    let mut i: usize = 0;
    while i < nodes.len()
        invariant
            i <= nodes.len(),
            v == views(nodes@),
            match m {
                Some(x) => least_location_below(v.take(i as int), path@) == Some(x as int),
                None => least_location_below(v.take(i as int), path@) is None,
            },
        decreases nodes.len() - i,
    {
        assert(v.take(i + 1).drop_last() =~= v.take(i as int));
        assert(v.take(i + 1).last() == nodes@[i as int]@);
        if starts_with(nodes[i].path.as_str(), path) {
            let l = nodes[i].location;
            m = match m {
                None => Some(l),
                Some(x) => Some(if l < x { l } else { x }),
            };
        }
        i = i + 1;
    }
    assert(v.take(i as int) =~= v);
    m
}

/// Derives the location of each pending entry in turn (see [`derive_all`]);
/// `None` where one cannot be derived.
fn derive_pending(tree: &Vec<TreeNode>, text: &str, found: Vec<NestedNode>, pending: &Vec<Entry>) -> (r: Option<Vec<NestedNode>>)
    requires
        forall|i: int| 0 <= i < pending@.len() ==> 0 <= (#[trigger] pending@[i]).node < tree@.len(),
    ensures
        match derive_all(tree@, text@, views(found@), entry_views(pending@)) {
            None => r is None,
            Some(ns) => r matches Some(v) && views(v@) == ns,
        },
{
    let ghost pv = entry_views(pending@);
    let ghost start = views(found@);
    let mut nodes = found;
    let mut i: usize = 0;
    while i < pending.len()
        invariant
            i <= pending.len(),
            pv == entry_views(pending@),
            forall|j: int| 0 <= j < pending@.len() ==> 0 <= (#[trigger] pending@[j]).node < tree@.len(),
            derive_all(tree@, text@, start, pv.take(i as int)) == Some(views(nodes@)),
            start == views(found@),
        decreases pending.len() - i,
    {
        let e = &pending[i];
        assert(pv[i as int] == e@);
        assert(pv.take(i + 1).drop_last() =~= pv.take(i as int));
        assert(pv.take(i + 1).last() == e@);
        let parent = location_of_path(&nodes, e.parent_path.as_str());
        let earliest = least_location_of(&nodes, e.path.as_str());
        let ghost spec_earliest = match least_location_below(views(nodes@), e.path@) {
            Some(l) => Some(l as i32),
            None => None,
        };
        assert(earliest == spec_earliest);
        assert(parent == location_at_path(views(nodes@), e.parent_path@) as i32);
        match try_derive_location(&tree[e.node].tag, text, parent, earliest) {
            None => {
                proof {
                    assert(!derive_ok(tree@[e.node as int].tag, text@, parent, earliest));
                    assert(derive_step(tree@, text@, views(nodes@), e@) is None);
                    assert(derive_all(tree@, text@, start, pv.take(i + 1)) is None);
                    lemma_derive_all_none(tree@, text@, start, pv, i as int + 1);
                }
                return None;
            },
            Some(None) => {},
            Some(Some(l)) => {
                let ghost old_nodes = views(nodes@);
                proof {
                    let p = tag_pattern(tree@[e.node as int].tag)->0;
                    crate::location::lemma_located_fits(
                        crate::location::regex_match_starts(p, text@),
                        parent,
                        earliest,
                    );
                }
                nodes.push(NestedNode { node: e.node, depth: e.depth, location: l, path: e.path.clone() });
                assert(views(nodes@) =~= old_nodes.push(NestedNodeView { node: e@.node, depth: e@.depth, location: l as int, path: e@.path }));
            },
        }
        i = i + 1;
    }
    assert(pv.take(i as int) =~= pv);
    Some(nodes)
}

/// Once a derivation fails, all later ones give `None`.
proof fn lemma_derive_all_none(tree: Seq<TreeNode>, text: Seq<char>, start: Seq<NestedNodeView>, pv: Seq<WalkEntry>, n: int)
    requires
        1 <= n <= pv.len(),
        derive_all(tree, text, start, pv.take(n)) is None,
    ensures
        derive_all(tree, text, start, pv) is None,
    decreases pv.len() - n,
{
    if n < pv.len() {
        assert(pv.take(n + 1).drop_last() =~= pv.take(n));
        lemma_derive_all_none(tree, text, start, pv, n + 1);
    } else {
        assert(pv.take(n) =~= pv);
    }
}

/// `x` as [`insert_by_location`] places it, at `pos`.
proof fn lemma_insert_at(s: Seq<NestedNodeView>, x: NestedNodeView, pos: int)
    requires
        0 <= pos <= s.len(),
        forall|j: int| pos <= j < s.len() ==> (#[trigger] s[j]).location > x.location,
        pos == 0 || s[pos - 1].location <= x.location,
    ensures
        insert_by_location(s, x) == s.insert(pos, x),
    decreases s.len(),
{
    if pos == s.len() {
        assert(s.push(x) =~= s.insert(pos, x));
    } else {
        let d = s.drop_last();
        assert forall|j: int| pos <= j < d.len() implies (#[trigger] d[j]).location > x.location by {
            assert(d[j] == s[j]);
        }
        lemma_insert_at(d, x, pos);
        assert(d.insert(pos, x).push(s.last()) =~= s.insert(pos, x));
    }
}

/// Places `x` after the last node whose location is not greater (see [`insert_by_location`]).
fn insert_node(v: &mut Vec<NestedNode>, x: NestedNode)
    ensures
        views(final(v)@) == insert_by_location(views(old(v)@), x@),
{
    let ghost s = views(v@);
    let mut pos = v.len();
    while pos > 0 && v[pos - 1].location > x.location
        invariant
            pos <= v.len(),
            s == views(v@),
            forall|j: int| pos <= j < v@.len() ==> (#[trigger] s[j]).location > x@.location,
        decreases pos,
    {
        pos = pos - 1;
    }
    proof {
        lemma_insert_at(s, x@, pos as int);
    }
    v.insert(pos, x);
    assert(views(v@) =~= s.insert(pos as int, x@));
}

/// The nodes ordered by location, stable (see [`sort_by_location`]).
fn sort_nodes(v: Vec<NestedNode>) -> (r: Vec<NestedNode>)
    ensures
        views(r@) == sort_by_location(views(v@)),
{
    let ghost s = views(v@);
    let mut out: Vec<NestedNode> = Vec::new();
    let mut v = v;
    let mut i: usize = 0;
    let n = v.len();
    while i < n
        invariant
            i <= n,
            n == v.len(),
            s == views(v@),
            views(out@) == sort_by_location(s.take(i as int)),
        decreases n - i,
    {
        let e = &v[i];
        let x = NestedNode { node: e.node, depth: e.depth, location: e.location, path: e.path.clone() };
        assert(x@ == s[i as int]);
        assert(s.take(i + 1).drop_last() =~= s.take(i as int));
        insert_node(&mut out, x);
        i = i + 1;
    }
    assert(s.take(i as int) =~= s);
    out
}

/// The nested nodes of `tree` below its root at `depth` in `text` (see
/// [`nested_nodes_of`]), or `None` where a location cannot be derived.
pub fn try_nested_nodes(tree: &Vec<TreeNode>, text: &str, depth: i32) -> (r: Option<Vec<NestedNode>>)
    requires
        tree_wf(tree@, depth),
    ensures
        match nested_nodes_of(tree@, text@, depth) {
            None => r is None,
            Some(ns) => r matches Some(v) && views(v@) == ns,
        },
{
    let w = walk_tree(tree, depth);
    let ghost wv = entry_views(w@);
    proof {
        lemma_walk_nodes(tree@, depth);
    }
    let mut located: Vec<NestedNode> = Vec::new();
    let mut pending: Vec<Entry> = Vec::new();
    let mut i: usize = 0;
    while i < w.len()
        invariant
            i <= w.len(),
            wv == entry_views(w@),
            wv == tree_walk(tree@, depth),
            forall|j: int| 0 <= j < wv.len() ==> 0 <= (#[trigger] wv[j]).node < tree@.len(),
            views(located@) == own_located(tree@, wv.take(i as int)),
            entry_views(pending@) == unlocated(tree@, wv.take(i as int)),
            forall|j: int| 0 <= j < pending@.len() ==> 0 <= (#[trigger] pending@[j]).node < tree@.len(),
        decreases w.len() - i,
    {
        let e = &w[i];
        assert(wv[i as int] == e@);
        assert(wv.take(i + 1).drop_last() =~= wv.take(i as int));
        assert(wv.take(i + 1).last() == e@);
        match tree[e.node].location {
            Some(l) => {
                let ghost o = views(located@);
                located.push(NestedNode { node: e.node, depth: e.depth, location: l, path: e.path.clone() });
                assert(views(located@) =~= o.push(NestedNodeView { node: e@.node, depth: e@.depth, location: l as int, path: e@.path }));
            },
            None => {
                let ghost o = entry_views(pending@);
                pending.push(Entry { node: e.node, depth: e.depth, path: e.path.clone(), parent_path: e.parent_path.clone() });
                assert(entry_views(pending@) =~= o.push(e@));
            },
        }
        i = i + 1;
    }
    assert(wv.take(i as int) =~= wv);
    match derive_pending(tree, text, located, &pending) {
        None => None,
        Some(ns) => Some(sort_nodes(ns)),
    }
}

/// Every node of a walk is a node of the tree.
proof fn lemma_walk_nodes(tree: Seq<TreeNode>, depth: i32)
    requires
        tree_wf(tree, depth),
    ensures
        forall|j: int| 0 <= j < tree_walk(tree, depth).len() ==> 0 <= (#[trigger] tree_walk(tree, depth)[j]).node < tree.len(),
{
    assert(level_ok(tree, seq![root_entry(depth)], depth, 0));
    lemma_walk_ok(tree, seq![root_entry(depth)], depth, 0, tree.len() as nat);
}

proof fn lemma_walk_ok(tree: Seq<TreeNode>, level: Seq<WalkEntry>, depth: i32, k: int, fuel: nat)
    requires
        tree_wf(tree, depth),
        level_ok(tree, level, depth, k),
        k >= 0,
    ensures
        forall|j: int| 0 <= j < walk(tree, level, fuel).len() ==> 0 <= (#[trigger] walk(tree, level, fuel)[j]).node < tree.len(),
    decreases fuel,
{
    if fuel > 0 && level.len() > 0 {
        let next = next_level(tree, level);
        lemma_next_level_ok(tree, level, depth, k);
        lemma_walk_ok(tree, next, depth, k + 1, (fuel - 1) as nat);
        let rest = walk(tree, next, (fuel - 1) as nat);
        assert forall|j: int| 0 <= j < (next + rest).len() implies 0 <= (#[trigger] (next + rest)[j]).node < tree.len() by {
            if j < next.len() {
                assert((next + rest)[j] == next[j]);
            } else {
                assert((next + rest)[j] == rest[j - next.len()]);
            }
        }
    }
}

/// The nested nodes of `tree` below its root at `depth` in `text` (see
/// [`nested_nodes_of`]).
pub fn nested_nodes(tree: &Vec<TreeNode>, text: &str, depth: i32) -> (r: Vec<NestedNode>)
    requires
        tree_wf(tree@, depth),
        nested_nodes_of(tree@, text@, depth) is Some,
    ensures
        views(r@) == nested_nodes_of(tree@, text@, depth)->0,
{
    match try_nested_nodes(tree, text, depth) {
        Some(v) => v,
        None => {
            assert(false);
            Vec::new()
        },
    }
}


proof fn lemma_insert_by_location_elems(s: Seq<NestedNodeView>, x: NestedNodeView)
    ensures
        forall|i: int| 0 <= i < insert_by_location(s, x).len() ==> (#[trigger] insert_by_location(s, x)[i] == x
            || s.contains(insert_by_location(s, x)[i])),
    decreases s.len(),
{
    if !(s.len() == 0 || s.last().location <= x.location) {
        lemma_insert_by_location_elems(s.drop_last(), x);
        let t = insert_by_location(s.drop_last(), x);
        assert forall|i: int| 0 <= i < t.push(s.last()).len() implies (#[trigger] t.push(s.last())[i] == x
            || s.contains(t.push(s.last())[i])) by {
            if i < t.len() {
                if t[i] != x {
                    let j = choose|j: int| 0 <= j < s.drop_last().len() && s.drop_last()[j] == t[i];
                    assert(s[j] == t[i]);
                }
            } else {
                assert(s[s.len() - 1] == s.last());
            }
        }
    } else {
        assert forall|i: int| 0 <= i < s.push(x).len() implies (#[trigger] s.push(x)[i] == x || s.contains(
            s.push(x)[i],
        )) by {
            if i < s.len() {
                assert(s[i] == s.push(x)[i]);
            }
        }
    }
}

/// The locations of `s` do not decrease.
pub open spec fn by_location(s: Seq<NestedNodeView>) -> bool {
    forall|i: int, j: int| 0 <= i < j < s.len() ==> (#[trigger] s[i]).location <= (#[trigger] s[j]).location
}

proof fn lemma_insert_by_location_sorted(s: Seq<NestedNodeView>, x: NestedNodeView)
    requires
        by_location(s),
    ensures
        by_location(insert_by_location(s, x)),
    decreases s.len(),
{
    if s.len() == 0 || s.last().location <= x.location {
        let t = s.push(x);
        assert forall|i: int, j: int| 0 <= i < j < t.len() implies (#[trigger] t[i]).location <= (#[trigger] t[j]).location by {
            assert(t[i] == s[i]);
            if j < s.len() {
                assert(t[j] == s[j]);
            } else if i < s.len() - 1 {
                assert(s[i].location <= s[s.len() - 1].location);
            }
        }
    } else {
        let d = s.drop_last();
        assert(by_location(d)) by {
            assert forall|i: int, j: int| 0 <= i < j < d.len() implies (#[trigger] d[i]).location <= (#[trigger] d[j]).location by {
                assert(d[i] == s[i] && d[j] == s[j]);
            }
        }
        lemma_insert_by_location_sorted(d, x);
        lemma_insert_by_location_elems(d, x);
        let t = insert_by_location(d, x);
        let u = t.push(s.last());
        assert forall|i: int, j: int| 0 <= i < j < u.len() implies (#[trigger] u[i]).location <= (#[trigger] u[j]).location by {
            assert(u[i] == t[i]);
            if j < t.len() {
                assert(u[j] == t[j]);
            } else if t[i] != x {
                let k = choose|k: int| 0 <= k < d.len() && d[k] == t[i];
                assert(s[k] == d[k]);
                assert(s[s.len() - 1] == s.last());
            }
        }
    }
}

proof fn lemma_sort_by_location_sorted(s: Seq<NestedNodeView>)
    ensures
        by_location(sort_by_location(s)),
    decreases s.len(),
{
    if s.len() > 0 {
        lemma_sort_by_location_sorted(s.drop_last());
        lemma_insert_by_location_sorted(sort_by_location(s.drop_last()), s.last());
    }
}

/// The nested nodes come out ordered by location.
pub proof fn lemma_nested_nodes_by_location(tree: Seq<TreeNode>, text: Seq<char>, depth: i32)
    requires
        nested_nodes_of(tree, text, depth) is Some,
    ensures
        by_location(nested_nodes_of(tree, text, depth)->0),
{
    let w = tree_walk(tree, depth);
    let ns = derive_all(tree, text, own_located(tree, w), unlocated(tree, w))->0;
    lemma_sort_by_location_sorted(ns);
}

} // verus!
