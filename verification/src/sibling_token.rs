//! Tokens that come in pairs, such as parentheses.
use vstd::prelude::*;

use crate::syntax_kind::SyntaxKind;

verus! {

/// The pairs of opening and closing sibling tokens.
pub open spec fn sibling_pairs() -> Seq<(SyntaxKind, SyntaxKind)> {
    seq![(SyntaxKind::Ascii40, SyntaxKind::Ascii41)]
}

/// The pairs of opening and closing sibling tokens.
fn siblings() -> (r: Vec<(SyntaxKind, SyntaxKind)>)
    ensures
        r@ == sibling_pairs(),
{
    let mut v = Vec::new();
    v.push((SyntaxKind::Ascii40, SyntaxKind::Ascii41));
    assert(v@ =~= sibling_pairs());
    v
}

/// `closing` closes the first pair that `opening` opens.
pub open spec fn closes(opening: SyntaxKind, closing: SyntaxKind) -> bool {
    exists|i: int|
        0 <= i < sibling_pairs().len() && (#[trigger] sibling_pairs()[i]).0 == opening && sibling_pairs()[i].1 == closing
            && forall|j: int| 0 <= j < i ==> (#[trigger] sibling_pairs()[j]).0 != opening
}

/// `opening` opens the first pair that `closing` closes.
pub open spec fn opens(closing: SyntaxKind, opening: SyntaxKind) -> bool {
    exists|i: int|
        0 <= i < sibling_pairs().len() && (#[trigger] sibling_pairs()[i]).1 == closing && sibling_pairs()[i].0 == opening
            && forall|j: int| 0 <= j < i ==> (#[trigger] sibling_pairs()[j]).1 != closing
}

/// Siblings go both ways: the kind that closes what `opening` opens is
/// opened by `opening`, and the kind that opens what `closing` closes is
/// closed by `closing`.
pub proof fn lemma_siblings_round_trip(a: SyntaxKind, b: SyntaxKind)
    ensures
        closes(a, b) ==> opens(b, a),
        opens(a, b) ==> closes(b, a),
{
    if closes(a, b) {
        assert(sibling_pairs()[0].1 == b);
        assert(opens(b, a));
    }
    if opens(a, b) {
        assert(sibling_pairs()[0].0 == b);
        assert(closes(b, a));
    }
}

impl SyntaxKind {
    /// Whether the kind closes a pair of siblings.
    pub fn is_closing_sibling(self) -> (r: bool)
        ensures
            r == exists|i: int| 0 <= i < sibling_pairs().len() && (#[trigger] sibling_pairs()[i]).1 == self,
    {
        let pairs = siblings();
        let mut i: usize = 0;
        while i < pairs.len()
            invariant
                pairs@ == sibling_pairs(),
                i <= pairs.len(),
                forall|j: int| 0 <= j < i ==> (#[trigger] pairs@[j]).1 != self,
            decreases pairs.len() - i,
        {
            if pairs[i].1 == self {
                assert(sibling_pairs()[i as int].1 == self);
                return true;
            }
            i = i + 1;
        }
        false
    }

    /// Whether the kind opens a pair of siblings.
    pub fn is_opening_sibling(self) -> (r: bool)
        ensures
            r == exists|i: int| 0 <= i < sibling_pairs().len() && (#[trigger] sibling_pairs()[i]).0 == self,
    {
        let pairs = siblings();
        let mut i: usize = 0;
        while i < pairs.len()
            invariant
                pairs@ == sibling_pairs(),
                i <= pairs.len(),
                forall|j: int| 0 <= j < i ==> (#[trigger] pairs@[j]).0 != self,
            decreases pairs.len() - i,
        {
            if pairs[i].0 == self {
                assert(sibling_pairs()[i as int].0 == self);
                return true;
            }
            i = i + 1;
        }
        false
    }

    /// The partner of this kind in the first pair where it stands on the side
    /// `opening` says (the opening side when true).
    fn find_sibling(self, opening: bool) -> (r: Option<SyntaxKind>)
        ensures
            match r {
                Some(k) => exists|i: int| 0 <= i < sibling_pairs().len()
                    && (if opening { (#[trigger] sibling_pairs()[i]).0 == self && sibling_pairs()[i].1 == k }
                        else { sibling_pairs()[i].1 == self && sibling_pairs()[i].0 == k })
                    && forall|j: int| 0 <= j < i ==>
                        (if opening { (#[trigger] sibling_pairs()[j]).0 != self } else { sibling_pairs()[j].1 != self }),
                None => forall|j: int| 0 <= j < sibling_pairs().len() ==>
                    (if opening { (#[trigger] sibling_pairs()[j]).0 != self } else { sibling_pairs()[j].1 != self }),
            },
    {
        let pairs = siblings();
        let mut i: usize = 0;
        while i < pairs.len()
            invariant
                pairs@ == sibling_pairs(),
                i <= pairs.len(),
                forall|j: int| 0 <= j < i ==>
                    (if opening { (#[trigger] pairs@[j]).0 != self } else { pairs@[j].1 != self }),
            decreases pairs.len() - i,
        {
            if opening && pairs[i].0 == self {
                return Some(pairs[i].1);
            }
            if !opening && pairs[i].1 == self {
                return Some(pairs[i].0);
            }
            i = i + 1;
        }
        None
    }

    /// The kind that closes the pair this kind opens.
    ///
    /// Panics in Rust if the kind opens no pair; `requires` leaves that out.
    pub fn get_closing_sibling(self) -> (r: SyntaxKind)
        requires
            exists|i: int| 0 <= i < sibling_pairs().len() && (#[trigger] sibling_pairs()[i]).0 == self,
        ensures
            closes(self, r),
    {
        self.find_sibling(true).unwrap()
    }

    /// The kind that opens the pair this kind closes.
    ///
    /// Panics in Rust if the kind closes no pair; `requires` leaves that out.
    pub fn get_opening_sibling(self) -> (r: SyntaxKind)
        requires
            exists|i: int| 0 <= i < sibling_pairs().len() && (#[trigger] sibling_pairs()[i]).1 == self,
        ensures
            opens(self, r),
    {
        self.find_sibling(false).unwrap()
    }
}

} // verus!
