//! Gathering the bounding boxes of a group's children.
//!
//! Two unions run side by side, one of layer boxes and one of object boxes.
//! Both start at the box that stands for "no content". A child that reports
//! boxes widens both; a child that reports none leaves both alone. At the end
//! the group has content only if both unions hold content.

use vstd::prelude::*;
use vstd::seq_lib::{commutative_foldl, lemma_fold_left_permutation};

verus! {

/// `union` can be called on every pair of boxes, and gives one box for each
/// pair.
pub open spec fn is_union<B, U: Fn(B, B) -> B>(union: U) -> bool {
    &&& forall|a: B, b: B| call_requires(union, (a, b))
    &&& forall|a: B, b: B, r1: B, r2: B|
        call_ensures(union, (a, b), r1) && call_ensures(union, (a, b), r2) ==> r1 == r2
}

/// `has_content` can be called on every box, and gives one answer for each
/// box.
pub open spec fn is_content_test<B, H: Fn(B) -> bool>(has_content: H) -> bool {
    &&& forall|a: B| call_requires(has_content, (a,))
    &&& forall|a: B, r1: bool, r2: bool|
        call_ensures(has_content, (a,), r1) && call_ensures(has_content, (a,), r2) ==> r1 == r2
}

/// The box that `union` gives for two boxes.
pub open spec fn united<B, U: Fn(B, B) -> B>(union: U, a: B, b: B) -> B {
    choose|r: B| call_ensures(union, (a, b), r)
}

/// The answer that `has_content` gives for a box.
pub open spec fn holds_content<B, H: Fn(B) -> bool>(has_content: H, bbox: B) -> bool {
    choose|r: bool| call_ensures(has_content, (bbox,), r)
}

/// The running unions `(layer, object)` after one more child.
pub open spec fn absorbed<B, U: Fn(B, B) -> B>(union: U, unions: (B, B), child: Option<(B, B)>) -> (
    B,
    B,
) {
    match child {
        Some((layer, object)) => (united(union, unions.0, layer), united(union, unions.1, object)),
        None => unions,
    }
}

/// The unions `(layer, object)` of what a list of children reported,
/// starting from `no_content`.
pub open spec fn accumulated<B, U: Fn(B, B) -> B>(
    union: U,
    no_content: B,
    reports: Seq<Option<(B, B)>>,
) -> (B, B) {
    reports.fold_left(
        (no_content, no_content),
        |unions: (B, B), child: Option<(B, B)>| absorbed(union, unions, child),
    )
}

/// The unions, if both hold content.
pub open spec fn with_content<B, H: Fn(B) -> bool>(has_content: H, unions: (B, B)) -> Option<(B, B)> {
    if holds_content(has_content, unions.0) && holds_content(has_content, unions.1) {
        Some(unions)
    } else {
        None
    }
}

/// Whether a union is exact: neither the order nor the grouping of its
/// arguments changes its result.
pub open spec fn union_is_exact<B, U: Fn(B, B) -> B>(union: U) -> bool {
    &&& forall|a: B, b: B| #[trigger] united(union, a, b) == united(union, b, a)
    &&& forall|a: B, b: B, c: B| #[trigger]
        united(union, united(union, a, b), c) == united(union, a, united(union, b, c))
}

/// One more report is absorbed into the unions of those before it.
pub proof fn lemma_accumulated_push<B, U: Fn(B, B) -> B>(
    union: U,
    no_content: B,
    reports: Seq<Option<(B, B)>>,
    child: Option<(B, B)>,
)
    ensures
        accumulated(union, no_content, reports.push(child)) == absorbed(
            union,
            accumulated(union, no_content, reports),
            child,
        ),
{
    assert(reports.push(child).drop_last() =~= reports);
}

/// A child that reports no boxes leaves the unions as they are, wherever it
/// stands among its siblings.
pub proof fn lemma_absent_report_changes_nothing<B, U: Fn(B, B) -> B>(
    union: U,
    no_content: B,
    front: Seq<Option<(B, B)>>,
    back: Seq<Option<(B, B)>>,
)
    ensures
        accumulated(union, no_content, front.push(None) + back) == accumulated(
            union,
            no_content,
            front + back,
        ),
    decreases back.len(),
{
    if back.len() == 0 {
        assert(front.push(None) + back =~= front.push(None));
        assert(front + back =~= front);
        lemma_accumulated_push(union, no_content, front, None);
    } else {
        lemma_absent_report_changes_nothing(union, no_content, front, back.drop_last());
        assert(front.push(None) + back =~= (front.push(None) + back.drop_last()).push(back.last()));
        assert(front + back =~= (front + back.drop_last()).push(back.last()));
        lemma_accumulated_push(union, no_content, front.push(None) + back.drop_last(), back.last());
        lemma_accumulated_push(union, no_content, front + back.drop_last(), back.last());
    }
}

/// With an exact union, the unions of a group do not depend on the order of
/// its children: two lists that hold the same reports, however arranged,
/// accumulate to the same boxes.
pub proof fn law_accumulation_ignores_order<B, U: Fn(B, B) -> B>(
    union: U,
    no_content: B,
    first: Seq<Option<(B, B)>>,
    second: Seq<Option<(B, B)>>,
)
    requires
        union_is_exact(union),
        first.to_multiset() == second.to_multiset(),
    ensures
        accumulated(union, no_content, first) == accumulated(union, no_content, second),
{
    let absorb = |unions: (B, B), child: Option<(B, B)>| absorbed(union, unions, child);
    assert(commutative_foldl(absorb)) by {
        assert forall|x: Option<(B, B)>, y: Option<(B, B)>, v: (B, B)| #[trigger]
            absorb(absorb(v, x), y) == absorb(absorb(v, y), x) by {
            if let Some((xl, xo)) = x {
                if let Some((yl, yo)) = y {
                    assert(united(union, united(union, v.0, xl), yl) == united(
                        union,
                        v.0,
                        united(union, xl, yl),
                    ));
                    assert(united(union, xl, yl) == united(union, yl, xl));
                    assert(united(union, united(union, v.0, yl), xl) == united(
                        union,
                        v.0,
                        united(union, yl, xl),
                    ));
                    assert(united(union, united(union, v.1, xo), yo) == united(
                        union,
                        v.1,
                        united(union, xo, yo),
                    ));
                    assert(united(union, xo, yo) == united(union, yo, xo));
                    assert(united(union, united(union, v.1, yo), xo) == united(
                        union,
                        v.1,
                        united(union, yo, xo),
                    ));
                }
            }
        }
    }
    lemma_fold_left_permutation(first, second, absorb, (no_content, no_content));
}

/// The two running unions of a group under conversion.
pub struct Accumulator<B> {
    pub layer: B,
    pub object: B,
}

impl<B: Copy> Accumulator<B> {
    /// The unions as a pair `(layer, object)`.
    pub open spec fn unions(&self) -> (B, B) {
        (self.layer, self.object)
    }

    /// Starts with both unions at `no_content`.
    pub fn new(no_content: B) -> (acc: Self)
        ensures
            acc.unions() == (no_content, no_content),
    {
        Accumulator { layer: no_content, object: no_content }
    }

    /// Takes in what one child reported.
    pub fn absorb<U: Fn(B, B) -> B>(&mut self, child: Option<(B, B)>, union: &U)
        requires
            is_union(*union),
        ensures
            final(self).unions() == absorbed(*union, old(self).unions(), child),
    {
        if let Some((layer, object)) = child {
            self.object = union(self.object, object);
            self.layer = union(self.layer, layer);
        }
    }

    /// The gathered boxes `(layer, object)`, or `None` if either union is still
    /// without content.
    pub fn finish<H: Fn(B) -> bool>(&self, has_content: &H) -> (r: Option<(B, B)>)
        requires
            is_content_test(*has_content),
        ensures
            r == with_content(*has_content, self.unions()),
    {
        if has_content(self.layer) && has_content(self.object) {
            Some((self.layer, self.object))
        } else {
            None
        }
    }
}

} // verus!
