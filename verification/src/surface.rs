//! Which angles an arc of a circular surface spans.
use vstd::prelude::*;

use crate::order::{key_le, le, OrderKey};

verus! {

/// Whether `angle` lies on the arc that goes counter-clockwise from `start`
/// to `end`, ends included. All three are angles brought into `[0, 2π)`.
/// When `start` comes after `end`, the arc wraps through angle zero.
pub open spec fn on_arc(angle: OrderKey, start: OrderKey, end: OrderKey) -> bool {
    if key_le(start, end) {
        key_le(start, angle) && key_le(angle, end)
    } else {
        key_le(start, angle) || key_le(angle, end)
    }
}

/// Whether `angle` lies on the arc from `start` to `end` (see `on_arc`); the
/// three angles are normalized into `[0, 2π)` by the caller.
pub fn is_angle_on_arc(angle: OrderKey, start: OrderKey, end: OrderKey) -> (r: bool)
    ensures
        r == on_arc(angle, start, end),
        // in terms of the angles' bit patterns, whose order is that of the angles
        (angle, start, end) matches (OrderKey::Ordered(a), OrderKey::Ordered(s), OrderKey::Ordered(e))
            ==> (r == if s <= e {
            s <= a && a <= e
        } else {
            s <= a || a <= e
        }),
        angle is Unordered ==> !r,
        (angle, start, end) matches (OrderKey::Ordered(a), OrderKey::Unordered, OrderKey::Ordered(e))
            ==> (r == (a <= e)),
        (angle, start, end) matches (OrderKey::Ordered(a), OrderKey::Ordered(s), OrderKey::Unordered)
            ==> (r == (s <= a)),
        (angle, start, end) matches (OrderKey::Ordered(_), OrderKey::Unordered, OrderKey::Unordered)
            ==> !r,
{
    if le(start, end) {
        le(start, angle) && le(angle, end)
    } else {
        le(start, angle) || le(angle, end)
    }
}

/// An arc whose start comes before its end (counter-clockwise, not through
/// zero) holds exactly the angles between its ends; one whose start comes
/// after its end wraps through zero and holds exactly the angles from its
/// start up and from zero up to its end. Angles compare as their bit patterns.
pub proof fn lemma_arc_membership(a: u32, s: u32, e: u32)
    ensures
        s <= e ==> (on_arc(OrderKey::Ordered(a), OrderKey::Ordered(s), OrderKey::Ordered(e)) <==> s
            <= a && a <= e),
        e < s ==> (on_arc(OrderKey::Ordered(a), OrderKey::Ordered(s), OrderKey::Ordered(e)) <==> s
            <= a || a <= e),
{
}

/// When its ends differ, the arc from `start` to `end` and the arc from `end`
/// back to `start` together hold every (ordered) angle, and share no angle
/// but their ends.
pub proof fn lemma_arcs_cover_circle(angle: OrderKey, start: OrderKey, end: OrderKey)
    requires
        angle is Ordered,
        start is Ordered,
        end is Ordered,
        start != end,
    ensures
        on_arc(angle, start, end) || on_arc(angle, end, start),
        on_arc(angle, start, end) && on_arc(angle, end, start) ==> angle == start || angle == end,
{
}

/// An arc that starts where it ends holds that angle alone.
pub proof fn lemma_point_arc(angle: OrderKey, start: OrderKey)
    requires
        start is Ordered,
    ensures
        on_arc(angle, start, start) <==> angle == start,
{
}

/// A NaN angle lies on no arc.
pub proof fn lemma_unordered_angle_off_arc(start: OrderKey, end: OrderKey)
    ensures
        !on_arc(OrderKey::Unordered, start, end),
{
}

} // verus!
