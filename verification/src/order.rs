//! Comparing non-negative floats through plain values.
use vstd::prelude::*;

verus! {

/// Where a non-negative float stands in the order of floats.
///
/// `Ordered` carries the IEEE-754 bit pattern of a non-negative float
/// (`+0.0` up to `+inf`): as unsigned integers these patterns are ordered as
/// the floats are. `Unordered` stands for NaN, which compares as neither
/// smaller nor greater than anything, nor equal to anything.
#[derive(Clone, Copy, Debug, PartialEq, Eq)]
pub enum OrderKey {
    Ordered(u32),
    Unordered,
}

/// `a <= b` as floats compare.
pub open spec fn key_le(a: OrderKey, b: OrderKey) -> bool {
    match (a, b) {
        (OrderKey::Ordered(x), OrderKey::Ordered(y)) => x <= y,
        _ => false,
    }
}

/// Keys of ordered floats compare as their bit patterns do as unsigned
/// integers, which is the order of the non-negative floats they stand for;
/// a NaN key is neither below nor above anything.
pub proof fn lemma_key_le_is_bit_order(x: u32, y: u32, k: OrderKey)
    ensures
        key_le(OrderKey::Ordered(x), OrderKey::Ordered(y)) == (x <= y),
        key_le(OrderKey::Ordered(x), OrderKey::Ordered(y)) || key_le(OrderKey::Ordered(y), OrderKey::Ordered(x)),
        key_le(OrderKey::Ordered(x), OrderKey::Ordered(y)) && key_le(OrderKey::Ordered(y), OrderKey::Ordered(x)) ==> x == y,
        !key_le(OrderKey::Unordered, k),
        !key_le(k, OrderKey::Unordered),
{
}

/// `a <= b` as floats compare: false when either is NaN.
pub fn le(a: OrderKey, b: OrderKey) -> (r: bool)
    ensures
        r == key_le(a, b),
        match (a, b) {
            (OrderKey::Ordered(x), OrderKey::Ordered(y)) => r == (x <= y),
            _ => !r,
        },
{
    match (a, b) {
        (OrderKey::Ordered(x), OrderKey::Ordered(y)) => x <= y,
        _ => false,
    }
}

} // verus!
