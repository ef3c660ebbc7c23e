//! The smallest of a series of values: `best::BestSet`, seen through
//! contracts that are taken from its source and not proved here.

use vstd::prelude::*;

verus! {

#[verifier::external_type_specification]
#[verifier::external_body]
#[verifier::reject_recursive_types(T)]
pub struct ExBestSet<T>(best::BestSet<T>);

/// What a set holds: nothing, or one value.
pub uninterp spec fn best_held(b: best::BestSet<i32>) -> Seq<i32>;

/// What is held after `value` is offered to a set that keeps the least.
pub open spec fn least(held: Seq<i32>, value: i32) -> Seq<i32> {
    if held.len() > 0 && held[0] <= value {
        held
    } else {
        seq![value]
    }
}

/// Calls `best::BestSet::new`, which makes a set that holds nothing.
#[verifier::external_body]
pub(crate) fn best_new() -> (b: best::BestSet<i32>)
    ensures
        best_held(b) == Seq::<i32>::empty(),
{
    best::BestSet::new()
}

/// Calls `best::BestSet::insert_lt`, which takes the value if the set is
/// empty or the value is less than the one it holds, and else keeps what it
/// holds.
#[verifier::external_body]
pub(crate) fn best_insert_lt(b: &mut best::BestSet<i32>, value: i32)
    ensures
        best_held(*final(b)) == least(best_held(*old(b)), value),
{
    b.insert_lt(value)
}

/// Calls `best::BestSet::is_empty`, which tells whether the set holds
/// nothing.
#[verifier::external_body]
pub(crate) fn best_is_empty(b: &best::BestSet<i32>) -> (empty: bool)
    ensures
        empty == (best_held(*b).len() == 0),
{
    b.is_empty()
}

/// Calls `best::BestSet::into_value`, which gives up the value the set
/// holds, if it holds one.
#[verifier::external_body]
pub(crate) fn best_into_value(b: best::BestSet<i32>) -> (value: Option<i32>)
    ensures
        match value {
            Some(v) => best_held(b) == seq![v],
            None => best_held(b).len() == 0,
        },
{
    b.into_value()
}

} // verus!
