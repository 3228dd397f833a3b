//! The steps of a path, held in `syn`'s punctuated sequence.
//!
//! Verus cannot look into a `Punctuated`, so this module names what one
//! holds, the steps in order and whether a comma stands behind the last of
//! them, and gives the methods that the library calls a contract over those
//! two names.

use vstd::prelude::*;
use syn::punctuated::Punctuated;
use syn::token::Comma;
use crate::accumulator::{AmassVariant, AmassVariantView};

verus! {

/// `syn::punctuated::Punctuated`, taken as it is.
#[verifier::external_type_specification]
#[verifier::external_body]
#[verifier::reject_recursive_types(T)]
#[verifier::reject_recursive_types(P)]
pub struct ExPunctuated<T, P>(Punctuated<T, P>);

/// `syn::token::Comma`, taken as it is.
#[verifier::external_type_specification]
#[verifier::external_body]
pub struct ExComma(Comma);

/// The steps that a sequence holds, in order.
pub uninterp spec fn steps_of(steps: Punctuated<AmassVariant, Comma>) -> Seq<AmassVariantView>;

/// Whether a comma stands behind the last step of a sequence.
pub uninterp spec fn trailing_of(steps: Punctuated<AmassVariant, Comma>) -> bool;

/// `Punctuated::new`: no step, no comma.
#[verifier::external_body]
pub(crate) fn steps_new() -> (r: Punctuated<AmassVariant, Comma>)
    ensures
        steps_of(r) == Seq::<AmassVariantView>::empty(),
        !trailing_of(r),
{
    Punctuated::new()
}

/// `Punctuated::len`: the number of steps.
#[verifier::external_body]
pub(crate) fn steps_len(steps: &Punctuated<AmassVariant, Comma>) -> (r: usize)
    ensures
        r == steps_of(*steps).len(),
{
    steps.len()
}

/// `Punctuated::trailing_punct`: whether a comma stands behind the last step.
#[verifier::external_body]
pub(crate) fn steps_trailing(steps: &Punctuated<AmassVariant, Comma>) -> (r: bool)
    ensures
        r == trailing_of(*steps),
{
    steps.trailing_punct()
}

/// `Punctuated::index`: the step at a place. It panics on a place that the
/// sequence does not have.
#[verifier::external_body]
pub(crate) fn steps_get(steps: &Punctuated<AmassVariant, Comma>, i: usize) -> (r: &AmassVariant)
    requires
        i < steps_of(*steps).len(),
    ensures
        r@ == steps_of(*steps)[i as int],
{
    &steps[i]
}

/// `Punctuated::push`: the step becomes the last one, behind a comma where
/// the sequence held steps without one at the end; no comma follows it.
#[verifier::external_body]
pub(crate) fn steps_push(steps: &mut Punctuated<AmassVariant, Comma>, step: AmassVariant)
    ensures
        steps_of(*final(steps)) == steps_of(*old(steps)).push(step@),
        !trailing_of(*final(steps)),
{
    steps.push(step);
}

/// `Punctuated::pop`: the last step leaves, with the comma behind it if
/// there was one. What stays ends in a comma, unless nothing stays.
#[verifier::external_body]
pub(crate) fn steps_pop(steps: &mut Punctuated<AmassVariant, Comma>)
    requires
        steps_of(*old(steps)).len() > 0,
    ensures
        steps_of(*final(steps)) == steps_of(*old(steps)).drop_last(),
        trailing_of(*final(steps)) == (steps_of(*old(steps)).len() > 1),
{
    let _ = steps.pop();
}

/// `Punctuated::clone`: the copy holds the same steps and the same commas.
#[verifier::external_body]
pub(crate) fn steps_clone(steps: &Punctuated<AmassVariant, Comma>) -> (r: Punctuated<
    AmassVariant,
    Comma,
>)
    ensures
        steps_of(r) == steps_of(*steps),
        trailing_of(r) == trailing_of(*steps),
{
    steps.clone()
}

} // verus!
