//! A whole tree of composite types, and what its expansion generates in the
//! end: the driver's emissions, with every continuation followed into the
//! composite that stands behind it.

use vstd::prelude::*;
use crate::accumulator::AmassCommonView;
use crate::action::VariantAction;
use crate::driver::{plan, variant_plan, EmissionView};
use crate::emitter::AmassFromView;
use crate::error::ErrorView;
use crate::syntax::{PathView, VariantView};

verus! {

/// A composite type with what stands behind its variants.
pub struct Composite {
    /// The default policy of the type's configuration.
    pub default: Option<VariantAction>,
    /// The canonical path of the type.
    pub primary: PathView,
    /// The type's variants, in the order of declaration.
    pub variants: Seq<VariantView>,
    /// For each variant, the composite that its wrapped type is, where that
    /// type is a known composite.
    pub children: Seq<Option<Composite>>,
}

impl Composite {
    /// The composite behind the variant at place `i`, if there is one.
    pub open spec fn child(self, i: int) -> Option<Composite> {
        if 0 <= i < self.children.len() {
            self.children[i]
        } else {
            None
        }
    }

    /// The policy in force for the variant at place `i`, where its
    /// attributes are accepted.
    pub open spec fn action(self, i: int) -> Option<VariantAction> {
        match VariantAction::spec_from_attrs(self.variants[i].attrs) {
            Ok(local) => Some(VariantAction::spec_effective(local, self.default)),
            Err(_) => None,
        }
    }

    /// What the driver makes of the variant at place `i` on the path `common`.
    pub open spec fn variant_plan(self, common: AmassCommonView, i: int) -> Result<
        Seq<EmissionView>,
        ErrorView,
    > {
        variant_plan(common, self.default, self.primary, self.variants[i], i)
    }

    /// What the driver makes of the whole type on the path `common`.
    pub open spec fn plan(self, common: AmassCommonView) -> Result<Seq<EmissionView>, ErrorView> {
        plan(common, self.default, self.primary, self.variants)
    }
}

/// The conversions that the expansion of `c`, entered on the path `common`,
/// generates in the end. An invocation that is refused generates nothing.
pub open spec fn conversions(c: Composite, common: AmassCommonView) -> Seq<AmassFromView>
    decreases c, 3nat, 0nat,
{
    if c.plan(common) is Err {
        Seq::empty()
    } else {
        conversions_upto(c, common, c.variants.len())
    }
}

/// The conversions that come of the first `n` variants of `c`.
pub open spec fn conversions_upto(c: Composite, common: AmassCommonView, n: nat) -> Seq<
    AmassFromView,
>
    decreases c, 2nat, n,
{
    if n == 0 {
        Seq::empty()
    } else {
        conversions_upto(c, common, (n - 1) as nat) + variant_conversions(c, common, n - 1)
    }
}

/// The conversions that come of the variant at place `i` of `c`: those that
/// the driver emits for it, and those of the composite behind it where the
/// driver asks to continue there.
pub open spec fn variant_conversions(c: Composite, common: AmassCommonView, i: int) -> Seq<
    AmassFromView,
>
    decreases c, 1nat, 0nat,
{
    match c.variant_plan(common, i) {
        Err(_) => Seq::empty(),
        Ok(emissions) => (if emissions.len() >= 1 {
            follow(c, i, emissions[0])
        } else {
            Seq::empty()
        }) + (if emissions.len() >= 2 {
            follow(c, i, emissions[1])
        } else {
            Seq::empty()
        }),
    }
}

/// What comes of one emission for the variant at place `i` of `c`: the
/// conversion itself, or, for a continuation, the conversions of the
/// composite behind the variant, entered on the continuation's path. A
/// continuation at a type that is no known composite generates nothing.
pub open spec fn follow(c: Composite, i: int, e: EmissionView) -> Seq<AmassFromView>
    decreases c, 0nat, 0nat,
{
    match e {
        EmissionView::Conversion(f) => seq![f],
        EmissionView::Deferred(d) => if 0 <= i < c.children.len() {
            match c.children[i] {
                Some(child) => conversions(child, d.common),
                None => Seq::empty(),
            }
        } else {
            Seq::empty()
        },
    }
}

/// Whether the expansion of `c`, entered on the path `common`, ends in a
/// diagnostic: an invocation is refused, or a continuation that is required
/// finds no known composite.
pub open spec fn complains(c: Composite, common: AmassCommonView) -> bool
    decreases c, 3nat, 0nat,
{
    c.plan(common) is Err || complains_upto(c, common, c.variants.len())
}

/// Whether what comes of one of the first `n` variants of `c` ends in a
/// diagnostic.
pub open spec fn complains_upto(c: Composite, common: AmassCommonView, n: nat) -> bool
    decreases c, 2nat, n,
{
    n > 0 && (complains_upto(c, common, (n - 1) as nat) || variant_complains(c, common, n - 1))
}

/// Whether what comes of the variant at place `i` of `c` ends in a diagnostic.
pub open spec fn variant_complains(c: Composite, common: AmassCommonView, i: int) -> bool
    decreases c, 1nat, 0nat,
{
    match c.variant_plan(common, i) {
        Err(_) => true,
        Ok(emissions) => emissions.len() >= 2 && (match emissions[1] {
            EmissionView::Deferred(d) => if 0 <= i < c.children.len() {
                match c.children[i] {
                    Some(child) => complains(child, d.common),
                    None => d.required,
                }
            } else {
                d.required
            },
            EmissionView::Conversion(_) => false,
        }),
    }
}

} // verus!
