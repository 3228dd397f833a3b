//! The expansion driver: for one composite type, what each variant
//! contributes, in the order of declaration.

use vstd::prelude::*;
use proc_macro2::TokenStream;
use crate::accumulator::{
    constructor_path, AmassCommon, AmassCommonView, AmassVariant, AmassVariantView,
};
use crate::action::VariantAction;
use crate::emitter::{AmassFrom, AmassFromView};
use crate::error::{Error, ErrorView};
use crate::options::Options;
use crate::syntax::{
    views, Path, PathView, ResolvedView, Type, TypeView, Variant, VariantView,
};
use crate::token::{tokens_of, ts_clone, Tok};

verus! {

/// A request to continue the expansion at another type, once that type is
/// fully known.
pub struct Deferred {
    /// The canonical path of the type to continue at.
    pub target: TokenStream,
    /// The path so far, the step into that type included.
    pub common: AmassCommon,
    /// The type's generic arguments, without brackets.
    pub arguments: TokenStream,
    /// Whether it is an error for the type not to be a known composite.
    pub required: bool,
}

/// One thing that an expansion produces.
pub enum Emission {
    /// A conversion function to generate.
    Conversion(AmassFrom),
    /// A continuation to schedule.
    Deferred(Deferred),
}

/// A continuation request as a mathematical value.
pub struct DeferredView {
    pub target: Seq<Tok>,
    pub common: AmassCommonView,
    pub arguments: Seq<Tok>,
    pub required: bool,
}

/// An emission as a mathematical value.
pub enum EmissionView {
    Conversion(AmassFromView),
    Deferred(DeferredView),
}

impl View for Deferred {
    type V = DeferredView;

    open spec fn view(&self) -> DeferredView {
        DeferredView {
            target: tokens_of(self.target),
            common: self.common@,
            arguments: tokens_of(self.arguments),
            required: self.required,
        }
    }
}

impl View for Emission {
    type V = EmissionView;

    open spec fn view(&self) -> EmissionView {
        match *self {
            Emission::Conversion(f) => EmissionView::Conversion(f@),
            Emission::Deferred(d) => EmissionView::Deferred(d@),
        }
    }
}

/// What a variant with one field of a resolved path type contributes under a
/// policy other than `Ignore`: the conversion from the wrapped type, and,
/// where the policy recurses, the request to continue at that type. Both
/// carry the path extended by the step into the variant.
pub open spec fn contribution(
    common: AmassCommonView,
    step: AmassVariantView,
    resolved: ResolvedView,
    action: VariantAction,
) -> Seq<EmissionView> {
    let path = common.push(step);
    let conversion = EmissionView::Conversion(
        AmassFromView { common: path, leaf_type: resolved.leaf_type() },
    );
    if action.recurses() {
        seq![
            conversion,
            EmissionView::Deferred(
                DeferredView {
                    target: resolved.macro_path,
                    common: path,
                    arguments: resolved.argument_list(),
                    required: action == VariantAction::Force,
                },
            ),
        ]
    } else {
        seq![conversion]
    }
}

/// What the variant at place `i` contributes under the policy `action`. A
/// variant without exactly one field, or whose field's type is no path, is
/// passed over unless it is under `Force`, which refuses it. A path type
/// without a canonical name ends the descent in silence under `Deep` only;
/// `Shallow` and `Force` need the name and refuse the variant.
pub open spec fn variant_plan_under(
    common: AmassCommonView,
    primary: PathView,
    variant: VariantView,
    action: VariantAction,
    i: int,
) -> Result<Seq<EmissionView>, ErrorView> {
    if variant.fields.len() != 1 {
        if action == VariantAction::Force {
            Err(ErrorView::NotSingleField(i as usize))
        } else {
            Ok(Seq::empty())
        }
    } else if action == VariantAction::Ignore {
        Ok(Seq::empty())
    } else {
        match variant.fields[0].ty {
            TypeView::Other(_) => if action == VariantAction::Force {
                Err(ErrorView::NonPathType(i as usize))
            } else {
                Ok(Seq::empty())
            },
            TypeView::Path(_, Err(reason)) => if action == VariantAction::Deep {
                Ok(Seq::empty())
            } else {
                Err(ErrorView::Unresolvable(i as usize, reason))
            },
            TypeView::Path(_, Ok(resolved)) => Ok(
                contribution(
                    common,
                    AmassVariantView {
                        path: constructor_path(primary, variant.ident),
                        named_field: variant.fields[0].ident,
                    },
                    resolved,
                    action,
                ),
            ),
        }
    }
}

/// What the variant at place `i` contributes: its policy is its own
/// override, else `default`, else `Deep`.
pub open spec fn variant_plan(
    common: AmassCommonView,
    default: Option<VariantAction>,
    primary: PathView,
    variant: VariantView,
    i: int,
) -> Result<Seq<EmissionView>, ErrorView> {
    match VariantAction::spec_from_attrs(variant.attrs) {
        Err(e) => Err(e),
        Ok(local) => variant_plan_under(
            common,
            primary,
            variant,
            VariantAction::spec_effective(local, default),
            i,
        ),
    }
}

/// What the first `n` variants contribute, in order; the first refusal
/// refuses the whole.
pub open spec fn plan_prefix(
    common: AmassCommonView,
    default: Option<VariantAction>,
    primary: PathView,
    variants: Seq<VariantView>,
    n: nat,
) -> Result<Seq<EmissionView>, ErrorView>
    decreases n,
{
    if n == 0 {
        Ok(Seq::empty())
    } else {
        let i = (n - 1) as nat;
        match plan_prefix(common, default, primary, variants, i) {
            Err(e) => Err(e),
            Ok(done) => match variant_plan(common, default, primary, variants[i as int], i as int) {
                Err(e) => Err(e),
                Ok(more) => Ok(done + more),
            },
        }
    }
}

/// What an enum's variants contribute, in order.
pub open spec fn plan(
    common: AmassCommonView,
    default: Option<VariantAction>,
    primary: PathView,
    variants: Seq<VariantView>,
) -> Result<Seq<EmissionView>, ErrorView> {
    plan_prefix(common, default, primary, variants, variants.len())
}

/// A refusal stays: what is refused after `n` variants is refused after any
/// more.
pub proof fn plan_refusal_stays(
    common: AmassCommonView,
    default: Option<VariantAction>,
    primary: PathView,
    variants: Seq<VariantView>,
    n: nat,
    m: nat,
)
    requires
        n <= m,
        plan_prefix(common, default, primary, variants, n) is Err,
    ensures
        plan_prefix(common, default, primary, variants, m) == plan_prefix(
            common,
            default,
            primary,
            variants,
            n,
        ),
    decreases m,
{
    if n < m {
        plan_refusal_stays(common, default, primary, variants, n, (m - 1) as nat);
    }
}

/// What the driver makes of a variant depends on the path alone, not on a
/// comma behind the path's last step.
pub proof fn variant_plan_reads_the_path(
    a: AmassCommonView,
    b: AmassCommonView,
    default: Option<VariantAction>,
    primary: PathView,
    variant: VariantView,
    i: int,
)
    requires
        a.same_path(b),
    ensures
        variant_plan(a, default, primary, variant, i) == variant_plan(
            b,
            default,
            primary,
            variant,
            i,
        ),
{
    if variant.fields.len() == 1 {
        let step = AmassVariantView {
            path: constructor_path(primary, variant.ident),
            named_field: variant.fields[0].ident,
        };
        assert(a.push(step) == b.push(step));
    }
}

/// Processes one variant, the one at place `i` of its enum: the step into it
/// is pushed on `common`, the variant's emissions are made from the extended
/// path, and the step is popped again. The accumulator leaves with the path
/// it came with, whatever the outcome.
pub fn expand_variant(
    common: &mut AmassCommon,
    default: Option<VariantAction>,
    primary: &Path,
    variant: &Variant,
    i: usize,
) -> (r: Result<Vec<Emission>, Error>)
    ensures
        final(common)@.restored(old(common)@),
        match r {
            Ok(emissions) => variant_plan(old(common)@, default, primary@, variant@, i as int)
                == Ok::<Seq<EmissionView>, ErrorView>(views(emissions@)),
            Err(e) => variant_plan(old(common)@, default, primary@, variant@, i as int) == Err::<
                Seq<EmissionView>,
                ErrorView,
            >(e@),
        },
{
    let local = match VariantAction::from_attrs(variant.attrs.as_slice()) {
        Ok(local) => local,
        Err(e) => {
            return Err(e);
        },
    };
    let action = VariantAction::effective(local, default);
    let mut emissions: Vec<Emission> = Vec::new();
    proof {
        assert(views(emissions@) =~= Seq::<EmissionView>::empty());
        assert(variant@.fields.len() == variant.fields@.len());
    }
    if variant.fields.len() != 1 {
        if action == VariantAction::Force {
            return Err(Error::NotSingleField(i));
        }
        return Ok(emissions);
    }
    if action == VariantAction::Ignore {
        return Ok(emissions);
    }
    let field = &variant.fields[0];
    proof {
        assert(variant@.fields[0] == field@);
    }
    let resolved = match &field.ty {
        Type::Other(_) => {
            if action == VariantAction::Force {
                return Err(Error::NonPathType(i));
            }
            return Ok(emissions);
        },
        Type::Path(_, Err(reason)) => {
            if action == VariantAction::Deep {
                return Ok(emissions);
            }
            return Err(Error::Unresolvable(i, reason.clone()));
        },
        Type::Path(_, Ok(resolved)) => resolved,
    };
    let step = match AmassVariant::from_field(primary, variant, field) {
        Some(step) => step,
        None => {
            return Ok(emissions);
        },
    };
    let ghost step_view = step@;
    common.push_variant(step);
    emissions.push(
        Emission::Conversion(AmassFrom { common: common.clone(), leaf_type: resolved.leaf_type() }),
    );
    if action == VariantAction::Deep || action == VariantAction::Force {
        emissions.push(
            Emission::Deferred(
                Deferred {
                    target: ts_clone(&resolved.macro_path),
                    common: common.clone(),
                    arguments: resolved.argument_list(),
                    required: action == VariantAction::Force,
                },
            ),
        );
    }
    common.pop_variant();
    proof {
        assert(common@.variants =~= old(common)@.variants);
        assert(views(emissions@) =~= contribution(old(common)@, step_view, resolved@, action));
    }
    Ok(emissions)
}

/// Runs the driver over an enum's variants in the order of declaration. The
/// first variant that is refused refuses the whole invocation; the
/// accumulator leaves with the path it came with, whatever the outcome.
pub fn expand(
    common: &mut AmassCommon,
    options: &Options,
    primary: &Path,
    variants: &[Variant],
) -> (r: Result<Vec<Emission>, Error>)
    ensures
        final(common)@.restored(old(common)@),
        match r {
            Ok(emissions) => plan(old(common)@, options.default, primary@, views(variants@))
                == Ok::<Seq<EmissionView>, ErrorView>(views(emissions@)),
            Err(e) => plan(old(common)@, options.default, primary@, views(variants@)) == Err::<
                Seq<EmissionView>,
                ErrorView,
            >(e@),
        },
{
    let ghost all = views(variants@);
    let ghost start = common@;
    let mut emissions: Vec<Emission> = Vec::new();
    let mut i: usize = 0;
    proof {
        assert(views(emissions@) =~= Seq::<EmissionView>::empty());
    }
    while i < variants.len()
        invariant
            i <= variants.len(),
            all == views(variants@),
            start == old(common)@,
            common@.restored(start),
            plan_prefix(start, options.default, primary@, all, i as nat) == Ok::<
                Seq<EmissionView>,
                ErrorView,
            >(views(emissions@)),
        decreases variants.len() - i,
    {
        proof {
            assert(all[i as int] == variants@[i as int]@);
        }
        let ghost before = views(emissions@);
        proof {
            variant_plan_reads_the_path(
                common@,
                start,
                options.default,
                primary@,
                all[i as int],
                i as int,
            );
        }
        match expand_variant(common, options.default, primary, &variants[i], i) {
            Err(e) => {
                proof {
                    plan_refusal_stays(
                        start,
                        options.default,
                        primary@,
                        all,
                        (i + 1) as nat,
                        variants.len() as nat,
                    );
                }
                return Err(e);
            },
            Ok(mut more) => {
                let ghost added = views(more@);
                emissions.append(&mut more);
                proof {
                    assert(views(emissions@) =~= before + added);
                }
            },
        }
        i += 1;
    }
    Ok(emissions)
}

} // verus!
