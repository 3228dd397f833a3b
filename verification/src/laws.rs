//! What holds of every expansion.

use vstd::prelude::*;
use crate::accumulator::{constructor_path, AmassCommonView, AmassVariantView};
use crate::action::VariantAction;
use crate::driver::{
    contribution, plan_prefix, variant_plan, variant_plan_under, DeferredView, EmissionView,
};
use crate::entry::{
    continuation_args, emission_tokens, invocation, needle, private_telety_path, ItemEnumView,
};
use crate::outside::{syn_path, telety_invocation};
use crate::emitter::{conversion, render, substitute, wrap, AmassFromView, Conversion};
use crate::error::ErrorView;
use crate::syntax::{PathView, ResolvedView, TypeView, VariantView};
use crate::token::{ident, Delim, Tok};
use crate::tree::{
    complains, complains_upto, conversions, conversions_upto, follow, variant_complains, variant_conversions,
    Composite,
};

verus! {

/// The step into a variant of the type at `primary`.
pub open spec fn step_into(primary: PathView, variant: VariantView) -> AmassVariantView {
    AmassVariantView {
        path: constructor_path(primary, variant.ident),
        named_field: variant.fields[0].ident,
    }
}

/// Whether a variant has exactly one field, of a path type with the
/// canonical name `resolved`.
pub open spec fn wraps(variant: VariantView, resolved: ResolvedView) -> bool {
    variant.fields.len() == 1 && (variant.fields[0].ty matches TypeView::Path(_, Ok(r)) && r
        == resolved)
}

/// The expression for a path of several parts is the expression for the
/// first part with that for the rest in place of the value: conversions
/// compose along the path.
pub proof fn conversion_composes(outer: Seq<AmassVariantView>, inner: Seq<AmassVariantView>)
    ensures
        conversion(outer + inner) == substitute(conversion(outer), conversion(inner)),
    decreases outer.len(),
{
    if outer.len() == 0 {
        assert(outer + inner =~= inner);
    } else {
        conversion_composes(outer.skip(1), inner);
        assert((outer + inner).skip(1) =~= outer.skip(1) + inner);
        assert((outer + inner)[0] == outer[0]);
    }
}

/// Single level: a tuple variant at the root, under a policy other than
/// `Ignore`, yields first of all the conversion from the wrapped type to the
/// root, and that conversion returns the variant's constructor applied to the
/// value.
pub proof fn single_level(
    root: AmassCommonView,
    primary: PathView,
    variant: VariantView,
    resolved: ResolvedView,
    action: VariantAction,
    i: int,
)
    requires
        root.variants.len() == 0,
        wraps(variant, resolved),
        variant.fields[0].ident is None,
        action != VariantAction::Ignore,
    ensures
        variant_plan_under(root, primary, variant, action, i) matches Ok(emissions)
            && emissions.len() >= 1 && (emissions[0] matches EmissionView::Conversion(f)
            && f.leaf_type == resolved.leaf_type() && f.common.root_type == root.root_type
            && f.common.parameters == root.parameters && conversion(f.common.variants)
            == Conversion::Tuple(
            constructor_path(primary, variant.ident),
            Box::new(Conversion::Value),
        ) && render(conversion(f.common.variants)) == constructor_path(primary, variant.ident)
            + seq![Tok::Group(Delim::Paren, seq![ident("value"@)])]),
{
    let step = step_into(primary, variant);
    let steps = root.push(step).variants;
    assert(steps =~= seq![step]);
    assert(steps.skip(1) =~= Seq::<AmassVariantView>::empty());
    assert(conversion(steps.skip(1)) == Conversion::Value);
    assert(conversion(steps) == wrap(step, Conversion::Value));
    assert(step.named_field is None);
    let tuple = Conversion::Tuple(step.path, Box::new(Conversion::Value));
    assert(conversion(steps) == tuple);
    assert(render(tuple) == step.path + seq![Tok::Group(Delim::Paren, render(Conversion::Value))])
        by {
        reveal_with_fuel(render, 2);
    }
    assert(render(Conversion::Value) == seq![ident("value"@)]);
}

/// Every emission for a variant carries the path on which the driver was
/// entered with exactly one step more, the step into that variant: the path
/// always is the chain of variants from the root down to the one in hand.
pub proof fn emissions_extend_the_path(
    common: AmassCommonView,
    primary: PathView,
    variant: VariantView,
    action: VariantAction,
    i: int,
)
    ensures
        variant_plan_under(common, primary, variant, action, i) matches Ok(emissions) ==> forall|
            k: int,
        |
            0 <= k < emissions.len() ==> (match #[trigger] emissions[k] {
                EmissionView::Conversion(f) => f.common == common.push(step_into(primary, variant)),
                EmissionView::Deferred(d) => d.common == common.push(
                    step_into(primary, variant),
                ),
            }),
{
}

/// `Ignore` suppresses a variant and all that is beneath it: no conversion
/// comes of the variant, whatever composite stands behind it, and no
/// diagnostic either.
pub proof fn ignore_suppresses_descendants(c: Composite, common: AmassCommonView, i: int)
    requires
        c.action(i) == Some(VariantAction::Ignore),
    ensures
        c.variant_plan(common, i) == Ok::<Seq<EmissionView>, ErrorView>(Seq::empty()),
        variant_conversions(c, common, i) == Seq::<AmassFromView>::empty(),
        !variant_complains(c, common, i),
{
    assert(variant_conversions(c, common, i) =~= Seq::<AmassFromView>::empty());
}

/// `Shallow` truncates at one level: exactly one conversion comes of the
/// variant, the one from the wrapped type to the root, whatever composite
/// stands behind the variant.
pub proof fn shallow_truncates(
    c: Composite,
    common: AmassCommonView,
    i: int,
    resolved: ResolvedView,
)
    requires
        c.action(i) == Some(VariantAction::Shallow),
        wraps(c.variants[i], resolved),
    ensures
        variant_conversions(c, common, i) == seq![
            AmassFromView {
                common: common.push(step_into(c.primary, c.variants[i])),
                leaf_type: resolved.leaf_type(),
            },
        ],
        !variant_complains(c, common, i),
{
    let step = step_into(c.primary, c.variants[i]);
    let emissions = contribution(common, step, resolved, VariantAction::Shallow);
    assert(c.variant_plan(common, i) == Ok::<Seq<EmissionView>, ErrorView>(emissions));
    assert(emissions.len() == 1);
    assert(variant_conversions(c, common, i) =~= follow(c, i, emissions[0]));
}

/// `Force` never skips in silence: a variant under `Force` is either
/// expanded into a known composite, or a diagnostic comes of it. The driver
/// refuses a variant that has not exactly one field, whose field's type is no
/// path, or whose field's type has no canonical name; and it marks the
/// continuation as required, so that a type that is no known composite is
/// answered with an error.
pub proof fn force_never_skips(c: Composite, common: AmassCommonView, i: int)
    requires
        c.action(i) == Some(VariantAction::Force),
    ensures
        c.variant_plan(common, i) matches Ok(emissions) ==> emissions.len() == 2 && (
        emissions[1] matches EmissionView::Deferred(d) && d.required),
        c.child(i) is None ==> variant_complains(c, common, i),
        !(exists|resolved: ResolvedView| wraps(c.variants[i], resolved)) ==> c.variant_plan(
            common,
            i,
        ) is Err,
{
    let variant = c.variants[i];
    if variant.fields.len() == 1 {
        match variant.fields[0].ty {
            TypeView::Path(_, Ok(resolved)) => {
                assert(wraps(variant, resolved));
            },
            _ => {},
        }
    }
}

/// A variant under `Force` whose wrapped type is no known composite makes the
/// whole expansion end in a diagnostic.
pub proof fn force_at_unknown_complains(c: Composite, common: AmassCommonView, i: int)
    requires
        0 <= i < c.variants.len(),
        c.action(i) == Some(VariantAction::Force),
        c.child(i) is None,
    ensures
        complains(c, common),
{
    force_never_skips(c, common, i);
    complaint_stays(c, common, (i + 1) as nat, c.variants.len());
}

/// A diagnostic stays: what ends in one after `n` variants ends in one after
/// any more.
pub proof fn complaint_stays(c: Composite, common: AmassCommonView, n: nat, m: nat)
    requires
        n <= m,
        complains_upto(c, common, n),
    ensures
        complains_upto(c, common, m),
    decreases m,
{
    if n < m {
        complaint_stays(c, common, n, (m - 1) as nat);
    }
}

/// `Deep` stops in silence where the wrapped type is no known composite: the
/// conversion from the wrapped type is all that comes of the variant, and no
/// diagnostic.
pub proof fn deep_stops_at_unknown(
    c: Composite,
    common: AmassCommonView,
    i: int,
    resolved: ResolvedView,
)
    requires
        c.action(i) == Some(VariantAction::Deep),
        wraps(c.variants[i], resolved),
        c.child(i) is None,
    ensures
        variant_conversions(c, common, i) == seq![
            AmassFromView {
                common: common.push(step_into(c.primary, c.variants[i])),
                leaf_type: resolved.leaf_type(),
            },
        ],
        !variant_complains(c, common, i),
{
    let step = step_into(c.primary, c.variants[i]);
    let emissions = contribution(common, step, resolved, VariantAction::Deep);
    assert(c.variant_plan(common, i) == Ok::<Seq<EmissionView>, ErrorView>(emissions));
    assert(emissions.len() == 2);
    assert(follow(c, i, emissions[1]) =~= Seq::<AmassFromView>::empty());
    assert(variant_conversions(c, common, i) =~= follow(c, i, emissions[0]));
}

/// The canonical name of the type that a variant wraps, where the variant
/// has exactly one field and that field's type is a resolved path type.
pub open spec fn wrapped(variant: VariantView) -> Option<ResolvedView> {
    if variant.fields.len() == 1 {
        match variant.fields[0].ty {
            TypeView::Path(_, Ok(r)) => Some(r),
            _ => None,
        }
    } else {
        None
    }
}

/// Whether a variant has exactly one field, of a path type that has no
/// canonical name.
pub open spec fn unresolved(variant: VariantView) -> bool {
    variant.fields.len() == 1 && variant.fields[0].ty matches TypeView::Path(_, Err(_))
}

/// Whether the driver refuses the variant at place `i` of `c`: its
/// attributes are refused, or it is under `Force` and wraps no resolved
/// type, or it is under `Shallow` and its one field's type has no canonical
/// name.
pub open spec fn refused(c: Composite, i: int) -> bool {
    match c.action(i) {
        None => true,
        Some(a) => (a == VariantAction::Force && wrapped(c.variants[i]) is None) || (a
            == VariantAction::Shallow && unresolved(c.variants[i])),
    }
}

/// Whether the driver refuses one of the first `n` variants of `c`.
pub open spec fn any_refused(c: Composite, n: nat) -> bool
    decreases n,
{
    n > 0 && (any_refused(c, (n - 1) as nat) || refused(c, n - 1))
}

/// The types that the tree under `c` wraps, in the order in which the
/// expansion meets them: of each variant that is not ignored, the wrapped
/// type, and, where the policy recurses and a composite stands behind the
/// variant, the types that this composite wraps in turn. A composite that the
/// driver refuses counts for nothing.
pub open spec fn wrapped_types(c: Composite) -> Seq<Seq<Tok>>
    decreases c, 3nat, 0nat,
{
    if any_refused(c, c.variants.len()) {
        Seq::empty()
    } else {
        wrapped_upto(c, c.variants.len())
    }
}

/// The types that the first `n` variants of `c` wrap, with what is beneath.
pub open spec fn wrapped_upto(c: Composite, n: nat) -> Seq<Seq<Tok>>
    decreases c, 2nat, n,
{
    if n == 0 {
        Seq::empty()
    } else {
        wrapped_upto(c, (n - 1) as nat) + variant_wrapped(c, n - 1)
    }
}

/// The type that the variant at place `i` of `c` wraps, with what is beneath.
pub open spec fn variant_wrapped(c: Composite, i: int) -> Seq<Seq<Tok>>
    decreases c, 1nat, 0nat,
{
    match (c.action(i), wrapped(c.variants[i])) {
        (Some(a), Some(r)) => if a == VariantAction::Ignore {
            Seq::empty()
        } else {
            seq![r.leaf_type()] + (if a.recurses() && 0 <= i < c.children.len() {
                match c.children[i] {
                    Some(child) => wrapped_types(child),
                    None => Seq::empty(),
                }
            } else {
                Seq::empty()
            })
        },
        _ => Seq::empty(),
    }
}

/// The leaf types of conversions, in order.
pub open spec fn leaf_types(s: Seq<AmassFromView>) -> Seq<Seq<Tok>> {
    Seq::new(s.len(), |j: int| s[j].leaf_type)
}

/// The keys of conversions, in order: the root type and the leaf type.
pub open spec fn keys(s: Seq<AmassFromView>) -> Seq<(Seq<Tok>, Seq<Tok>)> {
    Seq::new(s.len(), |j: int| (s[j].common.root_type, s[j].leaf_type))
}

/// What the driver makes of a variant, case by case: a refused variant is an
/// error on every path; any other contributes nothing where it is ignored or
/// wraps no resolved type, and else the conversion and, under a policy that
/// recurses, the continuation.
pub proof fn variant_plan_cases(c: Composite, common: AmassCommonView, i: int)
    ensures
        refused(c, i) <==> c.variant_plan(common, i) is Err,
        !refused(c, i) ==> c.variant_plan(common, i) == Ok::<Seq<EmissionView>, ErrorView>(
            match (c.action(i), wrapped(c.variants[i])) {
                (Some(a), Some(r)) => if a == VariantAction::Ignore {
                    Seq::empty()
                } else {
                    contribution(common, step_into(c.primary, c.variants[i]), r, a)
                },
                _ => Seq::empty(),
            },
        ),
{
}

/// An invocation is refused exactly where one of the variants is.
pub proof fn plan_refused_iff(c: Composite, common: AmassCommonView, n: nat)
    ensures
        any_refused(c, n) <==> plan_prefix(common, c.default, c.primary, c.variants, n) is Err,
    decreases n,
{
    if n > 0 {
        plan_refused_iff(c, common, (n - 1) as nat);
        variant_plan_cases(c, common, n - 1);
    }
}

/// The conversions that come of a tree convert from the types that the tree
/// wraps, one conversion for each place at which a type is wrapped, in the
/// order of the expansion.
pub proof fn conversions_follow_the_tree(c: Composite, common: AmassCommonView)
    ensures
        leaf_types(conversions(c, common)) == wrapped_types(c),
    decreases c, 3nat, 0nat,
{
    plan_refused_iff(c, common, c.variants.len());
    if c.plan(common) is Err {
        assert(leaf_types(conversions(c, common)) =~= wrapped_types(c));
    } else {
        conversions_follow_upto(c, common, c.variants.len());
    }
}

/// The same of the first `n` variants.
pub proof fn conversions_follow_upto(c: Composite, common: AmassCommonView, n: nat)
    ensures
        leaf_types(conversions_upto(c, common, n)) == wrapped_upto(c, n),
    decreases c, 2nat, n,
{
    if n == 0 {
        assert(leaf_types(conversions_upto(c, common, n)) =~= wrapped_upto(c, n));
    } else {
        conversions_follow_upto(c, common, (n - 1) as nat);
        conversions_follow_variant(c, common, n - 1);
        assert(leaf_types(conversions_upto(c, common, n)) =~= leaf_types(
            conversions_upto(c, common, (n - 1) as nat),
        ) + leaf_types(variant_conversions(c, common, n - 1)));
    }
}

/// The same of one variant.
pub proof fn conversions_follow_variant(c: Composite, common: AmassCommonView, i: int)
    ensures
        leaf_types(variant_conversions(c, common, i)) == variant_wrapped(c, i),
    decreases c, 1nat, 0nat,
{
    variant_plan_cases(c, common, i);
    match c.variant_plan(common, i) {
        Err(_) => {
            assert(leaf_types(variant_conversions(c, common, i)) =~= variant_wrapped(c, i));
        },
        Ok(emissions) => {
            match (c.action(i), wrapped(c.variants[i])) {
                (Some(a), Some(r)) => {
                    if a == VariantAction::Ignore {
                        assert(leaf_types(variant_conversions(c, common, i)) =~= variant_wrapped(
                            c,
                            i,
                        ));
                    } else {
                        let path = common.push(step_into(c.primary, c.variants[i]));
                        if a.recurses() {
                            assert(emissions.len() == 2);
                            if 0 <= i < c.children.len() {
                                match c.children[i] {
                                    Some(child) => {
                                        conversions_follow_the_tree(child, path);
                                    },
                                    None => {},
                                }
                            }
                            assert(leaf_types(variant_conversions(c, common, i)) =~= leaf_types(
                                follow(c, i, emissions[0]),
                            ) + leaf_types(follow(c, i, emissions[1])));
                            assert(leaf_types(follow(c, i, emissions[0])) =~= seq![r.leaf_type()]);
                        } else {
                            assert(emissions.len() == 1);
                            assert(leaf_types(variant_conversions(c, common, i)) =~= seq![
                                r.leaf_type(),
                            ]);
                        }
                        assert(leaf_types(variant_conversions(c, common, i)) =~= variant_wrapped(
                            c,
                            i,
                        ));
                    }
                },
                _ => {
                    assert(leaf_types(variant_conversions(c, common, i)) =~= variant_wrapped(
                        c,
                        i,
                    ));
                },
            }
        },
    }
}

/// Whether every conversion of `s` converts to the root of `common`, under
/// the root's generic parameters.
pub open spec fn rooted(s: Seq<AmassFromView>, common: AmassCommonView) -> bool {
    forall|j: int|
        0 <= j < s.len() ==> (#[trigger] s[j]).common.root_type == common.root_type
            && s[j].common.parameters == common.parameters
}

/// Every conversion that comes of a tree converts to the root on whose path
/// the expansion was entered, under the root's generic parameters.
pub proof fn conversions_keep_the_root(c: Composite, common: AmassCommonView)
    ensures
        rooted(conversions(c, common), common),
    decreases c, 3nat, 0nat,
{
    if c.plan(common) is Ok {
        conversions_keep_the_root_upto(c, common, c.variants.len());
    }
}

/// The same of the first `n` variants.
pub proof fn conversions_keep_the_root_upto(c: Composite, common: AmassCommonView, n: nat)
    ensures
        rooted(conversions_upto(c, common, n), common),
    decreases c, 2nat, n,
{
    if n > 0 {
        conversions_keep_the_root_upto(c, common, (n - 1) as nat);
        conversions_keep_the_root_variant(c, common, n - 1);
        let before = conversions_upto(c, common, (n - 1) as nat);
        let added = variant_conversions(c, common, n - 1);
        let all = conversions_upto(c, common, n);
        assert(all == before + added);
        assert forall|j: int| 0 <= j < all.len() implies (#[trigger] all[j]).common.root_type
            == common.root_type && all[j].common.parameters == common.parameters by {
            if j < before.len() {
                assert(all[j] == before[j]);
            } else {
                assert(all[j] == added[j - before.len()]);
            }
        }
    }
}

/// The same of one variant.
pub proof fn conversions_keep_the_root_variant(c: Composite, common: AmassCommonView, i: int)
    ensures
        rooted(variant_conversions(c, common, i), common),
    decreases c, 1nat, 0nat,
{
    variant_plan_cases(c, common, i);
    let all = variant_conversions(c, common, i);
    match c.variant_plan(common, i) {
        Err(_) => {},
        Ok(emissions) => {
            match (c.action(i), wrapped(c.variants[i])) {
                (Some(a), Some(r)) => {
                    if a != VariantAction::Ignore {
                        let path = common.push(step_into(c.primary, c.variants[i]));
                        let first = follow(c, i, emissions[0]);
                        assert(first == seq![
                            AmassFromView { common: path, leaf_type: r.leaf_type() },
                        ]);
                        if a.recurses() {
                            let second = follow(c, i, emissions[1]);
                            if 0 <= i < c.children.len() {
                                match c.children[i] {
                                    Some(child) => {
                                        conversions_keep_the_root(child, path);
                                    },
                                    None => {},
                                }
                            }
                            assert(rooted(second, path));
                            assert(all == first + second);
                            assert forall|j: int| 0 <= j < all.len() implies (
                            #[trigger] all[j]).common.root_type == common.root_type
                                && all[j].common.parameters == common.parameters by {
                                if j < first.len() {
                                    assert(all[j] == first[j]);
                                } else {
                                    assert(all[j] == second[j - first.len()]);
                                }
                            }
                        } else {
                            assert(all =~= first);
                        }
                    } else {
                        assert(all =~= Seq::<AmassFromView>::empty());
                    }
                },
                _ => {
                    assert(all =~= Seq::<AmassFromView>::empty());
                },
            }
        },
    }
}

/// No duplicate emission: where no type is wrapped at two places of a tree,
/// no two conversions that come of the tree have the same root type and leaf
/// type.
pub proof fn no_duplicate_emission(c: Composite, common: AmassCommonView)
    requires
        wrapped_types(c).no_duplicates(),
    ensures
        keys(conversions(c, common)).no_duplicates(),
{
    conversions_follow_the_tree(c, common);
    let s = conversions(c, common);
    assert forall|j: int, k: int|
        0 <= j < keys(s).len() && 0 <= k < keys(s).len() && j != k implies keys(s)[j] != keys(
        s,
    )[k] by {
        assert(leaf_types(s)[j] == s[j].leaf_type);
        assert(leaf_types(s)[k] == s[k].leaf_type);
    }
}

/// A composite with one variant: what comes of it is what comes of that
/// variant, unless the variant is refused.
pub proof fn one_variant(c: Composite, common: AmassCommonView)
    requires
        c.variants.len() == 1,
        c.variant_plan(common, 0) is Ok,
    ensures
        conversions(c, common) == variant_conversions(c, common, 0),
{
    assert(plan_prefix(common, c.default, c.primary, c.variants, 0) == Ok::<
        Seq<EmissionView>,
        ErrorView,
    >(Seq::empty()));
    assert(c.plan(common) is Ok) by {
        reveal_with_fuel(plan_prefix, 2);
    }
    assert(conversions_upto(c, common, 0) == Seq::<AmassFromView>::empty());
    assert(conversions_upto(c, common, 1) =~= variant_conversions(c, common, 0)) by {
        reveal_with_fuel(conversions_upto, 2);
    }
}

/// Multi-level composition: where the one variant of a root wraps a middle
/// composite whose one variant wraps a leaf, both tuple variants under
/// `Deep`, the expansion of the middle type generates the conversion from the
/// leaf to it, and the expansion of the root generates the conversions from
/// the middle type and from the leaf to the root. The one from the leaf
/// applies the middle type's constructor to the value and the root's
/// constructor to the result.
pub proof fn multi_level_composition(
    root: Composite,
    middle: Composite,
    at_root: AmassCommonView,
    at_middle: AmassCommonView,
    middle_type: ResolvedView,
    leaf_type: ResolvedView,
)
    requires
        root.variants.len() == 1,
        root.action(0) == Some(VariantAction::Deep),
        wraps(root.variants[0], middle_type),
        root.variants[0].fields[0].ident is None,
        root.child(0) == Some(middle),
        middle.variants.len() == 1,
        middle.action(0) == Some(VariantAction::Deep),
        wraps(middle.variants[0], leaf_type),
        middle.variants[0].fields[0].ident is None,
        middle.child(0) is None,
    ensures
        conversions(middle, at_middle) == seq![
            AmassFromView {
                common: at_middle.push(step_into(middle.primary, middle.variants[0])),
                leaf_type: leaf_type.leaf_type(),
            },
        ],
        conversions(root, at_root) == seq![
            AmassFromView {
                common: at_root.push(step_into(root.primary, root.variants[0])),
                leaf_type: middle_type.leaf_type(),
            },
            AmassFromView {
                common: at_root.push(step_into(root.primary, root.variants[0])).push(
                    step_into(middle.primary, middle.variants[0]),
                ),
                leaf_type: leaf_type.leaf_type(),
            },
        ],
        conversion(
            seq![
                step_into(root.primary, root.variants[0]),
                step_into(middle.primary, middle.variants[0]),
            ],
        ) == Conversion::Tuple(
            constructor_path(root.primary, root.variants[0].ident),
            Box::new(
                Conversion::Tuple(
                    constructor_path(middle.primary, middle.variants[0].ident),
                    Box::new(Conversion::Value),
                ),
            ),
        ),
{
    let outer = step_into(root.primary, root.variants[0]);
    let inner = step_into(middle.primary, middle.variants[0]);
    let below = at_root.push(outer);
    deep_stops_at_unknown(middle, at_middle, 0, leaf_type);
    one_variant(middle, at_middle);
    deep_stops_at_unknown(middle, below, 0, leaf_type);
    one_variant(middle, below);
    let emissions = contribution(at_root, outer, middle_type, VariantAction::Deep);
    assert(root.variant_plan(at_root, 0) == Ok::<Seq<EmissionView>, ErrorView>(emissions));
    one_variant(root, at_root);
    assert(follow(root, 0, emissions[1]) == conversions(middle, below));
    assert(variant_conversions(root, at_root, 0) =~= follow(root, 0, emissions[0]) + follow(
        root,
        0,
        emissions[1],
    ));
    assert(conversions(root, at_root) =~= seq![
        AmassFromView { common: below, leaf_type: middle_type.leaf_type() },
        AmassFromView { common: below.push(inner), leaf_type: leaf_type.leaf_type() },
    ]);
    let steps = seq![outer, inner];
    assert(steps.skip(1) =~= seq![inner]);
    assert(steps.skip(1).skip(1) =~= Seq::<AmassVariantView>::empty());
    assert(conversion(steps.skip(1)) == wrap(inner, Conversion::Value)) by {
        reveal_with_fuel(conversion, 2);
    }
    assert(conversion(steps) == wrap(outer, conversion(steps.skip(1))));
}

/// Balance from the root: an accumulator that held no step, and is restored
/// after any number of pushes and pops, is as it was.
pub proof fn balanced_from_the_root(before: AmassCommonView, after: AmassCommonView)
    requires
        before.variants.len() == 0,
        !before.trailing,
        after.restored(before),
    ensures
        after == before,
        after.variants.len() == 0,
{
}

/// A continuation is one call of the target's macro: where the target and
/// the crate's path are paths, a continuation is written as the call that
/// hands the type's definition to `amass_apply` together with the path so
/// far, and with an error in its stead where it is required.
pub proof fn continuation_is_one_call(
    d: DeferredView,
    telety_path: Seq<Tok>,
    target: Seq<Tok>,
    krate: Seq<Tok>,
)
    requires
        syn_path(d.target) == Ok::<Seq<Tok>, Seq<char>>(target),
        syn_path(telety_path) == Ok::<Seq<Tok>, Seq<char>>(krate),
    ensures
        emission_tokens(EmissionView::Deferred(d), telety_path) == Ok::<Seq<Tok>, ErrorView>(
            telety_invocation(
                target,
                needle(),
                seq![
                    Tok::Group(
                        Delim::Brace,
                        invocation("amass_apply"@, continuation_args(d.common, d.arguments)),
                    ),
                ],
                if d.required {
                    invocation("require_telety_error"@, Seq::empty())
                } else {
                    Seq::empty()
                },
                krate,
            ),
        ),
{
}

/// Annotating resolves nothing and requests no conversion: what it returns
/// is the declaration followed by one call, the request to expand the enum
/// from an empty path.
pub proof fn annotation_is_one_request(item: ItemEnumView, target: Seq<Tok>, krate: Seq<Tok>)
    requires
        syn_path(item.path()) == Ok::<Seq<Tok>, Seq<char>>(target),
        syn_path(private_telety_path()) == Ok::<Seq<Tok>, Seq<char>>(krate),
    ensures
        item.annotated() == Ok::<Seq<Tok>, ErrorView>(
            item.tokens + telety_invocation(
                target,
                needle(),
                invocation(
                    "amass_apply"@,
                    continuation_args(
                        AmassCommonView {
                            parameters: item.generics,
                            root_type: item.path() + item.type_generics,
                            variants: Seq::empty(),
                            trailing: false,
                        },
                        item.arguments,
                    ),
                ),
                invocation("require_telety_error"@, Seq::empty()),
                krate,
            ),
        ),
{
}

} // verus!
