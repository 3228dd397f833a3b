//! The path accumulator: the chain of variant steps from the root of an
//! expansion down to the variant in hand.

use vstd::prelude::*;
use proc_macro2::TokenStream;
use syn::punctuated::Punctuated;
use syn::token::Comma;
use crate::steps::{
    steps_clone, steps_get, steps_len, steps_new, steps_of, steps_pop, steps_push,
    steps_trailing, trailing_of,
};
use crate::syntax::{Field, Path, PathView, Variant};
use crate::token::{
    alone, colon2, tokens_of, ts_clone, ts_extend, ts_new, ts_push_colon2, ts_push_group,
    ts_push_punct, Delim, Tok,
};

verus! {

/// One step of a path: the constructor of one variant and, where the
/// variant's single field is named, that name.
pub struct AmassVariant {
    /// The constructor's path, without generic arguments.
    pub path: TokenStream,
    /// The field's name, one token; `None` for a tuple variant.
    pub named_field: Option<TokenStream>,
}

/// A step as a mathematical value.
pub struct AmassVariantView {
    pub path: Seq<Tok>,
    pub named_field: Option<Seq<Tok>>,
}

impl View for AmassVariant {
    type V = AmassVariantView;

    open spec fn view(&self) -> AmassVariantView {
        AmassVariantView {
            path: tokens_of(self.path),
            named_field: match self.named_field {
                Some(f) => Some(tokens_of(f)),
                None => None,
            },
        }
    }
}

/// Parts joined by `::`.
pub open spec fn join_path(parts: Seq<Seq<Tok>>) -> Seq<Tok>
    decreases parts.len(),
{
    if parts.len() == 0 {
        Seq::empty()
    } else if parts.len() == 1 {
        parts[0]
    } else {
        join_path(parts.drop_last()) + colon2() + parts.last()
    }
}

/// The identifiers of a path's segments, without their generic arguments.
pub open spec fn segment_idents(path: PathView) -> Seq<Seq<Tok>> {
    Seq::new(path.segments.len(), |i: int| path.segments[i].ident)
}

/// The constructor path of a variant: the enum's path with every generic
/// argument dropped, then the variant's name as one more segment.
pub open spec fn constructor_path(enum_type: PathView, variant: Seq<Tok>) -> Seq<Tok> {
    (if enum_type.leading_colon {
        colon2()
    } else {
        Seq::empty()
    }) + join_path(segment_idents(enum_type).push(variant))
}

impl AmassVariantView {
    /// The step as it is written between two expansions: the path, then a
    /// dot and the field's name where there is one.
    pub open spec fn tokens(self) -> Seq<Tok> {
        match self.named_field {
            Some(f) => self.path + seq![alone('.')] + f,
            None => self.path,
        }
    }
}

impl AmassVariant {
    /// The step for one field of one variant of the enum at `enum_type`.
    pub fn from_field(enum_type: &Path, variant: &Variant, field: &Field) -> (r: Option<Self>)
        ensures
            r matches Some(step) && step@ == (AmassVariantView {
                path: constructor_path(enum_type@, tokens_of(variant.ident)),
                named_field: field@.ident,
            }),
    {
        let named_field = match &field.ident {
            Some(name) => Some(ts_clone(name)),
            None => None,
        };
        let mut path = ts_new();
        if enum_type.leading_colon {
            ts_push_colon2(&mut path);
        }
        let ghost lead = tokens_of(path);
        let ghost parts = segment_idents(enum_type@);
        let mut i: usize = 0;
        while i < enum_type.segments.len()
            invariant
                i <= enum_type.segments.len(),
                parts == segment_idents(enum_type@),
                parts.len() == enum_type.segments.len(),
                tokens_of(path) == lead + join_path(parts.take(i as int)),
            decreases enum_type.segments.len() - i,
        {
            if i > 0 {
                ts_push_colon2(&mut path);
            }
            ts_extend(&mut path, &enum_type.segments[i].ident);
            proof {
                assert(parts.take(i + 1).drop_last() == parts.take(i as int));
                assert(parts.take(i + 1).last() == tokens_of(enum_type.segments[i as int].ident));
                assert(i == 0 ==> join_path(parts.take(0)) == Seq::<Tok>::empty());
            }
            i += 1;
        }
        if i > 0 {
            ts_push_colon2(&mut path);
        }
        ts_extend(&mut path, &variant.ident);
        proof {
            let all = parts.push(tokens_of(variant.ident));
            assert(parts.take(i as int) == parts);
            assert(all.drop_last() == parts);
            assert(all.last() == tokens_of(variant.ident));
            if parts.len() == 0 {
                assert(join_path(parts) == Seq::<Tok>::empty());
                assert(join_path(all) == tokens_of(variant.ident));
                assert(tokens_of(path) == lead + tokens_of(variant.ident));
            } else {
                assert(join_path(all) == join_path(parts) + colon2() + tokens_of(variant.ident));
                assert(tokens_of(path) == lead + join_path(all));
            }
            assert(tokens_of(path) == constructor_path(enum_type@, tokens_of(variant.ident)));
        }
        Some(AmassVariant { path, named_field })
    }

    /// Appends the step, as it is written between two expansions.
    pub fn to_tokens(&self, tokens: &mut TokenStream)
        ensures
            tokens_of(*final(tokens)) == tokens_of(*old(tokens)) + self@.tokens(),
    {
        ts_extend(tokens, &self.path);
        match &self.named_field {
            Some(f) => {
                ts_push_punct(tokens, '.', false);
                ts_extend(tokens, f);
            },
            None => {},
        }
    }
}

impl Clone for AmassVariant {
    fn clone(&self) -> (r: Self)
        ensures
            r@ == self@,
    {
        AmassVariant {
            path: ts_clone(&self.path),
            named_field: match &self.named_field {
                Some(f) => Some(ts_clone(f)),
                None => None,
            },
        }
    }
}

/// The accumulator: the generic parameters and the type of the root of the
/// expansion, and the steps taken from it so far, outermost first.
pub struct AmassCommon {
    /// The root's generic parameters in angle brackets; empty where it has none.
    pub parameters: TokenStream,
    /// The root type.
    pub root_type: TokenStream,
    /// The steps, in the order in which they were pushed.
    pub variants: Punctuated<AmassVariant, Comma>,
}

/// An accumulator as a mathematical value.
pub struct AmassCommonView {
    pub parameters: Seq<Tok>,
    pub root_type: Seq<Tok>,
    pub variants: Seq<AmassVariantView>,
    /// Whether a comma stands behind the last step.
    pub trailing: bool,
}

impl View for AmassCommon {
    type V = AmassCommonView;

    open spec fn view(&self) -> AmassCommonView {
        AmassCommonView {
            parameters: tokens_of(self.parameters),
            root_type: tokens_of(self.root_type),
            variants: steps_of(self.variants),
            trailing: trailing_of(self.variants),
        }
    }
}

/// Steps as they are written between two expansions, separated by commas.
pub open spec fn steps_tokens(steps: Seq<AmassVariantView>) -> Seq<Tok>
    decreases steps.len(),
{
    if steps.len() == 0 {
        Seq::empty()
    } else if steps.len() == 1 {
        steps[0].tokens()
    } else {
        steps_tokens(steps.drop_last()) + seq![alone(',')] + steps.last().tokens()
    }
}

impl AmassCommonView {
    /// The accumulator as it is written between two expansions: the
    /// parameters, the root type, and the steps in square brackets, with a
    /// comma at the end where one stands behind the last step.
    pub open spec fn tokens(self) -> Seq<Tok> {
        self.parameters + self.root_type + seq![
            Tok::Group(
                Delim::Bracket,
                steps_tokens(self.variants) + (if self.trailing {
                    seq![alone(',')]
                } else {
                    Seq::empty()
                }),
            ),
        ]
    }

    /// The accumulator with one more step at the end, and no comma behind it.
    pub open spec fn push(self, step: AmassVariantView) -> AmassCommonView {
        AmassCommonView { variants: self.variants.push(step), trailing: false, ..self }
    }

    /// The accumulator without its last step. What stays ends in a comma,
    /// unless nothing stays.
    pub open spec fn pop(self) -> AmassCommonView {
        AmassCommonView {
            variants: self.variants.drop_last(),
            trailing: self.variants.len() > 1,
            ..self
        }
    }

    /// Whether two accumulators hold the same path: the same parameters, the
    /// same root and the same steps.
    pub open spec fn same_path(self, other: AmassCommonView) -> bool {
        self.parameters == other.parameters && self.root_type == other.root_type
            && self.variants == other.variants
    }

    /// Whether this accumulator is what `before` is after steps were pushed
    /// on it and popped again: the same path, and a comma behind the last
    /// step that is either the one `before` had or the one that a pop leaves.
    pub open spec fn restored(self, before: AmassCommonView) -> bool {
        self.same_path(before) && (self.trailing == before.trailing || self.trailing == (
        before.variants.len() > 0))
    }
}

impl AmassCommon {
    /// An accumulator at the root: no step taken yet.
    pub fn new(parameters: TokenStream, root_type: TokenStream) -> (r: Self)
        ensures
            r@ == (AmassCommonView {
                parameters: tokens_of(parameters),
                root_type: tokens_of(root_type),
                variants: Seq::empty(),
                trailing: false,
            }),
    {
        AmassCommon { parameters, root_type, variants: steps_new() }
    }

    /// Takes one step down: `variant` becomes the last step.
    pub fn push_variant(&mut self, variant: AmassVariant)
        ensures
            final(self)@ == old(self)@.push(variant@),
    {
        steps_push(&mut self.variants, variant);
    }

    /// Takes the last step back.
    pub fn pop_variant(&mut self)
        requires
            old(self)@.variants.len() > 0,
        ensures
            final(self)@ == old(self)@.pop(),
    {
        steps_pop(&mut self.variants);
    }

    /// The number of steps taken.
    pub fn depth(&self) -> (r: usize)
        ensures
            r == self@.variants.len(),
    {
        steps_len(&self.variants)
    }

    /// Appends the accumulator, as it is written between two expansions.
    pub fn to_tokens(&self, tokens: &mut TokenStream)
        ensures
            tokens_of(*final(tokens)) == tokens_of(*old(tokens)) + self@.tokens(),
    {
        ts_extend(tokens, &self.parameters);
        ts_extend(tokens, &self.root_type);
        let mut inner = ts_new();
        let n = steps_len(&self.variants);
        let mut i: usize = 0;
        while i < n
            invariant
                i <= n,
                n == self@.variants.len(),
                tokens_of(inner) == steps_tokens(self@.variants.take(i as int)),
            decreases n - i,
        {
            if i > 0 {
                ts_push_punct(&mut inner, ',', false);
            }
            steps_get(&self.variants, i).to_tokens(&mut inner);
            proof {
                let s = self@.variants;
                assert(s.take(i + 1).drop_last() == s.take(i as int));
                assert(s.take(i + 1).last() == s[i as int]);
            }
            i += 1;
        }
        proof {
            assert(self@.variants.take(i as int) == self@.variants);
        }
        if steps_trailing(&self.variants) {
            ts_push_punct(&mut inner, ',', false);
        }
        proof {
            assert(tokens_of(inner) =~= steps_tokens(self@.variants) + (if self@.trailing {
                seq![alone(',')]
            } else {
                Seq::empty()
            }));
        }
        ts_push_group(tokens, Delim::Bracket, &inner);
    }
}

impl Clone for AmassCommon {
    fn clone(&self) -> (r: Self)
        ensures
            r@ == self@,
    {
        AmassCommon {
            parameters: ts_clone(&self.parameters),
            root_type: ts_clone(&self.root_type),
            variants: steps_clone(&self.variants),
        }
    }
}

} // verus!
