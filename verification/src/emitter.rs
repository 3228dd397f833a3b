//! The conversion emitter: from a finished path and a leaf type to the source
//! of one conversion function.

use vstd::prelude::*;
use proc_macro2::TokenStream;
use syn::punctuated::Punctuated;
use syn::token::Comma;
use crate::accumulator::{AmassCommon, AmassCommonView, AmassVariant, AmassVariantView};
use crate::steps::{steps_get, steps_len, steps_of};
use crate::error::{Error, ErrorView};
use crate::outside::{impl_generics, syn_impl_generics};
use crate::token::{
    alone, colon2, ident, joint, tokens_of, ts_clone, ts_extend, ts_new, ts_push_colon2,
    ts_push_group, ts_push_ident, ts_push_punct, Delim, Tok,
};

verus! {

/// The expression that a conversion function returns: the incoming value,
/// wrapped in constructors.
pub enum Conversion {
    /// The incoming value itself.
    Value,
    /// A tuple constructor applied to an inner expression: `Path(inner)`.
    Tuple(Seq<Tok>, Box<Conversion>),
    /// A struct constructor with its one field set: `Path { field: inner }`.
    Struct(Seq<Tok>, Seq<Tok>, Box<Conversion>),
}

/// One step's constructor applied to an inner expression.
pub open spec fn wrap(step: AmassVariantView, inner: Conversion) -> Conversion {
    match step.named_field {
        Some(f) => Conversion::Struct(step.path, f, Box::new(inner)),
        None => Conversion::Tuple(step.path, Box::new(inner)),
    }
}

/// The expression for a path: the first step's constructor is outermost, the
/// last step's constructor is applied to the value itself.
pub open spec fn conversion(steps: Seq<AmassVariantView>) -> Conversion
    decreases steps.len(),
{
    if steps.len() == 0 {
        Conversion::Value
    } else {
        wrap(steps[0], conversion(steps.skip(1)))
    }
}

/// An expression with another put in place of the incoming value.
pub open spec fn substitute(outer: Conversion, inner: Conversion) -> Conversion
    decreases outer,
{
    match outer {
        Conversion::Value => inner,
        Conversion::Tuple(p, e) => Conversion::Tuple(p, Box::new(substitute(*e, inner))),
        Conversion::Struct(p, f, e) => Conversion::Struct(p, f, Box::new(substitute(*e, inner))),
    }
}

/// An expression as tokens.
pub open spec fn render(c: Conversion) -> Seq<Tok>
    decreases c,
{
    match c {
        Conversion::Value => seq![ident("value"@)],
        Conversion::Tuple(p, e) => p + seq![Tok::Group(Delim::Paren, render(*e))],
        Conversion::Struct(p, f, e) => p + seq![
            Tok::Group(Delim::Brace, f + seq![alone(':')] + render(*e)),
        ],
    }
}

/// The source of the conversion function from `leaf` to `root`: an `impl` of
/// `::core::convert::From<leaf>` for `root`, under the given generic
/// parameters, whose `from` returns `body`.
pub open spec fn conversion_impl(
    generics: Seq<Tok>,
    root: Seq<Tok>,
    leaf: Seq<Tok>,
    body: Seq<Tok>,
) -> Seq<Tok> {
    seq![ident("impl"@)] + generics + colon2() + seq![ident("core"@)] + colon2() + seq![
        ident("convert"@),
    ] + colon2() + seq![ident("From"@), alone('<')] + leaf + seq![alone('>'), ident("for"@)]
        + root + seq![
        Tok::Group(
            Delim::Brace,
            seq![
                ident("fn"@),
                ident("from"@),
                Tok::Group(Delim::Paren, seq![ident("value"@), alone(':')] + leaf),
                joint('-'),
                alone('>'),
                ident("Self"@),
                Tok::Group(Delim::Brace, body),
            ],
        ),
    ]
}

/// A finished path and the leaf type to convert from.
pub struct AmassFrom {
    /// The path from the root down to the variant that wraps the leaf.
    pub common: AmassCommon,
    /// The leaf type.
    pub leaf_type: TokenStream,
}

/// A conversion request as a mathematical value.
pub struct AmassFromView {
    pub common: AmassCommonView,
    pub leaf_type: Seq<Tok>,
}

impl View for AmassFrom {
    type V = AmassFromView;

    open spec fn view(&self) -> AmassFromView {
        AmassFromView { common: self.common@, leaf_type: tokens_of(self.leaf_type) }
    }
}

impl AmassFromView {
    /// The request as it is written between two expansions.
    pub open spec fn tokens(self) -> Seq<Tok> {
        self.common.tokens() + self.leaf_type
    }

    /// What `generate` returns, given what the parser makes of the root's
    /// generic parameters.
    pub open spec fn generated(self, generics: Result<Seq<Tok>, Seq<char>>) -> Result<
        Seq<Tok>,
        ErrorView,
    > {
        match generics {
            Ok(g) => Ok(
                conversion_impl(
                    g,
                    self.common.root_type,
                    self.leaf_type,
                    render(conversion(self.common.variants)),
                ),
            ),
            Err(m) => Err(ErrorView::Syntax(m)),
        }
    }
}

/// The tokens of the expression for `steps`.
pub fn conversion_tokens(steps: &Punctuated<AmassVariant, Comma>) -> (r: TokenStream)
    ensures
        tokens_of(r) == render(conversion(steps_of(*steps))),
{
    let ghost all = steps_of(*steps);
    let mut body = ts_new();
    proof {
        reveal_strlit("value");
    }
    ts_push_ident(&mut body, "value");
    let mut i: usize = steps_len(steps);
    proof {
        assert(all.skip(i as int) =~= Seq::empty());
        assert(tokens_of(body) =~= render(Conversion::Value));
    }
    while i > 0
        invariant
            i <= all.len(),
            all == steps_of(*steps),
            tokens_of(body) == render(conversion(all.skip(i as int))),
        decreases i,
    {
        i -= 1;
        let step = steps_get(steps, i);
        let mut next = ts_clone(&step.path);
        let mut inner = ts_new();
        match &step.named_field {
            Some(f) => {
                ts_extend(&mut inner, f);
                ts_push_punct(&mut inner, ':', false);
                ts_extend(&mut inner, &body);
                proof {
                    assert(tokens_of(inner) =~= tokens_of(*f) + seq![alone(':')] + tokens_of(
                        body,
                    ));
                }
                ts_push_group(&mut next, Delim::Brace, &inner);
            },
            None => {
                ts_push_group(&mut next, Delim::Paren, &body);
            },
        }
        proof {
            let rest = all.skip(i as int);
            assert(rest[0] == step@);
            assert(rest.skip(1) =~= all.skip(i + 1));
            assert(conversion(rest) == wrap(step@, conversion(all.skip(i + 1))));
            assert(tokens_of(next) =~= render(wrap(step@, conversion(all.skip(i + 1)))));
        }
        body = next;
    }
    proof {
        assert(all.skip(0) =~= all);
    }
    body
}

impl AmassFrom {
    /// The source of the conversion function: the path's constructors are
    /// applied from the innermost (pushed last) to the outermost (pushed
    /// first). It fails only where the accumulator's parameters are no list
    /// of generic parameters.
    pub fn generate(&self) -> (r: Result<TokenStream, Error>)
        ensures
            match r {
                Ok(ts) => self@.generated(syn_impl_generics(self@.common.parameters)) == Ok::<
                    Seq<Tok>,
                    ErrorView,
                >(tokens_of(ts)),
                Err(e) => self@.generated(syn_impl_generics(self@.common.parameters)) == Err::<
                    Seq<Tok>,
                    ErrorView,
                >(e@),
            },
    {
        let generics = match impl_generics(&self.common.parameters) {
            Ok(g) => g,
            Err(m) => {
                return Err(Error::Syntax(m));
            },
        };
        let body = conversion_tokens(&self.common.variants);
        Ok(emit_impl(&generics, &self.common.root_type, &self.leaf_type, &body))
    }

    /// Appends the request, as it is written between two expansions.
    pub fn to_tokens(&self, tokens: &mut TokenStream)
        ensures
            tokens_of(*final(tokens)) == tokens_of(*old(tokens)) + self@.tokens(),
    {
        self.common.to_tokens(tokens);
        ts_extend(tokens, &self.leaf_type);
    }
}

/// The source of one conversion function, from its four parts.
pub fn emit_impl(
    generics: &TokenStream,
    root: &TokenStream,
    leaf: &TokenStream,
    body: &TokenStream,
) -> (r: TokenStream)
    ensures
        tokens_of(r) == conversion_impl(
            tokens_of(*generics),
            tokens_of(*root),
            tokens_of(*leaf),
            tokens_of(*body),
        ),
{
    proof {
        reveal_strlit("impl");
        reveal_strlit("core");
        reveal_strlit("convert");
        reveal_strlit("From");
        reveal_strlit("for");
        reveal_strlit("fn");
        reveal_strlit("from");
        reveal_strlit("value");
        reveal_strlit("Self");
    }
    let mut args = ts_new();
    ts_push_ident(&mut args, "value");
    ts_push_punct(&mut args, ':', false);
    ts_extend(&mut args, leaf);
    proof {
        assert(tokens_of(args) =~= seq![ident("value"@), alone(':')] + tokens_of(*leaf));
    }

    let mut block = ts_new();
    ts_push_group(&mut block, Delim::Brace, body);

    let mut item = ts_new();
    ts_push_ident(&mut item, "fn");
    ts_push_ident(&mut item, "from");
    ts_push_group(&mut item, Delim::Paren, &args);
    ts_push_punct(&mut item, '-', true);
    ts_push_punct(&mut item, '>', false);
    ts_push_ident(&mut item, "Self");
    ts_extend(&mut item, &block);
    proof {
        assert(tokens_of(item) =~= seq![
            ident("fn"@),
            ident("from"@),
            Tok::Group(Delim::Paren, seq![ident("value"@), alone(':')] + tokens_of(*leaf)),
            joint('-'),
            alone('>'),
            ident("Self"@),
            Tok::Group(Delim::Brace, tokens_of(*body)),
        ]);
    }

    let mut out = ts_new();
    ts_push_ident(&mut out, "impl");
    ts_extend(&mut out, generics);
    ts_push_colon2(&mut out);
    ts_push_ident(&mut out, "core");
    ts_push_colon2(&mut out);
    ts_push_ident(&mut out, "convert");
    ts_push_colon2(&mut out);
    ts_push_ident(&mut out, "From");
    ts_push_punct(&mut out, '<', false);
    ts_extend(&mut out, leaf);
    ts_push_punct(&mut out, '>', false);
    ts_push_ident(&mut out, "for");
    ts_extend(&mut out, root);
    ts_push_group(&mut out, Delim::Brace, &item);
    proof {
        assert(tokens_of(out) =~= conversion_impl(
            tokens_of(*generics),
            tokens_of(*root),
            tokens_of(*leaf),
            tokens_of(*body),
        ));
    }
    out
}

} // verus!
