//! The operations that the outside world invokes: annotate a composite,
//! continue an expansion, emit one conversion, and the combined annotation.

use vstd::prelude::*;
use proc_macro2::TokenStream;
use crate::accumulator::{AmassCommon, AmassCommonView};
use crate::driver::{expand, plan, Emission, EmissionView};
use crate::emitter::AmassFrom;
use crate::error::{str_eq, Error, ErrorView};
use crate::options::Options;
use crate::outside::{telety_apply, telety_ty_apply};
use crate::syntax::{views, Item, ItemKind, ItemKindView, ItemView};
use crate::token::{
    alone, colon2, ident, is_plain_ident, string_literal, tokens_of, ts_extend, ts_new,
    ts_push_colon2, ts_push_group, ts_push_ident, ts_push_punct, ts_push_string, Delim, Tok,
};

verus! {

/// The identifier that stands where a type's definition is to be put.
pub open spec fn needle() -> Seq<char> {
    "__amass_apply_needle"@
}

/// A call of one of this library's macros: `::amass::__private::name!(args);`.
pub open spec fn invocation(name: Seq<char>, args: Seq<Tok>) -> Seq<Tok> {
    colon2() + seq![ident("amass"@)] + colon2() + seq![ident("__private"@)] + colon2() + seq![
        ident(name),
        alone('!'),
        Tok::Group(Delim::Paren, args),
        alone(';'),
    ]
}

/// The arguments of a continuation: the path so far, the generic arguments
/// in angle brackets, and the needle.
pub open spec fn continuation_args(common: AmassCommonView, arguments: Seq<Tok>) -> Seq<Tok> {
    common.tokens() + seq![alone('<')] + arguments + seq![alone('>'), ident(needle())]
}

/// What stands in place of a continuation whose target is no known
/// composite: an error where the continuation is required, nothing otherwise.
pub open spec fn fallback(required: bool) -> Seq<Tok> {
    if required {
        invocation("require_telety_error"@, Seq::empty())
    } else {
        Seq::empty()
    }
}

/// The path `::telety`, where the resolution mechanism's crate is found if a
/// declaration does not say otherwise.
pub open spec fn default_telety_path() -> Seq<Tok> {
    colon2() + seq![ident("telety"@)]
}

/// The path `::amass::__private::telety`.
pub open spec fn private_telety_path() -> Seq<Tok> {
    colon2() + seq![ident("amass"@)] + colon2() + seq![ident("__private"@)] + colon2() + seq![
        ident("telety"@),
    ]
}

/// The source for one emission: a call of `amass_from` for a conversion; for
/// a continuation, what the resolution mechanism writes for a call of
/// `amass_apply` in braces.
pub open spec fn emission_tokens(e: EmissionView, telety_path: Seq<Tok>) -> Result<
    Seq<Tok>,
    ErrorView,
> {
    match e {
        EmissionView::Conversion(f) => Ok(invocation("amass_from"@, f.tokens())),
        EmissionView::Deferred(d) => match telety_ty_apply(
            d.target,
            needle(),
            seq![
                Tok::Group(
                    Delim::Brace,
                    invocation("amass_apply"@, continuation_args(d.common, d.arguments)),
                ),
            ],
            fallback(d.required),
            telety_path,
        ) {
            Ok(tokens) => Ok(tokens),
            Err(m) => Err(ErrorView::Syntax(m)),
        },
    }
}

/// The source for the first `n` emissions, one after the other; the first
/// that cannot be written refuses the whole.
pub open spec fn emissions_tokens(emissions: Seq<EmissionView>, telety_path: Seq<Tok>, n: nat)
    -> Result<Seq<Tok>, ErrorView>
    decreases n,
{
    if n == 0 {
        Ok(Seq::empty())
    } else {
        let i = (n - 1) as nat;
        match emissions_tokens(emissions, telety_path, i) {
            Err(e) => Err(e),
            Ok(done) => match emission_tokens(emissions[i as int], telety_path) {
                Err(e) => Err(e),
                Ok(more) => Ok(done + more),
            },
        }
    }
}

/// A refusal stays: what cannot be written after `n` emissions cannot be
/// written after any more.
pub proof fn emissions_refusal_stays(
    emissions: Seq<EmissionView>,
    telety_path: Seq<Tok>,
    n: nat,
    m: nat,
)
    requires
        n <= m,
        emissions_tokens(emissions, telety_path, n) is Err,
    ensures
        emissions_tokens(emissions, telety_path, m) == emissions_tokens(emissions, telety_path, n),
    decreases m,
{
    if n < m {
        emissions_refusal_stays(emissions, telety_path, n, (m - 1) as nat);
    }
}

/// Appends `::amass::__private::`.
fn push_private(out: &mut TokenStream)
    ensures
        tokens_of(*final(out)) == tokens_of(*old(out)) + colon2() + seq![ident("amass"@)]
            + colon2() + seq![ident("__private"@)] + colon2(),
{
    proof {
        reveal_strlit("amass");
        reveal_strlit("__private");
    }
    ts_push_colon2(out);
    ts_push_ident(out, "amass");
    ts_push_colon2(out);
    ts_push_ident(out, "__private");
    ts_push_colon2(out);
    proof {
        assert(tokens_of(*out) =~= tokens_of(*old(out)) + colon2() + seq![ident("amass"@)]
            + colon2() + seq![ident("__private"@)] + colon2());
    }
}

/// Appends a call of one of this library's macros.
fn push_invocation(out: &mut TokenStream, name: &str, args: &TokenStream)
    requires
        is_plain_ident(name@),
    ensures
        tokens_of(*final(out)) == tokens_of(*old(out)) + invocation(name@, tokens_of(*args)),
{
    push_private(out);
    ts_push_ident(out, name);
    ts_push_punct(out, '!', false);
    ts_push_group(out, Delim::Paren, args);
    ts_push_punct(out, ';', false);
    proof {
        assert(tokens_of(*out) =~= tokens_of(*old(out)) + invocation(name@, tokens_of(*args)));
    }
}

/// The tokens that stand in place of a continuation whose target is no known
/// composite.
fn fallback_tokens(required: bool) -> (r: TokenStream)
    ensures
        tokens_of(r) == fallback(required),
{
    let mut out = ts_new();
    if required {
        proof {
            reveal_strlit("require_telety_error");
        }
        let none = ts_new();
        push_invocation(&mut out, "require_telety_error", &none);
    }
    out
}

/// The arguments of a continuation.
fn continuation_tokens(common: &AmassCommon, arguments: &TokenStream) -> (r: TokenStream)
    ensures
        tokens_of(r) == continuation_args(common@, tokens_of(*arguments)),
{
    proof {
        reveal_strlit("__amass_apply_needle");
    }
    let mut args = ts_new();
    common.to_tokens(&mut args);
    ts_push_punct(&mut args, '<', false);
    ts_extend(&mut args, arguments);
    ts_push_punct(&mut args, '>', false);
    ts_push_ident(&mut args, "__amass_apply_needle");
    proof {
        assert(tokens_of(args) =~= continuation_args(common@, tokens_of(*arguments)));
    }
    args
}

/// Writes one emission as source.
pub fn render_emission(emission: &Emission, telety_path: &TokenStream) -> (r: Result<
    TokenStream,
    Error,
>)
    ensures
        match r {
            Ok(ts) => emission_tokens(emission@, tokens_of(*telety_path)) == Ok::<
                Seq<Tok>,
                ErrorView,
            >(tokens_of(ts)),
            Err(e) => emission_tokens(emission@, tokens_of(*telety_path)) == Err::<
                Seq<Tok>,
                ErrorView,
            >(e@),
        },
{
    match emission {
        Emission::Conversion(from) => {
            proof {
                reveal_strlit("amass_from");
            }
            let mut args = ts_new();
            from.to_tokens(&mut args);
            let mut out = ts_new();
            push_invocation(&mut out, "amass_from", &args);
            Ok(out)
        },
        Emission::Deferred(deferred) => {
            proof {
                reveal_strlit("amass_apply");
                reveal_strlit("__amass_apply_needle");
            }
            let args = continuation_tokens(&deferred.common, &deferred.arguments);
            let mut call = ts_new();
            push_invocation(&mut call, "amass_apply", &args);
            let mut haystack = ts_new();
            ts_push_group(&mut haystack, Delim::Brace, &call);
            let fallback = fallback_tokens(deferred.required);
            match telety_apply(
                &deferred.target,
                "__amass_apply_needle",
                &haystack,
                &fallback,
                telety_path,
            ) {
                Ok(ts) => Ok(ts),
                Err(m) => Err(Error::Syntax(m)),
            }
        },
    }
}

/// Writes emissions as source, one after the other.
pub fn render(emissions: &Vec<Emission>, telety_path: &TokenStream) -> (r: Result<
    TokenStream,
    Error,
>)
    ensures
        match r {
            Ok(ts) => emissions_tokens(
                views(emissions@),
                tokens_of(*telety_path),
                emissions@.len(),
            ) == Ok::<Seq<Tok>, ErrorView>(tokens_of(ts)),
            Err(e) => emissions_tokens(
                views(emissions@),
                tokens_of(*telety_path),
                emissions@.len(),
            ) == Err::<Seq<Tok>, ErrorView>(e@),
        },
{
    let ghost all = views(emissions@);
    let mut out = ts_new();
    let mut i: usize = 0;
    while i < emissions.len()
        invariant
            i <= emissions.len(),
            all == views(emissions@),
            emissions_tokens(all, tokens_of(*telety_path), i as nat) == Ok::<Seq<Tok>, ErrorView>(
                tokens_of(out),
            ),
        decreases emissions.len() - i,
    {
        proof {
            assert(all[i as int] == emissions@[i as int]@);
        }
        match render_emission(&emissions[i], telety_path) {
            Err(e) => {
                proof {
                    emissions_refusal_stays(
                        all,
                        tokens_of(*telety_path),
                        (i + 1) as nat,
                        emissions.len() as nat,
                    );
                }
                return Err(e);
            },
            Ok(more) => {
                ts_extend(&mut out, &more);
            },
        }
        i += 1;
    }
    Ok(out)
}

/// The arguments of a continuation of the expansion: the path so far, the
/// generic arguments to read the type's parameters as, and the type itself
/// with its resolved type dictionary.
pub struct AmassApply {
    /// The path from the root down to the variant that wraps this type;
    /// empty at the root.
    pub common: AmassCommon,
    /// The generic arguments, in angle brackets.
    pub generic_arguments: TokenStream,
    /// The type to expand.
    pub telety_item: Item,
}

/// The arguments of a continuation as a mathematical value.
pub struct AmassApplyView {
    pub common: AmassCommonView,
    pub generic_arguments: Seq<Tok>,
    pub telety_item: ItemView,
}

impl View for AmassApply {
    type V = AmassApplyView;

    open spec fn view(&self) -> AmassApplyView {
        AmassApplyView {
            common: self.common@,
            generic_arguments: tokens_of(self.generic_arguments),
            telety_item: self.telety_item@,
        }
    }
}

impl AmassApplyView {
    /// The arguments as they are written between two expansions.
    pub open spec fn tokens(self) -> Seq<Tok> {
        self.common.tokens() + self.generic_arguments + self.telety_item.tokens
    }

    /// Where the resolution mechanism's crate is found.
    pub open spec fn telety_path(self) -> Seq<Tok> {
        match self.telety_item.telety_path {
            Some(p) => p,
            None => default_telety_path(),
        }
    }

    /// What `amass_apply` returns. A type whose configuration is missing,
    /// repeated or badly formed is refused with the configuration's error; a
    /// configured type that is no enum is refused; an enum yields the source
    /// for what its variants contribute.
    pub open spec fn expansion(self) -> Result<Seq<Tok>, ErrorView> {
        match Options::spec_from_attrs(self.telety_item.attrs) {
            Err(e) => Err(e),
            Ok(options) => match self.telety_item.kind {
                ItemKindView::Other => Err(ErrorView::NotAnEnum),
                ItemKindView::Enum(variants) => match plan(
                    self.common,
                    options.default,
                    self.telety_item.primary_path,
                    variants,
                ) {
                    Err(e) => Err(e),
                    Ok(emissions) => emissions_tokens(
                        emissions,
                        self.telety_path(),
                        emissions.len(),
                    ),
                },
            },
        }
    }
}

impl AmassApply {
    /// Appends the arguments, as they are written between two expansions.
    pub fn to_tokens(&self, tokens: &mut TokenStream)
        ensures
            tokens_of(*final(tokens)) == tokens_of(*old(tokens)) + self@.tokens(),
    {
        self.common.to_tokens(tokens);
        ts_extend(tokens, &self.generic_arguments);
        ts_extend(tokens, &self.telety_item.tokens);
        proof {
            assert(tokens_of(*tokens) =~= tokens_of(*old(tokens)) + self@.tokens());
        }
    }
}

/// Continues an expansion at a type whose definition and resolved type
/// dictionary are at hand: the type's configuration is read, the driver runs
/// over the type's variants with the path so far, and what they contribute
/// is written as source. Any error stops the invocation: nothing is written.
pub fn amass_apply(input: AmassApply) -> (r: Result<TokenStream, Error>)
    ensures
        match r {
            Ok(ts) => input@.expansion() == Ok::<Seq<Tok>, ErrorView>(tokens_of(ts)),
            Err(e) => input@.expansion() == Err::<Seq<Tok>, ErrorView>(e@),
        },
{
    let ghost given = input@;
    let mut input = input;
    let options = match Options::from_attrs(input.telety_item.attrs.as_slice()) {
        Ok(options) => options,
        Err(e) => {
            return Err(e);
        },
    };
    let variants = match &input.telety_item.kind {
        ItemKind::Enum(variants) => variants,
        ItemKind::Other => {
            return Err(Error::NotAnEnum);
        },
    };
    let emissions = match expand(
        &mut input.common,
        &options,
        &input.telety_item.primary_path,
        variants.as_slice(),
    ) {
        Ok(emissions) => emissions,
        Err(e) => {
            return Err(e);
        },
    };
    let telety_path = match &input.telety_item.telety_path {
        Some(p) => crate::token::ts_clone(p),
        None => {
            proof {
                reveal_strlit("telety");
            }
            let mut p = ts_new();
            ts_push_colon2(&mut p);
            ts_push_ident(&mut p, "telety");
            proof {
                assert(tokens_of(p) =~= default_telety_path());
            }
            p
        },
    };
    proof {
        assert(input@.telety_item == given.telety_item);
        assert(tokens_of(telety_path) == given.telety_path());
    }
    render(&emissions, &telety_path)
}

/// Emits the conversion function for a finished path and a leaf type.
pub fn amass_from(args: AmassFrom) -> (r: Result<TokenStream, Error>)
    ensures
        match r {
            Ok(ts) => args@.generated(crate::outside::syn_impl_generics(args@.common.parameters))
                == Ok::<Seq<Tok>, ErrorView>(tokens_of(ts)),
            Err(e) => args@.generated(crate::outside::syn_impl_generics(args@.common.parameters))
                == Err::<Seq<Tok>, ErrorView>(e@),
        },
{
    args.generate()
}

/// An enum declaration as the annotation reads it.
pub struct ItemEnum {
    /// The enum's name, one token.
    pub ident: TokenStream,
    /// The enum's generic parameters in angle brackets, with their bounds;
    /// empty where it has none.
    pub generics: TokenStream,
    /// The names of the generic parameters in angle brackets, as they stand
    /// behind the enum's name in its own type; empty where it has none.
    pub type_generics: TokenStream,
    /// The generic parameters as a list of arguments, without brackets.
    pub arguments: TokenStream,
    /// The whole declaration, with each policy attribute replaced by one that
    /// does nothing.
    pub tokens: TokenStream,
}

/// An enum declaration as a mathematical value.
pub struct ItemEnumView {
    pub ident: Seq<Tok>,
    pub generics: Seq<Tok>,
    pub type_generics: Seq<Tok>,
    pub arguments: Seq<Tok>,
    pub tokens: Seq<Tok>,
}

impl View for ItemEnum {
    type V = ItemEnumView;

    open spec fn view(&self) -> ItemEnumView {
        ItemEnumView {
            ident: tokens_of(self.ident),
            generics: tokens_of(self.generics),
            type_generics: tokens_of(self.type_generics),
            arguments: tokens_of(self.arguments),
            tokens: tokens_of(self.tokens),
        }
    }
}

impl ItemEnumView {
    /// The enum's path as seen from its own module: `self::Name`.
    pub open spec fn path(self) -> Seq<Tok> {
        seq![ident("self"@)] + colon2() + self.ident
    }

    /// The accumulator at the root of the enum's expansion: its parameters,
    /// its own type, and no step.
    pub open spec fn root(self) -> AmassCommonView {
        AmassCommonView {
            parameters: self.generics,
            root_type: self.path() + self.type_generics,
            variants: Seq::empty(),
            trailing: false,
        }
    }

    /// What `amass` returns for this enum once its configuration is accepted:
    /// the declaration, then the request to expand the enum from an empty
    /// path once its definition is on offer, with an error in its stead
    /// where it never is.
    pub open spec fn annotated(self) -> Result<Seq<Tok>, ErrorView> {
        match telety_ty_apply(
            self.path(),
            needle(),
            invocation("amass_apply"@, continuation_args(self.root(), self.arguments)),
            fallback(true),
            private_telety_path(),
        ) {
            Ok(request) => Ok(self.tokens + request),
            Err(m) => Err(ErrorView::Syntax(m)),
        }
    }
}

/// What `amass` returns: the configuration is read first, and a
/// configuration that is refused refuses the annotation.
pub open spec fn spec_amass(attr_args: Seq<Tok>, item: ItemEnumView) -> Result<
    Seq<Tok>,
    ErrorView,
> {
    match Options::spec_parse(attr_args) {
        Err(e) => Err(e),
        Ok(_) => item.annotated(),
    }
}

/// Annotates an enum: checks the configuration in `attr_args` and schedules
/// the expansion of the enum from an empty path. Nothing is resolved here.
pub fn amass(attr_args: &TokenStream, item: &ItemEnum) -> (r: Result<TokenStream, Error>)
    ensures
        match r {
            Ok(ts) => spec_amass(tokens_of(*attr_args), item@) == Ok::<Seq<Tok>, ErrorView>(
                tokens_of(ts),
            ),
            Err(e) => spec_amass(tokens_of(*attr_args), item@) == Err::<Seq<Tok>, ErrorView>(e@),
        },
{
    match Options::parse(attr_args) {
        Ok(_) => {},
        Err(e) => {
            return Err(e);
        },
    }
    proof {
        reveal_strlit("self");
        reveal_strlit("amass_apply");
        reveal_strlit("__amass_apply_needle");
        reveal_strlit("amass");
        reveal_strlit("__private");
        reveal_strlit("telety");
    }
    let mut item_path = ts_new();
    ts_push_ident(&mut item_path, "self");
    ts_push_colon2(&mut item_path);
    ts_extend(&mut item_path, &item.ident);
    proof {
        assert(tokens_of(item_path) =~= item@.path());
    }
    let mut item_type = crate::token::ts_clone(&item_path);
    ts_extend(&mut item_type, &item.type_generics);
    let common = AmassCommon::new(crate::token::ts_clone(&item.generics), item_type);
    let args = continuation_tokens(&common, &item.arguments);
    let mut haystack = ts_new();
    push_invocation(&mut haystack, "amass_apply", &args);
    let fallback = fallback_tokens(true);
    let mut telety_path = ts_new();
    push_private(&mut telety_path);
    ts_push_ident(&mut telety_path, "telety");
    proof {
        assert(tokens_of(telety_path) =~= private_telety_path());
        assert(common@ == item@.root());
    }
    match telety_apply(&item_path, "__amass_apply_needle", &haystack, &fallback, &telety_path) {
        Ok(request) => {
            let mut out = crate::token::ts_clone(&item.tokens);
            ts_extend(&mut out, &request);
            Ok(out)
        },
        Err(m) => Err(Error::Syntax(m)),
    }
}

/// Generic parameters as a list of generic arguments: their names, separated
/// by commas, with a comma at the end where `trailing` says so.
pub open spec fn arguments_of(names: Seq<Seq<Tok>>, trailing: bool) -> Seq<Tok>
    decreases names.len(),
{
    if names.len() == 0 {
        Seq::empty()
    } else if names.len() == 1 {
        names[0] + (if trailing {
            seq![alone(',')]
        } else {
            Seq::empty()
        })
    } else {
        names[0] + seq![alone(',')] + arguments_of(names.skip(1), trailing)
    }
}

/// Turns the names of an item's generic parameters into the generic
/// arguments that name the item's own type.
pub fn generic_params_to_arguments(names: &[TokenStream], trailing: bool) -> (r: TokenStream)
    ensures
        tokens_of(r) == arguments_of(Seq::new(names@.len(), |i: int| tokens_of(names@[i])), trailing),
{
    let ghost all = Seq::new(names@.len(), |i: int| tokens_of(names@[i]));
    let mut out = ts_new();
    let mut i: usize = names.len();
    proof {
        assert(all.skip(i as int) =~= Seq::<Seq<Tok>>::empty());
    }
    while i > 0
        invariant
            i <= names.len(),
            all == Seq::new(names@.len(), |i: int| tokens_of(names@[i])),
            tokens_of(out) == arguments_of(all.skip(i as int), trailing),
        decreases i,
    {
        i -= 1;
        let mut next = crate::token::ts_clone(&names[i]);
        if i + 1 < names.len() || trailing {
            ts_push_punct(&mut next, ',', false);
        }
        ts_extend(&mut next, &out);
        proof {
            let rest = all.skip(i as int);
            assert(rest[0] == tokens_of(names@[i as int]));
            assert(rest.skip(1) =~= all.skip(i + 1));
            assert(tokens_of(next) =~= arguments_of(rest, trailing));
        }
        out = next;
    }
    proof {
        assert(all.skip(0) =~= all);
    }
    out
}

/// Whether an attribute of this name is one of the annotation's own marker
/// attributes, which are taken out of the declaration.
pub fn is_helper(name: &str) -> (r: bool)
    ensures
        r == (name@ == "amass_action"@),
{
    str_eq(name, "amass_action")
}

/// The attribute that does nothing, `#[cfg(all())]`.
pub open spec fn noop_attribute() -> Seq<Tok> {
    seq![
        alone('#'),
        Tok::Group(
            Delim::Bracket,
            seq![
                ident("cfg"@),
                Tok::Group(
                    Delim::Paren,
                    seq![ident("all"@), Tok::Group(Delim::Paren, Seq::empty())],
                ),
            ],
        ),
    ]
}

/// The attribute that is put in place of a marker attribute.
pub fn make_noop_attr() -> (r: TokenStream)
    ensures
        tokens_of(r) == noop_attribute(),
{
    proof {
        reveal_strlit("cfg");
        reveal_strlit("all");
    }
    let none = ts_new();
    let mut all = ts_new();
    ts_push_ident(&mut all, "all");
    ts_push_group(&mut all, Delim::Paren, &none);
    let mut cfg = ts_new();
    ts_push_ident(&mut cfg, "cfg");
    ts_push_group(&mut cfg, Delim::Paren, &all);
    let mut out = ts_new();
    ts_push_punct(&mut out, '#', false);
    ts_push_group(&mut out, Delim::Bracket, &cfg);
    proof {
        assert(tokens_of(all) =~= seq![ident("all"@), Tok::Group(Delim::Paren, Seq::empty())]);
        assert(tokens_of(cfg) =~= seq![ident("cfg"@), Tok::Group(Delim::Paren, tokens_of(all))]);
        assert(tokens_of(out) =~= noop_attribute());
    }
    out
}

/// An attribute: `#[path(args)]`.
pub open spec fn attribute(path: Seq<Tok>, args: Seq<Tok>) -> Seq<Tok> {
    seq![alone('#'), Tok::Group(Delim::Bracket, path + seq![Tok::Group(Delim::Paren, args)])]
}

/// What `amass_telety` returns: the item under the resolution mechanism's
/// own attribute, which is told the module's path and where its crate is
/// found, and under `amass` with the remaining arguments.
pub open spec fn spec_amass_telety(telety_path: Seq<Tok>, amass_args: Seq<Tok>, item: Seq<Tok>)
    -> Seq<Tok> {
    attribute(
        private_telety_path() + colon2() + seq![ident("telety"@)],
        telety_path + seq![
            alone(','),
            ident("telety_path"@),
            alone('='),
            string_literal("::amass::__private::telety"@),
        ],
    ) + attribute(colon2() + seq![ident("amass"@)] + colon2() + seq![ident("amass"@)], amass_args)
        + item
}

/// The combined annotation: registers the item with the resolution
/// mechanism and annotates it, in one step. `telety_path` is the path of the
/// module that holds the item, `amass_args` what follows it.
pub fn amass_telety(telety_path: &TokenStream, amass_args: &TokenStream, item: &TokenStream) -> (r:
    TokenStream)
    ensures
        tokens_of(r) == spec_amass_telety(
            tokens_of(*telety_path),
            tokens_of(*amass_args),
            tokens_of(*item),
        ),
{
    proof {
        reveal_strlit("telety");
        reveal_strlit("telety_path");
        reveal_strlit("amass");
        reveal_strlit("::amass::__private::telety");
    }
    let mut first_args = crate::token::ts_clone(telety_path);
    ts_push_punct(&mut first_args, ',', false);
    ts_push_ident(&mut first_args, "telety_path");
    ts_push_punct(&mut first_args, '=', false);
    ts_push_string(&mut first_args, "::amass::__private::telety");
    let mut first = ts_new();
    push_private(&mut first);
    ts_push_ident(&mut first, "telety");
    ts_push_colon2(&mut first);
    ts_push_ident(&mut first, "telety");
    ts_push_group(&mut first, Delim::Paren, &first_args);
    let mut second = ts_new();
    ts_push_colon2(&mut second);
    ts_push_ident(&mut second, "amass");
    ts_push_colon2(&mut second);
    ts_push_ident(&mut second, "amass");
    ts_push_group(&mut second, Delim::Paren, amass_args);
    let mut out = ts_new();
    ts_push_punct(&mut out, '#', false);
    ts_push_group(&mut out, Delim::Bracket, &first);
    ts_push_punct(&mut out, '#', false);
    ts_push_group(&mut out, Delim::Bracket, &second);
    ts_extend(&mut out, item);
    proof {
        assert(tokens_of(first_args) =~= tokens_of(*telety_path) + seq![
            alone(','),
            ident("telety_path"@),
            alone('='),
            string_literal("::amass::__private::telety"@),
        ]);
        assert(tokens_of(first) =~= private_telety_path() + colon2() + seq![ident("telety"@)]
            + seq![Tok::Group(Delim::Paren, tokens_of(first_args))]);
        assert(tokens_of(second) =~= colon2() + seq![ident("amass"@)] + colon2() + seq![
            ident("amass"@),
        ] + seq![Tok::Group(Delim::Paren, tokens_of(*amass_args))]);
        assert(tokens_of(out) =~= spec_amass_telety(
            tokens_of(*telety_path),
            tokens_of(*amass_args),
            tokens_of(*item),
        ));
    }
    out
}

} // verus!
