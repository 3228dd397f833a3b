//! What the library takes from `syn` and `telety`: each function here makes
//! one computation of an outside crate on token streams, and its contract is
//! believed, not proved.

use vstd::prelude::*;
use proc_macro2::TokenStream;
use quote::ToTokens;
use syn::parse::Parser;
use syn::punctuated::Punctuated;
use crate::syntax::{views, NamedArg, NamedArgView};
use crate::token::{alone, colon2, ident, is_plain_ident, tokens_of, Delim, Tok};

verus! {

/// What `syn` makes of tokens that should be one identifier: the
/// identifier's text, or the parser's message.
pub uninterp spec fn syn_ident(tokens: Seq<Tok>) -> Result<Seq<char>, Seq<char>>;

/// `syn::parse2::<syn::Ident>`: the text of the identifier that the stream
/// is read as, or the message of the error. The result depends on the tokens
/// alone.
#[verifier::external_body]
pub(crate) fn parse_ident(ts: &TokenStream) -> (r: Result<String, String>)
    ensures
        match r {
            Ok(s) => syn_ident(tokens_of(*ts)) == Ok::<Seq<char>, Seq<char>>(s@),
            Err(m) => syn_ident(tokens_of(*ts)) == Err::<Seq<char>, Seq<char>>(m@),
        },
{
    match syn::parse2::<syn::Ident>(ts.clone()) {
        Ok(ident) => Ok(ident.to_string()),
        Err(e) => Err(e.to_string()),
    }
}

/// What `syn` makes of tokens that should be a list of `name = value` pairs
/// separated by commas: the pairs in order, or the parser's message.
pub uninterp spec fn syn_name_values(tokens: Seq<Tok>) -> Result<Seq<NamedArgView>, Seq<char>>;

/// `Punctuated::<MetaNameValue, Comma>::parse_terminated` on the whole stream:
/// of each pair the name, where `Path::get_ident` gives one, and the tokens of
/// the value; or the message of the error. The result depends on the tokens
/// alone.
#[verifier::external_body]
pub(crate) fn parse_name_values(ts: &TokenStream) -> (r: Result<Vec<NamedArg>, String>)
    ensures
        match r {
            Ok(args) => syn_name_values(tokens_of(*ts)) == Ok::<Seq<NamedArgView>, Seq<char>>(
                views(args@),
            ),
            Err(m) => syn_name_values(tokens_of(*ts)) == Err::<Seq<NamedArgView>, Seq<char>>(m@),
        },
{
    let parser = Punctuated::<syn::MetaNameValue, syn::token::Comma>::parse_terminated;
    let pairs = match parser.parse2(ts.clone()) {
        Ok(pairs) => pairs,
        Err(e) => return Err(e.to_string()),
    };
    let mut args = Vec::new();
    for pair in pairs.iter() {
        let name = match pair.path.get_ident() {
            Some(ident) => Some(ident.to_string()),
            None => None,
        };
        args.push(NamedArg { name, value: pair.value.to_token_stream() });
    }
    Ok(args)
}

/// What `syn` makes of a list of generic parameters for the head of an
/// `impl`: the parameters with their bounds and without their defaults, or,
/// where the tokens are no list of generic parameters, the parser's message.
pub uninterp spec fn syn_impl_generics(parameters: Seq<Tok>) -> Result<Seq<Tok>, Seq<char>>;

/// `syn::parse2::<syn::Generics>`, then `Generics::split_for_impl`: the first
/// part of the split, as tokens, or the message of the parser's error. The
/// result depends on the tokens alone.
#[verifier::external_body]
pub(crate) fn impl_generics(parameters: &TokenStream) -> (r: Result<TokenStream, String>)
    ensures
        match r {
            Ok(ts) => syn_impl_generics(tokens_of(*parameters)) == Ok::<Seq<Tok>, Seq<char>>(
                tokens_of(ts),
            ),
            Err(m) => syn_impl_generics(tokens_of(*parameters)) == Err::<Seq<Tok>, Seq<char>>(m@),
        },
{
    match syn::parse2::<syn::Generics>(parameters.clone()) {
        Ok(generics) => Ok(generics.split_for_impl().0.to_token_stream()),
        Err(e) => Err(e.to_string()),
    }
}

/// What `syn` makes of tokens that should be a path: the path as `syn`
/// prints it again, or the parser's message.
pub uninterp spec fn syn_path(tokens: Seq<Tok>) -> Result<Seq<Tok>, Seq<char>>;

/// The call that `telety` writes to have the definition of the type at
/// `macro_path` put in place of `needle` in `haystack`: a call of the type's
/// macro with the command `ty` in its first version, inside a call of
/// `try_invoke!` from the crate at `telety_path`, which expands to `fallback`
/// where the type has no such macro.
pub open spec fn telety_invocation(
    macro_path: Seq<Tok>,
    needle: Seq<char>,
    haystack: Seq<Tok>,
    fallback: Seq<Tok>,
    telety_path: Seq<Tok>,
) -> Seq<Tok> {
    telety_path + colon2() + seq![ident("util"@)] + colon2() + seq![
        ident("try_invoke"@),
        alone('!'),
        Tok::Group(
            Delim::Brace,
            macro_path + seq![
                alone('!'),
                Tok::Group(
                    Delim::Brace,
                    seq![
                        Tok::Literal("1"@),
                        alone(','),
                        ident("ty"@),
                        alone(','),
                        ident(needle),
                        alone(','),
                    ] + haystack,
                ),
            ] + fallback,
        ),
    ]
}

/// What `telety_apply` returns: the call, with the two paths as `syn` reads
/// them; or, where one of them is no path, the parser's message, that of the
/// macro's path first.
pub open spec fn telety_ty_apply(
    macro_path: Seq<Tok>,
    needle: Seq<char>,
    haystack: Seq<Tok>,
    fallback: Seq<Tok>,
    telety_path: Seq<Tok>,
) -> Result<Seq<Tok>, Seq<char>> {
    match syn_path(macro_path) {
        Err(m) => Err(m),
        Ok(target) => match syn_path(telety_path) {
            Err(m) => Err(m),
            Ok(krate) => Ok(telety_invocation(target, needle, haystack, fallback, krate)),
        },
    }
}

/// `telety::v1::TY.apply`, with `Apply::with_fallback` and
/// `Apply::with_telety_path`, as tokens: `ToTokens for Apply` writes the two
/// paths, the needle, the haystack and the fallback into a fixed frame. The
/// two paths are read by `syn::parse2::<syn::Path>`; the needle is made by
/// `Ident::new`, which panics on text that is no identifier.
#[verifier::external_body]
pub(crate) fn telety_apply(
    macro_path: &TokenStream,
    needle: &str,
    haystack: &TokenStream,
    fallback: &TokenStream,
    telety_path: &TokenStream,
) -> (r: Result<TokenStream, String>)
    requires
        is_plain_ident(needle@),
    ensures
        match r {
            Ok(ts) => syn_path(tokens_of(*macro_path)) matches Ok(target) && (syn_path(
                tokens_of(*telety_path),
            ) matches Ok(krate) && tokens_of(ts) == telety_invocation(
                target,
                needle@,
                tokens_of(*haystack),
                tokens_of(*fallback),
                krate,
            )),
            Err(m) => (syn_path(tokens_of(*macro_path)) matches Err(e) && e == m@) || (syn_path(
                tokens_of(*macro_path),
            ) is Ok && (syn_path(tokens_of(*telety_path)) matches Err(e) && e == m@)),
        },
{
    let macro_path = match syn::parse2::<syn::Path>(macro_path.clone()) {
        Ok(path) => path,
        Err(e) => return Err(e.to_string()),
    };
    let telety_path = match syn::parse2::<syn::Path>(telety_path.clone()) {
        Ok(path) => path,
        Err(e) => return Err(e.to_string()),
    };
    let needle = proc_macro2::Ident::new(needle, proc_macro2::Span::call_site());
    let apply = telety::v1::TY.apply(macro_path, needle, haystack.clone());
    Ok(apply.with_fallback(fallback.clone()).with_telety_path(telety_path).into_token_stream())
}

} // verus!
