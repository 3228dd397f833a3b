use amass::accumulator::AmassCommon;
use amass::action::VariantAction;
use amass::driver::{expand, expand_variant, Emission};
use amass::error::Error;
use amass::options::Options;
use amass::syntax::{
    Attribute, Field, GenericArguments, Meta, Path, PathSegment, Resolved, Type, Variant,
};
use proc_macro2::TokenStream;

fn ts(text: &str) -> TokenStream {
    text.parse().unwrap()
}

/// The tokens as text without the blanks, which differ with the way a
/// stream was made.
fn flat(tokens: &TokenStream) -> String {
    tokens.to_string().split_whitespace().collect()
}

fn attribute(attr: &syn::Attribute) -> Attribute {
    Attribute {
        leading_colon: attr.path().leading_colon.is_some(),
        segments: attr.path().segments.iter().map(|s| s.ident.to_string()).collect(),
        meta: match &attr.meta {
            syn::Meta::Path(_) => Meta::Path,
            syn::Meta::List(list) => Meta::List(list.tokens.clone()),
            syn::Meta::NameValue(_) => Meta::NameValue,
        },
    }
}

/// Stands for the resolution mechanism: every path type but `Unknown` gets
/// the canonical path `canon::<last segment>` and keeps its arguments.
fn resolve(ty: &syn::TypePath) -> Option<Resolved> {
    let last = ty.path.segments.last().unwrap();
    if last.ident == "Unknown" {
        return None;
    }
    let arguments = match &last.arguments {
        syn::PathArguments::AngleBracketed(a) => Some(GenericArguments {
            colon2: a.colon2_token.is_some(),
            args: a.args.iter().map(|x| quote::ToTokens::to_token_stream(x)).fold(
                TokenStream::new(),
                |mut acc, x| {
                    if !acc.is_empty() {
                        acc.extend(ts(","));
                    }
                    acc.extend(x);
                    acc
                },
            ),
        }),
        _ => None,
    };
    Some(Resolved { macro_path: ts(&format!("canon::{}", last.ident)), arguments })
}

fn field(f: &syn::Field) -> Field {
    let tokens = quote::ToTokens::to_token_stream(&f.ty);
    Field {
        ident: f.ident.as_ref().map(|i| ts(&i.to_string())),
        ty: match &f.ty {
            syn::Type::Path(p) => {
                Type::Path(tokens, resolve(p).ok_or_else(|| "type must have an alias".to_owned()))
            }
            _ => Type::Other(tokens),
        },
    }
}

fn variants(source: &str) -> Vec<Variant> {
    let item: syn::ItemEnum = syn::parse_str(source).unwrap();
    item.variants
        .iter()
        .map(|v| Variant {
            ident: ts(&v.ident.to_string()),
            attrs: v.attrs.iter().map(attribute).collect(),
            fields: v.fields.iter().map(field).collect(),
        })
        .collect()
}

fn primary(name: &str) -> Path {
    Path {
        leading_colon: false,
        segments: vec![
            PathSegment { ident: ts("canon"), arguments: TokenStream::new() },
            PathSegment { ident: ts(name), arguments: TokenStream::new() },
        ],
    }
}

fn root(name: &str) -> AmassCommon {
    AmassCommon::new(TokenStream::new(), ts(&format!("self::{name}")))
}

fn describe(emission: &Emission) -> String {
    let mut out = TokenStream::new();
    match emission {
        Emission::Conversion(from) => {
            from.to_tokens(&mut out);
            format!("from {}", flat(&out))
        }
        Emission::Deferred(d) => {
            d.common.to_tokens(&mut out);
            let kind = if d.required { "require" } else { "continue" };
            format!("{kind} {} <{}> {}", flat(&d.target), flat(&d.arguments), flat(&out))
        }
    }
}

fn run(name: &str, default: Option<VariantAction>, source: &str) -> Result<Vec<String>, Error> {
    let mut common = root(name);
    let result = expand(&mut common, &Options { default }, &primary(name), &variants(source));
    assert_eq!(common.depth(), 0);
    result.map(|emissions| emissions.iter().map(describe).collect())
}

#[test]
fn deep_emits_a_conversion_and_a_continuation() {
    let out = run("P", None, "enum P { Variant(L) }").unwrap();
    assert_eq!(
        out,
        vec![
            "from self::P[canon::P::Variant]canon::L",
            "continue canon::L <> self::P[canon::P::Variant]",
        ]
    );
}

#[test]
fn shallow_emits_one_conversion_and_no_continuation() {
    let out = run("P", None, "enum P { #[amass_action(shallow)] Variant(L) }").unwrap();
    assert_eq!(out, vec!["from self::P[canon::P::Variant]canon::L"]);
    let out = run("P", Some(VariantAction::Shallow), "enum P { A(L), B { m: M } }").unwrap();
    assert_eq!(
        out,
        vec!["from self::P[canon::P::A]canon::L", "from self::P[canon::P::B.m]canon::M"]
    );
}

#[test]
fn ignore_emits_nothing() {
    let out = run("P", None, "enum P { #[amass_action(ignore)] Variant(L) }").unwrap();
    assert!(out.is_empty());
    let out = run("P", Some(VariantAction::Ignore), "enum P { A(L), B(M), C, D(N, O) }").unwrap();
    assert!(out.is_empty());
}

#[test]
fn force_marks_the_continuation_as_required() {
    let out = run("Beer", None, "enum Beer { #[amass_action(force)] Lager(Lager), Ale(Ale) }");
    assert_eq!(
        out.unwrap(),
        vec![
            "from self::Beer[canon::Beer::Lager]canon::Lager",
            "require canon::Lager <> self::Beer[canon::Beer::Lager]",
            "from self::Beer[canon::Beer::Ale]canon::Ale",
            "continue canon::Ale <> self::Beer[canon::Beer::Ale]",
        ]
    );
}

#[test]
fn the_override_wins_over_the_default() {
    let source = "enum P { #[amass_action(shallow)] Default(i32), Alternate(i32) }";
    let out = run("P", Some(VariantAction::Ignore), source).unwrap();
    assert_eq!(out, vec!["from self::P[canon::P::Default]canon::i32"]);
}

#[test]
fn variants_without_exactly_one_field_are_skipped() {
    let out = run("P", None, "enum P { Unit, Pair(A, B), Named { a: A, b: B }, One(L) }").unwrap();
    assert_eq!(
        out,
        vec!["from self::P[canon::P::One]canon::L", "continue canon::L <> self::P[canon::P::One]"]
    );
}

#[test]
fn force_on_a_variant_without_exactly_one_field_is_an_error() {
    let err = run("P", None, "enum P { A(L), #[amass_action(force)] Unit }").unwrap_err();
    assert!(matches!(err, Error::NotSingleField(1)));
    assert_eq!(err.message(), "Variant must be a single field variant");
    let err = run("P", Some(VariantAction::Force), "enum P { Pair(A, B) }").unwrap_err();
    assert!(matches!(err, Error::NotSingleField(0)));
}

#[test]
fn force_is_checked_before_ignore_is_not() {
    let out = run("P", None, "enum P { #[amass_action(ignore)] Unit, #[amass_action(ignore)] T((A,)) }");
    assert!(out.unwrap().is_empty());
}

#[test]
fn types_that_are_no_paths_are_skipped_unless_forced() {
    let out = run("G", None, "enum G { #[amass_action(deep)] T((T,)), R(&'static str) }").unwrap();
    assert!(out.is_empty());
    let err = run("G", None, "enum G { A(L), #[amass_action(force)] T((T,)) }").unwrap_err();
    assert!(matches!(err, Error::NonPathType(1)));
    assert_eq!(err.message(), "Non-path types cannot have deep impls");
}

#[test]
fn deep_passes_over_a_type_without_canonical_name() {
    let out = run("P", None, "enum P { A(Unknown), B(L) }").unwrap();
    assert_eq!(
        out,
        vec!["from self::P[canon::P::B]canon::L", "continue canon::L <> self::P[canon::P::B]"]
    );
    let err = run("P", Some(VariantAction::Force), "enum P { B(L), A(Unknown) }").unwrap_err();
    assert!(matches!(&err, Error::Unresolvable(1, reason) if reason == "type must have an alias"));
    assert_eq!(err.message(), "type must have an alias");
}

#[test]
fn shallow_needs_the_canonical_name() {
    let source = "enum P { A(L), B(M), #[amass_action(shallow)] C(Unknown) }";
    let err = run("P", None, source).unwrap_err();
    assert!(matches!(err, Error::Unresolvable(2, _)));
    let err = run("P", Some(VariantAction::Shallow), "enum P { A(Unknown) }").unwrap_err();
    assert!(matches!(err, Error::Unresolvable(0, _)));
}

#[test]
fn ignore_does_not_ask_for_the_canonical_name() {
    let out = run("P", Some(VariantAction::Ignore), "enum P { A(Unknown) }").unwrap();
    assert!(out.is_empty());
}

#[test]
fn a_refused_policy_attribute_refuses_the_invocation() {
    let err = run("P", None, "enum P { A(L), #[amass_action(sideways)] B(M) }").unwrap_err();
    assert!(matches!(&err, Error::InvalidAction(s) if s == "sideways"));
    let source = "enum P { #[amass_action(deep)] #[amass_action(deep)] A(L) }";
    assert!(matches!(run("P", None, source), Err(Error::DuplicateAttribute(1))));
}

#[test]
fn generic_arguments_go_to_the_leaf_and_to_the_continuation() {
    let out = run("Generic1", None, "enum Generic1<T> { G2(Generic2<T, T>) }").unwrap();
    assert_eq!(
        out,
        vec![
            "from self::Generic1[canon::Generic1::G2]canon::Generic2<T,T>",
            "continue canon::Generic2 <T,T> self::Generic1[canon::Generic1::G2]",
        ]
    );
}

#[test]
fn the_path_is_extended_from_where_the_driver_was_entered() {
    let mut common = root("Root");
    common.push_variant(amass::accumulator::AmassVariant {
        path: ts("canon::Root::Mid"),
        named_field: None,
    });
    let vs = variants("enum Mid { Leaf(Leaf) }");
    let out = expand(&mut common, &Options { default: None }, &primary("Mid"), &vs).unwrap();
    assert_eq!(common.depth(), 1);
    let out: Vec<String> = out.iter().map(describe).collect();
    assert_eq!(
        out,
        vec![
            "from self::Root[canon::Root::Mid,canon::Mid::Leaf]canon::Leaf",
            "continue canon::Leaf <> self::Root[canon::Root::Mid,canon::Mid::Leaf]",
        ]
    );
}

#[test]
fn the_accumulator_is_restored_after_an_error() {
    let mut common = root("P");
    let vs = variants("enum P { A(L), #[amass_action(force)] B(&'static str) }");
    let result = expand(&mut common, &Options { default: None }, &primary("P"), &vs);
    assert!(matches!(result, Err(Error::NonPathType(1))));
    assert_eq!(common.depth(), 0);
}

#[test]
fn one_variant_alone() {
    let mut common = root("P");
    let vs = variants("enum P { A(L), B { inner: M } }");
    let out = expand_variant(&mut common, Some(VariantAction::Shallow), &primary("P"), &vs[1], 1);
    let out: Vec<String> = out.unwrap().iter().map(describe).collect();
    assert_eq!(out, vec!["from self::P[canon::P::B.inner]canon::M"]);
    assert_eq!(common.depth(), 0);
}

#[test]
fn no_variants_no_emissions() {
    assert!(run("P", None, "enum P {}").unwrap().is_empty());
}

#[test]
fn distinct_wrapped_types_give_distinct_conversions() {
    let out = run("P", Some(VariantAction::Shallow), "enum P { A(L), B(M), C(N) }").unwrap();
    let mut leaves: Vec<&String> = out.iter().collect();
    leaves.sort();
    leaves.dedup();
    assert_eq!(leaves.len(), 3);
}
