use amass::accumulator::AmassCommon;
use amass::driver::{expand, Emission};
use amass::emitter::AmassFrom;
use amass::error::Error;
use amass::impl_type::ImplType;
use amass::options::Options;
use amass::syntax::{Attribute, Field, Meta, Path, PathSegment, Resolved, Type, Variant};
use proc_macro2::TokenStream;

fn ts(text: &str) -> TokenStream {
    text.parse().unwrap()
}

/// The tokens as text without the blanks, which differ with the way a
/// stream was made.
fn flat(tokens: &TokenStream) -> String {
    tokens.to_string().split_whitespace().collect()
}

fn attribute(attr: &syn::Attribute) -> Attribute {
    Attribute {
        leading_colon: attr.path().leading_colon.is_some(),
        segments: attr.path().segments.iter().map(|s| s.ident.to_string()).collect(),
        meta: match &attr.meta {
            syn::Meta::Path(_) => Meta::Path,
            syn::Meta::List(list) => Meta::List(list.tokens.clone()),
            syn::Meta::NameValue(_) => Meta::NameValue,
        },
    }
}

fn field(f: &syn::Field) -> Field {
    let tokens = quote::ToTokens::to_token_stream(&f.ty);
    Field {
        ident: f.ident.as_ref().map(|i| ts(&i.to_string())),
        ty: match &f.ty {
            syn::Type::Path(p) => {
                let name = p.path.segments.last().unwrap().ident.to_string();
                let resolved = Resolved { macro_path: ts(&format!("types::{name}")), arguments: None };
                Type::Path(tokens, Ok(resolved))
            }
            _ => Type::Other(tokens),
        },
    }
}

/// What one expansion of a whole tree comes to.
struct Outcome {
    /// The conversions, each as leaf type, root type and the source generated.
    conversions: Vec<(String, String, String)>,
    /// The required continuations that found no composite.
    errors: Vec<String>,
}

/// Follows the expansion of `name` through `declarations`, which holds the
/// annotated enums: every continuation whose target is among them is
/// expanded in turn, with the path that the continuation carries.
fn expand_tree(declarations: &[&str], name: &str, common: AmassCommon, out: &mut Outcome) -> Result<(), Error> {
    let source = declarations
        .iter()
        .map(|d| syn::parse_str::<syn::ItemEnum>(d).unwrap())
        .find(|d| d.ident == name)
        .unwrap();
    let attrs: Vec<Attribute> = source.attrs.iter().map(attribute).collect();
    let options = Options::from_attrs(&attrs)?;
    let variants: Vec<Variant> = source
        .variants
        .iter()
        .map(|v| Variant {
            ident: ts(&v.ident.to_string()),
            attrs: v.attrs.iter().map(attribute).collect(),
            fields: v.fields.iter().map(field).collect(),
        })
        .collect();
    let primary = Path {
        leading_colon: false,
        segments: vec![
            PathSegment { ident: ts("types"), arguments: TokenStream::new() },
            PathSegment { ident: ts(name), arguments: TokenStream::new() },
        ],
    };
    let mut common = common;
    let depth = common.depth();
    let emissions = expand(&mut common, &options, &primary, &variants)?;
    assert_eq!(common.depth(), depth);
    for emission in emissions {
        match emission {
            Emission::Conversion(from) => {
                let generated = from.generate()?;
                out.conversions.push((
                    flat(&from.leaf_type),
                    flat(&from.common.root_type),
                    flat(&generated),
                ));
            }
            Emission::Deferred(d) => {
                let target = flat(&d.target).replace("types::", "");
                let known = declarations
                    .iter()
                    .any(|s| syn::parse_str::<syn::ItemEnum>(s).unwrap().ident == target.as_str());
                if known {
                    expand_tree(declarations, &target, d.common, out)?;
                } else if d.required {
                    out.errors.push(target);
                }
            }
        }
    }
    Ok(())
}

fn expansion(declarations: &[&str], name: &str) -> Outcome {
    let mut out = Outcome { conversions: Vec::new(), errors: Vec::new() };
    let root = AmassCommon::new(TokenStream::new(), ts(&format!("self::{name}")));
    expand_tree(declarations, name, root, &mut out).unwrap();
    out
}

fn body(out: &Outcome, leaf: &str, root: &str) -> Vec<String> {
    out.conversions
        .iter()
        .filter(|(l, r, _)| l == leaf && r == root)
        .map(|(_, _, source)| {
            let start = source.find("->Self{").unwrap() + "->Self{".len();
            source[start..source.len() - 2].to_owned()
        })
        .collect()
}

const BEERS: [&str; 4] = [
    "#[amass] enum Beer { #[amass_action(force)] Lager(Lager), Ale(Ale) }",
    "#[amass] enum Lager { Pilsner(Pilsner), Bock(Bock) }",
    "#[amass] enum Ale { IPA(IPA), Stout(Stout), Wheat(Wheat) }",
    "#[amass] enum IPA { WestCoast, NewEngland, Imperial }",
];

#[test]
fn test() {
    let out = expansion(&BEERS, "Beer");
    assert!(out.errors.is_empty());
    let beers = [
        ("types::IPA", "types::Beer::Ale(types::Ale::IPA(value))"),
        ("types::Ale", "types::Beer::Ale(value)"),
        ("types::Stout", "types::Beer::Ale(types::Ale::Stout(value))"),
        ("types::Wheat", "types::Beer::Ale(types::Ale::Wheat(value))"),
        ("types::Pilsner", "types::Beer::Lager(types::Lager::Pilsner(value))"),
    ];
    for (leaf, expected) in beers {
        let beer = body(&out, leaf, "self::Beer");
        assert_eq!(beer, vec![expected.to_owned()]);
        println!("{beer:?}");
    }
}

#[test]
fn every_level_of_the_tree_converts_to_the_root() {
    let out = expansion(&BEERS, "Beer");
    let leaves: Vec<&str> = out.conversions.iter().map(|(l, _, _)| l.as_str()).collect();
    assert_eq!(
        leaves,
        vec![
            "types::Lager",
            "types::Pilsner",
            "types::Bock",
            "types::Ale",
            "types::IPA",
            "types::Stout",
            "types::Wheat",
        ]
    );
    assert!(out.conversions.iter().all(|(_, root, _)| root == "self::Beer"));
}

#[test]
fn single_level_round_trip() {
    let out = expansion(&["#[amass] enum P { Variant(L) }"], "P");
    assert_eq!(out.conversions.len(), 1);
    assert_eq!(body(&out, "types::L", "self::P"), vec!["types::P::Variant(value)"]);
    assert_eq!(
        out.conversions[0].2,
        "impl::core::convert::From<types::L>forself::P{fnfrom(value:types::L)->Self{types::P::Variant(value)}}"
    );
}

#[test]
fn multi_level_composition() {
    let chain = ["#[amass] enum Root { Mid(Mid) }", "#[amass] enum Mid { Leaf(Leaf) }"];
    let from_root = expansion(&chain, "Root");
    assert_eq!(from_root.conversions.len(), 2);
    assert_eq!(body(&from_root, "types::Mid", "self::Root"), vec!["types::Root::Mid(value)"]);
    assert_eq!(
        body(&from_root, "types::Leaf", "self::Root"),
        vec!["types::Root::Mid(types::Mid::Leaf(value))"]
    );
    let from_mid = expansion(&chain, "Mid");
    assert_eq!(from_mid.conversions.len(), 1);
    assert_eq!(body(&from_mid, "types::Leaf", "self::Mid"), vec!["types::Mid::Leaf(value)"]);
}

#[test]
fn named_fields_along_the_chain() {
    let chain = ["#[amass] enum C { B { b: B } }", "#[amass] enum B { A(A) }"];
    let out = expansion(&chain, "C");
    assert_eq!(body(&out, "types::B", "self::C"), vec!["types::C::B{b:value}"]);
    assert_eq!(body(&out, "types::A", "self::C"), vec!["types::C::B{b:types::B::A(value)}"]);
}

#[test]
fn ignore_suppresses_all_descendants() {
    let tree = [
        "#[amass] enum Root { #[amass_action(ignore)] Mid(Mid), Other(Other) }",
        "#[amass] enum Mid { Leaf(Leaf), Deeper(Deeper) }",
        "#[amass] enum Deeper { Bottom(Bottom) }",
    ];
    let out = expansion(&tree, "Root");
    let leaves: Vec<&str> = out.conversions.iter().map(|(l, _, _)| l.as_str()).collect();
    assert_eq!(leaves, vec!["types::Other"]);
    assert!(out.errors.is_empty());
}

#[test]
fn shallow_truncates_at_one_level() {
    let tree = [
        "#[amass] enum Root { #[amass_action(shallow)] Mid(Mid) }",
        "#[amass] enum Mid { Leaf(Leaf) }",
    ];
    let out = expansion(&tree, "Root");
    assert_eq!(out.conversions.len(), 1);
    assert_eq!(body(&out, "types::Mid", "self::Root"), vec!["types::Root::Mid(value)"]);
}

#[test]
fn force_on_a_type_that_is_no_composite_is_an_error() {
    let out = expansion(&["#[amass] enum Root { #[amass_action(force)] Plain(Plain) }"], "Root");
    assert_eq!(out.errors, vec!["Plain"]);
    assert_eq!(out.conversions.len(), 1);
}

#[test]
fn deep_on_a_type_that_is_no_composite_stops_in_silence() {
    let out = expansion(&["#[amass] enum Root { Plain(Plain) }"], "Root");
    assert!(out.errors.is_empty());
    assert_eq!(out.conversions.len(), 1);
}

#[test]
fn force_is_inherited_by_no_descendant() {
    let tree = [
        "#[amass(, default = force)] enum Root { Mid(Mid) }",
        "#[amass] enum Mid { Leaf(Leaf) }",
    ];
    let out = expansion(&tree, "Root");
    assert!(out.errors.is_empty());
    assert_eq!(out.conversions.len(), 2);
}

#[test]
fn no_duplicate_emission_without_a_diamond() {
    let out = expansion(&BEERS, "Beer");
    let mut keys: Vec<(&String, &String)> = out.conversions.iter().map(|(l, r, _)| (r, l)).collect();
    let all = keys.len();
    keys.sort();
    keys.dedup();
    assert_eq!(keys.len(), all);
}

#[test]
fn a_diamond_emits_the_shared_leaf_twice() {
    let diamond = [
        "#[amass] enum Bottom { Left(Left), Right(Right) }",
        "#[amass] enum Left { Top(Top) }",
        "#[amass] enum Right { Top(Top) }",
    ];
    let out = expansion(&diamond, "Bottom");
    assert_eq!(body(&out, "types::Top", "self::Bottom").len(), 2);
    let broken = [
        "#[amass] enum Bottom { Left(Left), #[amass_action(shallow)] Right(Right) }",
        "#[amass] enum Left { Top(Top) }",
        "#[amass] enum Right { Top(Top) }",
    ];
    let out = expansion(&broken, "Bottom");
    assert_eq!(body(&out, "types::Top", "self::Bottom"), vec!["types::Bottom::Left(types::Left::Top(value))"]);
}

#[test]
fn conversions_by_from_are_the_only_kind() {
    assert_eq!(ImplType::from_ident("From").unwrap(), ImplType::From);
    let err = ImplType::from_ident("Into").unwrap_err();
    assert!(matches!(&err, Error::UnsupportedImpl(s) if s == "Into"));
    assert_eq!(err.message(), "Cannot impl this type");
    assert!(matches!(ImplType::from_ident("from"), Err(Error::UnsupportedImpl(_))));
    let mut out = TokenStream::new();
    ImplType::From.to_tokens(&mut out);
    assert_eq!(out.to_string(), "From");
}

#[test]
fn generated_conversions_can_be_spliced() {
    let out = expansion(&BEERS, "Beer");
    for (_, _, source) in &out.conversions {
        let _ = source;
    }
    let mut common = AmassCommon::new(TokenStream::new(), ts("self::Beer"));
    common.push_variant(amass::accumulator::AmassVariant { path: ts("types::Beer::Ale"), named_field: None });
    let generated = AmassFrom { common, leaf_type: ts("types::Ale") }.generate().unwrap();
    let parsed: syn::ItemImpl = syn::parse2(generated).unwrap();
    assert!(parsed.generics.params.is_empty());
}
