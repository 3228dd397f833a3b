use amass::accumulator::{AmassCommon, AmassVariant};
use amass::emitter::AmassFrom;
use amass::syntax::{Field, Path, PathSegment, Type, Variant};
use proc_macro2::TokenStream;

fn ts(text: &str) -> TokenStream {
    text.parse().unwrap()
}

/// The tokens as text without the blanks, which differ with the way a
/// stream was made.
fn flat(tokens: &TokenStream) -> String {
    tokens.to_string().split_whitespace().collect()
}

fn path(leading_colon: bool, segments: &[(&str, &str)]) -> Path {
    Path {
        leading_colon,
        segments: segments
            .iter()
            .map(|(ident, arguments)| PathSegment { ident: ts(ident), arguments: ts(arguments) })
            .collect(),
    }
}

fn variant(name: &str) -> Variant {
    Variant { ident: ts(name), attrs: Vec::new(), fields: Vec::new() }
}

fn field(name: Option<&str>, ty: &str) -> Field {
    Field { ident: name.map(ts), ty: Type::Other(ts(ty)) }
}

fn written(common: &AmassCommon) -> String {
    let mut out = TokenStream::new();
    common.to_tokens(&mut out);
    flat(&out)
}

#[test]
fn a_new_accumulator_has_no_step() {
    let common = AmassCommon::new(ts("<T>"), ts("self::Root<T>"));
    assert_eq!(common.depth(), 0);
    assert_eq!(written(&common), flat(&ts("<T> self::Root<T> []")));
}

#[test]
fn push_appends_and_pop_removes_the_last_step() {
    let mut common = AmassCommon::new(ts(""), ts("self::Root"));
    common.push_variant(AmassVariant { path: ts("a::Root::A"), named_field: None });
    common.push_variant(AmassVariant { path: ts("b::Mid::B"), named_field: Some(ts("inner")) });
    assert_eq!(common.depth(), 2);
    assert_eq!(written(&common), flat(&ts("self::Root [a::Root::A, b::Mid::B.inner]")));
    common.pop_variant();
    assert_eq!(common.depth(), 1);
    assert_eq!(written(&common), flat(&ts("self::Root [a::Root::A,]")));
    common.pop_variant();
    assert_eq!(common.depth(), 0);
    assert_eq!(written(&common), flat(&ts("self::Root []")));
}

#[test]
fn a_push_after_a_pop_adds_no_second_comma() {
    let mut common = AmassCommon::new(ts(""), ts("self::Root"));
    common.push_variant(AmassVariant { path: ts("a::Root::A"), named_field: None });
    common.push_variant(AmassVariant { path: ts("b::Mid::B"), named_field: None });
    common.pop_variant();
    common.push_variant(AmassVariant { path: ts("b::Mid::C"), named_field: None });
    assert_eq!(common.depth(), 2);
    assert_eq!(written(&common), flat(&ts("self::Root [a::Root::A, b::Mid::C]")));
}

#[test]
fn a_copy_is_independent() {
    let mut common = AmassCommon::new(ts(""), ts("self::Root"));
    common.push_variant(AmassVariant { path: ts("a::Root::A"), named_field: None });
    let copy = common.clone();
    common.pop_variant();
    assert_eq!(copy.depth(), 1);
    assert_eq!(written(&copy), flat(&ts("self::Root [a::Root::A]")));
}

#[test]
fn the_step_of_a_tuple_field_is_the_constructor_path() {
    let enum_type = path(false, &[("crate", ""), ("types", ""), ("Beer", "")]);
    let step = AmassVariant::from_field(&enum_type, &variant("Ale"), &field(None, "Ale")).unwrap();
    assert_eq!(flat(&step.path), flat(&ts("crate::types::Beer::Ale")));
    assert!(step.named_field.is_none());
}

#[test]
fn the_step_of_a_named_field_keeps_the_name() {
    let enum_type = path(true, &[("krate", ""), ("C", "")]);
    let step = AmassVariant::from_field(&enum_type, &variant("B"), &field(Some("b"), "B")).unwrap();
    assert_eq!(flat(&step.path), flat(&ts("::krate::C::B")));
    assert_eq!(step.named_field.unwrap().to_string(), "b");
}

#[test]
fn generic_arguments_are_dropped_from_the_constructor_path() {
    let enum_type = path(false, &[("m", ""), ("Generic1", "<T>")]);
    let step = AmassVariant::from_field(&enum_type, &variant("G2"), &field(None, "X")).unwrap();
    assert_eq!(flat(&step.path), flat(&ts("m::Generic1::G2")));
}

#[test]
fn a_step_is_written_with_a_dot_before_the_field() {
    let mut out = TokenStream::new();
    AmassVariant { path: ts("a::B::C"), named_field: Some(ts("f")) }.to_tokens(&mut out);
    assert_eq!(flat(&out), flat(&ts("a::B::C.f")));
    let mut out = ts("x");
    AmassVariant { path: ts("a::B::C"), named_field: None }.to_tokens(&mut out);
    assert_eq!(flat(&out), flat(&ts("x a::B::C")));
}

#[test]
fn a_conversion_request_is_the_accumulator_and_the_leaf() {
    let mut common = AmassCommon::new(ts("<T>"), ts("self::R<T>"));
    common.push_variant(AmassVariant { path: ts("p::R::V"), named_field: None });
    let from = AmassFrom { common, leaf_type: ts("q::Leaf<T>") };
    let mut out = TokenStream::new();
    from.to_tokens(&mut out);
    assert_eq!(flat(&out), flat(&ts("<T> self::R<T> [p::R::V] q::Leaf<T>")));
}

#[test]
fn the_written_accumulator_is_read_back_part_by_part() {
    let mut common = AmassCommon::new(ts("<T: Clone>"), ts("self::Root<T>"));
    common.push_variant(AmassVariant { path: ts("a::Root::Mid"), named_field: None });
    common.push_variant(AmassVariant { path: ts("b::Mid::Leaf"), named_field: Some(ts("inner")) });
    let mut out = TokenStream::new();
    common.to_tokens(&mut out);
    let reader = |input: syn::parse::ParseStream| -> syn::Result<(usize, String, Vec<String>)> {
        let generics: syn::Generics = input.parse()?;
        let root: syn::Type = input.parse()?;
        let steps: proc_macro2::Group = input.parse()?;
        let steps = flat(&steps.stream()).split(',').map(str::to_owned).collect();
        Ok((generics.params.len(), flat(&quote::ToTokens::to_token_stream(&root)), steps))
    };
    let (parameters, root, steps) = syn::parse::Parser::parse2(reader, out).unwrap();
    assert_eq!(parameters, 1);
    assert_eq!(root, "self::Root<T>");
    assert_eq!(steps, vec!["a::Root::Mid", "b::Mid::Leaf.inner"]);
}
