use amass::accumulator::{AmassCommon, AmassVariant};
use amass::emitter::AmassFrom;
use proc_macro2::TokenStream;

fn ts(text: &str) -> TokenStream {
    text.parse().unwrap()
}

/// The tokens as text without the blanks, which differ with the way a
/// stream was made.
fn flat(tokens: &TokenStream) -> String {
    tokens.to_string().split_whitespace().collect()
}

fn step(path: &str, field: Option<&str>) -> AmassVariant {
    AmassVariant { path: ts(path), named_field: field.map(ts) }
}

#[test]
fn single_tuple_step_wraps_the_value() {
    let mut common = AmassCommon::new(ts(""), ts("self::P"));
    common.push_variant(step("self::P::Variant", None));
    let from = AmassFrom { common, leaf_type: ts("self::L") };
    let generated = from.generate().unwrap();
    let expected = ts(
        "impl ::core::convert::From<self::L> for self::P {
            fn from(value: self::L) -> Self { self::P::Variant(value) }
        }",
    );
    assert_eq!(flat(&generated), flat(&expected));
}

#[test]
fn steps_nest_from_innermost_to_outermost() {
    let mut common = AmassCommon::new(ts("<T: Clone>"), ts("self::Root<T>"));
    common.push_variant(step("a::Root::Mid", None));
    common.push_variant(step("b::Mid::Leaf", Some("inner")));
    let from = AmassFrom { common, leaf_type: ts("c::Leaf<T>") };
    let generated = from.generate().unwrap();
    let expected = ts(
        "impl<T: Clone> ::core::convert::From<c::Leaf<T> > for self::Root<T> {
            fn from(value: c::Leaf<T>) -> Self { a::Root::Mid(b::Mid::Leaf { inner: value }) }
        }",
    );
    assert_eq!(flat(&generated), flat(&expected));
}

#[test]
fn an_empty_path_returns_the_value_itself() {
    let from = AmassFrom { common: AmassCommon::new(ts(""), ts("X")), leaf_type: ts("X") };
    let expected = ts("impl ::core::convert::From<X> for X { fn from(value: X) -> Self { value } }");
    assert_eq!(flat(&from.generate().unwrap()), flat(&expected));
}

#[test]
fn defaults_of_generic_parameters_are_left_out() {
    let mut common = AmassCommon::new(ts("<'a, T: 'a + Clone = u8, const N: usize = 3>"), ts("R<'a, T, N>"));
    common.push_variant(step("R::V", None));
    let from = AmassFrom { common, leaf_type: ts("L") };
    let expected = ts(
        "impl<'a, T: 'a + Clone, const N: usize> ::core::convert::From<L> for R<'a, T, N> {
            fn from(value: L) -> Self { R::V(value) }
        }",
    );
    assert_eq!(flat(&from.generate().unwrap()), flat(&expected));
}

#[test]
fn parameters_that_are_no_generics_are_refused() {
    let from = AmassFrom { common: AmassCommon::new(ts("T"), ts("X")), leaf_type: ts("X") };
    assert!(matches!(from.generate(), Err(amass::error::Error::Syntax(_))));
}

#[test]
fn a_named_field_is_set_in_braces() {
    let mut common = AmassCommon::new(ts(""), ts("self::C"));
    common.push_variant(step("self::C::B", Some("b")));
    let from = AmassFrom { common, leaf_type: ts("self::B") };
    let expected = ts(
        "impl ::core::convert::From<self::B> for self::C {
            fn from(value: self::B) -> Self { self::C::B { b: value } }
        }",
    );
    assert_eq!(flat(&from.generate().unwrap()), flat(&expected));
}

#[test]
fn the_generated_source_is_an_impl_that_syn_reads() {
    let mut common = AmassCommon::new(ts("<T>"), ts("self::Root<T>"));
    common.push_variant(step("a::Root::Mid", None));
    common.push_variant(step("b::Mid::Leaf", None));
    let from = AmassFrom { common, leaf_type: ts("c::Leaf") };
    let parsed: syn::ItemImpl = syn::parse2(from.generate().unwrap()).unwrap();
    assert_eq!(parsed.items.len(), 1);
    assert!(parsed.trait_.is_some());
}
