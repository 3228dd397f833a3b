use amass::action::VariantAction;
use amass::error::Error;
use amass::options::Options;
use amass::syntax::{Attribute, Meta, NamedArg};
use proc_macro2::TokenStream;

fn ts(text: &str) -> TokenStream {
    text.parse().unwrap()
}

fn attribute(text: &str) -> Attribute {
    let parsed: syn::DeriveInput = syn::parse_str(&format!("{text} struct S;")).unwrap();
    let attr = &parsed.attrs[0];
    Attribute {
        leading_colon: attr.path().leading_colon.is_some(),
        segments: attr.path().segments.iter().map(|s| s.ident.to_string()).collect(),
        meta: match &attr.meta {
            syn::Meta::Path(_) => Meta::Path,
            syn::Meta::List(list) => Meta::List(list.tokens.clone()),
            syn::Meta::NameValue(_) => Meta::NameValue,
        },
    }
}

fn arg(name: Option<&str>, value: &str) -> NamedArg {
    NamedArg { name: name.map(str::to_owned), value: ts(value) }
}

#[test]
fn empty_arguments_give_no_default() {
    assert_eq!(Options::parse(&ts("")).unwrap().default, None);
    assert_eq!(Options::default().default, None);
}

#[test]
fn a_lone_comma_gives_no_default() {
    assert_eq!(Options::parse(&ts(",")).unwrap().default, None);
}

#[test]
fn default_is_read_after_a_comma() {
    let options = Options::parse(&ts(", default = shallow")).unwrap();
    assert_eq!(options.default, Some(VariantAction::Shallow));
    let options = Options::parse(&ts(", default = force,")).unwrap();
    assert_eq!(options.default, Some(VariantAction::Force));
}

#[test]
fn arguments_must_start_with_a_comma() {
    let err = Options::parse(&ts("default = deep")).unwrap_err();
    assert!(matches!(&err, Error::Syntax(m) if m == "unexpected token"));
}

#[test]
fn unknown_parameters_are_refused() {
    let err = Options::parse(&ts(", depth = deep")).unwrap_err();
    assert!(matches!(err, Error::InvalidParameter(0)));
    assert_eq!(err.message(), "Invalid parameter");
    let err = Options::parse(&ts(", default = deep, other = 1")).unwrap_err();
    assert!(matches!(err, Error::InvalidParameter(1)));
    let err = Options::parse(&ts(", a::default = deep")).unwrap_err();
    assert!(matches!(err, Error::InvalidParameter(0)));
}

#[test]
fn a_repeated_default_is_refused() {
    let err = Options::parse(&ts(", default = deep, default = deep")).unwrap_err();
    assert!(matches!(err, Error::DuplicateParameter(1)));
    assert_eq!(err.message(), "parameter appears multiple times");
}

#[test]
fn an_invalid_policy_value_is_refused() {
    let err = Options::parse(&ts(", default = always")).unwrap_err();
    assert!(matches!(&err, Error::InvalidAction(s) if s == "always"));
    let err = Options::parse(&ts(", default = \"deep\"")).unwrap_err();
    assert!(matches!(err, Error::Syntax(_)));
}

#[test]
fn positional_arguments_are_refused() {
    assert!(matches!(Options::parse(&ts(", deep")), Err(Error::Syntax(_))));
    assert!(matches!(Options::parse(&ts("crate")), Err(Error::Syntax(_))));
}

#[test]
fn named_arguments_without_tokens() {
    assert_eq!(Options::from_named_args(&[]).unwrap().default, None);
    let one = [arg(Some("default"), "ignore")];
    assert_eq!(Options::from_named_args(&one).unwrap().default, Some(VariantAction::Ignore));
    let unnamed = [arg(None, "ignore")];
    assert!(matches!(Options::from_named_args(&unnamed), Err(Error::InvalidParameter(0))));
    let three = [arg(Some("default"), "deep"), arg(Some("x"), "1"), arg(Some("default"), "deep")];
    assert!(matches!(Options::from_named_args(&three), Err(Error::InvalidParameter(1))));
}

#[test]
fn set_takes_one_parameter_into_account() {
    let deep = VariantAction::Deep;
    assert_eq!(Options::set(None, Some("default"), Ok(deep), 0).unwrap(), Some(deep));
    assert!(matches!(
        Options::set(Some(deep), Some("default"), Ok(deep), 3),
        Err(Error::DuplicateParameter(3))
    ));
    assert!(matches!(Options::set(None, Some("Default"), Ok(deep), 2), Err(Error::InvalidParameter(2))));
    assert!(matches!(Options::set(None, None, Ok(deep), 1), Err(Error::InvalidParameter(1))));
    assert!(matches!(
        Options::set(None, Some("default"), Err(Error::NotFound), 0),
        Err(Error::NotFound)
    ));
}

#[test]
fn the_configuration_attribute_is_found_among_others() {
    let attrs = [
        attribute("#[derive(Debug)]"),
        attribute("#[amass(, default = shallow)]"),
        attribute("#[non_exhaustive]"),
    ];
    assert_eq!(Options::from_attrs(&attrs).unwrap().default, Some(VariantAction::Shallow));
}

#[test]
fn a_bare_configuration_attribute_gives_no_default() {
    assert_eq!(Options::from_attrs(&[attribute("#[amass]")]).unwrap().default, None);
    assert_eq!(Options::from_attrs(&[attribute("#[amass()]")]).unwrap().default, None);
}

#[test]
fn the_attribute_is_known_by_the_end_of_its_path() {
    let attrs = [attribute("#[::amass::amass(, default = force)]")];
    assert_eq!(Options::from_attrs(&attrs).unwrap().default, Some(VariantAction::Force));
}

#[test]
fn a_missing_configuration_is_an_error() {
    let err = Options::from_attrs(&[]).unwrap_err();
    assert!(matches!(err, Error::NotFound));
    assert_eq!(
        err.message(),
        "'amass' attribute not found (aliasing the attribute is not supported)"
    );
    let attrs = [attribute("#[derive(Debug)]"), attribute("#[amass_action(deep)]")];
    assert!(matches!(Options::from_attrs(&attrs), Err(Error::NotFound)));
}

#[test]
fn a_second_configuration_is_an_error() {
    let attrs = [attribute("#[amass]"), attribute("#[amass(, default = deep)]")];
    let err = Options::from_attrs(&attrs).unwrap_err();
    assert!(matches!(err, Error::DuplicateAttribute(1)));
    assert_eq!(err.message(), "Only one 'amass' attribute is allowed");
}

#[test]
fn a_configuration_written_as_value_is_an_error() {
    let attrs = [attribute("#[doc(hidden)]"), attribute("#[amass = \"deep\"]")];
    let err = Options::from_attrs(&attrs).unwrap_err();
    assert!(matches!(err, Error::ExpectedList(1)));
    assert_eq!(err.message(), "expected list arguments");
}

#[test]
fn a_bad_configuration_is_reported_where_it_stands() {
    let attrs = [attribute("#[amass(, default = never)]"), attribute("#[amass]")];
    let err = Options::from_attrs(&attrs).unwrap_err();
    assert!(matches!(&err, Error::InvalidAction(s) if s == "never"));
}
