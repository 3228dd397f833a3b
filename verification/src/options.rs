//! The configuration of one composite type.

use vstd::prelude::*;
use vstd::string::*;
use proc_macro2::TokenStream;
use crate::action::VariantAction;
use crate::error::{outcome, scan_unique, scan_unique_refusal_stays, str_eq, Error, ErrorView};
use crate::outside::{parse_name_values, syn_name_values};
use crate::syntax::{views, Attribute, AttributeView, Meta, MetaView, NamedArg, NamedArgView};
use crate::token::{first_punct, tokens_of, ts_punct, ts_split_first, Tok};

verus! {

/// The configuration that the `amass` attribute of a declaration gives.
#[derive(Debug)]
pub struct Options {
    /// The policy of variants that have none of their own; where it is
    /// absent, such variants are under `Deep`.
    pub default: Option<VariantAction>,
}

impl Options {
    /// What one named parameter does to the default read so far: only
    /// `default` is a parameter, its value is a policy keyword, and it may
    /// stand once.
    pub open spec fn spec_set(
        default: Option<VariantAction>,
        name: Option<Seq<char>>,
        value: Result<VariantAction, ErrorView>,
        i: int,
    ) -> Result<Option<VariantAction>, ErrorView> {
        if name == Some("default"@) {
            match value {
                Err(e) => Err(e),
                Ok(a) => if default is Some {
                    Err(ErrorView::DuplicateParameter(i as usize))
                } else {
                    Ok(Some(a))
                },
            }
        } else {
            Err(ErrorView::InvalidParameter(i as usize))
        }
    }

    /// What one named parameter, at place `i`, does to the default read so far.
    pub open spec fn spec_apply(default: Option<VariantAction>, arg: NamedArgView, i: int) -> Result<
        Option<VariantAction>,
        ErrorView,
    > {
        Self::spec_set(default, arg.name, VariantAction::spec_parse(arg.value), i)
    }

    /// What `from_named_args` returns. No list of two or more parameters is
    /// accepted: the second is either unknown, badly formed or a repetition.
    pub open spec fn spec_from_named_args(args: Seq<NamedArgView>) -> Result<Options, ErrorView> {
        if args.len() == 0 {
            Ok(Options { default: None })
        } else {
            match Self::spec_apply(None, args[0], 0) {
                Err(e) => Err(e),
                Ok(d) => if args.len() == 1 {
                    Ok(Options { default: d })
                } else {
                    match Self::spec_apply(d, args[1], 1) {
                        Err(e) => Err(e),
                        Ok(d2) => Ok(Options { default: d2 }),
                    }
                },
            }
        }
    }

    /// What `parse` returns for the tokens inside the attribute's brackets:
    /// nothing at all, or a comma and then named parameters.
    pub open spec fn spec_parse(tokens: Seq<Tok>) -> Result<Options, ErrorView> {
        if tokens.len() == 0 {
            Ok(Options { default: None })
        } else if first_punct(tokens) != Some(',') {
            Err(ErrorView::Syntax("unexpected token"@))
        } else {
            match syn_name_values(tokens.skip(1)) {
                Err(m) => Err(ErrorView::Syntax(m)),
                Ok(args) => Self::spec_from_named_args(args),
            }
        }
    }

    /// What one attribute says of a declaration's configuration at place `i`
    /// of its attributes: nothing where its path does not end in `amass`,
    /// else the configuration, or why it is refused.
    pub open spec fn of_attribute(attr: AttributeView, i: int) -> Option<
        Result<Options, ErrorView>,
    > {
        if !attr.ends_in("amass"@) {
            None
        } else {
            Some(
                match attr.meta {
                    MetaView::Path => Ok(Options { default: None }),
                    MetaView::List(tokens) => Self::spec_parse(tokens),
                    MetaView::NameValue => Err(ErrorView::ExpectedList(i as usize)),
                },
            )
        }
    }

    /// What `from_attrs` returns: the configuration where exactly one
    /// attribute gives one; an error where none does, and for the first
    /// attribute that is refused or comes second.
    pub open spec fn spec_from_attrs(attrs: Seq<AttributeView>) -> Result<Options, ErrorView> {
        match scan_unique(
            Seq::new(attrs.len(), |i: int| Self::of_attribute(attrs[i], i)),
            attrs.len(),
        ) {
            Err(e) => Err(e),
            Ok(Some(options)) => Ok(options),
            Ok(None) => Err(ErrorView::NotFound),
        }
    }

    /// Takes one named parameter into account: `name` is the parameter's
    /// name, `value` what its value was read as, `i` its place in the list.
    pub fn set(
        default: Option<VariantAction>,
        name: Option<&str>,
        value: Result<VariantAction, Error>,
        i: usize,
    ) -> (r: Result<Option<VariantAction>, Error>)
        ensures
            outcome(r) == Self::spec_set(
                default,
                match name {
                    Some(n) => Some(n@),
                    None => None,
                },
                outcome(value),
                i as int,
            ),
    {
        let is_default = match name {
            Some(n) => str_eq(n, "default"),
            None => false,
        };
        if is_default {
            match value {
                Err(e) => Err(e),
                Ok(a) => if default.is_some() {
                    Err(Error::DuplicateParameter(i))
                } else {
                    Ok(Some(a))
                },
            }
        } else {
            Err(Error::InvalidParameter(i))
        }
    }

    /// Takes the parameter at place `i` into account.
    fn apply(default: Option<VariantAction>, arg: &NamedArg, i: usize) -> (r: Result<
        Option<VariantAction>,
        Error,
    >)
        ensures
            outcome(r) == Self::spec_apply(default, arg@, i as int),
    {
        let is_default = match &arg.name {
            Some(n) => str_eq(n.as_str(), "default"),
            None => false,
        };
        if is_default {
            Self::set(default, Some("default"), VariantAction::parse(&arg.value), i)
        } else {
            Err(Error::InvalidParameter(i))
        }
    }

    /// The configuration that a list of named parameters gives.
    pub fn from_named_args(args: &[NamedArg]) -> (r: Result<Options, Error>)
        ensures
            outcome(r) == Self::spec_from_named_args(views(args@)),
    {
        if args.len() == 0 {
            return Ok(Options { default: None });
        }
        let first = match Self::apply(None, &args[0], 0) {
            Ok(d) => d,
            Err(e) => {
                return Err(e);
            },
        };
        if args.len() == 1 {
            return Ok(Options { default: first });
        }
        match Self::apply(first, &args[1], 1) {
            Ok(d) => Ok(Options { default: d }),
            Err(e) => Err(e),
        }
    }

    /// Reads the tokens inside the attribute's brackets.
    pub fn parse(input: &TokenStream) -> (r: Result<Options, Error>)
        ensures
            outcome(r) == Self::spec_parse(tokens_of(*input)),
    {
        match ts_split_first(input) {
            None => Ok(Options { default: None }),
            Some((first, rest)) => {
                if ts_punct(&first) != Some(',') {
                    return Err(Error::Syntax("unexpected token".to_owned()));
                }
                match parse_name_values(&rest) {
                    Err(m) => Err(Error::Syntax(m)),
                    Ok(args) => Self::from_named_args(args.as_slice()),
                }
            },
        }
    }

    /// The configuration that a declaration's attributes give it. Only
    /// attributes whose path ends in `amass` count; exactly one is needed.
    pub fn from_attrs(attrs: &[Attribute]) -> (r: Result<Options, Error>)
        ensures
            outcome(r) == Self::spec_from_attrs(views(attrs@)),
    {
        let ghost all = views(attrs@);
        let ghost hits = Seq::new(all.len(), |i: int| Self::of_attribute(all[i], i));
        let mut found: Option<Options> = None;
        let mut i: usize = 0;
        while i < attrs.len()
            invariant
                i <= attrs.len(),
                all == views(attrs@),
                hits == Seq::new(all.len(), |i: int| Self::of_attribute(all[i], i)),
                scan_unique(hits, i as nat) == Ok::<Option<Options>, ErrorView>(found),
            decreases attrs.len() - i,
        {
            let attr = &attrs[i];
            proof {
                assert(all[i as int] == attr@);
                assert(hits[i as int] == Self::of_attribute(attr@, i as int));
            }
            if attr.ends_in("amass") {
                let parsed = match &attr.meta {
                    Meta::Path => Ok(Options { default: None }),
                    Meta::List(tokens) => Self::parse(tokens),
                    Meta::NameValue => Err(Error::ExpectedList(i)),
                };
                match parsed {
                    Err(e) => {
                        proof {
                            scan_unique_refusal_stays(hits, (i + 1) as nat, attrs.len() as nat);
                        }
                        return Err(e);
                    },
                    Ok(options) => {
                        if found.is_some() {
                            proof {
                                scan_unique_refusal_stays(
                                    hits,
                                    (i + 1) as nat,
                                    attrs.len() as nat,
                                );
                            }
                            return Err(Error::DuplicateAttribute(i));
                        }
                        found = Some(options);
                    },
                }
            }
            i += 1;
        }
        match found {
            Some(options) => Ok(options),
            None => Err(Error::NotFound),
        }
    }
}

impl Default for Options {
    fn default() -> (r: Options)
        ensures
            r.default is None,
    {
        Options { default: None }
    }
}

/// A list of two or more named parameters is never accepted.
pub proof fn at_most_one_parameter(args: Seq<NamedArgView>)
    requires
        Options::spec_from_named_args(args) is Ok,
    ensures
        args.len() <= 1,
{
}

} // verus!
