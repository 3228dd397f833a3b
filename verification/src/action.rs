//! The policy that decides whether and how deep a variant takes part.

use vstd::prelude::*;
use vstd::string::*;
use proc_macro2::TokenStream;
use crate::error::{outcome, scan_unique, scan_unique_refusal_stays, str_eq, Error, ErrorView};
use crate::outside::{parse_ident, syn_ident};
use crate::syntax::{views, Attribute, AttributeView, Meta, MetaView};
use crate::token::{tokens_of, ts_split_first, Tok};

verus! {

/// What is generated for one variant.
#[derive(Debug, Copy, Clone, PartialEq, Eq, Structural)]
pub enum VariantAction {
    /// Nothing, neither for the wrapped type nor for anything beneath it.
    Ignore,
    /// A conversion from the wrapped type only.
    Shallow,
    /// A conversion from the wrapped type and, where that type is itself a
    /// known composite, from what it wraps in turn.
    Deep,
    /// As `Deep`, but a wrapped type that is no known composite is an error.
    Force,
}

impl VariantAction {
    /// The keyword that selects this policy.
    pub open spec fn keyword(self) -> Seq<char> {
        match self {
            VariantAction::Ignore => "ignore"@,
            VariantAction::Shallow => "shallow"@,
            VariantAction::Deep => "deep"@,
            VariantAction::Force => "force"@,
        }
    }

    /// The policy that a keyword selects, if it is one of the four.
    pub open spec fn of_keyword(s: Seq<char>) -> Option<VariantAction> {
        if s == "ignore"@ {
            Some(VariantAction::Ignore)
        } else if s == "shallow"@ {
            Some(VariantAction::Shallow)
        } else if s == "deep"@ {
            Some(VariantAction::Deep)
        } else if s == "force"@ {
            Some(VariantAction::Force)
        } else {
            None
        }
    }

    /// What `from_ident` returns for an identifier: the policy for one of the
    /// four keywords, the identifier itself in an error for anything else.
    pub open spec fn spec_from_ident(s: Seq<char>) -> Result<VariantAction, ErrorView> {
        match Self::of_keyword(s) {
            Some(a) => Ok(a),
            None => Err(ErrorView::InvalidAction(s)),
        }
    }

    /// The policy in force for a variant: its own override if it has one,
    /// else the default of the owning type, else `Deep`.
    pub open spec fn spec_effective(
        local: Option<VariantAction>,
        default: Option<VariantAction>,
    ) -> VariantAction {
        match local {
            Some(a) => a,
            None => match default {
                Some(d) => d,
                None => VariantAction::Deep,
            },
        }
    }

    /// The part of a list that is read as the keyword: its first token.
    pub open spec fn leading(tokens: Seq<Tok>) -> Seq<Tok> {
        if tokens.len() <= 1 {
            tokens
        } else {
            tokens.take(1)
        }
    }

    /// What `parse` returns for the tokens of a policy attribute's list,
    /// given what the parser makes of the first token as an identifier: the
    /// identifier is read first, then it must be a keyword, and only then
    /// must nothing follow it.
    pub open spec fn spec_parse(tokens: Seq<Tok>) -> Result<VariantAction, ErrorView> {
        match syn_ident(Self::leading(tokens)) {
            Err(m) => Err(ErrorView::Syntax(m)),
            Ok(s) => match Self::spec_from_ident(s) {
                Err(e) => Err(e),
                Ok(a) => if tokens.len() <= 1 {
                    Ok(a)
                } else {
                    Err(ErrorView::Syntax("unexpected token"@))
                },
            },
        }
    }

    /// What one attribute says of a variant's policy at place `i` of the
    /// variant's attributes: nothing where it is not `amass_action`, else the
    /// policy in its list, or why it is refused.
    pub open spec fn of_attribute(attr: AttributeView, i: int) -> Option<
        Result<VariantAction, ErrorView>,
    > {
        if !attr.is_ident("amass_action"@) {
            None
        } else {
            Some(
                match attr.meta {
                    MetaView::List(tokens) => Self::spec_parse(tokens),
                    MetaView::Path => Err(ErrorView::MissingArguments(i as usize)),
                    MetaView::NameValue => Err(ErrorView::ExpectedParenthesis(i as usize)),
                },
            )
        }
    }

    /// What `from_attrs` returns: the variant's own policy where exactly one
    /// attribute gives one, `None` where none does, and an error for the
    /// first attribute that is refused or comes second.
    pub open spec fn spec_from_attrs(attrs: Seq<AttributeView>) -> Result<
        Option<VariantAction>,
        ErrorView,
    > {
        scan_unique(Seq::new(attrs.len(), |i: int| Self::of_attribute(attrs[i], i)), attrs.len())
    }

    /// Reads a policy keyword. The match is exact and case-sensitive.
    pub fn from_ident(ident: &str) -> (r: Result<VariantAction, Error>)
        ensures
            outcome(r) == Self::spec_from_ident(ident@),
    {
        if str_eq(ident, "ignore") {
            Ok(VariantAction::Ignore)
        } else if str_eq(ident, "shallow") {
            Ok(VariantAction::Shallow)
        } else if str_eq(ident, "deep") {
            Ok(VariantAction::Deep)
        } else if str_eq(ident, "force") {
            Ok(VariantAction::Force)
        } else {
            Err(Error::InvalidAction(ident.to_owned()))
        }
    }

    /// Reads the tokens inside a policy attribute's brackets: one keyword.
    /// An unknown keyword is reported as such, whatever follows it.
    pub fn parse(input: &TokenStream) -> (r: Result<VariantAction, Error>)
        ensures
            outcome(r) == Self::spec_parse(tokens_of(*input)),
    {
        let (read, alone) = match ts_split_first(input) {
            None => (parse_ident(input), true),
            Some((first, rest)) => {
                proof {
                    assert(tokens_of(first) =~= Self::leading(tokens_of(*input)));
                }
                let alone = ts_split_first(&rest).is_none();
                (parse_ident(&first), alone)
            },
        };
        let action = match read {
            Err(m) => {
                return Err(Error::Syntax(m));
            },
            Ok(s) => match Self::from_ident(s.as_str()) {
                Err(e) => {
                    return Err(e);
                },
                Ok(a) => a,
            },
        };
        if alone {
            Ok(action)
        } else {
            Err(Error::Syntax("unexpected token".to_owned()))
        }
    }

    /// The policy that a variant's own attributes give it, if any. Only
    /// attributes named `amass_action` count; one is allowed.
    pub fn from_attrs(attrs: &[Attribute]) -> (r: Result<Option<VariantAction>, Error>)
        ensures
            outcome(r) == Self::spec_from_attrs(views(attrs@)),
    {
        let ghost all = views(attrs@);
        let ghost hits = Seq::new(all.len(), |i: int| Self::of_attribute(all[i], i));
        let mut action: Option<VariantAction> = None;
        let mut i: usize = 0;
        while i < attrs.len()
            invariant
                i <= attrs.len(),
                all == views(attrs@),
                hits == Seq::new(all.len(), |i: int| Self::of_attribute(all[i], i)),
                scan_unique(hits, i as nat) == Ok::<Option<VariantAction>, ErrorView>(action),
            decreases attrs.len() - i,
        {
            let attr = &attrs[i];
            proof {
                assert(all[i as int] == attr@);
                assert(hits[i as int] == Self::of_attribute(attr@, i as int));
            }
            if attr.is_ident("amass_action") {
                let parsed = match &attr.meta {
                    Meta::List(tokens) => Self::parse(tokens),
                    Meta::Path => Err(Error::MissingArguments(i)),
                    Meta::NameValue => Err(Error::ExpectedParenthesis(i)),
                };
                match parsed {
                    Err(e) => {
                        proof {
                            scan_unique_refusal_stays(hits, (i + 1) as nat, attrs.len() as nat);
                        }
                        return Err(e);
                    },
                    Ok(a) => {
                        if action.is_some() {
                            proof {
                                scan_unique_refusal_stays(
                                    hits,
                                    (i + 1) as nat,
                                    attrs.len() as nat,
                                );
                            }
                            return Err(Error::DuplicateAttribute(i));
                        }
                        action = Some(a);
                    },
                }
            }
            i += 1;
        }
        Ok(action)
    }

    /// The policy in force for a variant, from its own override and the
    /// owning type's default.
    pub fn effective(local: Option<VariantAction>, default: Option<VariantAction>) -> (r:
        VariantAction)
        ensures
            r == Self::spec_effective(local, default),
    {
        match local {
            Some(a) => a,
            None => match default {
                Some(d) => d,
                None => VariantAction::Deep,
            },
        }
    }

    /// Whether the policy lets the expansion go on into the wrapped type.
    pub open spec fn recurses(self) -> bool {
        self == VariantAction::Deep || self == VariantAction::Force
    }
}

impl Default for VariantAction {
    fn default() -> (r: VariantAction)
        ensures
            r == VariantAction::Deep,
    {
        VariantAction::Deep
    }
}

/// The four keywords are different words, so each selects its own policy.
pub proof fn keywords_distinct()
    ensures
        forall|a: VariantAction| VariantAction::of_keyword(#[trigger] a.keyword()) == Some(a),
{
    reveal_strlit("ignore");
    reveal_strlit("shallow");
    reveal_strlit("deep");
    reveal_strlit("force");
    assert forall|a: VariantAction| VariantAction::of_keyword(#[trigger] a.keyword()) == Some(
        a,
    ) by {
        assert("ignore"@.len() == 6);
        assert("shallow"@.len() == 7);
        assert("deep"@.len() == 4);
        assert("force"@.len() == 5);
        assert("ignore"@[0] == 'i');
        assert("force"@[0] == 'f');
    }
}

} // verus!
