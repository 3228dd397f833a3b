//! The kinds of implementation that can be generated.

use vstd::prelude::*;
use vstd::string::*;
use proc_macro2::TokenStream;
use crate::error::{outcome, str_eq, Error, ErrorView};
use crate::token::{ident, tokens_of, ts_push_ident};

verus! {

/// A kind of implementation. Conversions by `From` are the only one.
#[derive(Debug, Clone, Copy, PartialEq, Eq, Hash, Structural)]
pub enum ImplType {
    /// An implementation of `From`.
    From,
}

impl ImplType {
    /// The keyword that selects this kind.
    pub open spec fn keyword(self) -> Seq<char> {
        "From"@
    }

    /// What `from_ident` returns: `From` for the identifier `From`, the
    /// identifier itself in an error for anything else.
    pub open spec fn spec_from_ident(s: Seq<char>) -> Result<ImplType, ErrorView> {
        if s == "From"@ {
            Ok(ImplType::From)
        } else {
            Err(ErrorView::UnsupportedImpl(s))
        }
    }

    /// Reads the kind of implementation from its keyword.
    pub fn from_ident(name: &str) -> (r: Result<ImplType, Error>)
        ensures
            outcome(r) == Self::spec_from_ident(name@),
    {
        if str_eq(name, "From") {
            Ok(ImplType::From)
        } else {
            Err(Error::UnsupportedImpl(name.to_owned()))
        }
    }

    /// Appends the keyword of this kind.
    pub fn to_tokens(&self, tokens: &mut TokenStream)
        ensures
            tokens_of(*final(tokens)) == tokens_of(*old(tokens)).push(ident(self.keyword())),
    {
        proof {
            reveal_strlit("From");
        }
        match self {
            ImplType::From => ts_push_ident(tokens, "From"),
        }
    }
}

} // verus!
