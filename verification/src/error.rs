//! The errors that the library reports.

use vstd::prelude::*;
use vstd::string::*;

verus! {

/// Why an expansion was refused. Where an error belongs to one attribute,
/// parameter or variant, it carries that item's index in the list it was
/// found in, so that a caller can point at the place.
#[derive(Debug)]
pub enum Error {
    /// A policy keyword other than `ignore`, `shallow`, `deep`, `force`;
    /// holds the offending identifier.
    InvalidAction(String),
    /// A second configuration attribute on one declaration, or a second
    /// policy attribute on one variant; holds the index of the second one.
    DuplicateAttribute(usize),
    /// A configuration attribute written as `name = value`; holds the
    /// attribute's index.
    ExpectedList(usize),
    /// A policy attribute without arguments; holds the attribute's index.
    MissingArguments(usize),
    /// A policy attribute written as `name = value`; holds the attribute's
    /// index.
    ExpectedParenthesis(usize),
    /// No configuration attribute on the declaration.
    NotFound,
    /// A named parameter other than `default`; holds the parameter's index.
    InvalidParameter(usize),
    /// The parameter `default` given twice; holds the index of the second one.
    DuplicateParameter(usize),
    /// The tokens are not of the expected syntax; holds the parser's message.
    Syntax(String),
    /// A variant under `force` that has no field or several; holds the
    /// variant's index.
    NotSingleField(usize),
    /// A variant under `force` whose field's type is not a path; holds the
    /// variant's index.
    NonPathType(usize),
    /// A variant under `force` or `shallow` whose field's type has no
    /// canonical name; holds the variant's index and the reason that the
    /// resolution gave.
    Unresolvable(usize, String),
    /// The annotated item is not an enum.
    NotAnEnum,
    /// A kind of implementation other than `From`; holds the identifier.
    UnsupportedImpl(String),
}

/// An error as a mathematical value: the same cases, with text as a
/// sequence of characters.
pub enum ErrorView {
    InvalidAction(Seq<char>),
    DuplicateAttribute(usize),
    ExpectedList(usize),
    MissingArguments(usize),
    ExpectedParenthesis(usize),
    NotFound,
    InvalidParameter(usize),
    DuplicateParameter(usize),
    Syntax(Seq<char>),
    NotSingleField(usize),
    NonPathType(usize),
    Unresolvable(usize, Seq<char>),
    NotAnEnum,
    UnsupportedImpl(Seq<char>),
}

impl View for Error {
    type V = ErrorView;

    open spec fn view(&self) -> ErrorView {
        match *self {
            Error::InvalidAction(s) => ErrorView::InvalidAction(s@),
            Error::DuplicateAttribute(i) => ErrorView::DuplicateAttribute(i),
            Error::ExpectedList(i) => ErrorView::ExpectedList(i),
            Error::MissingArguments(i) => ErrorView::MissingArguments(i),
            Error::ExpectedParenthesis(i) => ErrorView::ExpectedParenthesis(i),
            Error::NotFound => ErrorView::NotFound,
            Error::InvalidParameter(i) => ErrorView::InvalidParameter(i),
            Error::DuplicateParameter(i) => ErrorView::DuplicateParameter(i),
            Error::Syntax(s) => ErrorView::Syntax(s@),
            Error::NotSingleField(i) => ErrorView::NotSingleField(i),
            Error::NonPathType(i) => ErrorView::NonPathType(i),
            Error::Unresolvable(i, reason) => ErrorView::Unresolvable(i, reason@),
            Error::NotAnEnum => ErrorView::NotAnEnum,
            Error::UnsupportedImpl(s) => ErrorView::UnsupportedImpl(s@),
        }
    }
}

impl ErrorView {
    /// The text of the diagnostic.
    pub open spec fn message(self) -> Seq<char> {
        match self {
            ErrorView::InvalidAction(s) => "Invalid variant action '"@ + s + "'"@,
            ErrorView::DuplicateAttribute(_) => "Only one 'amass' attribute is allowed"@,
            ErrorView::ExpectedList(_) => "expected list arguments"@,
            ErrorView::MissingArguments(_) =>
                "expected attribute arguments in parentheses: `amass_action(...)`"@,
            ErrorView::ExpectedParenthesis(_) => "expected `(`"@,
            ErrorView::NotFound =>
                "'amass' attribute not found (aliasing the attribute is not supported)"@,
            ErrorView::InvalidParameter(_) => "Invalid parameter"@,
            ErrorView::DuplicateParameter(_) => "parameter appears multiple times"@,
            ErrorView::Syntax(m) => m,
            ErrorView::NotSingleField(_) => "Variant must be a single field variant"@,
            ErrorView::NonPathType(_) => "Non-path types cannot have deep impls"@,
            ErrorView::Unresolvable(_, reason) => reason,
            ErrorView::NotAnEnum => "Only enums can be amassed"@,
            ErrorView::UnsupportedImpl(_) => "Cannot impl this type"@,
        }
    }
}

impl Error {
    /// The text of the diagnostic.
    pub fn message(&self) -> (r: String)
        ensures
            r@ == self@.message(),
    {
        match self {
            Error::InvalidAction(s) => {
                let mut text = "Invalid variant action '".to_owned();
                text.append(s.as_str());
                text.append("'");
                text
            },
            Error::DuplicateAttribute(_) => "Only one 'amass' attribute is allowed".to_owned(),
            Error::ExpectedList(_) => "expected list arguments".to_owned(),
            Error::MissingArguments(_) =>
                "expected attribute arguments in parentheses: `amass_action(...)`".to_owned(),
            Error::ExpectedParenthesis(_) => "expected `(`".to_owned(),
            Error::NotFound =>
                "'amass' attribute not found (aliasing the attribute is not supported)".to_owned(),
            Error::InvalidParameter(_) => "Invalid parameter".to_owned(),
            Error::DuplicateParameter(_) => "parameter appears multiple times".to_owned(),
            Error::Syntax(m) => m.clone(),
            Error::NotSingleField(_) => "Variant must be a single field variant".to_owned(),
            Error::NonPathType(_) => "Non-path types cannot have deep impls".to_owned(),
            Error::Unresolvable(_, reason) => reason.clone(),
            Error::NotAnEnum => "Only enums can be amassed".to_owned(),
            Error::UnsupportedImpl(_) => "Cannot impl this type".to_owned(),
        }
    }
}

/// A result with its error taken as a mathematical value.
pub open spec fn outcome<T>(r: Result<T, Error>) -> Result<T, ErrorView> {
    match r {
        Ok(v) => Ok(v),
        Err(e) => Err(e@),
    }
}

/// What a scan of a list finds after its first `n` places, where `hits` says
/// of each place whether it counts and, if so, what it holds or why it is
/// refused: the one item that counts, or none; the first refusal; or, where a
/// second item counts, an error that names its place.
pub open spec fn scan_unique<T>(hits: Seq<Option<Result<T, ErrorView>>>, n: nat) -> Result<
    Option<T>,
    ErrorView,
>
    decreases n,
{
    if n == 0 {
        Ok(None)
    } else {
        let i = (n - 1) as nat;
        match scan_unique(hits, i) {
            Err(e) => Err(e),
            Ok(found) => match hits[i as int] {
                None => Ok(found),
                Some(Err(e)) => Err(e),
                Some(Ok(v)) => if found is Some {
                    Err(ErrorView::DuplicateAttribute(i as usize))
                } else {
                    Ok(Some(v))
                },
            },
        }
    }
}

/// A refusal stays: what the scan refused after `n` places it refuses after
/// any more.
pub proof fn scan_unique_refusal_stays<T>(
    hits: Seq<Option<Result<T, ErrorView>>>,
    n: nat,
    m: nat,
)
    requires
        n <= m,
        scan_unique(hits, n) is Err,
    ensures
        scan_unique(hits, m) == scan_unique(hits, n),
    decreases m,
{
    if n < m {
        scan_unique_refusal_stays(hits, n, (m - 1) as nat);
    }
}

/// Whether two strings hold the same characters.
pub fn str_eq(a: &str, b: &str) -> (r: bool)
    ensures
        r == (a@ == b@),
{
    let x = a.to_owned();
    let y = b.to_owned();
    x == y
}

} // verus!
