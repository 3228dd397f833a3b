//! Token streams as mathematical sequences.
//!
//! Every syntax fragment that the library carries (a path, a type, a list of
//! generic parameters) is a `proc_macro2::TokenStream`. Verus cannot look
//! inside one, so this module names what a stream holds, `tokens_of`, and
//! gives the few operations that build streams a contract over that name.
//! Spans are not part of the model: two streams that differ only in spans
//! hold the same tokens.

use vstd::prelude::*;
use proc_macro2::{
    Delimiter, Group, Ident, Literal, Punct, Spacing, Span, TokenStream, TokenTree,
};

verus! {

/// `proc_macro2::TokenStream`, taken as it is: a value that Verus cannot
/// look into.
#[verifier::external_type_specification]
#[verifier::external_body]
pub struct ExTokenStream(proc_macro2::TokenStream);

/// The bracket kind of a delimited group of tokens.
#[derive(Clone, Copy, PartialEq, Eq, Debug, Structural)]
pub enum Delim {
    /// `( ... )`
    Paren,
    /// `{ ... }`
    Brace,
    /// `[ ... ]`
    Bracket,
    /// A group without visible brackets.
    Invisible,
}

/// One token tree, as a mathematical value.
pub enum Tok {
    /// An identifier or keyword, by its text.
    Ident(Seq<char>),
    /// One punctuation character; the flag says that the next token follows
    /// it without a gap, so that the two may form one operator.
    Punct(char, bool),
    /// A literal, by its source text.
    Literal(Seq<char>),
    /// A delimited group and the tokens inside it.
    Group(Delim, Seq<Tok>),
}

/// The token trees that a stream holds, in order.
pub uninterp spec fn tokens_of(ts: TokenStream) -> Seq<Tok>;

/// The characters that `Punct::new` accepts.
pub open spec fn is_punct_char(c: char) -> bool {
    c == '!' || c == '#' || c == '$' || c == '%' || c == '&' || c == '\'' || c == '*' || c == '+'
        || c == ',' || c == '-' || c == '.' || c == '/' || c == ':' || c == ';' || c == '<'
        || c == '=' || c == '>' || c == '?' || c == '@' || c == '^' || c == '|' || c == '~'
}

/// An ASCII letter or the underscore.
pub open spec fn is_ident_start(c: char) -> bool {
    ('a' <= c && c <= 'z') || ('A' <= c && c <= 'Z') || c == '_'
}

/// An ASCII letter, an ASCII digit or the underscore.
pub open spec fn is_ident_continue(c: char) -> bool {
    is_ident_start(c) || ('0' <= c && c <= '9')
}

/// Text that is an identifier in plain ASCII: a letter or underscore, then
/// letters, digits and underscores.
pub open spec fn is_plain_ident(s: Seq<char>) -> bool {
    &&& s.len() > 0
    &&& is_ident_start(s[0])
    &&& forall|i: int| 0 < i < s.len() ==> is_ident_continue(#[trigger] s[i])
}

/// Text that a string literal holds as it stands, with no escape: ASCII
/// letters, digits, underscores and colons.
pub open spec fn is_plain_text(s: Seq<char>) -> bool {
    forall|i: int| 0 <= i < s.len() ==> is_ident_continue(#[trigger] s[i]) || s[i] == ':'
}

/// The token for a string literal that holds the given plain text.
pub open spec fn string_literal(s: Seq<char>) -> Tok {
    Tok::Literal(seq!['"'] + s + seq!['"'])
}

/// The token for an identifier with the given text.
pub open spec fn ident(s: Seq<char>) -> Tok {
    Tok::Ident(s)
}

/// A punctuation token that stands alone.
pub open spec fn alone(c: char) -> Tok {
    Tok::Punct(c, false)
}

/// A punctuation token that is joined to the one after it.
pub open spec fn joint(c: char) -> Tok {
    Tok::Punct(c, true)
}

/// The two tokens of a path separator, `::`.
pub open spec fn colon2() -> Seq<Tok> {
    seq![joint(':'), alone(':')]
}

/// The character of the first token, where that token is punctuation.
pub open spec fn first_punct(tokens: Seq<Tok>) -> Option<char> {
    if tokens.len() > 0 {
        match tokens[0] {
            Tok::Punct(c, _) => Some(c),
            _ => None,
        }
    } else {
        None
    }
}

/// `TokenStream::new`: the result holds no token.
#[verifier::external_body]
pub(crate) fn ts_new() -> (r: TokenStream)
    ensures
        tokens_of(r) == Seq::<Tok>::empty(),
{
    TokenStream::new()
}

/// `TokenStream::clone`: the copy holds the same tokens.
#[verifier::external_body]
pub(crate) fn ts_clone(ts: &TokenStream) -> (r: TokenStream)
    ensures
        tokens_of(r) == tokens_of(*ts),
{
    ts.clone()
}

/// `TokenStream::into_iter`: the first token tree, as a stream of its own, and
/// the stream of those that follow it; `None` for an empty stream.
#[verifier::external_body]
pub(crate) fn ts_split_first(ts: &TokenStream) -> (r: Option<(TokenStream, TokenStream)>)
    ensures
        match r {
            Some((first, rest)) => tokens_of(*ts).len() > 0 && tokens_of(first) == seq![
                tokens_of(*ts)[0],
            ] && tokens_of(rest) == tokens_of(*ts).skip(1),
            None => tokens_of(*ts).len() == 0,
        },
{
    let mut trees = ts.clone().into_iter();
    let first = trees.next()?;
    Some((TokenStream::from(first), trees.collect()))
}

/// `Punct::as_char` of the first token tree: its character where that tree is
/// a punctuation token, `None` where it is another tree or the stream is empty.
#[verifier::external_body]
pub(crate) fn ts_punct(ts: &TokenStream) -> (r: Option<char>)
    ensures
        r == first_punct(tokens_of(*ts)),
{
    match ts.clone().into_iter().next() {
        Some(TokenTree::Punct(p)) => Some(p.as_char()),
        _ => None,
    }
}

/// `TokenStream::extend` with another stream: the tokens of `more` are
/// appended, in order, behind those that `ts` held.
#[verifier::external_body]
pub(crate) fn ts_extend(ts: &mut TokenStream, more: &TokenStream)
    ensures
        tokens_of(*final(ts)) == tokens_of(*old(ts)) + tokens_of(*more),
{
    ts.extend(std::iter::once(more.clone()));
}

/// `Ident::new` and `TokenStream::extend`: one identifier with the given text
/// is appended. `Ident::new` panics on text that is no identifier; plain ASCII
/// identifiers and keywords are accepted.
#[verifier::external_body]
pub(crate) fn ts_push_ident(ts: &mut TokenStream, name: &str)
    requires
        is_plain_ident(name@),
    ensures
        tokens_of(*final(ts)) == tokens_of(*old(ts)).push(Tok::Ident(name@)),
{
    ts.extend(std::iter::once(TokenTree::Ident(Ident::new(name, Span::call_site()))));
}

/// `Punct::new` and `TokenStream::extend`: one punctuation token is appended.
/// `Punct::new` panics on a character outside its list.
#[verifier::external_body]
pub(crate) fn ts_push_punct(ts: &mut TokenStream, ch: char, is_joint: bool)
    requires
        is_punct_char(ch),
    ensures
        tokens_of(*final(ts)) == tokens_of(*old(ts)).push(Tok::Punct(ch, is_joint)),
{
    let spacing = if is_joint { Spacing::Joint } else { Spacing::Alone };
    ts.extend(std::iter::once(TokenTree::Punct(Punct::new(ch, spacing))));
}

/// `Group::new` and `TokenStream::extend`: one group is appended, with the
/// given brackets round the tokens of `inner`.
#[verifier::external_body]
pub(crate) fn ts_push_group(ts: &mut TokenStream, delim: Delim, inner: &TokenStream)
    ensures
        tokens_of(*final(ts)) == tokens_of(*old(ts)).push(Tok::Group(delim, tokens_of(*inner))),
{
    let delimiter = match delim {
        Delim::Paren => Delimiter::Parenthesis,
        Delim::Brace => Delimiter::Brace,
        Delim::Bracket => Delimiter::Bracket,
        Delim::Invisible => Delimiter::None,
    };
    ts.extend(std::iter::once(TokenTree::Group(Group::new(delimiter, inner.clone()))));
}

/// `Literal::string` and `TokenStream::extend`: one string literal is
/// appended. Its source text is the given text between double quotes, as the
/// text holds nothing that `Literal::string` would escape.
#[verifier::external_body]
pub(crate) fn ts_push_string(ts: &mut TokenStream, text: &str)
    requires
        is_plain_text(text@),
    ensures
        tokens_of(*final(ts)) == tokens_of(*old(ts)).push(string_literal(text@)),
{
    ts.extend(std::iter::once(TokenTree::Literal(Literal::string(text))));
}

/// Appends the path separator `::`.
pub(crate) fn ts_push_colon2(ts: &mut TokenStream)
    ensures
        tokens_of(*final(ts)) == tokens_of(*old(ts)) + colon2(),
{
    ts_push_punct(ts, ':', true);
    ts_push_punct(ts, ':', false);
}

} // verus!
