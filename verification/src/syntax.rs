//! Declarations as the library reads them: attributes, variants, fields and
//! paths, each holding as plain values and token streams what the rules look
//! at.

use vstd::prelude::*;
use proc_macro2::TokenStream;
use crate::token::{
    alone, colon2, tokens_of, ts_clone, ts_extend, ts_new, ts_push_colon2, ts_push_punct, Tok,
};

verus! {

/// The views of the items of a sequence, in order.
pub open spec fn views<T: View>(s: Seq<T>) -> Seq<T::V> {
    Seq::new(s.len(), |i: int| s[i]@)
}

/// One named parameter of an attribute, `name = value`.
pub struct NamedArg {
    /// The name, where it is a single identifier; `None` for a longer path.
    pub name: Option<String>,
    /// The tokens of the value.
    pub value: TokenStream,
}

/// A named parameter as a mathematical value.
pub struct NamedArgView {
    pub name: Option<Seq<char>>,
    pub value: Seq<Tok>,
}

impl View for NamedArg {
    type V = NamedArgView;

    open spec fn view(&self) -> NamedArgView {
        NamedArgView {
            name: match self.name {
                Some(n) => Some(n@),
                None => None,
            },
            value: tokens_of(self.value),
        }
    }
}

/// The form of an attribute's arguments.
pub enum Meta {
    /// A bare path: `#[name]`.
    Path,
    /// A list in brackets, `#[name(...)]`; holds the tokens inside them.
    List(TokenStream),
    /// A value: `#[name = value]`.
    NameValue,
}

/// One attribute of a declaration or of a variant.
pub struct Attribute {
    /// Whether the attribute's path starts with `::`.
    pub leading_colon: bool,
    /// The identifiers of the path's segments, in order.
    pub segments: Vec<String>,
    /// The arguments.
    pub meta: Meta,
}

/// An attribute's arguments as a mathematical value.
pub enum MetaView {
    Path,
    List(Seq<Tok>),
    NameValue,
}

/// An attribute as a mathematical value.
pub struct AttributeView {
    pub leading_colon: bool,
    pub segments: Seq<Seq<char>>,
    pub meta: MetaView,
}

impl View for Meta {
    type V = MetaView;

    open spec fn view(&self) -> MetaView {
        match *self {
            Meta::Path => MetaView::Path,
            Meta::List(ts) => MetaView::List(tokens_of(ts)),
            Meta::NameValue => MetaView::NameValue,
        }
    }
}

impl View for Attribute {
    type V = AttributeView;

    open spec fn view(&self) -> AttributeView {
        AttributeView {
            leading_colon: self.leading_colon,
            segments: views(self.segments@),
            meta: self.meta@,
        }
    }
}

impl AttributeView {
    /// Whether the path is the single identifier `name`.
    pub open spec fn is_ident(self, name: Seq<char>) -> bool {
        !self.leading_colon && self.segments.len() == 1 && self.segments[0] == name
    }

    /// Whether the path's last segment is `name`.
    pub open spec fn ends_in(self, name: Seq<char>) -> bool {
        self.segments.len() > 0 && self.segments.last() == name
    }
}

impl Attribute {
    /// Whether the attribute's path is the single identifier `name`.
    pub fn is_ident(&self, name: &str) -> (r: bool)
        ensures
            r == self@.is_ident(name@),
    {
        !self.leading_colon && self.segments.len() == 1 && crate::error::str_eq(
            self.segments[0].as_str(),
            name,
        )
    }

    /// Whether the last segment of the attribute's path is `name`.
    pub fn ends_in(&self, name: &str) -> (r: bool)
        ensures
            r == self@.ends_in(name@),
    {
        let n = self.segments.len();
        n > 0 && crate::error::str_eq(self.segments[n - 1].as_str(), name)
    }
}

/// One segment of a path.
pub struct PathSegment {
    /// The segment's identifier, one token.
    pub ident: TokenStream,
    /// The segment's generic arguments with their brackets; empty where the
    /// segment has none.
    pub arguments: TokenStream,
}

/// A path: `a::b::c`, perhaps with a leading `::` and generic arguments.
pub struct Path {
    /// Whether the path starts with `::`.
    pub leading_colon: bool,
    /// The segments, in order.
    pub segments: Vec<PathSegment>,
}

/// A path segment as a mathematical value.
pub struct PathSegmentView {
    pub ident: Seq<Tok>,
    pub arguments: Seq<Tok>,
}

/// A path as a mathematical value.
pub struct PathView {
    pub leading_colon: bool,
    pub segments: Seq<PathSegmentView>,
}

impl View for PathSegment {
    type V = PathSegmentView;

    open spec fn view(&self) -> PathSegmentView {
        PathSegmentView { ident: tokens_of(self.ident), arguments: tokens_of(self.arguments) }
    }
}

impl View for Path {
    type V = PathView;

    open spec fn view(&self) -> PathView {
        PathView {
            leading_colon: self.leading_colon,
            segments: views(self.segments@),
        }
    }
}

/// The generic arguments of a type, `<A, B>` or `::<A, B>`.
pub struct GenericArguments {
    /// Whether `::` stands before the opening bracket.
    pub colon2: bool,
    /// The arguments between the brackets, with their commas.
    pub args: TokenStream,
}

/// Generic arguments as a mathematical value.
pub struct GenericArgumentsView {
    pub colon2: bool,
    pub args: Seq<Tok>,
}

impl View for GenericArguments {
    type V = GenericArgumentsView;

    open spec fn view(&self) -> GenericArgumentsView {
        GenericArgumentsView { colon2: self.colon2, args: tokens_of(self.args) }
    }
}

impl GenericArgumentsView {
    /// The arguments with their brackets.
    pub open spec fn tokens(self) -> Seq<Tok> {
        (if self.colon2 {
            colon2()
        } else {
            Seq::empty()
        }) + seq![alone('<')] + self.args + seq![alone('>')]
    }
}

/// The canonical name of a field's type: a path that means the same type
/// wherever it is written, and the type's generic arguments, themselves in
/// canonical form and in terms of the root's parameters.
pub struct Resolved {
    /// The canonical path, without generic arguments. Where the type is a
    /// known composite, a macro of this name continues the expansion.
    pub macro_path: TokenStream,
    /// The type's generic arguments, if it has any.
    pub arguments: Option<GenericArguments>,
}

/// A canonical name as a mathematical value.
pub struct ResolvedView {
    pub macro_path: Seq<Tok>,
    pub arguments: Option<GenericArgumentsView>,
}

impl View for Resolved {
    type V = ResolvedView;

    open spec fn view(&self) -> ResolvedView {
        ResolvedView {
            macro_path: tokens_of(self.macro_path),
            arguments: match self.arguments {
                Some(a) => Some(a@),
                None => None,
            },
        }
    }
}

impl ResolvedView {
    /// The type in full: the canonical path, then the arguments.
    pub open spec fn leaf_type(self) -> Seq<Tok> {
        match self.arguments {
            Some(a) => self.macro_path + a.tokens(),
            None => self.macro_path,
        }
    }

    /// The arguments alone, without brackets; nothing where there are none.
    pub open spec fn argument_list(self) -> Seq<Tok> {
        match self.arguments {
            Some(a) => a.args,
            None => Seq::empty(),
        }
    }
}

impl Resolved {
    /// The type in full: the canonical path, then the arguments.
    pub fn leaf_type(&self) -> (r: TokenStream)
        ensures
            tokens_of(r) == self@.leaf_type(),
    {
        let mut out = ts_clone(&self.macro_path);
        match &self.arguments {
            Some(a) => {
                if a.colon2 {
                    ts_push_colon2(&mut out);
                }
                ts_push_punct(&mut out, '<', false);
                ts_extend(&mut out, &a.args);
                ts_push_punct(&mut out, '>', false);
                proof {
                    assert(tokens_of(out) =~= self@.leaf_type());
                }
            },
            None => {},
        }
        out
    }

    /// The arguments alone, without brackets; nothing where there are none.
    pub fn argument_list(&self) -> (r: TokenStream)
        ensures
            tokens_of(r) == self@.argument_list(),
    {
        match &self.arguments {
            Some(a) => ts_clone(&a.args),
            None => ts_new(),
        }
    }
}

/// The type of a field.
pub enum Type {
    /// A path type such as `a::B<C>`: its tokens as declared, and its
    /// canonical name or, where the type could not be resolved, the reason.
    Path(TokenStream, Result<Resolved, String>),
    /// Any other type (a tuple, a reference, an array ...); holds its tokens.
    Other(TokenStream),
}

/// One field of a variant.
pub struct Field {
    /// The field's name, one token; `None` in a tuple variant.
    pub ident: Option<TokenStream>,
    /// The field's type.
    pub ty: Type,
}

/// One variant of an enum.
pub struct Variant {
    /// The variant's name, one token.
    pub ident: TokenStream,
    /// The variant's attributes.
    pub attrs: Vec<Attribute>,
    /// The variant's fields; empty for a unit variant.
    pub fields: Vec<Field>,
}

/// A field's type as a mathematical value.
pub enum TypeView {
    Path(Seq<Tok>, Result<ResolvedView, Seq<char>>),
    Other(Seq<Tok>),
}

/// A field as a mathematical value.
pub struct FieldView {
    pub ident: Option<Seq<Tok>>,
    pub ty: TypeView,
}

/// A variant as a mathematical value.
pub struct VariantView {
    pub ident: Seq<Tok>,
    pub attrs: Seq<AttributeView>,
    pub fields: Seq<FieldView>,
}

impl View for Type {
    type V = TypeView;

    open spec fn view(&self) -> TypeView {
        match *self {
            Type::Path(ts, resolved) => TypeView::Path(
                tokens_of(ts),
                match resolved {
                    Ok(r) => Ok(r@),
                    Err(reason) => Err(reason@),
                },
            ),
            Type::Other(ts) => TypeView::Other(tokens_of(ts)),
        }
    }
}

impl View for Field {
    type V = FieldView;

    open spec fn view(&self) -> FieldView {
        FieldView {
            ident: match self.ident {
                Some(ts) => Some(tokens_of(ts)),
                None => None,
            },
            ty: self.ty@,
        }
    }
}

impl View for Variant {
    type V = VariantView;

    open spec fn view(&self) -> VariantView {
        VariantView {
            ident: tokens_of(self.ident),
            attrs: views(self.attrs@),
            fields: views(self.fields@),
        }
    }
}

/// What kind of item a declaration is.
pub enum ItemKind {
    /// An enum, with its variants in the order of declaration.
    Enum(Vec<Variant>),
    /// Anything else.
    Other,
}

/// A declaration together with its resolved type dictionary: what the
/// expansion reads of a type once the type is fully known.
pub struct Item {
    /// The declaration's tokens as written.
    pub tokens: TokenStream,
    /// The declaration's attributes.
    pub attrs: Vec<Attribute>,
    /// The canonical path of the declared type itself.
    pub primary_path: Path,
    /// Where the resolution mechanism's own crate is found, if the
    /// declaration says so; `::telety` otherwise.
    pub telety_path: Option<TokenStream>,
    /// The kind of item and, for an enum, its variants.
    pub kind: ItemKind,
}

/// The kind of an item as a mathematical value.
pub enum ItemKindView {
    Enum(Seq<VariantView>),
    Other,
}

/// A declaration as a mathematical value.
pub struct ItemView {
    pub tokens: Seq<Tok>,
    pub attrs: Seq<AttributeView>,
    pub primary_path: PathView,
    pub telety_path: Option<Seq<Tok>>,
    pub kind: ItemKindView,
}

impl View for ItemKind {
    type V = ItemKindView;

    open spec fn view(&self) -> ItemKindView {
        match *self {
            ItemKind::Enum(variants) => ItemKindView::Enum(views(variants@)),
            ItemKind::Other => ItemKindView::Other,
        }
    }
}

impl View for Item {
    type V = ItemView;

    open spec fn view(&self) -> ItemView {
        ItemView {
            tokens: tokens_of(self.tokens),
            attrs: views(self.attrs@),
            primary_path: self.primary_path@,
            telety_path: match self.telety_path {
                Some(p) => Some(tokens_of(p)),
                None => None,
            },
            kind: self.kind@,
        }
    }
}

} // verus!
