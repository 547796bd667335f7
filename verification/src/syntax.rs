//! The parts of an `impl` block that decide which health checks it provides.
use vstd::prelude::*;

verus! {

/// A token between the parentheses of an attribute.
#[derive(Debug)]
pub enum Token {
    /// An identifier or a keyword.
    Ident(String),
    /// A punctuation character, and whether another one follows without space.
    Punct { ch: char, joint: bool },
    /// A string literal with this value.
    Text(String),
    /// An integer or floating point literal.
    Number,
    /// Any other literal.
    Literal,
    /// A group in parentheses, brackets or braces.
    Group,
}

/// What a token is.
pub enum TokenView {
    Ident(Seq<char>),
    Punct { ch: char, joint: bool },
    Text(Seq<char>),
    Number,
    Literal,
    Group,
}

impl View for Token {
    type V = TokenView;

    open spec fn view(&self) -> TokenView {
        match self {
            Token::Ident(name) => TokenView::Ident(name@),
            Token::Punct { ch, joint } => TokenView::Punct { ch: *ch, joint: *joint },
            Token::Text(text) => TokenView::Text(text@),
            Token::Number => TokenView::Number,
            Token::Literal => TokenView::Literal,
            Token::Group => TokenView::Group,
        }
    }
}

/// What each of the tokens is.
pub open spec fn token_views(tokens: Seq<Token>) -> Seq<TokenView> {
    tokens.map_values(|token: Token| token@)
}

/// What follows the path of an attribute.
#[derive(Debug)]
pub enum Shape {
    /// Nothing: `#[path]`.
    Word,
    /// Arguments: `#[path(...)]`.
    List(Vec<Token>),
    /// A value: `#[path = ...]`.
    Assigned,
}

/// What follows the path of an attribute.
pub enum ShapeView {
    Word,
    List(Seq<TokenView>),
    Assigned,
}

impl View for Shape {
    type V = ShapeView;

    open spec fn view(&self) -> ShapeView {
        match self {
            Shape::Word => ShapeView::Word,
            Shape::List(tokens) => ShapeView::List(token_views(tokens@)),
            Shape::Assigned => ShapeView::Assigned,
        }
    }
}

/// An attribute of a method.
#[derive(Debug)]
pub struct Attr {
    /// The path, if it is a single identifier.
    pub ident: Option<String>,
    /// Whether it is an inner attribute, `#![...]`.
    pub inner: bool,
    pub shape: Shape,
}

/// What an attribute is.
pub struct AttrView {
    pub ident: Option<Seq<char>>,
    pub inner: bool,
    pub shape: ShapeView,
}

/// The text of an optional string.
pub open spec fn optional_text(text: Option<String>) -> Option<Seq<char>> {
    match text {
        Some(t) => Some(t@),
        None => None,
    }
}

impl View for Attr {
    type V = AttrView;

    open spec fn view(&self) -> AttrView {
        AttrView { ident: optional_text(self.ident), inner: self.inner, shape: self.shape@ }
    }
}

/// What each of the attributes is.
pub open spec fn attr_views(attrs: Seq<Attr>) -> Seq<AttrView> {
    attrs.map_values(|attr: Attr| attr@)
}

/// A type, as far as it is a path.
#[derive(Debug)]
pub enum Ty {
    Path(Vec<Segment>),
    Other,
}

/// A segment of a path: an identifier with its arguments.
#[derive(Debug)]
pub struct Segment {
    pub ident: String,
    pub arguments: PathArguments,
}

/// The arguments of a path segment.
#[derive(Debug)]
pub enum PathArguments {
    /// None.
    Absent,
    /// Generic arguments: `<...>`.
    AngleBracketed(Vec<GenericArgument>),
    /// Inputs of a function trait: `(...)`.
    Parenthesized,
}

/// A generic argument, as far as it is a type.
#[derive(Debug)]
pub enum GenericArgument {
    Type(Ty),
    Other,
}

/// A parameter of a method.
#[derive(Debug, Clone, Copy, PartialEq, Eq, Structural)]
pub enum Input {
    /// `self`, and whether it is taken by `&` and with `mut`.
    Receiver { reference: bool, mutable: bool },
    /// Any other parameter.
    Typed,
}

/// A method of an `impl` block.
#[derive(Debug)]
pub struct Method {
    pub ident: String,
    pub attrs: Vec<Attr>,
    pub is_async: bool,
    /// Whether generic parameters follow the identifier.
    pub has_generics: bool,
    pub inputs: Vec<Input>,
    /// The return type, if one is written.
    pub output: Option<Ty>,
}

/// An item of an `impl` block.
#[derive(Debug)]
pub enum ImplItem {
    Method(Method),
    Other,
}

/// For what an `impl` block is written, in tokens `T` that are carried over as they
/// are: its generic parameters, the type, and its `where` clause.
#[derive(Debug)]
pub struct Head<T> {
    pub generics: T,
    pub self_ty: T,
    pub where_clause: T,
}

/// An `impl` block.
#[derive(Debug)]
pub struct ImplBlock<T> {
    pub head: Head<T>,
    /// Whether it implements a trait.
    pub is_trait_impl: bool,
    pub items: Vec<ImplItem>,
}

impl<T> ImplBlock<T> {
    /// Identifiers are never empty.
    pub open spec fn wf(self) -> bool {
        forall|i: int|
            0 <= i < self.items.len() && #[trigger] self.items[i] is Method
                ==> self.items[i]->Method_0.ident@.len() > 0
    }
}

/// Tells whether two strings are the same.
pub(crate) fn same_text(a: &String, b: &str) -> (same: bool)
    ensures
        same == (a@ == b@),
{
    *a == b.to_owned()
}

} // verus!
