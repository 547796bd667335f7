//! What can be wrong with a block of annotated methods, and where.
use crate::kind::Kind;
use vstd::prelude::*;

verus! {

/// The attributes that make a method a health check.
#[derive(Debug, Clone, Copy, PartialEq, Eq, Structural)]
pub enum CheckAttrName {
    /// `#[liveness]`, `#[readiness]` or `#[startup]`.
    Single(Kind),
    /// `#[health(...)]`.
    Health,
}

/// The identifier by which attributes name a kind.
pub open spec fn kind_ident(kind: Kind) -> Seq<char> {
    match kind {
        Kind::Liveness => "liveness"@,
        Kind::Readiness => "readiness"@,
        Kind::Startup => "startup"@,
    }
}

impl CheckAttrName {
    /// The identifier of the attribute.
    pub open spec fn ident(self) -> Seq<char> {
        match self {
            CheckAttrName::Single(kind) => kind_ident(kind),
            CheckAttrName::Health => "health"@,
        }
    }

    /// Returns the identifier of the attribute.
    pub fn as_str(self) -> (ident: &'static str)
        ensures
            ident@ == self.ident(),
    {
        match self {
            CheckAttrName::Single(Kind::Liveness) => "liveness",
            CheckAttrName::Single(Kind::Readiness) => "readiness",
            CheckAttrName::Single(Kind::Startup) => "startup",
            CheckAttrName::Health => "health",
        }
    }
}

/// What is wrong.
#[derive(Debug, Clone, Copy, PartialEq, Eq, Structural)]
pub enum Problem {
    /// The block implements a trait.
    TraitImpl,
    /// No method of the block is annotated.
    NoChecks,
    NotAsync,
    GenericMethod,
    /// The first parameter is not `&self`.
    NotSharedSelf,
    /// There are no parameters.
    NoSelf,
    ExtraArgument,
    WrongReturn,
    DuplicateKind,
    DuplicateName,
    EmptyName,
    /// `#[health(...)]` names no kind.
    NoKind,
    /// An argument that the attribute of a single kind does not take.
    ExpectedName,
    /// An argument that `#[health(...)]` does not take.
    ExpectedKindOrName,
    /// No arguments follow the attribute.
    MissingArguments { name: CheckAttrName, inner: bool },
    /// A value follows the attribute.
    ExpectedParentheses { name: CheckAttrName, inner: bool },
    ExpectedComma,
    ExpectedEquals,
    ExpectedString { at_end: bool },
    ExpectedIdent { at_end: bool },
    /// An argument ends where its identifier should stand.
    MissingArgument,
    LiteralArgument,
    UnexpectedToken,
}

/// The text `#[name(...)]`, or with a `!` for an inner attribute.
pub open spec fn call_form(name: CheckAttrName, inner: bool) -> Seq<char> {
    (if inner {
        "#!["@
    } else {
        "#["@
    }) + name.ident() + "(...)]"@
}

/// The prefix of a message about something that is missing at the end.
pub open spec fn end_prefix(at_end: bool) -> Seq<char> {
    if at_end {
        "unexpected end of input, "@
    } else {
        ""@
    }
}

impl Problem {
    /// The message for the problem.
    pub open spec fn text(self) -> Seq<char> {
        match self {
            Problem::TraitImpl => "#[health_check] must be used on an inherent impl block"@,
            Problem::NoChecks => "#[health_check] requires at least one annotated health check method"@,
            Problem::NotAsync => "health check methods must be async"@,
            Problem::GenericMethod => "health check methods must not have generic parameters"@,
            Problem::NotSharedSelf => "health check methods must take &self as the first parameter"@,
            Problem::NoSelf => "health check methods must take &self"@,
            Problem::ExtraArgument => "health check methods must not take arguments other than &self"@,
            Problem::WrongReturn => "health check methods must return axum_health::Result<axum_health::Check>"@,
            Problem::DuplicateKind => "duplicate health check kind"@,
            Problem::DuplicateName => "duplicate `name` argument"@,
            Problem::EmptyName => "health check names must not be empty"@,
            Problem::NoKind => "#[health(...)] requires at least one of `liveness`, `readiness`, or `startup`"@,
            Problem::ExpectedName => "expected `name = \"...\"`"@,
            Problem::ExpectedKindOrName => "expected `liveness`, `readiness`, `startup`, or `name = \"...\"`"@,
            Problem::MissingArguments { name, inner } => "expected attribute arguments in parentheses: "@
                + call_form(name, inner),
            Problem::ExpectedParentheses { name, inner } => "expected parentheses: "@ + call_form(
                name,
                inner,
            ),
            Problem::ExpectedComma => "expected `,`"@,
            Problem::ExpectedEquals => "expected `=`"@,
            Problem::ExpectedString { at_end } => end_prefix(at_end) + "expected string literal"@,
            Problem::ExpectedIdent { at_end } => end_prefix(at_end) + "expected ident"@,
            Problem::MissingArgument => "unexpected end of input, expected nested attribute"@,
            Problem::LiteralArgument => "unexpected literal in nested attribute, expected ident"@,
            Problem::UnexpectedToken => "unexpected token in nested attribute, expected ident"@,
        }
    }

    /// Returns the message for the problem.
    pub fn message(self) -> (message: String)
        ensures
            message@ == self.text(),
    {
        match self {
            Problem::TraitImpl => "#[health_check] must be used on an inherent impl block".to_owned(),
            Problem::NoChecks =>
                "#[health_check] requires at least one annotated health check method".to_owned(),
            Problem::NotAsync => "health check methods must be async".to_owned(),
            Problem::GenericMethod =>
                "health check methods must not have generic parameters".to_owned(),
            Problem::NotSharedSelf =>
                "health check methods must take &self as the first parameter".to_owned(),
            Problem::NoSelf => "health check methods must take &self".to_owned(),
            Problem::ExtraArgument =>
                "health check methods must not take arguments other than &self".to_owned(),
            Problem::WrongReturn =>
                "health check methods must return axum_health::Result<axum_health::Check>".to_owned(),
            Problem::DuplicateKind => "duplicate health check kind".to_owned(),
            Problem::DuplicateName => "duplicate `name` argument".to_owned(),
            Problem::EmptyName => "health check names must not be empty".to_owned(),
            Problem::NoKind =>
                "#[health(...)] requires at least one of `liveness`, `readiness`, or `startup`".to_owned(),
            Problem::ExpectedName => "expected `name = \"...\"`".to_owned(),
            Problem::ExpectedKindOrName =>
                "expected `liveness`, `readiness`, `startup`, or `name = \"...\"`".to_owned(),
            Problem::MissingArguments { name, inner } =>
                "expected attribute arguments in parentheses: ".to_owned().concat(
                    called(name, inner).as_str(),
                ),
            Problem::ExpectedParentheses { name, inner } =>
                "expected parentheses: ".to_owned().concat(called(name, inner).as_str()),
            Problem::ExpectedComma => "expected `,`".to_owned(),
            Problem::ExpectedEquals => "expected `=`".to_owned(),
            Problem::ExpectedString { at_end } => at_the_end(at_end).concat("expected string literal"),
            Problem::ExpectedIdent { at_end } => at_the_end(at_end).concat("expected ident"),
            Problem::MissingArgument =>
                "unexpected end of input, expected nested attribute".to_owned(),
            Problem::LiteralArgument =>
                "unexpected literal in nested attribute, expected ident".to_owned(),
            Problem::UnexpectedToken =>
                "unexpected token in nested attribute, expected ident".to_owned(),
        }
    }
}

/// Returns the text `#[name(...)]`, or with a `!` for an inner attribute.
fn called(name: CheckAttrName, inner: bool) -> (text: String)
    ensures
        text@ == call_form(name, inner),
{
    let open = if inner {
        "#![".to_owned()
    } else {
        "#[".to_owned()
    };
    open.concat(name.as_str()).concat("(...)]")
}

/// Returns the prefix of a message about something that is missing at the end.
fn at_the_end(at_end: bool) -> (prefix: String)
    ensures
        prefix@ == end_prefix(at_end),
{
    if at_end {
        "unexpected end of input, ".to_owned()
    } else {
        "".to_owned()
    }
}

/// A part of an attribute.
#[derive(Debug, Clone, Copy, PartialEq, Eq, Structural)]
pub enum AttrPart {
    /// The whole attribute.
    Whole,
    /// Its path.
    Path,
    /// The `=` behind its path.
    Equals,
    /// The argument token at this place. The place behind the last token is the
    /// closing parenthesis.
    At(usize),
    /// The argument tokens from the first place to the second.
    Span(usize, usize),
}

/// What is wrong with an attribute, and where.
#[derive(Debug, Clone, Copy, PartialEq, Eq, Structural)]
pub struct AttrFault {
    pub part: AttrPart,
    pub problem: Problem,
}

/// A part of a method.
#[derive(Debug, Clone, Copy, PartialEq, Eq, Structural)]
pub enum MethodPart {
    Ident,
    Generics,
    /// The parameter at this place.
    Input(usize),
    Output,
    /// A part of the attribute at this place.
    Attr(usize, AttrPart),
}

/// What is wrong with a method, and where.
#[derive(Debug, Clone, Copy, PartialEq, Eq, Structural)]
pub struct MethodFault {
    pub part: MethodPart,
    pub problem: Problem,
}

/// A part of an `impl` block.
#[derive(Debug, Clone, Copy, PartialEq, Eq, Structural)]
pub enum Site {
    /// The type for which the block is.
    SelfType,
    /// A part of the method that is the item at this place.
    Method(usize, MethodPart),
}

/// What is wrong with an `impl` block, and where.
#[derive(Debug, Clone, Copy, PartialEq, Eq, Structural)]
pub struct Fault {
    pub site: Site,
    pub problem: Problem,
}

} // verus!
