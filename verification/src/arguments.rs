//! The grammar of the attributes that make a method a health check.
//!
//! The arguments of an attribute are separated by commas, with one more comma
//! allowed at the end. `#[liveness]`, `#[readiness]` and `#[startup]` take
//! `name = "..."`; `#[health(...)]` takes the three kinds as well. No kind and no
//! name may be given twice, and a name is not empty.
use crate::diagnostic::{kind_ident, AttrFault, AttrPart, CheckAttrName, Problem};
use crate::kind::Kind;
use crate::syntax::{optional_text, same_text, token_views, Attr, AttrView, Shape, ShapeView};
use crate::syntax::{Token, TokenView};
use vstd::prelude::*;

verus! {

/// Which arguments an attribute takes.
#[derive(Debug, Clone, Copy, PartialEq, Eq, Structural)]
pub enum Grammar {
    /// A name.
    Name,
    /// Kinds and a name.
    KindsAndName,
}

impl Grammar {
    /// What is wrong with an argument that the attribute does not take.
    pub open spec fn refusal(self) -> Problem {
        match self {
            Grammar::Name => Problem::ExpectedName,
            Grammar::KindsAndName => Problem::ExpectedKindOrName,
        }
    }
}

/// Arguments that were read.
#[verifier::ext_equal]
pub struct ArgumentsView {
    pub kinds: Seq<Kind>,
    pub name: Option<Seq<char>>,
}

impl ArgumentsView {
    pub open spec fn empty() -> Self {
        ArgumentsView { kinds: Seq::empty(), name: None }
    }
}

/// The path of an argument: its identifier, if it is a single one, the place of
/// its first identifier and the place behind it.
pub struct PathView {
    pub ident: Option<Seq<char>>,
    pub first: int,
    pub end: int,
}

/// Whether the token at `i` is the punctuation `ch`.
pub open spec fn is_punct(tokens: Seq<TokenView>, i: int, ch: char) -> bool {
    0 <= i < tokens.len() && match tokens[i] {
        TokenView::Punct { ch: c, .. } => c == ch,
        _ => false,
    }
}

/// Whether `::` stands at `i`.
pub open spec fn is_separator(tokens: Seq<TokenView>, i: int) -> bool {
    &&& 0 <= i < tokens.len()
    &&& tokens[i] == (TokenView::Punct { ch: ':', joint: true })
    &&& is_punct(tokens, i + 1, ':')
}

/// Whether an identifier stands at `i`.
pub open spec fn is_ident(tokens: Seq<TokenView>, i: int) -> bool {
    0 <= i < tokens.len() && tokens[i] is Ident
}

/// Whether a literal stands at `i`, a negative number included.
pub open spec fn is_literal(tokens: Seq<TokenView>, i: int) -> bool {
    &&& 0 <= i < tokens.len()
    &&& {
        ||| tokens[i] is Text
        ||| tokens[i] is Number
        ||| tokens[i] is Literal
        ||| is_punct(tokens, i, '-') && i + 1 < tokens.len() && tokens[i + 1] is Number
    }
}

/// A fault at the token at `i`.
pub open spec fn fault_at(i: int, problem: Problem) -> AttrFault {
    AttrFault { part: AttrPart::At(i as usize), problem }
}

/// A fault of the argument with the given path.
pub open spec fn fault_of(path: PathView, problem: Problem) -> AttrFault {
    AttrFault { part: AttrPart::Span(path.first as usize, (path.end - 1) as usize), problem }
}

/// The end of a path of which an identifier ends at `i`.
pub open spec fn path_end(tokens: Seq<TokenView>, i: int) -> Result<int, AttrFault>
    decreases tokens.len() - i,
{
    if !is_separator(tokens, i) {
        Ok(i)
    } else if is_ident(tokens, i + 2) {
        path_end(tokens, i + 3)
    } else {
        Err(fault_at(i + 2, Problem::ExpectedIdent { at_end: i + 2 >= tokens.len() }))
    }
}

/// The path at `i`.
pub open spec fn path_at(tokens: Seq<TokenView>, i: int) -> Result<PathView, AttrFault> {
    let first = if is_separator(tokens, i) {
        i + 2
    } else {
        i
    };
    if is_ident(tokens, first) {
        match path_end(tokens, first + 1) {
            Ok(end) => Ok(
                PathView {
                    ident: if first == i && end == i + 1 {
                        Some(tokens[i]->Ident_0)
                    } else {
                        None
                    },
                    first,
                    end,
                },
            ),
            Err(fault) => Err(fault),
        }
    } else if first >= tokens.len() {
        Err(fault_at(first, Problem::MissingArgument))
    } else if is_literal(tokens, first) {
        Err(fault_at(first, Problem::LiteralArgument))
    } else {
        Err(fault_at(first, Problem::UnexpectedToken))
    }
}

/// The kind that an identifier names.
pub open spec fn kind_named(ident: Seq<char>) -> Option<Kind> {
    if ident == kind_ident(Kind::Liveness) {
        Some(Kind::Liveness)
    } else if ident == kind_ident(Kind::Readiness) {
        Some(Kind::Readiness)
    } else if ident == kind_ident(Kind::Startup) {
        Some(Kind::Startup)
    } else {
        None
    }
}

/// The value `= "..."` at `i`: a text that is not empty.
pub open spec fn value_at(tokens: Seq<TokenView>, i: int) -> Result<Seq<char>, AttrFault> {
    if !is_punct(tokens, i, '=') {
        Err(fault_at(i, Problem::ExpectedEquals))
    } else if i + 1 < tokens.len() && tokens[i + 1] is Text {
        if tokens[i + 1]->Text_0.len() == 0 {
            Err(fault_at(i + 1, Problem::EmptyName))
        } else {
            Ok(tokens[i + 1]->Text_0)
        }
    } else {
        Err(fault_at(i + 1, Problem::ExpectedString { at_end: i + 1 >= tokens.len() }))
    }
}

/// The arguments after the one with the given path, and the place behind it.
pub open spec fn with_argument(
    tokens: Seq<TokenView>,
    path: PathView,
    read: ArgumentsView,
    grammar: Grammar,
) -> Result<(ArgumentsView, int), AttrFault> {
    let kind = if path.ident is Some && grammar == Grammar::KindsAndName {
        kind_named(path.ident->0)
    } else {
        None
    };
    match kind {
        Some(kind) => if read.kinds.contains(kind) {
            Err(fault_of(path, Problem::DuplicateKind))
        } else {
            Ok((ArgumentsView { kinds: read.kinds.push(kind), ..read }, path.end))
        },
        None => if path.ident != Some("name"@) {
            Err(fault_of(path, grammar.refusal()))
        } else if read.name is Some {
            Err(fault_of(path, Problem::DuplicateName))
        } else {
            match value_at(tokens, path.end) {
                Ok(name) => Ok((ArgumentsView { name: Some(name), ..read }, path.end + 2)),
                Err(fault) => Err(fault),
            }
        },
    }
}

/// A path ends behind its start and within the tokens.
pub proof fn lemma_path_end(tokens: Seq<TokenView>, i: int)
    requires
        0 <= i <= tokens.len(),
    ensures
        path_end(tokens, i) matches Ok(end) ==> i <= end <= tokens.len(),
    decreases tokens.len() - i,
{
    if is_separator(tokens, i) && is_ident(tokens, i + 2) {
        lemma_path_end(tokens, i + 3);
    }
}

/// An argument that can be read ends behind its start and within the tokens.
pub proof fn lemma_argument_end(
    tokens: Seq<TokenView>,
    i: int,
    read: ArgumentsView,
    grammar: Grammar,
)
    requires
        0 <= i <= tokens.len(),
    ensures
        path_at(tokens, i) matches Ok(path) ==> {
            &&& i <= path.first < path.end <= tokens.len()
            &&& with_argument(tokens, path, read, grammar) matches Ok((_, end)) ==> i < end
                <= tokens.len()
        },
{
    let first = if is_separator(tokens, i) {
        i + 2
    } else {
        i
    };
    if is_ident(tokens, first) {
        lemma_path_end(tokens, first + 1);
    }
}

/// The arguments from `i` on, after those that were read before.
pub open spec fn arguments_from(
    tokens: Seq<TokenView>,
    i: int,
    read: ArgumentsView,
    grammar: Grammar,
) -> Result<ArgumentsView, AttrFault>
    decreases tokens.len() - i,
    when 0 <= i <= tokens.len()
{
    proof {
        lemma_argument_end(tokens, i, read, grammar);
    }
    match path_at(tokens, i) {
        Err(fault) => Err(fault),
        Ok(path) => match with_argument(tokens, path, read, grammar) {
            Err(fault) => Err(fault),
            Ok((arguments, end)) => if end >= tokens.len() {
                Ok(arguments)
            } else if !is_punct(tokens, end, ',') {
                Err(fault_at(end, Problem::ExpectedComma))
            } else if end + 1 >= tokens.len() {
                Ok(arguments)
            } else {
                arguments_from(tokens, end + 1, arguments, grammar)
            },
        },
    }
}

/// The arguments that the tokens between the parentheses say.
pub open spec fn arguments(tokens: Seq<TokenView>, grammar: Grammar) -> Result<
    ArgumentsView,
    AttrFault,
> {
    if tokens.len() == 0 {
        Ok(ArgumentsView::empty())
    } else {
        arguments_from(tokens, 0, ArgumentsView::empty(), grammar)
    }
}

/// A check that an attribute asks for: its kind, and its name if one is given.
pub struct CheckAttrView {
    pub kind: Kind,
    pub name: Option<Seq<char>>,
}

/// The check attribute that an identifier names.
pub open spec fn attr_named(ident: Option<Seq<char>>) -> Option<CheckAttrName> {
    match ident {
        None => None,
        Some(text) => match kind_named(text) {
            Some(kind) => Some(CheckAttrName::Single(kind)),
            None => if text == "health"@ {
                Some(CheckAttrName::Health)
            } else {
                None
            },
        },
    }
}

/// The checks that an attribute asks for. One that is no check attribute asks for
/// none.
pub open spec fn attr_checks(attr: AttrView) -> Result<Seq<CheckAttrView>, AttrFault> {
    match attr_named(attr.ident) {
        None => Ok(Seq::empty()),
        Some(name) => match (name, attr.shape) {
            (CheckAttrName::Single(kind), ShapeView::Word) => Ok(
                seq![CheckAttrView { kind, name: None }],
            ),
            (CheckAttrName::Health, ShapeView::Word) => Err(
                AttrFault {
                    part: AttrPart::Path,
                    problem: Problem::MissingArguments { name, inner: attr.inner },
                },
            ),
            (_, ShapeView::Assigned) => Err(
                AttrFault {
                    part: AttrPart::Equals,
                    problem: Problem::ExpectedParentheses { name, inner: attr.inner },
                },
            ),
            (CheckAttrName::Single(kind), ShapeView::List(tokens)) => match arguments(
                tokens,
                Grammar::Name,
            ) {
                Ok(read) => Ok(seq![CheckAttrView { kind, name: read.name }]),
                Err(fault) => Err(fault),
            },
            (CheckAttrName::Health, ShapeView::List(tokens)) => match arguments(
                tokens,
                Grammar::KindsAndName,
            ) {
                Ok(read) => if read.kinds.len() == 0 {
                    Err(AttrFault { part: AttrPart::Whole, problem: Problem::NoKind })
                } else {
                    Ok(checks_of_kinds(read))
                },
                Err(fault) => Err(fault),
            },
        },
    }
}

/// One check for each of the kinds, all with the same name.
pub open spec fn checks_of_kinds(read: ArgumentsView) -> Seq<CheckAttrView> {
    read.kinds.map_values(|kind: Kind| CheckAttrView { kind, name: read.name })
}

/// A check that an attribute asks for: its kind, and its name if one is given.
#[derive(Debug)]
pub struct CheckAttr {
    pub kind: Kind,
    pub name: Option<String>,
}

impl View for CheckAttr {
    type V = CheckAttrView;

    open spec fn view(&self) -> CheckAttrView {
        CheckAttrView { kind: self.kind, name: optional_text(self.name) }
    }
}

/// What each of the checks is.
pub open spec fn check_attr_views(checks: Seq<CheckAttr>) -> Seq<CheckAttrView> {
    checks.map_values(|check: CheckAttr| check@)
}

/// What was read, or what is wrong.
pub open spec fn checks_result(result: Result<Vec<CheckAttr>, AttrFault>) -> Result<
    Seq<CheckAttrView>,
    AttrFault,
> {
    match result {
        Ok(checks) => Ok(check_attr_views(checks@)),
        Err(fault) => Err(fault),
    }
}

/// Arguments that were read.
struct Arguments {
    kinds: Vec<Kind>,
    name: Option<String>,
}

impl Arguments {
    spec fn view(self) -> ArgumentsView {
        ArgumentsView { kinds: self.kinds@, name: optional_text(self.name) }
    }
}

/// The path of an argument.
struct Path {
    ident: Option<String>,
    first: usize,
    end: usize,
}

impl Path {
    spec fn view(self) -> PathView {
        PathView { ident: optional_text(self.ident), first: self.first as int, end: self.end as int }
    }
}

/// Tells whether the token at `i` is the punctuation `ch`.
fn punct_at(tokens: &Vec<Token>, i: usize, ch: char) -> (is: bool)
    ensures
        is == is_punct(token_views(tokens@), i as int, ch),
{
    i < tokens.len() && match &tokens[i] {
        Token::Punct { ch: c, .. } => *c == ch,
        _ => false,
    }
}

/// Tells whether `::` stands at `i`.
fn separator_at(tokens: &Vec<Token>, i: usize) -> (is: bool)
    ensures
        is == is_separator(token_views(tokens@), i as int),
{
    i < tokens.len() && match &tokens[i] {
        Token::Punct { ch, joint } => *ch == ':' && *joint && punct_at(tokens, i + 1, ':'),
        _ => false,
    }
}

/// Tells whether an identifier stands at `i`.
fn ident_at(tokens: &Vec<Token>, i: usize) -> (is: bool)
    ensures
        is == is_ident(token_views(tokens@), i as int),
{
    i < tokens.len() && match &tokens[i] {
        Token::Ident(_) => true,
        _ => false,
    }
}

/// Tells whether a literal stands at `i`.
fn literal_at(tokens: &Vec<Token>, i: usize) -> (is: bool)
    ensures
        is == is_literal(token_views(tokens@), i as int),
{
    i < tokens.len() && match &tokens[i] {
        Token::Text(_) | Token::Number | Token::Literal => true,
        Token::Punct { ch, .. } => *ch == '-' && i + 1 < tokens.len() && match &tokens[i + 1] {
            Token::Number => true,
            _ => false,
        },
        _ => false,
    }
}

/// Reads the path at `i`.
fn parse_path(tokens: &Vec<Token>, i: usize) -> (path: Result<Path, AttrFault>)
    requires
        i <= tokens.len(),
    ensures
        match path {
            Ok(path) => path_at(token_views(tokens@), i as int) == Ok::<PathView, AttrFault>(
                path.view(),
            ),
            Err(fault) => path_at(token_views(tokens@), i as int) == Err::<PathView, AttrFault>(
                fault,
            ),
        },
{
    let ghost views = token_views(tokens@);
    let first = if separator_at(tokens, i) {
        i + 2
    } else {
        i
    };
    if !ident_at(tokens, first) {
        let problem = if first >= tokens.len() {
            Problem::MissingArgument
        } else if literal_at(tokens, first) {
            Problem::LiteralArgument
        } else {
            Problem::UnexpectedToken
        };
        return Err(AttrFault { part: AttrPart::At(first), problem });
    }
    let mut end = first + 1;
    while separator_at(tokens, end)
        invariant
            first < end <= tokens.len(),
            views == token_views(tokens@),
            first == (if is_separator(views, i as int) {
                i + 2
            } else {
                i as int
            }),
            is_ident(views, first as int),
            path_end(views, end as int) == path_end(views, first + 1),
        decreases tokens.len() - end,
    {
        if !ident_at(tokens, end + 2) {
            let at_end = end + 2 >= tokens.len();
            return Err(
                AttrFault {
                    part: AttrPart::At(end + 2),
                    problem: Problem::ExpectedIdent { at_end },
                },
            );
        }
        end = end + 3;
    }
    let ident = if first == i && end == i + 1 {
        match &tokens[i] {
            Token::Ident(name) => Some(name.clone()),
            _ => None,
        }
    } else {
        None
    };
    Ok(Path { ident, first, end })
}

/// Returns the kind that an identifier names.
pub(crate) fn find_kind(ident: &String) -> (kind: Option<Kind>)
    ensures
        kind == kind_named(ident@),
{
    if same_text(ident, "liveness") {
        Some(Kind::Liveness)
    } else if same_text(ident, "readiness") {
        Some(Kind::Readiness)
    } else if same_text(ident, "startup") {
        Some(Kind::Startup)
    } else {
        None
    }
}

/// Refuses a kind that was given before, by the argument with the given path.
fn reject_duplicate_kind(kinds: &Vec<Kind>, kind: Kind, path: &Path) -> (result: Result<
    (),
    AttrFault,
>)
    requires
        path.first < path.end,
    ensures
        result == (if kinds@.contains(kind) {
            Err::<(), AttrFault>(fault_of(path.view(), Problem::DuplicateKind))
        } else {
            Ok(())
        }),
{
    let mut i: usize = 0;
    while i < kinds.len()
        invariant
            i <= kinds.len(),
            path.first < path.end,
            forall|j: int| 0 <= j < i ==> kinds[j] != kind,
        decreases kinds.len() - i,
    {
        if kinds[i] == kind {
            return Err(
                AttrFault {
                    part: AttrPart::Span(path.first, path.end - 1),
                    problem: Problem::DuplicateKind,
                },
            );
        }
        i += 1;
    }
    Ok(())
}

/// Refuses a name if one was given before, by the argument with the given path.
fn reject_duplicate_name(name: &Option<String>, path: &Path) -> (result: Result<(), AttrFault>)
    requires
        path.first < path.end,
    ensures
        result == (if name is Some {
            Err::<(), AttrFault>(fault_of(path.view(), Problem::DuplicateName))
        } else {
            Ok(())
        }),
{
    if name.is_some() {
        Err(
            AttrFault {
                part: AttrPart::Span(path.first, path.end - 1),
                problem: Problem::DuplicateName,
            },
        )
    } else {
        Ok(())
    }
}

/// Takes a name that is given by the literal at `place`, if it is not empty.
pub fn validate_name(value: &str, place: usize) -> (name: Result<String, AttrFault>)
    ensures
        value@.len() > 0 ==> name is Ok && name->Ok_0@ == value@,
        value@.len() == 0 ==> name == Err::<String, AttrFault>(
            fault_at(place as int, Problem::EmptyName),
        ),
{
    if value.is_empty() {
        Err(AttrFault { part: AttrPart::At(place), problem: Problem::EmptyName })
    } else {
        Ok(value.to_owned())
    }
}

/// Reads the value `= "..."` at `i`.
fn parse_value(tokens: &Vec<Token>, i: usize) -> (value: Result<String, AttrFault>)
    requires
        i <= tokens.len(),
    ensures
        match value {
            Ok(name) => value_at(token_views(tokens@), i as int) == Ok::<Seq<char>, AttrFault>(
                name@,
            ),
            Err(fault) => value_at(token_views(tokens@), i as int) == Err::<Seq<char>, AttrFault>(
                fault,
            ),
        },
{
    if !punct_at(tokens, i, '=') {
        return Err(AttrFault { part: AttrPart::At(i), problem: Problem::ExpectedEquals });
    }
    if i + 1 < tokens.len() {
        if let Token::Text(text) = &tokens[i + 1] {
            return validate_name(text.as_str(), i + 1);
        }
    }
    let at_end = i + 1 >= tokens.len();
    Err(AttrFault { part: AttrPart::At(i + 1), problem: Problem::ExpectedString { at_end } })
}

/// Reads the rest of the argument with the given path into `read`, and returns
/// the place behind it.
fn parse_argument(
    tokens: &Vec<Token>,
    path: &Path,
    read: &mut Arguments,
    grammar: Grammar,
) -> (end: Result<usize, AttrFault>)
    requires
        path.first < path.end <= tokens.len(),
    ensures
        match end {
            Ok(end) => with_argument(token_views(tokens@), path.view(), old(read).view(), grammar)
                == Ok::<(ArgumentsView, int), AttrFault>((final(read).view(), end as int)),
            Err(fault) => with_argument(
                token_views(tokens@),
                path.view(),
                old(read).view(),
                grammar,
            ) == Err::<(ArgumentsView, int), AttrFault>(fault),
        },
{
    let refused = AttrFault {
        part: AttrPart::Span(path.first, path.end - 1),
        problem: match grammar {
            Grammar::Name => Problem::ExpectedName,
            Grammar::KindsAndName => Problem::ExpectedKindOrName,
        },
    };
    let ident = match &path.ident {
        None => {
            return Err(refused);
        },
        Some(ident) => ident,
    };
    if grammar == Grammar::KindsAndName {
        if let Some(kind) = find_kind(ident) {
            if let Err(fault) = reject_duplicate_kind(&read.kinds, kind, path) {
                return Err(fault);
            }
            read.kinds.push(kind);
            return Ok(path.end);
        }
    }
    if !same_text(ident, "name") {
        return Err(refused);
    }
    if let Err(fault) = reject_duplicate_name(&read.name, path) {
        return Err(fault);
    }
    match parse_value(tokens, path.end) {
        Err(fault) => Err(fault),
        Ok(name) => {
            read.name = Some(name);
            Ok(path.end + 2)
        },
    }
}

/// Reads the arguments that the tokens between the parentheses say.
fn parse_arguments(tokens: &Vec<Token>, grammar: Grammar) -> (read: Result<Arguments, AttrFault>)
    ensures
        match read {
            Ok(read) => arguments(token_views(tokens@), grammar) == Ok::<ArgumentsView, AttrFault>(
                read.view(),
            ),
            Err(fault) => arguments(token_views(tokens@), grammar) == Err::<
                ArgumentsView,
                AttrFault,
            >(fault),
        },
{
    let ghost views = token_views(tokens@);
    let mut read = Arguments { kinds: Vec::new(), name: None };
    assert(read.view() == ArgumentsView::empty());
    let mut i: usize = 0;
    while i < tokens.len()
        invariant
            i <= tokens.len(),
            views == token_views(tokens@),
            i < tokens.len() ==> arguments(views, grammar) == arguments_from(
                views,
                i as int,
                read.view(),
                grammar,
            ),
            i == tokens.len() ==> arguments(views, grammar) == Ok::<ArgumentsView, AttrFault>(
                read.view(),
            ),
        decreases tokens.len() - i,
    {
        proof {
            lemma_argument_end(views, i as int, read.view(), grammar);
        }
        let path = match parse_path(tokens, i) {
            Ok(path) => path,
            Err(fault) => {
                return Err(fault);
            },
        };
        let end = match parse_argument(tokens, &path, &mut read, grammar) {
            Ok(end) => end,
            Err(fault) => {
                return Err(fault);
            },
        };
        if end < tokens.len() {
            if !punct_at(tokens, end, ',') {
                return Err(AttrFault { part: AttrPart::At(end), problem: Problem::ExpectedComma });
            }
            i = end + 1;
        } else {
            i = end;
        }
    }
    Ok(read)
}

/// Reads an attribute of a single kind.
pub(crate) fn parse_single_kind_attr(attr: &Attr, kind: Kind) -> (result: Result<CheckAttr, AttrFault>)
    requires
        attr_named(attr@.ident) == Some(CheckAttrName::Single(kind)),
    ensures
        match result {
            Ok(check) => attr_checks(attr@) == Ok::<Seq<CheckAttrView>, AttrFault>(seq![check@]),
            Err(fault) => attr_checks(attr@) == Err::<Seq<CheckAttrView>, AttrFault>(fault),
        },
{
    match &attr.shape {
        Shape::Word => Ok(CheckAttr { kind, name: None }),
        Shape::Assigned => Err(
            AttrFault {
                part: AttrPart::Equals,
                problem: Problem::ExpectedParentheses {
                    name: CheckAttrName::Single(kind),
                    inner: attr.inner,
                },
            },
        ),
        Shape::List(tokens) => match parse_arguments(tokens, Grammar::Name) {
            Ok(read) => Ok(CheckAttr { kind, name: read.name }),
            Err(fault) => Err(fault),
        },
    }
}

/// Reads a `#[health(...)]` attribute.
pub(crate) fn parse_health_attr(attr: &Attr) -> (result: Result<Vec<CheckAttr>, AttrFault>)
    requires
        attr_named(attr@.ident) == Some(CheckAttrName::Health),
    ensures
        checks_result(result) == attr_checks(attr@),
{
    let read = match &attr.shape {
        Shape::Word => {
            return Err(
                AttrFault {
                    part: AttrPart::Path,
                    problem: Problem::MissingArguments {
                        name: CheckAttrName::Health,
                        inner: attr.inner,
                    },
                },
            );
        },
        Shape::Assigned => {
            return Err(
                AttrFault {
                    part: AttrPart::Equals,
                    problem: Problem::ExpectedParentheses {
                        name: CheckAttrName::Health,
                        inner: attr.inner,
                    },
                },
            );
        },
        Shape::List(tokens) => match parse_arguments(tokens, Grammar::KindsAndName) {
            Ok(read) => read,
            Err(fault) => {
                return Err(fault);
            },
        },
    };
    if read.kinds.len() == 0 {
        return Err(AttrFault { part: AttrPart::Whole, problem: Problem::NoKind });
    }
    let ghost views = checks_of_kinds(read.view());
    let mut checks: Vec<CheckAttr> = Vec::new();
    let mut i: usize = 0;
    while i < read.kinds.len()
        invariant
            i <= read.kinds.len(),
            checks.len() == i,
            views == checks_of_kinds(read.view()),
            forall|j: int| 0 <= j < i ==> (#[trigger] checks[j])@ == views[j],
        decreases read.kinds.len() - i,
    {
        let name = match &read.name {
            Some(name) => Some(name.clone()),
            None => None,
        };
        checks.push(CheckAttr { kind: read.kinds[i], name });
        i += 1;
    }
    assert(check_attr_views(checks@) == views);
    Ok(checks)
}

} // verus!
