//! What is reported of attributes that cannot be read, and where.
use crate::arguments::{
    arguments, arguments_from, attr_checks, attr_named, is_ident, is_separator, kind_named,
    path_at, path_end, with_argument, ArgumentsView, CheckAttrView, Grammar,
};
use crate::diagnostic::{kind_ident, AttrFault, AttrPart, CheckAttrName, Problem};
use crate::kind::Kind;
use crate::laws::grammar::{
    allowed, allowed_after, kinds_in, lemma_idents, mark_at, meaning, meaning_after, names_in,
    spells_argument, word_at, Argument,
};
use crate::syntax::{AttrView, TokenView};
use vstd::prelude::*;

verus! {

/// Whether `::` stands at `i`.
pub open spec fn colons_at(tokens: Seq<TokenView>, i: int) -> bool {
    &&& 0 <= i < tokens.len()
    &&& tokens[i] == (TokenView::Punct { ch: ':', joint: true })
    &&& mark_at(tokens, i + 1, ':')
}

/// Whether a literal stands at `i`, a negative number included.
pub open spec fn literal_at(tokens: Seq<TokenView>, i: int) -> bool {
    &&& 0 <= i < tokens.len()
    &&& {
        ||| tokens[i] is Text
        ||| tokens[i] is Number
        ||| tokens[i] is Literal
        ||| mark_at(tokens, i, '-') && i + 1 < tokens.len() && tokens[i + 1] is Number
    }
}

/// Whether the tokens before `i` are the arguments, each with a comma behind it.
pub open spec fn leads_to(tokens: Seq<TokenView>, args: Seq<Argument>, i: int) -> bool
    decreases args.len(),
{
    if args.len() == 0 {
        i == 0
    } else {
        let start = i - 1 - args.last().width();
        &&& 0 <= start
        &&& spells_argument(tokens, start, args.last())
        &&& mark_at(tokens, i - 1, ',')
        &&& leads_to(tokens, args.drop_last(), start)
    }
}

/// The kinds and names among arguments of which one is last.
proof fn lemma_last(args: Seq<Argument>)
    requires
        args.len() > 0,
    ensures
        kinds_in(args) == kinds_in(args.drop_last()) + kinds_in(seq![args.last()]),
        names_in(args) == names_in(args.drop_last()) + names_in(seq![args.last()]),
    decreases args.len(),
{
    if args.len() == 1 {
        assert(args =~= seq![args.last()]);
        assert(args.drop_last() =~= Seq::<Argument>::empty());
        assert(kinds_in(args) =~= kinds_in(args.drop_last()) + kinds_in(seq![args.last()]));
        assert(names_in(args) =~= names_in(args.drop_last()) + names_in(seq![args.last()]));
    } else {
        let rest = args.drop_first();
        lemma_last(rest);
        assert(rest.drop_last() =~= args.drop_last().drop_first());
        assert(rest.last() == args.last());
        assert(args.drop_last()[0] == args[0]);
        assert(kinds_in(args) =~= kinds_in(args.drop_last()) + kinds_in(seq![args.last()]));
        assert(names_in(args) =~= names_in(args.drop_last()) + names_in(seq![args.last()]));
    }
}

/// Reading one argument.
proof fn lemma_one(
    tokens: Seq<TokenView>,
    i: int,
    arg: Argument,
    read: ArgumentsView,
    grammar: Grammar,
)
    requires
        0 <= i < tokens.len(),
        spells_argument(tokens, i, arg),
        allowed_after(read, seq![arg], grammar),
        !colons_at(tokens, i + 1),
    ensures
        path_at(tokens, i) is Ok,
        with_argument(tokens, path_at(tokens, i)->Ok_0, read, grammar) == Ok::<
            (ArgumentsView, int),
            AttrFault,
        >((meaning_after(read, seq![arg]), i + arg.width())),
{
    lemma_idents();
    let one = seq![arg];
    assert(one.drop_first() =~= Seq::<Argument>::empty());
    assert(kinds_in(one.drop_first()) =~= Seq::<Kind>::empty());
    assert(names_in(one.drop_first()) =~= Seq::<Seq<char>>::empty());
    let next = meaning_after(read, one);
    match arg {
        Argument::Kind(kind) => {
            assert(kinds_in(one) =~= seq![kind]);
            assert(names_in(one) =~= Seq::<Seq<char>>::empty());
            assert(tokens[i] == TokenView::Ident(kind_ident(kind)));
            let all = read.kinds + kinds_in(one);
            assert(all[read.kinds.len() as int] == kind);
            if read.kinds.contains(kind) {
                let j = choose|j: int| 0 <= j < read.kinds.len() && read.kinds[j] == kind;
                assert(all[j] == kind);
                assert(false);
            }
            assert(next.kinds =~= read.kinds.push(kind));
        },
        Argument::Name(name) => {
            assert(kinds_in(one) =~= Seq::<Kind>::empty());
            assert(names_in(one) =~= seq![name]);
            assert(names_in(one)[0] == name);
            assert(next.kinds =~= read.kinds);
        },
    }
}

/// Behind arguments that the attribute takes, what follows decides.
proof fn lemma_leads_to(tokens: Seq<TokenView>, args: Seq<Argument>, i: int, grammar: Grammar)
    requires
        leads_to(tokens, args, i),
        allowed(args, grammar),
        0 <= i < tokens.len(),
    ensures
        arguments(tokens, grammar) == arguments_from(tokens, i, meaning(args), grammar),
    decreases args.len(),
{
    if args.len() == 0 {
        assert(meaning(args) =~= ArgumentsView::empty());
    } else {
        let shorter = args.drop_last();
        let arg = args.last();
        let start = i - 1 - arg.width();
        lemma_last(args);
        let all = kinds_in(args);
        assert forall|m: int, n: int|
            0 <= m < kinds_in(shorter).len() && 0 <= n < kinds_in(shorter).len() && m
                != n implies kinds_in(shorter)[m] != kinds_in(shorter)[n] by {
            assert(all[m] == kinds_in(shorter)[m]);
            assert(all[n] == kinds_in(shorter)[n]);
        }
        if names_in(shorter).len() == 1 {
            assert(names_in(args)[0] == names_in(shorter)[0]);
        }
        lemma_leads_to(tokens, shorter, start, grammar);
        let read = meaning(shorter);
        if names_in(seq![arg]).len() == 1 {
            assert(names_in(args)[names_in(shorter).len() as int] == names_in(seq![arg])[0]);
        }
        assert(allowed_after(read, seq![arg], grammar));
        lemma_one(tokens, start, arg, read, grammar);
        assert(meaning_after(read, seq![arg]) =~= meaning(args));
    }
}

/// An argument that does not begin with an identifier is refused where it begins:
/// behind its `::`, if it begins with one.
pub proof fn law_argument_begins_with_an_identifier(
    tokens: Seq<TokenView>,
    args: Seq<Argument>,
    i: int,
    grammar: Grammar,
)
    requires
        leads_to(tokens, args, i),
        allowed(args, grammar),
        0 <= i < tokens.len(),
    ensures
        ({
            let first = if colons_at(tokens, i) {
                i + 2
            } else {
                i
            };
            &&& first >= tokens.len() ==> arguments(tokens, grammar) == Err::<
                ArgumentsView,
                AttrFault,
            >(
                AttrFault {
                    part: AttrPart::At(first as usize),
                    problem: Problem::MissingArgument,
                },
            )
            &&& first < tokens.len() && !(tokens[first] is Ident) && literal_at(tokens, first)
                ==> arguments(tokens, grammar) == Err::<ArgumentsView, AttrFault>(
                AttrFault {
                    part: AttrPart::At(first as usize),
                    problem: Problem::LiteralArgument,
                },
            )
            &&& first < tokens.len() && !(tokens[first] is Ident) && !literal_at(tokens, first)
                ==> arguments(tokens, grammar) == Err::<ArgumentsView, AttrFault>(
                AttrFault {
                    part: AttrPart::At(first as usize),
                    problem: Problem::UnexpectedToken,
                },
            )
        }),
{
    lemma_leads_to(tokens, args, i, grammar);
    assert(colons_at(tokens, i) == is_separator(tokens, i));
}

/// Whether at `first` begins a path of an identifier and `more` further ones, each
/// behind `::`.
pub open spec fn path_of(tokens: Seq<TokenView>, first: int, more: nat) -> bool {
    &&& 0 <= first < tokens.len()
    &&& tokens[first] is Ident
    &&& forall|k: int|
        0 <= k < more ==> #[trigger] colons_at(tokens, first + 1 + 3 * k) && first + 3 + 3 * k
            < tokens.len() && tokens[first + 3 + 3 * k] is Ident
}

/// The end of a path, piece by piece.
proof fn lemma_path_of(tokens: Seq<TokenView>, first: int, more: nat, done: nat)
    requires
        path_of(tokens, first, more),
        done <= more,
    ensures
        path_end(tokens, first + 1 + 3 * done) == path_end(tokens, first + 1 + 3 * more),
    decreases more - done,
{
    if done < more {
        assert(colons_at(tokens, first + 1 + 3 * done));
        lemma_path_of(tokens, first, more, done + 1);
        assert(first + 1 + 3 * (done + 1) == first + 1 + 3 * done + 3);
    }
}

/// A path with `::` is no argument: one that is whole is refused as such, from its
/// first identifier to its last, and one in which an identifier is missing is
/// refused where that should stand.
pub proof fn law_path_is_no_argument(
    tokens: Seq<TokenView>,
    args: Seq<Argument>,
    i: int,
    more: nat,
    grammar: Grammar,
)
    requires
        leads_to(tokens, args, i),
        allowed(args, grammar),
        0 <= i < tokens.len(),
        path_of(
            tokens,
            if colons_at(tokens, i) {
                i + 2
            } else {
                i
            },
            more,
        ),
    ensures
        ({
            let first = if colons_at(tokens, i) {
                i + 2
            } else {
                i
            };
            let end = first + 1 + 3 * more;
            &&& !colons_at(tokens, end) && (colons_at(tokens, i) || more > 0) ==> arguments(
                tokens,
                grammar,
            ) == Err::<ArgumentsView, AttrFault>(
                AttrFault {
                    part: AttrPart::Span(first as usize, (end - 1) as usize),
                    problem: if grammar == Grammar::Name {
                        Problem::ExpectedName
                    } else {
                        Problem::ExpectedKindOrName
                    },
                },
            )
            &&& colons_at(tokens, end) && !(end + 2 < tokens.len() && tokens[end + 2] is Ident)
                ==> arguments(tokens, grammar) == Err::<ArgumentsView, AttrFault>(
                AttrFault {
                    part: AttrPart::At((end + 2) as usize),
                    problem: Problem::ExpectedIdent { at_end: end + 2 >= tokens.len() },
                },
            )
        }),
{
    lemma_leads_to(tokens, args, i, grammar);
    let first = if colons_at(tokens, i) {
        i + 2
    } else {
        i
    };
    let end = first + 1 + 3 * more;
    assert(colons_at(tokens, i) == is_separator(tokens, i));
    assert(colons_at(tokens, end) == is_separator(tokens, end));
    lemma_path_of(tokens, first, more, 0);
    assert(is_ident(tokens, first));
    if !colons_at(tokens, end) {
        assert(path_end(tokens, first + 1) == Ok::<int, AttrFault>(end));
    }
}

/// An identifier that the attribute does not take as an argument is refused, and so
/// is a kind that was given before, or a second name.
pub proof fn law_refused_identifiers(
    tokens: Seq<TokenView>,
    args: Seq<Argument>,
    i: int,
    text: Seq<char>,
    grammar: Grammar,
)
    requires
        leads_to(tokens, args, i),
        allowed(args, grammar),
        word_at(tokens, i, text),
        !colons_at(tokens, i + 1),
    ensures
        ({
            let names_kind = text == "liveness"@ || text == "readiness"@ || text == "startup"@;
            let given = text == "liveness"@ && kinds_in(args).contains(Kind::Liveness) || text
                == "readiness"@ && kinds_in(args).contains(Kind::Readiness) || text == "startup"@
                && kinds_in(args).contains(Kind::Startup);
            let part = AttrPart::Span(i as usize, i as usize);
            &&& grammar == Grammar::Name && text != "name"@ ==> arguments(tokens, grammar) == Err::<
                ArgumentsView,
                AttrFault,
            >(AttrFault { part, problem: Problem::ExpectedName })
            &&& grammar == Grammar::KindsAndName && text != "name"@ && !names_kind ==> arguments(
                tokens,
                grammar,
            ) == Err::<ArgumentsView, AttrFault>(
                AttrFault { part, problem: Problem::ExpectedKindOrName },
            )
            &&& grammar == Grammar::KindsAndName && given ==> arguments(tokens, grammar) == Err::<
                ArgumentsView,
                AttrFault,
            >(AttrFault { part, problem: Problem::DuplicateKind })
            &&& text == "name"@ && names_in(args).len() > 0 ==> arguments(tokens, grammar) == Err::<
                ArgumentsView,
                AttrFault,
            >(AttrFault { part, problem: Problem::DuplicateName })
        }),
{
    lemma_idents();
    lemma_leads_to(tokens, args, i, grammar);
    assert(!is_separator(tokens, i + 1));
    assert(is_ident(tokens, i));
    assert(path_end(tokens, i + 1) == Ok::<int, AttrFault>(i + 1));
    assert(kind_ident(Kind::Liveness) == "liveness"@);
    assert(kind_ident(Kind::Readiness) == "readiness"@);
    assert(kind_ident(Kind::Startup) == "startup"@);
}

/// A first `name` must be followed by `=` and a string literal that is not empty.
/// Otherwise what stands there instead is refused.
pub proof fn law_name_needs_a_value(
    tokens: Seq<TokenView>,
    args: Seq<Argument>,
    i: int,
    grammar: Grammar,
)
    requires
        leads_to(tokens, args, i),
        allowed(args, grammar),
        word_at(tokens, i, "name"@),
        !colons_at(tokens, i + 1),
        names_in(args).len() == 0,
    ensures
        !mark_at(tokens, i + 1, '=') ==> arguments(tokens, grammar) == Err::<
            ArgumentsView,
            AttrFault,
        >(
            AttrFault {
                part: AttrPart::At((i + 1) as usize),
                problem: Problem::ExpectedEquals,
            },
        ),
        mark_at(tokens, i + 1, '=') && !(i + 2 < tokens.len() && tokens[i + 2] is Text)
            ==> arguments(tokens, grammar) == Err::<ArgumentsView, AttrFault>(
            AttrFault {
                part: AttrPart::At((i + 2) as usize),
                problem: Problem::ExpectedString { at_end: i + 2 >= tokens.len() },
            },
        ),
        mark_at(tokens, i + 1, '=') && i + 2 < tokens.len() && tokens[i + 2] is Text
            && tokens[i + 2]->Text_0.len() == 0 ==> arguments(tokens, grammar) == Err::<
            ArgumentsView,
            AttrFault,
        >(AttrFault { part: AttrPart::At((i + 2) as usize), problem: Problem::EmptyName }),
{
    lemma_idents();
    lemma_leads_to(tokens, args, i, grammar);
    assert(!is_separator(tokens, i + 1));
    assert(is_ident(tokens, i));
    assert(path_end(tokens, i + 1) == Ok::<int, AttrFault>(i + 1));
    assert(kind_named("name"@) is None);
    let path = path_at(tokens, i)->Ok_0;
    assert(path.end == i + 1);
    assert(path.ident == Some("name"@));
}

/// Behind an argument that the attribute takes stands a comma or nothing.
pub proof fn law_arguments_are_separated(
    tokens: Seq<TokenView>,
    args: Seq<Argument>,
    i: int,
    arg: Argument,
    grammar: Grammar,
)
    requires
        leads_to(tokens, args, i),
        spells_argument(tokens, i, arg),
        allowed(args.push(arg), grammar),
        !colons_at(tokens, i + 1),
        i + arg.width() < tokens.len(),
        !mark_at(tokens, i + arg.width(), ','),
    ensures
        arguments(tokens, grammar) == Err::<ArgumentsView, AttrFault>(
            AttrFault {
                part: AttrPart::At((i + arg.width()) as usize),
                problem: Problem::ExpectedComma,
            },
        ),
{
    let all = args.push(arg);
    assert(all.drop_last() =~= args);
    lemma_last(all);
    let kinds = kinds_in(all);
    assert forall|m: int, n: int|
        0 <= m < kinds_in(args).len() && 0 <= n < kinds_in(args).len() && m != n implies kinds_in(
        args,
    )[m] != kinds_in(args)[n] by {
        assert(kinds[m] == kinds_in(args)[m]);
        assert(kinds[n] == kinds_in(args)[n]);
    }
    if names_in(args).len() == 1 {
        assert(names_in(all)[0] == names_in(args)[0]);
    }
    lemma_leads_to(tokens, args, i, grammar);
    if names_in(seq![arg]).len() == 1 {
        assert(names_in(all)[names_in(args).len() as int] == names_in(seq![arg])[0]);
    }
    lemma_one(tokens, i, arg, meaning(args), grammar);
}

/// Whether an attribute is named as a check attribute.
pub open spec fn has_check_name(attr: AttrView) -> bool {
    attr.ident == Some("liveness"@) || attr.ident == Some("readiness"@) || attr.ident == Some(
        "startup"@,
    ) || attr.ident == Some("health"@)
}

/// Check attributes are told by their names.
pub(crate) proof fn lemma_check_names(attr: AttrView)
    ensures
        attr_named(attr.ident) is Some <==> has_check_name(attr),
        attr.ident == Some("liveness"@) ==> attr_named(attr.ident) == Some(
            CheckAttrName::Single(Kind::Liveness),
        ),
        attr.ident == Some("readiness"@) ==> attr_named(attr.ident) == Some(
            CheckAttrName::Single(Kind::Readiness),
        ),
        attr.ident == Some("startup"@) ==> attr_named(attr.ident) == Some(
            CheckAttrName::Single(Kind::Startup),
        ),
        attr.ident == Some("health"@) ==> attr_named(attr.ident) == Some(CheckAttrName::Health),
{
    lemma_idents();
    assert(kind_ident(Kind::Liveness) == "liveness"@);
    assert(kind_ident(Kind::Readiness) == "readiness"@);
    assert(kind_ident(Kind::Startup) == "startup"@);
}

/// An attribute that is no check attribute asks for nothing, whatever follows its
/// name.
pub proof fn law_other_attributes_ask_for_nothing(attr: AttrView)
    requires
        attr.ident != Some("liveness"@),
        attr.ident != Some("readiness"@),
        attr.ident != Some("startup"@),
        attr.ident != Some("health"@),
    ensures
        attr_checks(attr) == Ok::<Seq<CheckAttrView>, AttrFault>(Seq::empty()),
{
    lemma_check_names(attr);
}

/// A check attribute with a value is refused at its `=`, and `#[health]` without
/// arguments at its path. The message gives the attribute by its own name.
pub proof fn law_shape_of_check_attributes(attr: AttrView, kind: Kind)
    ensures
        attr.ident == Some("health"@) && attr.shape is Word ==> attr_checks(attr) == Err::<
            Seq<CheckAttrView>,
            AttrFault,
        >(
            AttrFault {
                part: AttrPart::Path,
                problem: Problem::MissingArguments {
                    name: CheckAttrName::Health,
                    inner: attr.inner,
                },
            },
        ),
        attr.ident == Some("health"@) && attr.shape is Assigned ==> attr_checks(attr) == Err::<
            Seq<CheckAttrView>,
            AttrFault,
        >(
            AttrFault {
                part: AttrPart::Equals,
                problem: Problem::ExpectedParentheses {
                    name: CheckAttrName::Health,
                    inner: attr.inner,
                },
            },
        ),
        attr.ident == Some(
            match kind {
                Kind::Liveness => "liveness"@,
                Kind::Readiness => "readiness"@,
                Kind::Startup => "startup"@,
            },
        ) && attr.shape is Assigned ==> attr_checks(attr) == Err::<Seq<CheckAttrView>, AttrFault>(
            AttrFault {
                part: AttrPart::Equals,
                problem: Problem::ExpectedParentheses {
                    name: CheckAttrName::Single(kind),
                    inner: attr.inner,
                },
            },
        ),
{
    lemma_check_names(attr);
}

/// A fault in the arguments of a check attribute is a fault of the attribute, and
/// `#[health(...)]` is refused as a whole if its arguments name no kind. The
/// attribute of a single kind takes a name only, and `#[health(...)]` the kinds as
/// well.
pub proof fn law_faults_of_arguments(attr: AttrView)
    requires
        attr.shape is List,
    ensures
        ({
            let tokens = attr.shape->List_0;
            let single = attr.ident == Some("liveness"@) || attr.ident == Some("readiness"@)
                || attr.ident == Some("startup"@);
            let named = arguments(tokens, Grammar::Name);
            let kinds = arguments(tokens, Grammar::KindsAndName);
            &&& single ==> (attr_checks(attr) is Err <==> named is Err)
            &&& single && named is Err ==> attr_checks(attr)->Err_0 == named->Err_0
            &&& attr.ident == Some("health"@) && kinds is Err ==> attr_checks(attr) == Err::<
                Seq<CheckAttrView>,
                AttrFault,
            >(kinds->Err_0)
            &&& attr.ident == Some("health"@) && kinds is Ok && kinds->Ok_0.kinds.len() == 0
                ==> attr_checks(attr) == Err::<Seq<CheckAttrView>, AttrFault>(
                AttrFault { part: AttrPart::Whole, problem: Problem::NoKind },
            )
            &&& attr.ident == Some("health"@) && kinds is Ok && kinds->Ok_0.kinds.len() > 0
                ==> attr_checks(attr) is Ok
        }),
{
    lemma_check_names(attr);
}

} // verus!
