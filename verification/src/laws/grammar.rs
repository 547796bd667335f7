//! Which arguments the check attributes take, and what they mean.
use crate::arguments::{
    arguments, arguments_from, attr_checks, attr_named, kind_named, lemma_argument_end, path_at,
    with_argument, ArgumentsView, CheckAttrView, Grammar,
};
use crate::diagnostic::{kind_ident, AttrFault, CheckAttrName};
use crate::kind::Kind;
use crate::syntax::{AttrView, ShapeView, TokenView};
use vstd::prelude::*;

verus! {

/// An argument: a kind, or `name = "..."`.
pub enum Argument {
    Kind(Kind),
    Name(Seq<char>),
}

impl Argument {
    /// How many tokens the argument has.
    pub open spec fn width(self) -> int {
        match self {
            Argument::Kind(_) => 1,
            Argument::Name(_) => 3,
        }
    }
}

/// Whether the punctuation `ch` stands at `i`.
pub open spec fn mark_at(tokens: Seq<TokenView>, i: int, ch: char) -> bool {
    0 <= i < tokens.len() && tokens[i] is Punct && tokens[i]->ch == ch
}

/// Whether the identifier `text` stands at `i`.
pub open spec fn word_at(tokens: Seq<TokenView>, i: int, text: Seq<char>) -> bool {
    0 <= i < tokens.len() && tokens[i] == TokenView::Ident(text)
}

/// Whether the tokens from `i` on begin with the argument.
pub open spec fn spells_argument(tokens: Seq<TokenView>, i: int, argument: Argument) -> bool {
    match argument {
        Argument::Kind(Kind::Liveness) => word_at(tokens, i, "liveness"@),
        Argument::Kind(Kind::Readiness) => word_at(tokens, i, "readiness"@),
        Argument::Kind(Kind::Startup) => word_at(tokens, i, "startup"@),
        Argument::Name(name) => {
            &&& word_at(tokens, i, "name"@)
            &&& mark_at(tokens, i + 1, '=')
            &&& i + 2 < tokens.len() && tokens[i + 2] == TokenView::Text(name)
        },
    }
}

/// Whether the tokens from `i` on are the arguments, separated by commas, with or
/// without a comma at the end.
pub open spec fn spells_from(tokens: Seq<TokenView>, i: int, args: Seq<Argument>) -> bool
    decreases args.len(),
{
    &&& args.len() > 0
    &&& spells_argument(tokens, i, args[0])
    &&& {
        let end = i + args[0].width();
        if args.len() == 1 {
            end == tokens.len() || (mark_at(tokens, end, ',') && end + 1 == tokens.len())
        } else {
            mark_at(tokens, end, ',') && spells_from(tokens, end + 1, args.drop_first())
        }
    }
}

/// Whether the tokens are the arguments, separated by commas, with or without a
/// comma at the end.
pub open spec fn spells(tokens: Seq<TokenView>, args: Seq<Argument>) -> bool {
    if args.len() == 0 {
        tokens.len() == 0
    } else {
        spells_from(tokens, 0, args)
    }
}

/// The kinds among the arguments, in their order.
pub open spec fn kinds_in(args: Seq<Argument>) -> Seq<Kind>
    decreases args.len(),
{
    if args.len() == 0 {
        Seq::empty()
    } else {
        (match args[0] {
            Argument::Kind(kind) => seq![kind],
            Argument::Name(_) => Seq::empty(),
        }) + kinds_in(args.drop_first())
    }
}

/// The names among the arguments, in their order.
pub open spec fn names_in(args: Seq<Argument>) -> Seq<Seq<char>>
    decreases args.len(),
{
    if args.len() == 0 {
        Seq::empty()
    } else {
        (match args[0] {
            Argument::Kind(_) => Seq::empty(),
            Argument::Name(name) => seq![name],
        }) + names_in(args.drop_first())
    }
}

/// Whether an attribute takes the arguments: no kind twice, and none at all for
/// an attribute of a single kind, and at most one name, which is not empty.
pub open spec fn allowed(args: Seq<Argument>, grammar: Grammar) -> bool {
    &&& kinds_in(args).no_duplicates()
    &&& grammar == Grammar::Name ==> kinds_in(args).len() == 0
    &&& names_in(args).len() <= 1
    &&& names_in(args).len() == 1 ==> names_in(args)[0].len() > 0
}

/// What the arguments say.
pub open spec fn meaning(args: Seq<Argument>) -> ArgumentsView {
    ArgumentsView {
        kinds: kinds_in(args),
        name: if names_in(args).len() == 0 {
            None
        } else {
            Some(names_in(args)[0])
        },
    }
}

/// What the arguments say after those that were read before.
pub open spec fn meaning_after(read: ArgumentsView, args: Seq<Argument>) -> ArgumentsView {
    ArgumentsView {
        kinds: read.kinds + kinds_in(args),
        name: if names_in(args).len() == 0 {
            read.name
        } else {
            Some(names_in(args)[0])
        },
    }
}

/// Whether an attribute takes the arguments after those that were read before.
pub open spec fn allowed_after(read: ArgumentsView, args: Seq<Argument>, grammar: Grammar) -> bool {
    &&& (read.kinds + kinds_in(args)).no_duplicates()
    &&& grammar == Grammar::Name ==> kinds_in(args).len() == 0
    &&& names_in(args).len() <= (if read.name is Some {
        0int
    } else {
        1
    })
    &&& names_in(args).len() == 1 ==> names_in(args)[0].len() > 0
}

/// The identifiers of the arguments are different.
pub(crate) proof fn lemma_idents()
    ensures
        kind_ident(Kind::Liveness) != kind_ident(Kind::Readiness),
        kind_ident(Kind::Liveness) != kind_ident(Kind::Startup),
        kind_ident(Kind::Readiness) != kind_ident(Kind::Startup),
        forall|kind: Kind| #[trigger] kind_named(kind_ident(kind)) == Some(kind),
        forall|kind: Kind| #[trigger] kind_ident(kind) != "health"@,
        kind_named("name"@) is None,
{
    reveal_strlit("liveness");
    reveal_strlit("readiness");
    reveal_strlit("startup");
    reveal_strlit("name");
    reveal_strlit("health");
    assert("liveness"@[0] == 'l');
    assert("readiness"@[0] == 'r');
    assert("startup"@[0] == 's');
    assert("name"@[0] == 'n');
    assert("health"@[0] == 'h');
}

/// Reading the first of the arguments.
proof fn lemma_first_argument(
    tokens: Seq<TokenView>,
    i: int,
    args: Seq<Argument>,
    read: ArgumentsView,
    grammar: Grammar,
)
    requires
        0 <= i <= tokens.len(),
        spells_from(tokens, i, args),
        allowed_after(read, args, grammar),
    ensures
        path_at(tokens, i) is Ok,
        with_argument(tokens, path_at(tokens, i)->Ok_0, read, grammar) == Ok::<
            (ArgumentsView, int),
            AttrFault,
        >((meaning_after(read, seq![args[0]]), i + args[0].width())),
        allowed_after(meaning_after(read, seq![args[0]]), args.drop_first(), grammar),
        meaning_after(meaning_after(read, seq![args[0]]), args.drop_first()) == meaning_after(
            read,
            args,
        ),
{
    lemma_idents();
    let one = seq![args[0]];
    assert(one.drop_first() =~= Seq::<Argument>::empty());
    assert(kinds_in(one.drop_first()) =~= Seq::<Kind>::empty());
    assert(names_in(one.drop_first()) =~= Seq::<Seq<char>>::empty());
    let rest = args.drop_first();
    assert(kinds_in(args) =~= kinds_in(one) + kinds_in(rest));
    assert(names_in(args) =~= names_in(one) + names_in(rest));
    let next = meaning_after(read, one);
    assert(next.kinds + kinds_in(rest) =~= read.kinds + kinds_in(args));
    match args[0] {
        Argument::Kind(kind) => {
            assert(kinds_in(one) =~= seq![kind]);
            assert(names_in(one) =~= Seq::<Seq<char>>::empty());
            assert(names_in(args) =~= names_in(rest));
            let all = read.kinds + kinds_in(args);
            assert(all[read.kinds.len() as int] == kind);
            if read.kinds.contains(kind) {
                let j = choose|j: int| 0 <= j < read.kinds.len() && read.kinds[j] == kind;
                assert(all[j] == kind);
                assert(false);
            }
            assert(next.kinds =~= read.kinds.push(kind));
            assert(grammar == Grammar::KindsAndName);
        },
        Argument::Name(name) => {
            assert(kinds_in(one) =~= Seq::<Kind>::empty());
            assert(names_in(one) =~= seq![name]);
            assert(names_in(args)[0] == name);
            assert(names_in(rest).len() == 0);
            assert(next.kinds =~= read.kinds);
        },
    }
}

/// Reading arguments after others.
proof fn lemma_arguments_complete(
    tokens: Seq<TokenView>,
    i: int,
    args: Seq<Argument>,
    read: ArgumentsView,
    grammar: Grammar,
)
    requires
        0 <= i <= tokens.len(),
        spells_from(tokens, i, args),
        allowed_after(read, args, grammar),
    ensures
        arguments_from(tokens, i, read, grammar) == Ok::<ArgumentsView, AttrFault>(
            meaning_after(read, args),
        ),
    decreases args.len(),
{
    lemma_first_argument(tokens, i, args, read, grammar);
    let next = meaning_after(read, seq![args[0]]);
    let rest = args.drop_first();
    if args.len() == 1 {
        assert(kinds_in(rest) =~= Seq::<Kind>::empty());
        assert(names_in(rest) =~= Seq::<Seq<char>>::empty());
        assert(meaning_after(next, rest) =~= next);
    } else {
        lemma_arguments_complete(tokens, i + args[0].width() + 1, rest, next, grammar);
    }
}

/// Arguments that an attribute takes are read, and as what they say.
pub proof fn law_allowed_arguments_are_read(
    tokens: Seq<TokenView>,
    args: Seq<Argument>,
    grammar: Grammar,
)
    requires
        spells(tokens, args),
        allowed(args, grammar),
    ensures
        arguments(tokens, grammar) == Ok::<ArgumentsView, AttrFault>(meaning(args)),
{
    let none = ArgumentsView::empty();
    assert(none.kinds + kinds_in(args) =~= kinds_in(args));
    if args.len() > 0 {
        assert(tokens.len() > 0);
        lemma_arguments_complete(tokens, 0, args, none, grammar);
    }
    assert(meaning_after(none, args) =~= meaning(args));
    assert(meaning(Seq::<Argument>::empty()) =~= none);
}

/// Arguments that were read after others were ones that the attribute takes.
proof fn lemma_arguments_sound(
    tokens: Seq<TokenView>,
    i: int,
    read: ArgumentsView,
    grammar: Grammar,
) -> (args: Seq<Argument>)
    requires
        0 <= i < tokens.len(),
        arguments_from(tokens, i, read, grammar) is Ok,
        read.kinds.no_duplicates(),
    ensures
        spells_from(tokens, i, args),
        allowed_after(read, args, grammar),
    decreases tokens.len() - i,
{
    lemma_idents();
    lemma_argument_end(tokens, i, read, grammar);
    let path = path_at(tokens, i)->Ok_0;
    let (next, end) = with_argument(tokens, path, read, grammar)->Ok_0;
    let ident = path.ident->0;
    let kind = if grammar == Grammar::KindsAndName {
        kind_named(ident)
    } else {
        None
    };
    let first = match kind {
        Some(kind) => Argument::Kind(kind),
        None => Argument::Name(next.name->0),
    };
    assert(spells_argument(tokens, i, first));
    assert(end == i + first.width());
    let one = seq![first];
    assert(one.drop_first() =~= Seq::<Argument>::empty());
    assert(kinds_in(one.drop_first()) =~= Seq::<Kind>::empty());
    assert(names_in(one.drop_first()) =~= Seq::<Seq<char>>::empty());
    assert(kinds_in(one) =~= match kind {
        Some(kind) => seq![kind],
        None => Seq::empty(),
    });
    assert(names_in(one) =~= match kind {
        Some(_) => Seq::empty(),
        None => seq![next.name->0],
    });
    assert(next.kinds =~= read.kinds + kinds_in(one));
    if end >= tokens.len() || end + 1 >= tokens.len() {
        assert(spells_from(tokens, i, one));
        one
    } else {
        let rest = lemma_arguments_sound(tokens, end + 1, next, grammar);
        let args = one + rest;
        assert(args.drop_first() =~= rest);
        assert(kinds_in(args) =~= kinds_in(one) + kinds_in(rest));
        assert(names_in(args) =~= names_in(one) + names_in(rest));
        assert(read.kinds + kinds_in(args) =~= next.kinds + kinds_in(rest));
        assert(rest.len() > 0);
        args
    }
}

/// Arguments that are read are ones that the attribute takes.
pub proof fn law_read_arguments_are_allowed(tokens: Seq<TokenView>, grammar: Grammar)
    requires
        arguments(tokens, grammar) is Ok,
    ensures
        exists|args: Seq<Argument>| #[trigger]
            spells(tokens, args) && allowed(args, grammar) && arguments(tokens, grammar) == Ok::<
                ArgumentsView,
                AttrFault,
            >(meaning(args)),
{
    let none = ArgumentsView::empty();
    let args = if tokens.len() == 0 {
        Seq::<Argument>::empty()
    } else {
        lemma_arguments_sound(tokens, 0, none, grammar)
    };
    assert(none.kinds + kinds_in(args) =~= kinds_in(args));
    assert(spells(tokens, args));
    assert(allowed(args, grammar));
    law_allowed_arguments_are_read(tokens, args, grammar);
}

/// An attribute that is read asks for checks exactly if it is a check attribute,
/// and then for at least one. The kinds of its checks are different, and a name
/// that it gives is not empty.
pub proof fn law_attribute_checks(attr: AttrView)
    requires
        attr_checks(attr) is Ok,
    ensures
        attr_checks(attr)->Ok_0.len() > 0 <==> attr.ident == Some("liveness"@) || attr.ident
            == Some("readiness"@) || attr.ident == Some("startup"@) || attr.ident == Some(
            "health"@,
        ),
        forall|i: int, j: int|
            0 <= i < j < attr_checks(attr)->Ok_0.len() ==> (#[trigger] attr_checks(
                attr,
            )->Ok_0[i]).kind != (#[trigger] attr_checks(attr)->Ok_0[j]).kind,
        forall|i: int|
            0 <= i < attr_checks(attr)->Ok_0.len() && (#[trigger] attr_checks(
                attr,
            )->Ok_0[i]).name is Some ==> attr_checks(attr)->Ok_0[i].name->0.len() > 0,
{
    if attr_named(attr.ident) is Some && attr.shape is List {
        let tokens = attr.shape->List_0;
        let grammar = if attr_named(attr.ident) == Some(CheckAttrName::Health) {
            Grammar::KindsAndName
        } else {
            Grammar::Name
        };
        law_read_arguments_are_allowed(tokens, grammar);
        let args = choose|args: Seq<Argument>| #[trigger]
            spells(tokens, args) && allowed(args, grammar) && arguments(tokens, grammar) == Ok::<
                ArgumentsView,
                AttrFault,
            >(meaning(args));
        let read = meaning(args);
        assert(read.kinds.no_duplicates());
        assert(read.name is Some ==> read.name->0.len() > 0);
    }
}

/// `#[health(...)]` with allowed arguments asks for one check of each kind that
/// it names, in their order, all under the name that it gives.
pub proof fn law_health_attribute(attr: AttrView, args: Seq<Argument>)
    requires
        attr.ident == Some("health"@),
        attr.shape is List,
        spells(attr.shape->List_0, args),
        allowed(args, Grammar::KindsAndName),
        kinds_in(args).len() > 0,
    ensures
        attr_checks(attr) == Ok::<Seq<CheckAttrView>, AttrFault>(
            Seq::new(
                kinds_in(args).len(),
                |i: int| CheckAttrView { kind: kinds_in(args)[i], name: meaning(args).name },
            ),
        ),
{
    lemma_idents();
    assert(attr_named(attr.ident) == Some(CheckAttrName::Health));
    law_allowed_arguments_are_read(attr.shape->List_0, args, Grammar::KindsAndName);
    assert(attr_checks(attr)->Ok_0 =~= Seq::new(
        kinds_in(args).len(),
        |i: int| CheckAttrView { kind: kinds_in(args)[i], name: meaning(args).name },
    ));
}

/// The attribute of a single kind asks for one check of that kind: without
/// arguments under no name of its own, with a name under that name.
pub proof fn law_single_kind_attribute(attr: AttrView, kind: Kind, args: Seq<Argument>)
    requires
        attr.ident == Some(
            match kind {
                Kind::Liveness => "liveness"@,
                Kind::Readiness => "readiness"@,
                Kind::Startup => "startup"@,
            },
        ),
        match attr.shape {
            ShapeView::Word => args.len() == 0,
            ShapeView::List(tokens) => spells(tokens, args) && allowed(args, Grammar::Name),
            ShapeView::Assigned => false,
        },
    ensures
        attr_checks(attr) == Ok::<Seq<CheckAttrView>, AttrFault>(
            seq![CheckAttrView { kind, name: meaning(args).name }],
        ),
{
    lemma_idents();
    assert(attr_named(attr.ident) == Some(CheckAttrName::Single(kind)));
    if attr.shape is List {
        law_allowed_arguments_are_read(attr.shape->List_0, args, Grammar::Name);
    }
}

} // verus!
