//! What is said of each problem.
use crate::arguments::validate_name;
use crate::diagnostic::{AttrFault, AttrPart, CheckAttrName, Problem};
use crate::kind::Kind;
use vstd::prelude::*;

verus! {

/// The check attributes have the names under which they are documented.
pub proof fn law_names_of_check_attributes(name: CheckAttrName, ident: &'static str)
    requires
        call_ensures(CheckAttrName::as_str, (name,), ident),
    ensures
        name == CheckAttrName::Health ==> ident@ == "health"@,
        name == CheckAttrName::Single(Kind::Liveness) ==> ident@ == "liveness"@,
        name == CheckAttrName::Single(Kind::Readiness) ==> ident@ == "readiness"@,
        name == CheckAttrName::Single(Kind::Startup) ==> ident@ == "startup"@,
{
}

/// Each problem with a block or a method has its own message.
pub proof fn law_messages_on_methods(problem: Problem, message: String)
    requires
        call_ensures(Problem::message, (problem,), message),
    ensures
        problem is TraitImpl ==> message@
            == "#[health_check] must be used on an inherent impl block"@,
        problem is NoChecks ==> message@
            == "#[health_check] requires at least one annotated health check method"@,
        problem is NotAsync ==> message@ == "health check methods must be async"@,
        problem is GenericMethod ==> message@
            == "health check methods must not have generic parameters"@,
        problem is NotSharedSelf ==> message@
            == "health check methods must take &self as the first parameter"@,
        problem is NoSelf ==> message@ == "health check methods must take &self"@,
        problem is ExtraArgument ==> message@
            == "health check methods must not take arguments other than &self"@,
        problem is WrongReturn ==> message@
            == "health check methods must return axum_health::Result<axum_health::Check>"@,
{
}

/// Each problem with the arguments of an attribute has its own message.
pub proof fn law_messages_on_arguments(problem: Problem, message: String)
    requires
        call_ensures(Problem::message, (problem,), message),
    ensures
        problem is DuplicateKind ==> message@ == "duplicate health check kind"@,
        problem is DuplicateName ==> message@ == "duplicate `name` argument"@,
        problem is EmptyName ==> message@ == "health check names must not be empty"@,
        problem is NoKind ==> message@
            == "#[health(...)] requires at least one of `liveness`, `readiness`, or `startup`"@,
        problem is ExpectedName ==> message@ == "expected `name = \"...\"`"@,
        problem is ExpectedKindOrName ==> message@
            == "expected `liveness`, `readiness`, `startup`, or `name = \"...\"`"@,
        problem is ExpectedComma ==> message@ == "expected `,`"@,
        problem is ExpectedEquals ==> message@ == "expected `=`"@,
        problem is MissingArgument ==> message@
            == "unexpected end of input, expected nested attribute"@,
        problem is LiteralArgument ==> message@
            == "unexpected literal in nested attribute, expected ident"@,
        problem is UnexpectedToken ==> message@
            == "unexpected token in nested attribute, expected ident"@,
        problem == (Problem::ExpectedString { at_end: false }) ==> message@
            == "expected string literal"@,
        problem == (Problem::ExpectedString { at_end: true }) ==> message@
            == "unexpected end of input, expected string literal"@,
        problem == (Problem::ExpectedIdent { at_end: false }) ==> message@ == "expected ident"@,
        problem == (Problem::ExpectedIdent { at_end: true }) ==> message@
            == "unexpected end of input, expected ident"@,
{
    reveal_strlit("");
    reveal_strlit("unexpected end of input, ");
    reveal_strlit("expected string literal");
    reveal_strlit("expected ident");
    reveal_strlit("unexpected end of input, expected string literal");
    reveal_strlit("unexpected end of input, expected ident");
    assert(""@ + "expected string literal"@ =~= "expected string literal"@);
    assert(""@ + "expected ident"@ =~= "expected ident"@);
    assert("unexpected end of input, "@ + "expected string literal"@
        =~= "unexpected end of input, expected string literal"@);
    assert("unexpected end of input, "@ + "expected ident"@
        =~= "unexpected end of input, expected ident"@);
}

/// What the message on an attribute without parentheses says: the attribute as it
/// should be written, by its own name, with a `!` if it is an inner one.
pub proof fn law_messages_on_shapes(
    name: CheckAttrName,
    inner: bool,
    ident: &'static str,
    missing: String,
    assigned: String,
)
    requires
        call_ensures(CheckAttrName::as_str, (name,), ident),
        call_ensures(Problem::message, (Problem::MissingArguments { name, inner },), missing),
        call_ensures(Problem::message, (Problem::ExpectedParentheses { name, inner },), assigned),
    ensures
        ({
            let form = (if inner {
                "#!["@
            } else {
                "#["@
            }) + ident@ + "(...)]"@;
            &&& missing@ == "expected attribute arguments in parentheses: "@ + form
            &&& assigned@ == "expected parentheses: "@ + form
        }),
{
}

/// A name in an attribute is kept as it is, and an empty one is refused where it
/// stands.
pub proof fn law_validated_names(value: &str, place: usize, name: Result<String, AttrFault>)
    requires
        call_ensures(validate_name, (value, place), name),
    ensures
        value@.len() > 0 ==> name is Ok && name->Ok_0@ == value@,
        value@.len() == 0 ==> name == Err::<String, AttrFault>(
            AttrFault { part: AttrPart::At(place), problem: Problem::EmptyName },
        ),
{
}

} // verus!
