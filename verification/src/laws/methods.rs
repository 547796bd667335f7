//! Which methods can be health checks, told by their signatures.
use crate::diagnostic::{MethodFault, MethodPart, Problem};
use crate::expand::{is_check_attr, is_check_type, is_health_check_result, validate_method};
use crate::laws::faults::lemma_check_names;
use crate::syntax::{Attr, GenericArgument, Input, Method, PathArguments, Ty};
use vstd::prelude::*;

verus! {

/// A check attribute is one of the four that are documented, by its whole path.
pub proof fn law_check_attributes(attr: Attr, is: bool)
    requires
        call_ensures(is_check_attr, (&attr,), is),
    ensures
        is <==> attr.ident is Some && (attr.ident->0@ == "liveness"@ || attr.ident->0@
            == "readiness"@ || attr.ident->0@ == "startup"@ || attr.ident->0@ == "health"@),
{
    lemma_check_names(attr@);
}

/// A type is taken for a check exactly if it is a path of which the last segment is
/// `Check`.
pub proof fn law_check_types(ty: Ty, is: bool)
    requires
        call_ensures(is_check_type, (&ty,), is),
    ensures
        is <==> match ty {
            Ty::Path(segments) => segments.len() > 0 && segments[segments.len() - 1].ident@
                == "Check"@,
            Ty::Other => false,
        },
{
}

/// A return type is taken for the result of a check exactly if it is a path of which
/// the last segment is `Result` with generic arguments, and the first of these is a
/// type that is a path of which the last segment is `Check`.
pub proof fn law_results_of_checks(ty: Ty, is: bool)
    requires
        call_ensures(is_health_check_result, (&ty,), is),
    ensures
        is <==> match ty {
            Ty::Path(segments) => segments.len() > 0 && {
                let last = segments[segments.len() - 1];
                last.ident@ == "Result"@ && match last.arguments {
                    PathArguments::AngleBracketed(arguments) => arguments.len() > 0
                        && match arguments[0] {
                        GenericArgument::Type(Ty::Path(inner)) => inner.len() > 0
                            && inner[inner.len() - 1].ident@ == "Check"@,
                        _ => false,
                    },
                    _ => false,
                }
            },
            Ty::Other => false,
        },
{
}

/// A method is accepted exactly if it is async, has no generic parameters, takes
/// `&self` and nothing else, and returns what is taken for the result of a check.
pub proof fn law_valid_methods(method: Method, result: Result<(), MethodFault>)
    requires
        call_ensures(validate_method, (&method,), result),
    ensures
        result is Ok <==> {
            &&& method.is_async
            &&& !method.has_generics
            &&& method.inputs.len() == 1
            &&& method.inputs[0] == (Input::Receiver { reference: true, mutable: false })
            &&& match method.output {
                Some(Ty::Path(segments)) => segments.len() > 0 && {
                    let last = segments[segments.len() - 1];
                    last.ident@ == "Result"@ && match last.arguments {
                        PathArguments::AngleBracketed(arguments) => arguments.len() > 0
                            && match arguments[0] {
                            GenericArgument::Type(Ty::Path(inner)) => inner.len() > 0
                                && inner[inner.len() - 1].ident@ == "Check"@,
                            _ => false,
                        },
                        _ => false,
                    }
                },
                _ => false,
            }
        },
{
}

/// What is reported of a method that is not accepted, and where: what comes first of
/// that it is not async, has generic parameters, takes no `&self`, takes more, and
/// returns something else.
pub proof fn law_faults_of_methods(
    method: Method,
    result: Result<(), MethodFault>,
    gives_check: bool,
)
    requires
        call_ensures(validate_method, (&method,), result),
        match method.output {
            Some(ty) => call_ensures(is_health_check_result, (&ty,), gives_check),
            None => !gives_check,
        },
    ensures
        !method.is_async ==> result == Err::<(), MethodFault>(
            MethodFault { part: MethodPart::Ident, problem: Problem::NotAsync },
        ),
        method.is_async && method.has_generics ==> result == Err::<(), MethodFault>(
            MethodFault { part: MethodPart::Generics, problem: Problem::GenericMethod },
        ),
        method.is_async && !method.has_generics ==> {
            let inputs = method.inputs;
            let shared_self = Input::Receiver { reference: true, mutable: false };
            &&& inputs.len() == 0 ==> result == Err::<(), MethodFault>(
                MethodFault { part: MethodPart::Ident, problem: Problem::NoSelf },
            )
            &&& inputs.len() > 0 && inputs[0] != shared_self ==> result == Err::<(), MethodFault>(
                MethodFault { part: MethodPart::Input(0), problem: Problem::NotSharedSelf },
            )
            &&& inputs.len() > 1 && inputs[0] == shared_self ==> result == Err::<(), MethodFault>(
                MethodFault { part: MethodPart::Input(1), problem: Problem::ExtraArgument },
            )
            &&& inputs.len() == 1 && inputs[0] == shared_self && !gives_check ==> result == Err::<
                (),
                MethodFault,
            >(MethodFault { part: MethodPart::Output, problem: Problem::WrongReturn })
            &&& inputs.len() == 1 && inputs[0] == shared_self && gives_check ==> result is Ok
        },
{
}

} // verus!
