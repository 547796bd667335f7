//! From an `impl` block with annotated methods to the health checks that it
//! provides.
use crate::arguments::{
    attr_checks, attr_named, check_attr_views, find_kind, parse_health_attr,
    parse_single_kind_attr, CheckAttr, CheckAttrView,
};
use crate::diagnostic::{
    AttrFault, CheckAttrName, Fault, MethodFault, MethodPart, Problem, Site,
};
use crate::kind::Kind;
use crate::syntax::{
    attr_views, same_text, Attr, AttrView, GenericArgument, Head, ImplBlock, ImplItem, Input,
    Method, PathArguments, Ty,
};
use vstd::prelude::*;

verus! {

/// Whether an attribute makes a method a health check.
pub open spec fn is_check(attr: AttrView) -> bool {
    attr_named(attr.ident) is Some
}

/// The check attribute that the attribute is.
fn check_attr_name(attr: &Attr) -> (name: Option<CheckAttrName>)
    ensures
        name == attr_named(attr@.ident),
{
    match &attr.ident {
        None => None,
        Some(ident) => match find_kind(ident) {
            Some(kind) => Some(CheckAttrName::Single(kind)),
            None => if same_text(ident, "health") {
                Some(CheckAttrName::Health)
            } else {
                None
            },
        },
    }
}

/// Tells whether an attribute makes a method a health check.
pub fn is_check_attr(attr: &Attr) -> (is: bool)
    ensures
        is == is_check(attr@),
{
    check_attr_name(attr).is_some()
}

/// The checks that the attributes ask for, in their order, or what is wrong with
/// the first attribute at fault.
pub open spec fn taken(attrs: Seq<AttrView>) -> Result<Seq<CheckAttrView>, MethodFault>
    decreases attrs.len(),
{
    if attrs.len() == 0 {
        Ok(Seq::empty())
    } else {
        match taken(attrs.drop_last()) {
            Err(fault) => Err(fault),
            Ok(checks) => match attr_checks(attrs.last()) {
                Err(fault) => Err(attr_fault(attrs.len() - 1, fault)),
                Ok(more) => Ok(checks + more),
            },
        }
    }
}

/// A fault of the attribute at `index`.
pub open spec fn attr_fault(index: int, fault: AttrFault) -> MethodFault {
    MethodFault { part: MethodPart::Attr(index as usize, fault.part), problem: fault.problem }
}

/// The places of the attributes that are no check attributes.
pub open spec fn others(attrs: Seq<AttrView>) -> Seq<usize>
    decreases attrs.len(),
{
    if attrs.len() == 0 {
        Seq::empty()
    } else if is_check(attrs.last()) {
        others(attrs.drop_last())
    } else {
        others(attrs.drop_last()).push((attrs.len() - 1) as usize)
    }
}

/// The places of the attributes that a method keeps: those that are no check
/// attributes, or none if a check attribute is at fault.
pub open spec fn kept(attrs: Seq<AttrView>) -> Seq<usize> {
    if taken(attrs) is Ok {
        others(attrs)
    } else {
        Seq::empty()
    }
}

/// If an attribute is at fault, so are the attributes of any longer list.
proof fn lemma_taken_prefix(attrs: Seq<AttrView>, n: int)
    requires
        0 <= n <= attrs.len(),
        taken(attrs.take(n)) is Err,
    ensures
        taken(attrs) == taken(attrs.take(n)),
    decreases attrs.len(),
{
    if n < attrs.len() {
        assert(attrs.drop_last().take(n) == attrs.take(n));
        lemma_taken_prefix(attrs.drop_last(), n);
    } else {
        assert(attrs.take(n) == attrs);
    }
}

/// What the check attributes of a method ask for, and the places of the
/// attributes that the method keeps.
pub struct TakenAttrs {
    pub checks: Result<Vec<CheckAttr>, MethodFault>,
    pub retained: Vec<usize>,
}

/// What was read, or what is wrong.
pub open spec fn taken_view(checks: Result<Vec<CheckAttr>, MethodFault>) -> Result<
    Seq<CheckAttrView>,
    MethodFault,
> {
    match checks {
        Ok(checks) => Ok(check_attr_views(checks@)),
        Err(fault) => Err(fault),
    }
}

/// Takes the check attributes of a method from its attributes.
pub fn take_check_attrs(attrs: &Vec<Attr>) -> (result: TakenAttrs)
    ensures
        taken_view(result.checks) == taken(attr_views(attrs@)),
        result.retained@ == kept(attr_views(attrs@)),
{
    let ghost views = attr_views(attrs@);
    let mut checks: Vec<CheckAttr> = Vec::new();
    let mut retained: Vec<usize> = Vec::new();
    assert(check_attr_views(checks@) == Seq::<CheckAttrView>::empty());
    let mut i: usize = 0;
    while i < attrs.len()
        invariant
            i <= attrs.len(),
            views == attr_views(attrs@),
            taken(views.take(i as int)) == Ok::<Seq<CheckAttrView>, MethodFault>(
                check_attr_views(checks@),
            ),
            retained@ == others(views.take(i as int)),
        decreases attrs.len() - i,
    {
        let ghost before = check_attr_views(checks@);
        assert(views.take(i + 1).drop_last() == views.take(i as int));
        let attr = &attrs[i];
        assert(views[i as int] == attr@);
        let more = match check_attr_name(attr) {
            None => {
                retained.push(i);
                let more: Vec<CheckAttr> = Vec::new();
                assert(check_attr_views(more@) == Seq::<CheckAttrView>::empty());
                Ok(more)
            },
            Some(CheckAttrName::Single(kind)) => match parse_single_kind_attr(attr, kind) {
                Ok(check) => {
                    let mut more: Vec<CheckAttr> = Vec::new();
                    more.push(check);
                    assert(check_attr_views(more@) == seq![check@]);
                    Ok(more)
                },
                Err(fault) => Err(fault),
            },
            Some(CheckAttrName::Health) => parse_health_attr(attr),
        };
        match more {
            Err(fault) => {
                proof {
                    lemma_taken_prefix(views, i + 1);
                }
                return TakenAttrs {
                    checks: Err(
                        MethodFault {
                            part: MethodPart::Attr(i, fault.part),
                            problem: fault.problem,
                        },
                    ),
                    retained: Vec::new(),
                };
            },
            Ok(more) => {
                let mut more = more;
                let ghost added = check_attr_views(more@);
                assert(attr_checks(attr@) == Ok::<Seq<CheckAttrView>, AttrFault>(added));
                checks.append(&mut more);
                assert(check_attr_views(checks@) == before + added);
            },
        }
        i += 1;
    }
    assert(views.take(i as int) == views);
    TakenAttrs { checks: Ok(checks), retained }
}

/// Whether a type is a path to `Check`.
pub open spec fn names_check(ty: Ty) -> bool {
    match ty {
        Ty::Path(segments) => segments.len() > 0 && segments@.last().ident@ == "Check"@,
        Ty::Other => false,
    }
}

/// Whether a type is a path to `Result` with `Check` as its first argument.
pub open spec fn names_check_result(ty: Ty) -> bool {
    match ty {
        Ty::Path(segments) => segments.len() > 0 && segments@.last().ident@ == "Result"@
            && match segments@.last().arguments {
            PathArguments::AngleBracketed(arguments) => arguments.len() > 0
                && match arguments@[0] {
                GenericArgument::Type(ok) => names_check(ok),
                GenericArgument::Other => false,
            },
            _ => false,
        },
        Ty::Other => false,
    }
}

/// Tells whether a type is a path to `Check`.
pub fn is_check_type(ty: &Ty) -> (is: bool)
    ensures
        is == names_check(*ty),
{
    match ty {
        Ty::Path(segments) => segments.len() > 0 && same_text(
            &segments[segments.len() - 1].ident,
            "Check",
        ),
        Ty::Other => false,
    }
}

/// Tells whether a type is a path to `Result` with `Check` as its first argument.
pub fn is_health_check_result(ty: &Ty) -> (is: bool)
    ensures
        is == names_check_result(*ty),
{
    match ty {
        Ty::Other => false,
        Ty::Path(segments) => {
            if segments.len() == 0 {
                return false;
            }
            let segment = &segments[segments.len() - 1];
            if !same_text(&segment.ident, "Result") {
                return false;
            }
            match &segment.arguments {
                PathArguments::AngleBracketed(arguments) => {
                    if arguments.len() == 0 {
                        return false;
                    }
                    match &arguments[0] {
                        GenericArgument::Type(ok) => is_check_type(ok),
                        GenericArgument::Other => false,
                    }
                },
                _ => false,
            }
        },
    }
}

/// What keeps a method from being a health check: the first of these that holds.
pub open spec fn method_fault(method: Method) -> Option<MethodFault> {
    if !method.is_async {
        Some(MethodFault { part: MethodPart::Ident, problem: Problem::NotAsync })
    } else if method.has_generics {
        Some(MethodFault { part: MethodPart::Generics, problem: Problem::GenericMethod })
    } else if method.inputs.len() == 0 {
        Some(MethodFault { part: MethodPart::Ident, problem: Problem::NoSelf })
    } else if method.inputs[0] != (Input::Receiver { reference: true, mutable: false }) {
        Some(MethodFault { part: MethodPart::Input(0), problem: Problem::NotSharedSelf })
    } else if method.inputs.len() > 1 {
        Some(MethodFault { part: MethodPart::Input(1), problem: Problem::ExtraArgument })
    } else if !(method.output is Some && names_check_result(method.output->0)) {
        Some(MethodFault { part: MethodPart::Output, problem: Problem::WrongReturn })
    } else {
        None
    }
}

/// Refuses a method that cannot be a health check.
pub fn validate_method(method: &Method) -> (result: Result<(), MethodFault>)
    ensures
        result == (match method_fault(*method) {
            Some(fault) => Err::<(), MethodFault>(fault),
            None => Ok(()),
        }),
{
    if !method.is_async {
        return Err(MethodFault { part: MethodPart::Ident, problem: Problem::NotAsync });
    }
    if method.has_generics {
        return Err(MethodFault { part: MethodPart::Generics, problem: Problem::GenericMethod });
    }
    if method.inputs.len() == 0 {
        return Err(MethodFault { part: MethodPart::Ident, problem: Problem::NoSelf });
    }
    match method.inputs[0] {
        Input::Receiver { reference: true, mutable: false } => {},
        _ => {
            return Err(
                MethodFault { part: MethodPart::Input(0), problem: Problem::NotSharedSelf },
            );
        },
    }
    if method.inputs.len() > 1 {
        return Err(MethodFault { part: MethodPart::Input(1), problem: Problem::ExtraArgument });
    }
    let returns_check = match &method.output {
        Some(ty) => is_health_check_result(ty),
        None => false,
    };
    if !returns_check {
        return Err(MethodFault { part: MethodPart::Output, problem: Problem::WrongReturn });
    }
    Ok(())
}

/// A check that a provider registers: its kind, its name, and the place of the
/// method that runs it among the items of the block.
pub struct RegistrationView {
    pub kind: Kind,
    pub name: Seq<char>,
    pub method: usize,
}

/// A check that a provider registers: its kind, its name, and the place of the
/// method that runs it among the items of the block.
#[derive(Debug)]
pub struct Registration {
    pub kind: Kind,
    pub name: String,
    pub method: usize,
}

impl View for Registration {
    type V = RegistrationView;

    open spec fn view(&self) -> RegistrationView {
        RegistrationView { kind: self.kind, name: self.name@, method: self.method }
    }
}

/// What each of the registrations is.
pub open spec fn registration_views(registrations: Seq<Registration>) -> Seq<RegistrationView> {
    registrations.map_values(|registration: Registration| registration@)
}

/// The registration of a check that runs the method with the given identifier,
/// which is also the name of the check unless another one is given.
pub open spec fn registration_of(
    check: CheckAttrView,
    ident: Seq<char>,
    method: int,
) -> RegistrationView {
    RegistrationView {
        kind: check.kind,
        name: match check.name {
            Some(name) => name,
            None => ident,
        },
        method: method as usize,
    }
}

/// The checks that the method at `place` asks for, as they are registered.
pub open spec fn method_registrations(method: Method, place: int) -> Seq<RegistrationView> {
    match taken(attr_views(method.attrs@)) {
        Ok(checks) => if method_fault(method) is None {
            checks.map_values(
                |check: CheckAttrView| registration_of(check, method.ident@, place),
            )
        } else {
            Seq::empty()
        },
        Err(_) => Seq::empty(),
    }
}

/// Whether a method is annotated as a health check, be it at fault or not.
pub open spec fn is_annotated(method: Method) -> bool {
    match taken(attr_views(method.attrs@)) {
        Ok(checks) => checks.len() > 0,
        Err(_) => true,
    }
}

/// What is wrong with the method at `place`, if it is annotated.
pub open spec fn method_faults(method: Method, place: int) -> Seq<Fault> {
    match taken(attr_views(method.attrs@)) {
        Ok(checks) => if checks.len() > 0 && method_fault(method) is Some {
            seq![fault_in(place, method_fault(method)->0)]
        } else {
            Seq::empty()
        },
        Err(fault) => seq![fault_in(place, fault)],
    }
}

/// A fault in the method at `place`.
pub open spec fn fault_in(place: int, fault: MethodFault) -> Fault {
    Fault { site: Site::Method(place as usize, fault.part), problem: fault.problem }
}

/// A fault of the block as a whole.
pub open spec fn block_fault(problem: Problem) -> Fault {
    Fault { site: Site::SelfType, problem }
}

/// The checks that the items ask for, in the order of the items.
pub open spec fn registrations(items: Seq<ImplItem>) -> Seq<RegistrationView>
    decreases items.len(),
{
    if items.len() == 0 {
        Seq::empty()
    } else {
        registrations(items.drop_last()) + match items.last() {
            ImplItem::Method(method) => method_registrations(method, items.len() - 1),
            ImplItem::Other => Seq::empty(),
        }
    }
}

/// What is wrong with the methods among the items, in the order of the items.
pub open spec fn item_faults(items: Seq<ImplItem>) -> Seq<Fault>
    decreases items.len(),
{
    if items.len() == 0 {
        Seq::empty()
    } else {
        item_faults(items.drop_last()) + match items.last() {
            ImplItem::Method(method) => method_faults(method, items.len() - 1),
            ImplItem::Other => Seq::empty(),
        }
    }
}

/// Whether any of the items is an annotated method.
pub open spec fn any_annotated(items: Seq<ImplItem>) -> bool {
    exists|i: int|
        0 <= i < items.len() && (#[trigger] items[i]) is Method && is_annotated(
            items[i]->Method_0,
        )
}

/// What is wrong with a block: that it implements a trait, what is wrong with its
/// methods, and that none of them is annotated.
pub open spec fn faults<T>(block: ImplBlock<T>) -> Seq<Fault> {
    (if block.is_trait_impl {
        seq![block_fault(Problem::TraitImpl)]
    } else {
        Seq::empty()
    }) + item_faults(block.items@) + (if any_annotated(block.items@) {
        Seq::empty()
    } else {
        seq![block_fault(Problem::NoChecks)]
    })
}

/// The places of the attributes that an item keeps.
pub open spec fn item_kept(item: ImplItem) -> Seq<usize> {
    match item {
        ImplItem::Method(method) => kept(attr_views(method.attrs@)),
        ImplItem::Other => Seq::empty(),
    }
}

/// What a block with annotated methods expands to: the block without its check
/// attributes, an implementation of `HealthCheck`, a block with `into_health`, and
/// errors.
#[derive(Debug)]
pub struct Expansion<'a, T> {
    /// For what `HealthCheck` is implemented.
    pub provider: &'a Head<T>,
    /// The checks that its `register` registers, in this order.
    pub registrations: Vec<Registration>,
    /// For what `into_health` is written, which builds a registry from the provider
    /// alone.
    pub conversion: &'a Head<T>,
    /// What is wrong with the block.
    pub errors: Vec<Fault>,
    /// For each item, the places of the attributes that it keeps, if it is a
    /// method.
    pub retained: Vec<Vec<usize>>,
}

/// Expands a block with annotated methods. What is generated stands under the
/// generic parameters and the `where` clause of the block, be it at fault or not.
pub fn expand_health_check<'a, T>(block: &'a ImplBlock<T>) -> (expansion: Expansion<'a, T>)
    ensures
        *expansion.provider == block.head,
        *expansion.conversion == block.head,
        registration_views(expansion.registrations@) == registrations(block.items@),
        expansion.errors@ == faults(*block),
        expansion.retained.len() == block.items.len(),
        forall|i: int|
            0 <= i < block.items.len() ==> (#[trigger] expansion.retained[i])@ == item_kept(
                block.items[i],
            ),
{
    let ghost items = block.items@;
    let mut registered: Vec<Registration> = Vec::new();
    let mut errors: Vec<Fault> = Vec::new();
    let mut retained: Vec<Vec<usize>> = Vec::new();
    let mut has_annotated_check = false;
    if block.is_trait_impl {
        errors.push(Fault { site: Site::SelfType, problem: Problem::TraitImpl });
    }
    let ghost first = errors@;
    assert(registration_views(registered@) == registrations(items.take(0)));
    assert(errors@ == first + item_faults(items.take(0)));
    let mut i: usize = 0;
    while i < block.items.len()
        invariant
            i <= block.items.len(),
            items == block.items@,
            registration_views(registered@) == registrations(items.take(i as int)),
            errors@ == first + item_faults(items.take(i as int)),
            retained.len() == i,
            forall|j: int| 0 <= j < i ==> (#[trigger] retained[j])@ == item_kept(items[j]),
            has_annotated_check == any_annotated(items.take(i as int)),
        decreases block.items.len() - i,
    {
        proof {
            assert(items.take(i + 1).drop_last() == items.take(i as int));
            lemma_any_annotated(items, i as int);
        }
        let item = &block.items[i];
        match item {
            ImplItem::Other => {
                retained.push(Vec::new());
            },
            ImplItem::Method(method) => {
                let taken_attrs = take_check_attrs(&method.attrs);
                retained.push(taken_attrs.retained);
                match taken_attrs.checks {
                    Err(fault) => {
                        has_annotated_check = true;
                        errors.push(
                            Fault { site: Site::Method(i, fault.part), problem: fault.problem },
                        );
                    },
                    Ok(checks) => {
                        if checks.len() > 0 {
                            has_annotated_check = true;
                            match validate_method(method) {
                                Err(fault) => {
                                    errors.push(
                                        Fault {
                                            site: Site::Method(i, fault.part),
                                            problem: fault.problem,
                                        },
                                    );
                                },
                                Ok(()) => {
                                    register_checks(&mut registered, checks, &method.ident, i);
                                },
                            }
                        }
                    },
                }
            },
        }
        i += 1;
    }
    assert(items.take(i as int) == items);
    if !has_annotated_check {
        errors.push(Fault { site: Site::SelfType, problem: Problem::NoChecks });
    }
    Expansion {
        provider: &block.head,
        registrations: registered,
        conversion: &block.head,
        errors,
        retained,
    }
}

/// Adding an item leaves an annotated method annotated.
proof fn lemma_any_annotated(items: Seq<ImplItem>, n: int)
    requires
        0 <= n < items.len(),
    ensures
        any_annotated(items.take(n + 1)) == (any_annotated(items.take(n)) || (items[n] is Method
            && is_annotated(items[n]->Method_0))),
{
    let shorter = items.take(n);
    let longer = items.take(n + 1);
    assert(longer[n] == items[n]);
    if any_annotated(shorter) {
        let i = choose|i: int|
            0 <= i < shorter.len() && (#[trigger] shorter[i]) is Method && is_annotated(
                shorter[i]->Method_0,
            );
        assert(longer[i] == shorter[i]);
    }
    if any_annotated(longer) {
        let i = choose|i: int|
            0 <= i < longer.len() && (#[trigger] longer[i]) is Method && is_annotated(
                longer[i]->Method_0,
            );
        if i < n {
            assert(shorter[i] == longer[i]);
        }
    }
}

/// Adds the checks that the method at `place` asks for.
fn register_checks(
    registered: &mut Vec<Registration>,
    checks: Vec<CheckAttr>,
    ident: &String,
    place: usize,
)
    ensures
        registration_views(final(registered)@) == registration_views(old(registered)@)
            + check_attr_views(checks@).map_values(
            |check: CheckAttrView| registration_of(check, ident@, place as int),
        ),
{
    let ghost before = registration_views(registered@);
    let ghost added = check_attr_views(checks@).map_values(
        |check: CheckAttrView| registration_of(check, ident@, place as int),
    );
    for check in iter: checks
        invariant
            added == check_attr_views(iter.seq()).map_values(
                |check: CheckAttrView| registration_of(check, ident@, place as int),
            ),
            registration_views(registered@) == before + added.take(iter.index()),
    {
        let ghost n = iter.index();
        let ghost earlier = registered@;
        assert(added[n] == registration_of(check@, ident@, place as int));
        let name = match check.name {
            Some(name) => name,
            None => ident.clone(),
        };
        registered.push(Registration { kind: check.kind, name, method: place });
        assert(registration_views(registered@) == registration_views(earlier).push(added[n]));
        assert(added.take(n + 1) == added.take(n).push(added[n]));
    }
    assert(added.take(added.len() as int) == added);
}

} // verus!
