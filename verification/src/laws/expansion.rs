//! What a block with annotated methods expands to.
use crate::arguments::{attr_checks, check_attr_views, CheckAttrView};
use crate::diagnostic::{AttrFault, Fault, MethodFault, MethodPart, Problem, Site};
use crate::expand::{
    any_annotated, expand_health_check, faults, is_annotated, is_check, item_faults, kept,
    method_fault, method_faults, method_registrations, others, registration_views, registrations,
    take_check_attrs, taken, validate_method, Expansion, RegistrationView, TakenAttrs,
};
use crate::laws::faults::{has_check_name, lemma_check_names};
use crate::laws::grammar::law_attribute_checks;
use crate::registry::{all_named, Health, HealthBuilder, Provider, RegisteredCheckView};
use crate::syntax::{
    attr_views, AttrView, GenericArgument, ImplBlock, ImplItem, Input, Method, PathArguments, Ty,
};
use vstd::prelude::*;

verus! {

/// Attributes are annotations exactly if one of them is a check attribute.
proof fn lemma_annotated(attrs: Seq<AttrView>)
    ensures
        (taken(attrs) is Err || taken(attrs)->Ok_0.len() > 0) <==> exists|i: int|
            0 <= i < attrs.len() && has_check_name(#[trigger] attrs[i]),
    decreases attrs.len(),
{
    if attrs.len() > 0 {
        let shorter = attrs.drop_last();
        lemma_annotated(shorter);
        lemma_check_names(attrs.last());
        if attr_checks(attrs.last()) is Ok {
            law_attribute_checks(attrs.last());
        }
        let some = exists|i: int| 0 <= i < attrs.len() && has_check_name(#[trigger] attrs[i]);
        if taken(attrs) is Err || taken(attrs)->Ok_0.len() > 0 {
            if taken(shorter) is Err || taken(shorter)->Ok_0.len() > 0 {
                let i = choose|i: int|
                    0 <= i < shorter.len() && has_check_name(#[trigger] shorter[i]);
                assert(attrs[i] == shorter[i]);
            } else {
                assert(has_check_name(attrs[attrs.len() - 1]));
            }
            assert(some);
        }
        if some {
            let i = choose|i: int| 0 <= i < attrs.len() && has_check_name(#[trigger] attrs[i]);
            if i < shorter.len() {
                assert(has_check_name(shorter[i]));
            }
        }
    }
}

/// A method is annotated exactly if one of its attributes is a check attribute.
pub proof fn law_annotated_exactly_by_check_attributes(attrs: Seq<AttrView>)
    ensures
        (taken(attrs) is Err || taken(attrs)->Ok_0.len() > 0) <==> exists|i: int|
            0 <= i < attrs.len() && ((#[trigger] attrs[i]).ident == Some("liveness"@)
                || attrs[i].ident == Some("readiness"@) || attrs[i].ident == Some("startup"@)
                || attrs[i].ident == Some("health"@)),
{
    lemma_annotated(attrs);
    if taken(attrs) is Err || taken(attrs)->Ok_0.len() > 0 {
        let i = choose|i: int| 0 <= i < attrs.len() && has_check_name(#[trigger] attrs[i]);
        assert(attrs[i].ident is Some);
    }
    if exists|i: int|
        0 <= i < attrs.len() && ((#[trigger] attrs[i]).ident == Some("liveness"@)
            || attrs[i].ident == Some("readiness"@) || attrs[i].ident == Some("startup"@)
            || attrs[i].ident == Some("health"@)) {
        let i = choose|i: int|
            0 <= i < attrs.len() && ((#[trigger] attrs[i]).ident == Some("liveness"@)
                || attrs[i].ident == Some("readiness"@) || attrs[i].ident == Some("startup"@)
                || attrs[i].ident == Some("health"@));
        assert(has_check_name(attrs[i]));
    }
}

/// The places in [`others`] are those of the attributes that are no check
/// attributes, in ascending order.
proof fn lemma_others(attrs: Seq<AttrView>)
    requires
        attrs.len() <= usize::MAX,
    ensures
        forall|i: usize| #[trigger]
            others(attrs).contains(i) <==> i < attrs.len() && !is_check(attrs[i as int]),
        forall|m: int, n: int|
            0 <= m < n < others(attrs).len() ==> #[trigger] others(attrs)[m] < #[trigger] others(
                attrs,
            )[n],
    decreases attrs.len(),
{
    if attrs.len() > 0 {
        let shorter = attrs.drop_last();
        lemma_others(shorter);
        let before = others(shorter);
        let all = others(attrs);
        let last = (attrs.len() - 1) as usize;
        assert forall|i: usize| #[trigger] all.contains(i) <==> i < attrs.len() && !is_check(
            attrs[i as int],
        ) by {
            if all.contains(i) {
                let n = choose|n: int| 0 <= n < all.len() && all[n] == i;
                if n < before.len() {
                    assert(before[n] == i);
                    assert(before.contains(i));
                }
            }
            if i < attrs.len() && !is_check(attrs[i as int]) {
                if i < last {
                    assert(shorter[i as int] == attrs[i as int]);
                    assert(before.contains(i));
                    let n = choose|n: int| 0 <= n < before.len() && before[n] == i;
                    assert(all[n] == i);
                } else {
                    assert(all[before.len() as int] == i);
                }
            }
        }
        assert forall|m: int, n: int| 0 <= m < n < all.len() implies #[trigger] all[m]
            < #[trigger] all[n] by {
            assert(before[m] == all[m]);
            assert(before.contains(before[m]));
        }
    }
}

/// A method whose check attributes can be read keeps exactly its other
/// attributes, in their order. One of which a check attribute is at fault keeps
/// none.
pub proof fn law_other_attributes_are_kept(attrs: Seq<AttrView>)
    requires
        attrs.len() <= usize::MAX,
    ensures
        taken(attrs) is Ok ==> forall|i: usize| #[trigger]
            kept(attrs).contains(i) <==> i < attrs.len() && attrs[i as int].ident != Some(
            "liveness"@,
        ) && attrs[i as int].ident != Some("readiness"@) && attrs[i as int].ident != Some(
            "startup"@,
        ) && attrs[i as int].ident != Some("health"@),
        forall|m: int, n: int|
            0 <= m < n < kept(attrs).len() ==> #[trigger] kept(attrs)[m] < #[trigger] kept(
                attrs,
            )[n],
        taken(attrs) is Err ==> kept(attrs).len() == 0,
{
    lemma_others(attrs);
    if taken(attrs) is Ok {
        assert forall|i: usize| #[trigger]
            kept(attrs).contains(i) <==> i < attrs.len() && attrs[i as int].ident != Some(
            "liveness"@,
        ) && attrs[i as int].ident != Some("readiness"@) && attrs[i as int].ident != Some(
            "startup"@,
        ) && attrs[i as int].ident != Some("health"@) by {
            assert(others(attrs).contains(i) == kept(attrs).contains(i));
            if i < attrs.len() {
                lemma_check_names(attrs[i as int]);
            }
        }
    }
}

/// The checks that attributes ask for have no empty names.
proof fn lemma_taken_names(attrs: Seq<AttrView>)
    requires
        taken(attrs) is Ok,
    ensures
        forall|i: int|
            0 <= i < taken(attrs)->Ok_0.len() && (#[trigger] taken(attrs)->Ok_0[i]).name is Some
                ==> taken(attrs)->Ok_0[i].name->0.len() > 0,
    decreases attrs.len(),
{
    if attrs.len() > 0 {
        lemma_taken_names(attrs.drop_last());
        law_attribute_checks(attrs.last());
        let before = taken(attrs.drop_last())->Ok_0;
        let more = attr_checks(attrs.last())->Ok_0;
        let all = taken(attrs)->Ok_0;
        assert forall|i: int| 0 <= i < all.len() && (#[trigger] all[i]).name is Some implies
            all[i].name->0.len() > 0 by {
            if i < before.len() {
                assert(all[i] == before[i]);
            } else {
                assert(all[i] == more[i - before.len()]);
            }
        }
    }
}

/// Every check of a generated provider has a name and is run by a method of the
/// block that is annotated and without fault.
pub proof fn law_registrations_are_named(items: Seq<ImplItem>)
    requires
        items.len() <= usize::MAX,
        forall|i: int|
            0 <= i < items.len() && #[trigger] items[i] is Method
                ==> items[i]->Method_0.ident@.len() > 0,
    ensures
        forall|n: int|
            0 <= n < registrations(items).len() ==> {
                let registration = #[trigger] registrations(items)[n];
                let item = items[registration.method as int];
                &&& registration.name.len() > 0
                &&& registration.method < items.len()
                &&& item is Method
                &&& is_annotated(item->Method_0)
                &&& method_fault(item->Method_0) is None
            },
    decreases items.len(),
{
    if items.len() > 0 {
        let shorter = items.drop_last();
        assert forall|i: int| 0 <= i < shorter.len() && #[trigger] shorter[i] is Method implies
            shorter[i]->Method_0.ident@.len() > 0 by {
            assert(items[i] == shorter[i]);
        }
        law_registrations_are_named(shorter);
        let before = registrations(shorter);
        let all = registrations(items);
        let last = items.len() - 1;
        assert forall|n: int| 0 <= n < all.len() implies {
            let registration = #[trigger] all[n];
            let item = items[registration.method as int];
            &&& registration.name.len() > 0
            &&& registration.method < items.len()
            &&& item is Method
            &&& is_annotated(item->Method_0)
            &&& method_fault(item->Method_0) is None
        } by {
            if n < before.len() {
                assert(all[n] == before[n]);
                assert(items[all[n].method as int] == shorter[before[n].method as int]);
            } else {
                let method = items[last]->Method_0;
                assert(all[n] == method_registrations(method, last)[n - before.len()]);
                lemma_taken_names(attr_views(method.attrs@));
                let check = taken(attr_views(method.attrs@))->Ok_0[n - before.len()];
                assert(all[n].name == match check.name {
                    Some(name) => name,
                    None => method.ident@,
                });
            }
        }
    }
}

/// The checks of a generated provider can be registered: whatever procedures run
/// them, each has a name.
pub proof fn law_provider_can_register<T, P>(
    block: ImplBlock<T>,
    checks: Seq<RegisteredCheckView<P>>,
)
    requires
        block.wf(),
        checks.len() == registrations(block.items@).len(),
        forall|n: int|
            0 <= n < checks.len() ==> (#[trigger] checks[n]).name == registrations(
                block.items@,
            )[n].name,
    ensures
        all_named(checks),
{
    assert(block.items@.len() == block.items.len());
    law_registrations_are_named(block.items@);
    assert forall|n: int| 0 <= n < checks.len() implies (#[trigger] checks[n]).name.len() > 0 by {
        assert(registrations(block.items@)[n].name.len() > 0);
    }
}

/// A method can be a health check exactly if it is async, has no generic
/// parameters, takes `&self` and nothing else, and returns a `Result` of a
/// `Check`.
pub proof fn law_accepted_methods(method: Method)
    ensures
        method_fault(method) is None <==> {
            &&& method.is_async
            &&& !method.has_generics
            &&& method.inputs@ == seq![Input::Receiver { reference: true, mutable: false }]
            &&& match method.output {
                Some(Ty::Path(segments)) => segments.len() > 0 && {
                    let last = segments[segments.len() - 1];
                    last.ident@ == "Result"@ && match last.arguments {
                        PathArguments::AngleBracketed(arguments) => arguments.len() > 0
                            && match arguments[0] {
                            GenericArgument::Type(Ty::Path(inner)) => inner.len() > 0
                                && inner[inner.len() - 1].ident@ == "Check"@,
                            _ => false,
                        },
                        _ => false,
                    }
                },
                _ => false,
            }
        },
{
    let shared_self = seq![Input::Receiver { reference: true, mutable: false }];
    assert(shared_self[0] == (Input::Receiver { reference: true, mutable: false }));
    if method_fault(method) is None {
        assert(method.inputs@ =~= shared_self);
    }
}

/// Whether the annotated methods among the items are all without fault.
pub open spec fn annotated_are_sound(items: Seq<ImplItem>) -> bool {
    forall|i: int|
        0 <= i < items.len() && (#[trigger] items[i]) is Method && is_annotated(
            items[i]->Method_0,
        ) ==> taken(attr_views(items[i]->Method_0.attrs@)) is Ok && method_fault(
            items[i]->Method_0,
        ) is None
}

/// The methods among the items are without fault exactly if the annotated ones
/// are sound.
proof fn lemma_item_faults(items: Seq<ImplItem>)
    ensures
        item_faults(items).len() == 0 <==> annotated_are_sound(items),
    decreases items.len(),
{
    if items.len() > 0 {
        let shorter = items.drop_last();
        lemma_item_faults(shorter);
        let last = items.len() - 1;
        if annotated_are_sound(items) {
            assert forall|i: int|
                0 <= i < shorter.len() && (#[trigger] shorter[i]) is Method && is_annotated(
                    shorter[i]->Method_0,
                ) implies taken(attr_views(shorter[i]->Method_0.attrs@)) is Ok && method_fault(
                shorter[i]->Method_0,
            ) is None by {
                assert(items[i] == shorter[i]);
            }
            assert(items[last] == items.last());
        }
        if item_faults(items).len() == 0 {
            assert forall|i: int|
                0 <= i < items.len() && (#[trigger] items[i]) is Method && is_annotated(
                    items[i]->Method_0,
                ) implies taken(attr_views(items[i]->Method_0.attrs@)) is Ok && method_fault(
                items[i]->Method_0,
            ) is None by {
                if i < last {
                    assert(shorter[i] == items[i]);
                } else {
                    assert(method_faults(items.last()->Method_0, last).len() == 0);
                }
            }
        }
    }
}

/// A block expands without error exactly if it implements no trait, at least one
/// of its methods is annotated, and every annotated method is without fault.
pub proof fn law_accepted_blocks<T>(block: ImplBlock<T>)
    ensures
        faults(block).len() == 0 <==> !block.is_trait_impl && any_annotated(block.items@)
            && annotated_are_sound(block.items@),
{
    lemma_item_faults(block.items@);
}

/// A block that expands without error provides every check that any of its
/// methods is annotated with, and at least one.
pub proof fn law_accepted_block_provides_all(items: Seq<ImplItem>)
    requires
        annotated_are_sound(items),
    ensures
        any_annotated(items) <==> registrations(items).len() > 0,
        forall|i: int, k: int|
            0 <= i < items.len() && (#[trigger] items[i]) is Method && 0 <= k < taken(
                attr_views(items[i]->Method_0.attrs@),
            )->Ok_0.len() && is_annotated(items[i]->Method_0) ==> registrations(items).contains(
                #[trigger] method_registrations(items[i]->Method_0, i)[k],
            ),
    decreases items.len(),
{
    if items.len() > 0 {
        let shorter = items.drop_last();
        let last = items.len() - 1;
        assert forall|i: int|
            0 <= i < shorter.len() && (#[trigger] shorter[i]) is Method && is_annotated(
                shorter[i]->Method_0,
            ) implies taken(attr_views(shorter[i]->Method_0.attrs@)) is Ok && method_fault(
            shorter[i]->Method_0,
        ) is None by {
            assert(items[i] == shorter[i]);
        }
        law_accepted_block_provides_all(shorter);
        let before = registrations(shorter);
        let all = registrations(items);
        assert(items[last] == items.last());
        let more = match items.last() {
            ImplItem::Method(method) => method_registrations(method, last),
            ImplItem::Other => Seq::<RegistrationView>::empty(),
        };
        assert(all == before + more);
        assert forall|i: int, k: int|
            0 <= i < items.len() && (#[trigger] items[i]) is Method && 0 <= k < taken(
                attr_views(items[i]->Method_0.attrs@),
            )->Ok_0.len() && is_annotated(items[i]->Method_0) implies all.contains(
            #[trigger] method_registrations(items[i]->Method_0, i)[k],
        ) by {
            let registration = method_registrations(items[i]->Method_0, i)[k];
            if i < last {
                assert(shorter[i] == items[i]);
                assert(before.contains(registration));
                let n = choose|n: int| 0 <= n < before.len() && before[n] == registration;
                assert(all[n] == registration);
            } else {
                assert(all[before.len() + k] == registration);
            }
        }
        if any_annotated(items) {
            let i = choose|i: int|
                0 <= i < items.len() && (#[trigger] items[i]) is Method && is_annotated(
                    items[i]->Method_0,
                );
            if i < last {
                assert(shorter[i] == items[i]);
                assert(any_annotated(shorter));
            } else {
                assert(more.len() > 0);
            }
        }
        if all.len() > 0 {
            if before.len() > 0 {
                let i = choose|i: int|
                    0 <= i < shorter.len() && (#[trigger] shorter[i]) is Method && is_annotated(
                        shorter[i]->Method_0,
                    );
                assert(items[i] == shorter[i]);
            } else {
                assert(more.len() > 0);
                assert(is_annotated(items[last]->Method_0));
            }
        }
    }
}

/// Converting a provider into a registry and building one with the provider alone
/// give the same registry, and it holds the checks of the provider in their order.
pub proof fn law_into_health_is_building_with_the_provider<P: Send + Sync + 'static>(
    provider: Provider<P>,
    builder: HealthBuilder<P>,
    with_provider: HealthBuilder<P>,
    built: Health<P>,
    converted: Health<P>,
)
    requires
        call_ensures(Health::<P>::builder, (), builder),
        call_ensures(
            HealthBuilder::<P>::include_provider::<Provider<P>>,
            (builder, provider),
            with_provider,
        ),
        call_ensures(HealthBuilder::<P>::build, (with_provider,), built),
        call_ensures(Provider::<P>::into_health, (provider,), converted),
    ensures
        built@ == converted@,
        built@ == provider@,
{
    assert(builder@ + provider@ == provider@);
}

/// Attributes are read in turn: nothing is asked for without attributes, one
/// attribute asks for what it says, and those of a longer list ask for what the
/// earlier ones and the later ones ask for, one behind the other. The first fault is
/// reported, at the place of its attribute in the whole list.
pub proof fn law_attributes_are_read_in_turn(
    one: AttrView,
    earlier: Seq<AttrView>,
    later: Seq<AttrView>,
)
    ensures
        taken(Seq::<AttrView>::empty()) == Ok::<Seq<CheckAttrView>, MethodFault>(Seq::empty()),
        taken(seq![one]) == (match attr_checks(one) {
            Ok(checks) => Ok::<Seq<CheckAttrView>, MethodFault>(checks),
            Err(fault) => Err(
                MethodFault {
                    part: MethodPart::Attr(0, fault.part),
                    problem: fault.problem,
                },
            ),
        }),
        taken(earlier) is Err ==> taken(earlier + later) == taken(earlier),
        taken(earlier) is Ok && taken(later) is Ok ==> taken(earlier + later) == Ok::<
            Seq<CheckAttrView>,
            MethodFault,
        >(taken(earlier)->Ok_0 + taken(later)->Ok_0),
        taken(earlier) is Ok && taken(later) is Err ==> exists|k: int, fault: AttrFault|
            #![trigger attr_checks(later[k]), fault.part]
            {
                &&& 0 <= k < later.len()
                &&& taken(later.take(k)) is Ok
                &&& attr_checks(later[k]) == Err::<Seq<CheckAttrView>, AttrFault>(fault)
                &&& taken(earlier + later) == Err::<Seq<CheckAttrView>, MethodFault>(
                    MethodFault {
                        part: MethodPart::Attr((earlier.len() + k) as usize, fault.part),
                        problem: fault.problem,
                    },
                )
            },
    decreases later.len(),
{
    let none = Seq::<AttrView>::empty();
    assert(seq![one].drop_last() =~= none);
    assert(seq![one].last() == one);
    if attr_checks(one) is Ok {
        assert(Seq::<CheckAttrView>::empty() + attr_checks(one)->Ok_0 =~= attr_checks(one)->Ok_0);
    }
    let all = earlier + later;
    if later.len() == 0 {
        assert(all =~= earlier);
        if taken(earlier) is Ok {
            assert(taken(later) == Ok::<Seq<CheckAttrView>, MethodFault>(Seq::empty()));
            assert(taken(earlier)->Ok_0 + taken(later)->Ok_0 =~= taken(earlier)->Ok_0);
        }
    } else {
        let shorter = later.drop_last();
        law_attributes_are_read_in_turn(one, earlier, shorter);
        assert(all.drop_last() =~= earlier + shorter);
        assert(all.last() == later.last());
        if taken(earlier) is Ok && taken(later) is Ok {
            let before = taken(earlier)->Ok_0;
            let more = attr_checks(later.last())->Ok_0;
            assert(before + taken(shorter)->Ok_0 + more =~= before + (taken(shorter)->Ok_0
                + more));
        }
        if taken(earlier) is Ok && taken(later) is Err {
            if taken(shorter) is Err {
                let (k, fault) = choose|k: int, fault: AttrFault|
                    #![trigger attr_checks(shorter[k]), fault.part]
                    {
                        &&& 0 <= k < shorter.len()
                        &&& taken(shorter.take(k)) is Ok
                        &&& attr_checks(shorter[k]) == Err::<Seq<CheckAttrView>, AttrFault>(fault)
                        &&& taken(earlier + shorter) == Err::<Seq<CheckAttrView>, MethodFault>(
                            MethodFault {
                                part: MethodPart::Attr((earlier.len() + k) as usize, fault.part),
                                problem: fault.problem,
                            },
                        )
                    };
                assert(shorter[k] == later[k]);
                assert(shorter.take(k) =~= later.take(k));
                assert(attr_checks(later[k]) == Err::<Seq<CheckAttrView>, AttrFault>(fault));
                assert(fault.part == fault.part);
            } else {
                let k = later.len() - 1;
                let fault = attr_checks(later[k])->Err_0;
                assert(later.take(k) =~= shorter);
                assert(attr_checks(later[k]) == Err::<Seq<CheckAttrView>, AttrFault>(fault));
                assert(taken(all) == Err::<Seq<CheckAttrView>, MethodFault>(
                    MethodFault {
                        part: MethodPart::Attr((earlier.len() + k) as usize, fault.part),
                        problem: fault.problem,
                    },
                ));
            }
        }
    }
}

/// Taking the check attributes leaves exactly the others, in their order. Where one
/// of them is at fault nothing is left.
pub proof fn law_attributes_that_are_left(attrs: Vec<crate::syntax::Attr>, result: TakenAttrs)
    requires
        call_ensures(take_check_attrs, (&attrs,), result),
    ensures
        result.checks is Err ==> result.retained.len() == 0,
        result.checks is Ok ==> forall|k: usize| #[trigger]
            result.retained@.contains(k) <==> k < attrs.len() && !(attrs[k as int].ident is Some
                && (attrs[k as int].ident->0@ == "liveness"@ || attrs[k as int].ident->0@
                == "readiness"@ || attrs[k as int].ident->0@ == "startup"@
                || attrs[k as int].ident->0@ == "health"@)),
        forall|m: int, n: int|
            0 <= m < n < result.retained.len() ==> #[trigger] result.retained[m]
                < #[trigger] result.retained[n],
{
    let views = attr_views(attrs@);
    assert(views.len() == attrs.len());
    law_other_attributes_are_kept(views);
    assert(result.checks is Ok <==> taken(views) is Ok);
    if result.checks is Ok {
        assert forall|k: usize| #[trigger]
            result.retained@.contains(k) <==> k < attrs.len() && !(attrs[k as int].ident is Some
                && (attrs[k as int].ident->0@ == "liveness"@ || attrs[k as int].ident->0@
                == "readiness"@ || attrs[k as int].ident->0@ == "startup"@
                || attrs[k as int].ident->0@ == "health"@)) by {
            assert(kept(views).contains(k) == result.retained@.contains(k));
            if k < attrs.len() {
                assert(views[k as int] == attrs[k as int]@);
            }
        }
    }
}

/// In an expansion each method whose check attributes can be read keeps exactly its
/// other attributes, in their order, be it annotated or not. One of which a check
/// attribute is at fault keeps none. These are the attributes that are left when its
/// check attributes are taken.
pub proof fn law_methods_keep_their_other_attributes<'a, T>(
    block: &'a ImplBlock<T>,
    expansion: Expansion<'a, T>,
    place: int,
    result: TakenAttrs,
)
    requires
        call_ensures(expand_health_check::<T>, (block,), expansion),
        0 <= place < block.items.len(),
        block.items[place] is Method,
        call_ensures(take_check_attrs, (&block.items[place]->Method_0.attrs,), result),
    ensures
        expansion.retained.len() == block.items.len(),
        expansion.retained[place]@ == result.retained@,
        ({
            let attrs = block.items[place]->Method_0.attrs;
            let retained = expansion.retained[place];
            &&& result.checks is Err ==> retained.len() == 0
            &&& result.checks is Ok ==> forall|k: usize| #[trigger]
                retained@.contains(k) <==> k < attrs.len() && !(attrs[k as int].ident is Some && (
                attrs[k as int].ident->0@ == "liveness"@ || attrs[k as int].ident->0@
                    == "readiness"@ || attrs[k as int].ident->0@ == "startup"@
                    || attrs[k as int].ident->0@ == "health"@))
            &&& forall|m: int, n: int|
                0 <= m < n < retained.len() ==> #[trigger] retained[m] < #[trigger] retained[n]
        }),
{
    let attrs = block.items[place]->Method_0.attrs;
    law_attributes_that_are_left(attrs, result);
    assert(expansion.retained[place]@ == kept(attr_views(attrs@)));
    let retained = expansion.retained[place];
    assert(retained@ == result.retained@);
    assert forall|m: int, n: int| 0 <= m < n < retained.len() implies #[trigger] retained[m]
        < #[trigger] retained[n] by {
        assert(retained[m] == result.retained[m]);
        assert(retained[n] == result.retained[n]);
    }
}

/// A block without items registers nothing. Neither does an item that is no method,
/// of which no attributes are kept apart.
pub proof fn law_other_items_register_nothing<'a, 'b, T>(
    shorter: &'a ImplBlock<T>,
    longer: &'b ImplBlock<T>,
    before: Expansion<'a, T>,
    after: Expansion<'b, T>,
)
    requires
        call_ensures(expand_health_check::<T>, (shorter,), before),
        call_ensures(expand_health_check::<T>, (longer,), after),
        longer.items@ == shorter.items@.push(ImplItem::Other),
    ensures
        shorter.items.len() == 0 ==> before.registrations.len() == 0,
        after.registrations.len() == before.registrations.len(),
        after.retained.len() == shorter.items.len() + 1,
        after.retained[shorter.items.len() as int].len() == 0,
        forall|n: int|
            0 <= n < before.registrations.len() ==> {
                let earlier = before.registrations[n];
                let same = #[trigger] after.registrations[n];
                &&& same.kind == earlier.kind
                &&& same.name@ == earlier.name@
                &&& same.method == earlier.method
            },
{
    let first = registration_views(before.registrations@);
    let all = registration_views(after.registrations@);
    assert(longer.items@.drop_last() =~= shorter.items@);
    assert(longer.items[shorter.items.len() as int] is Other);
    assert(all =~= first);
    assert(first.len() == before.registrations.len());
    assert(all.len() == after.registrations.len());
    assert forall|n: int| 0 <= n < before.registrations.len() implies {
        let earlier = before.registrations[n];
        let same = #[trigger] after.registrations[n];
        &&& same.kind == earlier.kind
        &&& same.name@ == earlier.name@
        &&& same.method == earlier.method
    } by {
        assert(all[n] == after.registrations[n]@);
        assert(first[n] == before.registrations[n]@);
    }
}

/// A further method leaves the registrations of the earlier items as they are. If it
/// is accepted, each check that its attributes ask for is registered behind them, in
/// their order: for the kind of that check, to be run by this method, and under the
/// name that the attribute gives, or else under exactly the name of the method. If
/// it is not accepted, or not annotated, it registers nothing.
pub proof fn law_method_registers_its_checks<'a, 'b, T>(
    shorter: &'a ImplBlock<T>,
    longer: &'b ImplBlock<T>,
    method: Method,
    result: TakenAttrs,
    valid: Result<(), MethodFault>,
    before: Expansion<'a, T>,
    after: Expansion<'b, T>,
)
    requires
        call_ensures(expand_health_check::<T>, (shorter,), before),
        call_ensures(expand_health_check::<T>, (longer,), after),
        longer.items@ == shorter.items@.push(ImplItem::Method(method)),
        call_ensures(take_check_attrs, (&method.attrs,), result),
        call_ensures(validate_method, (&method,), valid),
    ensures
        result.checks is Ok && valid is Ok ==> after.registrations.len()
            == before.registrations.len() + result.checks->Ok_0.len(),
        result.checks is Err || valid is Err ==> after.registrations.len()
            == before.registrations.len(),
        forall|n: int|
            0 <= n < before.registrations.len() ==> {
                let earlier = before.registrations[n];
                let same = #[trigger] after.registrations[n];
                &&& same.kind == earlier.kind
                &&& same.name@ == earlier.name@
                &&& same.method == earlier.method
            },
        result.checks is Ok && valid is Ok ==> forall|k: int|
            0 <= k < result.checks->Ok_0.len() ==> {
                let check = #[trigger] result.checks->Ok_0[k];
                let added = after.registrations[before.registrations.len() + k];
                &&& added.kind == check.kind
                &&& added.method == shorter.items.len()
                &&& check.name is Some ==> added.name@ == check.name->0@
                &&& check.name is None ==> added.name@ == method.ident@
            },
{
    let place = shorter.items.len() as int;
    let first = registration_views(before.registrations@);
    let all = registration_views(after.registrations@);
    let added = method_registrations(method, place);
    assert(longer.items@.drop_last() =~= shorter.items@);
    assert(longer.items@.last() == ImplItem::Method(method));
    assert(all =~= first + added);
    assert(first.len() == before.registrations.len());
    assert(all.len() == after.registrations.len());
    assert(result.checks is Ok <==> taken(attr_views(method.attrs@)) is Ok);
    assert forall|n: int| 0 <= n < before.registrations.len() implies {
        let earlier = before.registrations[n];
        let same = #[trigger] after.registrations[n];
        &&& same.kind == earlier.kind
        &&& same.name@ == earlier.name@
        &&& same.method == earlier.method
    } by {
        assert(all[n] == after.registrations[n]@);
        assert(first[n] == before.registrations[n]@);
    }
    if result.checks is Ok && valid is Ok {
        let checks = result.checks->Ok_0;
        let views = check_attr_views(checks@);
        assert(taken(attr_views(method.attrs@)) == Ok::<Seq<CheckAttrView>, MethodFault>(views));
        assert(views.len() == checks.len());
        assert(added.len() == checks.len());
        assert forall|k: int| 0 <= k < checks.len() implies {
            let check = #[trigger] checks[k];
            let added = after.registrations[before.registrations.len() + k];
            &&& added.kind == check.kind
            &&& added.method == shorter.items.len()
            &&& check.name is Some ==> added.name@ == check.name->0@
            &&& check.name is None ==> added.name@ == method.ident@
        } by {
            let n = before.registrations.len() + k;
            assert(all[n] == after.registrations[n]@);
            assert(all[n] == added[k]);
            assert(views[k] == checks[k]@);
        }
    }
}

/// Every check that the attributes of an accepted method ask for is registered: for
/// its kind, to be run by that method, and under the name that the attribute gives,
/// or else under exactly the name of the method.
pub proof fn law_every_check_is_registered<'a, T>(
    block: &'a ImplBlock<T>,
    expansion: Expansion<'a, T>,
    place: int,
    result: TakenAttrs,
    valid: Result<(), MethodFault>,
    k: int,
)
    requires
        call_ensures(expand_health_check::<T>, (block,), expansion),
        0 <= place < block.items.len(),
        block.items[place] is Method,
        call_ensures(take_check_attrs, (&block.items[place]->Method_0.attrs,), result),
        call_ensures(validate_method, (&block.items[place]->Method_0,), valid),
        result.checks is Ok,
        valid is Ok,
        0 <= k < result.checks->Ok_0.len(),
    ensures
        exists|n: int|
            {
                let check = result.checks->Ok_0[k];
                &&& 0 <= n < expansion.registrations.len()
                &&& (#[trigger] expansion.registrations[n]).kind == check.kind
                &&& expansion.registrations[n].method == place
                &&& check.name is Some ==> expansion.registrations[n].name@ == check.name->0@
                &&& check.name is None ==> expansion.registrations[n].name@
                    == block.items[place]->Method_0.ident@
            },
{
    let items = block.items@;
    let method = items[place]->Method_0;
    let checks = result.checks->Ok_0;
    let views = check_attr_views(checks@);
    assert(taken(attr_views(method.attrs@)) == Ok::<Seq<CheckAttrView>, MethodFault>(views));
    assert(views[k] == checks[k]@);
    let wanted = method_registrations(method, place)[k];
    assert(method_registrations(method, place).len() == checks.len());
    lemma_registered(items, place, k);
    let all = registration_views(expansion.registrations@);
    let n = choose|n: int| 0 <= n < all.len() && all[n] == wanted;
    assert(all[n] == expansion.registrations[n]@);
}

/// What a method registers is among what its block registers.
proof fn lemma_registered(items: Seq<ImplItem>, place: int, k: int)
    requires
        0 <= place < items.len(),
        items[place] is Method,
        0 <= k < method_registrations(items[place]->Method_0, place).len(),
    ensures
        registrations(items).contains(method_registrations(items[place]->Method_0, place)[k]),
    decreases items.len(),
{
    let shorter = items.drop_last();
    let last = items.len() - 1;
    let before = registrations(shorter);
    let all = registrations(items);
    let wanted = method_registrations(items[place]->Method_0, place)[k];
    if place < last {
        assert(shorter[place] == items[place]);
        lemma_registered(shorter, place, k);
        let n = choose|n: int| 0 <= n < before.len() && before[n] == wanted;
        assert(all[n] == wanted);
    } else {
        assert(all[before.len() + k] == wanted);
    }
}

/// The faults of items are reported in the order of the items: none without items,
/// and of a further item what is wrong with it, behind those of the earlier ones. Of
/// a method that is the first fault of its check attributes, or else, if it is
/// annotated, what keeps it from being a health check.
pub proof fn law_faults_of_items(
    items: Seq<ImplItem>,
    method: Method,
    result: TakenAttrs,
    valid: Result<(), MethodFault>,
)
    requires
        call_ensures(take_check_attrs, (&method.attrs,), result),
        call_ensures(validate_method, (&method,), valid),
    ensures
        item_faults(Seq::<ImplItem>::empty()).len() == 0,
        item_faults(items.push(ImplItem::Other)) == item_faults(items),
        ({
            let after = item_faults(items.push(ImplItem::Method(method)));
            &&& result.checks is Err ==> after == item_faults(items).push(
                Fault {
                    site: Site::Method(items.len() as usize, result.checks->Err_0.part),
                    problem: result.checks->Err_0.problem,
                },
            )
            &&& result.checks is Ok && result.checks->Ok_0.len() > 0 && valid is Err ==> after
                == item_faults(items).push(
                Fault {
                    site: Site::Method(items.len() as usize, valid->Err_0.part),
                    problem: valid->Err_0.problem,
                },
            )
            &&& result.checks is Ok && (result.checks->Ok_0.len() == 0 || valid is Ok) ==> after
                == item_faults(items)
        }),
{
    let more = items.push(ImplItem::Method(method));
    assert(more.drop_last() =~= items);
    assert(more.last() == ImplItem::Method(method));
    let other = items.push(ImplItem::Other);
    assert(other.drop_last() =~= items);
    assert(item_faults(other) =~= item_faults(items));
    if result.checks is Ok {
        let views = check_attr_views(result.checks->Ok_0@);
        assert(views.len() == result.checks->Ok_0.len());
    }
    let added = method_faults(method, items.len() as int);
    assert(item_faults(more) == item_faults(items) + added);
    if result.checks is Err {
        assert(item_faults(more) =~= item_faults(items).push(added[0]));
    } else if result.checks->Ok_0.len() > 0 && valid is Err {
        assert(item_faults(more) =~= item_faults(items).push(added[0]));
    } else {
        assert(item_faults(more) =~= item_faults(items));
    }
}

/// The errors of an expansion are, in this order: that the block implements a trait,
/// the faults of its items, and that no method has a check attribute. What is
/// generated stands under the head of the block in any case.
pub proof fn law_errors_of_an_expansion<'a, T>(
    block: &'a ImplBlock<T>,
    expansion: Expansion<'a, T>,
)
    requires
        call_ensures(expand_health_check::<T>, (block,), expansion),
    ensures
        *expansion.provider == block.head,
        *expansion.conversion == block.head,
        expansion.errors@ == (if block.is_trait_impl {
            seq![Fault { site: Site::SelfType, problem: Problem::TraitImpl }]
        } else {
            Seq::empty()
        }) + item_faults(block.items@) + (if exists|i: int, k: int|
            0 <= i < block.items.len() && block.items[i] is Method && 0 <= k
                < block.items[i]->Method_0.attrs.len() && has_check_name(
                (#[trigger] block.items[i]->Method_0.attrs[k])@,
            ) {
            Seq::empty()
        } else {
            seq![Fault { site: Site::SelfType, problem: Problem::NoChecks }]
        }),
{
    let items = block.items@;
    if any_annotated(items) {
        let i = choose|i: int|
            0 <= i < items.len() && (#[trigger] items[i]) is Method && is_annotated(
                items[i]->Method_0,
            );
        let attrs = items[i]->Method_0.attrs;
        let views = attr_views(attrs@);
        lemma_annotated(views);
        let k = choose|k: int| 0 <= k < views.len() && has_check_name(#[trigger] views[k]);
        assert(views[k] == attrs[k]@);
        assert(has_check_name(block.items[i]->Method_0.attrs[k]@));
    }
    if exists|i: int, k: int|
        0 <= i < block.items.len() && block.items[i] is Method && 0 <= k
            < block.items[i]->Method_0.attrs.len() && has_check_name(
            (#[trigger] block.items[i]->Method_0.attrs[k])@,
        ) {
        let (i, k) = choose|i: int, k: int|
            0 <= i < block.items.len() && block.items[i] is Method && 0 <= k
                < block.items[i]->Method_0.attrs.len() && has_check_name(
                (#[trigger] block.items[i]->Method_0.attrs[k])@,
            );
        let attrs = items[i]->Method_0.attrs;
        let views = attr_views(attrs@);
        assert(views[k] == attrs[k]@);
        assert(has_check_name(views[k]));
        lemma_annotated(views);
        assert(is_annotated(items[i]->Method_0));
        assert(any_annotated(items));
    }
}

} // verus!
