//! What a registry holds, and what it hands out again.
use crate::kind::{covers, Kind};
use crate::registry::{
    one_for_each, registered_views, selected, Health, HealthBuilder, HealthCheck, ProvidedCheck,
    Provider, RegisteredCheck, RegisteredCheckView,
};
use crate::run::Run;
use std::sync::Arc;
use vstd::prelude::*;

verus! {

/// The places of the selected checks among the registered ones.
proof fn lemma_places<P>(checks: Seq<RegisteredCheckView<P>>, wanted: Option<Kind>) -> (places:
    Seq<int>)
    ensures
        places.len() == selected(checks, wanted).len(),
        forall|i: int|
            0 <= i < places.len() ==> 0 <= #[trigger] places[i] < checks.len() && selected(
                checks,
                wanted,
            )[i] == checks[places[i]] && (wanted is None || wanted == Some(checks[places[i]].kind)),
        forall|i: int, j: int|
            0 <= i < j < places.len() ==> #[trigger] places[i] < #[trigger] places[j],
        forall|j: int|
            0 <= j < checks.len() && (wanted is None || wanted == Some(
                (#[trigger] checks[j]).kind,
            )) ==> places.contains(j),
    decreases checks.len(),
{
    reveal(Seq::filter);
    if checks.len() == 0 {
        Seq::empty()
    } else {
        let shorter = checks.drop_last();
        let before = lemma_places(shorter, wanted);
        let last = checks.len() - 1;
        if covers(wanted, checks[last].kind) {
            let places = before.push(last);
            assert forall|j: int|
                0 <= j < checks.len() && (wanted is None || wanted == Some(
                    (#[trigger] checks[j]).kind,
                )) implies places.contains(j) by {
                if j < last {
                    assert(shorter[j] == checks[j]);
                    assert(before.contains(j));
                    let n = choose|n: int| 0 <= n < before.len() && before[n] == j;
                    assert(places[n] == j);
                } else {
                    assert(places[before.len() as int] == j);
                }
            }
            places
        } else {
            assert forall|j: int|
                0 <= j < checks.len() && (wanted is None || wanted == Some(
                    (#[trigger] checks[j]).kind,
                )) implies before.contains(j) by {
                assert(shorter[j] == checks[j]);
            }
            before
        }
    }
}

/// The checks that a registry selects are those of the wanted kind, or all of them
/// if none is wanted, each once, in the order of registration, and each with the
/// name, the kind and the procedure with which it was registered.
pub proof fn law_selected_checks<P>(
    health: Health<P>,
    wanted: Option<Kind>,
    checks: Vec<RegisteredCheck<P>>,
)
    requires
        call_ensures(Health::<P>::select, (&health, wanted), checks),
    ensures
        exists|places: Seq<int>|
            {
                &&& #[trigger] places.len() == checks.len()
                &&& forall|i: int|
                    0 <= i < places.len() ==> {
                        let registered = health@[places[i]];
                        &&& 0 <= #[trigger] places[i] < health@.len()
                        &&& checks[i].name@ == registered.name
                        &&& checks[i].kind == registered.kind
                        &&& *checks[i].check == registered.check
                        &&& wanted is None || wanted == Some(registered.kind)
                    }
                &&& forall|i: int, j: int|
                    0 <= i < j < places.len() ==> #[trigger] places[i] < #[trigger] places[j]
                &&& forall|j: int|
                    0 <= j < health@.len() && (wanted is None || wanted == Some(
                        (#[trigger] health@[j]).kind,
                    )) ==> places.contains(j)
            },
{
    let places = lemma_places(health@, wanted);
    let views = registered_views(checks@);
    assert(views.len() == checks.len());
    assert forall|i: int| 0 <= i < places.len() implies {
        let registered = health@[places[i]];
        &&& 0 <= #[trigger] places[i] < health@.len()
        &&& checks[i].name@ == registered.name
        &&& checks[i].kind == registered.kind
        &&& *checks[i].check == registered.check
        &&& wanted is None || wanted == Some(registered.kind)
    } by {
        assert(views[i] == checks[i]@);
    }
    assert(places.len() == checks.len());
}

/// A run of the checks that a request covers has, in the order of registration,
/// exactly the registered checks of the wanted kind, or all of them if none is
/// wanted. Each stands under its own name with its own procedure, none is started,
/// and none has an answer.
pub proof fn law_run_of_registry<P>(health: Health<P>, wanted: Option<Kind>, run: Run<P>)
    requires
        call_ensures(Health::<P>::run, (&health, wanted), run),
    ensures
        run@.started == 0,
        run@.cursor == 0,
        run@.all_ready,
        exists|places: Seq<int>|
            {
                &&& #[trigger] places.len() == run@.pending.len()
                &&& forall|i: int|
                    0 <= i < places.len() ==> {
                        let registered = health@[places[i]];
                        &&& 0 <= #[trigger] places[i] < health@.len()
                        &&& run@.pending[i].name == registered.name
                        &&& run@.pending[i].check == registered.check
                        &&& run@.pending[i].response is None
                        &&& wanted is None || wanted == Some(registered.kind)
                    }
                &&& forall|i: int, j: int|
                    0 <= i < j < places.len() ==> #[trigger] places[i] < #[trigger] places[j]
                &&& forall|j: int|
                    0 <= j < health@.len() && (wanted is None || wanted == Some(
                        (#[trigger] health@[j]).kind,
                    )) ==> places.contains(j)
            },
{
    let places = lemma_places(health@, wanted);
    let chosen = selected(health@, wanted);
    assert(run@.pending.len() == chosen.len());
    assert forall|i: int| 0 <= i < places.len() implies {
        let registered = health@[places[i]];
        &&& 0 <= #[trigger] places[i] < health@.len()
        &&& run@.pending[i].name == registered.name
        &&& run@.pending[i].check == registered.check
        &&& run@.pending[i].response is None
        &&& wanted is None || wanted == Some(registered.kind)
    } by {
        assert(chosen[i] == health@[places[i]]);
    }
    assert(places.len() == run@.pending.len());
}

/// What a run hands out at a place to be started is the procedure of the check at
/// that place.
pub proof fn law_own_procedure<P>(
    checks: Vec<RegisteredCheck<P>>,
    run: Run<P>,
    place: usize,
    procedure: &Arc<P>,
)
    requires
        call_ensures(Run::<P>::new, (checks,), run),
        place < checks.len(),
        call_ensures(Run::<P>::check, (&run, place), procedure),
    ensures
        run@.pending.len() == checks.len(),
        run@.pending[place as int].name == checks[place as int].name@,
        **procedure == *checks[place as int].check,
{
    let views = registered_views(checks@);
    assert(views.len() == checks.len());
    assert(views[place as int] == checks[place as int]@);
}

/// Registering one check for several kinds adds it once for each of them, in their
/// order, under the same name and with the same procedure, behind what was
/// registered before.
pub proof fn law_check_for_several_kinds<P>(
    builder: HealthBuilder<P>,
    kinds: &[Kind],
    name: &str,
    check: P,
    registered: HealthBuilder<P>,
)
    requires
        call_ensures(HealthBuilder::<P>::check_for, (builder, kinds, name, check), registered),
    ensures
        registered@.len() == builder@.len() + kinds@.len(),
        forall|i: int| 0 <= i < builder@.len() ==> #[trigger] registered@[i] == builder@[i],
        forall|i: int|
            0 <= i < kinds@.len() ==> {
                let added = registered@[builder@.len() + i];
                &&& added.kind == #[trigger] kinds@[i]
                &&& added.name == name@
                &&& added.check == check
            },
{
    let added = one_for_each(kinds@, name@, check);
    assert(added.len() == kinds@.len());
    assert forall|i: int| 0 <= i < kinds@.len() implies {
        let added = registered@[builder@.len() + i];
        &&& added.kind == #[trigger] kinds@[i]
        &&& added.name == name@
        &&& added.check == check
    } by {
        assert(registered@[builder@.len() + i] == added[i]);
    }
}

/// Registering a check of one kind and registering it for that kind alone are the
/// same.
pub proof fn law_check_of_one_kind<P>(
    builder: HealthBuilder<P>,
    kind: Kind,
    kinds: &[Kind],
    name: &str,
    check: P,
    one: HealthBuilder<P>,
    several: HealthBuilder<P>,
)
    requires
        kinds@ == seq![kind],
        match kind {
            Kind::Liveness => call_ensures(
                HealthBuilder::<P>::liveness,
                (builder, name, check),
                one,
            ),
            Kind::Readiness => call_ensures(
                HealthBuilder::<P>::readiness,
                (builder, name, check),
                one,
            ),
            Kind::Startup => call_ensures(HealthBuilder::<P>::startup, (builder, name, check), one),
        },
        call_ensures(HealthBuilder::<P>::check_for, (builder, kinds, name, check), several),
    ensures
        one@ == several@,
        one@ == builder@.push(RegisteredCheckView { name: name@, kind, check }),
{
    let added = one_for_each(kinds@, name@, check);
    assert(added =~= seq![RegisteredCheckView { name: name@, kind, check }]);
    assert(builder@ + added =~= builder@.push(RegisteredCheckView { name: name@, kind, check }));
}

/// A provider registers the checks of which it was made, each under its own name,
/// for its own kind and with its own procedure, in their order, behind what was
/// registered before.
pub proof fn law_provider_registers_its_checks<P: Send + Sync + 'static>(
    checks: Vec<ProvidedCheck<P>>,
    provider: Provider<P>,
    builder: HealthBuilder<P>,
    registered: HealthBuilder<P>,
)
    requires
        call_ensures(Provider::<P>::new, (checks,), provider),
        call_ensures(
            <Provider<P> as HealthCheck<P>>::register,
            (provider, builder),
            registered,
        ),
    ensures
        registered@.len() == builder@.len() + checks.len(),
        forall|i: int| 0 <= i < builder@.len() ==> #[trigger] registered@[i] == builder@[i],
        forall|i: int|
            0 <= i < checks.len() ==> {
                let added = registered@[builder@.len() + i];
                &&& added.kind == (#[trigger] checks[i]).kind
                &&& added.name == checks[i].name@
                &&& added.check == checks[i].check
            },
{
    let added = crate::registry::provided_views(checks@);
    assert(added.len() == checks.len());
    assert forall|i: int| 0 <= i < checks.len() implies {
        let added = registered@[builder@.len() + i];
        &&& added.kind == (#[trigger] checks[i]).kind
        &&& added.name == checks[i].name@
        &&& added.check == checks[i].check
    } by {
        assert(registered@[builder@.len() + i] == added[i]);
        assert(added[i] == checks[i]@);
    }
}

/// No check of a registry has an empty name.
pub proof fn law_no_name_is_empty<P>(builder: HealthBuilder<P>, health: Health<P>)
    requires
        call_ensures(HealthBuilder::<P>::build, (builder,), health),
    ensures
        health@ == builder@,
        forall|i: int| 0 <= i < health@.len() ==> (#[trigger] health@[i]).name.len() > 0,
{
}

} // verus!
