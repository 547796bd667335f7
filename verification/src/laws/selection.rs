//! Which checks an endpoint runs, where it stands, and what its status means.
use crate::check::OutcomeView;
use crate::endpoint::{endpoint_path, layout};
use crate::json::Json;
use crate::kind::{covers, Kind};
use crate::registry::{one_for_each, selected, RegisteredCheckView};
use crate::response::{aggregate, all_up, response_of, CheckResponseView};
use crate::status::Status;
use vstd::prelude::*;

verus! {

/// A request without a kind runs all registered checks, in the order of
/// registration.
pub proof fn law_aggregate_runs_all<P>(checks: Seq<RegisteredCheckView<P>>)
    ensures
        selected(checks, None) == checks,
    decreases checks.len(),
{
    reveal(Seq::filter);
    if checks.len() > 0 {
        law_aggregate_runs_all(checks.drop_last());
        assert(checks.drop_last().push(checks.last()) == checks);
    }
}

/// A request for a kind runs exactly the registered checks of that kind.
pub proof fn law_kind_runs_its_checks<P>(checks: Seq<RegisteredCheckView<P>>, kind: Kind)
    ensures
        forall|check: RegisteredCheckView<P>| #[trigger]
            selected(checks, Some(kind)).contains(check) <==> checks.contains(check) && check.kind
                == kind,
{
    let wanted = |check: RegisteredCheckView<P>| covers(Some(kind), check.kind);
    assert forall|check: RegisteredCheckView<P>| #[trigger]
        selected(checks, Some(kind)).contains(check) <==> checks.contains(check) && check.kind
            == kind by {
        let chosen = checks.filter(wanted);
        if checks.contains(check) && wanted(check) {
            let i = choose|i: int| 0 <= i < checks.len() && checks[i] == check;
            checks.lemma_filter_contains(wanted, i);
        }
        if chosen.contains(check) {
            let i = choose|i: int| 0 <= i < chosen.len() && chosen[i] == check;
            checks.lemma_filter_pred(wanted, i);
            checks.lemma_filter_contains_rev(wanted, check);
        }
    }
}

/// Checks that are registered later are run after those that are registered
/// earlier, and neither changes which of the others are run.
pub proof fn law_selection_keeps_order<P>(
    earlier: Seq<RegisteredCheckView<P>>,
    later: Seq<RegisteredCheckView<P>>,
    wanted: Option<Kind>,
)
    ensures
        selected(earlier + later, wanted) == selected(earlier, wanted) + selected(later, wanted),
{
    Seq::filter_distributes_over_add(
        earlier,
        later,
        |check: RegisteredCheckView<P>| covers(wanted, check.kind),
    );
}

/// A check that is registered for several kinds is run by the endpoint of each of
/// them, once for each time the kind was given, and by no other.
pub proof fn law_shared_check_runs_for_each_kind<P>(
    kinds: Seq<Kind>,
    name: Seq<char>,
    check: P,
    kind: Kind,
)
    ensures
        selected(one_for_each(kinds, name, check), Some(kind)) == one_for_each(
            kinds.filter(|k: Kind| k == kind),
            name,
            check,
        ),
    decreases kinds.len(),
{
    reveal(Seq::filter);
    let all = one_for_each(kinds, name, check);
    if kinds.len() > 0 {
        law_shared_check_runs_for_each_kind(kinds.drop_last(), name, check, kind);
        assert(all.drop_last() == one_for_each(kinds.drop_last(), name, check));
        assert(all.last() == RegisteredCheckView { name, kind: kinds.last(), check });
    }
    assert(selected(all, Some(kind)) =~= one_for_each(
        kinds.filter(|k: Kind| k == kind),
        name,
        check,
    ));
}

/// Under any mount path the endpoints have different paths.
pub proof fn law_endpoint_paths_differ(mount: Seq<char>)
    ensures
        forall|i: int, j: int|
            0 <= i < j < layout(mount).len() ==> (#[trigger] layout(mount)[i]).path != (
            #[trigger] layout(mount)[j]).path,
{
    reveal_strlit("/live");
    reveal_strlit("/ready");
    reveal_strlit("/started");
    let live = endpoint_path(mount, Some(Kind::Liveness));
    let ready = endpoint_path(mount, Some(Kind::Readiness));
    let started = endpoint_path(mount, Some(Kind::Startup));
    assert(mount.len() < live.len() < ready.len() < started.len());
}

/// The aggregate status is `UP`, and the HTTP status code 200, exactly if every
/// check is `UP`. Otherwise the code is 503.
pub proof fn law_up_exactly_if_all_up(checks: Seq<CheckResponseView>)
    ensures
        aggregate(checks) == Status::Up <==> all_up(checks),
        aggregate(checks).code() == 200 <==> all_up(checks),
        aggregate(checks).code() == 503 <==> !all_up(checks),
{
}

/// Where no check is selected the status is `UP`.
pub proof fn law_nothing_selected_is_up(checks: Seq<CheckResponseView>)
    requires
        checks.len() == 0,
    ensures
        aggregate(checks) == Status::Up,
{
}

/// One check more can only turn the status from `UP` to `DOWN`, and does so
/// exactly if it is `DOWN` itself.
pub proof fn law_one_check_more(checks: Seq<CheckResponseView>, check: CheckResponseView)
    ensures
        aggregate(checks.push(check)) == (if aggregate(checks) == Status::Up {
            check.status
        } else {
            Status::Down
        }),
{
    let more = checks.push(check);
    assert(more[checks.len() as int] == check);
    assert forall|i: int| 0 <= i < checks.len() implies #[trigger] checks[i] == more[i] by {}
    if aggregate(checks) == Status::Up && check.status == Status::Up {
        assert(all_up(more));
    }
}

/// A check that fails is answered under its own name as `DOWN`, with the message
/// of its error as its only data, and makes the aggregate status `DOWN`.
pub proof fn law_failed_check_is_down(
    name: Seq<char>,
    message: Seq<char>,
    checks: Seq<CheckResponseView>,
)
    requires
        checks.contains(response_of(name, Err(message))),
    ensures
        response_of(name, Err(message)).name == name,
        response_of(name, Err(message)).status == Status::Down,
        response_of(name, Err(message)).data == seq![("error"@, Json::Text(message))],
        aggregate(checks) == Status::Down,
        aggregate(checks).code() == 503,
{
    let response = response_of(name, Err::<crate::check::CheckView, Seq<char>>(message));
    let i = choose|i: int| 0 <= i < checks.len() && checks[i] == response;
    assert(checks[i].status == Status::Down);
}

/// A check that returns a result is answered under its own name with exactly that
/// result.
pub proof fn law_returned_result_is_kept(name: Seq<char>, outcome: OutcomeView)
    requires
        outcome is Ok,
    ensures
        response_of(name, outcome) == (CheckResponseView {
            name,
            status: outcome->Ok_0.status,
            data: outcome->Ok_0.data,
        }),
{
}

} // verus!
