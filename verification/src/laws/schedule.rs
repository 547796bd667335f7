//! What a run of checks comes to, whatever the order in which they finish.
use crate::check::OutcomeView;
use crate::kind::Kind;
use crate::registry::{selected, RegisteredCheckView};
use crate::response::{aggregate, all_up, response_of, CheckResponseView};
use crate::run::{lemma_next_pending, Action, PendingCheckView, RunView};
use crate::status::Status;
use vstd::prelude::*;

verus! {

/// What each check answers when it is polled in a round: its outcome, if it has
/// finished by then.
pub type Answers = spec_fn(int) -> Option<OutcomeView>;

/// Taking an answer moves the cursor on, and keeps the run well-formed.
pub proof fn lemma_answered<P>(run: RunView<P>, answer: Option<OutcomeView>)
    requires
        run.wf(),
        run.is_polling(),
    ensures
        run.answered(answer).wf(),
        run.cursor < run.answered(answer).cursor <= run.pending.len(),
        run.answered(answer).pending.len() == run.pending.len(),
{
    let after = run.answered(answer);
    let pending = run.pending.update(run.cursor, run.pending[run.cursor].polled(answer));
    lemma_next_pending(pending, run.cursor + 1);
    assert(forall|i: int|
        0 <= i < run.pending.len() && i != run.cursor ==> #[trigger] pending[i] == run.pending[i]);
    if !after.all_ready {
        if answer is None {
            assert(after.pending[run.cursor].response is None);
        } else {
            let i = choose|i: int|
                0 <= i < run.cursor && (#[trigger] run.pending[i]).response is None;
            assert(after.pending[i].response is None);
        }
    }
}

/// Beginning a round keeps the run well-formed.
proof fn lemma_begun<P>(run: RunView<P>)
    requires
        run.wf(),
    ensures
        run.begun().wf(),
        run.begun().is_starting() == run.is_starting(),
{
    lemma_next_pending(run.pending, 0);
}

/// The places of the checks that are started before any is polled, in the order
/// in which they are.
pub open spec fn starts<P>(run: RunView<P>) -> Seq<int>
    decreases run.pending.len() - run.started,
{
    if run.is_starting() {
        seq![run.started] + starts(run.check_started())
    } else {
        Seq::empty()
    }
}

/// The run after every check was started.
pub open spec fn launched<P>(run: RunView<P>) -> RunView<P>
    decreases run.pending.len() - run.started,
{
    if run.is_starting() {
        launched(run.check_started())
    } else {
        run
    }
}

/// What starting the checks does.
proof fn lemma_launched<P>(run: RunView<P>)
    requires
        run.wf(),
    ensures
        launched(run) == (RunView { started: run.pending.len() as int, ..run }),
        launched(run).wf(),
        !launched(run).is_starting(),
        starts(run).len() == run.pending.len() - run.started,
        forall|n: int| 0 <= n < starts(run).len() ==> #[trigger] starts(run)[n] == run.started + n,
    decreases run.pending.len() - run.started,
{
    if run.is_starting() {
        lemma_launched(run.check_started());
    }
}

/// Every check is started exactly once, in the order of registration, and none is
/// polled in between: when all were started none has an answer yet, and the first
/// round polls from the first check on.
pub proof fn law_every_check_is_started_once<P>(checks: Seq<RegisteredCheckView<P>>)
    requires
        checks.len() <= usize::MAX,
    ensures
        starts(RunView::new(checks)) == Seq::new(checks.len(), |i: int| i),
        launched(RunView::new(checks)) == (RunView {
            started: checks.len() as int,
            ..RunView::new(checks)
        }),
        forall|i: int|
            0 <= i < checks.len() ==> (#[trigger] launched(
                RunView::new(checks),
            ).pending[i]).response is None,
        launched(RunView::new(checks)).action() == (if checks.len() > 0 {
            Action::Poll(0)
        } else {
            Action::Done
        }),
{
    lemma_launched(RunView::new(checks));
    assert(starts(RunView::new(checks)) =~= Seq::new(checks.len(), |i: int| i));
}

/// A check that is to be started is the first that was not, and until then no
/// check has an answer. A check is polled, and a run waits or is done, only after
/// every check was started.
pub proof fn law_nothing_is_polled_before_all_are_started<P>(run: RunView<P>)
    requires
        run.wf(),
    ensures
        match run.action() {
            Action::Start(place) => place == run.started < run.pending.len() && forall|i: int|
                0 <= i < run.pending.len() ==> (#[trigger] run.pending[i]).response is None,
            _ => run.started == run.pending.len(),
        },
{
}

/// The run after the rest of a round in which the checks answer as given.
pub open spec fn round<P>(run: RunView<P>, answers: Answers) -> RunView<P>
    decreases run.pending.len() - run.cursor,
    when run.wf()
{
    if run.is_polling() {
        proof {
            lemma_answered(run, answers(run.cursor));
        }
        round(run.answered(answers(run.cursor)), answers)
    } else {
        run
    }
}

/// The places of the checks that are polled in the rest of the round.
pub open spec fn polled<P>(run: RunView<P>, answers: Answers) -> Seq<int>
    decreases run.pending.len() - run.cursor,
    when run.wf()
{
    if run.is_polling() {
        proof {
            lemma_answered(run, answers(run.cursor));
        }
        seq![run.cursor] + polled(run.answered(answers(run.cursor)), answers)
    } else {
        Seq::empty()
    }
}

/// A check after a round in which it answers as given: if it had not finished, it
/// was polled.
pub open spec fn after_round<P>(
    check: PendingCheckView<P>,
    answer: Option<OutcomeView>,
) -> PendingCheckView<P> {
    if check.response is Some {
        check
    } else {
        check.polled(answer)
    }
}

/// What the rest of a round does.
proof fn lemma_round<P>(run: RunView<P>, answers: Answers)
    requires
        run.wf(),
        !run.is_starting(),
    ensures
        !round(run, answers).is_starting(),
        round(run, answers).wf(),
        !round(run, answers).is_polling(),
        round(run, answers).pending.len() == run.pending.len(),
        forall|i: int|
            0 <= i < run.cursor ==> #[trigger] round(run, answers).pending[i] == run.pending[i],
        forall|i: int|
            run.cursor <= i < run.pending.len() ==> #[trigger] round(run, answers).pending[i]
                == after_round(run.pending[i], answers(i)),
        forall|i: int| #[trigger]
            polled(run, answers).contains(i) <==> run.cursor <= i < run.pending.len()
                && run.pending[i].response is None,
        forall|m: int, n: int|
            0 <= m < n < polled(run, answers).len() ==> #[trigger] polled(run, answers)[m]
                < #[trigger] polled(run, answers)[n],
    decreases run.pending.len() - run.cursor,
{
    if run.is_polling() {
        let answer = answers(run.cursor);
        let next = run.answered(answer);
        lemma_answered(run, answer);
        lemma_round(next, answers);
        lemma_next_pending(next.pending, run.cursor + 1);
        let end = round(next, answers);
        assert(round(run, answers) == end);
        assert forall|i: int| run.cursor <= i < run.pending.len() implies #[trigger] end.pending[i]
            == after_round(run.pending[i], answers(i)) by {
            if i < next.cursor {
                assert(end.pending[i] == next.pending[i]);
            }
        }
        assert forall|i: int| 0 <= i < run.cursor implies #[trigger] end.pending[i]
            == run.pending[i] by {
            assert(end.pending[i] == next.pending[i]);
        }
        let rest = polled(next, answers);
        let all = polled(run, answers);
        assert(all == seq![run.cursor] + rest);
        assert forall|i: int| #[trigger] all.contains(i) <==> run.cursor <= i < run.pending.len()
            && run.pending[i].response is None by {
            if all.contains(i) {
                let n = choose|n: int| 0 <= n < all.len() && all[n] == i;
                if n > 0 {
                    assert(rest[n - 1] == i);
                    assert(rest.contains(i));
                    assert(next.pending[i] == run.pending[i]);
                }
            }
            if run.cursor <= i < run.pending.len() && run.pending[i].response is None {
                if i == run.cursor {
                    assert(all[0] == i);
                } else {
                    assert(next.pending[i] == run.pending[i]);
                    assert(rest.contains(i));
                    let n = choose|n: int| 0 <= n < rest.len() && rest[n] == i;
                    assert(all[n + 1] == i);
                }
            }
        }
        assert forall|m: int, n: int| 0 <= m < n < all.len() implies #[trigger] all[m]
            < #[trigger] all[n] by {
            assert(rest[n - 1] == all[n]);
            if m == 0 {
                assert(rest.contains(rest[n - 1]));
            } else {
                assert(rest[m - 1] == all[m]);
            }
        }
    }
}

/// In a round every check that has not finished is polled exactly once, in the
/// order of registration, before the run waits for any of them, and a check that
/// has finished is not polled again. The run is done after the round exactly if
/// every check has finished.
pub proof fn law_round_polls_every_unfinished_check<P>(run: RunView<P>, answers: Answers)
    requires
        run.wf(),
        !run.is_starting(),
    ensures
        forall|i: int| #[trigger]
            polled(run.begun(), answers).contains(i) <==> 0 <= i < run.pending.len()
                && run.pending[i].response is None,
        forall|m: int, n: int|
            0 <= m < n < polled(run.begun(), answers).len() ==> #[trigger] polled(
                run.begun(),
                answers,
            )[m] < #[trigger] polled(run.begun(), answers)[n],
        round(run.begun(), answers).pending.len() == run.pending.len(),
        forall|i: int|
            0 <= i < run.pending.len() ==> #[trigger] round(run.begun(), answers).pending[i]
                == after_round(run.pending[i], answers(i)),
        round(run.begun(), answers).action() == Action::Done <==> forall|i: int|
            0 <= i < run.pending.len() ==> (#[trigger] round(
                run.begun(),
                answers,
            ).pending[i]).response is Some,
        round(run.begun(), answers).action() != Action::Done ==> round(
            run.begun(),
            answers,
        ).action() == Action::Wait,
{
    lemma_begun(run);
    lemma_next_pending(run.pending, 0);
    lemma_round(run.begun(), answers);
}

/// A run that polls a check polls one that has not finished.
pub proof fn law_finished_check_is_not_polled<P>(run: RunView<P>, place: usize)
    requires
        run.wf(),
        run.action() == Action::Poll(place),
    ensures
        place < run.pending.len(),
        run.pending[place as int].response is None,
{
}

/// The run after rounds in which the checks answer as given.
pub open spec fn rounds<P>(run: RunView<P>, schedule: Seq<Answers>) -> RunView<P>
    decreases schedule.len(),
{
    if schedule.len() == 0 {
        run
    } else {
        round(rounds(run, schedule.drop_last()).begun(), schedule.last())
    }
}

/// Whether every check comes to the given outcome, whenever it finishes.
pub open spec fn comes_to(schedule: Seq<Answers>, outcomes: Seq<OutcomeView>) -> bool {
    forall|n: int, i: int|
        0 <= n < schedule.len() && 0 <= i < outcomes.len() && (#[trigger] schedule[n](i)) is Some
            ==> schedule[n](i) == Some(outcomes[i])
}

/// The responses of checks that come to the given outcomes.
pub open spec fn responses_to<P>(
    checks: Seq<RegisteredCheckView<P>>,
    outcomes: Seq<OutcomeView>,
) -> Seq<CheckResponseView> {
    Seq::new(checks.len(), |i: int| response_of(checks[i].name, outcomes[i]))
}

/// A check that has finished within the rounds has the response of its outcome.
proof fn lemma_rounds<P>(
    checks: Seq<RegisteredCheckView<P>>,
    schedule: Seq<Answers>,
    outcomes: Seq<OutcomeView>,
)
    requires
        checks.len() <= usize::MAX,
        outcomes.len() == checks.len(),
        comes_to(schedule, outcomes),
    ensures
        rounds(launched(RunView::new(checks)), schedule).wf(),
        !rounds(launched(RunView::new(checks)), schedule).is_starting(),
        rounds(launched(RunView::new(checks)), schedule).pending.len() == checks.len(),
        forall|i: int|
            0 <= i < checks.len() ==> {
                let check = #[trigger] rounds(launched(RunView::new(checks)), schedule).pending[i];
                &&& check.name == checks[i].name
                &&& check.response is Some ==> check.response == Some(
                    response_of(checks[i].name, outcomes[i]),
                )
            },
    decreases schedule.len(),
{
    let start = launched(RunView::new(checks));
    lemma_launched(RunView::new(checks));
    if schedule.len() > 0 {
        let shorter = schedule.drop_last();
        assert forall|n: int, i: int|
            0 <= n < shorter.len() && 0 <= i < outcomes.len() && (#[trigger] shorter[n](
                i,
            )) is Some implies shorter[n](i) == Some(outcomes[i]) by {
            assert(shorter[n] == schedule[n]);
            assert(schedule[n](i) is Some);
        }
        lemma_rounds(checks, shorter, outcomes);
        let before = rounds(start, shorter);
        let answers = schedule.last();
        lemma_begun(before);
        lemma_round(before.begun(), answers);
        law_round_polls_every_unfinished_check(before, answers);
        let after = rounds(start, schedule);
        assert(after == round(before.begun(), answers));
        assert forall|i: int| 0 <= i < checks.len() implies {
            let check = #[trigger] after.pending[i];
            &&& check.name == checks[i].name
            &&& check.response is Some ==> check.response == Some(
                response_of(checks[i].name, outcomes[i]),
            )
        } by {
            assert(after.pending[i] == after_round(before.pending[i], answers(i)));
            assert(answers == schedule[schedule.len() - 1]);
            if answers(i) is Some {
                assert(schedule[schedule.len() - 1](i) is Some);
            }
        }
    }
}

/// Once a run is done, its responses are those of the outcomes of its checks, in
/// the order of registration, whatever the order in which the checks finished and
/// however many rounds it took.
pub proof fn law_responses_follow_registration<P>(
    checks: Seq<RegisteredCheckView<P>>,
    schedule: Seq<Answers>,
    outcomes: Seq<OutcomeView>,
)
    requires
        checks.len() <= usize::MAX,
        outcomes.len() == checks.len(),
        comes_to(schedule, outcomes),
        rounds(launched(RunView::new(checks)), schedule).action() == Action::Done,
    ensures
        rounds(launched(RunView::new(checks)), schedule).responses() == responses_to(
            checks,
            outcomes,
        ),
{
    lemma_rounds(checks, schedule, outcomes);
    let end = rounds(launched(RunView::new(checks)), schedule);
    assert forall|i: int| 0 <= i < checks.len() implies #[trigger] end.responses()[i]
        == responses_to(checks, outcomes)[i] by {
        assert(end.pending[i].response is Some);
    }
    assert(end.responses() =~= responses_to(checks, outcomes));
}

/// Whether the check at this place finishes within the rounds.
pub open spec fn finishes(schedule: Seq<Answers>, place: int) -> bool {
    exists|n: int| 0 <= n < schedule.len() && (#[trigger] schedule[n](place)) is Some
}

/// The checks that have a response after the rounds are those that finish within
/// them.
proof fn lemma_finished<P>(checks: Seq<RegisteredCheckView<P>>, schedule: Seq<Answers>)
    requires
        checks.len() <= usize::MAX,
    ensures
        rounds(launched(RunView::new(checks)), schedule).wf(),
        !rounds(launched(RunView::new(checks)), schedule).is_starting(),
        rounds(launched(RunView::new(checks)), schedule).pending.len() == checks.len(),
        forall|i: int|
            0 <= i < checks.len() ==> ((#[trigger] rounds(
                launched(RunView::new(checks)),
                schedule,
            ).pending[i]).response is Some <==> finishes(schedule, i)),
    decreases schedule.len(),
{
    lemma_launched(RunView::new(checks));
    if schedule.len() > 0 {
        let shorter = schedule.drop_last();
        lemma_finished(checks, shorter);
        let before = rounds(launched(RunView::new(checks)), shorter);
        let answers = schedule.last();
        lemma_begun(before);
        lemma_round(before.begun(), answers);
        law_round_polls_every_unfinished_check(before, answers);
        let after = rounds(launched(RunView::new(checks)), schedule);
        assert(after == round(before.begun(), answers));
        assert forall|i: int| 0 <= i < checks.len() implies ((
        #[trigger] after.pending[i]).response is Some <==> finishes(schedule, i)) by {
            assert(after.pending[i] == after_round(before.pending[i], answers(i)));
            if finishes(shorter, i) {
                let n = choose|n: int|
                    0 <= n < shorter.len() && (#[trigger] shorter[n](i)) is Some;
                assert(schedule[n](i) is Some);
            }
            if answers(i) is Some {
                assert(schedule[schedule.len() - 1](i) is Some);
            }
            if finishes(schedule, i) {
                let n = choose|n: int|
                    0 <= n < schedule.len() && (#[trigger] schedule[n](i)) is Some;
                if n < shorter.len() {
                    assert(shorter[n](i) is Some);
                }
            }
        }
    }
}

/// A run whose checks were all started is done once every one of them has
/// finished, and not before.
pub proof fn law_run_ends<P>(checks: Seq<RegisteredCheckView<P>>, schedule: Seq<Answers>)
    requires
        checks.len() <= usize::MAX,
    ensures
        rounds(launched(RunView::new(checks)), schedule).action() == Action::Done <==> forall|
            i: int,
        |
            0 <= i < checks.len() ==> #[trigger] finishes(schedule, i),
{
    lemma_launched(RunView::new(checks));
    lemma_finished(checks, schedule);
    let end = rounds(launched(RunView::new(checks)), schedule);
    if schedule.len() > 0 {
        let before = rounds(launched(RunView::new(checks)), schedule.drop_last());
        lemma_finished(checks, schedule.drop_last());
        law_round_polls_every_unfinished_check(before, schedule.last());
        if end.action() == Action::Done {
            assert forall|i: int| 0 <= i < checks.len() implies #[trigger] finishes(
                schedule,
                i,
            ) by {
                assert(end.pending[i].response is Some);
            }
        }
    } else if checks.len() > 0 {
        assert(!finishes(schedule, 0));
    }
}

/// The answer of an endpoint for `wanted`: once every registered check that the
/// request covers has finished, the run is done and gives for each of them the
/// response of its outcome, and the HTTP status code is 200 exactly if every one
/// of them returned `UP`, else 503.
pub proof fn law_endpoint_answer<P>(
    registered: Seq<RegisteredCheckView<P>>,
    wanted: Option<Kind>,
    schedule: Seq<Answers>,
    outcomes: Seq<OutcomeView>,
)
    requires
        selected(registered, wanted).len() <= usize::MAX,
        outcomes.len() == selected(registered, wanted).len(),
        comes_to(schedule, outcomes),
        forall|i: int| 0 <= i < outcomes.len() ==> #[trigger] finishes(schedule, i),
    ensures
        ({
            let end = rounds(launched(RunView::new(selected(registered, wanted))), schedule);
            let responses = end.responses();
            let healthy = forall|i: int|
                0 <= i < outcomes.len() ==> (#[trigger] outcomes[i]) is Ok
                    && outcomes[i]->Ok_0.status == Status::Up;
            &&& end.action() == Action::Done
            &&& responses == responses_to(selected(registered, wanted), outcomes)
            &&& aggregate(responses).code() == (if healthy {
                200
            } else {
                503int
            })
        }),
{
    let checks = selected(registered, wanted);
    law_run_ends(checks, schedule);
    law_responses_follow_registration(checks, schedule, outcomes);
    let responses = responses_to(checks, outcomes);
    assert forall|i: int| 0 <= i < outcomes.len() implies ((#[trigger] outcomes[i]) is Ok
        && outcomes[i]->Ok_0.status == Status::Up) == (responses[i].status == Status::Up) by {}
    if all_up(responses) {
        assert forall|i: int| 0 <= i < outcomes.len() implies (#[trigger] outcomes[i]) is Ok
            && outcomes[i]->Ok_0.status == Status::Up by {
            assert(responses[i].status == Status::Up);
        }
    }
}

} // verus!
