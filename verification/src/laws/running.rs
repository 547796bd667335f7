//! What each step of a run does, and what a run comes to.
use crate::check::{outcome_view, Check, CheckError, OutcomeView};
use crate::json::{members, Json};
use crate::registry::RegisteredCheckView;
use crate::response::{all_up, response_views, CheckResponse, CheckResponseView, HealthPayload};
use crate::run::{answer_view, lemma_next_pending, Action, Answer, Run, RunView};
use crate::status::Status;
use vstd::prelude::*;

verus! {

/// A new run has, in their order, exactly the checks that it is given, each with
/// its own name and its own procedure. None is started and none has an answer.
pub proof fn law_new_run<P>(checks: Seq<RegisteredCheckView<P>>)
    ensures
        RunView::new(checks).pending.len() == checks.len(),
        forall|i: int|
            0 <= i < checks.len() ==> (#[trigger] RunView::new(checks).pending[i]).name
                == checks[i].name,
        forall|i: int|
            0 <= i < checks.len() ==> (#[trigger] RunView::new(checks).pending[i]).check
                == checks[i].check,
        forall|i: int|
            0 <= i < checks.len() ==> (#[trigger] RunView::new(
                checks,
            ).pending[i]).response is None,
        RunView::new(checks).started == 0,
        RunView::new(checks).cursor == 0,
        RunView::new(checks).all_ready,
{
}

/// When a run is well-formed, when it starts checks, and when it polls them.
pub proof fn law_states_of_a_run<P>(run: RunView<P>)
    ensures
        run.is_starting() <==> run.started < run.pending.len(),
        run.is_polling() <==> run.started >= run.pending.len() && run.cursor < run.pending.len(),
        run.wf() <==> {
            &&& 0 <= run.started <= run.pending.len() <= usize::MAX
            &&& 0 <= run.cursor <= run.pending.len()
            &&& run.started < run.pending.len() ==> run.cursor == 0
            &&& run.started < run.pending.len() ==> forall|i: int|
                0 <= i < run.pending.len() ==> (#[trigger] run.pending[i]).response is None
            &&& run.cursor < run.pending.len() ==> run.pending[run.cursor].response is None
            &&& run.all_ready <==> forall|i: int|
                0 <= i < run.cursor ==> (#[trigger] run.pending[i]).response is Some
        },
{
}

/// As long as checks are to be started, the next of them is started. Then the
/// check at the cursor is polled, and behind the last check the run is done or
/// waits.
pub proof fn law_next_action<P>(run: RunView<P>)
    requires
        run.wf(),
    ensures
        run.started < run.pending.len() ==> run.action() == Action::Start(run.started as usize),
        run.started == run.pending.len() && run.cursor < run.pending.len() ==> run.action()
            == Action::Poll(run.cursor as usize),
        run.started == run.pending.len() && run.cursor == run.pending.len() && run.all_ready
            ==> run.action() == Action::Done,
        run.started == run.pending.len() && run.cursor == run.pending.len() && !run.all_ready
            ==> run.action() == Action::Wait,
{
}

/// Starting a check moves on to the next one and changes nothing else.
pub proof fn law_starting_a_check<P>(run: RunView<P>)
    ensures
        run.check_started().started == run.started + 1,
        run.check_started().pending == run.pending,
        run.check_started().cursor == run.cursor,
        run.check_started().all_ready == run.all_ready,
{
}

/// A new round begins at the first check that has not finished, changes no check,
/// and does not begin before every check was started.
pub proof fn law_beginning_a_round<P>(run: RunView<P>)
    requires
        run.wf(),
    ensures
        run.started < run.pending.len() ==> run.begun() == run,
        run.started == run.pending.len() ==> {
            let begun = run.begun();
            &&& begun.pending == run.pending
            &&& begun.started == run.started
            &&& begun.all_ready
            &&& 0 <= begun.cursor <= run.pending.len()
            &&& begun.cursor < run.pending.len() ==> run.pending[begun.cursor].response is None
            &&& forall|i: int|
                0 <= i < begun.cursor ==> (#[trigger] run.pending[i]).response is Some
        },
{
    lemma_next_pending(run.pending, 0);
}

/// An answer concerns the check that was polled and no other. It keeps its name and
/// its procedure. If it has finished, its response is made of its own outcome: the
/// status and the data of its result, or `DOWN` with the message of its error. If
/// not, it stays as it is and the round is not the last one. The next check that is
/// polled is the next one that has not finished.
pub proof fn law_answer_of_a_check<P>(run: RunView<P>, answer: Option<OutcomeView>)
    requires
        run.wf(),
        run.started == run.pending.len(),
        run.cursor < run.pending.len(),
    ensures
        ({
            let after = run.answered(answer);
            let before = run.pending[run.cursor];
            let polled = after.pending[run.cursor];
            &&& after.started == run.started
            &&& after.pending.len() == run.pending.len()
            &&& forall|i: int|
                0 <= i < run.pending.len() && i != run.cursor ==> #[trigger] after.pending[i]
                    == run.pending[i]
            &&& polled.name == before.name
            &&& polled.check == before.check
            &&& match answer {
                Some(Ok(check)) => polled.response == Some(
                    CheckResponseView {
                        name: before.name,
                        status: check.status,
                        data: check.data,
                    },
                ),
                Some(Err(message)) => polled.response == Some(
                    CheckResponseView {
                        name: before.name,
                        status: Status::Down,
                        data: seq![("error"@, Json::Text(message))],
                    },
                ),
                None => polled.response is None,
            }
            &&& after.all_ready == (run.all_ready && answer is Some)
            &&& run.cursor < after.cursor <= run.pending.len()
            &&& after.cursor < run.pending.len() ==> run.pending[after.cursor].response is None
            &&& forall|i: int|
                run.cursor < i < after.cursor ==> (#[trigger] run.pending[i]).response is Some
        }),
{
    let after = run.answered(answer);
    let pending = run.pending.update(run.cursor, run.pending[run.cursor].polled(answer));
    lemma_next_pending(pending, run.cursor + 1);
    assert forall|i: int| run.cursor < i < after.cursor implies (
    #[trigger] run.pending[i]).response is Some by {
        assert(pending[i] == run.pending[i]);
    }
    if after.cursor < run.pending.len() {
        assert(pending[after.cursor] == run.pending[after.cursor]);
    }
    match answer {
        Some(Err(message)) => {
            assert(after.pending[run.cursor].response->0.data =~= seq![
                ("error"@, Json::Text(message)),
            ]);
        },
        _ => {},
    }
}

/// An answer says what the check returned: its result, the message of its error, or
/// that it has not finished.
pub proof fn law_what_an_answer_says(check: Check, error: CheckError)
    ensures
        answer_view(Answer::Ready(Ok(check))) == Some(outcome_view(Ok(check))),
        answer_view(Answer::Ready(Err(error))) == Some(outcome_view(Err(error))),
        answer_view(Answer::Pending) is None,
        outcome_view(Ok(check)) == Ok::<crate::check::CheckView, Seq<char>>(check@),
        outcome_view(Err(error)) == Err::<crate::check::CheckView, Seq<char>>(error@.message),
{
}

/// The responses of a run, check by check.
proof fn lemma_responses<P>(run: RunView<P>)
    ensures
        run.responses().len() == run.pending.len(),
        forall|i: int|
            0 <= i < run.pending.len() ==> #[trigger] run.responses()[i] == (
            match run.pending[i].response {
                Some(response) => response,
                None => CheckResponseView {
                    name: run.pending[i].name,
                    status: Status::Down,
                    data: seq![("error"@, Json::Text("health check did not complete"@))],
                },
            }),
{
    assert forall|i: int| 0 <= i < run.pending.len() implies #[trigger] run.responses()[i] == (
    match run.pending[i].response {
        Some(response) => response,
        None => CheckResponseView {
            name: run.pending[i].name,
            status: Status::Down,
            data: seq![("error"@, Json::Text("health check did not complete"@))],
        },
    }) by {
        assert(run.responses()[i] == run.pending[i].final_response());
    }
}

/// A run comes to the responses of its checks, in their order. A check that has not
/// finished is answered under its own name as one that failed.
pub proof fn law_responses_of_a_run<P>(run: RunView<P>)
    ensures
        run.responses().len() == run.pending.len(),
        forall|i: int|
            0 <= i < run.pending.len() && (#[trigger] run.pending[i]).response is Some
                ==> run.responses()[i] == run.pending[i].response->0,
        forall|i: int|
            0 <= i < run.pending.len() && (#[trigger] run.pending[i]).response is None
                ==> run.responses()[i] == (CheckResponseView {
                name: run.pending[i].name,
                status: Status::Down,
                data: seq![("error"@, Json::Text("health check did not complete"@))],
            }),
{
    lemma_responses(run);
}

/// What a run hands over is the responses of its checks as they are.
pub proof fn law_responses_are_handed_over<P>(run: Run<P>, responses: Vec<CheckResponse>)
    requires
        call_ensures(Run::<P>::into_responses, (run,), responses),
    ensures
        responses.len() == run@.pending.len(),
        forall|i: int|
            0 <= i < responses.len() ==> {
                let given = run@.pending[i];
                let response = #[trigger] responses[i];
                if given.response is Some {
                    &&& response.name@ == given.response->0.name
                    &&& response.status == given.response->0.status
                    &&& members(response.data) == given.response->0.data
                } else {
                    &&& response.name@ == given.name
                    &&& response.status == Status::Down
                    &&& members(response.data) == seq![
                        ("error"@, Json::Text("health check did not complete"@)),
                    ]
                }
            },
{
    lemma_responses(run@);
    let views = response_views(responses@);
    assert(views.len() == responses.len());
    assert forall|i: int| 0 <= i < responses.len() implies {
        let given = run@.pending[i];
        let response = #[trigger] responses[i];
        if given.response is Some {
            &&& response.name@ == given.response->0.name
            &&& response.status == given.response->0.status
            &&& members(response.data) == given.response->0.data
        } else {
            &&& response.name@ == given.name
            &&& response.status == Status::Down
            &&& members(response.data) == seq![
                ("error"@, Json::Text("health check did not complete"@)),
            ]
        }
    } by {
        assert(views[i] == responses[i]@);
        assert(responses[i]@ == run@.responses()[i]);
    }
}

/// The response of an endpoint gives each check of its run in turn, and is `UP`
/// exactly if every check finished with `UP`.
pub proof fn law_end_of_a_run<P>(run: Run<P>, payload: HealthPayload)
    requires
        call_ensures(Run::<P>::finish, (run,), payload),
    ensures
        payload.checks.len() == run@.pending.len(),
        forall|i: int|
            0 <= i < payload.checks.len() && (#[trigger] run@.pending[i]).response is Some ==> {
                let given = run@.pending[i].response->0;
                let check = payload.checks[i];
                &&& check.name@ == given.name
                &&& check.status == given.status
                &&& members(check.data) == given.data
            },
        forall|i: int|
            0 <= i < payload.checks.len() && (#[trigger] run@.pending[i]).response is None ==> {
                let check = payload.checks[i];
                &&& check.name@ == run@.pending[i].name
                &&& check.status == Status::Down
                &&& members(check.data) == seq![
                    ("error"@, Json::Text("health check did not complete"@)),
                ]
            },
        payload.status == Status::Up <==> forall|i: int|
            0 <= i < run@.pending.len() ==> (#[trigger] run@.pending[i]).response is Some
                && run@.pending[i].response->0.status == Status::Up,
{
    lemma_responses(run@);
    let responses = run@.responses();
    assert(payload.status == payload@.status);
    assert(payload@.checks == responses);
    assert(payload@.checks.len() == payload.checks.len());
    assert forall|i: int|
        0 <= i < payload.checks.len() && (#[trigger] run@.pending[i]).response is Some implies {
        let given = run@.pending[i].response->0;
        let check = payload.checks[i];
        &&& check.name@ == given.name
        &&& check.status == given.status
        &&& members(check.data) == given.data
    } by {
        assert(payload@.checks[i] == payload.checks[i]@);
        assert(payload.checks[i]@ == responses[i]);
    }
    assert forall|i: int|
        0 <= i < payload.checks.len() && (#[trigger] run@.pending[i]).response is None implies {
        let check = payload.checks[i];
        &&& check.name@ == run@.pending[i].name
        &&& check.status == Status::Down
        &&& members(check.data) == seq![
            ("error"@, Json::Text("health check did not complete"@)),
        ]
    } by {
        assert(payload@.checks[i] == payload.checks[i]@);
        assert(payload.checks[i]@ == responses[i]);
    }
    let up = forall|i: int|
        0 <= i < run@.pending.len() ==> (#[trigger] run@.pending[i]).response is Some
            && run@.pending[i].response->0.status == Status::Up;
    if up {
        assert forall|i: int| 0 <= i < responses.len() implies (#[trigger] responses[i]).status
            == Status::Up by {
            assert(run@.pending[i].response is Some);
        }
        assert(all_up(responses));
    }
    if all_up(responses) {
        assert forall|i: int| 0 <= i < run@.pending.len() implies (
        #[trigger] run@.pending[i]).response is Some && run@.pending[i].response->0.status
            == Status::Up by {
            assert(responses[i].status == Status::Up);
        }
    }
}

} // verus!
