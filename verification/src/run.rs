//! Running the selected checks side by side.
//!
//! A [`Run`] decides which check is started or polled next. Its driver does what
//! the last [`Action`] says: it starts the check that the action names, or polls
//! it and hands back the [`Answer`]. Every check is started once, in the order of
//! registration, before any is polled. Within one round each check that has not
//! finished is polled once, in the order of registration; a check that has
//! finished is never polled again. A round in which every check that was polled
//! finished is the last one.
use crate::check::{outcome_view, Check, CheckError, OutcomeView};
use crate::registry::{registered_views, RegisteredCheck, RegisteredCheckView};
use crate::response::{
    aggregate, check_response, response_of, response_views, CheckResponse, CheckResponseView,
    HealthPayload, HealthPayloadView,
};
use std::sync::Arc;
use vstd::prelude::*;

verus! {

/// What the driver of a run does next.
#[derive(Debug, Clone, Copy, PartialEq, Eq, Structural)]
pub enum Action {
    /// Start the check at this place among the selected ones.
    Start(usize),
    /// Poll the check at this place among the selected ones.
    Poll(usize),
    /// Wait until a check can make progress, then begin a new round.
    Wait,
    /// Every check has finished.
    Done,
}

/// What polling a check gave.
pub enum Answer {
    /// The check has finished.
    Ready(Result<Check, CheckError>),
    /// The check has not finished.
    Pending,
}

/// What polling a check gave: its outcome, if it has finished.
pub open spec fn answer_view(answer: Answer) -> Option<OutcomeView> {
    match answer {
        Answer::Ready(outcome) => Some(outcome_view(outcome)),
        Answer::Pending => None,
    }
}

/// Where a selected check stands: it has finished once it has a response.
#[verifier::ext_equal]
pub struct PendingCheckView<P> {
    pub name: Seq<char>,
    pub check: P,
    pub response: Option<CheckResponseView>,
}

impl<P> PendingCheckView<P> {
    /// A check that has not been polled.
    pub open spec fn new(check: RegisteredCheckView<P>) -> Self {
        PendingCheckView { name: check.name, check: check.check, response: None }
    }

    /// The check after it was polled.
    pub open spec fn polled(self, answer: Option<OutcomeView>) -> Self {
        match answer {
            Some(outcome) => PendingCheckView {
                response: Some(response_of(self.name, outcome)),
                ..self
            },
            None => self,
        }
    }

    /// The response of the check. One that has not finished counts as failed.
    pub open spec fn final_response(self) -> CheckResponseView {
        match self.response {
            Some(response) => response,
            None => response_of(self.name, Err("health check did not complete"@)),
        }
    }
}

/// The first place from `from` on where a check has not finished, or the end.
pub open spec fn next_pending<P>(pending: Seq<PendingCheckView<P>>, from: int) -> int
    decreases pending.len() - from,
{
    if from >= pending.len() {
        pending.len() as int
    } else if pending[from].response is None {
        from
    } else {
        next_pending(pending, from + 1)
    }
}

/// Where a run stands.
#[verifier::ext_equal]
pub struct RunView<P> {
    /// The selected checks, in the order of registration.
    pub pending: Seq<PendingCheckView<P>>,
    /// How many of the checks were started.
    pub started: int,
    /// The place of the check that is polled next in this round.
    pub cursor: int,
    /// Whether every check that was polled in this round has finished.
    pub all_ready: bool,
}

impl<P> RunView<P> {
    /// A run of these checks, none of which was started.
    pub open spec fn new(checks: Seq<RegisteredCheckView<P>>) -> Self {
        RunView {
            pending: checks.map_values(
                |check: RegisteredCheckView<P>| PendingCheckView::new(check),
            ),
            started: 0,
            cursor: 0,
            all_ready: true,
        }
    }

    /// Whether a check is to be started.
    pub open spec fn is_starting(self) -> bool {
        self.started < self.pending.len()
    }

    /// Whether a check is to be polled in this round.
    pub open spec fn is_polling(self) -> bool {
        !self.is_starting() && self.cursor < self.pending.len()
    }

    /// Until every check was started none has been polled. The cursor stands at a
    /// check that has not finished or at the end, and the checks before it have all
    /// finished exactly if this round says so.
    pub open spec fn wf(self) -> bool {
        &&& 0 <= self.started <= self.pending.len() <= usize::MAX
        &&& 0 <= self.cursor <= self.pending.len()
        &&& self.is_starting() ==> self.cursor == 0 && forall|i: int|
            0 <= i < self.pending.len() ==> (#[trigger] self.pending[i]).response is None
        &&& self.is_polling() ==> self.pending[self.cursor].response is None
        &&& self.all_ready <==> forall|i: int|
            0 <= i < self.cursor ==> (#[trigger] self.pending[i]).response is Some
    }

    /// What is to be done next.
    pub open spec fn action(self) -> Action {
        if self.is_starting() {
            Action::Start(self.started as usize)
        } else if self.is_polling() {
            Action::Poll(self.cursor as usize)
        } else if self.all_ready {
            Action::Done
        } else {
            Action::Wait
        }
    }

    /// The run after the check that was to be started was started.
    pub open spec fn check_started(self) -> Self {
        RunView { started: self.started + 1, ..self }
    }

    /// The run at the start of a new round. No round begins before every check was
    /// started.
    pub open spec fn begun(self) -> Self {
        if self.is_starting() {
            self
        } else {
            RunView { cursor: next_pending(self.pending, 0), all_ready: true, ..self }
        }
    }

    /// The run after the check at the cursor was polled.
    pub open spec fn answered(self, answer: Option<OutcomeView>) -> Self {
        let pending = self.pending.update(
            self.cursor,
            self.pending[self.cursor].polled(answer),
        );
        RunView {
            pending,
            cursor: next_pending(pending, self.cursor + 1),
            all_ready: self.all_ready && answer is Some,
            ..self
        }
    }

    /// The responses of the checks, in the order of registration.
    pub open spec fn responses(self) -> Seq<CheckResponseView> {
        self.pending.map_values(|check: PendingCheckView<P>| check.final_response())
    }
}

/// The place that [`next_pending`] gives: a check that has not finished or the
/// end, with none that has not finished in between.
pub(crate) proof fn lemma_next_pending<P>(pending: Seq<PendingCheckView<P>>, from: int)
    requires
        0 <= from <= pending.len(),
    ensures
        from <= next_pending(pending, from) <= pending.len(),
        next_pending(pending, from) < pending.len() ==> pending[next_pending(
            pending,
            from,
        )].response is None,
        forall|i: int|
            from <= i < next_pending(pending, from) ==> (#[trigger] pending[i]).response is Some,
    decreases pending.len() - from,
{
    if from < pending.len() && pending[from].response is Some {
        lemma_next_pending(pending, from + 1);
    }
}

/// A selected check and, once it has finished, its response.
struct PendingCheck<P> {
    name: String,
    check: Arc<P>,
    response: Option<CheckResponse>,
}

impl<P> PendingCheck<P> {
    spec fn view(self) -> PendingCheckView<P> {
        PendingCheckView {
            name: self.name@,
            check: *self.check,
            response: match self.response {
                Some(response) => Some(response@),
                None => None,
            },
        }
    }
}

/// A run of selected checks.
pub struct Run<P> {
    pending: Vec<PendingCheck<P>>,
    started: usize,
    cursor: usize,
    all_ready: bool,
}

impl<P> View for Run<P> {
    type V = RunView<P>;

    closed spec fn view(&self) -> RunView<P> {
        RunView {
            pending: self.pending@.map_values(|check: PendingCheck<P>| check.view()),
            started: self.started as int,
            cursor: self.cursor as int,
            all_ready: self.all_ready,
        }
    }
}

impl<P> Run<P> {
    /// Creates a run of the given checks.
    pub fn new(checks: Vec<RegisteredCheck<P>>) -> (run: Self)
        ensures
            run@ == RunView::new(registered_views(checks@)),
            run@.wf(),
    {
        let ghost views = RunView::new(registered_views(checks@)).pending;
        let mut pending: Vec<PendingCheck<P>> = Vec::new();
        for check in iter: checks
            invariant
                pending.len() == iter.index(),
                views == RunView::new(registered_views(iter.seq())).pending,
                forall|j: int| 0 <= j < pending.len() ==> (#[trigger] pending[j]).view() == views[j],
        {
            pending.push(PendingCheck { name: check.name, check: check.check, response: None });
        }
        let run = Run { pending, started: 0, cursor: 0, all_ready: true };
        assert(run@.pending == views);
        run
    }

    /// Returns the number of selected checks.
    pub fn len(&self) -> (len: usize)
        ensures
            len == self@.pending.len(),
    {
        self.pending.len()
    }

    /// Returns the procedure of the check at the given place.
    pub fn check(&self, place: usize) -> (check: &Arc<P>)
        requires
            place < self@.pending.len(),
        ensures
            **check == self@.pending[place as int].check,
    {
        &self.pending[place].check
    }

    /// Takes note that the check that was to be started was started, and returns
    /// what is to be done next.
    pub fn check_started(&mut self) -> (action: Action)
        requires
            old(self)@.wf(),
            old(self)@.is_starting(),
        ensures
            final(self)@ == old(self)@.check_started(),
            final(self)@.wf(),
            action == final(self)@.action(),
    {
        self.started = self.started + 1;
        self.action()
    }

    /// Begins a new round, once every check was started, and returns what is to be
    /// done next.
    pub fn begin_round(&mut self) -> (action: Action)
        requires
            old(self)@.wf(),
        ensures
            final(self)@ == old(self)@.begun(),
            final(self)@.wf(),
            action == final(self)@.action(),
    {
        if self.started < self.pending.len() {
            return self.action();
        }
        let ghost before = self@;
        self.all_ready = true;
        self.advance(0);
        proof {
            lemma_next_pending(before.pending, 0);
        }
        self.action()
    }

    /// Takes the answer of the check that was polled and returns what is to be
    /// done next.
    pub fn answer(&mut self, answer: Answer) -> (action: Action)
        requires
            old(self)@.wf(),
            old(self)@.is_polling(),
        ensures
            final(self)@ == old(self)@.answered(answer_view(answer)),
            final(self)@.wf(),
            action == final(self)@.action(),
    {
        let ghost before = self@;
        let place = self.cursor;
        match answer {
            Answer::Ready(outcome) => {
                let response = check_response(self.pending[place].name.as_str(), outcome);
                self.pending[place].response = Some(response);
            },
            Answer::Pending => {
                self.all_ready = false;
            },
        }
        let ghost polled = before.pending.update(
            before.cursor,
            before.pending[before.cursor].polled(answer_view(answer)),
        );
        assert(self@.pending == polled);
        self.advance(place + 1);
        proof {
            lemma_next_pending(polled, place + 1);
            let after = self@;
            if !after.all_ready {
                if answer is Pending {
                    assert(after.pending[place as int].response is None);
                } else {
                    let i = choose|i: int|
                        0 <= i < before.cursor && (#[trigger] before.pending[i]).response is None;
                    assert(after.pending[i].response is None);
                }
            } else {
                assert forall|i: int| 0 <= i < after.cursor implies (
                #[trigger] after.pending[i]).response is Some by {
                    if i < before.cursor {
                        assert(before.pending[i].response is Some);
                    }
                }
            }
        }
        self.action()
    }

    /// Moves the cursor to the first check from `from` on that has not finished.
    fn advance(&mut self, from: usize)
        requires
            from <= old(self)@.pending.len(),
        ensures
            final(self)@ == (RunView {
                cursor: next_pending(old(self)@.pending, from as int),
                ..old(self)@
            }),
    {
        let mut place = from;
        while place < self.pending.len() && self.pending[place].response.is_some()
            invariant
                place <= self.pending.len(),
                *self == *old(self),
                next_pending(self@.pending, place as int) == next_pending(
                    self@.pending,
                    from as int,
                ),
            decreases self.pending.len() - place,
        {
            assert(self@.pending[place as int].response is Some);
            place += 1;
        }
        self.cursor = place;
        assert(self@.pending == old(self)@.pending);
    }

    /// Returns what is to be done next.
    fn action(&self) -> (action: Action)
        ensures
            action == self@.action(),
    {
        if self.started < self.pending.len() {
            Action::Start(self.started)
        } else if self.cursor < self.pending.len() {
            Action::Poll(self.cursor)
        } else if self.all_ready {
            Action::Done
        } else {
            Action::Wait
        }
    }

    /// Returns the responses of the checks, in the order of registration.
    pub fn into_responses(self) -> (responses: Vec<CheckResponse>)
        ensures
            response_views(responses@) == self@.responses(),
    {
        let ghost views = self@.responses();
        let mut responses: Vec<CheckResponse> = Vec::new();
        for check in iter: self.pending
            invariant
                responses.len() == iter.index(),
                views == iter.seq().map_values(
                    |check: PendingCheck<P>| check.view().final_response(),
                ),
                forall|j: int|
                    0 <= j < responses.len() ==> (#[trigger] responses[j])@ == views[j],
        {
            let response = match check.response {
                Some(response) => response,
                None => check_response(
                    check.name.as_str(),
                    Err(CheckError::new("health check did not complete")),
                ),
            };
            responses.push(response);
        }
        assert(response_views(responses@) == views);
        responses
    }

    /// Returns the response of the endpoint: the responses of the checks under
    /// their aggregate status.
    pub fn finish(self) -> (payload: HealthPayload)
        ensures
            payload@ == (HealthPayloadView {
                status: aggregate(self@.responses()),
                checks: self@.responses(),
            }),
    {
        HealthPayload::new(self.into_responses())
    }
}

} // verus!
