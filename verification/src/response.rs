//! The response of a health endpoint: the responses of the selected checks, the
//! aggregate status, and their form on the wire.
use crate::check::{lemma_wire_keys, outcome_view, Check, CheckError, CheckView, OutcomeView};
use crate::json::{
    array_value, has_no_members, insert_member, json, members, new_map, object_value,
    string_value, Json, Members,
};
use crate::status::Status;
use vstd::prelude::*;

verus! {

/// What the response of a check says.
#[verifier::ext_equal]
pub struct CheckResponseView {
    pub name: Seq<char>,
    pub status: Status,
    pub data: Members,
}

/// What the response of an endpoint says.
#[verifier::ext_equal]
pub struct HealthPayloadView {
    pub status: Status,
    pub checks: Seq<CheckResponseView>,
}

/// The data of a check that failed: its message as the `error` value.
pub open spec fn error_data(message: Seq<char>) -> Members {
    seq![("error"@, Json::Text(message))]
}

/// The response of the check `name` with the given outcome: what the check
/// itself says, or, where it failed, `DOWN` with the message of its error.
pub open spec fn response_of(name: Seq<char>, outcome: OutcomeView) -> CheckResponseView {
    match outcome {
        Ok(check) => CheckResponseView { name, status: check.status, data: check.data },
        Err(message) => CheckResponseView {
            name,
            status: Status::Down,
            data: error_data(message),
        },
    }
}

/// Whether every check is `UP`.
pub open spec fn all_up(checks: Seq<CheckResponseView>) -> bool {
    forall|i: int| 0 <= i < checks.len() ==> (#[trigger] checks[i]).status == Status::Up
}

/// The aggregate status: `UP` if every check is `UP`, else `DOWN`.
pub open spec fn aggregate(checks: Seq<CheckResponseView>) -> Status {
    if all_up(checks) {
        Status::Up
    } else {
        Status::Down
    }
}

impl CheckResponseView {
    /// The members of the response on the wire: the name of the check, followed by
    /// what the check says.
    pub open spec fn wire_members(self) -> Members {
        seq![("name"@, Json::Text(self.name))] + (CheckView {
            status: self.status,
            data: self.data,
        }).wire_members()
    }

    /// The response on the wire.
    pub open spec fn wire(self) -> Json {
        Json::Object(self.wire_members())
    }
}

/// The responses of checks on the wire, in their order.
pub open spec fn wire_checks(checks: Seq<CheckResponseView>) -> Seq<Json> {
    checks.map_values(|check: CheckResponseView| check.wire())
}

impl HealthPayloadView {
    /// The members of the response on the wire.
    pub open spec fn wire_members(self) -> Members {
        seq![
            ("status"@, Json::Text(self.status.text())),
            ("checks"@, Json::Array(wire_checks(self.checks))),
        ]
    }

    /// The response on the wire.
    pub open spec fn wire(self) -> Json {
        Json::Object(self.wire_members())
    }
}

/// The response of a single check.
#[derive(Debug, PartialEq)]
pub struct CheckResponse {
    pub name: String,
    pub status: Status,
    pub data: serde_json::Map<String, serde_json::Value>,
}

impl View for CheckResponse {
    type V = CheckResponseView;

    open spec fn view(&self) -> CheckResponseView {
        CheckResponseView { name: self.name@, status: self.status, data: members(self.data) }
    }
}

/// What each of the responses says.
pub open spec fn response_views(checks: Seq<CheckResponse>) -> Seq<CheckResponseView> {
    checks.map_values(|check: CheckResponse| check@)
}

/// Returns the response of the check `name` with the given outcome.
pub fn check_response(name: &str, outcome: Result<Check, CheckError>) -> (response: CheckResponse)
    ensures
        response@ == response_of(name@, outcome_view(outcome)),
{
    match outcome {
        Ok(check) => {
            let (status, data) = check.into_parts();
            CheckResponse { name: name.to_owned(), status, data }
        },
        Err(error) => {
            let mut data = new_map();
            insert_member(
                &mut data,
                "error".to_owned(),
                string_value(error.message().to_owned()),
            );
            assert(members(data) == error_data(error@.message));
            CheckResponse { name: name.to_owned(), status: Status::Down, data }
        },
    }
}

impl CheckResponse {
    /// Returns the response as it goes on the wire.
    pub fn into_json(self) -> (value: serde_json::Value)
        ensures
            json(value) == self@.wire(),
    {
        proof {
            lemma_wire_keys();
        }
        let mut map = new_map();
        insert_member(&mut map, "name".to_owned(), string_value(self.name));
        insert_member(
            &mut map,
            "status".to_owned(),
            string_value(self.status.as_str().to_owned()),
        );
        if !has_no_members(&self.data) {
            insert_member(&mut map, "data".to_owned(), object_value(self.data));
        }
        assert(members(map) == self@.wire_members());
        object_value(map)
    }
}

/// The response of a health endpoint.
#[derive(Debug, PartialEq)]
pub struct HealthPayload {
    pub status: Status,
    pub checks: Vec<CheckResponse>,
}

impl View for HealthPayload {
    type V = HealthPayloadView;

    open spec fn view(&self) -> HealthPayloadView {
        HealthPayloadView { status: self.status, checks: response_views(self.checks@) }
    }
}

impl HealthPayload {
    /// Puts the responses of the selected checks together under their aggregate
    /// status.
    pub fn new(checks: Vec<CheckResponse>) -> (payload: Self)
        ensures
            payload@ == (HealthPayloadView {
                status: aggregate(response_views(checks@)),
                checks: response_views(checks@),
            }),
            payload.checks == checks,
    {
        let ghost views = response_views(checks@);
        let mut status = Status::Up;
        let mut i: usize = 0;
        while i < checks.len()
            invariant
                i <= checks.len(),
                views == response_views(checks@),
                status == aggregate(views.take(i as int)),
            decreases checks.len() - i,
        {
            assert(views.take(i + 1) == views.take(i as int).push(views[i as int]));
            if checks[i].status == Status::Down {
                assert(views.take(i + 1)[i as int].status == Status::Down);
                status = Status::Down;
            } else {
                assert(forall|j: int|
                    0 <= j < i ==> views.take(i + 1)[j] == #[trigger] views.take(i as int)[j]);
            }
            i += 1;
        }
        assert(views.take(i as int) == views);
        HealthPayload { status, checks }
    }

    /// Returns the response as it goes on the wire.
    pub fn into_json(self) -> (value: serde_json::Value)
        ensures
            json(value) == self@.wire(),
    {
        proof {
            lemma_wire_keys();
        }
        let ghost views = response_views(self.checks@);
        let mut items: Vec<serde_json::Value> = Vec::new();
        for check in iter: self.checks
            invariant
                items.len() == iter.index(),
                views == response_views(iter.seq()),
                forall|j: int| 0 <= j < items.len() ==> json(#[trigger] items[j]) == views[j].wire(),
        {
            items.push(check.into_json());
        }
        let mut map = new_map();
        insert_member(
            &mut map,
            "status".to_owned(),
            string_value(self.status.as_str().to_owned()),
        );
        assert(items@.map_values(|item: serde_json::Value| json(item)) == wire_checks(views));
        insert_member(&mut map, "checks".to_owned(), array_value(items));
        assert(members(map) == self@.wire_members());
        object_value(map)
    }
}

/// An HTTP response: a status code and a JSON body.
pub struct HealthResponse {
    pub code: u16,
    pub body: serde_json::Value,
}

/// Returns the HTTP response that carries the payload.
pub fn health_response(payload: HealthPayload) -> (response: HealthResponse)
    ensures
        response.code == payload@.status.code(),
        json(response.body) == payload@.wire(),
{
    HealthResponse { code: payload.status.http_status(), body: payload.into_json() }
}

} // verus!
