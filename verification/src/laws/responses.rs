//! What the responses of checks and endpoints are made of, down to the wire.
use crate::check::{Check, CheckError};
use crate::json::{json, members, Json, Members};
use crate::response::{
    all_up, check_response, health_response, response_views, wire_checks, CheckResponse,
    HealthPayload, HealthResponse,
};
use crate::status::Status;
use vstd::prelude::*;

verus! {

/// A check that returned a result is answered under its own name with the status
/// and the data of the result.
pub proof fn law_result_is_answered(name: &str, check: Check, response: CheckResponse)
    requires
        call_ensures(check_response, (name, Ok(check)), response),
    ensures
        response.name@ == name@,
        response.status == check@.status,
        members(response.data) == check@.data,
{
    assert(response@.name == name@);
}

/// A check that failed is answered under its own name as `DOWN`, with the message
/// of its error as its only data.
pub proof fn law_failure_is_answered(name: &str, error: CheckError, response: CheckResponse)
    requires
        call_ensures(check_response, (name, Err(error)), response),
    ensures
        response.name@ == name@,
        response.status == Status::Down,
        members(response.data) == seq![("error"@, Json::Text(error@.message))],
{
    assert(response@.name == name@);
}

/// An endpoint answers with the responses of its checks, and is `UP` exactly if
/// each of them is.
pub proof fn law_payload_is_of_its_checks(checks: Vec<CheckResponse>, payload: HealthPayload)
    requires
        call_ensures(HealthPayload::new, (checks,), payload),
    ensures
        payload.checks == checks,
        (forall|i: int| 0 <= i < checks.len() ==> (#[trigger] checks[i]).status == Status::Up)
            ==> payload.status == Status::Up,
        (exists|i: int| 0 <= i < checks.len() && (#[trigger] checks[i]).status == Status::Down)
            ==> payload.status == Status::Down,
{
    let views = response_views(checks@);
    assert(payload.status == payload@.status);
    assert forall|i: int| 0 <= i < checks.len() implies (#[trigger] checks[i]).status
        == views[i].status by {}
    if exists|i: int| 0 <= i < checks.len() && (#[trigger] checks[i]).status == Status::Down {
        let i = choose|i: int| 0 <= i < checks.len() && (#[trigger] checks[i]).status
            == Status::Down;
        assert(views[i].status == Status::Down);
        assert(!all_up(views));
    }
}

/// A check result goes on the wire as its status, `UP` or `DOWN`, and its data if
/// there are any.
pub proof fn law_result_on_the_wire(check: Check, value: serde_json::Value)
    requires
        call_ensures(Check::into_json, (check,), value),
    ensures
        ({
            let status = if check@.status == Status::Up {
                "UP"@
            } else {
                "DOWN"@
            };
            json(value) == Json::Object(
                if check@.data.len() == 0 {
                    seq![("status"@, Json::Text(status))]
                } else {
                    seq![("status"@, Json::Text(status)), ("data"@, Json::Object(check@.data))]
                },
            )
        }),
{
    assert(check@.data.len() == 0 <==> check@.data =~= Members::empty());
    let status = check@.status.text();
    if check@.data.len() == 0 {
        assert(check@.wire_members() =~= seq![("status"@, Json::Text(status))]);
    } else {
        assert(check@.wire_members() =~= seq![
            ("status"@, Json::Text(status)),
            ("data"@, Json::Object(check@.data)),
        ]);
    }
}

/// What the wire form of a check response is.
proof fn lemma_check_wire(check: CheckResponse)
    ensures
        check@.wire() == Json::Object(
            if members(check.data).len() == 0 {
                seq![
                    ("name"@, Json::Text(check.name@)),
                    (
                        "status"@,
                        Json::Text(
                            if check.status == Status::Up {
                                "UP"@
                            } else {
                                "DOWN"@
                            },
                        ),
                    ),
                ]
            } else {
                seq![
                    ("name"@, Json::Text(check.name@)),
                    (
                        "status"@,
                        Json::Text(
                            if check.status == Status::Up {
                                "UP"@
                            } else {
                                "DOWN"@
                            },
                        ),
                    ),
                    ("data"@, Json::Object(members(check.data))),
                ]
            },
        ),
{
    let data = members(check.data);
    assert(data.len() == 0 <==> data =~= Members::empty());
    let name = ("name"@, Json::Text(check.name@));
    let status = ("status"@, Json::Text(check.status.text()));
    if data.len() == 0 {
        assert(check@.wire_members() =~= seq![name, status]);
    } else {
        assert(check@.wire_members() =~= seq![name, status, ("data"@, Json::Object(data))]);
    }
}

/// The response of a check goes on the wire as its name, its status, `UP` or
/// `DOWN`, and its data if there are any.
pub proof fn law_check_on_the_wire(check: CheckResponse, value: serde_json::Value)
    requires
        call_ensures(CheckResponse::into_json, (check,), value),
    ensures
        ({
            let status = if check.status == Status::Up {
                "UP"@
            } else {
                "DOWN"@
            };
            json(value) == Json::Object(
                if members(check.data).len() == 0 {
                    seq![("name"@, Json::Text(check.name@)), ("status"@, Json::Text(status))]
                } else {
                    seq![
                        ("name"@, Json::Text(check.name@)),
                        ("status"@, Json::Text(status)),
                        ("data"@, Json::Object(members(check.data))),
                    ]
                },
            )
        }),
{
    lemma_check_wire(check);
}

/// The response of an endpoint goes on the wire as its status, `UP` or `DOWN`, and
/// the responses of its checks in their order, each as it goes on the wire by
/// itself.
pub proof fn law_payload_on_the_wire(payload: HealthPayload, value: serde_json::Value)
    requires
        call_ensures(HealthPayload::into_json, (payload,), value),
    ensures
        exists|items: Seq<Json>|
            {
                &&& #[trigger] items.len() == payload.checks.len()
                &&& json(value) == Json::Object(
                    seq![
                        (
                            "status"@,
                            Json::Text(
                                if payload.status == Status::Up {
                                    "UP"@
                                } else {
                                    "DOWN"@
                                },
                            ),
                        ),
                        ("checks"@, Json::Array(items)),
                    ],
                )
                &&& forall|i: int, alone: serde_json::Value|
                    0 <= i < items.len() && #[trigger] call_ensures(
                        CheckResponse::into_json,
                        (payload.checks[i],),
                        alone,
                    ) ==> items[i] == json(alone)
                &&& forall|i: int|
                    0 <= i < items.len() ==> {
                        let check = payload.checks[i];
                        let name = ("name"@, Json::Text(check.name@));
                        let status = (
                            "status"@,
                            Json::Text(
                                if check.status == Status::Up {
                                    "UP"@
                                } else {
                                    "DOWN"@
                                },
                            ),
                        );
                        #[trigger] items[i] == Json::Object(
                            if members(check.data).len() == 0 {
                                seq![name, status]
                            } else {
                                seq![name, status, ("data"@, Json::Object(members(check.data)))]
                            },
                        )
                    }
            },
{
    let items = wire_checks(payload@.checks);
    assert(items.len() == payload.checks.len());
    assert forall|i: int| 0 <= i < items.len() implies #[trigger] items[i]
        == payload.checks[i]@.wire() by {
        assert(payload@.checks[i] == payload.checks[i]@);
    }
    assert forall|i: int| 0 <= i < items.len() implies {
        let check = payload.checks[i];
        let name = ("name"@, Json::Text(check.name@));
        let status = (
            "status"@,
            Json::Text(
                if check.status == Status::Up {
                    "UP"@
                } else {
                    "DOWN"@
                },
            ),
        );
        #[trigger] items[i] == Json::Object(
            if members(check.data).len() == 0 {
                seq![name, status]
            } else {
                seq![name, status, ("data"@, Json::Object(members(check.data)))]
            },
        )
    } by {
        lemma_check_wire(payload.checks[i]);
    }
    assert(payload@.status == payload.status);
    assert(payload@.wire_members() =~= seq![
        ("status"@, Json::Text(payload.status.text())),
        ("checks"@, Json::Array(items)),
    ]);
}

/// The HTTP response has code 200 for `UP` and 503 for `DOWN`, and carries the
/// response of the endpoint as it goes on the wire.
pub proof fn law_http_response(
    payload: HealthPayload,
    value: serde_json::Value,
    response: HealthResponse,
)
    requires
        call_ensures(health_response, (payload,), response),
        call_ensures(HealthPayload::into_json, (payload,), value),
    ensures
        payload.status == Status::Up ==> response.code == 200,
        payload.status == Status::Down ==> response.code == 503,
        json(response.body) == json(value),
{
    assert(payload@.status == payload.status);
}

} // verus!
