//! What can be read off a response on the wire.
use crate::check::{lemma_wire_keys, CheckView};
use crate::json::{distinct_keys, Json, Members};
use crate::response::{wire_checks, CheckResponseView, HealthPayloadView};
use crate::status::Status;
use vstd::prelude::*;

verus! {

/// A check result has its status, then its data exactly if there are any, and
/// nothing else.
pub proof fn law_result_members(check: CheckView)
    ensures
        check.data == Members::empty() ==> check.wire_members() == seq![
            ("status"@, Json::Text(check.status.text())),
        ],
        check.data != Members::empty() ==> check.wire_members() == seq![
            ("status"@, Json::Text(check.status.text())),
            ("data"@, Json::Object(check.data)),
        ],
        distinct_keys(check.wire_members()),
{
    lemma_wire_keys();
}

/// The response of a check has its name, its status, then its data exactly if
/// there are any, and nothing else.
pub proof fn law_check_members(check: CheckResponseView)
    ensures
        check.data == Members::empty() ==> check.wire_members() == seq![
            ("name"@, Json::Text(check.name)),
            ("status"@, Json::Text(check.status.text())),
        ],
        check.data != Members::empty() ==> check.wire_members() == seq![
            ("name"@, Json::Text(check.name)),
            ("status"@, Json::Text(check.status.text())),
            ("data"@, Json::Object(check.data)),
        ],
        distinct_keys(check.wire_members()),
{
    lemma_wire_keys();
}

/// The response of an endpoint has its aggregate status, then the responses of
/// its checks in their order, and nothing else.
pub proof fn law_payload_members(payload: HealthPayloadView)
    ensures
        payload.wire_members() == seq![
            ("status"@, Json::Text(payload.status.text())),
            ("checks"@, Json::Array(wire_checks(payload.checks))),
        ],
        wire_checks(payload.checks).len() == payload.checks.len(),
        forall|i: int|
            0 <= i < payload.checks.len() ==> #[trigger] wire_checks(payload.checks)[i]
                == payload.checks[i].wire(),
        distinct_keys(payload.wire_members()),
{
    lemma_wire_keys();
}

/// A status can be read off its text.
proof fn lemma_status_text(a: Status, b: Status)
    requires
        a.text() == b.text(),
    ensures
        a == b,
{
    reveal_strlit("UP");
    reveal_strlit("DOWN");
    assert("UP"@.len() != "DOWN"@.len());
}

/// Check results that are the same on the wire are the same.
pub proof fn law_result_can_be_read_back(a: CheckView, b: CheckView)
    requires
        a.wire() == b.wire(),
    ensures
        a == b,
{
    let members = a.wire_members();
    assert(members == b.wire_members());
    assert(members[0] == ("status"@, Json::Text(a.status.text())));
    assert(members[0] == ("status"@, Json::Text(b.status.text())));
    lemma_status_text(a.status, b.status);
    if members.len() > 1 {
        assert(members[1] == ("data"@, Json::Object(a.data)));
        assert(members[1] == ("data"@, Json::Object(b.data)));
    }
}

/// Responses of checks that are the same on the wire are the same.
pub proof fn law_check_can_be_read_back(a: CheckResponseView, b: CheckResponseView)
    requires
        a.wire() == b.wire(),
    ensures
        a == b,
{
    let members = a.wire_members();
    assert(members == b.wire_members());
    assert(members[0] == ("name"@, Json::Text(a.name)));
    assert(members[0] == ("name"@, Json::Text(b.name)));
    let left = CheckView { status: a.status, data: a.data };
    let right = CheckView { status: b.status, data: b.data };
    assert(left.wire_members() == members.skip(1));
    assert(right.wire_members() == members.skip(1));
    law_result_can_be_read_back(left, right);
}

/// Responses of endpoints that are the same on the wire are the same.
pub proof fn law_payload_can_be_read_back(a: HealthPayloadView, b: HealthPayloadView)
    requires
        a.wire() == b.wire(),
    ensures
        a == b,
{
    let members = a.wire_members();
    assert(members == b.wire_members());
    assert(members[0] == ("status"@, Json::Text(a.status.text())));
    assert(members[0] == ("status"@, Json::Text(b.status.text())));
    lemma_status_text(a.status, b.status);
    assert(members[1] == ("checks"@, Json::Array(wire_checks(a.checks))));
    assert(members[1] == ("checks"@, Json::Array(wire_checks(b.checks))));
    assert(wire_checks(a.checks).len() == a.checks.len());
    assert(wire_checks(b.checks).len() == b.checks.len());
    assert forall|i: int| 0 <= i < a.checks.len() implies a.checks[i] == b.checks[i] by {
        assert(wire_checks(a.checks)[i] == a.checks[i].wire());
        assert(wire_checks(b.checks)[i] == b.checks[i].wire());
        law_check_can_be_read_back(a.checks[i], b.checks[i]);
    }
    assert(a.checks =~= b.checks);
}

} // verus!
