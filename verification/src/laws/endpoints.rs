//! What a kind, a status and an endpoint are to a client.
use crate::endpoint::{Endpoint, Router};
use crate::kind::{is_covered, Kind};
use crate::registry::Health;
use crate::status::Status;
use vstd::prelude::*;

verus! {

/// Each kind has the path that is documented for it.
pub proof fn law_paths_of_kinds(kind: Kind, path: &'static str)
    requires
        call_ensures(Kind::path, (kind,), path),
    ensures
        kind == Kind::Liveness ==> path@ == "/live"@,
        kind == Kind::Readiness ==> path@ == "/ready"@,
        kind == Kind::Startup ==> path@ == "/started"@,
{
}

/// A request without a kind covers every check, and one with a kind covers the
/// checks of that kind and no others.
pub proof fn law_coverage(wanted: Option<Kind>, kind: Kind, covered: bool)
    requires
        call_ensures(is_covered, (wanted, kind), covered),
    ensures
        wanted is None ==> covered,
        wanted is Some && wanted->0 == kind ==> covered,
        wanted is Some && wanted->0 != kind ==> !covered,
{
}

/// `UP` stands for HTTP 200 and `DOWN` for HTTP 503, and they are written so.
pub proof fn law_statuses(status: Status, code: u16, text: &'static str)
    requires
        call_ensures(Status::http_status, (status,), code),
        call_ensures(Status::as_str, (status,), text),
    ensures
        status == Status::Up ==> code == 200 && text@ == "UP"@,
        status == Status::Down ==> code == 503 && text@ == "DOWN"@,
{
}

/// The aggregate endpoint is at the mount path. That of a kind is at the path of
/// the kind below it: behind the mount path without its slash at the end, if it
/// has one.
pub proof fn law_endpoint_of_kind(mount: &str, kind: Option<Kind>, endpoint: Endpoint)
    requires
        call_ensures(Endpoint::at, (mount, kind), endpoint),
    ensures
        endpoint.kind == kind,
        kind is None ==> endpoint.path@ == mount@,
        ({
            let base = if mount@.len() > 0 && mount@.last() == '/' {
                mount@.drop_last()
            } else {
                mount@
            };
            &&& kind == Some(Kind::Liveness) ==> endpoint.path@ == base + "/live"@
            &&& kind == Some(Kind::Readiness) ==> endpoint.path@ == base + "/ready"@
            &&& kind == Some(Kind::Startup) ==> endpoint.path@ == base + "/started"@
        }),
{
    reveal_strlit("/live");
    reveal_strlit("/ready");
    reveal_strlit("/started");
    if mount@.len() > 0 && mount@.last() == '/' {
        let base = mount@.drop_last();
        assert(mount@ + "/live"@.skip(1) =~= base + "/live"@);
        assert(mount@ + "/ready"@.skip(1) =~= base + "/ready"@);
        assert(mount@ + "/started"@.skip(1) =~= base + "/started"@);
    }
}

/// A registry is served by four endpoints: the aggregate one, and one for each
/// kind. Each is the one that stands under the mount path.
pub proof fn law_endpoints_of_router<P>(health: Health<P>, mount: &str, router: Router<P>)
    requires
        call_ensures(Health::<P>::router_at, (health, mount), router),
    ensures
        router.health == health,
        router.endpoints.len() == 4,
        router.endpoints[0].kind is None,
        router.endpoints[1].kind == Some(Kind::Liveness),
        router.endpoints[2].kind == Some(Kind::Readiness),
        router.endpoints[3].kind == Some(Kind::Startup),
        router.endpoints[0].path@ == mount@,
        ({
            let base = if mount@.len() > 0 && mount@.last() == '/' {
                mount@.drop_last()
            } else {
                mount@
            };
            &&& router.endpoints[1].path@ == base + "/live"@
            &&& router.endpoints[2].path@ == base + "/ready"@
            &&& router.endpoints[3].path@ == base + "/started"@
        }),
{
    reveal_strlit("/live");
    reveal_strlit("/ready");
    reveal_strlit("/started");
    let views = crate::endpoint::endpoint_views(router.endpoints@);
    assert(views.len() == 4);
    assert(views[0] == router.endpoints[0]@);
    assert(views[1] == router.endpoints[1]@);
    assert(views[2] == router.endpoints[2]@);
    assert(views[3] == router.endpoints[3]@);
    if mount@.len() > 0 && mount@.last() == '/' {
        let base = mount@.drop_last();
        assert(mount@ + "/live"@.skip(1) =~= base + "/live"@);
        assert(mount@ + "/ready"@.skip(1) =~= base + "/ready"@);
        assert(mount@ + "/started"@.skip(1) =~= base + "/started"@);
    }
}

/// Unless it is mounted elsewhere a registry is served at `/health`,
/// `/health/live`, `/health/ready` and `/health/started`.
pub proof fn law_default_endpoints<P>(health: Health<P>, router: Router<P>)
    requires
        call_ensures(Health::<P>::router, (health,), router),
    ensures
        router.health == health,
        router.endpoints.len() == 4,
        router.endpoints[0].kind is None,
        router.endpoints[1].kind == Some(Kind::Liveness),
        router.endpoints[2].kind == Some(Kind::Readiness),
        router.endpoints[3].kind == Some(Kind::Startup),
        router.endpoints[0].path@ == "/health"@,
        router.endpoints[1].path@ == "/health/live"@,
        router.endpoints[2].path@ == "/health/ready"@,
        router.endpoints[3].path@ == "/health/started"@,
{
    reveal_strlit("/health");
    reveal_strlit("/live");
    reveal_strlit("/ready");
    reveal_strlit("/started");
    reveal_strlit("/health/live");
    reveal_strlit("/health/ready");
    reveal_strlit("/health/started");
    let views = crate::endpoint::endpoint_views(router.endpoints@);
    assert(views.len() == 4);
    assert(views[0] == router.endpoints[0]@);
    assert(views[1] == router.endpoints[1]@);
    assert(views[2] == router.endpoints[2]@);
    assert(views[3] == router.endpoints[3]@);
    assert("/health"@.last() == 'h');
    assert("/health"@ + "/live"@ =~= "/health/live"@);
    assert("/health"@ + "/ready"@ =~= "/health/ready"@);
    assert("/health"@ + "/started"@ =~= "/health/started"@);
}

} // verus!
