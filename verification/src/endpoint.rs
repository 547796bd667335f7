//! The endpoints of a health registry and where they are mounted.
use crate::kind::Kind;
use crate::registry::Health;
use vstd::prelude::*;

verus! {

/// What an endpoint is.
pub struct EndpointView {
    pub path: Seq<char>,
    pub kind: Option<Kind>,
}

/// An endpoint: its path and the kind of the checks that it runs. Without a kind
/// it runs all checks.
#[derive(Debug, PartialEq, Eq)]
pub struct Endpoint {
    pub path: String,
    pub kind: Option<Kind>,
}

impl View for Endpoint {
    type V = EndpointView;

    open spec fn view(&self) -> EndpointView {
        EndpointView { path: self.path@, kind: self.kind }
    }
}

/// The path of an endpoint under `mount`. The aggregate endpoint is at the mount
/// path itself. A slash at the end of the mount path is not doubled.
pub open spec fn endpoint_path(mount: Seq<char>, kind: Option<Kind>) -> Seq<char> {
    match kind {
        None => mount,
        Some(k) => if mount.len() > 0 && mount.last() == '/' {
            mount + k.spec_path().skip(1)
        } else {
            mount + k.spec_path()
        },
    }
}

/// The endpoint for `kind` under `mount`.
pub open spec fn endpoint_at(mount: Seq<char>, kind: Option<Kind>) -> EndpointView {
    EndpointView { path: endpoint_path(mount, kind), kind }
}

/// The endpoints under `mount`: the aggregate one and one for each kind.
pub open spec fn layout(mount: Seq<char>) -> Seq<EndpointView> {
    seq![
        endpoint_at(mount, None),
        endpoint_at(mount, Some(Kind::Liveness)),
        endpoint_at(mount, Some(Kind::Readiness)),
        endpoint_at(mount, Some(Kind::Startup)),
    ]
}

/// What each of the endpoints is.
pub open spec fn endpoint_views(endpoints: Seq<Endpoint>) -> Seq<EndpointView> {
    endpoints.map_values(|endpoint: Endpoint| endpoint@)
}

impl Endpoint {
    /// Returns the endpoint for `kind` under `mount`.
    pub fn at(mount: &str, kind: Option<Kind>) -> (endpoint: Self)
        ensures
            endpoint@ == endpoint_at(mount@, kind),
    {
        let path = match kind {
            None => mount.to_owned(),
            Some(k) => {
                let below = k.path();
                proof {
                    reveal_strlit("/live");
                    reveal_strlit("/ready");
                    reveal_strlit("/started");
                }
                let len = mount.unicode_len();
                if len > 0 && mount.get_char(len - 1) == '/' {
                    mount.to_owned().concat(below.substring_char(1, below.unicode_len()))
                } else {
                    mount.to_owned().concat(below)
                }
            },
        };
        Endpoint { path, kind }
    }
}

/// A registry with the endpoints that serve it.
pub struct Router<P> {
    pub health: Health<P>,
    pub endpoints: Vec<Endpoint>,
}

impl<P> Health<P> {
    /// Returns the registry with its endpoints at `/health`, `/health/live`,
    /// `/health/ready`, and `/health/started`.
    pub fn router(self) -> (router: Router<P>)
        ensures
            router.health == self,
            endpoint_views(router.endpoints@) == layout("/health"@),
    {
        self.router_at("/health")
    }

    /// Returns the registry with the same endpoints under another mount path.
    pub fn router_at(self, mount: &str) -> (router: Router<P>)
        ensures
            router.health == self,
            endpoint_views(router.endpoints@) == layout(mount@),
    {
        let mut endpoints: Vec<Endpoint> = Vec::new();
        endpoints.push(Endpoint::at(mount, None));
        endpoints.push(Endpoint::at(mount, Some(Kind::Liveness)));
        endpoints.push(Endpoint::at(mount, Some(Kind::Readiness)));
        endpoints.push(Endpoint::at(mount, Some(Kind::Startup)));
        assert(endpoint_views(endpoints@) == layout(mount@));
        Router { health: self, endpoints }
    }
}

} // verus!
