//! The three kinds of health check and the path under which each is exposed.
use vstd::prelude::*;

verus! {

/// The health check kind associated with an endpoint.
#[derive(Debug, Clone, Copy, PartialEq, Eq, Structural)]
pub enum Kind {
    /// Liveness checks are exposed at `/health/live`.
    Liveness,
    /// Readiness checks are exposed at `/health/ready`.
    Readiness,
    /// Startup checks are exposed at `/health/started`.
    Startup,
}

impl Kind {
    /// The path of the kind's endpoint below the mount path.
    pub open spec fn spec_path(self) -> Seq<char> {
        match self {
            Kind::Liveness => "/live"@,
            Kind::Readiness => "/ready"@,
            Kind::Startup => "/started"@,
        }
    }

    /// Returns the path of the kind's endpoint below the mount path.
    pub fn path(self) -> (path: &'static str)
        ensures
            path@ == self.spec_path(),
    {
        match self {
            Kind::Liveness => "/live",
            Kind::Readiness => "/ready",
            Kind::Startup => "/started",
        }
    }
}

/// Whether a request for `wanted` covers checks of kind `kind`: without a kind
/// it covers them all.
pub open spec fn covers(wanted: Option<Kind>, kind: Kind) -> bool {
    match wanted {
        None => true,
        Some(k) => k == kind,
    }
}

/// Tells whether a request for `wanted` covers checks of kind `kind`.
pub fn is_covered(wanted: Option<Kind>, kind: Kind) -> (covered: bool)
    ensures
        covered == covers(wanted, kind),
{
    match wanted {
        None => true,
        Some(k) => k == kind,
    }
}

} // verus!
