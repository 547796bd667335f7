//! The registry of health checks, its builder, and providers of checks.
//!
//! A registry is generic in the procedure `P` that runs a check: it keeps the
//! procedure beside the name and the kind and hands it out again.
use crate::kind::{covers, is_covered, Kind};
use crate::run::{Run, RunView};
use std::sync::Arc;
use vstd::prelude::*;

verus! {

/// What a registered check is.
pub struct RegisteredCheckView<P> {
    pub name: Seq<char>,
    pub kind: Kind,
    pub check: P,
}

/// A check with its name and its kind.
pub struct RegisteredCheck<P> {
    pub name: String,
    pub kind: Kind,
    pub check: Arc<P>,
}

impl<P> View for RegisteredCheck<P> {
    type V = RegisteredCheckView<P>;

    open spec fn view(&self) -> RegisteredCheckView<P> {
        RegisteredCheckView { name: self.name@, kind: self.kind, check: *self.check }
    }
}

/// What each of the registered checks is.
pub open spec fn registered_views<P>(checks: Seq<RegisteredCheck<P>>) -> Seq<
    RegisteredCheckView<P>,
> {
    checks.map_values(|check: RegisteredCheck<P>| check@)
}

/// Whether every check has a name.
pub open spec fn all_named<P>(checks: Seq<RegisteredCheckView<P>>) -> bool {
    forall|i: int| 0 <= i < checks.len() ==> (#[trigger] checks[i]).name.len() > 0
}

/// The checks that a request for `wanted` covers, in the order of registration.
pub open spec fn selected<P>(
    checks: Seq<RegisteredCheckView<P>>,
    wanted: Option<Kind>,
) -> Seq<RegisteredCheckView<P>> {
    checks.filter(|check: RegisteredCheckView<P>| covers(wanted, check.kind))
}

/// One check under one name, once for each of the kinds.
pub open spec fn one_for_each<P>(kinds: Seq<Kind>, name: Seq<char>, check: P) -> Seq<
    RegisteredCheckView<P>,
> {
    kinds.map_values(|kind: Kind| RegisteredCheckView { name, kind, check })
}

/// Takes a name under which a check can be registered: one that is not empty.
pub fn validate_name(name: &str) -> (valid: String)
    requires
        name@.len() > 0,
    ensures
        valid@ == name@,
{
    name.to_owned()
}

/// A cloneable registry of health checks.
pub struct Health<P> {
    checks: Arc<Vec<RegisteredCheck<P>>>,
}

impl<P> View for Health<P> {
    type V = Seq<RegisteredCheckView<P>>;

    closed spec fn view(&self) -> Seq<RegisteredCheckView<P>> {
        registered_views(self.checks@)
    }
}

impl<P> Clone for Health<P> {
    fn clone(&self) -> (health: Self)
        ensures
            health@ == self@,
    {
        proof {
            use_type_invariant(self);
        }
        Health { checks: self.checks.clone() }
    }
}

impl<P> Default for Health<P> {
    fn default() -> (health: Self)
        ensures
            health@ == Seq::<RegisteredCheckView<P>>::empty(),
    {
        let checks: Vec<RegisteredCheck<P>> = Vec::new();
        assert(registered_views(checks@) == Seq::<RegisteredCheckView<P>>::empty());
        Health { checks: Arc::new(checks) }
    }
}

impl<P> Health<P> {
    #[verifier::type_invariant]
    spec fn named(self) -> bool {
        all_named(registered_views(self.checks@))
    }

    /// Starts building a health registry.
    pub fn builder() -> (builder: HealthBuilder<P>)
        ensures
            builder@ == Seq::<RegisteredCheckView<P>>::empty(),
    {
        HealthBuilder::default()
    }

    /// Returns the checks that a request for `wanted` covers, in the order of
    /// registration.
    pub fn select(&self, wanted: Option<Kind>) -> (checks: Vec<RegisteredCheck<P>>)
        ensures
            registered_views(checks@) == selected(self@, wanted),
            all_named(registered_views(checks@)),
    {
        proof {
            use_type_invariant(self);
        }
        let ghost all = self@;
        let mut checks: Vec<RegisteredCheck<P>> = Vec::new();
        assert(registered_views(checks@) == selected(all.take(0), wanted)) by {
            reveal(Seq::filter);
        }
        let mut i: usize = 0;
        while i < self.checks.len()
            invariant
                i <= self.checks.len(),
                all == registered_views(self.checks@),
                all_named(all),
                all_named(registered_views(checks@)),
                registered_views(checks@) == selected(all.take(i as int), wanted),
            decreases self.checks.len() - i,
        {
            let ghost before = checks@;
            let check = &self.checks[i];
            assert(check@ == all[i as int]);
            if is_covered(wanted, check.kind) {
                checks.push(
                    RegisteredCheck {
                        name: check.name.clone(),
                        kind: check.kind,
                        check: check.check.clone(),
                    },
                );
                assert(registered_views(checks@) == registered_views(before).push(all[i as int]));
            }
            assert(selected(all.take(i + 1), wanted) == if covers(wanted, all[i as int].kind) {
                selected(all.take(i as int), wanted).push(all[i as int])
            } else {
                selected(all.take(i as int), wanted)
            }) by {
                reveal(Seq::filter);
                assert(all.take(i + 1).drop_last() == all.take(i as int));
            }
            i += 1;
        }
        assert(all.take(i as int) == all);
        checks
    }

    /// Returns a run of the checks that a request for `wanted` covers, none of which
    /// was started.
    pub fn run(&self, wanted: Option<Kind>) -> (run: Run<P>)
        ensures
            run@ == RunView::new(selected(self@, wanted)),
            run@.wf(),
            all_named(selected(self@, wanted)),
    {
        Run::new(self.select(wanted))
    }
}

/// Builder for [`Health`].
pub struct HealthBuilder<P> {
    checks: Vec<RegisteredCheck<P>>,
}

impl<P> View for HealthBuilder<P> {
    type V = Seq<RegisteredCheckView<P>>;

    closed spec fn view(&self) -> Seq<RegisteredCheckView<P>> {
        registered_views(self.checks@)
    }
}

impl<P> Default for HealthBuilder<P> {
    fn default() -> (builder: Self)
        ensures
            builder@ == Seq::<RegisteredCheckView<P>>::empty(),
    {
        let checks: Vec<RegisteredCheck<P>> = Vec::new();
        assert(registered_views(checks@) == Seq::<RegisteredCheckView<P>>::empty());
        HealthBuilder { checks }
    }
}

/// A provider that can register one or more health check procedures.
///
/// A single provider can contribute liveness, readiness, startup, or multiple
/// kinds of checks.
pub trait HealthCheck<P>: Sized + Send + Sync + 'static {
    /// Registers this provider's checks with the supplied builder.
    fn register(self, builder: HealthBuilder<P>) -> (registered: HealthBuilder<P>);
}

impl<P> HealthBuilder<P> {
    #[verifier::type_invariant]
    spec fn named(self) -> bool {
        all_named(registered_views(self.checks@))
    }

    /// Includes a backend-specific health check provider.
    pub fn include_provider<C: HealthCheck<P>>(self, check: C) -> (builder: Self)
        ensures
            call_ensures(C::register, (check, self), builder),
    {
        check.register(self)
    }

    /// Registers a liveness check.
    pub fn liveness(self, name: &str, check: P) -> (builder: Self)
        requires
            name@.len() > 0,
        ensures
            builder@ == self@.push(
                RegisteredCheckView { name: name@, kind: Kind::Liveness, check },
            ),
    {
        self.check(Kind::Liveness, name, check)
    }

    /// Registers a readiness check.
    pub fn readiness(self, name: &str, check: P) -> (builder: Self)
        requires
            name@.len() > 0,
        ensures
            builder@ == self@.push(
                RegisteredCheckView { name: name@, kind: Kind::Readiness, check },
            ),
    {
        self.check(Kind::Readiness, name, check)
    }

    /// Registers a startup check.
    pub fn startup(self, name: &str, check: P) -> (builder: Self)
        requires
            name@.len() > 0,
        ensures
            builder@ == self@.push(
                RegisteredCheckView { name: name@, kind: Kind::Startup, check },
            ),
    {
        self.check(Kind::Startup, name, check)
    }

    /// Registers the same check for more than one health kind.
    pub fn check_for(self, kinds: &[Kind], name: &str, check: P) -> (builder: Self)
        requires
            name@.len() > 0,
        ensures
            builder@ == self@ + one_for_each(kinds@, name@, check),
    {
        proof {
            use_type_invariant(&self);
        }
        let ghost added = one_for_each(kinds@, name@, check);
        let name = validate_name(name);
        let check = Arc::new(check);
        let mut checks = self.checks;
        let ghost before = registered_views(checks@);
        let mut i: usize = 0;
        while i < kinds.len()
            invariant
                i <= kinds.len(),
                added == one_for_each(kinds@, name@, *check),
                registered_views(checks@) == before + added.take(i as int),
            decreases kinds.len() - i,
        {
            assert(added.take(i + 1) == added.take(i as int).push(added[i as int]));
            let ghost pushed = checks@;
            checks.push(
                RegisteredCheck { name: name.clone(), kind: kinds[i], check: check.clone() },
            );
            assert(registered_views(checks@) == registered_views(pushed).push(added[i as int]));
            i += 1;
        }
        assert(added.take(i as int) == added);
        HealthBuilder { checks }
    }

    /// Finishes the registry.
    pub fn build(self) -> (health: Health<P>)
        ensures
            health@ == self@,
            all_named(health@),
    {
        proof {
            use_type_invariant(&self);
        }
        Health { checks: Arc::new(self.checks) }
    }

    /// Registers a check of the given kind.
    fn check(self, kind: Kind, name: &str, check: P) -> (builder: Self)
        requires
            name@.len() > 0,
        ensures
            builder@ == self@.push(RegisteredCheckView { name: name@, kind, check }),
    {
        proof {
            use_type_invariant(&self);
        }
        let mut checks = self.checks;
        let ghost before = checks@;
        checks.push(
            RegisteredCheck { name: validate_name(name), kind, check: Arc::new(check) },
        );
        assert(registered_views(checks@) == registered_views(before).push(
            RegisteredCheckView { name: name@, kind, check },
        ));
        HealthBuilder { checks }
    }
}

/// A check that a provider contributes.
pub struct ProvidedCheck<P> {
    pub kind: Kind,
    pub name: String,
    pub check: P,
}

impl<P> View for ProvidedCheck<P> {
    type V = RegisteredCheckView<P>;

    open spec fn view(&self) -> RegisteredCheckView<P> {
        RegisteredCheckView { name: self.name@, kind: self.kind, check: self.check }
    }
}

/// The checks of a provider as they are registered.
pub open spec fn provided_views<P>(checks: Seq<ProvidedCheck<P>>) -> Seq<RegisteredCheckView<P>> {
    checks.map_values(|check: ProvidedCheck<P>| check@)
}

/// A provider that registers the checks that it holds, in their order.
pub struct Provider<P> {
    checks: Vec<ProvidedCheck<P>>,
}

impl<P> View for Provider<P> {
    type V = Seq<RegisteredCheckView<P>>;

    closed spec fn view(&self) -> Seq<RegisteredCheckView<P>> {
        provided_views(self.checks@)
    }
}

impl<P> Provider<P> {
    #[verifier::type_invariant]
    spec fn named(self) -> bool {
        all_named(provided_views(self.checks@))
    }

    /// Creates a provider of the given checks.
    pub fn new(checks: Vec<ProvidedCheck<P>>) -> (provider: Self)
        requires
            all_named(provided_views(checks@)),
        ensures
            provider@ == provided_views(checks@),
    {
        Provider { checks }
    }

}

impl<P: Send + Sync + 'static> Provider<P> {
    /// Converts this provider into a health registry.
    pub fn into_health(self) -> (health: Health<P>)
        ensures
            health@ == self@,
    {
        let health = Health::builder().include_provider(self).build();
        assert(health@ == self@);
        health
    }
}

impl<P: Send + Sync + 'static> HealthCheck<P> for Provider<P> {
    fn register(self, builder: HealthBuilder<P>) -> (registered: HealthBuilder<P>)
        ensures
            registered@ == builder@ + self@,
    {
        proof {
            use_type_invariant(&self);
        }
        let ghost before = builder@;
        let ghost added = provided_views(self.checks@);
        let mut builder = builder;
        for check in iter: self.checks
            invariant
                added == provided_views(iter.seq()),
                all_named(added),
                builder@ == before + added.take(iter.index()),
        {
            let ghost i = iter.index();
            assert(check@ == added[i]);
            assert(added.take(i + 1) == added.take(i) + one_for_each(
                seq![check.kind],
                check.name@,
                check.check,
            ));
            builder = builder.check_for(&[check.kind], check.name.as_str(), check.check);
        }
        assert(added.take(added.len() as int) == added);
        builder
    }
}

} // verus!
