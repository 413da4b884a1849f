//! The service: a first cycle that must succeed before the service exists, then one
//! cycle after each update interval, whose failures leave the pool as it was.
use vstd::prelude::*;
use core::time::Duration;
use crate::cycle::{
    cycle_step, lemma_only_success_changes_pool, uri_accepted, Action, CycleError, CycleView, Event,
    FetchCycle,
};
use crate::pool::{PoolEntry, ServerPool};

verus! {

/// The deadline of each cycle, in milliseconds.
pub const CYCLE_DEADLINE_MS: u64 = 30000;

/// The update interval that a builder starts with, in seconds.
pub const DEFAULT_UPDATE_INTERVAL_SECS: u64 = 3600;

/// The duration of `secs` whole seconds.
pub uninterp spec fn duration_from_secs(secs: u64) -> Duration;

/// Relies on `Duration::from_secs`, which depends on its argument alone.
pub assume_specification[ core::time::Duration::from_secs ](secs: u64) -> (r: Duration)
    ensures
        r == duration_from_secs(secs),
;

/// Gathers what a service needs before its first cycle.
pub struct OnlineConfigServiceBuilder<T> {
    config_url: String,
    balancer: ServerPool<T>,
    config_update_interval: Duration,
}

/// The builder, as the contracts see it.
pub struct BuilderView<T> {
    pub url: Seq<char>,
    pub pool: Seq<PoolEntry<T>>,
    pub interval: Duration,
}

impl<T> View for OnlineConfigServiceBuilder<T> {
    type V = BuilderView<T>;

    closed spec fn view(&self) -> BuilderView<T> {
        BuilderView {
            url: self.config_url@,
            pool: self.balancer@,
            interval: self.config_update_interval,
        }
    }
}

/// Where the service stands.
#[derive(Clone, Copy, Debug, PartialEq, Eq, Structural)]
pub enum Phase {
    /// The first cycle is in flight.
    Starting,
    /// The first cycle succeeded; cycles run after each interval.
    Running,
    /// The first cycle failed: the service never started.
    Failed,
}

/// Keeps the entries of the pool that come from one Online Config URL up to date.
pub struct OnlineConfigService<T> {
    config_url: String,
    config_update_interval: Duration,
    balancer: ServerPool<T>,
    phase: Phase,
    cycle: FetchCycle<T>,
}

/// The service, as the contracts see it.
pub struct ServiceView<T> {
    pub url: Seq<char>,
    pub interval: Duration,
    pub pool: Seq<PoolEntry<T>>,
    pub phase: Phase,
    pub cycle: CycleView<T>,
}

impl<T> View for OnlineConfigService<T> {
    type V = ServiceView<T>;

    closed spec fn view(&self) -> ServiceView<T> {
        ServiceView {
            url: self.config_url@,
            interval: self.config_update_interval,
            pool: self.balancer@,
            phase: self.phase,
            cycle: self.cycle@,
        }
    }
}

impl<T> ServiceView<T> {
    pub open spec fn wf(self) -> bool {
        &&& self.cycle.wf()
        &&& self.cycle.deadline_ms == CYCLE_DEADLINE_MS
        &&& self.phase is Failed ==> !self.cycle.in_flight()
    }
}

/// What the service does with the action `a` of its cycle in phase `phase`: a cycle
/// that ends sends the service to sleep, but the first one that fails aborts it.
pub open spec fn service_action(phase: Phase, a: Action) -> Action {
    match a {
        Action::Done(outcome) => match (phase, outcome) {
            (Phase::Starting, Err(e)) => Action::Abort(e),
            _ => Action::Sleep(outcome),
        },
        _ => a,
    }
}

/// The phase after the action `a` of the cycle in phase `phase`.
pub open spec fn phase_after(phase: Phase, a: Action) -> Phase {
    match (phase, a) {
        (Phase::Starting, Action::Done(Ok(_))) => Phase::Running,
        (Phase::Starting, Action::Done(Err(_))) => Phase::Failed,
        _ => phase,
    }
}

/// One step of the service: from state `s`, the event `e` at time `now` leads to state
/// `t` and action `r`.
pub open spec fn service_step<T>(s: ServiceView<T>, now: u64, e: Event<T>, t: ServiceView<T>, r: Action) -> bool {
    &&& t.url == s.url
    &&& t.interval == s.interval
    &&& s.phase is Failed ==> r is Ignored && t == s
    &&& !(s.phase is Failed) && e is Wake ==> {
        if s.phase is Running && !s.cycle.in_flight() {
            &&& t.pool == s.pool
            &&& t.phase == s.phase
            &&& uri_accepted(s.url) ==> r is Send && t.cycle.stage is Fetching
            &&& !uri_accepted(s.url) ==> r == Action::Sleep(Err(CycleError::RequestConstruction))
                && !t.cycle.in_flight()
        } else {
            r is Ignored && t == s
        }
    }
    &&& !(s.phase is Failed) && !(e is Wake) ==> exists|a: Action|
        cycle_step(s.cycle, s.pool, now, e, t.cycle, t.pool, a) && r == service_action(s.phase, a)
            && t.phase == phase_after(s.phase, a)
}

impl<T> OnlineConfigServiceBuilder<T> {
    /// A builder for the Online Config at `config_url` that updates `balancer`, with the
    /// default update interval.
    pub fn new(config_url: String, balancer: ServerPool<T>) -> (r: Self)
        ensures
            r@.url == config_url@,
            r@.pool == balancer@,
            r@.interval == duration_from_secs(DEFAULT_UPDATE_INTERVAL_SECS),
    {
        OnlineConfigServiceBuilder {
            config_url,
            balancer,
            config_update_interval: Duration::from_secs(DEFAULT_UPDATE_INTERVAL_SECS),
        }
    }

    /// Sets the interval between cycles.
    pub fn set_update_interval(&mut self, update_interval: Duration)
        ensures
            final(self)@.interval == update_interval,
            final(self)@.url == old(self)@.url,
            final(self)@.pool == old(self)@.pool,
    {
        self.config_update_interval = update_interval;
    }

    /// The interval between cycles.
    pub fn update_interval(&self) -> (r: Duration)
        ensures
            r == self@.interval,
    {
        self.config_update_interval
    }

    /// Starts the service's first cycle at `now_ms`. Where the URL is no URI the first
    /// cycle fails at once and the service is aborted; else its request is to be sent.
    pub fn build(self, now_ms: u64) -> (r: (OnlineConfigService<T>, Action))
        ensures
            r.0@.wf(),
            r.0@.url == self@.url,
            r.0@.interval == self@.interval,
            r.0@.pool == self@.pool,
            uri_accepted(self@.url) ==> r.1 is Send && r.0@.phase is Starting
                && r.0@.cycle.stage is Fetching,
            !uri_accepted(self@.url) ==> r.1 == Action::Abort(CycleError::RequestConstruction)
                && r.0@.phase is Failed,
    {
        let mut cycle = FetchCycle::new(CYCLE_DEADLINE_MS);
        let a = cycle.begin(self.config_url.as_str(), now_ms);
        let (phase, r) = match a {
            Action::Done(Err(e)) => (Phase::Failed, Action::Abort(e)),
            other => (Phase::Starting, other),
        };
        (
            OnlineConfigService {
                config_url: self.config_url,
                config_update_interval: self.config_update_interval,
                balancer: self.balancer,
                phase,
                cycle,
            },
            r,
        )
    }
}

impl<T> OnlineConfigService<T> {
    /// Where the service stands.
    pub fn phase(&self) -> (r: Phase)
        ensures
            r == self@.phase,
    {
        self.phase
    }

    /// The pool that the service updates.
    pub fn balancer(&self) -> (r: &ServerPool<T>)
        ensures
            r@ == self@.pool,
    {
        &self.balancer
    }

    /// The servers that the cycle in flight has parsed, for their integrity check.
    pub fn pending_servers(&self) -> (r: &Vec<T>)
        ensures
            r@ == self@.cycle.servers,
    {
        self.cycle.servers()
    }

    /// The URL of the Online Config.
    pub fn config_url(&self) -> (r: &String)
        ensures
            r@ == self@.url,
    {
        &self.config_url
    }

    /// The interval between cycles.
    pub fn update_interval(&self) -> (r: Duration)
        ensures
            r == self@.interval,
    {
        self.config_update_interval
    }

    /// Hands the service the event `event` at `now_ms`.
    /// A failed service ignores every event. `Wake` starts a cycle where the service runs
    /// and none is in flight. Every other event goes to the cycle in flight; a cycle that
    /// ends sends the service to sleep for the interval, unless it is the first and
    /// failed: then the service is aborted.
    pub fn step(&mut self, now_ms: u64, event: Event<T>) -> (r: Action)
        requires
            old(self)@.wf(),
        ensures
            final(self)@.wf(),
            final(self)@.url == old(self)@.url,
            final(self)@.interval == old(self)@.interval,
            service_step(old(self)@, now_ms, event, final(self)@, r),
    {
        if self.phase == Phase::Failed {
            return Action::Ignored;
        }
        if matches!(event, Event::Wake) {
            if self.phase != Phase::Running || self.cycle.stage() != crate::cycle::Stage::Idle {
                return Action::Ignored;
            }
            let a = self.cycle.begin(self.config_url.as_str(), now_ms);
            return match a {
                Action::Done(outcome) => Action::Sleep(outcome),
                other => other,
            };
        }
        let ghost old_phase = self.phase;
        let a = self.cycle.advance(&mut self.balancer, now_ms, event);
        let ghost ga = a;
        let r = match a {
            Action::Done(outcome) => {
                if self.phase == Phase::Starting {
                    match outcome {
                        Ok(t) => {
                            self.phase = Phase::Running;
                            Action::Sleep(Ok(t))
                        },
                        Err(e) => {
                            self.phase = Phase::Failed;
                            Action::Abort(e)
                        },
                    }
                } else {
                    Action::Sleep(outcome)
                }
            },
            other => other,
        };
        proof {
            assert(r == service_action(old_phase, ga));
            assert(self.phase == phase_after(old_phase, ga));
        }
        r
    }
}

} // verus!

verus! {

/// A failed service stays failed: it ignores every event and changes nothing.
pub proof fn lemma_failed_is_final<T>(s: ServiceView<T>, now: u64, e: Event<T>, t: ServiceView<T>, r: Action)
    requires
        s.phase is Failed,
        service_step(s, now, e, t, r),
    ensures
        r is Ignored,
        t == s,
{
}

/// While the first cycle is in flight, a step that aborts the service leaves it failed,
/// with the pool as it was; a step that sends it to sleep means the first cycle
/// succeeded, and the service runs.
pub proof fn lemma_first_cycle_decides<T>(s: ServiceView<T>, now: u64, e: Event<T>, t: ServiceView<T>, r: Action)
    requires
        s.phase is Starting,
        service_step(s, now, e, t, r),
    ensures
        r is Abort ==> t.phase is Failed && t.pool == s.pool && !t.cycle.in_flight(),
        r is Sleep ==> t.phase is Running && r matches Action::Sleep(Ok(_)),
        !(r is Abort) && !(r is Sleep) ==> t.phase is Starting,
{
    if !(e is Wake) {
        let a = choose|a: Action|
            cycle_step(s.cycle, s.pool, now, e, t.cycle, t.pool, a) && r == service_action(
                s.phase,
                a,
            ) && t.phase == phase_after(s.phase, a);
        if !(a matches Action::Done(Ok(_))) {
            lemma_only_success_changes_pool(s.cycle, s.pool, now, e, t.cycle, t.pool, a);
        }
    }
}

/// Once running, the service runs for good. A cycle that fails leaves the pool as it was
/// and no cycle in flight, so that the next `Wake` starts the next one on schedule.
pub proof fn lemma_running_failure_keeps_pool<T>(
    s: ServiceView<T>,
    now: u64,
    e: Event<T>,
    t: ServiceView<T>,
    r: Action,
)
    requires
        s.phase is Running,
        service_step(s, now, e, t, r),
    ensures
        t.phase is Running,
        r matches Action::Sleep(Err(_)) ==> t.pool == s.pool && !t.cycle.in_flight(),
{
    if !(e is Wake) {
        let a = choose|a: Action|
            cycle_step(s.cycle, s.pool, now, e, t.cycle, t.pool, a) && r == service_action(
                s.phase,
                a,
            ) && t.phase == phase_after(s.phase, a);
        if !(a matches Action::Done(Ok(_))) {
            lemma_only_success_changes_pool(s.cycle, s.pool, now, e, t.cycle, t.pool, a);
        }
    }
}

/// A running service with no cycle in flight starts one on `Wake`, whatever came of the
/// cycles before: it sends the request, or, where the URL is no URI, goes back to sleep.
pub proof fn lemma_wake_starts_cycle<T>(s: ServiceView<T>, now: u64, t: ServiceView<T>, r: Action)
    requires
        s.phase is Running,
        !s.cycle.in_flight(),
        service_step(s, now, Event::Wake, t, r),
    ensures
        uri_accepted(s.url) ==> r is Send && t.cycle.in_flight(),
        !uri_accepted(s.url) ==> r == Action::Sleep(Err(CycleError::RequestConstruction)),
        t.pool == s.pool,
{
}

} // verus!
