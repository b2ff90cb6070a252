use vstd::prelude::*;

use crate::ports::{admissible, port_admissible};
use crate::revision::{same_revision, Revision};

verus! {

/// Where the supervisor stands in one deployment cycle. The port is that of
/// the new backend being brought up (`Spawning`, `Handover`, `Binding`), or of
/// the live backend whose forwarder is being put back (`Restoring`).
///
/// The public port is handed over by rebinding: the old forwarder releases it
/// (`Handover`) before the new one binds it (`Binding`), so between the two no
/// new connection is accepted, while the ones already open go on. A new
/// backend counts as ready once it has been spawned: nothing waits for it to
/// listen before the forwarder relays to it.
#[derive(Debug, Clone, Copy, PartialEq, Eq)]
pub enum Phase {
    /// Live (or degraded), waiting for the next poll tick.
    Idle,
    /// Waiting for the source to be fetched and its revision read.
    Fetching,
    /// Waiting for the build tool.
    Building,
    /// Waiting for the migration tool; its outcome does not stop the cycle.
    Migrating,
    /// Waiting for a free port.
    Allocating,
    /// Waiting for the new backend process to be spawned.
    Spawning(u16),
    /// Waiting for the old forwarder to release the public port.
    Handover(u16),
    /// Waiting for the new forwarder to bind the public port.
    Binding(u16),
    /// Waiting for a forwarder to the live backend to bind the public port
    /// again, after a swap failed or an earlier attempt to bind it did.
    Restoring(u16),
    /// Stopped for good: the public port could not be bound while no backend
    /// had ever been live, which is a startup error.
    Halted,
}

/// What happened outside since the last decision.
#[derive(Debug)]
pub enum Event<R> {
    /// The poll interval has passed (or the supervisor has just started).
    Tick,
    /// The source was fetched; the revision read, or `None` when the
    /// version-control tool failed.
    Fetched(Option<R>),
    /// The build tool finished; whether it succeeded.
    Built(bool),
    /// The migration tool finished; whether it succeeded.
    Migrated(bool),
    /// The port search finished; the port found, if any.
    PortChosen(Option<u16>),
    /// Whether the new backend process could be spawned.
    Spawned(bool),
    /// The old forwarder no longer listens on the public port.
    ForwarderStopped,
    /// Whether the forwarder that was asked for bound the public port.
    ForwarderBound(bool),
}

/// What the supervisor asks the outside world to do next.
#[derive(Debug, Clone, Copy, PartialEq, Eq)]
pub enum Action {
    /// Nothing until the next event.
    Wait,
    /// Fetch or update the source and read its revision.
    FetchRevision,
    /// Run the build tool on the source.
    Build,
    /// Run the migration tool on the source.
    RunMigrations,
    /// Search for a free port other than `avoid`.
    AllocatePort { avoid: Option<u16> },
    /// Start the new backend binary with `port` as its argument.
    SpawnBackend { port: u16 },
    /// Stop the live forwarder from accepting; its open connections go on.
    StopForwarder,
    /// Bind a forwarder on `public_port` that relays to `target_port`.
    StartForwarder { public_port: u16, target_port: u16 },
    /// Terminate the backend on `port` once the connections of its retired
    /// forwarder have drained.
    RetireBackend { port: u16 },
    /// Terminate the new backend on `abandon`; when `restore` is set, bind a
    /// forwarder on the public port to that live backend again.
    Rollback { abandon: u16, restore: Option<u16> },
    /// Terminate the new backend on `abandon` and stop the supervisor with a
    /// startup error: the public port cannot be bound.
    Halt { abandon: u16 },
}

/// The supervisor's state. `R` is `Revision` in running code and its view,
/// `Seq<u8>`, in contracts.
pub struct DeploymentState<R> {
    /// The port that clients connect to.
    pub public_port: u16,
    /// The revision that is live; advanced only when a swap has completed.
    pub commit: Option<R>,
    /// The revision that the current cycle is deploying.
    pub pending: Option<R>,
    /// The port of the live backend.
    pub active: Option<u16>,
    /// The target port of the forwarder that holds the public port.
    pub forwarder: Option<u16>,
    pub phase: Phase,
}

/// The view of an optional revision.
pub open spec fn rev_view(r: Option<Revision>) -> Option<Seq<u8>> {
    match r {
        Some(v) => Some(v@),
        None => None,
    }
}

impl View for Event<Revision> {
    type V = Event<Seq<u8>>;

    open spec fn view(&self) -> Event<Seq<u8>> {
        match *self {
            Event::Tick => Event::Tick,
            Event::Fetched(r) => Event::Fetched(rev_view(r)),
            Event::Built(ok) => Event::Built(ok),
            Event::Migrated(ok) => Event::Migrated(ok),
            Event::PortChosen(p) => Event::PortChosen(p),
            Event::Spawned(ok) => Event::Spawned(ok),
            Event::ForwarderStopped => Event::ForwarderStopped,
            Event::ForwarderBound(ok) => Event::ForwarderBound(ok),
        }
    }
}

impl View for DeploymentState<Revision> {
    type V = DeploymentState<Seq<u8>>;

    open spec fn view(&self) -> DeploymentState<Seq<u8>> {
        DeploymentState {
            public_port: self.public_port,
            commit: rev_view(self.commit),
            pending: rev_view(self.pending),
            active: self.active,
            forwarder: self.forwarder,
            phase: self.phase,
        }
    }
}

/// The state before anything has been deployed.
pub open spec fn initial(public_port: u16) -> DeploymentState<Seq<u8>> {
    DeploymentState {
        public_port,
        commit: None,
        pending: None,
        active: None,
        forwarder: None,
        phase: Phase::Idle,
    }
}

/// Whether the phase belongs to a deployment in progress.
pub open spec fn deploying(phase: Phase) -> bool {
    match phase {
        Phase::Building | Phase::Migrating | Phase::Allocating | Phase::Spawning(_)
        | Phase::Handover(_) | Phase::Binding(_) => true,
        _ => false,
    }
}

/// The invariant of the supervisor's state: a pending revision exists exactly
/// while a deployment is in progress and differs from the live one; the
/// forwarder, when bound, relays to the live backend, and a cycle starts only
/// once the live backend has its forwarder; a new backend's port is never the
/// live one's; the old forwarder is gone before a new one binds.
pub open spec fn well_formed(s: DeploymentState<Seq<u8>>) -> bool {
    &&& (s.pending is Some <==> deploying(s.phase))
    &&& (s.pending is Some ==> s.pending != s.commit)
    &&& (s.forwarder is Some ==> s.forwarder == s.active)
    &&& match s.phase {
        Phase::Fetching | Phase::Building | Phase::Migrating | Phase::Allocating => s.forwarder
            == s.active,
        Phase::Spawning(p) => admissible(p, s.active) && s.forwarder == s.active,
        Phase::Handover(p) => admissible(p, s.active) && s.forwarder is Some,
        Phase::Binding(p) => admissible(p, s.active) && s.forwarder is None,
        Phase::Restoring(q) => s.active == Some(q) && s.forwarder is None,
        _ => true,
    }
}

/// The state with the phase replaced.
pub open spec fn with_phase(s: DeploymentState<Seq<u8>>, phase: Phase) -> DeploymentState<Seq<u8>> {
    DeploymentState { phase, ..s }
}

/// A cycle given up: back to waiting, with the live deployment as it was.
pub open spec fn abandoned(s: DeploymentState<Seq<u8>>) -> DeploymentState<Seq<u8>> {
    DeploymentState { pending: None, phase: Phase::Idle, ..s }
}

/// The decision on `e` in state `s`: the next state and the action to take.
/// An event that does not belong to the current phase changes nothing.
pub open spec fn step_spec(s: DeploymentState<Seq<u8>>, e: Event<Seq<u8>>) -> (
    DeploymentState<Seq<u8>>,
    Action,
) {
    match (s.phase, e) {
        (Phase::Idle, Event::Tick) => match (s.active, s.forwarder) {
            (Some(q), None) => (
                with_phase(s, Phase::Restoring(q)),
                Action::StartForwarder { public_port: s.public_port, target_port: q },
            ),
            _ => (with_phase(s, Phase::Fetching), Action::FetchRevision),
        },
        (Phase::Fetching, Event::Fetched(Some(r))) => {
            if s.commit == Some(r) {
                (abandoned(s), Action::Wait)
            } else {
                (
                    DeploymentState { pending: Some(r), phase: Phase::Building, ..s },
                    Action::Build,
                )
            }
        },
        (Phase::Fetching, Event::Fetched(None)) => (abandoned(s), Action::Wait),
        (Phase::Building, Event::Built(ok)) => {
            if ok {
                (with_phase(s, Phase::Migrating), Action::RunMigrations)
            } else {
                (abandoned(s), Action::Wait)
            }
        },
        (Phase::Migrating, Event::Migrated(_)) => (
            with_phase(s, Phase::Allocating),
            Action::AllocatePort { avoid: s.active },
        ),
        (Phase::Allocating, Event::PortChosen(Some(p))) => {
            if admissible(p, s.active) {
                (with_phase(s, Phase::Spawning(p)), Action::SpawnBackend { port: p })
            } else {
                (abandoned(s), Action::Wait)
            }
        },
        (Phase::Allocating, Event::PortChosen(None)) => (abandoned(s), Action::Wait),
        (Phase::Spawning(p), Event::Spawned(ok)) => {
            if !ok {
                (abandoned(s), Action::Wait)
            } else if s.forwarder is Some {
                (with_phase(s, Phase::Handover(p)), Action::StopForwarder)
            } else {
                (
                    with_phase(s, Phase::Binding(p)),
                    Action::StartForwarder { public_port: s.public_port, target_port: p },
                )
            }
        },
        (Phase::Handover(p), Event::ForwarderStopped) => (
            DeploymentState { forwarder: None, phase: Phase::Binding(p), ..s },
            Action::StartForwarder { public_port: s.public_port, target_port: p },
        ),
        (Phase::Binding(p), Event::ForwarderBound(ok)) => {
            if ok {
                (
                    DeploymentState {
                        commit: s.pending,
                        pending: None,
                        active: Some(p),
                        forwarder: Some(p),
                        phase: Phase::Idle,
                        ..s
                    },
                    match s.active {
                        Some(q) => Action::RetireBackend { port: q },
                        None => Action::Wait,
                    },
                )
            } else {
                match s.active {
                    Some(q) => (
                        DeploymentState { pending: None, phase: Phase::Restoring(q), ..s },
                        Action::Rollback { abandon: p, restore: Some(q) },
                    ),
                    None => (
                        DeploymentState { pending: None, phase: Phase::Halted, ..s },
                        Action::Halt { abandon: p },
                    ),
                }
            }
        },
        (Phase::Restoring(q), Event::ForwarderBound(ok)) => (
            DeploymentState {
                forwarder: if ok {
                    Some(q)
                } else {
                    None
                },
                phase: Phase::Idle,
                ..s
            },
            Action::Wait,
        ),
        _ => (s, Action::Wait),
    }
}

/// Every decision keeps the state well formed.
pub proof fn lemma_step_keeps_well_formed(s: DeploymentState<Seq<u8>>, e: Event<Seq<u8>>)
    requires
        well_formed(s),
    ensures
        well_formed(step_spec(s, e).0),
{
}

/// The state after deciding on each of `events` in turn.
pub open spec fn run(s: DeploymentState<Seq<u8>>, events: Seq<Event<Seq<u8>>>) -> DeploymentState<
    Seq<u8>,
>
    decreases events.len(),
{
    if events.len() == 0 {
        s
    } else {
        step_spec(run(s, events.drop_last()), events.last()).0
    }
}

/// The action decided on the `i`-th of `events`.
pub open spec fn action_at(s: DeploymentState<Seq<u8>>, events: Seq<Event<Seq<u8>>>, i: int) -> Action {
    step_spec(run(s, events.take(i)), events[i]).1
}

/// `t` is `s` between two polls: the same live deployment, nothing pending,
/// waiting for a tick or for a revision.
pub open spec fn between_polls(t: DeploymentState<Seq<u8>>, s: DeploymentState<Seq<u8>>) -> bool {
    &&& t.public_port == s.public_port
    &&& t.commit == s.commit
    &&& t.pending is None
    &&& t.active == s.active
    &&& t.forwarder == s.forwarder
    &&& (t.phase == Phase::Idle || t.phase == Phase::Fetching)
}

/// Whether `e` reports a revision other than `live`.
pub open spec fn reports_new_revision(e: Event<Seq<u8>>, live: Option<Seq<u8>>) -> bool {
    match e {
        Event::Fetched(Some(r)) => live != Some(r),
        _ => false,
    }
}

proof fn lemma_quiet_prefix(s: DeploymentState<Seq<u8>>, events: Seq<Event<Seq<u8>>>, n: int)
    requires
        well_formed(s),
        between_polls(s, s),
        s.forwarder == s.active,
        0 <= n <= events.len(),
        forall|i: int| 0 <= i < events.len() ==> !reports_new_revision(#[trigger] events[i], s.commit),
    ensures
        between_polls(run(s, events.take(n)), s),
    decreases n,
{
    if n == 0 {
        assert(events.take(0).len() == 0);
    } else {
        lemma_quiet_prefix(s, events, n - 1);
        assert(events.take(n).drop_last() =~= events.take(n - 1));
        assert(events.take(n).last() == events[n - 1]);
        assert(!reports_new_revision(events[n - 1], s.commit));
    }
}

/// While every revision read is the live one, or none could be read, poll
/// ticks start no build, no backend and no forwarder change: every decision is
/// to fetch or to wait, and the live deployment stays as it was. (This starts
/// from a state where a live backend has its forwarder; one that lost it gets
/// a new forwarder on the next tick.)
pub proof fn lemma_unchanged_revision_is_quiet(
    s: DeploymentState<Seq<u8>>,
    events: Seq<Event<Seq<u8>>>,
)
    requires
        well_formed(s),
        s.phase == Phase::Idle || s.phase == Phase::Fetching,
        s.forwarder == s.active,
        forall|i: int| 0 <= i < events.len() ==> !reports_new_revision(#[trigger] events[i], s.commit),
    ensures
        forall|i: int|
            0 <= i < events.len() ==> #[trigger] action_at(s, events, i) == Action::Wait
                || action_at(s, events, i) == Action::FetchRevision,
        between_polls(run(s, events), s),
{
    assert forall|i: int| 0 <= i < events.len() implies #[trigger] action_at(s, events, i)
        == Action::Wait || action_at(s, events, i) == Action::FetchRevision by {
        lemma_quiet_prefix(s, events, i);
        assert(!reports_new_revision(events[i], s.commit));
    }
    lemma_quiet_prefix(s, events, events.len() as int);
    assert(events.take(events.len() as int) =~= events);
}

/// A failed build leaves the live backend, its forwarder and the live revision
/// as they were, and the next poll that reads the same revision builds it
/// again.
pub proof fn lemma_build_failure_retries(s: DeploymentState<Seq<u8>>)
    requires
        well_formed(s),
        s.phase == Phase::Building,
    ensures
        ({
            let (t, a) = step_spec(s, Event::Built(false));
            let polled = step_spec(t, Event::Tick).0;
            let (u, b) = step_spec(polled, Event::Fetched(s.pending));
            &&& a == Action::Wait
            &&& t.commit == s.commit
            &&& t.active == s.active
            &&& t.forwarder == s.forwarder
            &&& b == Action::Build
            &&& u.pending == s.pending
            &&& u.phase == Phase::Building
        }),
{
}

/// When no free port is found, the cycle ends with the live backend, its
/// forwarder and the live revision as they were.
pub proof fn lemma_port_exhaustion_keeps_live(s: DeploymentState<Seq<u8>>)
    requires
        well_formed(s),
        s.phase == Phase::Allocating,
    ensures
        ({
            let (t, a) = step_spec(s, Event::PortChosen(None));
            &&& a == Action::Wait
            &&& t.commit == s.commit
            &&& t.active == s.active
            &&& t.forwarder == s.forwarder
            &&& t.phase == Phase::Idle
        }),
{
}

/// The live revision and the live backend change only when a new forwarder
/// has bound the public port: every failure before that leaves them as they
/// were.
pub proof fn lemma_live_changes_only_on_bind(s: DeploymentState<Seq<u8>>, e: Event<Seq<u8>>)
    requires
        well_formed(s),
    ensures
        (step_spec(s, e).0.commit != s.commit || step_spec(s, e).0.active != s.active) ==> (
        s.phase is Binding && e == Event::<Seq<u8>>::ForwarderBound(true)),
{
}

/// A new backend is only ever started on a port of the probe range that the
/// live backend does not hold.
pub proof fn lemma_new_backend_port_fresh(s: DeploymentState<Seq<u8>>, e: Event<Seq<u8>>)
    requires
        well_formed(s),
    ensures
        forall|p: u16|
            step_spec(s, e).1 == (Action::SpawnBackend { port: p }) ==> admissible(p, s.active),
{
}

/// A live backend without a forwarder gets one on the next tick: the
/// supervisor asks to bind the public port to it, and keeps the live revision.
pub proof fn lemma_missing_forwarder_is_rebound(s: DeploymentState<Seq<u8>>, q: u16)
    requires
        well_formed(s),
        s.phase == Phase::Idle,
        s.active == Some(q),
        s.forwarder is None,
    ensures
        ({
            let (t, a) = step_spec(s, Event::Tick);
            &&& a == (Action::StartForwarder { public_port: s.public_port, target_port: q })
            &&& t.phase == Phase::Restoring(q)
            &&& t.commit == s.commit
            &&& t.active == s.active
            &&& step_spec(t, Event::ForwarderBound(true)).0.forwarder == Some(q)
        }),
{
}

/// The supervisor halts only when the public port could not be bound while no
/// backend was live, and once halted it decides nothing more.
pub proof fn lemma_halt_only_at_startup(s: DeploymentState<Seq<u8>>, e: Event<Seq<u8>>)
    requires
        well_formed(s),
    ensures
        step_spec(s, e).0.phase == Phase::Halted ==> (s.phase == Phase::Halted || (s.phase is Binding
            && e == Event::<Seq<u8>>::ForwarderBound(false) && s.active is None)),
        s.phase == Phase::Halted ==> step_spec(s, e) == (s, Action::Wait),
        forall|p: u16|
            step_spec(s, e).1 == (Action::Halt { abandon: p }) ==> s.active is None
                && s.phase == Phase::Binding(p),
{
}

/// A completed swap: the new forwarder holds the public port and relays to
/// the new backend, the old forwarder had stopped accepting before it bound,
/// the new revision is live, and the old backend, on another port, is retired.
pub proof fn lemma_swap_completes(s: DeploymentState<Seq<u8>>, p: u16)
    requires
        well_formed(s),
        s.phase == Phase::Binding(p),
    ensures
        ({
            let (t, a) = step_spec(s, Event::ForwarderBound(true));
            &&& s.forwarder is None
            &&& t.forwarder == Some(p)
            &&& t.active == Some(p)
            &&& t.commit == s.pending
            &&& t.commit is Some
            &&& match s.active {
                Some(q) => q != p && a == (Action::RetireBackend { port: q }),
                None => a == Action::Wait,
            }
        }),
{
}

/// A backend is retired only after its forwarder stopped accepting and a new
/// forwarder bound the public port, and never the backend that now serves.
pub proof fn lemma_retire_after_handover(s: DeploymentState<Seq<u8>>, e: Event<Seq<u8>>)
    requires
        well_formed(s),
    ensures
        forall|q: u16|
            step_spec(s, e).1 == (Action::RetireBackend { port: q }) ==> {
                &&& s.phase is Binding
                &&& e == Event::<Seq<u8>>::ForwarderBound(true)
                &&& s.forwarder is None
                &&& s.active == Some(q)
                &&& step_spec(s, e).0.active != Some(q)
                &&& step_spec(s, e).0.forwarder != Some(q)
            },
{
}

impl DeploymentState<Revision> {
    /// A supervisor that has deployed nothing yet; the first tick starts the
    /// first deployment.
    pub fn new(public_port: u16) -> (r: Self)
        ensures
            r@ == initial(public_port),
            well_formed(r@),
    {
        DeploymentState {
            public_port,
            commit: None,
            pending: None,
            active: None,
            forwarder: None,
            phase: Phase::Idle,
        }
    }

    /// Whether `rev` is the revision that is live.
    pub fn is_live(&self, rev: &Revision) -> (r: bool)
        ensures
            r == (self@.commit == Some(rev@)),
    {
        match &self.commit {
            Some(c) => same_revision(c, rev),
            None => false,
        }
    }

    /// Whether the state is well formed; it always is when it was made by
    /// `new` and changed only by `step`.
    pub fn is_well_formed(&self) -> (r: bool)
        ensures
            r == well_formed(self@),
    {
        let deploying = match self.phase {
            Phase::Building | Phase::Migrating | Phase::Allocating | Phase::Spawning(_)
            | Phase::Handover(_) | Phase::Binding(_) => true,
            _ => false,
        };
        if self.pending.is_some() != deploying {
            return false;
        }
        if let (Some(p), Some(c)) = (&self.pending, &self.commit) {
            if same_revision(p, c) {
                return false;
            }
        }
        if let Some(t) = self.forwarder {
            match self.active {
                Some(a) => {
                    if a != t {
                        return false;
                    }
                },
                None => {
                    return false;
                },
            }
        }
        let bound = match (self.forwarder, self.active) {
            (Some(_), Some(_)) | (None, None) => true,
            _ => false,
        };
        match self.phase {
            Phase::Fetching | Phase::Building | Phase::Migrating | Phase::Allocating => bound,
            Phase::Spawning(p) => port_admissible(p, self.active) && bound,
            Phase::Handover(p) => port_admissible(p, self.active) && self.forwarder.is_some(),
            Phase::Binding(p) => port_admissible(p, self.active) && self.forwarder.is_none(),
            Phase::Restoring(q) => match self.active {
                Some(a) => a == q && self.forwarder.is_none(),
                None => false,
            },
            _ => true,
        }
    }

    fn abandon(&mut self) -> (a: Action)
        ensures
            final(self)@ == abandoned(old(self)@),
            a == Action::Wait,
    {
        self.pending = None;
        self.phase = Phase::Idle;
        Action::Wait
    }

    /// Decides on `event`: updates the state and returns the action to take.
    pub fn step(&mut self, event: Event<Revision>) -> (a: Action)
        requires
            well_formed(old(self)@),
        ensures
            (final(self)@, a) == step_spec(old(self)@, event@),
            well_formed(final(self)@),
    {
        proof {
            lemma_step_keeps_well_formed(self@, event@);
        }
        match (self.phase, event) {
            (Phase::Idle, Event::Tick) => match (self.active, self.forwarder) {
                (Some(q), None) => {
                    self.phase = Phase::Restoring(q);
                    Action::StartForwarder { public_port: self.public_port, target_port: q }
                },
                _ => {
                    self.phase = Phase::Fetching;
                    Action::FetchRevision
                },
            },
            (Phase::Fetching, Event::Fetched(Some(r))) => {
                if self.is_live(&r) {
                    self.abandon()
                } else {
                    self.pending = Some(r);
                    self.phase = Phase::Building;
                    Action::Build
                }
            },
            (Phase::Fetching, Event::Fetched(None)) => self.abandon(),
            (Phase::Building, Event::Built(ok)) => {
                if ok {
                    self.phase = Phase::Migrating;
                    Action::RunMigrations
                } else {
                    self.abandon()
                }
            },
            (Phase::Migrating, Event::Migrated(_)) => {
                self.phase = Phase::Allocating;
                Action::AllocatePort { avoid: self.active }
            },
            (Phase::Allocating, Event::PortChosen(Some(p))) => {
                if port_admissible(p, self.active) {
                    self.phase = Phase::Spawning(p);
                    Action::SpawnBackend { port: p }
                } else {
                    self.abandon()
                }
            },
            (Phase::Allocating, Event::PortChosen(None)) => self.abandon(),
            (Phase::Spawning(p), Event::Spawned(ok)) => {
                if !ok {
                    self.abandon()
                } else if self.forwarder.is_some() {
                    self.phase = Phase::Handover(p);
                    Action::StopForwarder
                } else {
                    self.phase = Phase::Binding(p);
                    Action::StartForwarder { public_port: self.public_port, target_port: p }
                }
            },
            (Phase::Handover(p), Event::ForwarderStopped) => {
                self.forwarder = None;
                self.phase = Phase::Binding(p);
                Action::StartForwarder { public_port: self.public_port, target_port: p }
            },
            (Phase::Binding(p), Event::ForwarderBound(ok)) => {
                let previous = self.active;
                if ok {
                    self.commit = self.pending.take();
                    self.active = Some(p);
                    self.forwarder = Some(p);
                    self.phase = Phase::Idle;
                    match previous {
                        Some(q) => Action::RetireBackend { port: q },
                        None => Action::Wait,
                    }
                } else {
                    self.pending = None;
                    match previous {
                        Some(q) => {
                            self.phase = Phase::Restoring(q);
                            Action::Rollback { abandon: p, restore: Some(q) }
                        },
                        None => {
                            self.phase = Phase::Halted;
                            Action::Halt { abandon: p }
                        },
                    }
                }
            },
            (Phase::Restoring(q), Event::ForwarderBound(ok)) => {
                self.forwarder = if ok {
                    Some(q)
                } else {
                    None
                };
                self.phase = Phase::Idle;
                Action::Wait
            },
            _ => Action::Wait,
        }
    }
}

} // verus!
