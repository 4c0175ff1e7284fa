use vstd::prelude::*;

use crate::config::{ZedVisionConfig, DEFAULT_PORT};
use crate::connection::Connection;

verus! {

/// What the service tells its observers.
#[derive(Debug, Clone)]
pub enum ServiceEvent {
    StatusChanged { running: bool },
    ConnectionAdded { connection: Connection },
    ConnectionRemoved { connection_id: u128 },
}

/// Work that a state change of the service asks its host to do, in order.
#[derive(Debug, Clone)]
pub enum ServiceEffect {
    /// Deliver the event to the observers.
    Emit(ServiceEvent),
    /// Start the HTTP discovery and WebSocket servers, with AI replies
    /// where a workspace is available.
    StartNetworkServices { workspace_available: bool },
    /// Start the periodic sweep of timed-out connections.
    StartConnectionCleanup,
}

/// The sync service's switch: whether it runs, whether a sweep of
/// timed-out connections has been started, and whether a workspace is set
/// for AI replies.
pub struct ZedVisionSync {
    is_running: bool,
    has_cleanup_task: bool,
    workspace_available: bool,
}

/// The state of the service as its contracts see it.
pub struct SyncState {
    pub running: bool,
    pub cleanup_started: bool,
    pub workspace_set: bool,
}

impl View for ZedVisionSync {
    type V = SyncState;

    closed spec fn view(&self) -> SyncState {
        SyncState {
            running: self.is_running,
            cleanup_started: self.has_cleanup_task,
            workspace_set: self.workspace_available,
        }
    }
}

/// What starting a stopped service asks for: announce that it runs, start
/// the servers (with AI replies where a workspace is set), start the sweep.
pub open spec fn start_effects(workspace_set: bool) -> Seq<ServiceEffect> {
    seq![
        ServiceEffect::Emit(ServiceEvent::StatusChanged { running: true }),
        ServiceEffect::StartNetworkServices { workspace_available: workspace_set },
        ServiceEffect::StartConnectionCleanup,
    ]
}

/// What stopping a running service asks for: announce that it stopped.
pub open spec fn stop_effects() -> Seq<ServiceEffect> {
    seq![ServiceEffect::Emit(ServiceEvent::StatusChanged { running: false })]
}

/// Starting: a running service is left alone.
pub open spec fn start_step(s: SyncState) -> (SyncState, Seq<ServiceEffect>) {
    if s.running {
        (s, Seq::empty())
    } else {
        (
            SyncState { running: true, cleanup_started: true, workspace_set: s.workspace_set },
            start_effects(s.workspace_set),
        )
    }
}

/// Stopping: a stopped service is left alone.
pub open spec fn stop_step(s: SyncState) -> (SyncState, Seq<ServiceEffect>) {
    if s.running {
        (
            SyncState {
                running: false,
                cleanup_started: s.cleanup_started,
                workspace_set: s.workspace_set,
            },
            stop_effects(),
        )
    } else {
        (s, Seq::empty())
    }
}

/// Toggling stops a running service and starts a stopped one.
pub open spec fn toggle_step(s: SyncState) -> (SyncState, Seq<ServiceEffect>) {
    if s.running {
        stop_step(s)
    } else {
        start_step(s)
    }
}

/// A new configuration restarts a running service and leaves a stopped one
/// alone.
pub open spec fn update_config_step(s: SyncState) -> (SyncState, Seq<ServiceEffect>) {
    if s.running {
        let stopped = stop_step(s);
        let started = start_step(stopped.0);
        (started.0, stopped.1 + started.1)
    } else {
        (s, Seq::empty())
    }
}

/// The running state that an observer holds after seeing `effects`, having
/// held `init` before: the last status event wins.
pub open spec fn observed_running(init: bool, effects: Seq<ServiceEffect>) -> bool
    decreases effects.len(),
{
    if effects.len() == 0 {
        init
    } else {
        match effects.last() {
            ServiceEffect::Emit(ServiceEvent::StatusChanged { running }) => running,
            _ => observed_running(init, effects.drop_last()),
        }
    }
}

fn start_effect_list(workspace_available: bool) -> (v: Vec<ServiceEffect>)
    ensures
        v@ == start_effects(workspace_available),
{
    let mut v: Vec<ServiceEffect> = Vec::new();
    v.push(ServiceEffect::Emit(ServiceEvent::StatusChanged { running: true }));
    v.push(ServiceEffect::StartNetworkServices { workspace_available });
    v.push(ServiceEffect::StartConnectionCleanup);
    proof {
        assert(v@ =~= start_effects(workspace_available));
    }
    v
}

fn stop_effect_list() -> (v: Vec<ServiceEffect>)
    ensures
        v@ == stop_effects(),
{
    let mut v: Vec<ServiceEffect> = Vec::new();
    v.push(ServiceEffect::Emit(ServiceEvent::StatusChanged { running: false }));
    proof {
        assert(v@ =~= stop_effects());
    }
    v
}

impl ZedVisionSync {
    /// A stopped service that has started no sweep and has no workspace.
    pub fn new() -> (s: ZedVisionSync)
        ensures
            s@ == (SyncState { running: false, cleanup_started: false, workspace_set: false }),
    {
        ZedVisionSync { is_running: false, has_cleanup_task: false, workspace_available: false }
    }

    /// Sets the workspace, which enables AI replies on the servers that the
    /// service starts from now on.
    pub fn set_workspace(&mut self)
        ensures
            final(self)@ == (SyncState { workspace_set: true, ..old(self)@ }),
    {
        self.workspace_available = true;
    }

    /// Whether the service runs.
    pub fn is_running(&self) -> (r: bool)
        ensures
            r == self@.running,
    {
        self.is_running
    }

    /// Starts the service unless it runs; returns the work to do.
    pub fn start_service(&mut self) -> (effects: Vec<ServiceEffect>)
        ensures
            (final(self)@, effects@) == start_step(old(self)@),
    {
        if self.is_running {
            return Vec::new();
        }
        self.is_running = true;
        self.has_cleanup_task = true;
        start_effect_list(self.workspace_available)
    }

    /// Stops the service if it runs; returns the work to do.
    pub fn stop_service(&mut self) -> (effects: Vec<ServiceEffect>)
        ensures
            (final(self)@, effects@) == stop_step(old(self)@),
    {
        if !self.is_running {
            return Vec::new();
        }
        self.is_running = false;
        stop_effect_list()
    }

    /// Stops a running service, starts a stopped one.
    pub fn toggle_service(&mut self) -> (effects: Vec<ServiceEffect>)
        ensures
            (final(self)@, effects@) == toggle_step(old(self)@),
    {
        if self.is_running {
            self.stop_service()
        } else {
            self.start_service()
        }
    }

    /// The configuration the service runs with: that of this machine.
    pub fn get_config(&self) -> (c: ZedVisionConfig)
        ensures
            exists|host: Seq<char>| c.service_name@ == "Zed-"@ + host,
            c.port == DEFAULT_PORT,
            c.enabled,
    {
        ZedVisionConfig::default()
    }

    /// Takes a new configuration: a running service restarts, a stopped one
    /// stays stopped. The configuration itself is not kept; the service
    /// always runs with that of this machine.
    pub fn update_config(&mut self, config: ZedVisionConfig) -> (effects: Vec<ServiceEffect>)
        ensures
            (final(self)@, effects@) == update_config_step(old(self)@),
    {
        if self.is_running {
            let mut effects = self.stop_service();
            let mut more = self.start_service();
            effects.append(&mut more);
            effects
        } else {
            Vec::new()
        }
    }
}

/// The running state that an observer holds after seeing, in order, the
/// events among `effects`, having held `init` before.
pub fn observed_after(init: bool, effects: &Vec<ServiceEffect>) -> (r: bool)
    ensures
        r == observed_running(init, effects@),
{
    let n = effects.len();
    let mut running = init;
    let mut i: usize = 0;
    while i < n
        invariant
            n == effects@.len(),
            i <= n,
            running == observed_running(init, effects@.take(i as int)),
        decreases n - i,
    {
        proof {
            let t = effects@.take(i + 1);
            assert(t.drop_last() =~= effects@.take(i as int));
            assert(t.last() == effects@[i as int]);
        }
        match &effects[i] {
            ServiceEffect::Emit(ServiceEvent::StatusChanged { running: r }) => {
                running = *r;
            },
            _ => {},
        }
        i = i + 1;
    }
    proof {
        assert(effects@.take(n as int) =~= effects@);
    }
    running
}

/// The service as the editor sets it up on launch: created stopped, given
/// the workspace, and started at once where the configuration enables it.
pub fn launch(config: &ZedVisionConfig) -> (r: (ZedVisionSync, Vec<ServiceEffect>))
    ensures
        config.enabled ==> (r.0@, r.1@) == start_step(
            SyncState { running: false, cleanup_started: false, workspace_set: true },
        ),
        !config.enabled ==> r.0@ == (SyncState {
            running: false,
            cleanup_started: false,
            workspace_set: true,
        }) && r.1@.len() == 0,
{
    let mut service = ZedVisionSync::new();
    service.set_workspace();
    if config.enabled {
        let effects = service.start_service();
        (service, effects)
    } else {
        (service, Vec::new())
    }
}

/// Every operation announces its outcome: an observer that held the
/// service's running state before it holds it after seeing the events that
/// the operation emits.
pub proof fn lemma_events_track_state(s: SyncState)
    ensures
        observed_running(s.running, start_step(s).1) == start_step(s).0.running,
        observed_running(s.running, stop_step(s).1) == stop_step(s).0.running,
        observed_running(s.running, toggle_step(s).1) == toggle_step(s).0.running,
        observed_running(s.running, update_config_step(s).1) == update_config_step(s).0.running,
{
    reveal_with_fuel(observed_running, 4);
    let a = start_effects(s.workspace_set);
    assert(a.last() == ServiceEffect::StartConnectionCleanup);
    assert(a.drop_last().last() == ServiceEffect::StartNetworkServices {
        workspace_available: s.workspace_set,
    });
    assert(a.drop_last().drop_last().last() == ServiceEffect::Emit(
        ServiceEvent::StatusChanged { running: true },
    ));
    assert(observed_running(s.running, a) == true);
    let b = stop_effects();
    assert(b.last() == ServiceEffect::Emit(ServiceEvent::StatusChanged { running: false }));
    if s.running {
        let e = b + a;
        assert(e.drop_last() =~= b + a.drop_last());
        assert(e.drop_last().drop_last() =~= b + a.drop_last().drop_last());
        assert(e.last() == a.last());
        assert(e.drop_last().last() == a.drop_last().last());
        assert(e.drop_last().drop_last().last() == a.drop_last().drop_last().last());
    }
}

/// Starting is idempotent, stopping too, and each emits a status event
/// exactly when it changes whether the service runs.
pub proof fn lemma_start_stop(s: SyncState)
    ensures
        start_step(start_step(s).0) == (start_step(s).0, Seq::<ServiceEffect>::empty()),
        stop_step(stop_step(s).0) == (stop_step(s).0, Seq::<ServiceEffect>::empty()),
        start_step(s).0.running,
        !stop_step(s).0.running,
        (start_step(s).1.len() > 0) == !s.running,
        (stop_step(s).1.len() > 0) == s.running,
{
}

/// Toggling flips whether the service runs, so toggling twice restores it;
/// a new configuration never changes it.
pub proof fn lemma_toggle(s: SyncState)
    ensures
        toggle_step(s).0.running == !s.running,
        toggle_step(toggle_step(s).0).0.running == s.running,
        update_config_step(s).0.running == s.running,
{
}

} // verus!
