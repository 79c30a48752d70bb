//! Sink supervisor state: whether the beacon/listener pair is running, and
//! the registry of connected clients. `toggle_server` flips the lifecycle;
//! `kill_server` forces it off; both reach running session handlers through
//! the registry's cancellation handles.

use vstd::prelude::*;
use tokio_util::sync::CancellationToken;
use crate::registry::ClientRegistry;

verus! {

/// Observable state of the core, as the control surface reports it: the
/// running flag and the connected client identifiers.
#[verifier::ext_equal]
pub struct SinkObs {
    pub running: bool,
    pub ids: Seq<Seq<char>>,
}

/// What one `toggle_server` call does to the observable state: off from
/// running (dropping every client), on from stopped (clients untouched).
pub open spec fn toggle_obs(s: SinkObs) -> SinkObs {
    if s.running {
        SinkObs { running: false, ids: Seq::empty() }
    } else {
        SinkObs { running: true, ids: s.ids }
    }
}

/// What `kill_server` does to the observable state: a forced stop from
/// running, a no-op from stopped.
pub open spec fn stop_obs(s: SinkObs) -> SinkObs {
    if s.running {
        SinkObs { running: false, ids: Seq::empty() }
    } else {
        s
    }
}

/// Process-wide supervisor state, shared behind the caller's lock.
pub struct AppState {
    sink_thread: Option<CancellationToken>,
    current_clients: ClientRegistry,
}

impl AppState {
    /// The sink is running: a cancellation scope for beacon and listener
    /// exists.
    pub closed spec fn running(self) -> bool {
        self.sink_thread is Some
    }

    /// Identifiers of the registered clients.
    pub closed spec fn client_ids(self) -> Seq<Seq<char>> {
        self.current_clients.ids()
    }

    /// The registry holds pairwise-distinct identifiers.
    pub closed spec fn wf(self) -> bool {
        self.current_clients.wf()
    }

    /// The observable state the control surface exposes.
    pub open spec fn obs(self) -> SinkObs {
        SinkObs { running: self.running(), ids: self.client_ids() }
    }

    /// A stopped core with no clients.
    pub fn init() -> (r: AppState)
        ensures
            r.wf(),
            !r.running(),
            r.client_ids().len() == 0,
    {
        AppState { sink_thread: None, current_clients: ClientRegistry::new() }
    }

    /// The aggregate running flag and current client list, the only data
    /// that crosses the control surface.
    pub fn fetch_data(&self) -> (r: (bool, Vec<String>))
        ensures
            r.0 == self.running(),
            r.1@.map_values(|s: String| s@) == self.client_ids(),
    {
        (self.sink_thread.is_some(), self.current_clients.list())
    }

    /// Flips the lifecycle. From running: cancels the sink scope, cancels
    /// and clears every client, and stops. From stopped: creates a fresh
    /// scope and returns its handle for the caller to run the sink under;
    /// clients are untouched. Exactly one state flips per call.
    pub fn toggle_server(&mut self) -> (r: Option<CancellationToken>)
        requires
            old(self).wf(),
        ensures
            final(self).wf(),
            final(self).obs() == toggle_obs(old(self).obs()),
            r is Some <==> !old(self).running(),
    {
        if self.sink_thread.is_some() {
            match &self.sink_thread {
                Some(token) => token.cancel(),
                None => {},
            }
            self.current_clients.cancel_all();
            self.sink_thread = None;
            assert(self.obs() =~= toggle_obs(old(self).obs()));
            None
        } else {
            let token = CancellationToken::new();
            let scope = token.clone();
            self.sink_thread = Some(token);
            assert(self.obs() =~= toggle_obs(old(self).obs()));
            Some(scope)
        }
    }

    /// Forces the running-to-stopped transition; a no-op on an already
    /// stopped core, with no observable change at all.
    pub fn kill_server(&mut self)
        requires
            old(self).wf(),
        ensures
            final(self).wf(),
            final(self).obs() == stop_obs(old(self).obs()),
            !old(self).running() ==> *final(self) == *old(self),
    {
        if self.sink_thread.is_some() {
            match &self.sink_thread {
                Some(token) => token.cancel(),
                None => {},
            }
            self.current_clients.cancel_all();
            self.sink_thread = None;
            assert(self.obs() =~= stop_obs(old(self).obs()));
        }
    }

    /// Registers a client's cancellation handle under its identifier; on a
    /// duplicate identifier the last write wins.
    pub fn add_client(&mut self, hostname: String, token: CancellationToken)
        requires
            old(self).wf(),
        ensures
            final(self).wf(),
            final(self).running() == old(self).running(),
            old(self).client_ids().contains(hostname@) ==> final(self).client_ids() == old(
                self,
            ).client_ids(),
            !old(self).client_ids().contains(hostname@) ==> final(self).client_ids() == old(
                self,
            ).client_ids().push(hostname@),
    {
        self.current_clients.add(hostname, token);
    }

    /// Cancels one client's handle and drops it from the registry; every
    /// other client is untouched.
    pub fn kill_client(&mut self, hostname: String)
        requires
            old(self).wf(),
        ensures
            final(self).wf(),
            final(self).running() == old(self).running(),
            final(self).client_ids() == old(self).client_ids().remove_value(hostname@),
    {
        let _ = self.current_clients.cancel(&hostname);
    }

    /// Cancels every client's handle and clears the registry.
    pub fn kill_all_clients(&mut self)
        ensures
            final(self).wf(),
            final(self).running() == old(self).running(),
            final(self).client_ids().len() == 0,
    {
        self.current_clients.cancel_all();
    }
}

/// Toggling a running core drives the client list to empty and the running
/// flag to false, whatever the number of connected clients.
pub proof fn lemma_toggle_stops_all(s: SinkObs)
    requires
        s.running,
    ensures
        !toggle_obs(s).running,
        toggle_obs(s).ids.len() == 0,
{
}

/// Two consecutive toggles restore the running flag; from a state with no
/// clients they restore the whole observable state.
pub proof fn lemma_toggle_twice(s: SinkObs)
    ensures
        toggle_obs(toggle_obs(s)).running == s.running,
        s.ids.len() == 0 ==> toggle_obs(toggle_obs(s)) == s,
{
    if s.ids.len() == 0 {
        assert(toggle_obs(toggle_obs(s)) =~= s);
    }
}

/// A forced stop on an already stopped core changes nothing observable.
pub proof fn lemma_kill_stopped_noop(s: SinkObs)
    requires
        !s.running,
    ensures
        stop_obs(s) == s,
{
}

/// A forced stop never leaves the core running, and from a running core it
/// leaves no client behind.
pub proof fn lemma_kill_stops(s: SinkObs)
    ensures
        !stop_obs(s).running,
        s.running ==> stop_obs(s).ids.len() == 0,
{
}

} // verus!
