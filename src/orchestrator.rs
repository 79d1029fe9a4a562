use crate::peers::{
    add_peer, add_peers, bytes_equal, insert_peer, insert_peers, lemma_insert_peer, lemma_insert_peers,
    peer_views, PeerId,
};
use vstd::prelude::*;

verus! {

/// Correlation identifier that the DHT returns for each command it accepts.
#[derive(Clone, Copy, Debug, PartialEq, Eq, Structural)]
pub struct QueryId(pub usize);

/// A command for the DHT.
#[derive(Clone, Copy, Debug, PartialEq, Eq, Structural)]
pub enum Command {
    /// Look up the peers closest to a fresh random target.
    FindNode,
    /// Look up the provider records of the requested key.
    GetProviders,
}

/// Where the lookup stands.
#[derive(Clone, Copy, Debug, PartialEq, Eq, Structural)]
pub enum Phase {
    /// A `FIND_NODE` query is outstanding; `remaining` more follow it.
    Prepopulating { remaining: usize },
    /// The `GET_PROVIDERS` query is outstanding.
    AwaitingProviders,
    /// The run has ended.
    Finished,
}

/// What the DHT and the transport report.
#[derive(Debug)]
pub enum Event<P> {
    FindNodeSuccess { query_id: QueryId },
    GetProvidersSuccess { query_id: QueryId, provided_key: Vec<u8>, providers: Vec<P> },
    QueryFailed { query_id: QueryId },
    RoutingTableUpdate { peers: Vec<PeerId> },
    ConnectionEstablished { peer: PeerId },
    /// An event stream has ended.
    StreamEnded,
    /// Anything else; it changes nothing.
    Other,
}

/// How a run ended.
#[derive(Debug)]
pub enum Outcome<P> {
    /// The providers of the requested key were found.
    Success { providers: Vec<P> },
    /// The outstanding query of `command` failed.
    QueryFailure { command: Command },
    /// An event stream ended.
    InfrastructureFailure,
}

/// What to do after an event.
#[derive(Debug)]
pub enum Action<P> {
    /// Wait for the next event.
    Continue,
    /// Issue the command and report its identifier back.
    Issue(Command),
    /// End the run.
    Finish(Outcome<P>),
}

/// The state of a lookup, as mathematical values.
pub struct OrchestratorView {
    pub key: Seq<u8>,
    pub phase: Phase,
    /// The query whose resolution is awaited; `None` while a command is
    /// being submitted, and after the end of the run.
    pub active: Option<QueryId>,
    pub discovered: Seq<Seq<u8>>,
    pub contacted: Seq<Seq<u8>>,
}

impl OrchestratorView {
    pub open spec fn wf(self) -> bool {
        &&& self.discovered.no_duplicates()
        &&& self.contacted.no_duplicates()
        &&& self.phase == Phase::Finished ==> self.active is None
    }

    pub open spec fn is_active(self, query_id: QueryId) -> bool {
        self.active == Some(query_id)
    }

    pub open spec fn with_phase(self, phase: Phase) -> OrchestratorView {
        OrchestratorView { phase, active: None, ..self }
    }
}

/// The command whose query is outstanding in `phase`.
pub open spec fn command_of(phase: Phase) -> Command {
    match phase {
        Phase::Prepopulating { .. } => Command::FindNode,
        _ => Command::GetProviders,
    }
}

/// The state and first command of a lookup of `key` that first runs
/// `prepopulate` `FIND_NODE` queries.
pub open spec fn initial(key: Seq<u8>, prepopulate: usize) -> (OrchestratorView, Command) {
    let phase = if prepopulate > 0 {
        Phase::Prepopulating { remaining: (prepopulate - 1) as usize }
    } else {
        Phase::AwaitingProviders
    };
    (
        OrchestratorView { key, phase, active: None, discovered: seq![], contacted: seq![] },
        command_of(phase),
    )
}

/// The state once the command being submitted has been given `query_id`.
pub open spec fn issued(s: OrchestratorView, query_id: QueryId) -> OrchestratorView {
    if s.active is None && s.phase != Phase::Finished {
        OrchestratorView { active: Some(query_id), ..s }
    } else {
        s
    }
}

/// The identifier that an event refers to, if any.
pub open spec fn event_query_id<P>(e: Event<P>) -> Option<QueryId> {
    match e {
        Event::FindNodeSuccess { query_id } => Some(query_id),
        Event::GetProvidersSuccess { query_id, .. } => Some(query_id),
        Event::QueryFailed { query_id } => Some(query_id),
        _ => None,
    }
}

/// The next state, and what to do, after event `e` in state `s`.
pub open spec fn step<P>(s: OrchestratorView, e: Event<P>) -> (OrchestratorView, Action<P>) {
    match e {
        Event::FindNodeSuccess { query_id } => match s.phase {
            Phase::Prepopulating { remaining } => {
                if !s.is_active(query_id) {
                    (s, Action::Continue)
                } else if remaining > 0 {
                    (
                        s.with_phase(Phase::Prepopulating { remaining: (remaining - 1) as usize }),
                        Action::Issue(Command::FindNode),
                    )
                } else {
                    (s.with_phase(Phase::AwaitingProviders), Action::Issue(Command::GetProviders))
                }
            },
            _ => (s, Action::Continue),
        },
        Event::GetProvidersSuccess { query_id, provided_key, providers } => {
            if s.phase == Phase::AwaitingProviders && s.is_active(query_id) && provided_key@
                == s.key {
                (s.with_phase(Phase::Finished), Action::Finish(Outcome::Success { providers }))
            } else {
                (s, Action::Continue)
            }
        },
        Event::QueryFailed { query_id } => {
            if s.is_active(query_id) {
                (
                    s.with_phase(Phase::Finished),
                    Action::Finish(Outcome::QueryFailure { command: command_of(s.phase) }),
                )
            } else {
                (s, Action::Continue)
            }
        },
        Event::RoutingTableUpdate { peers } => (
            OrchestratorView {
                discovered: insert_peers(s.discovered, peer_views(peers@)),
                ..s
            },
            Action::Continue,
        ),
        Event::ConnectionEstablished { peer } => (
            OrchestratorView { contacted: insert_peer(s.contacted, peer@), ..s },
            Action::Continue,
        ),
        Event::StreamEnded => {
            if s.phase == Phase::Finished {
                (s, Action::Continue)
            } else {
                (s.with_phase(Phase::Finished), Action::Finish(Outcome::InfrastructureFailure))
            }
        },
        Event::Other => (s, Action::Continue),
    }
}

/// What is reported when a run ends.
#[derive(Clone, Copy, Debug, PartialEq, Eq, Structural)]
pub struct Statistics {
    /// Distinct peers seen in routing-table updates.
    pub discovered: usize,
    /// Distinct peers that a connection was established with.
    pub contacted: usize,
    /// Whole seconds since the run started.
    pub elapsed_secs: u64,
}

/// A lookup of the providers of one key.
pub struct Orchestrator {
    key: Vec<u8>,
    phase: Phase,
    active: Option<QueryId>,
    discovered: Vec<PeerId>,
    contacted: Vec<PeerId>,
}

impl View for Orchestrator {
    type V = OrchestratorView;

    closed spec fn view(&self) -> OrchestratorView {
        OrchestratorView {
            key: self.key@,
            phase: self.phase,
            active: self.active,
            discovered: peer_views(self.discovered@),
            contacted: peer_views(self.contacted@),
        }
    }
}

impl Orchestrator {
    pub open spec fn wf(&self) -> bool {
        self@.wf()
    }

    /// Starts a lookup of `key` that first runs `prepopulate` `FIND_NODE`
    /// queries; returns it with the first command to issue.
    pub fn start(key: Vec<u8>, prepopulate: usize) -> (r: (Orchestrator, Command))
        ensures
            r.0.wf(),
            (r.0@, r.1) == initial(key@, prepopulate),
    {
        let phase = if prepopulate > 0 {
            Phase::Prepopulating { remaining: prepopulate - 1 }
        } else {
            Phase::AwaitingProviders
        };
        let command = match phase {
            Phase::Prepopulating { .. } => Command::FindNode,
            _ => Command::GetProviders,
        };
        let o = Orchestrator {
            key,
            phase,
            active: None,
            discovered: Vec::new(),
            contacted: Vec::new(),
        };
        assert(o@.discovered =~= seq![]);
        assert(o@.contacted =~= seq![]);
        (o, command)
    }

    /// Records the identifier that the DHT gave the command being submitted.
    pub fn command_issued(&mut self, query_id: QueryId)
        requires
            old(self).wf(),
        ensures
            final(self).wf(),
            final(self)@ == issued(old(self)@, query_id),
    {
        if self.active.is_none() && self.phase != Phase::Finished {
            self.active = Some(query_id);
        }
    }

    fn is_active(&self, query_id: QueryId) -> (r: bool)
        ensures
            r == self@.is_active(query_id),
    {
        match self.active {
            Some(a) => a.0 == query_id.0,
            None => false,
        }
    }

    fn enter(&mut self, phase: Phase)
        requires
            old(self).wf(),
        ensures
            final(self).wf(),
            final(self)@ == old(self)@.with_phase(phase),
    {
        self.phase = phase;
        self.active = None;
    }

    /// The current phase.
    pub fn phase(&self) -> (r: Phase)
        ensures
            r == self@.phase,
    {
        self.phase
    }

    /// The query whose resolution is awaited, if any.
    pub fn active_query(&self) -> (r: Option<QueryId>)
        ensures
            r == self@.active,
    {
        self.active
    }

    /// The number of distinct peers seen in routing-table updates.
    pub fn discovered_count(&self) -> (r: usize)
        ensures
            r == self@.discovered.len(),
    {
        self.discovered.len()
    }

    /// The number of distinct peers that a connection was established with.
    pub fn contacted_count(&self) -> (r: usize)
        ensures
            r == self@.contacted.len(),
    {
        self.contacted.len()
    }

    /// The report of the run so far, `elapsed_secs` after its start.
    pub fn statistics(&self, elapsed_secs: u64) -> (r: Statistics)
        ensures
            r.discovered == self@.discovered.len(),
            r.contacted == self@.contacted.len(),
            r.elapsed_secs == elapsed_secs,
    {
        Statistics {
            discovered: self.discovered_count(),
            contacted: self.contacted_count(),
            elapsed_secs,
        }
    }

    /// Processes one event; returns what to do next.
    pub fn handle<P>(&mut self, event: Event<P>) -> (r: Action<P>)
        requires
            old(self).wf(),
        ensures
            final(self).wf(),
            (final(self)@, r) == step(old(self)@, event),
    {
        match event {
            Event::FindNodeSuccess { query_id } => match self.phase {
                Phase::Prepopulating { remaining } => {
                    if !self.is_active(query_id) {
                        Action::Continue
                    } else if remaining > 0 {
                        self.enter(Phase::Prepopulating { remaining: remaining - 1 });
                        Action::Issue(Command::FindNode)
                    } else {
                        self.enter(Phase::AwaitingProviders);
                        Action::Issue(Command::GetProviders)
                    }
                },
                _ => Action::Continue,
            },
            Event::GetProvidersSuccess { query_id, provided_key, providers } => {
                if self.phase == Phase::AwaitingProviders && self.is_active(query_id)
                    && bytes_equal(provided_key.as_slice(), self.key.as_slice()) {
                    self.enter(Phase::Finished);
                    Action::Finish(Outcome::Success { providers })
                } else {
                    Action::Continue
                }
            },
            Event::QueryFailed { query_id } => {
                if self.is_active(query_id) {
                    let command = match self.phase {
                        Phase::Prepopulating { .. } => Command::FindNode,
                        _ => Command::GetProviders,
                    };
                    self.enter(Phase::Finished);
                    Action::Finish(Outcome::QueryFailure { command })
                } else {
                    Action::Continue
                }
            },
            Event::RoutingTableUpdate { peers } => {
                let ghost before = self@;
                add_peers(&mut self.discovered, peers);
                proof {
                    lemma_insert_peers(before.discovered, peer_views(peers@));
                }
                Action::Continue
            },
            Event::ConnectionEstablished { peer } => {
                let ghost before = self@;
                add_peer(&mut self.contacted, peer);
                proof {
                    lemma_insert_peer(before.contacted, peer@);
                }
                Action::Continue
            },
            Event::StreamEnded => {
                if self.phase == Phase::Finished {
                    Action::Continue
                } else {
                    self.enter(Phase::Finished);
                    Action::Finish(Outcome::InfrastructureFailure)
                }
            },
            Event::Other => Action::Continue,
        }
    }
}

} // verus!
