use crate::orchestrator::{
    command_of, event_query_id, initial, issued, step, Action, Command, Event, OrchestratorView,
    Outcome, Phase, QueryId,
};
use crate::peers::{insert_peer, insert_peers, lemma_insert_peer, lemma_insert_peers, peer_views, PeerId};
use vstd::prelude::*;

verus! {

/// Starting a lookup issues exactly one command: `FIND_NODE` when there is
/// prepopulation to do, else `GET_PROVIDERS`; no query is active until the
/// DHT has given that command its identifier.
pub proof fn lemma_start_issues_one_command(key: Seq<u8>, prepopulate: usize)
    ensures
        initial(key, prepopulate).1 == (if prepopulate > 0 {
            Command::FindNode
        } else {
            Command::GetProviders
        }),
        initial(key, prepopulate).0.wf(),
        initial(key, prepopulate).0.active is None,
{
}

/// The state after the active `FIND_NODE` query succeeds once for each of
/// `ids`, each success being followed by the next command's identifier.
pub open spec fn prepopulation_run(s: OrchestratorView, ids: Seq<QueryId>) -> OrchestratorView
    decreases ids.len(),
{
    if ids.len() == 0 {
        s
    } else {
        let t = prepopulation_run(s, ids.drop_last());
        issued(step(t, Event::<()>::FindNodeSuccess { query_id: t.active.unwrap() }).0, ids.last())
    }
}

/// Each success of the active `FIND_NODE` query lowers the number of
/// remaining prepopulation queries by exactly one and issues another
/// `FIND_NODE`, whose identifier becomes the active one.
pub proof fn lemma_prepopulation_countdown(s: OrchestratorView, ids: Seq<QueryId>)
    requires
        s.wf(),
        (s.phase is Prepopulating),
        (s.active is Some),
        ids.len() <= s.phase->remaining,
    ensures
        prepopulation_run(s, ids).wf(),
        prepopulation_run(s, ids).phase == (Phase::Prepopulating {
            remaining: (s.phase->remaining - ids.len()) as usize,
        }),
        prepopulation_run(s, ids).active == (if ids.len() == 0 {
            s.active
        } else {
            Some(ids.last())
        }),
        forall|k: int|
            0 <= k < ids.len() ==> (step(
                #[trigger] prepopulation_run(s, ids.take(k)),
                Event::<()>::FindNodeSuccess {
                    query_id: prepopulation_run(s, ids.take(k)).active.unwrap(),
                },
            ).1 == Action::<()>::Issue(Command::FindNode)),
    decreases ids.len(),
{
    if ids.len() > 0 {
        lemma_prepopulation_countdown(s, ids.drop_last());
        assert forall|k: int| 0 <= k < ids.len() implies (step(
            #[trigger] prepopulation_run(s, ids.take(k)),
            Event::<()>::FindNodeSuccess {
                query_id: prepopulation_run(s, ids.take(k)).active.unwrap(),
            },
        ).1 == Action::<()>::Issue(Command::FindNode)) by {
            assert(ids.take(k) =~= ids.drop_last().take(k));
            lemma_prepopulation_countdown(s, ids.drop_last().take(k));
        }
    }
}

/// Once no prepopulation query remains, the next success of the active
/// `FIND_NODE` query issues `GET_PROVIDERS` instead of another `FIND_NODE`.
pub proof fn lemma_prepopulation_ends(s: OrchestratorView, query_id: QueryId)
    requires
        s.phase == (Phase::Prepopulating { remaining: 0 }),
        s.is_active(query_id),
    ensures
        step(s, (Event::<()>::FindNodeSuccess { query_id })).0.phase == Phase::AwaitingProviders,
        step(s, (Event::<()>::FindNodeSuccess { query_id })).1 == Action::<()>::Issue(
            Command::GetProviders,
        ),
{
}

/// An event that names a query other than the active one changes nothing
/// and issues nothing.
pub proof fn lemma_stale_event_ignored<P>(s: OrchestratorView, e: Event<P>)
    requires
        (event_query_id(e) is Some),
        !s.is_active(event_query_id(e).unwrap()),
    ensures
        step(s, e) == (s, Action::<P>::Continue),
{
}

/// No event removes a peer from the discovered or the contacted set, or
/// puts a peer into either twice; each count is the size of its set.
pub proof fn lemma_peer_sets_grow<P>(s: OrchestratorView, e: Event<P>)
    requires
        s.wf(),
    ensures
        step(s, e).0.wf(),
        s.discovered.to_set().subset_of(step(s, e).0.discovered.to_set()),
        s.contacted.to_set().subset_of(step(s, e).0.contacted.to_set()),
        step(s, e).0.discovered.len() == step(s, e).0.discovered.to_set().len(),
        step(s, e).0.contacted.len() == step(s, e).0.contacted.to_set().len(),
{
    match e {
        Event::RoutingTableUpdate { peers } => {
            lemma_insert_peers(s.discovered, peer_views(peers@));
        },
        Event::ConnectionEstablished { peer } => {
            lemma_insert_peer(s.contacted, peer@);
        },
        _ => {},
    }
    let n = step(s, e).0;
    n.discovered.unique_seq_to_set();
    n.contacted.unique_seq_to_set();
}

proof fn lemma_insert_present_peers(set: Seq<Seq<u8>>, peers: Seq<Seq<u8>>)
    requires
        forall|i: int| 0 <= i < peers.len() ==> set.contains(#[trigger] peers[i]),
    ensures
        insert_peers(set, peers) == set,
    decreases peers.len(),
{
    if peers.len() > 0 {
        lemma_insert_present_peers(set, peers.drop_last());
        assert(set.contains(peers[peers.len() - 1]));
    }
}

/// A second connection to the same peer, or a second routing-table update
/// with the same peers, leaves both sets as the first one left them.
pub proof fn lemma_repeated_peer_events<P>(s: OrchestratorView, peer: PeerId, peers: Vec<PeerId>)
    requires
        s.wf(),
    ensures
        ({
            let once = step(s, Event::<P>::ConnectionEstablished { peer }).0;
            step(once, Event::<P>::ConnectionEstablished { peer }).0 == once
        }),
        ({
            let once = step(s, Event::<P>::RoutingTableUpdate { peers }).0;
            step(once, Event::<P>::RoutingTableUpdate { peers }).0 == once
        }),
{
    let once = insert_peer(s.contacted, peer@);
    assert(once.contains(peer@)) by {
        if !s.contacted.contains(peer@) {
            assert(once[s.contacted.len() as int] == peer@);
        }
    }
    let ps = peer_views(peers@);
    let grown = insert_peers(s.discovered, ps);
    lemma_insert_peers(s.discovered, ps);
    assert forall|i: int| 0 <= i < ps.len() implies grown.contains(#[trigger] ps[i]) by {
        assert(ps.to_set().contains(ps[i]));
        assert(grown.to_set().contains(ps[i]));
    }
    lemma_insert_present_peers(grown, ps);
}

/// `GET_PROVIDERS` success ends the run exactly when the awaited query and
/// the requested key both match, and then hands out the providers as they
/// came; any other such event is dropped and the lookup goes on waiting.
pub proof fn lemma_providers_success_only_on_match<P>(
    s: OrchestratorView,
    query_id: QueryId,
    provided_key: Vec<u8>,
    providers: Vec<P>,
)
    ensures
        ({
            let (n, a) = step(s, Event::GetProvidersSuccess { query_id, provided_key, providers });
            if s.phase == Phase::AwaitingProviders && s.is_active(query_id) && provided_key@
                == s.key {
                &&& n.phase == Phase::Finished
                &&& a == Action::Finish(Outcome::Success { providers })
            } else {
                &&& n == s
                &&& a == Action::<P>::Continue
            }
        }),
{
}

/// A failure of the active query ends the run with a query failure for the
/// command of the current phase.
pub proof fn lemma_active_failure_ends_run(s: OrchestratorView, query_id: QueryId)
    requires
        s.is_active(query_id),
    ensures
        step(s, (Event::<()>::QueryFailed { query_id })).0.phase == Phase::Finished,
        step(s, (Event::<()>::QueryFailed { query_id })).1 == Action::<()>::Finish(
            (Outcome::QueryFailure { command: command_of(s.phase) }),
        ),
{
}

/// The end of an event stream ends any run that has not ended, whatever
/// query is outstanding.
pub proof fn lemma_stream_end_is_fatal(s: OrchestratorView)
    requires
        s.phase != Phase::Finished,
    ensures
        step(s, Event::<()>::StreamEnded).0.phase == Phase::Finished,
        step(s, Event::<()>::StreamEnded).1 == Action::<()>::Finish(Outcome::InfrastructureFailure),
{
}

/// A run ends at most once: after the end no event issues a command or ends
/// it again.
pub proof fn lemma_ends_once<P>(s: OrchestratorView, e: Event<P>)
    requires
        s.wf(),
        s.phase == Phase::Finished,
    ensures
        step(s, e).0.phase == Phase::Finished,
        step(s, e).1 == Action::<P>::Continue,
{
}

} // verus!
