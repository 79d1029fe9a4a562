use kad_providers::orchestrator::{
    Action, Command, Event, Orchestrator, Outcome, Phase, QueryId, Statistics,
};
use kad_providers::key::parse_key;
use kad_providers::peers::PeerId;

fn peer(b: u8) -> PeerId {
    PeerId { bytes: vec![b, b.wrapping_add(1)] }
}

fn find_node_success(q: usize) -> Event<&'static str> {
    Event::FindNodeSuccess { query_id: QueryId(q) }
}

fn is_continue<P>(a: &Action<P>) -> bool {
    matches!(a, Action::Continue)
}

#[test]
fn start_without_prepopulation_issues_get_providers() {
    let (o, c) = Orchestrator::start(vec![0xab], 0);
    assert_eq!(c, Command::GetProviders);
    assert_eq!(o.phase(), Phase::AwaitingProviders);
    assert_eq!(o.active_query(), None);
}

#[test]
fn start_with_prepopulation_issues_find_node() {
    let (o, c) = Orchestrator::start(vec![0xab], 3);
    assert_eq!(c, Command::FindNode);
    assert_eq!(o.phase(), Phase::Prepopulating { remaining: 2 });
}

#[test]
fn providers_found_at_once() {
    let key = parse_key("AB").unwrap();
    let (mut o, c) = Orchestrator::start(key, 0);
    assert_eq!(c, Command::GetProviders);
    o.command_issued(QueryId(5));
    let a = o.handle(Event::GetProvidersSuccess {
        query_id: QueryId(5),
        provided_key: vec![0xab],
        providers: vec!["provider-a", "provider-b"],
    });
    match a {
        Action::Finish(Outcome::Success { providers }) => assert_eq!(providers, vec!["provider-a", "provider-b"]),
        other => panic!("unexpected action {:?}", other),
    }
    assert_eq!(o.phase(), Phase::Finished);
}

#[test]
fn two_prepopulation_rounds_then_get_providers() {
    let (mut o, c) = Orchestrator::start(vec![0xab], 2);
    assert_eq!(c, Command::FindNode);
    o.command_issued(QueryId(1));
    assert!(matches!(o.handle(find_node_success(1)), Action::Issue(Command::FindNode)));
    assert_eq!(o.phase(), Phase::Prepopulating { remaining: 0 });
    o.command_issued(QueryId(2));
    // a late success of the superseded query is dropped
    assert!(is_continue(&o.handle(find_node_success(1))));
    assert_eq!(o.phase(), Phase::Prepopulating { remaining: 0 });
    assert_eq!(o.active_query(), Some(QueryId(2)));
    assert!(matches!(o.handle(find_node_success(2)), Action::Issue(Command::GetProviders)));
    assert_eq!(o.phase(), Phase::AwaitingProviders);
    o.command_issued(QueryId(3));
    assert!(is_continue(&o.handle(find_node_success(1))));
    assert!(is_continue(&o.handle(find_node_success(2))));
    assert_eq!(o.active_query(), Some(QueryId(3)));
}

#[test]
fn countdown_lowers_remaining_by_one_per_success() {
    let (mut o, _) = Orchestrator::start(vec![1], 5);
    for q in 0..4usize {
        o.command_issued(QueryId(q));
        assert_eq!(o.phase(), Phase::Prepopulating { remaining: 4 - q });
        assert!(matches!(o.handle(find_node_success(q)), Action::Issue(Command::FindNode)));
        assert_eq!(o.phase(), Phase::Prepopulating { remaining: 3 - q });
    }
    o.command_issued(QueryId(4));
    assert!(matches!(o.handle(find_node_success(4)), Action::Issue(Command::GetProviders)));
}

#[test]
fn active_query_failure_reports_statistics() {
    let (mut o, _) = Orchestrator::start(vec![7], 0);
    o.command_issued(QueryId(9));
    match o.handle(Event::<u8>::QueryFailed { query_id: QueryId(9) }) {
        Action::Finish(Outcome::QueryFailure { command }) => assert_eq!(command, Command::GetProviders),
        other => panic!("unexpected action {:?}", other),
    }
    assert_eq!(
        o.statistics(3),
        Statistics { discovered: 0, contacted: 0, elapsed_secs: 3 }
    );
}

#[test]
fn find_node_failure_names_find_node() {
    let (mut o, _) = Orchestrator::start(vec![7], 1);
    o.command_issued(QueryId(4));
    o.handle(Event::<u8>::ConnectionEstablished { peer: peer(1) });
    o.handle(Event::<u8>::RoutingTableUpdate { peers: vec![peer(1), peer(2)] });
    match o.handle(Event::<u8>::QueryFailed { query_id: QueryId(4) }) {
        Action::Finish(Outcome::QueryFailure { command }) => assert_eq!(command, Command::FindNode),
        other => panic!("unexpected action {:?}", other),
    }
    assert_eq!(o.statistics(0), Statistics { discovered: 2, contacted: 1, elapsed_secs: 0 });
}

#[test]
fn stale_failure_is_ignored() {
    let (mut o, _) = Orchestrator::start(vec![7], 0);
    o.command_issued(QueryId(9));
    assert!(is_continue(&o.handle(Event::<u8>::QueryFailed { query_id: QueryId(8) })));
    assert_eq!(o.phase(), Phase::AwaitingProviders);
    assert_eq!(o.active_query(), Some(QueryId(9)));
}

#[test]
fn stream_end_is_infrastructure_failure() {
    let (mut o, _) = Orchestrator::start(vec![7], 2);
    o.command_issued(QueryId(1));
    assert!(matches!(
        o.handle(Event::<u8>::StreamEnded),
        Action::Finish(Outcome::InfrastructureFailure)
    ));
    assert_eq!(o.phase(), Phase::Finished);
    assert_eq!(o.active_query(), None);
}

#[test]
fn run_ends_only_once() {
    let (mut o, _) = Orchestrator::start(vec![7], 0);
    o.command_issued(QueryId(1));
    assert!(matches!(o.handle(Event::<u8>::StreamEnded), Action::Finish(_)));
    assert!(is_continue(&o.handle(Event::<u8>::StreamEnded)));
    assert!(is_continue(&o.handle(Event::<u8>::QueryFailed { query_id: QueryId(1) })));
    o.command_issued(QueryId(2));
    assert_eq!(o.active_query(), None);
}

#[test]
fn providers_with_other_key_are_ignored() {
    let (mut o, _) = Orchestrator::start(vec![0xab], 0);
    o.command_issued(QueryId(5));
    let a = o.handle(Event::GetProvidersSuccess {
        query_id: QueryId(5),
        provided_key: vec![0xac],
        providers: vec![1u32],
    });
    assert!(is_continue(&a));
    let a = o.handle(Event::GetProvidersSuccess {
        query_id: QueryId(6),
        provided_key: vec![0xab],
        providers: vec![1u32],
    });
    assert!(is_continue(&a));
    assert_eq!(o.phase(), Phase::AwaitingProviders);
    let a = o.handle(Event::GetProvidersSuccess {
        query_id: QueryId(5),
        provided_key: vec![0xab],
        providers: Vec::<u32>::new(),
    });
    match a {
        Action::Finish(Outcome::Success { providers }) => assert!(providers.is_empty()),
        other => panic!("unexpected action {:?}", other),
    }
}

#[test]
fn providers_during_prepopulation_are_ignored() {
    let (mut o, _) = Orchestrator::start(vec![0xab], 1);
    o.command_issued(QueryId(5));
    let a = o.handle(Event::GetProvidersSuccess {
        query_id: QueryId(5),
        provided_key: vec![0xab],
        providers: vec![1u32],
    });
    assert!(is_continue(&a));
    assert_eq!(o.phase(), Phase::Prepopulating { remaining: 0 });
}

#[test]
fn events_before_identifier_is_known_are_ignored() {
    let (mut o, _) = Orchestrator::start(vec![1], 1);
    assert!(is_continue(&o.handle(find_node_success(0))));
    assert_eq!(o.phase(), Phase::Prepopulating { remaining: 0 });
    assert_eq!(o.active_query(), None);
}

#[test]
fn repeated_peers_are_counted_once() {
    let (mut o, _) = Orchestrator::start(vec![1], 0);
    o.handle(Event::<u8>::RoutingTableUpdate { peers: vec![peer(1), peer(2), peer(1)] });
    o.handle(Event::<u8>::RoutingTableUpdate { peers: vec![peer(2), peer(3)] });
    o.handle(Event::<u8>::RoutingTableUpdate { peers: vec![] });
    o.handle(Event::<u8>::ConnectionEstablished { peer: peer(4) });
    o.handle(Event::<u8>::ConnectionEstablished { peer: peer(4) });
    o.handle(Event::<u8>::Other);
    assert_eq!(o.discovered_count(), 3);
    assert_eq!(o.contacted_count(), 1);
    assert_eq!(o.phase(), Phase::AwaitingProviders);
}
