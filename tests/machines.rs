use dev_tunnels::allocator::CONTROL_PORT;
use dev_tunnels::endpoint_state::{EndpointState, WaitOutcome};
use dev_tunnels::launcher::{LaunchAction, LaunchEvent, LaunchPlan};
use dev_tunnels::model::{Endpoint, PersistedTunnel, ServiceError, TunnelError, TunnelRecord};
use dev_tunnels::rename::{RenameAction, RenameEvent, RenamePlan};
use dev_tunnels::reconnect::{LoopAction, LoopEvent, LoopPhase, ReconnectLoop};

fn endpoint(host: &str) -> Endpoint {
    Endpoint { host_id: host.to_string(), port_uri_format: Some("https://{port}.relay.example".to_string()) }
}

fn record(name: &str, cluster: &str, id: &str, connections: u32) -> TunnelRecord {
    TunnelRecord {
        cluster_id: Some(cluster.to_string()),
        tunnel_id: Some(id.to_string()),
        tags: vec![name.to_string(), "vscode-server-launcher".to_string()],
        port_numbers: vec![],
        endpoint_host_ids: vec![],
        host_token: Some(format!("token-{}", id)),
        host_connection_count: connections,
    }
}

#[test]
fn slot_reader_sees_only_latest() {
    let mut s: EndpointState<u32> = EndpointState::new();
    assert!(matches!(s.wait_outcome(), WaitOutcome::Pending));
    assert_eq!(s.latest(), None);
    for v in 1..=5 {
        assert!(s.publish(v));
    }
    assert_eq!(s.latest(), Some(&5));
    assert_eq!(s.publications, 5);
    assert!(matches!(s.wait_outcome(), WaitOutcome::Ready));
}

#[test]
fn slot_closed_ignores_publications() {
    let mut s: EndpointState<u32> = EndpointState::new();
    s.publish(1);
    s.close();
    assert!(!s.publish(2));
    s.close();
    assert_eq!(s.latest(), Some(&1));
    assert!(s.closed);
    let mut empty: EndpointState<u32> = EndpointState::new();
    empty.close();
    assert!(matches!(empty.wait_outcome(), WaitOutcome::Cancelled));
}

#[test]
fn reconnect_loop_happy_path_and_shutdown() {
    let mut l = ReconnectLoop::new();
    assert!(matches!(l.step(LoopEvent::Start).action, LoopAction::RefreshToken));
    assert!(matches!(l.step(LoopEvent::TokenReady("t".to_string())).action, LoopAction::Connect(t) if t == "t"));
    let s = l.step(LoopEvent::RelayConnected(endpoint("h1")));
    assert!(matches!(s.action, LoopAction::AwaitConnection));
    assert!(matches!(s.publish, Some(Ok(ref e)) if e.host_id == "h1"));
    assert!(matches!(l.phase, LoopPhase::Connected));
    let s = l.step(LoopEvent::ShutdownRequested);
    assert!(matches!(s.action, LoopAction::CloseRelay));
    assert!(s.publish.is_none());
    let s = l.step(LoopEvent::RelayClosed);
    assert!(matches!(s.action, LoopAction::Exit));
    assert!(matches!(l.phase, LoopPhase::Closed));
    let s = l.step(LoopEvent::ShutdownRequested);
    assert!(matches!(s.action, LoopAction::Exit));
    assert!(s.publish.is_none());
}

#[test]
fn reconnect_loop_retries_with_backoff() {
    let mut l = ReconnectLoop::new();
    l.step(LoopEvent::Start);
    let s = l.step(LoopEvent::TokenFailed(TunnelError::ConnectionFailed("no token".to_string())));
    assert!(matches!(s.action, LoopAction::Sleep(5000)));
    assert!(matches!(s.publish, Some(Err(TunnelError::ConnectionFailed(_)))));
    assert!(matches!(l.step(LoopEvent::DelayElapsed).action, LoopAction::RefreshToken));
    l.step(LoopEvent::TokenReady("t".to_string()));
    let s = l.step(LoopEvent::ConnectFailed(TunnelError::ConnectionFailed("refused".to_string())));
    assert!(matches!(s.action, LoopAction::Sleep(10000)));
    l.step(LoopEvent::DelayElapsed);
    l.step(LoopEvent::TokenReady("t".to_string()));
    l.step(LoopEvent::RelayConnected(endpoint("h")));
    assert_eq!(l.backoff.failures, 0);
    let s = l.step(LoopEvent::ConnectionEnded);
    assert!(matches!(s.action, LoopAction::Sleep(5000)));
    assert!(s.publish.is_none());
    assert!(matches!(l.phase, LoopPhase::Reconnecting));
    l.step(LoopEvent::DelayElapsed);
    l.step(LoopEvent::TokenReady("t".to_string()));
    l.step(LoopEvent::RelayConnected(endpoint("h")));
    let s = l.step(LoopEvent::ConnectionFailed(TunnelError::ConnectionFailed("reset".to_string())));
    assert!(matches!(s.action, LoopAction::Sleep(5000)));
    assert!(matches!(s.publish, Some(Err(_))));
}

#[test]
fn reconnect_loop_shutdown_while_connecting() {
    let mut l = ReconnectLoop::new();
    l.step(LoopEvent::Start);
    assert!(matches!(l.step(LoopEvent::ShutdownRequested).action, LoopAction::Continue));
    let s = l.step(LoopEvent::TokenReady("t".to_string()));
    assert!(matches!(s.action, LoopAction::Exit));
    assert!(s.publish.is_none());
    assert!(matches!(l.phase, LoopPhase::Closed));
}

fn persisted(name: &str, cluster: &str, id: &str) -> PersistedTunnel {
    PersistedTunnel { name: name.to_string(), id: id.to_string(), cluster: cluster.to_string() }
}

#[test]
fn new_tunnel_takes_free_preferred_name() {
    let mut plan = LaunchPlan::new(None, Some("box1".to_string()), false);
    assert!(matches!(plan.step(LaunchEvent::Begin), LaunchAction::ListServerTunnels));
    let a = plan.step(LaunchEvent::Listed(Ok(vec![record("other", "c", "o", 0)])));
    assert!(matches!(a, LaunchAction::CreateTunnel(ref tags) if tags[0] == "box1" && tags[1] == "vscode-server-launcher"));
    let a = plan.step(LaunchEvent::CreateAnswered(Ok(record("box1", "usw2", "new1", 0))));
    assert!(matches!(a, LaunchAction::Save(ref p) if p.name == "box1" && p.id == "new1" && p.cluster == "usw2"));
    let a = plan.step(LaunchEvent::Saved);
    assert!(matches!(a, LaunchAction::Host(ref l, ref p, ref t) if l.id == "new1" && p.name == "box1" && t == "token-new1"));
}

#[test]
fn taken_preferred_name_falls_back_to_random() {
    let mut plan = LaunchPlan::new(None, Some("box1".to_string()), false);
    plan.step(LaunchEvent::Begin);
    let taken = vec![record("box1", "c", "b1", 0), record("box2", "c", "b2", 0)];
    assert!(matches!(plan.step(LaunchEvent::Listed(Ok(taken))), LaunchAction::GenerateName));
    assert!(matches!(plan.step(LaunchEvent::Generated("box2".to_string())), LaunchAction::GenerateName));
    let a = plan.step(LaunchEvent::Generated("brave-otter".to_string()));
    assert!(matches!(a, LaunchAction::CreateTunnel(ref tags) if tags[0] == "brave-otter" && tags[0] != "box1"));
}

#[test]
fn invalid_preferred_name_fails_launch() {
    let mut plan = LaunchPlan::new(None, Some("a,b".to_string()), false);
    plan.step(LaunchEvent::Begin);
    let a = plan.step(LaunchEvent::Listed(Ok(vec![])));
    assert!(matches!(a, LaunchAction::Fail(TunnelError::InvalidName(_))));
}

#[test]
fn prompt_until_valid_free_name() {
    let mut plan = LaunchPlan::new(None, None, false);
    plan.step(LaunchEvent::Begin);
    assert!(matches!(plan.step(LaunchEvent::Listed(Ok(vec![record("box1", "c", "b1", 0)]))), LaunchAction::GenerateName));
    assert!(matches!(plan.step(LaunchEvent::Generated("sugg".to_string())), LaunchAction::PromptName(ref p) if p == "sugg"));
    assert!(matches!(plan.step(LaunchEvent::Prompted("bad name".to_string())), LaunchAction::PromptName(ref p) if p == "sugg"));
    assert!(matches!(plan.step(LaunchEvent::Prompted("box1".to_string())), LaunchAction::PromptName(_)));
    assert!(matches!(plan.step(LaunchEvent::Prompted("mine".to_string())), LaunchAction::CreateTunnel(ref t) if t[0] == "mine"));
}

#[test]
fn stale_identity_is_recreated_under_same_name() {
    let mut plan = LaunchPlan::new(Some(persisted("box1", "usw2", "old")), None, false);
    let a = plan.step(LaunchEvent::Begin);
    assert!(matches!(a, LaunchAction::LookupTunnel(ref l, true, ref scope) if l.id == "old" && l.cluster == "usw2" && scope == "host"));
    let a = plan.step(LaunchEvent::LookedUp(Err(ServiceError::NotFound)));
    assert!(matches!(a, LaunchAction::CreateTunnel(ref t) if t[0] == "box1"));
    let a = plan.step(LaunchEvent::CreateAnswered(Ok(record("box1", "euw", "fresh", 0))));
    assert!(matches!(a, LaunchAction::Save(ref p) if p.name == "box1" && p.id == "fresh" && p.cluster == "euw"));
    let a = plan.step(LaunchEvent::Saved);
    assert!(matches!(a, LaunchAction::Host(ref l, ref p, _) if l.id == "fresh" && p.name == "box1" && p.id == "fresh"));
}

#[test]
fn forbidden_lookup_also_recreates_but_other_errors_fail() {
    let mut plan = LaunchPlan::new(Some(persisted("box1", "usw2", "old")), None, false);
    plan.step(LaunchEvent::Begin);
    assert!(matches!(plan.step(LaunchEvent::LookedUp(Err(ServiceError::Forbidden))), LaunchAction::CreateTunnel(_)));
    let mut plan = LaunchPlan::new(Some(persisted("box1", "usw2", "old")), None, false);
    plan.step(LaunchEvent::Begin);
    let a = plan.step(LaunchEvent::LookedUp(Err(ServiceError::Other("500".to_string()))));
    assert!(matches!(a, LaunchAction::Fail(TunnelError::Remote(_, ServiceError::Other(ref c))) if c == "500"));
}

#[test]
fn rate_limit_recycles_one_idle_tunnel() {
    let mut plan = LaunchPlan::new(None, Some("box1".to_string()), false);
    plan.step(LaunchEvent::Begin);
    plan.step(LaunchEvent::Listed(Ok(vec![])));
    let a = plan.step(LaunchEvent::CreateAnswered(Err(ServiceError::TooManyRequests)));
    assert!(matches!(a, LaunchAction::ListServerTunnels));
    let a = plan.step(LaunchEvent::Listed(Ok(vec![record("busy", "c", "busy", 1), record("idle", "c", "idle", 0)])));
    assert!(matches!(a, LaunchAction::DeleteTunnel(ref l) if l.id == "idle"));
    let a = plan.step(LaunchEvent::Deleted(Ok(())));
    assert!(matches!(a, LaunchAction::CreateTunnel(ref t) if t[0] == "box1"));
    let a = plan.step(LaunchEvent::CreateAnswered(Ok(record("box1", "c", "n1", 0))));
    assert!(matches!(a, LaunchAction::Save(ref p) if p.id == "n1"));
}

#[test]
fn second_rate_limit_is_quota_exceeded() {
    let mut plan = LaunchPlan::new(None, Some("box1".to_string()), false);
    plan.step(LaunchEvent::Begin);
    plan.step(LaunchEvent::Listed(Ok(vec![])));
    plan.step(LaunchEvent::CreateAnswered(Err(ServiceError::TooManyRequests)));
    plan.step(LaunchEvent::Listed(Ok(vec![record("idle", "c", "idle", 0)])));
    plan.step(LaunchEvent::Deleted(Ok(())));
    let a = plan.step(LaunchEvent::CreateAnswered(Err(ServiceError::TooManyRequests)));
    assert!(matches!(a, LaunchAction::Fail(TunnelError::CreationQuotaExceeded(ref n, ref advice)) if n == "box1" && advice.contains("remove other machines")));
}

#[test]
fn rate_limit_without_idle_tunnel_is_quota_exceeded() {
    let mut plan = LaunchPlan::new(None, Some("box1".to_string()), false);
    plan.step(LaunchEvent::Begin);
    plan.step(LaunchEvent::Listed(Ok(vec![])));
    plan.step(LaunchEvent::CreateAnswered(Err(ServiceError::TooManyRequests)));
    let a = plan.step(LaunchEvent::Listed(Ok(vec![record("busy", "c", "busy", 2)])));
    assert!(matches!(a, LaunchAction::Fail(TunnelError::CreationQuotaExceeded(ref n, ref advice)) if n == "box1" && advice.contains("remove other machines")));
}

#[test]
fn other_creation_failure_is_surfaced() {
    let mut plan = LaunchPlan::new(None, Some("box1".to_string()), false);
    plan.step(LaunchEvent::Begin);
    plan.step(LaunchEvent::Listed(Ok(vec![])));
    let a = plan.step(LaunchEvent::CreateAnswered(Err(ServiceError::Other("boom".to_string()))));
    assert!(matches!(a, LaunchAction::Fail(TunnelError::CreationFailed(ref n, ServiceError::Other(ref c))) if n == "box1" && c == "boom"));
}

#[test]
fn reuse_prunes_ports_then_endpoints() {
    let mut plan = LaunchPlan::new(Some(persisted("box1", "usw2", "t1")), Some("box1".to_string()), false);
    assert!(matches!(plan.step(LaunchEvent::Begin), LaunchAction::LookupTunnel(..)));
    let mut rec = record("box1", "usw2", "t1", 0);
    rec.port_numbers = vec![CONTROL_PORT, 8080];
    rec.endpoint_host_ids = vec!["old-host".to_string()];
    let a = plan.step(LaunchEvent::LookedUp(Ok(rec)));
    assert!(matches!(a, LaunchAction::DeletePort(ref l, 8080) if l.id == "t1"));
    let a = plan.step(LaunchEvent::PortDeleted(Ok(())));
    assert!(matches!(a, LaunchAction::DeleteEndpoints(_, ref h) if h == "old-host"));
    let a = plan.step(LaunchEvent::EndpointsDeleted(Ok(())));
    assert!(matches!(a, LaunchAction::Host(_, ref p, ref t) if p.name == "box1" && t == "token-t1"));
    assert!(matches!(plan.step(LaunchEvent::Saved), LaunchAction::Fail(TunnelError::OutOfOrder)));
}

#[test]
fn pruning_failure_is_fatal() {
    let mut plan = LaunchPlan::new(Some(persisted("box1", "usw2", "t1")), None, false);
    plan.step(LaunchEvent::Begin);
    let mut rec = record("box1", "usw2", "t1", 0);
    rec.port_numbers = vec![8080, 3000];
    plan.step(LaunchEvent::LookedUp(Ok(rec)));
    let a = plan.step(LaunchEvent::PortDeleted(Err(ServiceError::Other("x".to_string()))));
    assert!(matches!(a, LaunchAction::Fail(TunnelError::Remote(_, ServiceError::Other(ref c))) if c == "x"));
}

#[test]
fn rename_persisted_tunnel() {
    let mut plan = LaunchPlan::new(Some(persisted("box1", "usw2", "t1")), Some("box9".to_string()), false);
    let a = plan.step(LaunchEvent::Begin);
    assert!(matches!(a, LaunchAction::SearchTags(ref t) if t[0] == "vscode-server-launcher" && t[1] == "box9"));
    assert!(matches!(plan.step(LaunchEvent::Searched(Ok(vec![]))), LaunchAction::FetchTunnel(ref l) if l.id == "t1"));
    let a = plan.step(LaunchEvent::Fetched(Ok(record("box1", "usw2", "t1", 0))));
    assert!(matches!(a, LaunchAction::UpdateTags(ref t) if t[0] == "box9"));
    let a = plan.step(LaunchEvent::Updated(true));
    assert!(matches!(a, LaunchAction::Save(ref p) if p.name == "box9" && p.id == "t1"));
    assert!(matches!(plan.step(LaunchEvent::Saved), LaunchAction::LookupTunnel(ref l, _, _) if l.id == "t1"));
}

#[test]
fn rename_to_taken_name_fails_and_failed_update_is_tolerated() {
    let mut plan = LaunchPlan::new(Some(persisted("box1", "usw2", "t1")), Some("box9".to_string()), false);
    plan.step(LaunchEvent::Begin);
    let a = plan.step(LaunchEvent::Searched(Ok(vec![record("box9", "c", "z", 0)])));
    assert!(matches!(a, LaunchAction::Fail(TunnelError::NameTaken(ref n)) if n == "box9"));

    let mut plan = LaunchPlan::new(Some(persisted("box1", "usw2", "t1")), Some("box9".to_string()), false);
    plan.step(LaunchEvent::Begin);
    plan.step(LaunchEvent::Searched(Ok(vec![])));
    plan.step(LaunchEvent::Fetched(Ok(record("box1", "usw2", "t1", 0))));
    assert!(matches!(plan.step(LaunchEvent::Updated(false)), LaunchAction::LookupTunnel(..)));
    assert!(matches!(plan.persisted, Some(ref p) if p.name == "box1"));
}

#[test]
fn created_tunnel_without_id_fails() {
    let mut plan = LaunchPlan::new(None, Some("box1".to_string()), false);
    plan.step(LaunchEvent::Begin);
    plan.step(LaunchEvent::Listed(Ok(vec![])));
    let mut rec = record("box1", "c", "x", 0);
    rec.tunnel_id = None;
    let a = plan.step(LaunchEvent::CreateAnswered(Ok(rec)));
    assert!(matches!(a, LaunchAction::Fail(TunnelError::MissingLocator)));
}

#[test]
fn looked_up_tunnel_without_host_token_fails() {
    let mut plan = LaunchPlan::new(Some(persisted("box1", "usw2", "t1")), None, false);
    plan.step(LaunchEvent::Begin);
    let mut rec = record("box1", "usw2", "t1", 0);
    rec.host_token = None;
    let a = plan.step(LaunchEvent::LookedUp(Ok(rec)));
    assert!(matches!(a, LaunchAction::Fail(TunnelError::MissingHostToken)));
}

#[test]
fn events_out_of_order_fail() {
    let mut plan = LaunchPlan::new(None, None, true);
    assert!(matches!(plan.step(LaunchEvent::Saved), LaunchAction::Fail(TunnelError::OutOfOrder)));
    assert!(matches!(plan.step(LaunchEvent::Begin), LaunchAction::Fail(TunnelError::OutOfOrder)));
}

#[test]
fn recycle_listing_failure_keeps_cause() {
    let mut plan = LaunchPlan::new(None, Some("box1".to_string()), false);
    plan.step(LaunchEvent::Begin);
    plan.step(LaunchEvent::Listed(Ok(vec![])));
    plan.step(LaunchEvent::CreateAnswered(Err(ServiceError::TooManyRequests)));
    let a = plan.step(LaunchEvent::Listed(Err(ServiceError::Forbidden)));
    assert!(matches!(a, LaunchAction::Fail(TunnelError::Remote(_, ServiceError::Forbidden))));
}

#[test]
fn pruning_walks_every_stray_port_and_endpoint() {
    let mut plan = LaunchPlan::new(Some(persisted("box1", "usw2", "t1")), None, false);
    plan.step(LaunchEvent::Begin);
    let mut rec = record("box1", "usw2", "t1", 0);
    rec.port_numbers = vec![8080, CONTROL_PORT, 3000];
    rec.endpoint_host_ids = vec!["h1".to_string(), "h2".to_string()];
    assert!(matches!(plan.step(LaunchEvent::LookedUp(Ok(rec))), LaunchAction::DeletePort(_, 8080)));
    assert!(matches!(plan.step(LaunchEvent::PortDeleted(Ok(()))), LaunchAction::DeletePort(_, 3000)));
    assert!(matches!(plan.step(LaunchEvent::PortDeleted(Ok(()))), LaunchAction::DeleteEndpoints(_, ref h) if h == "h1"));
    assert!(matches!(plan.step(LaunchEvent::EndpointsDeleted(Ok(()))), LaunchAction::DeleteEndpoints(_, ref h) if h == "h2"));
    assert!(matches!(plan.step(LaunchEvent::EndpointsDeleted(Ok(()))), LaunchAction::Host(ref l, _, _) if l.id == "t1"));
}

#[test]
fn rename_retags_persisted_tunnel() {
    let mut plan = RenamePlan::new("box9".to_string(), Some(persisted("box1", "usw2", "t1")));
    assert!(matches!(plan.step(RenameEvent::Begin), RenameAction::SearchTags(ref t) if t[0] == "vscode-server-launcher" && t[1] == "box9"));
    assert!(matches!(plan.step(RenameEvent::Searched(Ok(vec![]))), RenameAction::FetchTunnel(ref l) if l.id == "t1"));
    let a = plan.step(RenameEvent::Fetched(Ok(record("box1", "usw2", "t1", 0))));
    assert!(matches!(a, RenameAction::UpdateTags(ref t) if t[0] == "box9"));
    let a = plan.step(RenameEvent::Updated(Ok(())));
    assert!(matches!(a, RenameAction::Save(ref p) if p.name == "box9" && p.id == "t1" && p.cluster == "usw2"));
    assert!(matches!(plan.step(RenameEvent::Saved), RenameAction::Finish));
}

#[test]
fn rename_failures() {
    let mut plan = RenamePlan::new("a b".to_string(), None);
    assert!(matches!(plan.step(RenameEvent::Begin), RenameAction::Fail(TunnelError::InvalidName(_))));
    let mut plan = RenamePlan::new("box9".to_string(), Some(persisted("box1", "usw2", "t1")));
    plan.step(RenameEvent::Begin);
    let a = plan.step(RenameEvent::Searched(Ok(vec![record("box9", "c", "z", 0)])));
    assert!(matches!(a, RenameAction::Fail(TunnelError::NameTaken(ref n)) if n == "box9"));
    let mut plan = RenamePlan::new("box9".to_string(), Some(persisted("box1", "usw2", "t1")));
    plan.step(RenameEvent::Begin);
    plan.step(RenameEvent::Searched(Ok(vec![])));
    plan.step(RenameEvent::Fetched(Ok(record("box1", "usw2", "t1", 0))));
    let a = plan.step(RenameEvent::Updated(Err(ServiceError::Forbidden)));
    assert!(matches!(a, RenameAction::Fail(TunnelError::Remote(_, ServiceError::Forbidden))));
}

#[test]
fn rename_without_tunnel_creates_one_with_recycle() {
    let mut plan = RenamePlan::new("box9".to_string(), None);
    plan.step(RenameEvent::Begin);
    assert!(matches!(plan.step(RenameEvent::Searched(Ok(vec![]))), RenameAction::CreateTunnel(ref t) if t[0] == "box9"));
    assert!(matches!(plan.step(RenameEvent::CreateAnswered(Err(ServiceError::TooManyRequests))), RenameAction::ListServerTunnels));
    let a = plan.step(RenameEvent::Listed(Ok(vec![record("old", "c", "idle", 0)])));
    assert!(matches!(a, RenameAction::DeleteTunnel(ref l) if l.id == "idle"));
    assert!(matches!(plan.step(RenameEvent::Deleted(Ok(()))), RenameAction::CreateTunnel(ref t) if t[0] == "box9"));
    let a = plan.step(RenameEvent::CreateAnswered(Err(ServiceError::TooManyRequests)));
    assert!(matches!(a, RenameAction::Fail(TunnelError::CreationQuotaExceeded(ref n, _)) if n == "box9"));
}
