use mullvad_daemon::daemon::{Daemon, Outcomes};
use mullvad_daemon::effects::{CloseHandle, Effect};
use mullvad_daemon::events::TunnelEvent;
use mullvad_daemon::error::ErrorKind;
use mullvad_daemon::net::{Endpoint, IpAddress, TransportProtocol};
use mullvad_daemon::settings::Settings;
use mullvad_daemon::states::{TargetState, TunnelState};

fn env_all_ok() -> Outcomes {
    Outcomes {
        firewall_apply_ok: true,
        firewall_reset_ok: true,
        tunnel_spawn_ok: true,
        settings_save_ok: true,
        resolved_addresses: None,
    }
}

fn an_endpoint() -> Endpoint {
    Endpoint::new(IpAddress::V4(0xC100_0001), 1300, TransportProtocol::Udp)
}

fn daemon_with_token() -> Daemon {
    let settings = Settings { account_token: Some("123456".to_string()), custom_relay: None };
    Daemon::new(settings, vec![an_endpoint()])
}

fn put_in_state(d: &mut Daemon, state: TunnelState, target: TargetState) {
    d.state = state;
    d.target_state = target;
    match state {
        TunnelState::Connecting | TunnelState::Connected => {
            d.tunnel_close_handle = Some(CloseHandle {});
            d.relay_endpoint = Some(an_endpoint());
        }
        _ => {
            d.tunnel_close_handle = None;
        }
    }
    if state == TunnelState::Connected {
        d.tunnel_interface = Some("tun0".to_string());
    }
}

#[test]
fn reconcile_secured_over_not_running_starts_once() {
    let env = env_all_ok();
    let mut d = daemon_with_token();
    d.target_state = TargetState::Secured;
    let r = d.apply_target_state(&env);
    assert!(r.is_ok());
    assert_eq!(d.state, TunnelState::Connecting);
    assert!(d.tunnel_close_handle.is_some());
    let effects = d.take_effects();
    let spawns = effects.iter().filter(|e| matches!(e, Effect::SpawnTunnel(_, _))).count();
    assert_eq!(spawns, 1);
    let policies = effects.iter().filter(|e| matches!(e, Effect::ApplyPolicy(_))).count();
    assert_eq!(policies, 1);
}

#[test]
fn reconcile_unsecured_over_live_tunnel_kills_once() {
    for state in [TunnelState::Connecting, TunnelState::Connected] {
        let env = env_all_ok();
        let mut d = daemon_with_token();
        put_in_state(&mut d, state, TargetState::Unsecured);
        let r = d.apply_target_state(&env);
        assert!(r.is_ok());
        assert_eq!(d.state, TunnelState::Exiting);
        assert!(d.tunnel_close_handle.is_none());
        let effects = d.take_effects();
        let kills = effects.iter().filter(|e| matches!(e, Effect::CloseTunnel(_))).count();
        assert_eq!(kills, 1);
    }
}

#[test]
fn reconcile_other_combinations_do_nothing() {
    let combos = [
        (TunnelState::NotRunning, TargetState::Unsecured),
        (TunnelState::Exiting, TargetState::Unsecured),
        (TunnelState::Connecting, TargetState::Secured),
        (TunnelState::Connected, TargetState::Secured),
        (TunnelState::Exiting, TargetState::Secured),
    ];
    for (state, target) in combos {
        let env = env_all_ok();
        let mut d = daemon_with_token();
        put_in_state(&mut d, state, target);
        let r = d.apply_target_state(&env);
        assert!(r.is_ok());
        assert_eq!(d.state, state);
        assert_eq!(d.target_state, target);
        assert!(d.take_effects().is_empty());
    }
}

#[test]
fn failed_start_leaves_clean_unsecured_baseline() {
    // no account token configured: the start attempt fails
    let env = env_all_ok();
    let mut d = Daemon::new(Settings::new(), vec![an_endpoint()]);
    d.target_state = TargetState::Secured;
    let r = d.apply_target_state(&env);
    assert!(r.is_ok());
    assert_eq!(d.state, TunnelState::NotRunning);
    assert_eq!(d.target_state, TargetState::Unsecured);
    assert!(d.tunnel_close_handle.is_none());
    assert!(d.relay_endpoint.is_none());
    let effects = d.take_effects();
    assert!(effects.iter().any(|e| matches!(e, Effect::ResetPolicy)));
    assert!(effects.iter().any(|e| matches!(e, Effect::NotifyError(_))));
    assert!(!effects.iter().any(|e| matches!(e, Effect::SpawnTunnel(_, _))));
}

#[test]
fn start_tunnel_without_token_reports_invalid_settings() {
    let env = env_all_ok();
    let mut d = Daemon::new(Settings::new(), vec![an_endpoint()]);
    match d.start_tunnel(&env) {
        Err(e) => assert!(matches!(e.kind, ErrorKind::InvalidSettings(_))),
        Ok(()) => panic!("starting without a token must fail"),
    }
    assert_eq!(d.state, TunnelState::NotRunning);
}

#[test]
fn start_tunnel_firewall_refusal_is_firewall_error() {
    let mut env = env_all_ok();
    env.firewall_apply_ok = false;
    let mut d = daemon_with_token();
    match d.start_tunnel(&env) {
        Err(e) => assert!(matches!(e.kind, ErrorKind::FirewallError)),
        Ok(()) => panic!("a refused policy must fail the start"),
    }
    assert_eq!(d.state, TunnelState::NotRunning);
    assert!(d.tunnel_close_handle.is_none());
}

#[test]
fn start_tunnel_spawn_refusal_is_tunnel_error() {
    let mut env = env_all_ok();
    env.tunnel_spawn_ok = false;
    let mut d = daemon_with_token();
    match d.start_tunnel(&env) {
        Err(e) => assert!(matches!(e.kind, ErrorKind::TunnelError(_))),
        Ok(()) => panic!("a refused spawn must fail the start"),
    }
    assert_eq!(d.state, TunnelState::NotRunning);
    assert!(d.tunnel_close_handle.is_none());
}

#[test]
fn tunnel_up_ignored_unless_connecting() {
    for state in [TunnelState::NotRunning, TunnelState::Connected, TunnelState::Exiting] {
        let env = env_all_ok();
        let mut d = daemon_with_token();
        put_in_state(&mut d, state, TargetState::Secured);
        let r = d.handle_tunnel_event(TunnelEvent::Up { tunnel_interface: "tun9".to_string() }, &env);
        assert!(r.is_ok());
        assert_eq!(d.state, state);
        assert!(d.take_effects().is_empty());
    }
}

#[test]
fn tunnel_down_ignored_unless_connected() {
    for state in [TunnelState::NotRunning, TunnelState::Connecting, TunnelState::Exiting] {
        let env = env_all_ok();
        let mut d = daemon_with_token();
        put_in_state(&mut d, state, TargetState::Secured);
        let r = d.handle_tunnel_event(TunnelEvent::Down, &env);
        assert!(r.is_ok());
        assert_eq!(d.state, state);
        assert!(d.take_effects().is_empty());
    }
}

#[test]
fn tunnel_up_while_connecting_connects() {
    let env = env_all_ok();
    let mut d = daemon_with_token();
    put_in_state(&mut d, TunnelState::Connecting, TargetState::Secured);
    let r = d.handle_tunnel_event(TunnelEvent::Up { tunnel_interface: "tun0".to_string() }, &env);
    assert!(r.is_ok());
    assert_eq!(d.state, TunnelState::Connected);
    assert_eq!(d.tunnel_interface.as_deref(), Some("tun0"));
    let effects = d.take_effects();
    assert_eq!(effects.len(), 2);
    assert!(matches!(effects[0], Effect::ApplyPolicy(_)));
    assert!(matches!(effects[1], Effect::NotifyNewState(_)));
}

#[test]
fn tunnel_down_while_connected_kills() {
    let env = env_all_ok();
    let mut d = daemon_with_token();
    put_in_state(&mut d, TunnelState::Connected, TargetState::Secured);
    let r = d.handle_tunnel_event(TunnelEvent::Down, &env);
    assert!(r.is_ok());
    assert_eq!(d.state, TunnelState::Exiting);
    let effects = d.take_effects();
    assert!(effects.iter().any(|e| matches!(e, Effect::CloseTunnel(_))));
}

#[test]
fn tunnel_exited_returns_to_baseline() {
    let env = env_all_ok();
    let mut d = daemon_with_token();
    d.state = TunnelState::Exiting;
    d.relay_endpoint = Some(an_endpoint());
    d.tunnel_interface = Some("tun0".to_string());
    let r = d.handle_tunnel_exited(true, &env);
    assert!(r.is_ok());
    assert_eq!(d.state, TunnelState::NotRunning);
    assert!(d.relay_endpoint.is_none());
    assert!(d.tunnel_interface.is_none());
    assert!(d.tunnel_close_handle.is_none());
    let effects = d.take_effects();
    assert!(effects.iter().any(|e| matches!(e, Effect::ResetPolicy)));
}

#[test]
fn stale_tunnel_exited_while_not_running_is_invalid_state() {
    let env = env_all_ok();
    let mut d = daemon_with_token();
    match d.handle_tunnel_exited(false, &env) {
        Err(e) => assert!(matches!(e.kind, ErrorKind::InvalidState)),
        Ok(()) => panic!("a stale exit notification must surface the inconsistency"),
    }
    assert_eq!(d.state, TunnelState::NotRunning);
}
