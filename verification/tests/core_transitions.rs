use mullvad_daemon::daemon::{Daemon, Outcomes};
use mullvad_daemon::effects::{CloseHandle, Effect};
use mullvad_daemon::error::ErrorKind;
use mullvad_daemon::net::{Endpoint, IpAddress, TransportProtocol};
use mullvad_daemon::settings::Settings;
use mullvad_daemon::states::{DaemonState, SecurityState, TargetState, TunnelState};

fn env_ok() -> Outcomes {
    Outcomes {
        firewall_apply_ok: true,
        firewall_reset_ok: true,
        tunnel_spawn_ok: true,
        settings_save_ok: true,
        resolved_addresses: None,
    }
}

fn relay(last_octet: u32, port: u16) -> Endpoint {
    Endpoint::new(IpAddress::V4(0xC100_0000 + last_octet), port, TransportProtocol::Udp)
}

fn fresh_daemon() -> Daemon {
    Daemon::new(Settings::new(), vec![relay(1, 1300)])
}

#[test]
fn security_state_mapping() {
    assert_eq!(TunnelState::NotRunning.as_security_state(), SecurityState::Unsecured);
    assert_eq!(TunnelState::Connecting.as_security_state(), SecurityState::Unsecured);
    assert_eq!(TunnelState::Connected.as_security_state(), SecurityState::Secured);
    assert_eq!(TunnelState::Exiting.as_security_state(), SecurityState::Unsecured);
}

#[test]
fn new_daemon_baseline() {
    let d = fresh_daemon();
    assert_eq!(d.state, TunnelState::NotRunning);
    assert!(d.tunnel_close_handle.is_none());
    assert_eq!(d.target_state, TargetState::Unsecured);
    assert!(!d.shutdown);
    assert_eq!(
        d.last_broadcasted_state,
        DaemonState { state: SecurityState::Unsecured, target_state: TargetState::Unsecured },
    );
    assert!(d.effects.is_empty());
}

#[test]
fn set_state_same_state_fails_without_broadcast() {
    let env = env_ok();
    let mut d = fresh_daemon();
    let r = d.set_state(TunnelState::NotRunning, &env);
    match r {
        Err(e) => assert!(matches!(e.kind, ErrorKind::InvalidState)),
        Ok(()) => panic!("transition to the held state must fail"),
    }
    assert_eq!(d.state, TunnelState::NotRunning);
    assert!(d.take_effects().is_empty());
}

#[test]
fn set_target_state_same_target_is_noop() {
    let env = env_ok();
    let mut d = fresh_daemon();
    let r = d.set_target_state(TargetState::Unsecured, &env);
    assert!(r.is_ok());
    assert_eq!(d.target_state, TargetState::Unsecured);
    assert_eq!(d.state, TunnelState::NotRunning);
    assert!(d.take_effects().is_empty());
}

#[test]
fn broadcast_same_snapshot_notifies_once() {
    let mut d = fresh_daemon();
    d.state = TunnelState::Connected;
    d.tunnel_close_handle = Some(CloseHandle {});
    d.relay_endpoint = Some(relay(1, 1300));
    d.broadcast_state();
    d.broadcast_state();
    let effects = d.take_effects();
    assert_eq!(effects.len(), 1);
    assert!(matches!(effects[0], Effect::NotifyNewState(_)));
    assert_eq!(
        d.last_broadcasted_state,
        DaemonState { state: SecurityState::Secured, target_state: TargetState::Unsecured },
    );
}

#[test]
fn state_consistency_check() {
    let mut d = fresh_daemon();
    assert!(d.verify_state_consistency().is_ok());
    d.tunnel_close_handle = Some(CloseHandle {});
    match d.verify_state_consistency() {
        Err(e) => assert!(matches!(e.kind, ErrorKind::InvalidState)),
        Ok(()) => panic!("a handle while nothing runs must be inconsistent"),
    }
    d.tunnel_close_handle = None;
    d.state = TunnelState::Connecting;
    assert!(d.verify_state_consistency().is_err());
    d.tunnel_close_handle = Some(CloseHandle {});
    assert!(d.verify_state_consistency().is_ok());
}

#[test]
fn set_state_change_broadcasts_and_reconciles() {
    let env = env_ok();
    let mut d = fresh_daemon();
    d.tunnel_close_handle = Some(CloseHandle {});
    d.relay_endpoint = Some(relay(1, 1300));
    // the target is unsecured, so reaching Connected reconciles into a kill
    let r = d.set_state(TunnelState::Connected, &env);
    assert!(r.is_ok());
    assert_eq!(d.state, TunnelState::Exiting);
    assert!(d.tunnel_close_handle.is_none());
    let effects = d.take_effects();
    assert_eq!(effects.len(), 3);
    match &effects[0] {
        Effect::NotifyNewState(ds) => assert_eq!(ds.state, SecurityState::Secured),
        other => panic!("expected a broadcast first, got {:?}", other),
    }
    match &effects[1] {
        Effect::NotifyNewState(ds) => assert_eq!(ds.state, SecurityState::Unsecured),
        other => panic!("expected the exiting broadcast, got {:?}", other),
    }
    assert!(matches!(effects[2], Effect::CloseTunnel(_)));
}

#[test]
fn kill_tunnel_outside_live_states_is_invalid() {
    let env = env_ok();
    let mut d = fresh_daemon();
    match d.kill_tunnel(&env) {
        Err(e) => assert!(matches!(e.kind, ErrorKind::InvalidState)),
        Ok(()) => panic!("killing without a live tunnel must fail"),
    }
    assert!(d.take_effects().is_empty());
}
