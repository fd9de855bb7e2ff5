use mullvad_daemon::daemon::{Daemon, Outcomes, RunOutcome};
use mullvad_daemon::effects::{CloseHandle, Effect};
use mullvad_daemon::error::ErrorKind;
use mullvad_daemon::events::{DaemonEvent, TunnelCommand, TunnelEvent};
use mullvad_daemon::net::{Endpoint, IpAddress, RelayEndpoint, SocketAddress, TransportProtocol};
use mullvad_daemon::settings::Settings;
use mullvad_daemon::states::{SecurityState, TargetState, TunnelState};

fn env_all_ok() -> Outcomes {
    Outcomes {
        firewall_apply_ok: true,
        firewall_reset_ok: true,
        tunnel_spawn_ok: true,
        settings_save_ok: true,
        resolved_addresses: None,
    }
}

fn rotation() -> Vec<Endpoint> {
    vec![Endpoint::new(IpAddress::V4(0xC100_0001), 1300, TransportProtocol::Udp)]
}

fn connected_daemon(token: &str) -> Daemon {
    let settings = Settings { account_token: Some(token.to_string()), custom_relay: None };
    let mut d = Daemon::new(settings, rotation());
    d.state = TunnelState::Connected;
    d.target_state = TargetState::Secured;
    d.tunnel_close_handle = Some(CloseHandle {});
    d.relay_endpoint = Some(Endpoint::new(IpAddress::V4(0xC100_0001), 1300, TransportProtocol::Udp));
    d.tunnel_interface = Some("tun0".to_string());
    d
}

#[test]
fn secure_request_without_token_fails_cleanly() {
    // fresh daemon, no account token: the user asks for a secure tunnel
    let env = env_all_ok();
    let mut d = Daemon::new(Settings::new(), rotation());
    let r = d.handle_event(
        DaemonEvent::ManagementInterfaceEvent(TunnelCommand::SetTargetState(TargetState::Secured)),
        &env,
    );
    assert!(r.is_ok());
    assert_eq!(d.state, TunnelState::NotRunning);
    assert_eq!(d.target_state, TargetState::Unsecured);
    assert!(d.tunnel_close_handle.is_none());
    let effects = d.take_effects();
    // the broadcast failure names the missing account token as its cause
    let failure = effects
        .iter()
        .find_map(|e| match e {
            Effect::NotifyError(err) => Some(err),
            _ => None,
        })
        .expect("the failed start must be broadcast");
    let cause = failure.cause.as_deref().expect("the failure carries its cause");
    assert!(matches!(cause.kind, ErrorKind::InvalidSettings(_)));
    // the secured wish was broadcast, and so was the fall back to unsecured
    let notified: Vec<TargetState> = effects
        .iter()
        .filter_map(|e| match e {
            Effect::NotifyNewState(ds) => Some(ds.target_state),
            _ => None,
        })
        .collect();
    assert_eq!(notified, vec![TargetState::Secured, TargetState::Unsecured]);
}

#[test]
fn account_change_under_live_tunnel_reconnects_with_new_token() {
    let env = env_all_ok();
    let mut d = connected_daemon("old-token");
    let r = d.handle_event(
        DaemonEvent::ManagementInterfaceEvent(TunnelCommand::SetAccount(Some("new-token".to_string()))),
        &env,
    );
    assert!(r.is_ok());
    assert_eq!(d.settings.account_token.as_deref(), Some("new-token"));
    assert_eq!(d.state, TunnelState::Exiting);
    let effects = d.take_effects();
    let reply_at = effects.iter().position(|e| matches!(e, Effect::ReplySetAccount)).unwrap();
    let close_at = effects.iter().position(|e| matches!(e, Effect::CloseTunnel(_))).unwrap();
    assert!(reply_at < close_at, "the reply is sent before the restart is evaluated");

    // the close worker reports, then the tunnel process stops: the daemon
    // returns to baseline and reconnects with the new token
    assert!(d.handle_event(DaemonEvent::TunnelKillResult(true), &env).is_ok());
    assert!(d.handle_event(DaemonEvent::TunnelExited(true), &env).is_ok());
    assert_eq!(d.state, TunnelState::Connecting);
    let effects = d.take_effects();
    assert!(effects.iter().any(
        |e| matches!(e, Effect::SpawnTunnel(_, token) if token == "new-token"),
    ));
}

#[test]
fn custom_relay_with_no_addresses_fails_start() {
    let mut env = env_all_ok();
    env.resolved_addresses = Some(vec![]);
    let settings = Settings {
        account_token: Some("123456".to_string()),
        custom_relay: Some(RelayEndpoint {
            host: "relay.example".to_string(),
            port: 443,
            protocol: "udp".to_string(),
        }),
    };
    let mut d = Daemon::new(settings, rotation());
    match d.start_tunnel(&env) {
        Err(e) => assert!(matches!(e.kind, ErrorKind::NoRelay)),
        Ok(()) => panic!("zero resolved addresses cannot start a tunnel"),
    }
    assert_eq!(d.state, TunnelState::NotRunning);
    assert!(d.take_effects().is_empty());
}

#[test]
fn shutdown_while_connected_stops_only_at_not_running() {
    let env = env_all_ok();
    let mut d = connected_daemon("123456");

    // the shutdown alone leaves the loop waiting for the teardown
    let outcome = d.run(vec![DaemonEvent::TriggerShutdown], &env);
    assert!(matches!(outcome, RunOutcome::Disconnected));
    assert!(d.shutdown);
    assert_eq!(d.target_state, TargetState::Unsecured);
    assert_eq!(d.state, TunnelState::Exiting);
    let effects = d.take_effects();
    assert!(effects.iter().any(|e| matches!(e, Effect::CloseTunnel(_))));

    // once the tunnel process actually stops, the loop exits cleanly
    let outcome = d.run(vec![DaemonEvent::TunnelExited(true)], &env);
    assert!(matches!(outcome, RunOutcome::Stopped));
    assert_eq!(d.state, TunnelState::NotRunning);
}

#[test]
fn custom_relay_success_connects_through_it() {
    let mut env = env_all_ok();
    env.resolved_addresses = Some(vec![SocketAddress { ip: IpAddress::V4(0x0A00_0001), port: 9090 }]);
    let settings = Settings {
        account_token: Some("123456".to_string()),
        custom_relay: Some(RelayEndpoint {
            host: "relay.example".to_string(),
            port: 9090,
            protocol: "tcp".to_string(),
        }),
    };
    let mut d = Daemon::new(settings, rotation());
    d.target_state = TargetState::Secured;
    assert!(d.apply_target_state(&env).is_ok());
    assert_eq!(d.state, TunnelState::Connecting);
    assert_eq!(
        d.relay_endpoint,
        Some(Endpoint::new(IpAddress::V4(0x0A00_0001), 9090, TransportProtocol::Tcp)),
    );
    let effects = d.take_effects();
    assert!(effects.iter().any(
        |e| matches!(e, Effect::SpawnTunnel(relay, _) if relay.port == 9090),
    ));
    // the rotation cursor is untouched while the override is in force
    assert_eq!(d.relay_index, 0);
}

#[test]
fn firewall_refusal_falls_back_to_unsecured() {
    let mut env = env_all_ok();
    env.firewall_apply_ok = false;
    let settings = Settings { account_token: Some("123456".to_string()), custom_relay: None };
    let mut d = Daemon::new(settings, rotation());
    let r = d.handle_event(
        DaemonEvent::ManagementInterfaceEvent(TunnelCommand::SetTargetState(TargetState::Secured)),
        &env,
    );
    assert!(r.is_ok());
    assert_eq!(d.state, TunnelState::NotRunning);
    assert_eq!(d.target_state, TargetState::Unsecured);
    assert!(d.relay_endpoint.is_none());
    let effects = d.take_effects();
    assert!(effects.iter().any(|e| matches!(e, Effect::ResetPolicy)));
    let failure = effects
        .iter()
        .find_map(|e| match e {
            Effect::NotifyError(err) => Some(err),
            _ => None,
        })
        .expect("the refused policy must be broadcast as a failure");
    let cause = failure.cause.as_deref().unwrap();
    assert!(matches!(cause.kind, ErrorKind::FirewallError));
}

#[test]
fn events_convert_from_their_sources() {
    let event = DaemonEvent::from(TunnelEvent::Down);
    assert!(matches!(event, DaemonEvent::TunnelEvent(TunnelEvent::Down)));
    let event = DaemonEvent::from(TunnelCommand::GetState);
    assert!(matches!(event, DaemonEvent::ManagementInterfaceEvent(TunnelCommand::GetState)));
}

#[test]
fn run_reports_queue_closure() {
    let env = env_all_ok();
    let mut d = Daemon::new(Settings::new(), rotation());
    assert!(matches!(d.run(vec![], &env), RunOutcome::Disconnected));
}

#[test]
fn run_fails_when_the_command_server_dies() {
    let env = env_all_ok();
    let mut d = Daemon::new(Settings::new(), rotation());
    match d.run(vec![DaemonEvent::ManagementInterfaceExited(true)], &env) {
        RunOutcome::Failed(e) => assert!(matches!(e.kind, ErrorKind::ManagementInterfaceError(_))),
        other => panic!("a dead command server must fail the loop, got {:?}", other),
    }
}

#[test]
fn full_connect_cycle_broadcasts_each_change() {
    let env = env_all_ok();
    let settings = Settings { account_token: Some("123456".to_string()), custom_relay: None };
    let mut d = Daemon::new(settings, rotation());

    // secure: broadcast of the wish, then connecting
    assert!(d
        .handle_event(
            DaemonEvent::ManagementInterfaceEvent(TunnelCommand::SetTargetState(TargetState::Secured)),
            &env,
        )
        .is_ok());
    assert_eq!(d.state, TunnelState::Connecting);
    assert!(d.tunnel_close_handle.is_some());

    // the tunnel comes up: connected and reported secured
    assert!(d
        .handle_event(
            DaemonEvent::TunnelEvent(TunnelEvent::Up { tunnel_interface: "tun0".to_string() }),
            &env,
        )
        .is_ok());
    assert_eq!(d.state, TunnelState::Connected);
    assert_eq!(d.last_broadcasted_state.state, SecurityState::Secured);

    // the tunnel drops: the daemon kills and, once exited, reconnects
    assert!(d.handle_event(DaemonEvent::TunnelEvent(TunnelEvent::Down), &env).is_ok());
    assert_eq!(d.state, TunnelState::Exiting);
    assert!(d.handle_event(DaemonEvent::TunnelExited(false), &env).is_ok());
    assert_eq!(d.state, TunnelState::Connecting);
}
