//! The event loop and the aggregate daemon state, with the transition and
//! reconciliation rules.
//!
//! The daemon owns all mutable state and consumes events strictly one at a
//! time. Work it asks of collaborators is appended to its effect list; the
//! outcome each collaborator call would report is recorded in [`Outcomes`]
//! before an event is dispatched, so every handler is a function of state,
//! event and recorded outcomes, and its behaviour is proved for all of them.

use vstd::prelude::*;
use crate::effects::{CloseHandle, Effect, SecurityPolicy};
use crate::error::{Error, ErrorKind};
use crate::events::{DaemonEvent, TunnelCommand, TunnelEvent};
use crate::net::{Endpoint, RelayEndpoint, SocketAddress, parse_transport_protocol,
                 spec_parse_transport_protocol};
use crate::settings::{clone_opt_token, opt_token_eq, spec_opt_relay_eq, spec_opt_token_eq,
                      Settings};
use crate::states::{spec_derived_state, DaemonState, TargetState, TunnelState};

verus! {

/// Recorded outcomes of the collaborator calls the handling of one event
/// may make. The driver performs the corresponding operation when the
/// matching effect is emitted; handlers branch on the recorded outcome, so
/// every branch is verified whatever the collaborators do.
pub struct Outcomes {
    /// Whether the firewall accepts an apply-policy request.
    pub firewall_apply_ok: bool,
    /// Whether the firewall accepts a reset-policy request.
    pub firewall_reset_ok: bool,
    /// Whether spawning the tunnel subsystem succeeds.
    pub tunnel_spawn_ok: bool,
    /// Whether persisting changed settings succeeds.
    pub settings_save_ok: bool,
    /// What resolving the custom relay's host and port yields: `None` if
    /// resolution itself fails, otherwise every address it returned.
    pub resolved_addresses: Option<Vec<SocketAddress>>,
}

/// Why the event loop stopped.
#[derive(Debug)]
pub enum RunOutcome {
    /// Shutdown was requested and the tunnel reached `NotRunning`.
    Stopped,
    /// The event queue closed before a clean shutdown completed.
    Disconnected,
    /// An event handler reported a loop-scoped failure.
    Failed(Error),
}

/// The action reconciliation takes for a target/actual pair: start the
/// tunnel, kill it, or nothing. Reconciliation is a pure function of the
/// pair, which this spec function states once and the transition code is
/// held to.
#[derive(Debug, Copy, Clone, PartialEq, Eq, Structural)]
pub enum ReconciliationAction {
    StartTunnel,
    KillTunnel,
    Nothing,
}

/// The action implied by a desired and an actual state: start when a
/// secured target sees no tunnel, kill when an unsecured target sees a
/// live one, otherwise nothing.
pub open spec fn spec_reconciliation_action(t: TargetState, s: TunnelState) -> ReconciliationAction {
    if t is Secured && s is NotRunning {
        ReconciliationAction::StartTunnel
    } else if t is Unsecured && (s is Connecting || s is Connected) {
        ReconciliationAction::KillTunnel
    } else {
        ReconciliationAction::Nothing
    }
}

/// Termination measure for the reconciliation cascade: positive exactly
/// when reconciliation of the pair would act.
pub open spec fn recon_rank(t: TargetState, s: TunnelState) -> int {
    if spec_reconciliation_action(t, s) is Nothing {
        0
    } else {
        1
    }
}

/// The last broadcast snapshot after broadcasting `nd` over `last`:
/// unchanged when `nd` is what was already broadcast.
pub open spec fn spec_broadcast_last(last: DaemonState, nd: DaemonState) -> DaemonState {
    if nd == last {
        last
    } else {
        nd
    }
}

/// The effect list after broadcasting `nd` over `last`: a notification is
/// appended only when `nd` differs from what was already broadcast.
pub open spec fn spec_broadcast_effects(last: DaemonState, nd: DaemonState, effects: Seq<Effect>) -> Seq<Effect> {
    if nd == last {
        effects
    } else {
        effects.push(Effect::NotifyNewState(nd))
    }
}

/// The endpoint a custom relay override yields given what its host
/// resolved to: the first resolved address with the declared transport
/// kind, or nothing if resolution failed, returned no address, or the
/// declared protocol is unknown.
pub open spec fn spec_custom_relay_endpoint(re: RelayEndpoint, resolved: Option<Vec<SocketAddress>>) -> Option<Endpoint> {
    match resolved {
        Option::None => Option::None,
        Option::Some(addrs) => if addrs@.len() == 0 {
            Option::None
        } else {
            match spec_parse_transport_protocol(re.protocol@) {
                Option::None => Option::None,
                Option::Some(p) => Option::Some(
                    Endpoint { address: addrs@[0].ip, port: addrs@[0].port, protocol: p },
                ),
            }
        },
    }
}

/// The aggregate root: the actual and desired state, the exclusively-owned
/// close handle of a running tunnel, the change-suppression record, the
/// plain-value settings, the injected relay rotation with its cursor, and
/// the effects appended while handling the current event.
pub struct Daemon {
    pub state: TunnelState,
    /// Present exactly while the tunnel state is `Connecting` or
    /// `Connected`.
    pub tunnel_close_handle: Option<CloseHandle>,
    pub last_broadcasted_state: DaemonState,
    pub target_state: TargetState,
    pub shutdown: bool,
    pub settings: Settings,
    pub relay_endpoint: Option<Endpoint>,
    pub tunnel_interface: Option<String>,
    /// Injected, ordered, immutable relay rotation.
    pub relays: Vec<Endpoint>,
    /// Cursor into the rotation.
    pub relay_index: usize,
    /// Effects appended in order while handling events; the driver drains
    /// and performs them.
    pub effects: Vec<Effect>,
}

/// The relay the next start attempt selects, if any.
pub open spec fn spec_selected_relay(d: Daemon, env: Outcomes) -> Option<Endpoint> {
    match d.settings.custom_relay {
        Option::Some(re) => spec_custom_relay_endpoint(re, env.resolved_addresses),
        Option::None => if d.relays@.len() == 0 {
            Option::None
        } else {
            Option::Some(d.relays@[d.relay_index as int % d.relays@.len() as int])
        },
    }
}

/// The rotation cursor after the next relay selection.
pub open spec fn spec_cursor_after_selection(d: Daemon) -> int {
    match d.settings.custom_relay {
        Option::Some(re) => d.relay_index as int,
        Option::None => if d.relays@.len() == 0 {
            d.relay_index as int
        } else {
            ((d.relay_index as int % d.relays@.len() as int) + 1) % d.relays@.len() as int
        },
    }
}

/// Whether a start attempt goes through completely: a relay is selected,
/// an account token is configured, and the firewall and the tunnel spawn
/// both accept.
pub open spec fn spec_start_ok(d: Daemon, env: Outcomes) -> bool {
    &&& spec_selected_relay(d, env) is Some
    &&& d.settings.account_token is Some
    &&& env.firewall_apply_ok
    &&& env.tunnel_spawn_ok
}

/// The effect list after a start attempt that went through completely:
/// exactly one connecting policy, exactly one spawn toward the selected
/// relay with the configured token, then the (possibly suppressed)
/// broadcast of the `Connecting` snapshot. `sel` and `token` are the
/// selection and the token at the attempt; `last`, `target` and `eff` the
/// broadcast record, target state and effect list it starts from.
pub open spec fn spec_start_success_effects(
    sel: Option<Endpoint>,
    token: Option<String>,
    last: DaemonState,
    target: TargetState,
    eff: Seq<Effect>,
) -> Seq<Effect> {
    spec_broadcast_effects(
        last,
        spec_derived_state(TunnelState::Connecting, target),
        eff.push(Effect::ApplyPolicy(SecurityPolicy::Connecting(sel->0)))
            .push(Effect::SpawnTunnel(sel->0, token->0)),
    )
}

/// The effect list a failed start attempt leaves behind, before any
/// fallback: nothing for a failed relay selection or a missing token, the
/// connecting policy request when the firewall refused it, and the spawn
/// request too when the spawn itself failed.
pub open spec fn spec_start_failure_effects(
    sel: Option<Endpoint>,
    token: Option<String>,
    env: Outcomes,
    eff: Seq<Effect>,
) -> Seq<Effect> {
    match sel {
        Option::None => eff,
        Option::Some(relay) => match token {
            Option::None => eff,
            Option::Some(tok) => if !env.firewall_apply_ok {
                eff.push(Effect::ApplyPolicy(SecurityPolicy::Connecting(relay)))
            } else {
                eff.push(Effect::ApplyPolicy(SecurityPolicy::Connecting(relay)))
                    .push(Effect::SpawnTunnel(relay, tok))
            },
        },
    }
}

/// What the fallback after a failed start attempt leaves behind, given
/// the broadcast record `last` and the effect list `eff` the attempt
/// itself left: exactly one baseline reset, exactly one error broadcast
/// carrying the causal chain of the failure, then the broadcast of the
/// unsecured snapshot. Stated of `post`'s record and effects.
pub open spec fn spec_start_fallback(sel: Option<Endpoint>, token: Option<String>, env: Outcomes, last: DaemonState, eff: Seq<Effect>, post: Daemon) -> bool {
    exists|e: Error|
        #![auto]
        {
            &&& e.kind is Msg
            &&& e.cause is Some
            &&& (sel is None ==> (e.cause matches Some(c) && c.kind is NoRelay))
            &&& (sel is Some && token is None ==> (e.cause matches Some(c) && c.kind is InvalidSettings))
            &&& (sel is Some && token is Some && !env.firewall_apply_ok ==> (e.cause matches Some(c)
                    && c.kind is FirewallError))
            &&& (sel is Some && token is Some && env.firewall_apply_ok && !env.tunnel_spawn_ok ==> (
                    e.cause matches Some(c) && c.kind is TunnelError))
            &&& ({
                let eff2 = spec_start_failure_effects(sel, token, env, eff)
                    .push(Effect::ResetPolicy)
                    .push(Effect::NotifyError(e));
                let nd = spec_derived_state(TunnelState::NotRunning, TargetState::Unsecured);
                &&& post.effects@ == spec_broadcast_effects(last, nd, eff2)
                &&& post.last_broadcasted_state == spec_broadcast_last(last, nd)
            })
        }
}

/// Everything but the effect list is the same.
pub open spec fn spec_same_but_effects(pre: Daemon, post: Daemon) -> bool {
    &&& post.state == pre.state
    &&& post.tunnel_close_handle == pre.tunnel_close_handle
    &&& post.last_broadcasted_state == pre.last_broadcasted_state
    &&& post.target_state == pre.target_state
    &&& post.shutdown == pre.shutdown
    &&& post.settings == pre.settings
    &&& post.relay_endpoint == pre.relay_endpoint
    &&& post.tunnel_interface == pre.tunnel_interface
    &&& post.relays == pre.relays
    &&& post.relay_index == pre.relay_index
}

/// What setting the desired state to `new_state` does, given the recorded
/// outcomes: a benign no-op on the held target; otherwise the broadcast of
/// the change and the full reconciliation cascade of the updated pair.
pub open spec fn spec_set_target_state_post(pre: Daemon, new_state: TargetState, env: Outcomes, post: Daemon, r: Result<(), Error>) -> bool {
    &&& (new_state == pre.target_state ==> (r is Ok && post == pre))
    &&& (new_state != pre.target_state ==> {
        &&& post.wf()
        &&& post.shutdown == pre.shutdown
        &&& post.settings == pre.settings
        &&& post.relays == pre.relays
    })
    // reconciliation of the updated pair is a no-op
    &&& (new_state != pre.target_state && recon_rank(new_state, pre.state) == 0 ==> {
        &&& r is Ok
        &&& post.state == pre.state
        &&& post.tunnel_close_handle == pre.tunnel_close_handle
        &&& post.target_state == new_state
        &&& post.relay_endpoint == pre.relay_endpoint
        &&& post.tunnel_interface == pre.tunnel_interface
        &&& post.relay_index == pre.relay_index
        &&& post.last_broadcasted_state == spec_broadcast_last(
                pre.last_broadcasted_state,
                spec_derived_state(pre.state, new_state),
            )
        &&& post.effects@ == spec_broadcast_effects(
                pre.last_broadcasted_state,
                spec_derived_state(pre.state, new_state),
                pre.effects@,
            )
    })
    // an unsecured target sees a live tunnel: it is torn down
    &&& (new_state != pre.target_state && new_state is Unsecured
        && (pre.state is Connecting || pre.state is Connected) ==> {
        &&& r is Ok
        &&& post.state is Exiting
        &&& post.tunnel_close_handle is None
        &&& post.target_state == new_state
        &&& post.relay_endpoint == pre.relay_endpoint
        &&& post.tunnel_interface == pre.tunnel_interface
        &&& post.relay_index == pre.relay_index
        &&& ({
            let nd1 = spec_derived_state(pre.state, new_state);
            let last1 = spec_broadcast_last(pre.last_broadcasted_state, nd1);
            let eff1 = spec_broadcast_effects(pre.last_broadcasted_state, nd1, pre.effects@);
            let nd2 = spec_derived_state(TunnelState::Exiting, new_state);
            &&& post.last_broadcasted_state == spec_broadcast_last(last1, nd2)
            &&& post.effects@ == spec_broadcast_effects(last1, nd2, eff1).push(
                    Effect::CloseTunnel(pre.tunnel_close_handle->0),
                )
        })
    })
    // a secured target sees no tunnel: exactly one start attempt is made
    &&& (new_state != pre.target_state && new_state is Secured && pre.state is NotRunning ==> ({
        let nd0 = spec_derived_state(pre.state, new_state);
        let base_last = spec_broadcast_last(pre.last_broadcasted_state, nd0);
        let base_eff = spec_broadcast_effects(pre.last_broadcasted_state, nd0, pre.effects@);
        &&& (r matches Err(e) ==> e.kind is FirewallError)
        &&& (r is Ok ==> (post.state is Connecting && post.tunnel_close_handle is Some
                    && post.target_state is Secured)
                || (post.state is NotRunning && post.tunnel_close_handle is None
                    && post.relay_endpoint is None && post.target_state is Unsecured))
        &&& (spec_start_ok(pre, env) ==> {
            &&& r is Ok
            &&& post.state is Connecting
            &&& post.relay_index as int == spec_cursor_after_selection(pre)
            &&& post.last_broadcasted_state == spec_broadcast_last(
                    base_last,
                    spec_derived_state(TunnelState::Connecting, new_state),
                )
            &&& post.effects@ == spec_start_success_effects(
                    spec_selected_relay(pre, env),
                    pre.settings.account_token,
                    base_last,
                    new_state,
                    base_eff,
                )
        })
        &&& (!spec_start_ok(pre, env) && env.firewall_reset_ok ==> {
            &&& r is Ok
            &&& post.state is NotRunning
            &&& post.target_state is Unsecured
            &&& post.tunnel_close_handle is None
            &&& post.relay_endpoint is None
            &&& spec_start_fallback(
                    spec_selected_relay(pre, env),
                    pre.settings.account_token,
                    env,
                    base_last,
                    base_eff,
                    post,
                )
        })
    }))
}

/// What a lifecycle notification from the tunnel software does: nothing
/// unless it is "up" while `Connecting` or "down" while `Connected`.
pub open spec fn spec_tunnel_event_post(pre: Daemon, te: TunnelEvent, env: Outcomes, post: Daemon, r: Result<(), Error>) -> bool {
    &&& post.wf()
    &&& post.shutdown == pre.shutdown
    &&& post.settings == pre.settings
    &&& post.relays == pre.relays
    // ignored: any notification that does not match the state
    &&& (!(pre.state is Connecting && te is Up) && !(pre.state is Connected && te is Down) ==> (
        r is Ok && post == pre
    ))
    // up while connecting: record the interface, apply the connected
    // policy, move to `Connected`
    &&& (te matches TunnelEvent::Up { tunnel_interface: itf } ==> (
        pre.state is Connecting ==> {
            &&& post.tunnel_interface == Some(itf)
            &&& (r is Ok <==> env.firewall_apply_ok)
            &&& (r matches Err(e) ==> e.kind is FirewallError && post.state is Connecting
                    && post.tunnel_close_handle == pre.tunnel_close_handle
                    && post.effects@ == pre.effects@.push(Effect::ApplyPolicy(
                        SecurityPolicy::Connected(pre.relay_endpoint->0, itf),
                    )))
            &&& (env.firewall_apply_ok && pre.target_state is Secured ==> {
                &&& post.state is Connected
                &&& post.tunnel_close_handle == pre.tunnel_close_handle
                &&& post.relay_endpoint == pre.relay_endpoint
                &&& post.relay_index == pre.relay_index
                &&& post.last_broadcasted_state == spec_broadcast_last(
                        pre.last_broadcasted_state,
                        spec_derived_state(TunnelState::Connected, pre.target_state),
                    )
                &&& post.effects@ == spec_broadcast_effects(
                        pre.last_broadcasted_state,
                        spec_derived_state(TunnelState::Connected, pre.target_state),
                        pre.effects@.push(Effect::ApplyPolicy(
                            SecurityPolicy::Connected(pre.relay_endpoint->0, itf),
                        )),
                    )
            })
            &&& (env.firewall_apply_ok && pre.target_state is Unsecured ==> {
                &&& post.state is Exiting
                &&& post.tunnel_close_handle is None
            })
        }
    ))
    // down while connected: the tunnel is torn down
    &&& (pre.state is Connected && te is Down ==> {
        &&& r is Ok
        &&& post.state is Exiting
        &&& post.tunnel_close_handle is None
        &&& post.target_state == pre.target_state
        &&& post.relay_endpoint == pre.relay_endpoint
        &&& post.tunnel_interface == pre.tunnel_interface
        &&& post.relay_index == pre.relay_index
        &&& post.last_broadcasted_state == spec_broadcast_last(
                pre.last_broadcasted_state,
                spec_derived_state(TunnelState::Exiting, pre.target_state),
            )
        &&& post.effects@ == spec_broadcast_effects(
                pre.last_broadcasted_state,
                spec_derived_state(TunnelState::Exiting, pre.target_state),
                pre.effects@,
            ).push(Effect::CloseTunnel(pre.tunnel_close_handle->0))
    })
}

/// What the tunnel process having stopped does: clear relay, interface and
/// handle, reset the baseline policy, return to `NotRunning`, and reconcile
/// the pair that leaves — a new start attempt when the target is still
/// secured.
pub open spec fn spec_tunnel_exited_post(pre: Daemon, env: Outcomes, post: Daemon, r: Result<(), Error>) -> bool {
    &&& post.shutdown == pre.shutdown
    &&& post.settings == pre.settings
    &&& post.relays == pre.relays
    // the baseline reset itself failed: loop-scoped failure
    &&& (!env.firewall_reset_ok ==> (
        r matches Err(e) && e.kind is FirewallError
        && post.state == pre.state
        && post.tunnel_close_handle == pre.tunnel_close_handle
        && post.relay_endpoint is None
        && post.tunnel_interface is None
        && post.effects@ == pre.effects@.push(Effect::ResetPolicy)
    ))
    &&& (env.firewall_reset_ok ==> post.wf())
    // a stale exit notification while nothing ran is an
    // internal-consistency error
    &&& (env.firewall_reset_ok && pre.state is NotRunning ==> (
        r matches Err(e) && e.kind is InvalidState
        && post.state is NotRunning
        && post.tunnel_close_handle is None
        && post.relay_endpoint is None
        && post.tunnel_interface is None
        && post.effects@ == pre.effects@.push(Effect::ResetPolicy)
    ))
    // clean return to baseline while the target is unsecured
    &&& (env.firewall_reset_ok && !(pre.state is NotRunning) && pre.target_state is Unsecured ==> {
        &&& r is Ok
        &&& post.state is NotRunning
        &&& post.tunnel_close_handle is None
        &&& post.relay_endpoint is None
        &&& post.tunnel_interface is None
        &&& post.target_state == pre.target_state
        &&& post.relay_index == pre.relay_index
        &&& post.last_broadcasted_state == spec_broadcast_last(
                pre.last_broadcasted_state,
                spec_derived_state(TunnelState::NotRunning, pre.target_state),
            )
        &&& post.effects@ == spec_broadcast_effects(
                pre.last_broadcasted_state,
                spec_derived_state(TunnelState::NotRunning, pre.target_state),
                pre.effects@.push(Effect::ResetPolicy),
            )
    })
    // the tunnel stopped while the target is still secured: exactly one
    // new start attempt follows at once
    &&& (env.firewall_reset_ok && !(pre.state is NotRunning) && pre.target_state is Secured ==> ({
        let nd0 = spec_derived_state(TunnelState::NotRunning, pre.target_state);
        let base_last = spec_broadcast_last(pre.last_broadcasted_state, nd0);
        let base_eff = spec_broadcast_effects(pre.last_broadcasted_state, nd0, pre.effects@.push(Effect::ResetPolicy));
        &&& (r matches Err(e) ==> e.kind is FirewallError)
        &&& (r is Ok ==> (post.state is Connecting && post.tunnel_close_handle is Some)
                || (post.state is NotRunning && post.tunnel_close_handle is None
                    && post.target_state is Unsecured))
        &&& (spec_start_ok(pre, env) ==> {
            &&& r is Ok
            &&& post.state is Connecting
            &&& post.effects@ == spec_start_success_effects(
                    spec_selected_relay(pre, env),
                    pre.settings.account_token,
                    base_last,
                    pre.target_state,
                    base_eff,
                )
        })
        &&& (!spec_start_ok(pre, env) && env.firewall_reset_ok ==> {
            &&& r is Ok
            &&& post.state is NotRunning
            &&& post.target_state is Unsecured
            &&& spec_start_fallback(
                    spec_selected_relay(pre, env),
                    pre.settings.account_token,
                    env,
                    base_last,
                    base_eff,
                    post,
                )
        })
    }))
}

/// What a set-account command does: persist, acknowledge, and tear the
/// tunnel down exactly when the token changed under a live one.
pub open spec fn spec_set_account_post(pre: Daemon, token: Option<String>, env: Outcomes, post: Daemon, r: Result<(), Error>) -> bool {
    &&& post.wf()
    &&& r is Ok
    &&& post.shutdown == pre.shutdown
    &&& post.relays == pre.relays
    &&& post.settings.custom_relay == pre.settings.custom_relay
    // the save failed: logged, nothing else happens
    &&& (!env.settings_save_ok ==> {
        &&& post.settings == pre.settings
        &&& post.state == pre.state
        &&& post.tunnel_close_handle == pre.tunnel_close_handle
        &&& post.last_broadcasted_state == pre.last_broadcasted_state
        &&& post.target_state == pre.target_state
        &&& post.relay_endpoint == pre.relay_endpoint
        &&& post.tunnel_interface == pre.tunnel_interface
        &&& post.relay_index == pre.relay_index
        &&& post.effects@ == pre.effects@.push(Effect::SaveAccountToken(token))
    })
    &&& (env.settings_save_ok ==> post.settings.account_token == token)
    // saved; the token did not change, or no tunnel is live: acknowledge
    &&& (env.settings_save_ok && !(!spec_opt_token_eq(token, pre.settings.account_token)
        && (pre.state is Connecting || pre.state is Connected)) ==> {
        &&& post.state == pre.state
        &&& post.tunnel_close_handle == pre.tunnel_close_handle
        &&& post.last_broadcasted_state == pre.last_broadcasted_state
        &&& post.target_state == pre.target_state
        &&& post.relay_endpoint == pre.relay_endpoint
        &&& post.tunnel_interface == pre.tunnel_interface
        &&& post.relay_index == pre.relay_index
        &&& post.effects@ == pre.effects@.push(Effect::SaveAccountToken(token)).push(Effect::ReplySetAccount)
    })
    // saved and the token changed under a live tunnel: acknowledge, then
    // tear the tunnel down
    &&& (env.settings_save_ok && !spec_opt_token_eq(token, pre.settings.account_token)
        && (pre.state is Connecting || pre.state is Connected) ==> {
        &&& post.state is Exiting
        &&& post.tunnel_close_handle is None
        &&& post.target_state == pre.target_state
        &&& post.relay_endpoint == pre.relay_endpoint
        &&& post.tunnel_interface == pre.tunnel_interface
        &&& post.relay_index == pre.relay_index
        &&& ({
            let eff1 = pre.effects@.push(Effect::SaveAccountToken(token)).push(Effect::ReplySetAccount);
            let nd = spec_derived_state(TunnelState::Exiting, pre.target_state);
            &&& post.last_broadcasted_state == spec_broadcast_last(pre.last_broadcasted_state, nd)
            &&& post.effects@ == spec_broadcast_effects(pre.last_broadcasted_state, nd, eff1).push(
                    Effect::CloseTunnel(pre.tunnel_close_handle->0),
                )
        })
    })
}

/// What a set-custom-relay command does: persist, acknowledge, and tear
/// the tunnel down exactly when the override changed under a live one.
pub open spec fn spec_set_custom_relay_post(pre: Daemon, re: RelayEndpoint, env: Outcomes, post: Daemon, r: Result<(), Error>) -> bool {
    &&& post.wf()
    &&& r is Ok
    &&& post.shutdown == pre.shutdown
    &&& post.relays == pre.relays
    &&& post.settings.account_token == pre.settings.account_token
    // the save failed: logged, nothing else happens
    &&& (!env.settings_save_ok ==> {
        &&& post.settings == pre.settings
        &&& post.state == pre.state
        &&& post.tunnel_close_handle == pre.tunnel_close_handle
        &&& post.last_broadcasted_state == pre.last_broadcasted_state
        &&& post.target_state == pre.target_state
        &&& post.relay_endpoint == pre.relay_endpoint
        &&& post.tunnel_interface == pre.tunnel_interface
        &&& post.relay_index == pre.relay_index
        &&& post.effects@ == pre.effects@.push(Effect::SaveCustomRelay(re))
    })
    &&& (env.settings_save_ok ==> post.settings.custom_relay == Some(re))
    // saved; the override did not change, or no tunnel is live
    &&& (env.settings_save_ok && !(!spec_opt_relay_eq(Some(re), pre.settings.custom_relay)
        && (pre.state is Connecting || pre.state is Connected)) ==> {
        &&& post.state == pre.state
        &&& post.tunnel_close_handle == pre.tunnel_close_handle
        &&& post.last_broadcasted_state == pre.last_broadcasted_state
        &&& post.target_state == pre.target_state
        &&& post.relay_endpoint == pre.relay_endpoint
        &&& post.tunnel_interface == pre.tunnel_interface
        &&& post.relay_index == pre.relay_index
        &&& post.effects@ == pre.effects@.push(Effect::SaveCustomRelay(re)).push(Effect::ReplySetCustomRelay)
    })
    // saved and the override changed under a live tunnel
    &&& (env.settings_save_ok && !spec_opt_relay_eq(Some(re), pre.settings.custom_relay)
        && (pre.state is Connecting || pre.state is Connected) ==> {
        &&& post.state is Exiting
        &&& post.tunnel_close_handle is None
        &&& post.target_state == pre.target_state
        &&& ({
            let eff1 = pre.effects@.push(Effect::SaveCustomRelay(re)).push(Effect::ReplySetCustomRelay);
            let nd = spec_derived_state(TunnelState::Exiting, pre.target_state);
            &&& post.last_broadcasted_state == spec_broadcast_last(pre.last_broadcasted_state, nd)
            &&& post.effects@ == spec_broadcast_effects(pre.last_broadcasted_state, nd, eff1).push(
                    Effect::CloseTunnel(pre.tunnel_close_handle->0),
                )
        })
    })
}

/// What each inbound client command does.
pub open spec fn spec_command_post(pre: Daemon, cmd: TunnelCommand, env: Outcomes, post: Daemon, r: Result<(), Error>) -> bool {
    match cmd {
        TunnelCommand::SetTargetState(t) => {
            &&& (pre.shutdown ==> (r is Ok && post == pre))
            &&& (!pre.shutdown ==> spec_set_target_state_post(pre, t, env, post, r))
        },
        TunnelCommand::GetState => {
            &&& r is Ok
            &&& spec_same_but_effects(pre, post)
            &&& post.effects@ == pre.effects@.push(Effect::ReplyState(pre.last_broadcasted_state))
        },
        TunnelCommand::GetAccountData(token) => {
            &&& r is Ok
            &&& spec_same_but_effects(pre, post)
            &&& post.effects@ == pre.effects@.push(Effect::ReplyAccountData(token))
        },
        TunnelCommand::SetAccount(token) => spec_set_account_post(pre, token, env, post, r),
        TunnelCommand::GetAccount => {
            &&& r is Ok
            &&& spec_same_but_effects(pre, post)
            &&& post.effects@ == pre.effects@.push(Effect::ReplyAccount(pre.settings.account_token))
        },
        TunnelCommand::SetCustomRelay(re) => spec_set_custom_relay_post(pre, re, env, post, r),
    }
}

/// What a shutdown request does: set the flag, then force the target to
/// unsecured with the full cascade that implies.
pub open spec fn spec_shutdown_post(pre: Daemon, env: Outcomes, post: Daemon, r: Result<(), Error>) -> bool {
    &&& post.shutdown
    &&& spec_set_target_state_post(
            Daemon { shutdown: true, ..pre },
            TargetState::Unsecured,
            env,
            post,
            r,
        )
}

/// What handling one event does: the dispatch table of the event loop.
pub open spec fn spec_event_post(pre: Daemon, event: DaemonEvent, env: Outcomes, post: Daemon, r: Result<(), Error>) -> bool {
    match event {
        DaemonEvent::TunnelEvent(te) => spec_tunnel_event_post(pre, te, env, post, r),
        DaemonEvent::TunnelExited(_) => spec_tunnel_exited_post(pre, env, post, r),
        DaemonEvent::TunnelKillResult(_) => r is Ok && post == pre,
        DaemonEvent::ManagementInterfaceEvent(cmd) => spec_command_post(pre, cmd, env, post, r),
        DaemonEvent::ManagementInterfaceExited(clean) => {
            &&& post == pre
            &&& (r matches Err(e) && e.kind is ManagementInterfaceError)
            &&& (r matches Err(e) ==> (e.cause is Some <==> !clean))
        },
        DaemonEvent::TriggerShutdown => spec_shutdown_post(pre, env, post, r),
    }
}

/// A prefix of one run of the event loop: `trace[0]` is the daemon the
/// loop started from, each later entry the daemon after handling the next
/// event of the queue, strictly in queue order; every handled event
/// returned Ok, and no state between two handled events met the stop
/// condition (shutdown requested and tunnel at `NotRunning`) — the loop
/// would have stopped there.
pub open spec fn spec_events_handled(pre: Daemon, events: Seq<DaemonEvent>, env: Outcomes, trace: Seq<Daemon>) -> bool {
    &&& 1 <= trace.len() <= events.len() + 1
    &&& trace[0] == pre
    &&& (forall|i: int| 0 <= i < trace.len() - 1 ==> spec_event_post(
            trace[i], events[i], env, #[trigger] trace[i + 1], Result::<(), Error>::Ok(()),
        ))
    &&& (forall|i: int| 1 <= i < trace.len() - 1 ==> !((#[trigger] trace[i]).shutdown
            && trace[i].state is NotRunning))
}

impl Daemon {
    /// The close-handle-presence invariant, stated for tunnel state `s`:
    /// the handle exists exactly in `Connecting` and `Connected`.
    pub open spec fn handle_matches_state(self, s: TunnelState) -> bool {
        self.tunnel_close_handle is Some <==> (s is Connecting || s is Connected)
    }

    /// Well-formedness for tunnel state `s`: the close-handle invariant,
    /// no stale interface while no tunnel runs, and a selected relay
    /// whenever a tunnel is live.
    pub open spec fn wf_at(self, s: TunnelState) -> bool {
        &&& self.handle_matches_state(s)
        &&& (s is NotRunning ==> self.tunnel_interface is None)
        &&& ((s is Connecting || s is Connected) ==> self.relay_endpoint is Some)
    }

    /// Well-formedness of the daemon: holds after every transition.
    pub open spec fn wf(self) -> bool {
        self.wf_at(self.state)
    }

    /// The snapshot derived from the current state.
    pub open spec fn spec_derived(self) -> DaemonState {
        spec_derived_state(self.state, self.target_state)
    }

    /// Reconciliation of the current pair would start the tunnel.
    pub open spec fn start_case(self) -> bool {
        spec_reconciliation_action(self.target_state, self.state) is StartTunnel
    }

    /// Reconciliation of the current pair would kill the tunnel.
    pub open spec fn kill_case(self) -> bool {
        spec_reconciliation_action(self.target_state, self.state) is KillTunnel
    }

    /// A fresh daemon: nothing runs, nothing is desired, nothing was
    /// broadcast beyond the initial snapshot.
    pub fn new(settings: Settings, relays: Vec<Endpoint>) -> (d: Daemon)
        ensures
            d.state is NotRunning,
            d.tunnel_close_handle is None,
            d.target_state is Unsecured,
            d.last_broadcasted_state == spec_derived_state(TunnelState::NotRunning, TargetState::Unsecured),
            !d.shutdown,
            d.settings == settings,
            d.relay_endpoint is None,
            d.tunnel_interface is None,
            d.relays == relays,
            d.relay_index == 0,
            d.effects@ == Seq::<Effect>::empty(),
            d.wf(),
    {
        let state = TunnelState::NotRunning;
        let target_state = TargetState::Unsecured;
        Daemon {
            state,
            tunnel_close_handle: None,
            last_broadcasted_state: DaemonState { state: state.as_security_state(), target_state },
            target_state,
            shutdown: false,
            settings,
            relay_endpoint: None,
            tunnel_interface: None,
            relays,
            relay_index: 0,
            effects: Vec::new(),
        }
    }

    /// Hand the effects gathered so far to the driver, in order.
    pub fn take_effects(&mut self) -> (r: Vec<Effect>)
        ensures
            r@ == old(self).effects@,
            final(self).effects@ == Seq::<Effect>::empty(),
            final(self).state == old(self).state,
            final(self).tunnel_close_handle == old(self).tunnel_close_handle,
            final(self).last_broadcasted_state == old(self).last_broadcasted_state,
            final(self).target_state == old(self).target_state,
            final(self).shutdown == old(self).shutdown,
            final(self).settings == old(self).settings,
            final(self).relay_endpoint == old(self).relay_endpoint,
            final(self).tunnel_interface == old(self).tunnel_interface,
            final(self).relays == old(self).relays,
            final(self).relay_index == old(self).relay_index,
    {
        let mut drained: Vec<Effect> = Vec::new();
        core::mem::swap(&mut drained, &mut self.effects);
        drained
    }

    /// Check that the close-handle-presence invariant holds of the current
    /// state; its violation is a fatal internal-consistency error.
    pub fn verify_state_consistency(&self) -> (r: Result<(), Error>)
        ensures
            r is Ok <==> self.handle_matches_state(self.state),
            r matches Err(e) ==> e.kind is InvalidState,
    {
        let consistent = match self.state {
            TunnelState::NotRunning => self.tunnel_close_handle.is_none(),
            TunnelState::Connecting => self.tunnel_close_handle.is_some(),
            TunnelState::Connected => self.tunnel_close_handle.is_some(),
            TunnelState::Exiting => self.tunnel_close_handle.is_none(),
        };
        if consistent {
            Ok(())
        } else {
            Err(Error::new(ErrorKind::InvalidState))
        }
    }

    /// Broadcast the snapshot derived from the current state, suppressed
    /// when it equals the last broadcast one.
    pub fn broadcast_state(&mut self)
        ensures
            final(self).last_broadcasted_state == spec_broadcast_last(
                old(self).last_broadcasted_state,
                old(self).spec_derived(),
            ),
            final(self).effects@ == spec_broadcast_effects(
                old(self).last_broadcasted_state,
                old(self).spec_derived(),
                old(self).effects@,
            ),
            final(self).state == old(self).state,
            final(self).tunnel_close_handle == old(self).tunnel_close_handle,
            final(self).target_state == old(self).target_state,
            final(self).shutdown == old(self).shutdown,
            final(self).settings == old(self).settings,
            final(self).relay_endpoint == old(self).relay_endpoint,
            final(self).tunnel_interface == old(self).tunnel_interface,
            final(self).relays == old(self).relays,
            final(self).relay_index == old(self).relay_index,
    {
        let new_daemon_state = DaemonState {
            state: self.state.as_security_state(),
            target_state: self.target_state,
        };
        if self.last_broadcasted_state != new_daemon_state {
            self.last_broadcasted_state = new_daemon_state;
            self.effects.push(Effect::NotifyNewState(new_daemon_state));
        }
    }

    /// Ask the firewall for the policy implied by the selected relay and
    /// the established interface: connecting without an interface,
    /// connected with one; asking with no relay selected is an
    /// internal-consistency error.
    pub fn set_security_policy(&mut self, env: &Outcomes) -> (r: Result<(), Error>)
        ensures
            final(self).state == old(self).state,
            final(self).tunnel_close_handle == old(self).tunnel_close_handle,
            final(self).last_broadcasted_state == old(self).last_broadcasted_state,
            final(self).target_state == old(self).target_state,
            final(self).shutdown == old(self).shutdown,
            final(self).settings == old(self).settings,
            final(self).relay_endpoint == old(self).relay_endpoint,
            final(self).tunnel_interface == old(self).tunnel_interface,
            final(self).relays == old(self).relays,
            final(self).relay_index == old(self).relay_index,
            old(self).relay_endpoint is None ==> {
                &&& (r matches Err(e) && e.kind is InvalidState)
                &&& final(self).effects@ == old(self).effects@
            },
            old(self).relay_endpoint matches Some(relay) ==> (
                old(self).tunnel_interface is None ==> final(self).effects@ == old(self).effects@.push(
                    Effect::ApplyPolicy(SecurityPolicy::Connecting(relay)),
                )
            ),
            old(self).relay_endpoint matches Some(relay) ==> (
                old(self).tunnel_interface matches Some(i) ==> final(self).effects@ == old(self).effects@.push(
                    Effect::ApplyPolicy(SecurityPolicy::Connected(relay, i)),
                )
            ),
            old(self).relay_endpoint is Some ==> {
                &&& (r is Ok <==> env.firewall_apply_ok)
                &&& (r matches Err(e) ==> e.kind is FirewallError)
            },
    {
        let policy = match (&self.relay_endpoint, &self.tunnel_interface) {
            (Option::Some(relay), Option::None) => SecurityPolicy::Connecting(*relay),
            (Option::Some(relay), Option::Some(interface)) => SecurityPolicy::Connected(
                *relay,
                interface.clone(),
            ),
            _ => {
                return Err(Error::new(ErrorKind::InvalidState));
            },
        };
        self.effects.push(Effect::ApplyPolicy(policy));
        if env.firewall_apply_ok {
            Ok(())
        } else {
            Err(Error::new(ErrorKind::FirewallError))
        }
    }

    /// Ask the firewall to restore the unsecured baseline policy.
    pub fn reset_security_policy(&mut self, env: &Outcomes) -> (r: Result<(), Error>)
        ensures
            final(self).effects@ == old(self).effects@.push(Effect::ResetPolicy),
            r is Ok <==> env.firewall_reset_ok,
            r matches Err(e) ==> e.kind is FirewallError,
            final(self).state == old(self).state,
            final(self).tunnel_close_handle == old(self).tunnel_close_handle,
            final(self).last_broadcasted_state == old(self).last_broadcasted_state,
            final(self).target_state == old(self).target_state,
            final(self).shutdown == old(self).shutdown,
            final(self).settings == old(self).settings,
            final(self).relay_endpoint == old(self).relay_endpoint,
            final(self).tunnel_interface == old(self).tunnel_interface,
            final(self).relays == old(self).relays,
            final(self).relay_index == old(self).relay_index,
    {
        self.effects.push(Effect::ResetPolicy);
        if env.firewall_reset_ok {
            Ok(())
        } else {
            Err(Error::new(ErrorKind::FirewallError))
        }
    }

    /// Turn a custom relay override into an endpoint, given what its host
    /// resolved to: the first address is used and the declared protocol
    /// name must be a known transport kind.
    pub fn parse_custom_relay(&self, relay_endpoint: &RelayEndpoint, env: &Outcomes) -> (r: Result<Endpoint, Error>)
        ensures
            spec_custom_relay_endpoint(*relay_endpoint, env.resolved_addresses) matches Some(ep)
                ==> (r matches Ok(e) && e == ep),
            spec_custom_relay_endpoint(*relay_endpoint, env.resolved_addresses) is None
                ==> (r matches Err(e) && e.kind is Msg),
    {
        match &env.resolved_addresses {
            Option::None => Err(Error::new(ErrorKind::Msg("invalid custom relay host"))),
            Option::Some(addrs) => {
                if addrs.len() == 0 {
                    Err(Error::new(ErrorKind::Msg("custom relay host resolved to no address")))
                } else {
                    let addr = addrs[0];
                    match parse_transport_protocol(&relay_endpoint.protocol) {
                        Option::None => Err(Error::new(ErrorKind::Msg("invalid custom relay protocol"))),
                        Option::Some(protocol) => Ok(Endpoint::new(addr.ip, addr.port, protocol)),
                    }
                }
            },
        }
    }

    /// Select the relay for the next start attempt: the custom override if
    /// one is configured, otherwise the next relay of the rotation.
    pub fn get_relay(&mut self, env: &Outcomes) -> (r: Result<Endpoint, Error>)
        ensures
            final(self).state == old(self).state,
            final(self).tunnel_close_handle == old(self).tunnel_close_handle,
            final(self).last_broadcasted_state == old(self).last_broadcasted_state,
            final(self).target_state == old(self).target_state,
            final(self).shutdown == old(self).shutdown,
            final(self).settings == old(self).settings,
            final(self).relay_endpoint == old(self).relay_endpoint,
            final(self).tunnel_interface == old(self).tunnel_interface,
            final(self).relays == old(self).relays,
            final(self).effects@ == old(self).effects@,
            final(self).relay_index as int == spec_cursor_after_selection(*old(self)),
            spec_selected_relay(*old(self), *env) matches Some(ep) ==> (r matches Ok(e) && e == ep),
            spec_selected_relay(*old(self), *env) is None ==> r is Err,
            r matches Err(e) ==> {
                &&& old(self).settings.custom_relay is Some ==> e.kind is Msg
                &&& old(self).settings.custom_relay is None ==> e.kind is NoRelay
            },
    {
        if let Option::Some(relay_endpoint) = &self.settings.custom_relay {
            self.parse_custom_relay(relay_endpoint, env)
        } else {
            if self.relays.len() == 0 {
                return Err(Error::new(ErrorKind::NoRelay));
            }
            let i: usize = self.relay_index % self.relays.len();
            let relay = self.relays[i];
            self.relay_index = (i + 1) % self.relays.len();
            Ok(relay)
        }
    }

    /// Ask the driver to spawn the tunnel subsystem toward `relay` with
    /// `account_token`, wiring lifecycle notifications and process exit
    /// back into the event queue; yields the close handle of the spawned
    /// tunnel when the spawn is accepted.
    pub fn spawn_tunnel_monitor(&mut self, relay: Endpoint, account_token: String, env: &Outcomes) -> (r: Result<CloseHandle, Error>)
        ensures
            final(self).effects@ == old(self).effects@.push(Effect::SpawnTunnel(relay, account_token)),
            r is Ok <==> env.tunnel_spawn_ok,
            r matches Err(e) ==> e.kind is TunnelError,
            final(self).state == old(self).state,
            final(self).tunnel_close_handle == old(self).tunnel_close_handle,
            final(self).last_broadcasted_state == old(self).last_broadcasted_state,
            final(self).target_state == old(self).target_state,
            final(self).shutdown == old(self).shutdown,
            final(self).settings == old(self).settings,
            final(self).relay_endpoint == old(self).relay_endpoint,
            final(self).tunnel_interface == old(self).tunnel_interface,
            final(self).relays == old(self).relays,
            final(self).relay_index == old(self).relay_index,
    {
        self.effects.push(Effect::SpawnTunnel(relay, account_token));
        if env.tunnel_spawn_ok {
            Ok(CloseHandle {  })
        } else {
            Err(Error::new(ErrorKind::TunnelError("unable to start tunnel monitor")))
        }
    }

    /// Update the actual tunnel state. Updating to the state already held
    /// is an internal-consistency error, so that every real change flows
    /// through broadcast, invariant check and reconciliation exactly once.
    pub fn set_state(&mut self, new_state: TunnelState, env: &Outcomes) -> (r: Result<(), Error>)
        requires
            new_state != old(self).state ==> old(self).wf_at(new_state),
        ensures
            new_state == old(self).state ==> (
                r matches Err(e) && e.kind is InvalidState && *final(self) == *old(self)
            ),
            new_state != old(self).state ==> {
                &&& final(self).wf()
                &&& final(self).shutdown == old(self).shutdown
                &&& final(self).settings == old(self).settings
                &&& final(self).relays == old(self).relays
            },
            // reconciliation of the updated pair is a no-op: the whole
            // transition is the update plus one (possibly suppressed)
            // broadcast
            new_state != old(self).state && recon_rank(old(self).target_state, new_state) == 0 ==> {
                &&& r is Ok
                &&& final(self).state == new_state
                &&& final(self).tunnel_close_handle == old(self).tunnel_close_handle
                &&& final(self).target_state == old(self).target_state
                &&& final(self).relay_endpoint == old(self).relay_endpoint
                &&& final(self).tunnel_interface == old(self).tunnel_interface
                &&& final(self).relay_index == old(self).relay_index
                &&& final(self).last_broadcasted_state == spec_broadcast_last(
                        old(self).last_broadcasted_state,
                        spec_derived_state(new_state, old(self).target_state),
                    )
                &&& final(self).effects@ == spec_broadcast_effects(
                        old(self).last_broadcasted_state,
                        spec_derived_state(new_state, old(self).target_state),
                        old(self).effects@,
                    )
            },
            // the updated pair demands a kill: the live tunnel is torn down
            new_state != old(self).state && old(self).target_state is Unsecured
                && (new_state is Connecting || new_state is Connected) ==> {
                &&& r is Ok
                &&& final(self).state is Exiting
                &&& final(self).tunnel_close_handle is None
                &&& final(self).target_state == old(self).target_state
                &&& final(self).relay_endpoint == old(self).relay_endpoint
                &&& final(self).tunnel_interface == old(self).tunnel_interface
                &&& final(self).relay_index == old(self).relay_index
                &&& ({
                    let nd1 = spec_derived_state(new_state, old(self).target_state);
                    let last1 = spec_broadcast_last(old(self).last_broadcasted_state, nd1);
                    let eff1 = spec_broadcast_effects(old(self).last_broadcasted_state, nd1, old(self).effects@);
                    let nd2 = spec_derived_state(TunnelState::Exiting, old(self).target_state);
                    &&& final(self).last_broadcasted_state == spec_broadcast_last(last1, nd2)
                    &&& final(self).effects@ == spec_broadcast_effects(last1, nd2, eff1).push(
                            Effect::CloseTunnel(old(self).tunnel_close_handle->0),
                        )
                })
            },
            // the updated pair demands a start attempt: reached when the
            // tunnel process exited while the target is still secured
            new_state != old(self).state && old(self).target_state is Secured
                && new_state is NotRunning ==> ({
                let nd0 = spec_derived_state(new_state, old(self).target_state);
                let base_last = spec_broadcast_last(old(self).last_broadcasted_state, nd0);
                let base_eff = spec_broadcast_effects(old(self).last_broadcasted_state, nd0, old(self).effects@);
                &&& (r matches Err(e) ==> e.kind is FirewallError)
                &&& (r is Ok ==> (final(self).state is Connecting && final(self).tunnel_close_handle is Some)
                        || (final(self).state is NotRunning && final(self).tunnel_close_handle is None
                            && final(self).relay_endpoint is None && final(self).target_state is Unsecured))
                &&& (spec_start_ok(*old(self), *env) ==> {
                    &&& r is Ok
                    &&& final(self).state is Connecting
                    &&& final(self).relay_index as int == spec_cursor_after_selection(*old(self))
                    &&& final(self).last_broadcasted_state == spec_broadcast_last(
                            base_last,
                            spec_derived_state(TunnelState::Connecting, old(self).target_state),
                        )
                    &&& final(self).effects@ == spec_start_success_effects(
                            spec_selected_relay(*old(self), *env),
                            old(self).settings.account_token,
                            base_last,
                            old(self).target_state,
                            base_eff,
                        )
                })
                &&& (!spec_start_ok(*old(self), *env) && env.firewall_reset_ok ==> {
                    &&& r is Ok
                    &&& final(self).state is NotRunning
                    &&& final(self).target_state is Unsecured
                    &&& final(self).tunnel_close_handle is None
                    &&& final(self).relay_endpoint is None
                    &&& spec_start_fallback(
                            spec_selected_relay(*old(self), *env),
                            old(self).settings.account_token,
                            *env,
                            base_last,
                            base_eff,
                            *final(self),
                        )
                })
            }),
        decreases 10 * recon_rank(old(self).target_state, new_state) + 2,
    {
        if new_state != self.state {
            self.state = new_state;
            self.broadcast_state();
            match self.verify_state_consistency() {
                Err(e) => {
                    return Err(e);
                },
                Ok(()) => {},
            }
            self.apply_target_state(env)
        } else {
            Err(Error::new(ErrorKind::InvalidState))
        }
    }

    /// Set the desired state. Setting the target already held is a benign
    /// no-op; a real change is broadcast and reconciled.
    pub fn set_target_state(&mut self, new_state: TargetState, env: &Outcomes) -> (r: Result<(), Error>)
        requires
            new_state != old(self).target_state ==> old(self).wf(),
        ensures
            spec_set_target_state_post(*old(self), new_state, *env, *final(self), r),
        decreases 10 * recon_rank(new_state, old(self).state) + 2,
    {
        if new_state != self.target_state {
            self.target_state = new_state;
            self.broadcast_state();
            self.apply_target_state(env)
        } else {
            Ok(())
        }
    }

    /// Reconciliation: compute and initiate the action that moves the
    /// actual state toward the target, a pure function of the pair. A
    /// failed start attempt is caught here: the relay is cleared, the
    /// policy reset to the unsecured baseline, the failure broadcast, and
    /// the target forced back to unsecured; no automatic retry follows.
    pub fn apply_target_state(&mut self, env: &Outcomes) -> (r: Result<(), Error>)
        requires
            old(self).wf(),
        ensures
            final(self).wf(),
            final(self).shutdown == old(self).shutdown,
            final(self).settings == old(self).settings,
            final(self).relays == old(self).relays,
            spec_reconciliation_action(old(self).target_state, old(self).state) is Nothing ==> (
                r is Ok && *final(self) == *old(self)
            ),
            spec_reconciliation_action(old(self).target_state, old(self).state) is KillTunnel ==> {
                &&& r is Ok
                &&& final(self).state is Exiting
                &&& final(self).tunnel_close_handle is None
                &&& final(self).target_state == old(self).target_state
                &&& final(self).relay_endpoint == old(self).relay_endpoint
                &&& final(self).tunnel_interface == old(self).tunnel_interface
                &&& final(self).relay_index == old(self).relay_index
                &&& final(self).last_broadcasted_state == spec_broadcast_last(
                        old(self).last_broadcasted_state,
                        spec_derived_state(TunnelState::Exiting, old(self).target_state),
                    )
                &&& final(self).effects@ == spec_broadcast_effects(
                        old(self).last_broadcasted_state,
                        spec_derived_state(TunnelState::Exiting, old(self).target_state),
                        old(self).effects@,
                    ).push(Effect::CloseTunnel(old(self).tunnel_close_handle->0))
            },
            spec_reconciliation_action(old(self).target_state, old(self).state) is StartTunnel ==> {
                &&& (r matches Err(e) ==> e.kind is FirewallError && final(self).state is NotRunning
                        && final(self).tunnel_close_handle is None && final(self).relay_endpoint is None)
                &&& (r is Ok ==> (final(self).state is Connecting && final(self).tunnel_close_handle is Some
                            && final(self).relay_endpoint is Some
                            && final(self).target_state == old(self).target_state)
                        || (final(self).state is NotRunning && final(self).tunnel_close_handle is None
                            && final(self).relay_endpoint is None && final(self).target_state is Unsecured))
                &&& (spec_start_ok(*old(self), *env) ==> {
                    &&& r is Ok
                    &&& final(self).state is Connecting
                    &&& final(self).relay_index as int == spec_cursor_after_selection(*old(self))
                    &&& final(self).last_broadcasted_state == spec_broadcast_last(
                            old(self).last_broadcasted_state,
                            spec_derived_state(TunnelState::Connecting, old(self).target_state),
                        )
                    &&& final(self).effects@ == spec_start_success_effects(
                            spec_selected_relay(*old(self), *env),
                            old(self).settings.account_token,
                            old(self).last_broadcasted_state,
                            old(self).target_state,
                            old(self).effects@,
                        )
                })
                &&& (!spec_start_ok(*old(self), *env) && env.firewall_reset_ok ==> {
                    &&& r is Ok
                    &&& final(self).state is NotRunning
                    &&& final(self).target_state is Unsecured
                    &&& final(self).tunnel_close_handle is None
                    &&& final(self).relay_endpoint is None
                    &&& spec_start_fallback(
                            spec_selected_relay(*old(self), *env),
                            old(self).settings.account_token,
                            *env,
                            old(self).last_broadcasted_state,
                            old(self).effects@,
                            *final(self),
                        )
                })
            },
        decreases 10 * recon_rank(old(self).target_state, old(self).state),
    {
        match (self.target_state, self.state) {
            (TargetState::Secured, TunnelState::NotRunning) => {
                match self.start_tunnel(env) {
                    Ok(()) => Ok(()),
                    Err(start_error) => {
                        proof {
                            assert(!spec_start_ok(*old(self), *env));
                            assert(self.state is NotRunning);
                            assert(self.tunnel_close_handle is None);
                            assert(self.effects@ == spec_start_failure_effects(
                                spec_selected_relay(*old(self), *env),
                                old(self).settings.account_token,
                                *env,
                                old(self).effects@,
                            ));
                        }
                        let failure = Error::chain(ErrorKind::Msg("failed to start tunnel"), start_error);
                        let ghost failure_snapshot = failure;
                        self.relay_endpoint = None;
                        match self.reset_security_policy(env) {
                            Err(e) => {
                                return Err(e);
                            },
                            Ok(()) => {},
                        }
                        self.effects.push(Effect::NotifyError(failure));
                        match self.set_target_state(TargetState::Unsecured, env) {
                            Err(e) => {
                                return Err(e);
                            },
                            Ok(()) => {},
                        }
                        proof {
                            let sel = spec_selected_relay(*old(self), *env);
                            let token = old(self).settings.account_token;
                            let eff2 = spec_start_failure_effects(sel, token, *env, old(self).effects@)
                                .push(Effect::ResetPolicy)
                                .push(Effect::NotifyError(failure_snapshot));
                            let nd = spec_derived_state(TunnelState::NotRunning, TargetState::Unsecured);
                            assert(self.effects@ == spec_broadcast_effects(
                                old(self).last_broadcasted_state, nd, eff2,
                            ));
                            assert(spec_start_fallback(
                                sel, token, *env,
                                old(self).last_broadcasted_state,
                                old(self).effects@,
                                *self,
                            ));
                        }
                        Ok(())
                    },
                }
            },
            (TargetState::Unsecured, TunnelState::Connecting) => self.kill_tunnel(env),
            (TargetState::Unsecured, TunnelState::Connected) => self.kill_tunnel(env),
            _ => Ok(()),
        }
    }

    /// Start the tunnel: select a relay, apply the connecting policy keyed
    /// on it, spawn the tunnel subsystem, keep its close handle, and move
    /// to `Connecting`. Requires that no tunnel runs and that an account
    /// token is configured.
    pub fn start_tunnel(&mut self, env: &Outcomes) -> (r: Result<(), Error>)
        requires
            old(self).wf(),
        ensures
            final(self).wf(),
            final(self).shutdown == old(self).shutdown,
            final(self).settings == old(self).settings,
            final(self).relays == old(self).relays,
            final(self).target_state == old(self).target_state,
            !(old(self).state is NotRunning) ==> (
                r matches Err(e) && e.kind is InvalidState && *final(self) == *old(self)
            ),
            // no viable relay: nothing observable happened
            old(self).state is NotRunning && spec_selected_relay(*old(self), *env) is None ==> {
                &&& (r matches Err(e) && e.kind is NoRelay)
                &&& final(self).state == old(self).state
                &&& final(self).tunnel_close_handle == old(self).tunnel_close_handle
                &&& final(self).relay_endpoint == old(self).relay_endpoint
                &&& final(self).tunnel_interface == old(self).tunnel_interface
                &&& final(self).effects@ == old(self).effects@
                &&& final(self).last_broadcasted_state == old(self).last_broadcasted_state
                &&& final(self).relay_index == old(self).relay_index
            },
            // a relay was selected but no account token is configured
            old(self).state is NotRunning && spec_selected_relay(*old(self), *env) is Some
                && old(self).settings.account_token is None ==> {
                &&& (r matches Err(e) && e.kind is InvalidSettings)
                &&& final(self).state == old(self).state
                &&& final(self).tunnel_close_handle == old(self).tunnel_close_handle
                &&& final(self).relay_endpoint == old(self).relay_endpoint
                &&& final(self).tunnel_interface == old(self).tunnel_interface
                &&& final(self).effects@ == old(self).effects@
                &&& final(self).last_broadcasted_state == old(self).last_broadcasted_state
                &&& final(self).relay_index as int == spec_cursor_after_selection(*old(self))
            },
            // the firewall refused the connecting policy
            spec_selected_relay(*old(self), *env) matches Some(relay) ==> (
                old(self).state is NotRunning
                    && old(self).settings.account_token is Some && !env.firewall_apply_ok ==> {
                    &&& (r matches Err(e) && e.kind is FirewallError)
                    &&& final(self).state == old(self).state
                    &&& final(self).tunnel_close_handle is None
                    &&& final(self).relay_endpoint == Some(relay)
                    &&& final(self).tunnel_interface == old(self).tunnel_interface
                    &&& final(self).effects@ == old(self).effects@.push(
                            Effect::ApplyPolicy(SecurityPolicy::Connecting(relay)),
                        )
                    &&& final(self).last_broadcasted_state == old(self).last_broadcasted_state
                    &&& final(self).relay_index as int == spec_cursor_after_selection(*old(self))
                }
            ),
            // spawning the tunnel subsystem failed
            spec_selected_relay(*old(self), *env) matches Some(relay) ==> (
                old(self).settings.account_token matches Some(tok) ==> (
                    old(self).state is NotRunning && env.firewall_apply_ok
                        && !env.tunnel_spawn_ok ==> {
                    &&& (r matches Err(e) && e.kind is TunnelError)
                    &&& final(self).state == old(self).state
                    &&& final(self).tunnel_close_handle is None
                    &&& final(self).relay_endpoint == Some(relay)
                    &&& final(self).tunnel_interface == old(self).tunnel_interface
                    &&& final(self).effects@ == old(self).effects@.push(
                            Effect::ApplyPolicy(SecurityPolicy::Connecting(relay)),
                        ).push(Effect::SpawnTunnel(relay, tok))
                    &&& final(self).last_broadcasted_state == old(self).last_broadcasted_state
                    &&& final(self).relay_index as int == spec_cursor_after_selection(*old(self))
                }
                )
            ),
            // every collaborator accepted: the tunnel is starting
            spec_selected_relay(*old(self), *env) matches Some(relay) ==> (
                old(self).settings.account_token matches Some(tok) ==> (
                    old(self).state is NotRunning && env.firewall_apply_ok
                        && env.tunnel_spawn_ok && old(self).target_state is Secured ==> {
                    &&& r is Ok
                    &&& final(self).state is Connecting
                    &&& final(self).tunnel_close_handle is Some
                    &&& final(self).relay_endpoint == Some(relay)
                    &&& final(self).tunnel_interface == old(self).tunnel_interface
                    &&& final(self).relay_index as int == spec_cursor_after_selection(*old(self))
                    &&& final(self).last_broadcasted_state == spec_broadcast_last(
                            old(self).last_broadcasted_state,
                            spec_derived_state(TunnelState::Connecting, old(self).target_state),
                        )
                    &&& final(self).effects@ == spec_broadcast_effects(
                            old(self).last_broadcasted_state,
                            spec_derived_state(TunnelState::Connecting, old(self).target_state),
                            old(self).effects@.push(Effect::ApplyPolicy(SecurityPolicy::Connecting(relay)))
                                .push(Effect::SpawnTunnel(relay, tok)),
                        )
                }
                )
            ),
            // started while the target is unsecured: reconciliation kills
            // the fresh tunnel at once
            old(self).state is NotRunning && spec_selected_relay(*old(self), *env) is Some
                && old(self).settings.account_token is Some && env.firewall_apply_ok
                && env.tunnel_spawn_ok && old(self).target_state is Unsecured ==> {
                &&& r is Ok
                &&& final(self).state is Exiting
                &&& final(self).tunnel_close_handle is None
            },
        decreases (if old(self).target_state is Secured { 8int } else { 20int }),
    {
        if !(self.state == TunnelState::NotRunning) {
            return Err(Error::new(ErrorKind::InvalidState));
        }
        let relay = match self.get_relay(env) {
            Ok(relay) => relay,
            Err(e) => {
                return Err(Error::chain(ErrorKind::NoRelay, e));
            },
        };
        let account_token = match self.settings.get_account_token() {
            Option::Some(token) => token,
            Option::None => {
                return Err(Error::new(ErrorKind::InvalidSettings("no account token configured")));
            },
        };
        self.relay_endpoint = Some(relay);
        match self.set_security_policy(env) {
            Err(e) => {
                return Err(e);
            },
            Ok(()) => {},
        }
        let close_handle = match self.spawn_tunnel_monitor(relay, account_token, env) {
            Ok(handle) => handle,
            Err(e) => {
                return Err(e);
            },
        };
        self.tunnel_close_handle = Some(close_handle);
        self.set_state(TunnelState::Connecting, env)
    }

    /// Tear the live tunnel down: take exclusive ownership of the close
    /// handle, move to `Exiting`, and hand the handle to the close worker;
    /// the worker's outcome comes back as an event.
    pub fn kill_tunnel(&mut self, env: &Outcomes) -> (r: Result<(), Error>)
        requires
            old(self).wf(),
        ensures
            final(self).wf(),
            !(old(self).state is Connecting || old(self).state is Connected) ==> (
                r matches Err(e) && e.kind is InvalidState && *final(self) == *old(self)
            ),
            (old(self).state is Connecting || old(self).state is Connected) ==> {
                &&& r is Ok
                &&& final(self).state is Exiting
                &&& final(self).tunnel_close_handle is None
                &&& final(self).target_state == old(self).target_state
                &&& final(self).shutdown == old(self).shutdown
                &&& final(self).settings == old(self).settings
                &&& final(self).relay_endpoint == old(self).relay_endpoint
                &&& final(self).tunnel_interface == old(self).tunnel_interface
                &&& final(self).relays == old(self).relays
                &&& final(self).relay_index == old(self).relay_index
                &&& final(self).last_broadcasted_state == spec_broadcast_last(
                        old(self).last_broadcasted_state,
                        spec_derived_state(TunnelState::Exiting, old(self).target_state),
                    )
                &&& final(self).effects@ == spec_broadcast_effects(
                        old(self).last_broadcasted_state,
                        spec_derived_state(TunnelState::Exiting, old(self).target_state),
                        old(self).effects@,
                    ).push(Effect::CloseTunnel(old(self).tunnel_close_handle->0))
            },
        decreases 6int,
    {
        if !(self.state == TunnelState::Connecting || self.state == TunnelState::Connected) {
            return Err(Error::new(ErrorKind::InvalidState));
        }
        let close_handle = self.tunnel_close_handle.take().unwrap();
        match self.set_state(TunnelState::Exiting, env) {
            Err(e) => {
                return Err(e);
            },
            Ok(()) => {},
        }
        self.effects.push(Effect::CloseTunnel(close_handle));
        Ok(())
    }

    /// React to a lifecycle notification from the tunnel software. An "up"
    /// notification matters only while `Connecting`, a "down" notification
    /// only while `Connected`; stale notifications from a tunnel that is
    /// already being torn down never perturb state.
    pub fn handle_tunnel_event(&mut self, tunnel_event: TunnelEvent, env: &Outcomes) -> (r: Result<(), Error>)
        requires
            old(self).wf(),
        ensures
            spec_tunnel_event_post(*old(self), tunnel_event, *env, *final(self), r),
    {
        if self.state == TunnelState::Connecting {
            match tunnel_event {
                TunnelEvent::Up { tunnel_interface } => {
                    self.tunnel_interface = Some(tunnel_interface);
                    match self.set_security_policy(env) {
                        Err(e) => {
                            return Err(e);
                        },
                        Ok(()) => {},
                    }
                    self.set_state(TunnelState::Connected, env)
                },
                _ => Ok(()),
            }
        } else if self.state == TunnelState::Connected {
            match tunnel_event {
                TunnelEvent::Down => self.kill_tunnel(env),
                _ => Ok(()),
            }
        } else {
            Ok(())
        }
    }

    /// React to the tunnel process having stopped, however it stopped:
    /// clear the selected relay and the interface, reset the policy to the
    /// unsecured baseline, drop the close handle, and return to
    /// `NotRunning`. This is the single point that guarantees eventual
    /// return to a clean baseline.
    pub fn handle_tunnel_exited(&mut self, clean_exit: bool, env: &Outcomes) -> (r: Result<(), Error>)
        requires
            old(self).wf(),
        ensures
            spec_tunnel_exited_post(*old(self), *env, *final(self), r),
    {
        self.relay_endpoint = None;
        self.tunnel_interface = None;
        match self.reset_security_policy(env) {
            Err(e) => {
                return Err(e);
            },
            Ok(()) => {},
        }
        self.tunnel_close_handle = None;
        self.set_state(TunnelState::NotRunning, env)
    }

    /// React to the completion of a tunnel close operation: purely
    /// informational; the return to `NotRunning` is driven by the
    /// process-exited event, which is expected to follow.
    pub fn handle_tunnel_kill_result(&self, success: bool) -> (r: Result<(), Error>)
        ensures
            r is Ok,
    {
        if !success {
            // a failed close is informational only; the return to
            // baseline is driven by the process-exited event
        }
        Ok(())
    }

    /// React to a set-target-state command: ignored while a shutdown is in
    /// progress, otherwise a plain target-state change.
    pub fn on_set_target_state(&mut self, new_target_state: TargetState, env: &Outcomes) -> (r: Result<(), Error>)
        requires
            old(self).wf(),
        ensures
            old(self).shutdown ==> (r is Ok && *final(self) == *old(self)),
            !old(self).shutdown ==> spec_set_target_state_post(*old(self), new_target_state, *env, *final(self), r),
    {
        if !self.shutdown {
            self.set_target_state(new_target_state, env)
        } else {
            Ok(())
        }
    }

    /// Reply to a get-state command with the last broadcast snapshot.
    pub fn on_get_state(&mut self)
        ensures
            final(self).effects@ == old(self).effects@.push(
                Effect::ReplyState(old(self).last_broadcasted_state),
            ),
            final(self).state == old(self).state,
            final(self).tunnel_close_handle == old(self).tunnel_close_handle,
            final(self).last_broadcasted_state == old(self).last_broadcasted_state,
            final(self).target_state == old(self).target_state,
            final(self).shutdown == old(self).shutdown,
            final(self).settings == old(self).settings,
            final(self).relay_endpoint == old(self).relay_endpoint,
            final(self).tunnel_interface == old(self).tunnel_interface,
            final(self).relays == old(self).relays,
            final(self).relay_index == old(self).relay_index,
    {
        let state = self.last_broadcasted_state;
        self.effects.push(Effect::ReplyState(state));
    }

    /// Reply to a get-account-data command with a deferred request for the
    /// expiry of the given token; the daemon never blocks on it.
    pub fn on_get_account_data(&mut self, account_token: String)
        ensures
            final(self).effects@ == old(self).effects@.push(Effect::ReplyAccountData(account_token)),
            final(self).state == old(self).state,
            final(self).tunnel_close_handle == old(self).tunnel_close_handle,
            final(self).last_broadcasted_state == old(self).last_broadcasted_state,
            final(self).target_state == old(self).target_state,
            final(self).shutdown == old(self).shutdown,
            final(self).settings == old(self).settings,
            final(self).relay_endpoint == old(self).relay_endpoint,
            final(self).tunnel_interface == old(self).tunnel_interface,
            final(self).relays == old(self).relays,
            final(self).relay_index == old(self).relay_index,
    {
        self.effects.push(Effect::ReplyAccountData(account_token));
    }

    /// Reply to a get-account command with the configured token.
    pub fn on_get_account(&mut self)
        ensures
            final(self).effects@ == old(self).effects@.push(
                Effect::ReplyAccount(old(self).settings.account_token),
            ),
            final(self).state == old(self).state,
            final(self).tunnel_close_handle == old(self).tunnel_close_handle,
            final(self).last_broadcasted_state == old(self).last_broadcasted_state,
            final(self).target_state == old(self).target_state,
            final(self).shutdown == old(self).shutdown,
            final(self).settings == old(self).settings,
            final(self).relay_endpoint == old(self).relay_endpoint,
            final(self).tunnel_interface == old(self).tunnel_interface,
            final(self).relays == old(self).relays,
            final(self).relay_index == old(self).relay_index,
    {
        let token = self.settings.get_account_token();
        self.effects.push(Effect::ReplyAccount(token));
    }

    /// React to a set-account command: persist the token, acknowledge, and
    /// restart the tunnel when the token actually changed under a live
    /// one, so reconnection picks the new token up. A persistence failure
    /// is logged, never fatal.
    pub fn on_set_account(&mut self, account_token: Option<String>, env: &Outcomes) -> (r: Result<(), Error>)
        requires
            old(self).wf(),
        ensures
            spec_set_account_post(*old(self), account_token, *env, *final(self), r),
    {
        let changed = !opt_token_eq(&account_token, &self.settings.account_token);
        self.effects.push(Effect::SaveAccountToken(clone_opt_token(&account_token)));
        if env.settings_save_ok {
            self.settings.account_token = account_token;
            self.effects.push(Effect::ReplySetAccount);
            let tunnel_needs_restart = self.state == TunnelState::Connecting
                || self.state == TunnelState::Connected;
            if changed && tunnel_needs_restart {
                match self.kill_tunnel(env) {
                    Err(e) => {
                        return Err(e);
                    },
                    Ok(()) => {},
                }
            }
            Ok(())
        } else {
            Ok(())
        }
    }

    /// React to a set-custom-relay command: persist the override,
    /// acknowledge, and restart the tunnel when the override actually
    /// changed under a live one. A persistence failure is logged, never
    /// fatal.
    pub fn on_set_custom_relay(&mut self, relay_endpoint: RelayEndpoint, env: &Outcomes) -> (r: Result<(), Error>)
        requires
            old(self).wf(),
        ensures
            spec_set_custom_relay_post(*old(self), relay_endpoint, *env, *final(self), r),
    {
        let changed = match &self.settings.custom_relay {
            Option::Some(existing) => !relay_endpoint.same_as(existing),
            Option::None => true,
        };
        self.effects.push(Effect::SaveCustomRelay(relay_endpoint.duplicate()));
        if env.settings_save_ok {
            self.settings.custom_relay = Some(relay_endpoint);
            self.effects.push(Effect::ReplySetCustomRelay);
            let tunnel_needs_restart = self.state == TunnelState::Connecting
                || self.state == TunnelState::Connected;
            if changed && tunnel_needs_restart {
                match self.kill_tunnel(env) {
                    Err(e) => {
                        return Err(e);
                    },
                    Ok(()) => {},
                }
            }
            Ok(())
        } else {
            Ok(())
        }
    }

    /// Dispatch one inbound client command.
    pub fn handle_management_interface_event(&mut self, event: TunnelCommand, env: &Outcomes) -> (r: Result<(), Error>)
        requires
            old(self).wf(),
        ensures
            spec_command_post(*old(self), event, *env, *final(self), r),
    {
        match event {
            TunnelCommand::SetTargetState(state) => self.on_set_target_state(state, env),
            TunnelCommand::GetState => {
                self.on_get_state();
                Ok(())
            },
            TunnelCommand::GetAccountData(account_token) => {
                self.on_get_account_data(account_token);
                Ok(())
            },
            TunnelCommand::SetAccount(account_token) => self.on_set_account(account_token, env),
            TunnelCommand::GetAccount => {
                self.on_get_account();
                Ok(())
            },
            TunnelCommand::SetCustomRelay(relay_endpoint) => self.on_set_custom_relay(relay_endpoint, env),
        }
    }

    /// React to the command server having died: always fatal, with no
    /// restart path.
    pub fn handle_management_interface_exited(&self, clean_exit: bool) -> (r: Result<(), Error>)
        ensures
            r matches Err(e) && e.kind is ManagementInterfaceError,
            r matches Err(e) ==> (e.cause is Some <==> !clean_exit),
    {
        let error_kind = ErrorKind::ManagementInterfaceError("server exited unexpectedly");
        if clean_exit {
            Err(Error::new(error_kind))
        } else {
            Err(Error::chain(error_kind, Error::new(ErrorKind::Msg("command server reported an error"))))
        }
    }

    /// React to a shutdown request: set the shutdown flag and force the
    /// target to unsecured, which reconciles any live tunnel down; the
    /// event loop then exits only once the tunnel reaches `NotRunning`.
    pub fn handle_trigger_shutdown_event(&mut self, env: &Outcomes) -> (r: Result<(), Error>)
        requires
            old(self).wf(),
        ensures
            final(self).shutdown,
            spec_shutdown_post(*old(self), *env, *final(self), r),
    {
        self.shutdown = true;
        match self.set_target_state(TargetState::Unsecured, env) {
            Err(e) => Err(e),
            Ok(()) => Ok(()),
        }
    }

    /// Dispatch one event to its handler.
    pub fn handle_event(&mut self, event: DaemonEvent, env: &Outcomes) -> (r: Result<(), Error>)
        requires
            old(self).wf(),
        ensures
            spec_event_post(*old(self), event, *env, *final(self), r),
            r is Ok ==> final(self).wf(),
            final(self).relays == old(self).relays,
            old(self).shutdown ==> final(self).shutdown,
    {
        match event {
            DaemonEvent::TunnelEvent(tunnel_event) => self.handle_tunnel_event(tunnel_event, env),
            DaemonEvent::TunnelExited(clean_exit) => self.handle_tunnel_exited(clean_exit, env),
            DaemonEvent::TunnelKillResult(success) => self.handle_tunnel_kill_result(success),
            DaemonEvent::ManagementInterfaceEvent(command) => self.handle_management_interface_event(command, env),
            DaemonEvent::ManagementInterfaceExited(clean_exit) => self.handle_management_interface_exited(clean_exit),
            DaemonEvent::TriggerShutdown => self.handle_trigger_shutdown_event(env),
        }
    }

    /// Run the event loop over a queue of events: handle them strictly one
    /// at a time, in order, until the queue closes, a handler reports a
    /// loop-scoped failure, or a requested shutdown finds the tunnel at
    /// `NotRunning`. Shutdown never abandons an in-flight teardown: the
    /// loop only stops on the shutdown flag once the tunnel actually
    /// stopped.
    pub fn run(&mut self, events: Vec<DaemonEvent>, env: &Outcomes) -> (r: RunOutcome)
        requires
            old(self).wf(),
        ensures
            old(self).shutdown ==> final(self).shutdown,
            final(self).relays == old(self).relays,
            // a clean stop: at the first point where shutdown holds and
            // the tunnel actually stopped, after a handled prefix
            r is Stopped ==> final(self).wf() && final(self).shutdown
                && final(self).state is NotRunning
                && exists|trace: Seq<Daemon>|
                    #![auto]
                    spec_events_handled(*old(self), events@, *env, trace)
                        && trace.last() == *final(self),
            // the queue closed: every event was handled, in order, and no
            // state after a handled event allowed a stop
            r is Disconnected ==> final(self).wf()
                && (events@.len() > 0 ==> !(final(self).shutdown && final(self).state is NotRunning))
                && exists|trace: Seq<Daemon>|
                    #![auto]
                    spec_events_handled(*old(self), events@, *env, trace)
                        && trace.len() == events@.len() + 1
                        && trace.last() == *final(self),
            // the first handler error is returned at once: a handled
            // prefix, then the failing event; no later event was pulled
            r matches RunOutcome::Failed(e) ==> exists|trace: Seq<Daemon>|
                #![auto]
                {
                    &&& spec_events_handled(*old(self), events@, *env, trace)
                    &&& trace.len() <= events@.len()
                    &&& (forall|i: int| 1 <= i < trace.len() ==> !((#[trigger] trace[i]).shutdown
                            && trace[i].state is NotRunning))
                    &&& spec_event_post(
                            trace.last(), events@[trace.len() - 1], *env, *final(self),
                            Result::<(), Error>::Err(e),
                        )
                },
    {
        let ghost events_view = events@;
        let mut queue = events;
        let ghost mut trace: Seq<Daemon> = seq![*self];
        while queue.len() > 0
            invariant
                self.wf(),
                old(self).shutdown ==> self.shutdown,
                self.relays == old(self).relays,
                events_view == events@,
                1 <= trace.len() <= events_view.len() + 1,
                trace.len() == events_view.len() - queue@.len() + 1,
                trace[0] == *old(self),
                trace.last() == *self,
                queue@ == events_view.skip(trace.len() - 1),
                forall|i: int| 0 <= i < trace.len() - 1 ==> spec_event_post(
                    trace[i], events_view[i], *env, #[trigger] trace[i + 1],
                    Result::<(), Error>::Ok(()),
                ),
                forall|i: int| 1 <= i < trace.len() ==> !((#[trigger] trace[i]).shutdown
                    && trace[i].state is NotRunning),
            decreases queue.len(),
        {
            let ghost handled = trace.len() - 1;
            proof {
                assert(queue@[0] == events_view[handled]);
            }
            let event = queue.remove(0);
            proof {
                assert(queue@ =~= events_view.skip(handled + 1));
            }
            match self.handle_event(event, env) {
                Ok(()) => {
                    proof {
                        trace = trace.push(*self);
                    }
                },
                Err(e) => {
                    proof {
                        assert(spec_events_handled(*old(self), events_view, *env, trace));
                        assert(spec_event_post(
                            trace.last(), events_view[handled], *env, *self,
                            Result::<(), Error>::Err(e),
                        ));
                    }
                    return RunOutcome::Failed(e);
                },
            }
            if self.shutdown && self.state == TunnelState::NotRunning {
                proof {
                    assert(spec_events_handled(*old(self), events_view, *env, trace));
                    assert(trace.last() == *self);
                }
                return RunOutcome::Stopped;
            }
        }
        proof {
            assert(spec_events_handled(*old(self), events_view, *env, trace));
        }
        RunOutcome::Disconnected
    }
}

} // verus!
