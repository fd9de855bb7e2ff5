//! General properties of the daemon core, stated once and proved for all
//! inputs.

use vstd::prelude::*;
use crate::daemon::{spec_broadcast_effects, spec_broadcast_last, spec_reconciliation_action};
use crate::effects::Effect;
use crate::states::{spec_derived_state, DaemonState, TargetState, TunnelState};

verus! {

/// Broadcasting the same snapshot twice produces only one client
/// notification: once `nd` has been broadcast over `last`, broadcasting
/// `nd` again changes neither the suppression record nor the effect list.
pub proof fn lemma_broadcast_change_suppression(last: DaemonState, nd: DaemonState, effects: Seq<Effect>)
    ensures
        spec_broadcast_last(spec_broadcast_last(last, nd), nd) == spec_broadcast_last(last, nd),
        spec_broadcast_effects(spec_broadcast_last(last, nd), nd, spec_broadcast_effects(last, nd, effects))
            == spec_broadcast_effects(last, nd, effects),
{
}

/// A target change is never suppressed: when the last broadcast snapshot
/// carries the target state it was derived from — true of every reachable
/// broadcast record — broadcasting after a change of target appends
/// exactly one notification, whatever the actual state does.
pub proof fn lemma_target_change_notifies(
    last: DaemonState,
    s: TunnelState,
    t_old: TargetState,
    t_new: TargetState,
    effects: Seq<Effect>,
)
    requires
        last.target_state == t_old,
        t_new != t_old,
    ensures
        spec_broadcast_effects(last, spec_derived_state(s, t_new), effects) == effects.push(
            Effect::NotifyNewState(spec_derived_state(s, t_new)),
        ),
        spec_broadcast_last(last, spec_derived_state(s, t_new)) == spec_derived_state(s, t_new),
{
}

/// Reconciliation is a pure function of the target/actual pair: it starts
/// the tunnel exactly for a secured target over no running tunnel, kills
/// it exactly for an unsecured target over a live one, and does nothing
/// for every other combination.
pub proof fn lemma_reconciliation_table(t: TargetState, s: TunnelState)
    ensures
        spec_reconciliation_action(t, s) is StartTunnel <==> (t is Secured && s is NotRunning),
        spec_reconciliation_action(t, s) is KillTunnel <==> (t is Unsecured && (s is Connecting
            || s is Connected)),
        spec_reconciliation_action(t, s) is Nothing <==> !(t is Secured && s is NotRunning)
            && !(t is Unsecured && (s is Connecting || s is Connected)),
{
}

} // verus!
