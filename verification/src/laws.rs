//! The machine's laws: the fail-closed (no-leak) invariant, the DNS
//! coupling invariant, their preservation by every step, and the
//! generation rules that keep stale events from ever touching the state.

use vstd::prelude::*;
use crate::model::{wf, CommandV, EffectV, InputV, MachineV, TunnelEventV};
use crate::types::{AfterDisconnect, BlockReason, TunnelParameters};
use crate::transition::{begin_attempt_v, classify_v, spec_step, teardown_v, tunnel_running, BackendOutcomes};

verus! {

/// Every step of the machine preserves the reachable-state invariant, for
/// every input and every backend outcome.
pub proof fn lemma_step_preserves_wf(pre: MachineV, input: InputV, oc: BackendOutcomes)
    requires
        wf(pre),
        pre.generation < u64::MAX,
    ensures
        wf(spec_step(pre, input, oc).m),
{
}

/// No-leak invariant: in every well-formed (hence every reachable) state,
/// if the tunnel is not up, the applied firewall policy is no more
/// permissive than the `Blocked` or `Connecting` variant consistent with
/// the lifecycle state.
pub proof fn lemma_no_leak(m: MachineV)
    requires
        wf(m),
    ensures
        !(m.state is Connected) ==> (m.applied is Blocked || (m.state is Connecting
            && m.applied is Connecting)),
{
}

/// DNS coupling invariant: in every well-formed state, the DNS override is
/// in force if and only if the applied firewall policy is `Connecting` or
/// `Connected`.
pub proof fn lemma_dns_override_iff(m: MachineV)
    requires
        wf(m),
    ensures
        m.dns is Servers <==> (m.applied is Connecting || m.applied is Connected),
{
}

/// Generation monotonicity: no step ever lowers the generation counter.
pub proof fn lemma_generation_monotone(pre: MachineV, input: InputV, oc: BackendOutcomes)
    requires
        pre.generation < u64::MAX,
    ensures
        spec_step(pre, input, oc).m.generation >= pre.generation,
{
}

/// A teardown whose landing state differs from the starting one ends its
/// effects with a notification of the landing state.
proof fn lemma_teardown_notifies(
    m: MachineV,
    reason: BlockReason,
    stop: bool,
    via: Option<AfterDisconnect>,
)
    ensures
        teardown_v(m, reason, stop, via).m.state != m.state ==> {
            let r = teardown_v(m, reason, stop, via);
            r.fx.len() > 0 && r.fx.last() == EffectV::Notify(r.m.state)
        },
{
}

/// Beginning an attempt that lands in a different state ends its effects
/// with a notification of the landing state.
proof fn lemma_begin_attempt_notifies(
    m: MachineV,
    p: TunnelParameters,
    stop_old: bool,
    delay_ms: u64,
    oc: BackendOutcomes,
)
    ensures
        begin_attempt_v(m, p, stop_old, delay_ms, oc).m.state != m.state ==> {
            let r = begin_attempt_v(m, p, stop_old, delay_ms, oc);
            r.fx.len() > 0 && r.fx.last() == EffectV::Notify(r.m.state)
        },
{
    let m1 = MachineV { params: Some(p), ..m };
    lemma_teardown_notifies(m1, BlockReason::SetFirewallPolicyError, stop_old, None);
    lemma_teardown_notifies(m1, BlockReason::SetDnsError, stop_old, None);
}

/// Observability: whenever a step changes the lifecycle state, the
/// effects of that step carry a notification of the new state.
pub proof fn lemma_state_changes_notified(pre: MachineV, input: InputV, oc: BackendOutcomes)
    requires
        pre.generation < u64::MAX,
    ensures
        spec_step(pre, input, oc).m.state != pre.state ==> spec_step(pre, input, oc).fx.contains(
            EffectV::Notify(spec_step(pre, input, oc).m.state),
        ),
{
    let r = spec_step(pre, input, oc);
    if r.m.state != pre.state {
        match input {
            InputV::Command(c) => match c {
                CommandV::Connect(p) => {
                    lemma_begin_attempt_notifies(pre, p, true, 0, oc);
                    lemma_begin_attempt_notifies(pre, p, false, 0, oc);
                },
                CommandV::Disconnect => {},
                CommandV::Block(reason) => {
                    let running = tunnel_running(pre.state);
                    let via = if running {
                        Some(AfterDisconnect::Block(reason))
                    } else {
                        None
                    };
                    lemma_teardown_notifies(pre, reason, running, via);
                },
                CommandV::SetFirewallPolicyOverride(o) => {
                    let m2 = MachineV { allow_lan: o.allow_lan, ..pre };
                    lemma_teardown_notifies(
                        m2,
                        BlockReason::SetFirewallPolicyError,
                        true,
                        None,
                    );
                },
                CommandV::SetExcludedApps(_) => {},
                CommandV::SetDnsOverride(ov) => {
                    let m2 = MachineV { dns_override: ov, ..pre };
                    lemma_teardown_notifies(m2, BlockReason::SetDnsError, true, None);
                    lemma_teardown_notifies(
                        m2,
                        BlockReason::SetFirewallPolicyError,
                        true,
                        None,
                    );
                },
            },
            InputV::Event { generation, event } => {
                if generation == pre.generation {
                    match event {
                        TunnelEventV::InterfaceUp(_) => {
                            lemma_teardown_notifies(
                                pre,
                                BlockReason::SetDnsError,
                                true,
                                Some(
                                    AfterDisconnect::Block(
                                        BlockReason::SetDnsError,
                                    ),
                                ),
                            );
                            lemma_teardown_notifies(
                                pre,
                                BlockReason::SetFirewallPolicyError,
                                true,
                                Some(
                                    AfterDisconnect::Block(
                                        BlockReason::SetFirewallPolicyError,
                                    ),
                                ),
                            );
                        },
                        TunnelEventV::Down(cause) => {
                            let reason = classify_v(cause).0;
                            lemma_teardown_notifies(pre, reason, false, None);
                            if pre.params is Some {
                                lemma_begin_attempt_notifies(pre, pre.params->0, false, 0, oc);
                            }
                        },
                    }
                }
            },
            InputV::OfflineChanged(b) => {
                let m2 = MachineV { offline: b, ..pre };
                if pre.params is Some {
                    lemma_begin_attempt_notifies(m2, pre.params->0, false, 0, oc);
                }
            },
        }
        assert(r.fx.len() > 0 && r.fx.last() == EffectV::Notify(r.m.state));
        assert(r.fx.contains(EffectV::Notify(r.m.state)));
    }
}

/// An event tagged with a generation other than the current one — in
/// particular any generation strictly less, from a superseded attempt —
/// is never applied to the state.
pub proof fn lemma_stale_event_never_applied(
    pre: MachineV,
    generation: u64,
    event: TunnelEventV,
    oc: BackendOutcomes,
)
    requires
        generation != pre.generation,
    ensures
        spec_step(pre, InputV::Event { generation, event }, oc).m == pre,
{
}

} // verus!
