//! The transition relation of the tunnel state machine, as spec functions
//! over the machine model. The executable step in `machine` is proved to
//! follow this relation exactly, for every input and every backend outcome.

use vstd::prelude::*;
use crate::types::{
    AfterDisconnect, BlockReason, IpAddress, RetryConfig, TunnelDownCause, TunnelParameters,
    TunnelState,
};
use crate::model::{CommandV, DnsConfigV, EffectV, FirewallPolicyV, InputV, MachineV, TunnelEventV};
use crate::backoff::backoff_int;

verus! {

/// The replies the firewall and DNS backends gave to the calls made during
/// one step. Only steps that loosen the rule set or redirect DNS consult
/// them; blocking and restoring are the fail-closed floor and cannot be
/// refused.
#[derive(Clone, Copy)]
pub struct BackendOutcomes {
    pub firewall_ok: bool,
    pub dns_ok: bool,
}

/// Result of one step of the transition relation: the machine afterwards,
/// and the effects requested from the collaborators, in order.
#[verifier::ext_equal]
pub struct StepV {
    pub m: MachineV,
    pub fx: Seq<EffectV>,
}

/// The policy applied while a tunnel attempt is underway.
pub open spec fn connecting_policy_v(p: TunnelParameters, allow_lan: bool) -> FirewallPolicyV {
    FirewallPolicyV::Connecting {
        peer_endpoint: p.endpoint,
        allow_lan,
        allowed_tunnel_traffic: p.allowed_traffic,
    }
}

/// The policy applied once the tunnel interface is up.
pub open spec fn connected_policy_v(
    p: TunnelParameters,
    interface: Seq<char>,
    dns_servers: Seq<IpAddress>,
    allow_lan: bool,
) -> FirewallPolicyV {
    FirewallPolicyV::Connected {
        peer_endpoint: p.endpoint,
        tunnel_interface: interface,
        dns_servers,
        allow_lan,
    }
}

/// DNS while connecting: the caller's override, or no resolvers at all, so
/// that no real query leaks before the tunnel is up.
pub open spec fn connecting_dns_v(ov: Option<Seq<IpAddress>>) -> DnsConfigV {
    DnsConfigV::Servers(
        match ov {
            Some(v) => v,
            None => Seq::empty(),
        },
    )
}

/// Resolvers while connected: the caller's override, or the tunnel gateway.
pub open spec fn connected_dns_servers_v(
    ov: Option<Seq<IpAddress>>,
    gateway: IpAddress,
) -> Seq<IpAddress> {
    match ov {
        Some(v) => v,
        None => seq![gateway],
    }
}

/// The same policy, recomputed with a different allow-LAN flag.
pub open spec fn policy_with_allow_lan(p: FirewallPolicyV, allow_lan: bool) -> FirewallPolicyV {
    match p {
        FirewallPolicyV::Blocked { .. } => FirewallPolicyV::Blocked { allow_lan },
        FirewallPolicyV::Connecting { peer_endpoint, allowed_tunnel_traffic, .. } => {
            FirewallPolicyV::Connecting { peer_endpoint, allow_lan, allowed_tunnel_traffic }
        },
        FirewallPolicyV::Connected { peer_endpoint, tunnel_interface, dns_servers, .. } => {
            FirewallPolicyV::Connected { peer_endpoint, tunnel_interface, dns_servers, allow_lan }
        },
    }
}

/// The same policy, recomputed with different resolvers; only meaningful
/// for the `Connected` variant.
pub open spec fn policy_with_dns(p: FirewallPolicyV, dns_servers: Seq<IpAddress>) -> FirewallPolicyV {
    match p {
        FirewallPolicyV::Connected { peer_endpoint, tunnel_interface, allow_lan, .. } => {
            FirewallPolicyV::Connected { peer_endpoint, tunnel_interface, dns_servers, allow_lan }
        },
        _ => p,
    }
}

/// How a `Down` cause is classified: the reason carried into the `Error`
/// state, and whether the attempt may be retried.
pub open spec fn classify_v(cause: Option<TunnelDownCause>) -> (BlockReason, bool) {
    match cause {
        None => (BlockReason::StartTunnelError, true),
        Some(TunnelDownCause::Recoverable) => (BlockReason::StartTunnelError, true),
        Some(TunnelDownCause::AuthFailed) => (BlockReason::AuthFailed, false),
        Some(TunnelDownCause::ParameterError) => (BlockReason::TunnelParameterError, false),
        Some(TunnelDownCause::TapAdapterProblem) => (BlockReason::TapAdapterProblem, false),
    }
}

/// A state-change notification, sent only when the state actually changed.
pub open spec fn notify_fx(pre: TunnelState, next: TunnelState) -> Seq<EffectV> {
    if next != pre {
        seq![EffectV::Notify(next)]
    } else {
        Seq::empty()
    }
}

/// Whether a tunnel attempt is underway or established.
pub open spec fn tunnel_running(s: TunnelState) -> bool {
    s is Connecting || s is Connected
}

/// Fail closed: block the firewall, restore DNS, stop the tunnel if one is
/// running, and land in `Error { reason }`. The firewall is tightened
/// before the tunnel device is torn down.
pub open spec fn teardown_v(
    m: MachineV,
    reason: BlockReason,
    stop: bool,
    via: Option<AfterDisconnect>,
) -> StepV {
    let st = TunnelState::Error { block_reason: reason };
    StepV {
        m: MachineV {
            state: st,
            generation: if stop {
                (m.generation + 1) as u64
            } else {
                m.generation
            },
            applied: FirewallPolicyV::Blocked { allow_lan: m.allow_lan },
            dns: DnsConfigV::System,
            tunnel_gateway: None,
            ..m
        },
        fx: seq![EffectV::BlockFirewall { allow_lan: m.allow_lan }] + (
        if m.dns is Servers {
            seq![EffectV::ResetDns]
        } else {
            Seq::empty()
        }) + (
        if stop {
            seq![EffectV::StopTunnel { generation: m.generation }]
        } else {
            Seq::empty()
        }) + (
        match via {
            Some(ad) => seq![EffectV::Notify(TunnelState::Disconnecting { after_disconnect: ad })],
            None => Seq::empty(),
        }) + notify_fx(m.state, st),
    }
}

/// Begin a fresh tunnel attempt: tighten the firewall to the `Connecting`
/// policy, redirect DNS, supersede a running attempt if there is one, and
/// start the tunnel monitor under a new generation. Either backend may
/// refuse, in which case the machine fails closed.
pub open spec fn begin_attempt_v(
    m: MachineV,
    p: TunnelParameters,
    stop_old: bool,
    delay_ms: u64,
    oc: BackendOutcomes,
) -> StepV {
    let m1 = MachineV { params: Some(p), ..m };
    let pc = connecting_policy_v(p, m.allow_lan);
    let cd = connecting_dns_v(m.dns_override);
    if !oc.firewall_ok {
        let t = teardown_v(m1, BlockReason::SetFirewallPolicyError, stop_old, None);
        StepV { m: t.m, fx: seq![EffectV::ApplyFirewall(pc)] + t.fx }
    } else if !oc.dns_ok {
        let t = teardown_v(m1, BlockReason::SetDnsError, stop_old, None);
        StepV { m: t.m, fx: seq![EffectV::ApplyFirewall(pc), EffectV::SetDns(cd)] + t.fx }
    } else {
        let g = (m.generation + 1) as u64;
        let ns = TunnelState::Connecting { retry_attempt: 0 };
        StepV {
            m: MachineV {
                state: ns,
                generation: g,
                applied: pc,
                dns: cd,
                tunnel_gateway: None,
                ..m1
            },
            fx: seq![EffectV::ApplyFirewall(pc), EffectV::SetDns(cd)] + (
            if stop_old {
                seq![EffectV::StopTunnel { generation: m.generation }]
            } else {
                Seq::empty()
            }) + seq![EffectV::StartTunnel { params: p, generation: g, delay_ms }] + notify_fx(
                m.state,
                ns,
            ),
        }
    }
}

/// The delay before retry number `attempt`, as a machine word.
pub open spec fn backoff_ms_v(retry: RetryConfig, attempt: u32) -> u64 {
    backoff_int(retry.backoff_base_ms as int, retry.backoff_cap_ms as int, attempt as nat) as u64
}

/// One step of the machine on a command.
pub open spec fn spec_step_command(pre: MachineV, c: CommandV, oc: BackendOutcomes) -> StepV {
    match c {
        CommandV::Connect(p) => {
            if tunnel_running(pre.state) {
                begin_attempt_v(pre, p, true, 0, oc)
            } else if pre.offline {
                let st = TunnelState::Error { block_reason: BlockReason::IsOffline };
                StepV {
                    m: MachineV { state: st, params: Some(p), ..pre },
                    fx: notify_fx(pre.state, st),
                }
            } else {
                begin_attempt_v(pre, p, false, 0, oc)
            }
        },
        CommandV::Disconnect => {
            if tunnel_running(pre.state) {
                StepV {
                    m: MachineV {
                        state: TunnelState::Disconnected,
                        generation: (pre.generation + 1) as u64,
                        applied: FirewallPolicyV::Blocked { allow_lan: pre.allow_lan },
                        dns: DnsConfigV::System,
                        tunnel_gateway: None,
                        ..pre
                    },
                    fx: seq![
                        EffectV::ResetDns,
                        EffectV::BlockFirewall { allow_lan: pre.allow_lan },
                        EffectV::StopTunnel { generation: pre.generation },
                        EffectV::Notify(
                            TunnelState::Disconnecting {
                                after_disconnect: AfterDisconnect::Nothing,
                            },
                        ),
                        EffectV::Notify(TunnelState::Disconnected),
                    ],
                }
            } else {
                StepV {
                    m: MachineV { state: TunnelState::Disconnected, ..pre },
                    fx: notify_fx(pre.state, TunnelState::Disconnected),
                }
            }
        },
        CommandV::Block(reason) => {
            let running = tunnel_running(pre.state);
            let via = if running {
                Some(AfterDisconnect::Block(reason))
            } else {
                None
            };
            teardown_v(pre, reason, running, via)
        },
        CommandV::SetFirewallPolicyOverride(o) => {
            let al = o.allow_lan;
            let m2 = MachineV { allow_lan: al, ..pre };
            if pre.applied is Blocked {
                StepV {
                    m: MachineV { applied: FirewallPolicyV::Blocked { allow_lan: al }, ..m2 },
                    fx: seq![EffectV::BlockFirewall { allow_lan: al }],
                }
            } else {
                let np = policy_with_allow_lan(pre.applied, al);
                if oc.firewall_ok {
                    StepV {
                        m: MachineV { applied: np, ..m2 },
                        fx: seq![EffectV::ApplyFirewall(np)],
                    }
                } else {
                    let t = teardown_v(m2, BlockReason::SetFirewallPolicyError, true, None);
                    StepV { m: t.m, fx: seq![EffectV::ApplyFirewall(np)] + t.fx }
                }
            }
        },
        CommandV::SetExcludedApps(paths) => StepV {
            m: MachineV { excluded: paths, ..pre },
            fx: seq![EffectV::SetExcluded(paths)],
        },
        CommandV::SetDnsOverride(ov) => {
            let m2 = MachineV { dns_override: ov, ..pre };
            spec_set_dns_override(m2, oc)
        },
    }
}

/// Re-point DNS (and, while connected, the resolver allowance in the
/// firewall policy) after the override changed; `m2` already carries the
/// new override.
pub open spec fn spec_set_dns_override(m2: MachineV, oc: BackendOutcomes) -> StepV {
    if m2.applied is Connecting {
        let cd = connecting_dns_v(m2.dns_override);
        if oc.dns_ok {
            StepV { m: MachineV { dns: cd, ..m2 }, fx: seq![EffectV::SetDns(cd)] }
        } else {
            let t = teardown_v(m2, BlockReason::SetDnsError, true, None);
            StepV { m: t.m, fx: seq![EffectV::SetDns(cd)] + t.fx }
        }
    } else if m2.applied is Connected && m2.tunnel_gateway is Some {
        let servers = connected_dns_servers_v(m2.dns_override, m2.tunnel_gateway->0);
        let np = policy_with_dns(m2.applied, servers);
        let cd = DnsConfigV::Servers(servers);
        if !oc.firewall_ok {
            let t = teardown_v(m2, BlockReason::SetFirewallPolicyError, true, None);
            StepV { m: t.m, fx: seq![EffectV::ApplyFirewall(np)] + t.fx }
        } else if !oc.dns_ok {
            let t = teardown_v(m2, BlockReason::SetDnsError, true, None);
            StepV { m: t.m, fx: seq![EffectV::ApplyFirewall(np), EffectV::SetDns(cd)] + t.fx }
        } else {
            StepV {
                m: MachineV { applied: np, dns: cd, ..m2 },
                fx: seq![EffectV::ApplyFirewall(np), EffectV::SetDns(cd)],
            }
        }
    } else {
        StepV { m: m2, fx: Seq::empty() }
    }
}

/// One step of the machine on a tunnel event carrying the current
/// generation.
pub open spec fn spec_step_current_event(
    pre: MachineV,
    event: TunnelEventV,
    oc: BackendOutcomes,
) -> StepV {
    match event {
        TunnelEventV::InterfaceUp(md) => {
            if pre.state is Connecting && pre.params is Some {
                let p = pre.params->0;
                let servers = connected_dns_servers_v(pre.dns_override, md.gateway);
                let cd = DnsConfigV::Servers(servers);
                let np = connected_policy_v(p, md.interface, servers, pre.allow_lan);
                if !oc.dns_ok {
                    let t = teardown_v(
                        pre,
                        BlockReason::SetDnsError,
                        true,
                        Some(AfterDisconnect::Block(BlockReason::SetDnsError)),
                    );
                    StepV { m: t.m, fx: seq![EffectV::SetDns(cd)] + t.fx }
                } else if !oc.firewall_ok {
                    let t = teardown_v(
                        pre,
                        BlockReason::SetFirewallPolicyError,
                        true,
                        Some(AfterDisconnect::Block(BlockReason::SetFirewallPolicyError)),
                    );
                    StepV { m: t.m, fx: seq![EffectV::SetDns(cd), EffectV::ApplyFirewall(np)] + t.fx }
                } else {
                    let ns = TunnelState::Connected { endpoint: p.endpoint };
                    StepV {
                        m: MachineV {
                            state: ns,
                            applied: np,
                            dns: cd,
                            tunnel_gateway: Some(md.gateway),
                            ..pre
                        },
                        fx: seq![
                            EffectV::SetDns(cd),
                            EffectV::ApplyFirewall(np),
                            EffectV::SetExcluded(pre.excluded),
                        ] + notify_fx(pre.state, ns),
                    }
                }
            } else {
                StepV { m: pre, fx: Seq::empty() }
            }
        },
        TunnelEventV::Down(cause) => {
            let reason = classify_v(cause).0;
            let retryable = classify_v(cause).1;
            match pre.state {
                TunnelState::Connecting { retry_attempt } => {
                    if pre.params is Some && retryable && retry_attempt < pre.retry.max_attempts {
                        let p = pre.params->0;
                        let g = (pre.generation + 1) as u64;
                        let delay = backoff_ms_v(pre.retry, (retry_attempt + 1) as u32);
                        let ns = TunnelState::Connecting { retry_attempt: (retry_attempt + 1) as u32 };
                        StepV {
                            m: MachineV { state: ns, generation: g, ..pre },
                            fx: seq![
                                EffectV::StartTunnel { params: p, generation: g, delay_ms: delay },
                            ] + notify_fx(pre.state, ns),
                        }
                    } else {
                        teardown_v(pre, reason, false, None)
                    }
                },
                TunnelState::Connected { .. } => {
                    if pre.params is Some && retryable {
                        let p = pre.params->0;
                        let t = begin_attempt_v(pre, p, false, 0, oc);
                        StepV {
                            m: t.m,
                            fx: seq![
                                EffectV::Notify(
                                    TunnelState::Disconnecting {
                                        after_disconnect: AfterDisconnect::Reconnect,
                                    },
                                ),
                            ] + t.fx,
                        }
                    } else {
                        teardown_v(pre, reason, false, None)
                    }
                },
                _ => StepV { m: pre, fx: Seq::empty() },
            }
        },
    }
}

/// One full step of the machine: commands, generation-tagged tunnel events,
/// and flips of the offline signal. Events whose generation is not the
/// current one never touch the state; a stale `InterfaceUp` only has its
/// interface torn back down.
pub open spec fn spec_step(pre: MachineV, input: InputV, oc: BackendOutcomes) -> StepV {
    match input {
        InputV::Command(c) => spec_step_command(pre, c, oc),
        InputV::Event { generation, event } => {
            if generation != pre.generation {
                StepV {
                    m: pre,
                    fx: if event is InterfaceUp {
                        seq![EffectV::StopTunnel { generation }]
                    } else {
                        Seq::empty()
                    },
                }
            } else {
                spec_step_current_event(pre, event, oc)
            }
        },
        InputV::OfflineChanged(b) => {
            let m2 = MachineV { offline: b, ..pre };
            if !b && pre.state == (TunnelState::Error { block_reason: BlockReason::IsOffline })
                && pre.params is Some {
                begin_attempt_v(m2, pre.params->0, false, 0, oc)
            } else {
                StepV { m: m2, fx: Seq::empty() }
            }
        },
    }
}

} // verus!
