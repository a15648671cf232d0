//! Mathematical model of the machine: ghost mirrors of the data types,
//! views onto them, and the reachable-state invariant.

use vstd::prelude::*;
use crate::types::{
    AllowedTunnelTraffic, BlockReason, Command, DnsConfig, Effect, Endpoint, FirewallPolicy,
    FirewallPolicyOverride, Generation, IpAddress, MachineInput, RetryConfig, TunnelDownCause,
    TunnelEvent, TunnelMetadata, TunnelParameters, TunnelState,
};

verus! {

/// Model of [`TunnelMetadata`].
#[verifier::ext_equal]
pub struct TunnelMetadataV {
    pub interface: Seq<char>,
    pub ips: Seq<IpAddress>,
    pub gateway: IpAddress,
}

impl View for TunnelMetadata {
    type V = TunnelMetadataV;

    open spec fn view(&self) -> TunnelMetadataV {
        TunnelMetadataV { interface: self.interface@, ips: self.ips@, gateway: self.gateway }
    }
}

/// Model of [`TunnelEvent`].
#[verifier::ext_equal]
pub enum TunnelEventV {
    InterfaceUp(TunnelMetadataV),
    Down(Option<TunnelDownCause>),
}

impl View for TunnelEvent {
    type V = TunnelEventV;

    open spec fn view(&self) -> TunnelEventV {
        match self {
            TunnelEvent::InterfaceUp(md) => TunnelEventV::InterfaceUp(md@),
            TunnelEvent::Down(cause) => TunnelEventV::Down(*cause),
        }
    }
}

/// Model of [`DnsConfig`].
#[verifier::ext_equal]
pub enum DnsConfigV {
    System,
    Servers(Seq<IpAddress>),
}

impl View for DnsConfig {
    type V = DnsConfigV;

    open spec fn view(&self) -> DnsConfigV {
        match self {
            DnsConfig::System => DnsConfigV::System,
            DnsConfig::Servers(v) => DnsConfigV::Servers(v@),
        }
    }
}

/// Model of [`FirewallPolicy`].
#[verifier::ext_equal]
pub enum FirewallPolicyV {
    Blocked {
        allow_lan: bool,
    },
    Connecting {
        peer_endpoint: Endpoint,
        allow_lan: bool,
        allowed_tunnel_traffic: AllowedTunnelTraffic,
    },
    Connected {
        peer_endpoint: Endpoint,
        tunnel_interface: Seq<char>,
        dns_servers: Seq<IpAddress>,
        allow_lan: bool,
    },
}

impl View for FirewallPolicy {
    type V = FirewallPolicyV;

    open spec fn view(&self) -> FirewallPolicyV {
        match self {
            FirewallPolicy::Blocked { allow_lan } => FirewallPolicyV::Blocked {
                allow_lan: *allow_lan,
            },
            FirewallPolicy::Connecting { peer_endpoint, allow_lan, allowed_tunnel_traffic } => {
                FirewallPolicyV::Connecting {
                    peer_endpoint: *peer_endpoint,
                    allow_lan: *allow_lan,
                    allowed_tunnel_traffic: *allowed_tunnel_traffic,
                }
            },
            FirewallPolicy::Connected {
                peer_endpoint,
                tunnel_interface,
                dns_servers,
                allow_lan,
            } => FirewallPolicyV::Connected {
                peer_endpoint: *peer_endpoint,
                tunnel_interface: tunnel_interface@,
                dns_servers: dns_servers@,
                allow_lan: *allow_lan,
            },
        }
    }
}

/// The allow-LAN flag a policy was computed with.
pub open spec fn policy_allow_lan(p: FirewallPolicyV) -> bool {
    match p {
        FirewallPolicyV::Blocked { allow_lan } => allow_lan,
        FirewallPolicyV::Connecting { allow_lan, .. } => allow_lan,
        FirewallPolicyV::Connected { allow_lan, .. } => allow_lan,
    }
}

/// Model of [`Command`].
#[verifier::ext_equal]
pub enum CommandV {
    Connect(TunnelParameters),
    Disconnect,
    Block(BlockReason),
    SetFirewallPolicyOverride(FirewallPolicyOverride),
    SetExcludedApps(Seq<Seq<char>>),
    SetDnsOverride(Option<Seq<IpAddress>>),
}

impl View for Command {
    type V = CommandV;

    open spec fn view(&self) -> CommandV {
        match self {
            Command::Connect(p) => CommandV::Connect(*p),
            Command::Disconnect => CommandV::Disconnect,
            Command::Block(r) => CommandV::Block(*r),
            Command::SetFirewallPolicyOverride(o) => CommandV::SetFirewallPolicyOverride(*o),
            Command::SetExcludedApps(paths) => CommandV::SetExcludedApps(
                paths@.map_values(|s: String| s@),
            ),
            Command::SetDnsOverride(ov) => CommandV::SetDnsOverride(
                match ov {
                    Some(v) => Some(v@),
                    None => None,
                },
            ),
        }
    }
}

/// The resolver sequence an optional override stands for.
pub open spec fn servers_opt_view(ov: Option<Vec<IpAddress>>) -> Option<Seq<IpAddress>> {
    match ov {
        Some(v) => Some(v@),
        None => None,
    }
}

/// Model of [`MachineInput`].
#[verifier::ext_equal]
pub enum InputV {
    Command(CommandV),
    Event { generation: Generation, event: TunnelEventV },
    OfflineChanged(bool),
}

impl View for MachineInput {
    type V = InputV;

    open spec fn view(&self) -> InputV {
        match self {
            MachineInput::Command(c) => InputV::Command(c@),
            MachineInput::Event { generation, event } => InputV::Event {
                generation: *generation,
                event: event@,
            },
            MachineInput::OfflineChanged(b) => InputV::OfflineChanged(*b),
        }
    }
}

/// Model of [`Effect`].
#[verifier::ext_equal]
pub enum EffectV {
    ApplyFirewall(FirewallPolicyV),
    BlockFirewall { allow_lan: bool },
    SetDns(DnsConfigV),
    ResetDns,
    SetExcluded(Seq<Seq<char>>),
    StartTunnel { params: TunnelParameters, generation: Generation, delay_ms: u64 },
    StopTunnel { generation: Generation },
    Notify(TunnelState),
}

impl View for Effect {
    type V = EffectV;

    open spec fn view(&self) -> EffectV {
        match self {
            Effect::ApplyFirewall(p) => EffectV::ApplyFirewall(p@),
            Effect::BlockFirewall { allow_lan } => EffectV::BlockFirewall {
                allow_lan: *allow_lan,
            },
            Effect::SetDns(c) => EffectV::SetDns(c@),
            Effect::ResetDns => EffectV::ResetDns,
            Effect::SetExcluded(paths) => EffectV::SetExcluded(
                paths@.map_values(|s: String| s@),
            ),
            Effect::StartTunnel { params, generation, delay_ms } => EffectV::StartTunnel {
                params: *params,
                generation: *generation,
                delay_ms: *delay_ms,
            },
            Effect::StopTunnel { generation } => EffectV::StopTunnel { generation: *generation },
            Effect::Notify(s) => EffectV::Notify(*s),
        }
    }
}

/// The sequence of effect models a returned effect list stands for.
pub open spec fn effects_view(v: Seq<Effect>) -> Seq<EffectV> {
    v.map_values(|e: Effect| e@)
}

/// Model of the whole machine: lifecycle state, generation counter, and the
/// record of what is currently applied at the firewall and DNS backends.
#[verifier::ext_equal]
pub struct MachineV {
    pub state: TunnelState,
    pub generation: Generation,
    pub applied: FirewallPolicyV,
    pub dns: DnsConfigV,
    pub excluded: Seq<Seq<char>>,
    pub allow_lan: bool,
    pub dns_override: Option<Seq<IpAddress>>,
    pub offline: bool,
    pub params: Option<TunnelParameters>,
    pub tunnel_gateway: Option<IpAddress>,
    pub retry: RetryConfig,
}

/// The machine's state right after construction: disconnected, blocking
/// policy installed, DNS at the system default.
pub open spec fn init_model(retry: RetryConfig, allow_lan: bool) -> MachineV {
    MachineV {
        state: TunnelState::Disconnected,
        generation: 0,
        applied: FirewallPolicyV::Blocked { allow_lan },
        dns: DnsConfigV::System,
        excluded: Seq::empty(),
        allow_lan,
        dns_override: None,
        offline: false,
        params: None,
        tunnel_gateway: None,
        retry,
    }
}

/// The no-leak condition: whenever the tunnel is not up, the applied
/// firewall policy is no more permissive than the variant consistent with
/// the current lifecycle state.
pub open spec fn policy_consistent(m: MachineV) -> bool {
    match m.state {
        TunnelState::Connected { endpoint } => {
            &&& m.applied matches FirewallPolicyV::Connected { peer_endpoint, .. }
            &&& peer_endpoint == endpoint
        },
        TunnelState::Connecting { .. } => {
            &&& m.params matches Some(p)
            &&& m.applied matches FirewallPolicyV::Connecting { peer_endpoint, .. }
            &&& peer_endpoint == p.endpoint
        },
        _ => m.applied is Blocked,
    }
}

/// DNS redirection is in force exactly while the applied firewall policy
/// is `Connecting` or `Connected`.
pub open spec fn dns_matches_policy(m: MachineV) -> bool {
    m.dns is Servers <==> (m.applied is Connecting || m.applied is Connected)
}

/// Invariant of every reachable machine state.
pub open spec fn wf(m: MachineV) -> bool {
    &&& !(m.state is Disconnecting)
    &&& policy_consistent(m)
    &&& dns_matches_policy(m)
    &&& policy_allow_lan(m.applied) == m.allow_lan
    &&& m.state matches TunnelState::Connecting { retry_attempt }
        ==> retry_attempt <= m.retry.max_attempts
    &&& m.state is Connected ==> m.params is Some && m.tunnel_gateway is Some
}

} // verus!
