//! Data model of the tunnel state machine: states, commands, events,
//! firewall policies and DNS configuration.

use vstd::prelude::*;

verus! {

/// Monotonic tag distinguishing successive tunnel-establishment attempts;
/// used to discard stale events from superseded attempts.
pub type Generation = u64;

/// An IP address, as plain values.
#[derive(Clone, Copy, Debug, PartialEq, Eq, Structural)]
pub enum IpAddress {
    V4(u32),
    V6(u128),
}

/// Transport protocol of a relay endpoint.
#[derive(Clone, Copy, Debug, PartialEq, Eq, Structural)]
pub enum TransportProtocol {
    Tcp,
    Udp,
}

/// A remote endpoint the tunnel connects to.
#[derive(Clone, Copy, Debug, PartialEq, Eq, Structural)]
pub struct Endpoint {
    pub ip: IpAddress,
    pub port: u16,
    pub protocol: TransportProtocol,
}

/// Traffic classes permitted inside the tunnel while it is being set up.
#[derive(Clone, Copy, Debug, PartialEq, Eq, Structural)]
pub enum AllowedTunnelTraffic {
    Nothing,
    All,
    One(Endpoint),
}

/// Everything needed to start one tunnel attempt.
#[derive(Clone, Copy, Debug, PartialEq, Eq, Structural)]
pub struct TunnelParameters {
    pub endpoint: Endpoint,
    pub allowed_traffic: AllowedTunnelTraffic,
}

/// Why the machine keeps traffic blocked while the tunnel is deliberately down.
#[derive(Clone, Copy, Debug, PartialEq, Eq, Structural)]
pub enum BlockReason {
    AuthFailed,
    TunnelParameterError,
    SetFirewallPolicyError,
    SetDnsError,
    StartTunnelError,
    IsOffline,
    TapAdapterProblem,
}

/// What the machine does once a teardown completes.
#[derive(Clone, Copy, Debug, PartialEq, Eq, Structural)]
pub enum AfterDisconnect {
    Nothing,
    Reconnect,
    Block(BlockReason),
}

/// The tunnel lifecycle state; exactly one is current.
#[derive(Clone, Copy, Debug, PartialEq, Eq, Structural)]
pub enum TunnelState {
    Disconnected,
    Connecting { retry_attempt: u32 },
    Connected { endpoint: Endpoint },
    Disconnecting { after_disconnect: AfterDisconnect },
    Error { block_reason: BlockReason },
}

/// Cause carried by a tunnel `Down` event, as reported by the tunnel monitor.
#[derive(Clone, Copy, Debug, PartialEq, Eq, Structural)]
pub enum TunnelDownCause {
    AuthFailed,
    ParameterError,
    TapAdapterProblem,
    Recoverable,
}

/// Metadata the tunnel monitor reports once the tunnel interface is up.
#[derive(Clone, Debug, PartialEq, Eq)]
pub struct TunnelMetadata {
    pub interface: String,
    pub ips: Vec<IpAddress>,
    pub gateway: IpAddress,
}

/// Lifecycle event emitted by the tunnel monitor.
#[derive(Clone, Debug, PartialEq, Eq)]
pub enum TunnelEvent {
    InterfaceUp(TunnelMetadata),
    Down(Option<TunnelDownCause>),
}

/// DNS configuration the redirector is asked to hold: the system default,
/// or redirection to an ordered sequence of resolvers.
#[derive(Clone, Debug, PartialEq, Eq)]
pub enum DnsConfig {
    System,
    Servers(Vec<IpAddress>),
}

/// Declarative firewall policy, computed from the tunnel state and
/// configuration, never hand-edited.
#[derive(Clone, Debug, PartialEq, Eq)]
pub enum FirewallPolicy {
    Blocked {
        allow_lan: bool,
    },
    Connecting {
        peer_endpoint: Endpoint,
        allow_lan: bool,
        allowed_tunnel_traffic: AllowedTunnelTraffic,
    },
    Connected {
        peer_endpoint: Endpoint,
        tunnel_interface: String,
        dns_servers: Vec<IpAddress>,
        allow_lan: bool,
    },
}

/// Adjustments a caller may make to how policies are computed.
#[derive(Clone, Copy, Debug, PartialEq, Eq, Structural)]
pub struct FirewallPolicyOverride {
    pub allow_lan: bool,
}

/// Externally submitted request; commands are processed one at a time,
/// in arrival order.
#[derive(Clone, Debug, PartialEq, Eq)]
pub enum Command {
    Connect(TunnelParameters),
    Disconnect,
    Block(BlockReason),
    SetFirewallPolicyOverride(FirewallPolicyOverride),
    SetExcludedApps(Vec<String>),
    SetDnsOverride(Option<Vec<IpAddress>>),
}

/// One item the control loop waits for: a command, a tunnel event tagged
/// with its generation, or a flip of the host-connectivity signal.
#[derive(Clone, Debug, PartialEq, Eq)]
pub enum MachineInput {
    Command(Command),
    Event { generation: Generation, event: TunnelEvent },
    OfflineChanged(bool),
}

/// Retry policy for tunnel attempts, exposed as explicit configuration.
#[derive(Clone, Copy, Debug, PartialEq, Eq, Structural)]
pub struct RetryConfig {
    pub max_attempts: u32,
    pub backoff_base_ms: u64,
    pub backoff_cap_ms: u64,
}

/// A side effect the machine requested from its collaborators during one
/// step, in the order it was requested; returned so callers and tests can
/// observe exactly what was done.
#[derive(Clone, Debug, PartialEq, Eq)]
pub enum Effect {
    ApplyFirewall(FirewallPolicy),
    BlockFirewall { allow_lan: bool },
    SetDns(DnsConfig),
    ResetDns,
    SetExcluded(Vec<String>),
    StartTunnel { params: TunnelParameters, generation: Generation, delay_ms: u64 },
    StopTunnel { generation: Generation },
    Notify(TunnelState),
}

/// Capability interface of the machine's collaborators (firewall backend,
/// DNS backend, split-tunnel excluder, tunnel monitor, notification sink).
/// Platform backends implement it; the machine is agnostic to which one is
/// active. No method carries a contract: the machine promises what holds of
/// its own state whatever a backend answers.
pub trait Backends {
    /// Atomically swap in a `Connecting` or `Connected` rule set; `false`
    /// means the swap was refused and the previous rule set is fully intact.
    fn apply_firewall(&mut self, policy: &FirewallPolicy) -> bool;

    /// Install the blocking rule set. Backends must reserve the resources
    /// this needs up front so that failing closed is always possible.
    fn block_firewall(&mut self, allow_lan: bool);

    /// Point system DNS resolution at the given configuration; `false`
    /// means the previous configuration is still in force.
    fn set_dns(&mut self, config: &DnsConfig) -> bool;

    /// Restore the DNS configuration recorded before the first redirection.
    fn reset_dns(&mut self);

    /// Mark the given paths to bypass the tunnel; enforced by the backend
    /// only while a tunnel interface exists.
    fn set_excluded(&mut self, paths: &Vec<String>);

    /// Spawn one tunnel attempt after `delay_ms`; its events come back
    /// tagged with `generation`.
    fn start_tunnel(&mut self, params: &TunnelParameters, generation: Generation, delay_ms: u64);

    /// Request teardown of the attempt tagged `generation`; idempotent.
    fn stop_tunnel(&mut self, generation: Generation);

    /// Best-effort broadcast of a state transition to external listeners.
    fn notify(&mut self, state: &TunnelState);
}

} // verus!
