//! The executable tunnel state machine. One control-flow context owns the
//! state and processes one input at a time; every step is proved to follow
//! the transition relation in `transition` exactly.

use vstd::prelude::*;
use crate::types::{
    AfterDisconnect, Backends, BlockReason, Command, DnsConfig, Effect, FirewallPolicy, Generation,
    IpAddress, MachineInput, RetryConfig, TunnelDownCause, TunnelEvent, TunnelParameters,
    TunnelState,
};
use crate::model::{effects_view, init_model, servers_opt_view, wf, MachineV};
use crate::transition::{
    begin_attempt_v, classify_v, connected_dns_servers_v, connecting_dns_v, connecting_policy_v,
    policy_with_allow_lan, policy_with_dns, spec_step, teardown_v, BackendOutcomes,
};
use crate::backoff::{backoff_delay_ms, lemma_backoff_bounds};
use crate::laws::lemma_step_preserves_wf;

verus! {

/// Copy a vector of addresses, element for element.
pub fn copy_ips(v: &Vec<IpAddress>) -> (r: Vec<IpAddress>)
    ensures
        r@ == v@,
{
    let mut r: Vec<IpAddress> = Vec::new();
    let mut i: usize = 0;
    while i < v.len()
        invariant
            i <= v.len(),
            r@ == v@.subrange(0, i as int),
        decreases v.len() - i,
    {
        r.push(v[i]);
        i = i + 1;
        proof {
            assert(r@ =~= v@.subrange(0, i as int));
        }
    }
    proof {
        assert(r@ =~= v@);
    }
    r
}

/// Copy a vector of paths, element for element.
pub fn copy_paths(v: &Vec<String>) -> (r: Vec<String>)
    ensures
        r@ == v@,
{
    let mut r: Vec<String> = Vec::new();
    let mut i: usize = 0;
    while i < v.len()
        invariant
            i <= v.len(),
            r@ == v@.subrange(0, i as int),
        decreases v.len() - i,
    {
        r.push(v[i].clone());
        i = i + 1;
        proof {
            assert(r@ =~= v@.subrange(0, i as int));
        }
    }
    proof {
        assert(r@ =~= v@);
    }
    r
}

/// Copy a DNS configuration.
pub fn copy_dns(c: &DnsConfig) -> (r: DnsConfig)
    ensures
        r@ == c@,
{
    match c {
        DnsConfig::System => DnsConfig::System,
        DnsConfig::Servers(v) => DnsConfig::Servers(copy_ips(v)),
    }
}

/// Copy a firewall policy.
pub fn copy_policy(p: &FirewallPolicy) -> (r: FirewallPolicy)
    ensures
        r@ == p@,
{
    match p {
        FirewallPolicy::Blocked { allow_lan } => FirewallPolicy::Blocked { allow_lan: *allow_lan },
        FirewallPolicy::Connecting { peer_endpoint, allow_lan, allowed_tunnel_traffic } => {
            FirewallPolicy::Connecting {
                peer_endpoint: *peer_endpoint,
                allow_lan: *allow_lan,
                allowed_tunnel_traffic: *allowed_tunnel_traffic,
            }
        },
        FirewallPolicy::Connected { peer_endpoint, tunnel_interface, dns_servers, allow_lan } => {
            FirewallPolicy::Connected {
                peer_endpoint: *peer_endpoint,
                tunnel_interface: tunnel_interface.clone(),
                dns_servers: copy_ips(dns_servers),
                allow_lan: *allow_lan,
            }
        },
    }
}

/// The `Connecting` policy for one attempt.
pub fn connecting_policy(p: TunnelParameters, allow_lan: bool) -> (r: FirewallPolicy)
    ensures
        r@ == connecting_policy_v(p, allow_lan),
{
    FirewallPolicy::Connecting {
        peer_endpoint: p.endpoint,
        allow_lan,
        allowed_tunnel_traffic: p.allowed_traffic,
    }
}

/// The DNS configuration held while connecting.
pub fn connecting_dns(ov: &Option<Vec<IpAddress>>) -> (r: DnsConfig)
    ensures
        r@ == connecting_dns_v(servers_opt_view(*ov)),
{
    match ov {
        Some(v) => DnsConfig::Servers(copy_ips(v)),
        None => DnsConfig::Servers(Vec::new()),
    }
}

/// The resolvers used while connected.
pub fn connected_dns_servers(ov: &Option<Vec<IpAddress>>, gateway: IpAddress) -> (r: Vec<
    IpAddress,
>)
    ensures
        r@ == connected_dns_servers_v(servers_opt_view(*ov), gateway),
{
    match ov {
        Some(v) => copy_ips(v),
        None => {
            let mut r: Vec<IpAddress> = Vec::new();
            r.push(gateway);
            proof {
                assert(r@ =~= seq![gateway]);
            }
            r
        },
    }
}

/// The applied policy, recomputed with a different allow-LAN flag.
pub fn rebuild_with_allow_lan(p: &FirewallPolicy, allow_lan: bool) -> (r: FirewallPolicy)
    ensures
        r@ == policy_with_allow_lan(p@, allow_lan),
{
    match p {
        FirewallPolicy::Blocked { .. } => FirewallPolicy::Blocked { allow_lan },
        FirewallPolicy::Connecting { peer_endpoint, allowed_tunnel_traffic, .. } => {
            FirewallPolicy::Connecting {
                peer_endpoint: *peer_endpoint,
                allow_lan,
                allowed_tunnel_traffic: *allowed_tunnel_traffic,
            }
        },
        FirewallPolicy::Connected { peer_endpoint, tunnel_interface, dns_servers, .. } => {
            FirewallPolicy::Connected {
                peer_endpoint: *peer_endpoint,
                tunnel_interface: tunnel_interface.clone(),
                dns_servers: copy_ips(dns_servers),
                allow_lan,
            }
        },
    }
}

/// The applied policy, recomputed with different resolvers.
pub fn rebuild_with_dns(p: &FirewallPolicy, dns_servers: &Vec<IpAddress>) -> (r: FirewallPolicy)
    ensures
        r@ == policy_with_dns(p@, dns_servers@),
{
    match p {
        FirewallPolicy::Connected { peer_endpoint, tunnel_interface, allow_lan, .. } => {
            FirewallPolicy::Connected {
                peer_endpoint: *peer_endpoint,
                tunnel_interface: tunnel_interface.clone(),
                dns_servers: copy_ips(dns_servers),
                allow_lan: *allow_lan,
            }
        },
        _ => copy_policy(p),
    }
}

/// Classification of a `Down` cause.
pub fn classify_down(cause: Option<TunnelDownCause>) -> (r: (BlockReason, bool))
    ensures
        r == classify_v(cause),
{
    match cause {
        None => (BlockReason::StartTunnelError, true),
        Some(TunnelDownCause::Recoverable) => (BlockReason::StartTunnelError, true),
        Some(TunnelDownCause::AuthFailed) => (BlockReason::AuthFailed, false),
        Some(TunnelDownCause::ParameterError) => (BlockReason::TunnelParameterError, false),
        Some(TunnelDownCause::TapAdapterProblem) => (BlockReason::TapAdapterProblem, false),
    }
}

/// The tunnel state machine: the single owner of the lifecycle state, the
/// generation counter, and the record of what is applied at the firewall
/// and DNS backends.
pub struct TunnelStateMachine {
    pub state: TunnelState,
    pub generation: Generation,
    pub applied: FirewallPolicy,
    pub dns: DnsConfig,
    pub excluded_apps: Vec<String>,
    pub allow_lan: bool,
    pub dns_override: Option<Vec<IpAddress>>,
    pub offline: bool,
    pub params: Option<TunnelParameters>,
    pub tunnel_gateway: Option<IpAddress>,
    pub retry: RetryConfig,
}

impl View for TunnelStateMachine {
    type V = MachineV;

    open spec fn view(&self) -> MachineV {
        MachineV {
            state: self.state,
            generation: self.generation,
            applied: self.applied@,
            dns: self.dns@,
            excluded: self.excluded_apps@.map_values(|s: String| s@),
            allow_lan: self.allow_lan,
            dns_override: servers_opt_view(self.dns_override),
            offline: self.offline,
            params: self.params,
            tunnel_gateway: self.tunnel_gateway,
            retry: self.retry,
        }
    }
}

impl TunnelStateMachine {
    /// A machine that has just started: disconnected, and blocking until
    /// explicitly told to connect, so that no window of unprotected
    /// traffic exists.
    pub fn new<B: Backends>(backend: &mut B, retry: RetryConfig, allow_lan: bool) -> (m: Self)
        ensures
            m@ == init_model(retry, allow_lan),
            wf(m@),
    {
        backend.block_firewall(allow_lan);
        let m = TunnelStateMachine {
            state: TunnelState::Disconnected,
            generation: 0,
            applied: FirewallPolicy::Blocked { allow_lan },
            dns: DnsConfig::System,
            excluded_apps: Vec::new(),
            allow_lan,
            dns_override: None,
            offline: false,
            params: None,
            tunnel_gateway: None,
            retry,
        };
        proof {
            assert(m@ =~= init_model(retry, allow_lan));
        }
        m
    }

    /// Fail closed: block the firewall, restore DNS, stop the running
    /// tunnel if asked to, and land in `Error { reason }`.
    fn teardown<B: Backends>(
        &mut self,
        backend: &mut B,
        reason: BlockReason,
        stop: bool,
        via: Option<AfterDisconnect>,
        fx: &mut Vec<Effect>,
    )
        requires
            old(self).generation < u64::MAX,
        ensures
            final(self)@ == teardown_v(old(self)@, reason, stop, via).m,
            effects_view(final(fx)@) == effects_view(old(fx)@) + teardown_v(
                old(self)@,
                reason,
                stop,
                via,
            ).fx,
    {
        let al = self.allow_lan;
        backend.block_firewall(al);
        fx.push(Effect::BlockFirewall { allow_lan: al });
        let had_dns = matches!(&self.dns, DnsConfig::Servers(_));
        if had_dns {
            backend.reset_dns();
            fx.push(Effect::ResetDns);
        }
        if stop {
            let og = self.generation;
            backend.stop_tunnel(og);
            fx.push(Effect::StopTunnel { generation: og });
            self.generation = og + 1;
        }
        if let Some(ad) = via {
            let ds = TunnelState::Disconnecting { after_disconnect: ad };
            backend.notify(&ds);
            fx.push(Effect::Notify(ds));
        }
        let st = TunnelState::Error { block_reason: reason };
        if st != self.state {
            backend.notify(&st);
            fx.push(Effect::Notify(st));
        }
        self.state = st;
        self.applied = FirewallPolicy::Blocked { allow_lan: al };
        self.dns = DnsConfig::System;
        self.tunnel_gateway = None;
        proof {
            assert(self@ =~= teardown_v(old(self)@, reason, stop, via).m);
            assert(effects_view(fx@) =~= effects_view(old(fx)@) + teardown_v(
                old(self)@,
                reason,
                stop,
                via,
            ).fx);
        }
    }

    /// Begin a fresh tunnel attempt under a new generation, superseding a
    /// running one if asked to.
    fn begin_attempt<B: Backends>(
        &mut self,
        backend: &mut B,
        p: TunnelParameters,
        stop_old: bool,
        delay_ms: u64,
        fx: &mut Vec<Effect>,
    ) -> (oc: Ghost<BackendOutcomes>)
        requires
            old(self).generation < u64::MAX,
        ensures
            final(self)@ == begin_attempt_v(old(self)@, p, stop_old, delay_ms, oc@).m,
            effects_view(final(fx)@) == effects_view(old(fx)@) + begin_attempt_v(
                old(self)@,
                p,
                stop_old,
                delay_ms,
                oc@,
            ).fx,
    {
        self.params = Some(p);
        let pc = connecting_policy(p, self.allow_lan);
        let fw_ok = backend.apply_firewall(&pc);
        fx.push(Effect::ApplyFirewall(copy_policy(&pc)));
        if !fw_ok {
            self.teardown(backend, BlockReason::SetFirewallPolicyError, stop_old, None, fx);
            let r = Ghost(BackendOutcomes { firewall_ok: false, dns_ok: true });
            proof {
                assert(effects_view(fx@) =~= effects_view(old(fx)@) + begin_attempt_v(
                    old(self)@,
                    p,
                    stop_old,
                    delay_ms,
                    r@,
                ).fx);
            }
            return r;
        }
        let cd = connecting_dns(&self.dns_override);
        let dns_ok = backend.set_dns(&cd);
        fx.push(Effect::SetDns(copy_dns(&cd)));
        if !dns_ok {
            self.teardown(backend, BlockReason::SetDnsError, stop_old, None, fx);
            let r = Ghost(BackendOutcomes { firewall_ok: true, dns_ok: false });
            proof {
                assert(effects_view(fx@) =~= effects_view(old(fx)@) + begin_attempt_v(
                    old(self)@,
                    p,
                    stop_old,
                    delay_ms,
                    r@,
                ).fx);
            }
            return r;
        }
        if stop_old {
            let og = self.generation;
            backend.stop_tunnel(og);
            fx.push(Effect::StopTunnel { generation: og });
        }
        let g = self.generation + 1;
        self.generation = g;
        backend.start_tunnel(&p, g, delay_ms);
        fx.push(Effect::StartTunnel { params: p, generation: g, delay_ms });
        let ns = TunnelState::Connecting { retry_attempt: 0 };
        if ns != self.state {
            backend.notify(&ns);
            fx.push(Effect::Notify(ns));
        }
        self.state = ns;
        self.applied = pc;
        self.dns = cd;
        self.tunnel_gateway = None;
        let r = Ghost(BackendOutcomes { firewall_ok: true, dns_ok: true });
        proof {
            assert(self@ =~= begin_attempt_v(old(self)@, p, stop_old, delay_ms, r@).m);
            assert(effects_view(fx@) =~= effects_view(old(fx)@) + begin_attempt_v(
                old(self)@,
                p,
                stop_old,
                delay_ms,
                r@,
            ).fx);
        }
        r
    }

    /// Process one input to completion: a command, a generation-tagged
    /// tunnel event, or a flip of the offline signal. Calls the
    /// collaborators through `backend` and returns the effects requested,
    /// in order. The machine afterwards, and the effect list, are exactly
    /// what the transition relation gives for this input and the replies
    /// the backends gave (returned as the ghost outcome record).
    #[verifier::rlimit(100)]
    pub fn step<B: Backends>(&mut self, backend: &mut B, input: MachineInput) -> (r: (
        Vec<Effect>,
        Ghost<BackendOutcomes>,
    ))
        requires
            wf(old(self)@),
            old(self).generation < u64::MAX,
        ensures
            final(self)@ == spec_step(old(self)@, input@, r.1@).m,
            effects_view(r.0@) == spec_step(old(self)@, input@, r.1@).fx,
            wf(final(self)@),
            final(self)@.generation >= old(self)@.generation,
    {
        let ghost iv = input@;
        let mut fx: Vec<Effect> = Vec::new();
        let oc: Ghost<BackendOutcomes> = match input {
            MachineInput::Command(c) => match c {
                Command::Connect(p) => {
                    let running = matches!(
                        self.state,
                        TunnelState::Connecting { .. } | TunnelState::Connected { .. }
                    );
                    if running {
                        self.begin_attempt(backend, p, true, 0, &mut fx)
                    } else if self.offline {
                        self.params = Some(p);
                        let st = TunnelState::Error { block_reason: BlockReason::IsOffline };
                        if st != self.state {
                            backend.notify(&st);
                            fx.push(Effect::Notify(st));
                        }
                        self.state = st;
                        Ghost(BackendOutcomes { firewall_ok: true, dns_ok: true })
                    } else {
                        self.begin_attempt(backend, p, false, 0, &mut fx)
                    }
                },
                Command::Disconnect => {
                    let running = matches!(
                        self.state,
                        TunnelState::Connecting { .. } | TunnelState::Connected { .. }
                    );
                    if running {
                        backend.reset_dns();
                        fx.push(Effect::ResetDns);
                        let al = self.allow_lan;
                        backend.block_firewall(al);
                        fx.push(Effect::BlockFirewall { allow_lan: al });
                        let og = self.generation;
                        backend.stop_tunnel(og);
                        fx.push(Effect::StopTunnel { generation: og });
                        let ds = TunnelState::Disconnecting {
                            after_disconnect: AfterDisconnect::Nothing,
                        };
                        backend.notify(&ds);
                        fx.push(Effect::Notify(ds));
                        let st = TunnelState::Disconnected;
                        backend.notify(&st);
                        fx.push(Effect::Notify(st));
                        self.state = st;
                        self.generation = og + 1;
                        self.applied = FirewallPolicy::Blocked { allow_lan: al };
                        self.dns = DnsConfig::System;
                        self.tunnel_gateway = None;
                    } else {
                        let st = TunnelState::Disconnected;
                        if st != self.state {
                            backend.notify(&st);
                            fx.push(Effect::Notify(st));
                        }
                        self.state = st;
                    }
                    Ghost(BackendOutcomes { firewall_ok: true, dns_ok: true })
                },
                Command::Block(reason) => {
                    let running = matches!(
                        self.state,
                        TunnelState::Connecting { .. } | TunnelState::Connected { .. }
                    );
                    if running {
                        self.teardown(
                            backend,
                            reason,
                            true,
                            Some(AfterDisconnect::Block(reason)),
                            &mut fx,
                        );
                    } else {
                        self.teardown(backend, reason, false, None, &mut fx);
                    }
                    Ghost(BackendOutcomes { firewall_ok: true, dns_ok: true })
                },
                Command::SetFirewallPolicyOverride(o) => {
                    let al = o.allow_lan;
                    self.allow_lan = al;
                    let is_blocked = matches!(&self.applied, FirewallPolicy::Blocked { .. });
                    if is_blocked {
                        backend.block_firewall(al);
                        fx.push(Effect::BlockFirewall { allow_lan: al });
                        self.applied = FirewallPolicy::Blocked { allow_lan: al };
                        Ghost(BackendOutcomes { firewall_ok: true, dns_ok: true })
                    } else {
                        let np = rebuild_with_allow_lan(&self.applied, al);
                        let ok = backend.apply_firewall(&np);
                        fx.push(Effect::ApplyFirewall(copy_policy(&np)));
                        if ok {
                            self.applied = np;
                            Ghost(BackendOutcomes { firewall_ok: true, dns_ok: true })
                        } else {
                            self.teardown(
                                backend,
                                BlockReason::SetFirewallPolicyError,
                                true,
                                None,
                                &mut fx,
                            );
                            Ghost(BackendOutcomes { firewall_ok: false, dns_ok: true })
                        }
                    }
                },
                Command::SetExcludedApps(paths) => {
                    backend.set_excluded(&paths);
                    fx.push(Effect::SetExcluded(copy_paths(&paths)));
                    self.excluded_apps = paths;
                    Ghost(BackendOutcomes { firewall_ok: true, dns_ok: true })
                },
                Command::SetDnsOverride(ov) => {
                    self.dns_override = ov;
                    let is_connecting = matches!(&self.applied, FirewallPolicy::Connecting { .. });
                    let is_connected = matches!(&self.applied, FirewallPolicy::Connected { .. });
                    if is_connecting {
                        let cd = connecting_dns(&self.dns_override);
                        let ok = backend.set_dns(&cd);
                        fx.push(Effect::SetDns(copy_dns(&cd)));
                        if ok {
                            self.dns = cd;
                            Ghost(BackendOutcomes { firewall_ok: true, dns_ok: true })
                        } else {
                            self.teardown(backend, BlockReason::SetDnsError, true, None, &mut fx);
                            Ghost(BackendOutcomes { firewall_ok: true, dns_ok: false })
                        }
                    } else if is_connected && self.tunnel_gateway.is_some() {
                        let gw = self.tunnel_gateway.unwrap();
                        let servers = connected_dns_servers(&self.dns_override, gw);
                        let np = rebuild_with_dns(&self.applied, &servers);
                        let fw_ok = backend.apply_firewall(&np);
                        fx.push(Effect::ApplyFirewall(copy_policy(&np)));
                        if !fw_ok {
                            self.teardown(
                                backend,
                                BlockReason::SetFirewallPolicyError,
                                true,
                                None,
                                &mut fx,
                            );
                            Ghost(BackendOutcomes { firewall_ok: false, dns_ok: true })
                        } else {
                            let cd = DnsConfig::Servers(servers);
                            let dns_ok = backend.set_dns(&cd);
                            fx.push(Effect::SetDns(copy_dns(&cd)));
                            if dns_ok {
                                self.applied = np;
                                self.dns = cd;
                                Ghost(BackendOutcomes { firewall_ok: true, dns_ok: true })
                            } else {
                                self.teardown(
                                    backend,
                                    BlockReason::SetDnsError,
                                    true,
                                    None,
                                    &mut fx,
                                );
                                Ghost(BackendOutcomes { firewall_ok: true, dns_ok: false })
                            }
                        }
                    } else {
                        Ghost(BackendOutcomes { firewall_ok: true, dns_ok: true })
                    }
                },
            },
            MachineInput::Event { generation, event } => {
                if generation != self.generation {
                    if matches!(&event, TunnelEvent::InterfaceUp(_)) {
                        backend.stop_tunnel(generation);
                        fx.push(Effect::StopTunnel { generation });
                    }
                    Ghost(BackendOutcomes { firewall_ok: true, dns_ok: true })
                } else {
                    match event {
                        TunnelEvent::InterfaceUp(md) => {
                            let in_connecting = matches!(
                                self.state,
                                TunnelState::Connecting { .. }
                            );
                            if in_connecting && self.params.is_some() {
                                let p = self.params.unwrap();
                                let servers = connected_dns_servers(&self.dns_override, md.gateway);
                                let cd = DnsConfig::Servers(copy_ips(&servers));
                                let dns_ok = backend.set_dns(&cd);
                                fx.push(Effect::SetDns(copy_dns(&cd)));
                                if !dns_ok {
                                    self.teardown(
                                        backend,
                                        BlockReason::SetDnsError,
                                        true,
                                        Some(AfterDisconnect::Block(BlockReason::SetDnsError)),
                                        &mut fx,
                                    );
                                    Ghost(BackendOutcomes { firewall_ok: true, dns_ok: false })
                                } else {
                                    let np = FirewallPolicy::Connected {
                                        peer_endpoint: p.endpoint,
                                        tunnel_interface: md.interface.clone(),
                                        dns_servers: servers,
                                        allow_lan: self.allow_lan,
                                    };
                                    let fw_ok = backend.apply_firewall(&np);
                                    fx.push(Effect::ApplyFirewall(copy_policy(&np)));
                                    if !fw_ok {
                                        self.teardown(
                                            backend,
                                            BlockReason::SetFirewallPolicyError,
                                            true,
                                            Some(
                                                AfterDisconnect::Block(
                                                    BlockReason::SetFirewallPolicyError,
                                                ),
                                            ),
                                            &mut fx,
                                        );
                                        Ghost(BackendOutcomes { firewall_ok: false, dns_ok: true })
                                    } else {
                                        backend.set_excluded(&self.excluded_apps);
                                        fx.push(Effect::SetExcluded(copy_paths(&self.excluded_apps)));
                                        let ns = TunnelState::Connected { endpoint: p.endpoint };
                                        if ns != self.state {
                                            backend.notify(&ns);
                                            fx.push(Effect::Notify(ns));
                                        }
                                        self.state = ns;
                                        self.applied = np;
                                        self.dns = cd;
                                        self.tunnel_gateway = Some(md.gateway);
                                        Ghost(BackendOutcomes { firewall_ok: true, dns_ok: true })
                                    }
                                }
                            } else {
                                Ghost(BackendOutcomes { firewall_ok: true, dns_ok: true })
                            }
                        },
                        TunnelEvent::Down(cause) => {
                            let (reason, retryable) = classify_down(cause);
                            match self.state {
                                TunnelState::Connecting { retry_attempt } => {
                                    if self.params.is_some() && retryable && retry_attempt
                                        < self.retry.max_attempts {
                                        let p = self.params.unwrap();
                                        let delay = backoff_delay_ms(
                                            self.retry.backoff_base_ms,
                                            self.retry.backoff_cap_ms,
                                            retry_attempt + 1,
                                        );
                                        proof {
                                            lemma_backoff_bounds(
                                                self.retry.backoff_base_ms as int,
                                                self.retry.backoff_cap_ms as int,
                                                (retry_attempt + 1) as nat,
                                            );
                                        }
                                        let g = self.generation + 1;
                                        self.generation = g;
                                        backend.start_tunnel(&p, g, delay);
                                        fx.push(Effect::StartTunnel {
                                            params: p,
                                            generation: g,
                                            delay_ms: delay,
                                        });
                                        let ns = TunnelState::Connecting {
                                            retry_attempt: retry_attempt + 1,
                                        };
                                        if ns != self.state {
                                            backend.notify(&ns);
                                            fx.push(Effect::Notify(ns));
                                        }
                                        self.state = ns;
                                        Ghost(BackendOutcomes { firewall_ok: true, dns_ok: true })
                                    } else {
                                        self.teardown(backend, reason, false, None, &mut fx);
                                        Ghost(BackendOutcomes { firewall_ok: true, dns_ok: true })
                                    }
                                },
                                TunnelState::Connected { .. } => {
                                    if self.params.is_some() && retryable {
                                        let ds = TunnelState::Disconnecting {
                                            after_disconnect: AfterDisconnect::Reconnect,
                                        };
                                        backend.notify(&ds);
                                        fx.push(Effect::Notify(ds));
                                        let p = self.params.unwrap();
                                        self.begin_attempt(backend, p, false, 0, &mut fx)
                                    } else {
                                        self.teardown(backend, reason, false, None, &mut fx);
                                        Ghost(BackendOutcomes { firewall_ok: true, dns_ok: true })
                                    }
                                },
                                _ => Ghost(BackendOutcomes { firewall_ok: true, dns_ok: true }),
                            }
                        },
                    }
                }
            },
            MachineInput::OfflineChanged(b) => {
                self.offline = b;
                let reconnect = !b && matches!(
                    self.state,
                    TunnelState::Error { block_reason: BlockReason::IsOffline }
                ) && self.params.is_some();
                if reconnect {
                    let p = self.params.unwrap();
                    self.begin_attempt(backend, p, false, 0, &mut fx)
                } else {
                    Ghost(BackendOutcomes { firewall_ok: true, dns_ok: true })
                }
            },
        };
        proof {
            lemma_step_preserves_wf(old(self)@, iv, oc@);
            assert(self@ =~= spec_step(old(self)@, iv, oc@).m);
            assert(effects_view(fx@) =~= spec_step(old(self)@, iv, oc@).fx);
        }
        (fx, oc)
    }
}

} // verus!
