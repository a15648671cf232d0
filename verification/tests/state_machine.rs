use talpid_core::machine::TunnelStateMachine;
use talpid_core::types::{
    AfterDisconnect, AllowedTunnelTraffic, Backends, BlockReason, Command, DnsConfig, Effect,
    Endpoint, FirewallPolicy, FirewallPolicyOverride, IpAddress, MachineInput, RetryConfig,
    TransportProtocol, TunnelDownCause, TunnelEvent, TunnelMetadata, TunnelParameters, TunnelState,
};

struct Mock {
    fw_ok: bool,
    dns_ok: bool,
}

impl Backends for Mock {
    fn apply_firewall(&mut self, _policy: &FirewallPolicy) -> bool {
        self.fw_ok
    }
    fn block_firewall(&mut self, _allow_lan: bool) {}
    fn set_dns(&mut self, _config: &DnsConfig) -> bool {
        self.dns_ok
    }
    fn reset_dns(&mut self) {}
    fn set_excluded(&mut self, _paths: &Vec<String>) {}
    fn start_tunnel(&mut self, _params: &TunnelParameters, _generation: u64, _delay_ms: u64) {}
    fn stop_tunnel(&mut self, _generation: u64) {}
    fn notify(&mut self, _state: &TunnelState) {}
}

fn all_ok() -> Mock {
    Mock { fw_ok: true, dns_ok: true }
}

fn retry_cfg(max_attempts: u32) -> RetryConfig {
    RetryConfig { max_attempts, backoff_base_ms: 100, backoff_cap_ms: 1000 }
}

fn endpoint() -> Endpoint {
    Endpoint { ip: IpAddress::V4(0x0102_0304), port: 51820, protocol: TransportProtocol::Udp }
}

fn params() -> TunnelParameters {
    TunnelParameters { endpoint: endpoint(), allowed_traffic: AllowedTunnelTraffic::All }
}

fn gateway() -> IpAddress {
    IpAddress::V4(0x0a00_0001)
}

fn metadata() -> TunnelMetadata {
    TunnelMetadata {
        interface: String::from("tun0"),
        ips: vec![IpAddress::V4(0x0a00_0002)],
        gateway: gateway(),
    }
}

fn connecting_policy(allow_lan: bool) -> FirewallPolicy {
    FirewallPolicy::Connecting {
        peer_endpoint: endpoint(),
        allow_lan,
        allowed_tunnel_traffic: AllowedTunnelTraffic::All,
    }
}

fn connected_policy(servers: Vec<IpAddress>, allow_lan: bool) -> FirewallPolicy {
    FirewallPolicy::Connected {
        peer_endpoint: endpoint(),
        tunnel_interface: String::from("tun0"),
        dns_servers: servers,
        allow_lan,
    }
}

fn connect(m: &mut TunnelStateMachine, b: &mut Mock) -> Vec<Effect> {
    let (fx, _) = m.step(b, MachineInput::Command(Command::Connect(params())));
    fx
}

fn up(m: &mut TunnelStateMachine, b: &mut Mock, generation: u64) -> Vec<Effect> {
    let (fx, _) = m.step(
        b,
        MachineInput::Event { generation, event: TunnelEvent::InterfaceUp(metadata()) },
    );
    fx
}

fn down(
    m: &mut TunnelStateMachine,
    b: &mut Mock,
    generation: u64,
    cause: Option<TunnelDownCause>,
) -> Vec<Effect> {
    let (fx, _) = m.step(b, MachineInput::Event { generation, event: TunnelEvent::Down(cause) });
    fx
}

fn dns_sets_with_resolvers(fx: &Vec<Effect>) -> usize {
    let mut n: usize = 0;
    for e in fx {
        if let Effect::SetDns(DnsConfig::Servers(v)) = e {
            if !v.is_empty() {
                n += 1;
            }
        }
    }
    n
}

#[test]
fn scenario_connect_interface_up_becomes_connected() {
    let mut b = all_ok();
    let mut m = TunnelStateMachine::new(&mut b, retry_cfg(3), true);
    assert_eq!(m.state, TunnelState::Disconnected);
    assert_eq!(m.applied, FirewallPolicy::Blocked { allow_lan: true });

    let fx1 = connect(&mut m, &mut b);
    assert_eq!(m.state, TunnelState::Connecting { retry_attempt: 0 });
    assert_eq!(m.generation, 1);
    assert_eq!(
        fx1,
        vec![
            Effect::ApplyFirewall(connecting_policy(true)),
            Effect::SetDns(DnsConfig::Servers(vec![])),
            Effect::StartTunnel { params: params(), generation: 1, delay_ms: 0 },
            Effect::Notify(TunnelState::Connecting { retry_attempt: 0 }),
        ]
    );

    let fx2 = up(&mut m, &mut b, 1);
    assert_eq!(m.state, TunnelState::Connected { endpoint: endpoint() });
    assert_eq!(
        fx2,
        vec![
            Effect::SetDns(DnsConfig::Servers(vec![gateway()])),
            Effect::ApplyFirewall(connected_policy(vec![gateway()], true)),
            Effect::SetExcluded(vec![]),
            Effect::Notify(TunnelState::Connected { endpoint: endpoint() }),
        ]
    );

    // The firewall went Blocked -> Connecting -> Connected, and DNS was
    // pointed at real resolvers exactly once (the redirection installed
    // while connecting holds no resolvers at all).
    assert_eq!(dns_sets_with_resolvers(&fx1) + dns_sets_with_resolvers(&fx2), 1);
}

#[test]
fn scenario_two_retries_then_connects() {
    let mut b = all_ok();
    let mut m = TunnelStateMachine::new(&mut b, retry_cfg(3), true);
    connect(&mut m, &mut b);

    let fx = down(&mut m, &mut b, 1, Some(TunnelDownCause::Recoverable));
    assert_eq!(m.state, TunnelState::Connecting { retry_attempt: 1 });
    assert_eq!(m.generation, 2);
    assert_eq!(
        fx,
        vec![
            Effect::StartTunnel { params: params(), generation: 2, delay_ms: 200 },
            Effect::Notify(TunnelState::Connecting { retry_attempt: 1 }),
        ]
    );

    down(&mut m, &mut b, 2, Some(TunnelDownCause::Recoverable));
    assert_eq!(m.state, TunnelState::Connecting { retry_attempt: 2 });
    assert_eq!(m.generation, 3);

    up(&mut m, &mut b, 3);
    assert_eq!(m.state, TunnelState::Connected { endpoint: endpoint() });

    // A later reconnect starts over with the attempt counter reset.
    let fx = down(&mut m, &mut b, 3, Some(TunnelDownCause::Recoverable));
    assert_eq!(m.state, TunnelState::Connecting { retry_attempt: 0 });
    assert_eq!(
        fx[0],
        Effect::Notify(TunnelState::Disconnecting { after_disconnect: AfterDisconnect::Reconnect })
    );
}

#[test]
fn scenario_disconnect_before_interface_up_drops_stale_event() {
    let mut b = all_ok();
    let mut m = TunnelStateMachine::new(&mut b, retry_cfg(3), true);
    connect(&mut m, &mut b);
    assert_eq!(m.generation, 1);

    let fx = m.step(&mut b, MachineInput::Command(Command::Disconnect)).0;
    assert_eq!(m.state, TunnelState::Disconnected);
    assert_eq!(m.generation, 2);
    assert_eq!(
        fx,
        vec![
            Effect::ResetDns,
            Effect::BlockFirewall { allow_lan: true },
            Effect::StopTunnel { generation: 1 },
            Effect::Notify(TunnelState::Disconnecting { after_disconnect: AfterDisconnect::Nothing }),
            Effect::Notify(TunnelState::Disconnected),
        ]
    );

    // The InterfaceUp of the superseded attempt arrives late: it is never
    // applied to the state; its interface is torn back down.
    let fx = up(&mut m, &mut b, 1);
    assert_eq!(m.state, TunnelState::Disconnected);
    assert_eq!(fx, vec![Effect::StopTunnel { generation: 1 }]);
}

#[test]
fn scenario_auth_failure_blocks_without_retry() {
    let mut b = all_ok();
    let mut m = TunnelStateMachine::new(&mut b, retry_cfg(3), true);
    connect(&mut m, &mut b);
    up(&mut m, &mut b, 1);
    assert_eq!(m.state, TunnelState::Connected { endpoint: endpoint() });

    let fx = down(&mut m, &mut b, 1, Some(TunnelDownCause::AuthFailed));
    assert_eq!(m.state, TunnelState::Error { block_reason: BlockReason::AuthFailed });
    assert_eq!(m.applied, FirewallPolicy::Blocked { allow_lan: true });
    assert_eq!(
        fx,
        vec![
            Effect::BlockFirewall { allow_lan: true },
            Effect::ResetDns,
            Effect::Notify(TunnelState::Error { block_reason: BlockReason::AuthFailed }),
        ]
    );
}

#[test]
fn scenario_connect_while_offline_is_rejected() {
    let mut b = all_ok();
    let mut m = TunnelStateMachine::new(&mut b, retry_cfg(3), true);
    let fx = m.step(&mut b, MachineInput::OfflineChanged(true)).0;
    assert_eq!(fx, vec![]);
    assert_eq!(m.state, TunnelState::Disconnected);

    let fx = connect(&mut m, &mut b);
    assert_eq!(m.state, TunnelState::Error { block_reason: BlockReason::IsOffline });
    assert_eq!(m.generation, 0);
    assert_eq!(
        fx,
        vec![Effect::Notify(TunnelState::Error { block_reason: BlockReason::IsOffline })]
    );
}

#[test]
fn offline_clearing_reconnects_automatically() {
    let mut b = all_ok();
    let mut m = TunnelStateMachine::new(&mut b, retry_cfg(3), true);
    m.step(&mut b, MachineInput::OfflineChanged(true));
    connect(&mut m, &mut b);
    assert_eq!(m.state, TunnelState::Error { block_reason: BlockReason::IsOffline });

    let fx = m.step(&mut b, MachineInput::OfflineChanged(false)).0;
    assert_eq!(m.state, TunnelState::Connecting { retry_attempt: 0 });
    assert_eq!(m.generation, 1);
    assert!(fx.contains(&Effect::StartTunnel { params: params(), generation: 1, delay_ms: 0 }));
}

#[test]
fn refused_firewall_swap_fails_closed() {
    let mut b = Mock { fw_ok: false, dns_ok: true };
    let mut m = TunnelStateMachine::new(&mut b, retry_cfg(3), true);
    let fx = connect(&mut m, &mut b);
    assert_eq!(m.state, TunnelState::Error { block_reason: BlockReason::SetFirewallPolicyError });
    assert_eq!(m.applied, FirewallPolicy::Blocked { allow_lan: true });
    assert_eq!(
        fx,
        vec![
            Effect::ApplyFirewall(connecting_policy(true)),
            Effect::BlockFirewall { allow_lan: true },
            Effect::Notify(
                TunnelState::Error { block_reason: BlockReason::SetFirewallPolicyError },
            ),
        ]
    );
}

#[test]
fn refused_dns_redirection_fails_closed() {
    let mut b = Mock { fw_ok: true, dns_ok: false };
    let mut m = TunnelStateMachine::new(&mut b, retry_cfg(3), true);
    connect(&mut m, &mut b);
    assert_eq!(m.state, TunnelState::Error { block_reason: BlockReason::SetDnsError });
    assert_eq!(m.applied, FirewallPolicy::Blocked { allow_lan: true });
}

#[test]
fn retry_cap_exhaustion_blocks_with_start_tunnel_error() {
    let mut b = all_ok();
    let mut m = TunnelStateMachine::new(&mut b, retry_cfg(1), true);
    connect(&mut m, &mut b);
    down(&mut m, &mut b, 1, Some(TunnelDownCause::Recoverable));
    assert_eq!(m.state, TunnelState::Connecting { retry_attempt: 1 });

    let fx = down(&mut m, &mut b, 2, Some(TunnelDownCause::Recoverable));
    assert_eq!(m.state, TunnelState::Error { block_reason: BlockReason::StartTunnelError });
    assert!(!fx.iter().any(|e| matches!(e, Effect::StartTunnel { .. })));
}

#[test]
fn parameter_error_is_never_retried() {
    let mut b = all_ok();
    let mut m = TunnelStateMachine::new(&mut b, retry_cfg(3), true);
    connect(&mut m, &mut b);
    let fx = down(&mut m, &mut b, 1, Some(TunnelDownCause::ParameterError));
    assert_eq!(m.state, TunnelState::Error { block_reason: BlockReason::TunnelParameterError });
    assert!(!fx.iter().any(|e| matches!(e, Effect::StartTunnel { .. })));
}

#[test]
fn tap_adapter_problem_blocks() {
    let mut b = all_ok();
    let mut m = TunnelStateMachine::new(&mut b, retry_cfg(3), true);
    connect(&mut m, &mut b);
    up(&mut m, &mut b, 1);
    down(&mut m, &mut b, 1, Some(TunnelDownCause::TapAdapterProblem));
    assert_eq!(m.state, TunnelState::Error { block_reason: BlockReason::TapAdapterProblem });
}

#[test]
fn unexplained_down_while_connected_reconnects() {
    let mut b = all_ok();
    let mut m = TunnelStateMachine::new(&mut b, retry_cfg(3), true);
    connect(&mut m, &mut b);
    up(&mut m, &mut b, 1);
    down(&mut m, &mut b, 1, None);
    assert_eq!(m.state, TunnelState::Connecting { retry_attempt: 0 });
    assert_eq!(m.generation, 2);
}

#[test]
fn generations_only_grow_and_stale_events_never_apply() {
    let mut b = all_ok();
    let mut m = TunnelStateMachine::new(&mut b, retry_cfg(3), true);
    let mut last: u64 = m.generation;
    for _ in 0..5 {
        connect(&mut m, &mut b);
        assert!(m.generation > last);
        last = m.generation;
    }
    let state_before = m.state;
    for g in 0..last {
        down(&mut m, &mut b, g, Some(TunnelDownCause::AuthFailed));
        assert_eq!(m.state, state_before);
        assert_eq!(m.generation, last);
    }
}

#[test]
fn block_command_stops_tunnel_and_blocks() {
    let mut b = all_ok();
    let mut m = TunnelStateMachine::new(&mut b, retry_cfg(3), true);
    connect(&mut m, &mut b);
    up(&mut m, &mut b, 1);
    let fx = m.step(&mut b, MachineInput::Command(Command::Block(BlockReason::AuthFailed))).0;
    assert_eq!(m.state, TunnelState::Error { block_reason: BlockReason::AuthFailed });
    assert!(fx.contains(&Effect::StopTunnel { generation: 1 }));
    assert!(fx.contains(&Effect::Notify(TunnelState::Disconnecting {
        after_disconnect: AfterDisconnect::Block(BlockReason::AuthFailed),
    })));
}

#[test]
fn excluded_apps_are_reapplied_when_interface_comes_up() {
    let mut b = all_ok();
    let mut m = TunnelStateMachine::new(&mut b, retry_cfg(3), true);
    let paths = vec![String::from("/usr/bin/browser")];
    let fx = m
        .step(&mut b, MachineInput::Command(Command::SetExcludedApps(paths.clone())))
        .0;
    assert_eq!(fx, vec![Effect::SetExcluded(paths.clone())]);

    connect(&mut m, &mut b);
    let fx = up(&mut m, &mut b, 1);
    assert!(fx.contains(&Effect::SetExcluded(paths)));
}

#[test]
fn dns_override_while_connected_repoints_firewall_and_dns() {
    let mut b = all_ok();
    let mut m = TunnelStateMachine::new(&mut b, retry_cfg(3), true);
    connect(&mut m, &mut b);
    up(&mut m, &mut b, 1);

    let servers = vec![IpAddress::V4(0x0101_0101)];
    let fx = m
        .step(&mut b, MachineInput::Command(Command::SetDnsOverride(Some(servers.clone()))))
        .0;
    assert_eq!(
        fx,
        vec![
            Effect::ApplyFirewall(connected_policy(servers.clone(), true)),
            Effect::SetDns(DnsConfig::Servers(servers.clone())),
        ]
    );
    assert_eq!(m.dns, DnsConfig::Servers(servers));
}

#[test]
fn allow_lan_override_recomputes_the_applied_policy() {
    let mut b = all_ok();
    let mut m = TunnelStateMachine::new(&mut b, retry_cfg(3), true);
    connect(&mut m, &mut b);
    up(&mut m, &mut b, 1);

    let fx = m
        .step(
            &mut b,
            MachineInput::Command(Command::SetFirewallPolicyOverride(FirewallPolicyOverride {
                allow_lan: false,
            })),
        )
        .0;
    assert_eq!(fx, vec![Effect::ApplyFirewall(connected_policy(vec![gateway()], false))]);
    assert_eq!(m.state, TunnelState::Connected { endpoint: endpoint() });
}

fn check_invariants(m: &TunnelStateMachine) {
    // No-leak: when the tunnel is not up, the applied policy is no more
    // permissive than Blocked, or the Connecting policy while connecting.
    match m.state {
        TunnelState::Connected { .. } => {
            assert!(matches!(m.applied, FirewallPolicy::Connected { .. }));
        }
        TunnelState::Connecting { .. } => {
            assert!(matches!(m.applied, FirewallPolicy::Connecting { .. }));
        }
        _ => assert!(matches!(m.applied, FirewallPolicy::Blocked { .. })),
    }
    // DNS redirection is in force exactly while the policy loosens.
    let redirected = matches!(m.dns, DnsConfig::Servers(_));
    let loosened = !matches!(m.applied, FirewallPolicy::Blocked { .. });
    assert_eq!(redirected, loosened);
}

#[test]
fn invariants_hold_along_a_full_session() {
    let mut b = all_ok();
    let mut m = TunnelStateMachine::new(&mut b, retry_cfg(2), true);
    check_invariants(&m);
    connect(&mut m, &mut b);
    check_invariants(&m);
    down(&mut m, &mut b, 1, Some(TunnelDownCause::Recoverable));
    check_invariants(&m);
    up(&mut m, &mut b, 2);
    check_invariants(&m);
    m.step(&mut b, MachineInput::Command(Command::SetDnsOverride(Some(vec![IpAddress::V4(9)]))));
    check_invariants(&m);
    down(&mut m, &mut b, 2, Some(TunnelDownCause::Recoverable));
    check_invariants(&m);
    up(&mut m, &mut b, 3);
    check_invariants(&m);
    down(&mut m, &mut b, 3, Some(TunnelDownCause::AuthFailed));
    check_invariants(&m);
    connect(&mut m, &mut b);
    check_invariants(&m);
    m.step(&mut b, MachineInput::Command(Command::Disconnect));
    check_invariants(&m);
}

#[test]
fn disconnect_from_error_returns_to_disconnected() {
    let mut b = all_ok();
    let mut m = TunnelStateMachine::new(&mut b, retry_cfg(3), true);
    m.step(&mut b, MachineInput::Command(Command::Block(BlockReason::AuthFailed)));
    assert_eq!(m.state, TunnelState::Error { block_reason: BlockReason::AuthFailed });
    let fx = m.step(&mut b, MachineInput::Command(Command::Disconnect)).0;
    assert_eq!(m.state, TunnelState::Disconnected);
    assert_eq!(fx, vec![Effect::Notify(TunnelState::Disconnected)]);
}
