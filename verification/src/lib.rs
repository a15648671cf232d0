//! Control core of a VPN client: the tunnel state machine that keeps
//! firewall policy, DNS configuration and split-tunnel exclusions in
//! lockstep with the tunnel's lifecycle, plus a tunnel-device provider.
//!
//! - [`types`] holds the data model and the collaborator interface;
//! - [`model`] gives every type its mathematical model;
//! - [`transition`] is the transition relation over those models;
//! - [`machine`] is the executable machine, proved to follow it exactly;
//! - [`laws`] states and proves the machine's invariants;
//! - [`backoff`] is the bounded retry delay curve;
//! - [`firewall`] models the policy applier's rule set;
//! - [`tun_provider`] opens and configures tunnel devices.

pub mod backoff;
pub mod firewall;
pub mod laws;
pub mod machine;
pub mod model;
pub mod transition;
pub mod tun_provider;
pub mod types;
