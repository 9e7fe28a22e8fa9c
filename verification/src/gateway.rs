//! Gateway configuration, firewall policy, tunnel health and kill switch.
//!
//! The gateway's firewall denies by default; only traffic through the tunnel is
//! allowed. If the tunnel drops, the kill switch engages.

use crate::network::{DnsPolicy, Ipv6Policy, NetworkMode};
use vstd::prelude::*;

verus! {

/// Complete gateway configuration derived from a profile's network settings.
#[derive(Debug, PartialEq, Eq)]
pub struct GatewayConfig {
    /// The tunnel mode.
    pub mode: NetworkMode,
    /// DNS policy.
    pub dns: DnsPolicy,
    /// IPv6 policy.
    pub ipv6: Ipv6Policy,
    /// The browser-facing network, in CIDR notation.
    pub downstream_cidr: String,
    /// The gateway's address on that network.
    pub gateway_address: String,
}

/// Base chain policy.
#[derive(Debug, Clone, Copy, PartialEq, Eq, Structural)]
pub enum DefaultPolicy {
    /// Drop everything not explicitly allowed.
    Drop,
    /// Accept by default; representable so that it can be rejected.
    Accept,
}

/// A declarative firewall policy.
#[derive(Debug, Clone, Copy, PartialEq, Eq, Structural)]
pub struct FirewallPolicy {
    /// The base policy of the chains.
    pub default_policy: DefaultPolicy,
    /// Port to which DNS is redirected.
    pub redirect_dns_to: Option<u16>,
    /// Port to which TCP is redirected.
    pub redirect_tcp_to: Option<u16>,
    /// Whether UDP outside the tunnel is blocked.
    pub block_direct_udp: bool,
    /// IPv6 handling.
    pub ipv6: Ipv6Policy,
    /// Whether traffic initiated from the host is rejected.
    pub reject_host_initiated: bool,
}

impl FirewallPolicy {
    /// The fail-closed policy for a tunnel.
    pub open spec fn closed_for(mode: NetworkMode, ipv6: Ipv6Policy) -> FirewallPolicy {
        FirewallPolicy {
            default_policy: DefaultPolicy::Drop,
            redirect_dns_to: if mode is Tor {
                Some(5353u16)
            } else {
                None
            },
            redirect_tcp_to: if mode is Tor {
                Some(9040u16)
            } else {
                None
            },
            block_direct_udp: true,
            ipv6,
            reject_host_initiated: true,
        }
    }

    /// The leak that the policy allows, if any.
    pub open spec fn violation(self) -> Option<Seq<char>> {
        if self.default_policy != DefaultPolicy::Drop {
            Some("firewall default policy must be Drop"@)
        } else if !self.block_direct_udp {
            Some("direct UDP must be blocked"@)
        } else if !self.reject_host_initiated {
            Some("host-initiated traffic must be rejected"@)
        } else {
            None
        }
    }

    /// The fail-closed policy for a gateway configuration.
    #[must_use]
    pub fn fail_closed(cfg: &GatewayConfig) -> (r: FirewallPolicy)
        ensures
            r == FirewallPolicy::closed_for(cfg.mode, cfg.ipv6),
    {
        let tor: bool = match &cfg.mode {
            NetworkMode::Tor(_) => true,
            _ => false,
        };
        FirewallPolicy {
            default_policy: DefaultPolicy::Drop,
            redirect_dns_to: if tor {
                Some(5353)
            } else {
                None
            },
            redirect_tcp_to: if tor {
                Some(9040)
            } else {
                None
            },
            block_direct_udp: true,
            ipv6: cfg.ipv6,
            reject_host_initiated: true,
        }
    }

    /// The reason why the policy could leak, or `None`.
    #[must_use]
    pub fn validate(&self) -> (r: Option<&'static str>)
        ensures
            match r {
                Some(m) => self.violation() == Some(m@),
                None => self.violation() is None,
            },
    {
        if self.default_policy != DefaultPolicy::Drop {
            return Some("firewall default policy must be Drop");
        }
        if !self.block_direct_udp {
            return Some("direct UDP must be blocked");
        }
        if !self.reject_host_initiated {
            return Some("host-initiated traffic must be rejected");
        }
        None
    }
}

/// The state of the tunnel to the outside world.
#[derive(Debug, Clone, Copy, PartialEq, Eq, Structural)]
pub enum TunnelState {
    /// Not yet established.
    Down,
    /// Establishing.
    Connecting,
    /// Established and carrying traffic.
    Up,
    /// Was up, now failed.
    Failed,
}

impl TunnelState {
    /// Whether the tunnel is fully usable.
    #[must_use]
    pub fn is_up(self) -> (r: bool)
        ensures
            r == (self == TunnelState::Up),
    {
        matches!(self, TunnelState::Up)
    }
}

/// A snapshot of tunnel status.
#[derive(Debug, PartialEq, Eq)]
pub struct TunnelStatus {
    /// Current state.
    pub state: TunnelState,
    /// For Tor, the bootstrap percentage.
    pub bootstrap_percent: Option<u8>,
    /// A short human-readable detail.
    pub detail: Option<String>,
}

impl TunnelStatus {
    /// A fully established tunnel.
    #[must_use]
    pub fn up() -> (r: TunnelStatus)
        ensures
            r.state == TunnelState::Up,
            r.bootstrap_percent == Some(100u8),
            r.detail is None,
    {
        TunnelStatus { state: TunnelState::Up, bootstrap_percent: Some(100), detail: None }
    }
}

/// Kill-switch state.
#[derive(Debug, Clone, Copy, PartialEq, Eq, Structural)]
pub enum KillSwitchState {
    /// Traffic is permitted through the tunnel.
    Armed,
    /// Traffic is fully cut.
    Engaged,
}

impl KillSwitchState {
    /// Whether connectivity is currently permitted.
    #[must_use]
    pub fn allows_traffic(self) -> (r: bool)
        ensures
            r == (self == KillSwitchState::Armed),
    {
        matches!(self, KillSwitchState::Armed)
    }
}

/// Aggregate gateway health.
#[derive(Debug, PartialEq, Eq)]
pub struct GatewayHealth {
    /// Whether the gateway domain is running.
    pub gateway_up: bool,
    /// Firewall applied and validated.
    pub firewall_applied: bool,
    /// Tunnel status.
    pub tunnel: TunnelStatus,
    /// Kill-switch state.
    pub killswitch: KillSwitchState,
}

impl GatewayHealth {
    /// Whether the gateway is in a safe-to-browse state.
    #[must_use]
    pub fn is_ready(&self) -> (r: bool)
        ensures
            r == (self.gateway_up && self.firewall_applied && self.tunnel.state == TunnelState::Up
                && self.killswitch == KillSwitchState::Armed),
    {
        self.gateway_up && self.firewall_applied && self.tunnel.state.is_up()
            && self.killswitch.allows_traffic()
    }
}

/// The fail-closed policy of any tunnel leaks nothing.
pub proof fn law_fail_closed_is_valid(mode: NetworkMode, ipv6: Ipv6Policy)
    ensures
        FirewallPolicy::closed_for(mode, ipv6).violation() is None,
        FirewallPolicy::closed_for(mode, ipv6).default_policy == DefaultPolicy::Drop,
{
}

/// The fail-closed firewall drops what it does not know, lets no UDP past the
/// tunnel and nothing in from the host, and keeps the IPv6 policy that it is given.
/// Through Tor, DNS and TCP are sent to Tor's own ports; through any other tunnel
/// nothing is redirected.
pub proof fn law_fail_closed_drops_and_redirects(mode: NetworkMode, ipv6: Ipv6Policy)
    ensures
        ({
            let f = FirewallPolicy::closed_for(mode, ipv6);
            &&& f.default_policy is Drop
            &&& f.block_direct_udp
            &&& f.reject_host_initiated
            &&& f.ipv6 == ipv6
            &&& mode is Tor ==> f.redirect_dns_to == Some(5353u16) && f.redirect_tcp_to == Some(
                9040u16,
            )
            &&& mode !is Tor ==> f.redirect_dns_to is None && f.redirect_tcp_to is None
        }),
{
}

/// A firewall policy passes exactly where it drops by default, blocks direct UDP
/// and rejects what the host starts.
pub proof fn law_leaky_firewalls_are_refused(f: FirewallPolicy)
    ensures
        f.violation() is None <==> f.default_policy is Drop && f.block_direct_udp
            && f.reject_host_initiated,
{
}

} // verus!
