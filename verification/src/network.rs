//! Network-mode configuration: the outbound path every session is pinned to.
//!
//! No credential is stored here in plain text, only a [`CredentialRef`] that
//! points into secure storage.

use crate::text;
use vstd::prelude::*;

verus! {

/// Opaque handle to a secret held in secure storage; carries no secret itself.
#[derive(Debug, PartialEq, Eq, Hash)]
pub struct CredentialRef(pub String);

impl CredentialRef {
    /// A reference with the given identifier.
    #[must_use]
    pub fn new(id: String) -> (r: CredentialRef)
        ensures
            r.0 == id,
    {
        CredentialRef(id)
    }
}

impl Clone for CredentialRef {
    fn clone(&self) -> (r: CredentialRef)
        ensures
            r == *self,
    {
        CredentialRef(self.0.clone())
    }
}

fn copy_credentials(c: &Option<CredentialRef>) -> (r: Option<CredentialRef>)
    ensures
        r == *c,
{
    match c {
        Some(x) => Some(x.clone()),
        None => None,
    }
}

/// Tor tunnel configuration.
#[derive(Debug, PartialEq, Eq)]
pub struct TorConfig {
    /// Whether to connect via pluggable-transport bridges.
    pub use_bridges: bool,
    /// Bridge lines.
    pub bridges: Vec<String>,
    /// Optional preferred exit-node country hint.
    pub exit_country: Option<String>,
}

impl TorConfig {
    /// Whether both hold the same settings.
    pub open spec fn same(self, other: TorConfig) -> bool {
        &&& self.use_bridges == other.use_bridges
        &&& self.bridges@ == other.bridges@
        &&& self.exit_country == other.exit_country
    }

    /// No bridges and no exit hint.
    pub open spec fn is_plain(self) -> bool {
        !self.use_bridges && self.bridges@.len() == 0 && self.exit_country is None
    }
}

impl Default for TorConfig {
    fn default() -> (r: TorConfig)
        ensures
            r.is_plain(),
    {
        TorConfig { use_bridges: false, bridges: Vec::new(), exit_country: None }
    }
}

impl Clone for TorConfig {
    fn clone(&self) -> (r: TorConfig)
        ensures
            r.same(*self),
    {
        TorConfig {
            use_bridges: self.use_bridges,
            bridges: text::copy_all(&self.bridges),
            exit_country: text::copy_opt(&self.exit_country),
        }
    }
}

/// VPN protocols supported by the gateway.
#[derive(Debug, Clone, Copy, PartialEq, Eq, Structural)]
pub enum VpnProtocol {
    /// WireGuard tunnel.
    WireGuard,
    /// OpenVPN tunnel.
    OpenVpn,
}

/// VPN tunnel configuration; secrets are referenced, never inlined.
#[derive(Debug, PartialEq, Eq)]
pub struct VpnConfig {
    /// Tunnel protocol.
    pub protocol: VpnProtocol,
    /// Endpoint host:port.
    pub endpoint: String,
    /// Reference to the tunnel keys in secure storage.
    pub credentials_ref: CredentialRef,
    /// DNS servers to use inside the tunnel.
    pub dns_servers: Vec<String>,
}

impl VpnConfig {
    /// Whether both hold the same settings.
    pub open spec fn same(self, other: VpnConfig) -> bool {
        &&& self.protocol == other.protocol
        &&& self.endpoint == other.endpoint
        &&& self.credentials_ref == other.credentials_ref
        &&& self.dns_servers@ == other.dns_servers@
    }
}

impl Clone for VpnConfig {
    fn clone(&self) -> (r: VpnConfig)
        ensures
            r.same(*self),
    {
        VpnConfig {
            protocol: self.protocol,
            endpoint: self.endpoint.clone(),
            credentials_ref: self.credentials_ref.clone(),
            dns_servers: text::copy_all(&self.dns_servers),
        }
    }
}

/// Proxy protocols.
#[derive(Debug, Clone, Copy, PartialEq, Eq, Structural)]
pub enum ProxyProtocol {
    /// SOCKS5 with remote DNS.
    Socks5,
    /// HTTP CONNECT tunnel.
    HttpConnect,
}

/// Proxy tunnel configuration.
#[derive(Debug, PartialEq, Eq)]
pub struct ProxyConfig {
    /// Proxy protocol.
    pub protocol: ProxyProtocol,
    /// Proxy host.
    pub host: String,
    /// Proxy port.
    pub port: u16,
    /// Optional reference to proxy credentials in secure storage.
    pub credentials_ref: Option<CredentialRef>,
    /// Whether the proxy resolves DNS remotely.
    pub remote_dns: bool,
}

impl Clone for ProxyConfig {
    fn clone(&self) -> (r: ProxyConfig)
        ensures
            r == *self,
    {
        ProxyConfig {
            protocol: self.protocol,
            host: self.host.clone(),
            port: self.port,
            credentials_ref: copy_credentials(&self.credentials_ref),
            remote_dns: self.remote_dns,
        }
    }
}

/// The outbound tunnel a session uses.
#[derive(Debug, PartialEq, Eq)]
pub enum NetworkMode {
    /// Through Tor.
    Tor(TorConfig),
    /// Through a VPN tunnel.
    Vpn(VpnConfig),
    /// Through a SOCKS5 or HTTP CONNECT proxy.
    Proxy(ProxyConfig),
}

impl Clone for NetworkMode {
    fn clone(&self) -> (r: NetworkMode)
        ensures
            r.same(*self),
    {
        match self {
            NetworkMode::Tor(c) => NetworkMode::Tor(c.clone()),
            NetworkMode::Vpn(c) => NetworkMode::Vpn(c.clone()),
            NetworkMode::Proxy(c) => NetworkMode::Proxy(c.clone()),
        }
    }
}

impl NetworkMode {
    /// Whether both are the same tunnel with the same settings.
    pub open spec fn same(self, other: NetworkMode) -> bool {
        match (self, other) {
            (NetworkMode::Tor(a), NetworkMode::Tor(b)) => a.same(b),
            (NetworkMode::Vpn(a), NetworkMode::Vpn(b)) => a.same(b),
            (NetworkMode::Proxy(a), NetworkMode::Proxy(b)) => a == b,
            _ => false,
        }
    }

    /// The short label.
    pub open spec fn name(self) -> Seq<char> {
        match self {
            NetworkMode::Tor(_) => "Tor"@,
            NetworkMode::Vpn(_) => "VPN"@,
            NetworkMode::Proxy(_) => "Proxy"@,
        }
    }

    /// A short, stable label for UI and logs.
    #[must_use]
    pub fn label(&self) -> (r: &'static str)
        ensures
            r@ == self.name(),
    {
        match self {
            NetworkMode::Tor(_) => "Tor",
            NetworkMode::Vpn(_) => "VPN",
            NetworkMode::Proxy(_) => "Proxy",
        }
    }

    /// The DNS policy implied by this mode: resolution stays on the route, and
    /// plain-text DNS is blocked whatever the mode.
    #[must_use]
    pub fn default_dns_policy(&self) -> (r: DnsPolicy)
        ensures
            r.implied_by(*self),
    {
        match self {
            NetworkMode::Tor(_) => DnsPolicy::tor(),
            NetworkMode::Vpn(cfg) => DnsPolicy {
                mode: DnsMode::TunnelDns,
                servers: text::copy_all(&cfg.dns_servers),
                block_plain_dns: true,
            },
            NetworkMode::Proxy(_) => DnsPolicy {
                mode: DnsMode::ProxyRemote,
                servers: Vec::new(),
                block_plain_dns: true,
            },
        }
    }
}

/// How DNS is resolved for a session.
#[derive(Debug, Clone, Copy, PartialEq, Eq, Structural)]
pub enum DnsMode {
    /// Tor's DNS port, to which the gateway redirects all DNS traffic.
    TorDnsPort,
    /// DNS servers provided by the VPN tunnel.
    TunnelDns,
    /// DNS resolved remotely by the proxy.
    ProxyRemote,
    /// A fixed set of DNS servers reachable only through the tunnel.
    StaticDns,
}

impl DnsMode {
    /// The identifier of the mode, as `profile show` prints it.
    pub open spec fn identifier(self) -> Seq<char> {
        match self {
            DnsMode::TorDnsPort => "TorDnsPort"@,
            DnsMode::TunnelDns => "TunnelDns"@,
            DnsMode::ProxyRemote => "ProxyRemote"@,
            DnsMode::StaticDns => "StaticDns"@,
        }
    }

    /// The identifier of the mode, as `profile show` prints it.
    #[must_use]
    pub fn debug_name(self) -> (r: &'static str)
        ensures
            r@ == self.identifier(),
    {
        match self {
            DnsMode::TorDnsPort => "TorDnsPort",
            DnsMode::TunnelDns => "TunnelDns",
            DnsMode::ProxyRemote => "ProxyRemote",
            DnsMode::StaticDns => "StaticDns",
        }
    }
}

/// DNS handling policy.
#[derive(Debug, PartialEq, Eq)]
pub struct DnsPolicy {
    /// Resolution mode.
    pub mode: DnsMode,
    /// Explicit DNS servers, if applicable.
    pub servers: Vec<String>,
    /// Whether the gateway blocks plain-text DNS off the route.
    pub block_plain_dns: bool,
}

impl Clone for DnsPolicy {
    fn clone(&self) -> (r: DnsPolicy)
        ensures
            r.same(*self),
    {
        DnsPolicy {
            mode: self.mode,
            servers: text::copy_all(&self.servers),
            block_plain_dns: self.block_plain_dns,
        }
    }
}

impl DnsPolicy {
    /// Whether both hold the same settings.
    pub open spec fn same(self, other: DnsPolicy) -> bool {
        &&& self.mode == other.mode
        &&& self.servers@ == other.servers@
        &&& self.block_plain_dns == other.block_plain_dns
    }

    /// Whether this is the policy that the tunnel implies.
    pub open spec fn implied_by(self, mode: NetworkMode) -> bool {
        &&& self.block_plain_dns
        &&& match mode {
            NetworkMode::Tor(_) => self.mode == DnsMode::TorDnsPort && self.servers@.len() == 0,
            NetworkMode::Vpn(cfg) => self.mode == DnsMode::TunnelDns && self.servers@
                == cfg.dns_servers@,
            NetworkMode::Proxy(_) => self.mode == DnsMode::ProxyRemote && self.servers@.len() == 0,
        }
    }

    /// The canonical Tor DNS policy: all DNS goes to Tor's DNS port.
    #[must_use]
    pub fn tor() -> (r: DnsPolicy)
        ensures
            r.mode == DnsMode::TorDnsPort,
            r.servers@.len() == 0,
            r.block_plain_dns,
    {
        DnsPolicy { mode: DnsMode::TorDnsPort, servers: Vec::new(), block_plain_dns: true }
    }
}

/// IPv6 handling.
#[derive(Debug, Clone, Copy, PartialEq, Eq, Structural)]
pub enum Ipv6Policy {
    /// Drop all IPv6 at the gateway.
    Block,
    /// Route IPv6 through the tunnel.
    RouteThroughTunnel,
}

impl Default for Ipv6Policy {
    fn default() -> (r: Ipv6Policy)
        ensures
            r == Ipv6Policy::Block,
    {
        Ipv6Policy::Block
    }
}

impl Ipv6Policy {
    /// The identifier of the policy, as `profile show` prints it.
    pub open spec fn identifier(self) -> Seq<char> {
        match self {
            Ipv6Policy::Block => "Block"@,
            Ipv6Policy::RouteThroughTunnel => "RouteThroughTunnel"@,
        }
    }

    /// The identifier of the policy, as `profile show` prints it.
    #[must_use]
    pub fn debug_name(self) -> (r: &'static str)
        ensures
            r@ == self.identifier(),
    {
        match self {
            Ipv6Policy::Block => "Block",
            Ipv6Policy::RouteThroughTunnel => "RouteThroughTunnel",
        }
    }
}

/// The complete network configuration attached to a profile.
#[derive(Debug, PartialEq, Eq)]
pub struct NetworkConfig {
    /// The tunnel mode and its parameters.
    pub mode: NetworkMode,
    /// DNS policy; derived from the mode where none is named.
    pub dns: DnsPolicy,
    /// IPv6 policy.
    pub ipv6: Ipv6Policy,
}

impl Clone for NetworkConfig {
    fn clone(&self) -> (r: NetworkConfig)
        ensures
            r.same(*self),
    {
        NetworkConfig { mode: self.mode.clone(), dns: self.dns.clone(), ipv6: self.ipv6 }
    }
}

impl NetworkConfig {
    /// Whether both hold the same settings.
    pub open spec fn same(self, other: NetworkConfig) -> bool {
        self.mode.same(other.mode) && self.dns.same(other.dns) && self.ipv6 == other.ipv6
    }

    /// Whether DNS and IPv6 policy are those that the mode implies.
    pub open spec fn derived(self) -> bool {
        self.dns.implied_by(self.mode) && self.ipv6 == Ipv6Policy::Block
    }

    /// The DNS policy of a configuration that names none: the one that its mode
    /// implies.
    #[must_use]
    pub fn default_dns(mode: &NetworkMode) -> (r: DnsPolicy)
        ensures
            r.implied_by(*mode),
    {
        mode.default_dns_policy()
    }

    /// A configuration for `mode` with the DNS and IPv6 policy that it implies.
    #[must_use]
    pub fn from_mode(mode: NetworkMode) -> (r: NetworkConfig)
        ensures
            r.mode == mode,
            r.derived(),
    {
        let dns = mode.default_dns_policy();
        NetworkConfig { mode, dns, ipv6: Ipv6Policy::Block }
    }
}

impl Default for NetworkConfig {
    fn default() -> (r: NetworkConfig)
        ensures
            r.mode matches NetworkMode::Tor(c) && c.is_plain(),
            r.derived(),
    {
        NetworkConfig::from_mode(NetworkMode::Tor(TorConfig::default()))
    }
}

/// Whatever tunnel is chosen, no plain-text DNS leaves it and IPv6 is dropped.
pub proof fn law_no_plain_dns(config: NetworkConfig)
    requires
        config.derived(),
    ensures
        config.dns.block_plain_dns,
        config.ipv6 == Ipv6Policy::Block,
        config.dns.mode != DnsMode::StaticDns,
{
}

/// DNS follows the tunnel: Tor resolves at its own port, a VPN inside the tunnel
/// by the servers of its configuration, and a proxy at its far end; plain DNS is
/// blocked in every case.
pub proof fn law_dns_follows_the_tunnel(c: NetworkConfig)
    requires
        c.derived(),
    ensures
        c.mode is Tor ==> c.dns.mode is TorDnsPort && c.dns.servers@.len() == 0,
        c.mode matches NetworkMode::Vpn(cfg) ==> c.dns.mode is TunnelDns && c.dns.servers@
            == cfg.dns_servers@,
        c.mode is Proxy ==> c.dns.mode is ProxyRemote && c.dns.servers@.len() == 0,
        c.dns.block_plain_dns,
        c.ipv6 is Block,
{
}

} // verus!
