//! The orchestrator: what it tracks, what it asks of its capabilities, and the
//! rules by which a session moves from state to state.
//!
//! The order of the steps of a session is in [`crate::flow`].

use crate::browser::{BackendPolicyBundle, BrowserBackendId, BrowserLaunchRequest};
use crate::chromium::{is_chromium_bundle, render_chromium_policy};
use crate::config::{AppConfig, Enforcement, IsolationLevel, RenderMode};
use crate::error::{Error, ErrorKind, ErrorModel};
use crate::events::{AuditDraft, EventKind, KindModel, RecordModel, Severity};
use crate::firefox::{firefox_complaint, is_firefox_bundle, render_firefox_policy};
use crate::gateway::GatewayConfig;
use crate::ids::{simple_text, slug_text, InstanceId, ProfileId, SessionId};
use crate::network::{NetworkConfig, NetworkMode, ProxyConfig, ProxyProtocol};
use crate::permissions::Feature;
use crate::preflight::PreflightContext;
use crate::profile::{Profile, ProfileSpec};
use crate::protocol::StatusDto;
use crate::session::{SessionState, SessionSummary};
use crate::sessions::{summarizes, Change, SessionEntry, SessionTable};
use crate::text;
use crate::VERSION;
use crate::vm::{DiskLayer, GpuBackend, IsolationPolicy, VmProvisionRequest, VmResources, VmRole};
use vstd::prelude::*;

verus! {

/// The reason given where host-browser mode is not permitted.
pub const HOST_MODE_DISABLED: &'static str =
    "host-browser mode is disabled; enable it in advanced settings / config (config enforcement --host-browser on) before starting a host-isolation profile";

/// The reason given where no Chromium-family browser is on the host.
pub const NO_HOST_CHROMIUM: &'static str =
    "this profile requests the Chromium engine in host mode, but no host Chromium/Edge browser was located; install Chrome/Chromium/Edge or set AEGIS_BROWSER_BIN";

/// The reason given where no Firefox is on the host.
pub const NO_HOST_FIREFOX: &'static str =
    "this profile requests the Firefox engine in host mode, but no host Firefox / Tor Browser was located; install Firefox / the Tor Browser bundle or set AEGIS_FIREFOX_BIN";

/// The proxy that Tor offers on the host unless another is named.
pub const HOST_TOR_PROXY: &'static str = "socks5h://127.0.0.1:9050";

/// The user-data directory inside the guest.
pub const GUEST_PROFILE_DIR: &'static str = "/home/user/.aegis/profile";

/// The browser-facing network of the gateway.
pub const DOWNSTREAM_CIDR: &'static str = "10.152.152.0/24";

/// The gateway's address on that network.
pub const GATEWAY_ADDRESS: &'static str = "10.152.152.1";

/// What the orchestrator knows of the browsers on the host.
#[derive(Debug, PartialEq, Eq)]
pub struct Capabilities {
    /// Whether a host Chromium backend is wired.
    pub host_browser: bool,
    /// The resolved Chromium executable, if any.
    pub host_browser_path: Option<String>,
    /// Whether a host Firefox backend is wired.
    pub host_browser_firefox: bool,
    /// The resolved Firefox executable, if any.
    pub host_browser_firefox_path: Option<String>,
    /// Whether paths on the host are Windows paths.
    pub windows: bool,
}

impl Capabilities {
    /// Whether the engine can be launched on the host.
    pub open spec fn hosts(self, engine: BrowserBackendId) -> bool {
        match engine {
            BrowserBackendId::Chromium => self.host_browser,
            BrowserBackendId::Firefox => self.host_browser_firefox,
        }
    }

    /// Whether the engine can be launched on the host; if not, the error names
    /// the missing browser.
    pub fn host_backend_for(&self, engine: BrowserBackendId) -> (r: Result<(), Error>)
        ensures
            match r {
                Ok(_) => self.hosts(engine),
                Err(e) => !self.hosts(engine) && e@ == no_host_browser(engine),
            },
    {
        match engine {
            BrowserBackendId::Chromium => if self.host_browser {
                Ok(())
            } else {
                Err(Error::Config(NO_HOST_CHROMIUM.to_owned()))
            },
            BrowserBackendId::Firefox => if self.host_browser_firefox {
                Ok(())
            } else {
                Err(Error::Config(NO_HOST_FIREFOX.to_owned()))
            },
        }
    }
}

/// The error that names the browser that is missing on the host.
pub open spec fn no_host_browser(engine: BrowserBackendId) -> ErrorModel {
    ErrorModel::of(
        ErrorKind::Config,
        match engine {
            BrowserBackendId::Chromium => NO_HOST_CHROMIUM@,
            BrowserBackendId::Firefox => NO_HOST_FIREFOX@,
        },
    )
}

/// A resolved host-mode proxy.
#[derive(Debug, PartialEq, Eq)]
pub struct HostProxy {
    /// The endpoint given to the browser.
    pub endpoint: String,
    /// The host to probe.
    pub probe_host: String,
    /// The port to probe.
    pub probe_port: u16,
}

/// The host and port of a proxy endpoint, or what is wrong with it. What stands
/// before the last `://` does not count, and the port follows the last colon.
pub open spec fn proxy_authority(endpoint: Seq<char>) -> Result<(Seq<char>, nat), Seq<char>> {
    let authority = text::after_last(endpoint, "://"@);
    let i = text::last_match(authority, ":"@, authority.len() as int);
    let subject = "host proxy '"@ + endpoint;
    if i < 0 {
        Err(subject + "' is missing a host:port"@)
    } else {
        match text::uint_value(authority.skip(i + 1)) {
            None => Err(subject + "' has an invalid port"@),
            Some(port) => if port > u16::MAX {
                Err(subject + "' has an invalid port"@)
            } else if i == 0 {
                Err(subject + "' is missing a host"@)
            } else {
                Ok((authority.take(i), port))
            },
        }
    }
}

impl HostProxy {
    /// Whether this is the proxy at the endpoint.
    pub open spec fn reads(self, endpoint: Seq<char>) -> bool {
        &&& self.endpoint@ == endpoint
        &&& proxy_authority(endpoint) == Ok::<(Seq<char>, nat), Seq<char>>(
            (self.probe_host@, self.probe_port as nat),
        )
    }

    /// Parses an endpoint, keeping it verbatim.
    pub fn parse(endpoint: &str) -> (r: Result<HostProxy, Error>)
        ensures
            match proxy_authority(endpoint@) {
                Ok(_) => r matches Ok(p) && p.reads(endpoint@),
                Err(why) => r matches Err(e) && e@ == ErrorModel::of(ErrorKind::Config, why),
            },
    {
        proof {
            reveal_strlit(":");
        }
        let authority = text::tail_after(endpoint, "://");
        let colon = match text::rfind(authority, ":") {
            Some(i) => i,
            None => {
                return Err(
                    Error::Config(
                        text::cat3("host proxy '", endpoint, "' is missing a host:port"),
                    ),
                );
            },
        };
        let n: usize = authority.unicode_len();
        let host = authority.substring_char(0, colon);
        let tail = authority.substring_char(colon + 1, n);
        assert(host@ =~= authority@.take(colon as int));
        assert(tail@ =~= authority@.skip(colon + 1));
        let port = match text::parse_uint(tail, 65535) {
            Some(p) => p,
            None => {
                return Err(
                    Error::Config(text::cat3("host proxy '", endpoint, "' has an invalid port")),
                );
            },
        };
        if colon == 0 {
            return Err(
                Error::Config(text::cat3("host proxy '", endpoint, "' is missing a host")),
            );
        }
        Ok(
            HostProxy {
                endpoint: endpoint.to_owned(),
                probe_host: host.to_owned(),
                probe_port: port as u16,
            },
        )
    }
}

/// The proxy endpoint for a tunnel mode on the host: Tor's, unless another is
/// named; the configured proxy; none for a VPN.
pub open spec fn host_endpoint(mode: NetworkMode, named: Option<Seq<char>>) -> Result<
    Seq<char>,
    ErrorModel,
> {
    match mode {
        NetworkMode::Tor(_) => Ok(
            if named is Some && !text::is_blank(named->0) {
                named->0
            } else {
                HOST_TOR_PROXY@
            },
        ),
        NetworkMode::Proxy(cfg) => Ok(
            (match cfg.protocol {
                ProxyProtocol::Socks5 => "socks5h"@,
                ProxyProtocol::HttpConnect => "http"@,
            }) + "://"@ + cfg.host@ + ":"@ + text::dec(cfg.port as nat),
        ),
        NetworkMode::Vpn(_) => Err(
            ErrorModel::of(ErrorKind::Unsupported, "host mode needs Tor or a proxy, not a VPN"@),
        ),
    }
}

/// Resolves the host-mode proxy of a tunnel mode. `named` is the proxy that the
/// environment names in place of Tor's.
pub fn host_proxy_endpoint(mode: &NetworkMode, named: Option<String>) -> (r: Result<
    HostProxy,
    Error,
>)
    ensures
        match host_endpoint(*mode, text::opt_text(named)) {
            Err(em) => r matches Err(e) && e@ == em,
            Ok(endpoint) => match proxy_authority(endpoint) {
                Ok(_) => r matches Ok(p) && p.reads(endpoint),
                Err(why) => r matches Err(e) && e@ == ErrorModel::of(ErrorKind::Config, why),
            },
        },
{
    match mode {
        NetworkMode::Tor(_) => {
            if let Some(s) = named {
                if !text::blank(s.as_str()) {
                    return HostProxy::parse(s.as_str());
                }
            }
            HostProxy::parse(HOST_TOR_PROXY)
        },
        NetworkMode::Proxy(cfg) => {
            let scheme = match cfg.protocol {
                ProxyProtocol::Socks5 => "socks5h",
                ProxyProtocol::HttpConnect => "http",
            };
            let port = text::decimal(cfg.port as u64);
            let endpoint = text::cat5(scheme, "://", cfg.host.as_str(), ":", port.as_str());
            HostProxy::parse(endpoint.as_str())
        },
        NetworkMode::Vpn(_) => Err(
            Error::Unsupported("host mode needs Tor or a proxy, not a VPN".to_owned()),
        ),
    }
}

/// Why a profile may not start, if there is a reason: host mode must be
/// permitted, and the engine must be on the host.
pub open spec fn refusal(
    spec: ProfileSpec,
    enforcement: Enforcement,
    caps: Capabilities,
) -> Option<ErrorModel> {
    match spec.isolation {
        IsolationLevel::FullVm => None,
        IsolationLevel::HostProcess => if !enforcement.allow_host_browser {
            Some(ErrorModel::of(ErrorKind::Config, HOST_MODE_DISABLED@))
        } else if !caps.hosts(spec.browser) {
            Some(no_host_browser(spec.browser))
        } else {
            None
        },
    }
}

/// Whether `c` is the gateway configuration for a network configuration.
pub open spec fn is_gateway_config(c: GatewayConfig, network: NetworkConfig) -> bool {
    &&& c.mode.same(network.mode)
    &&& c.dns.same(network.dns)
    &&& c.ipv6 == network.ipv6
    &&& c.downstream_cidr@ == DOWNSTREAM_CIDR@
    &&& c.gateway_address@ == GATEWAY_ADDRESS@
}

/// The gateway configuration for a network configuration.
pub fn gateway_config(network: &NetworkConfig) -> (r: GatewayConfig)
    ensures
        is_gateway_config(r, *network),
{
    GatewayConfig {
        mode: network.mode.clone(),
        dns: network.dns.clone(),
        ipv6: network.ipv6,
        downstream_cidr: DOWNSTREAM_CIDR.to_owned(),
        gateway_address: GATEWAY_ADDRESS.to_owned(),
    }
}

/// Whether `ctx` is what the auditor is told about a session.
pub open spec fn is_preflight_context(
    ctx: PreflightContext,
    session: SessionId,
    network: NetworkConfig,
) -> bool {
    &&& ctx.session == session
    &&& ctx.gateway_address@ == GATEWAY_ADDRESS@
    &&& ctx.mode_label@ == network.mode.name()
    &&& ctx.dns.same(network.dns)
    &&& ctx.ipv6 == network.ipv6
    &&& ctx.webrtc_policy_installed
    &&& ctx.host_public_ip is None
}

/// What the auditor is told about a session.
pub fn preflight_context(session: SessionId, network: &NetworkConfig) -> (r: PreflightContext)
    ensures
        is_preflight_context(r, session, *network),
{
    PreflightContext {
        session,
        gateway_address: GATEWAY_ADDRESS.to_owned(),
        mode_label: network.mode.label().to_owned(),
        dns: network.dns.clone(),
        ipv6: network.ipv6,
        webrtc_policy_installed: true,
        host_public_ip: None,
    }
}

/// The SOCKS endpoint that the gateway offers the browser VM.
pub open spec fn gateway_proxy(mode: NetworkMode) -> Seq<char> {
    "socks5://"@ + GATEWAY_ADDRESS@ + (if mode is Tor {
        ":9050"@
    } else {
        ":1080"@
    })
}

/// Whether `req` asks for the browser of a profile, in production, with the
/// profile's fingerprint and permissions.
pub open spec fn is_launch_request(
    req: BrowserLaunchRequest,
    session: SessionId,
    profile: Profile,
    dir: Seq<char>,
    proxy: Seq<char>,
) -> bool {
    &&& req.session == session
    &&& req.profile == profile.id
    &&& req.user_data_dir@ == dir
    &&& profile.spec.resolves_to(req.fingerprint)
    &&& req.permissions.same(profile.spec.permissions)
    &&& req.proxy_endpoint@ == proxy
    &&& req.render_mode == RenderMode::Software
    &&& req.production
}

fn launch_request(session: SessionId, profile: &Profile, dir: String, proxy: String) -> (r:
    BrowserLaunchRequest)
    ensures
        is_launch_request(r, session, *profile, dir@, proxy@),
{
    BrowserLaunchRequest {
        session,
        profile: profile.id,
        user_data_dir: dir,
        fingerprint: profile.spec.resolved_fingerprint(),
        permissions: profile.spec.permissions.clone(),
        proxy_endpoint: proxy,
        render_mode: RenderMode::Software,
        production: true,
    }
}

/// The launch of a profile's browser in its VM: everything goes through the
/// gateway.
pub fn browser_launch_request(session: SessionId, profile: &Profile) -> (r: BrowserLaunchRequest)
    ensures
        is_launch_request(
            r,
            session,
            *profile,
            GUEST_PROFILE_DIR@,
            gateway_proxy(profile.spec.network.mode),
        ),
{
    let port = match &profile.spec.network.mode {
        NetworkMode::Tor(_) => ":9050",
        _ => ":1080",
    };
    let proxy = text::cat3("socks5://", GATEWAY_ADDRESS, port);
    launch_request(session, profile, GUEST_PROFILE_DIR.to_owned(), proxy)
}

/// The user-data directory of a profile on the host.
pub open spec fn host_profile_dir(
    runtime_dir: Seq<char>,
    profile: ProfileId,
    windows: bool,
) -> Seq<char> {
    text::path_join(
        text::path_join(runtime_dir, "host-profiles"@, windows),
        profile.shown(),
        windows,
    )
}

/// The launch of a profile's browser on the host through a proxy.
pub fn host_launch_request(session: SessionId, profile: &Profile, dir: String, proxy: String) -> (r:
    BrowserLaunchRequest)
    ensures
        is_launch_request(r, session, *profile, dir@, proxy@),
{
    launch_request(session, profile, dir, proxy)
}

/// What an engine says against a request, if anything.
pub open spec fn render_complaint(
    engine: BrowserBackendId,
    req: BrowserLaunchRequest,
) -> Option<Seq<char>> {
    match engine {
        BrowserBackendId::Chromium => match req.fingerprint.violation() {
            Some(why) => Some("invalid fingerprint policy: "@ + why),
            None => None,
        },
        BrowserBackendId::Firefox => firefox_complaint(req),
    }
}

/// Whether `bundle` is the vetted bundle of an engine for a request.
pub open spec fn is_bundle(
    bundle: BackendPolicyBundle,
    engine: BrowserBackendId,
    req: BrowserLaunchRequest,
) -> bool {
    &&& bundle.complaint(req.production) is None
    &&& match engine {
        BrowserBackendId::Chromium => is_chromium_bundle(bundle, req),
        BrowserBackendId::Firefox => is_firefox_bundle(bundle, req),
    }
}

/// Renders and vets the bundle of an engine for a request.
pub fn render_vetted(engine: BrowserBackendId, req: &BrowserLaunchRequest) -> (r: Result<
    BackendPolicyBundle,
    Error,
>)
    ensures
        match render_complaint(engine, *req) {
            None => r matches Ok(b) && is_bundle(b, engine, *req),
            Some(why) => r matches Err(e) && e@ == ErrorModel::of(ErrorKind::Config, why),
        },
{
    let rendered = match engine {
        BrowserBackendId::Chromium => render_chromium_policy(req),
        BrowserBackendId::Firefox => render_firefox_policy(req),
    };
    let bundle = match rendered {
        Ok(b) => b,
        Err(e) => {
            return Err(e);
        },
    };
    match bundle.assert_safe(req.production) {
        Ok(_) => Ok(bundle),
        Err(e) => Err(e),
    }
}

/// The base image of a VM: the configured one, or the built-in location.
pub open spec fn base_image(config: AppConfig, role: VmRole, windows: bool) -> Seq<char> {
    match config.images {
        Some(set) => match role {
            VmRole::Gateway => set.gateway.path@,
            VmRole::Browser => set.browser.path@,
        },
        None => text::path_join(
            config.paths.images_dir@,
            match role {
                VmRole::Gateway => "gateway-base.qcow2"@,
                VmRole::Browser => "browser-base.qcow2"@,
            },
            windows,
        ),
    }
}

/// Whether `req` provisions a VM in the given role: a throwaway overlay of its
/// own on a read-only base image, fully isolated.
pub open spec fn is_provision_request(
    req: VmProvisionRequest,
    config: AppConfig,
    role: VmRole,
    windows: bool,
) -> bool {
    &&& req.role == role
    &&& req.resources == VmResources::sized_for(role)
    &&& req.disk.backing_image@ == base_image(config, role, windows)
    &&& req.disk.overlay_path@ == text::path_join(
        config.paths.runtime_dir@,
        slug_text("inst"@, req.instance_id.value) + "-overlay.qcow2"@,
        windows,
    )
    &&& req.disk.destroy_on_close
    &&& req.disk.read_only_root
    &&& req.gpu == GpuBackend::VirtioGpu
    &&& req.isolation.hard()
    &&& req.isolated_network@ == config.network_prefix@ + "-net"@
}

/// The request that provisions a VM in the given role for an instance.
pub fn provision_request_for(
    config: &AppConfig,
    role: VmRole,
    instance: InstanceId,
    windows: bool,
) -> (r: VmProvisionRequest)
    ensures
        is_provision_request(r, *config, role, windows),
        r.instance_id == instance,
{
    let backing = match &config.images {
        Some(set) => match role {
            VmRole::Gateway => set.gateway.path.clone(),
            VmRole::Browser => set.browser.path.clone(),
        },
        None => match role {
            VmRole::Gateway => text::join_path(
                config.paths.images_dir.as_str(),
                "gateway-base.qcow2",
                windows,
            ),
            VmRole::Browser => text::join_path(
                config.paths.images_dir.as_str(),
                "browser-base.qcow2",
                windows,
            ),
        },
    };
    let resources = match role {
        VmRole::Gateway => VmResources::gateway(),
        VmRole::Browser => VmResources::browser(),
    };
    let name = text::cat2(instance.slug().as_str(), "-overlay.qcow2");
    VmProvisionRequest {
        instance_id: instance,
        role,
        resources,
        disk: DiskLayer {
            backing_image: backing,
            overlay_path: text::join_path(config.paths.runtime_dir.as_str(), name.as_str(), windows),
            destroy_on_close: true,
            read_only_root: true,
        },
        gpu: GpuBackend::VirtioGpu,
        isolation: IsolationPolicy::hardened(),
        isolated_network: text::cat2(config.network_prefix.as_str(), "-net"),
    }
}

/// The request that provisions a VM in the given role, for a fresh random
/// instance.
pub fn provision_request(config: &AppConfig, role: VmRole, windows: bool) -> (r: VmProvisionRequest)
    ensures
        is_provision_request(r, *config, role, windows),
{
    provision_request_for(config, role, InstanceId::new(), windows)
}

/// The record of a state that a session has reached.
pub open spec fn state_record(session: SessionId, profile: ProfileId, state: SessionState) -> RecordModel {
    RecordModel::about(
        Severity::Info,
        session,
        profile,
        KindModel::SessionState(state.token()),
    )
}

/// The record of a state that a session has reached.
pub fn state_draft(session: SessionId, profile: ProfileId, state: SessionState) -> (r: AuditDraft)
    ensures
        r@ == state_record(session, profile, state),
{
    AuditDraft::about(
        Severity::Info,
        session,
        profile,
        EventKind::SessionState { state: state.as_str().to_owned() },
    )
}

/// Whether a tracked session may move to `next`.
pub open spec fn may_move(
    table: Map<SessionId, SessionEntry>,
    id: SessionId,
    next: SessionState,
) -> bool {
    table.contains_key(id) && table[id].state.leads_to(next)
}

/// The table after a session has moved.
pub open spec fn moved(
    table: Map<SessionId, SessionEntry>,
    id: SessionId,
    next: SessionState,
) -> Map<SessionId, SessionEntry> {
    table.insert(id, table[id].changed(Change::State(next)))
}

/// The error where a session may not move.
pub open spec fn immovable(
    table: Map<SessionId, SessionEntry>,
    id: SessionId,
    next: SessionState,
) -> ErrorModel {
    if !table.contains_key(id) {
        unknown_session(id)
    } else {
        ErrorModel::of(
            ErrorKind::Internal,
            "illegal session transition "@ + table[id].state.identifier() + " -> "@
                + next.identifier(),
        )
    }
}

/// The error where a session is not tracked.
pub open spec fn unknown_session(id: SessionId) -> ErrorModel {
    ErrorModel::of(ErrorKind::NotFound, "session "@ + id.shown())
}

/// The error where a session is not tracked.
pub fn unknown_session_error(id: SessionId) -> (r: Error)
    ensures
        r@ == unknown_session(id),
{
    Error::NotFound(text::cat2("session ", id.text().as_str()))
}

/// The orchestrator.
pub struct Orchestrator {
    /// What is known of the host browsers.
    pub caps: Capabilities,
    /// The application configuration.
    pub settings: AppConfig,
    /// The containment policy that governs the next session.
    pub enforcement: Enforcement,
    /// The tracked sessions.
    pub sessions: SessionTable,
}

impl Orchestrator {
    /// Whether both have the same capabilities, configuration and policy.
    pub open spec fn same_setup(self, other: Orchestrator) -> bool {
        &&& self.caps == other.caps
        &&& self.settings == other.settings
        &&& self.enforcement == other.enforcement
    }

    /// An orchestrator that tracks nothing. Its policy is the configured one.
    #[must_use]
    pub fn new(caps: Capabilities, config: AppConfig) -> (r: Orchestrator)
        ensures
            r.caps == caps,
            r.settings == config,
            r.enforcement == config.enforcement,
            r.sessions@ == Map::<SessionId, SessionEntry>::empty(),
    {
        let enforcement = config.enforcement;
        Orchestrator { caps, settings: config, enforcement, sessions: SessionTable::new() }
    }

    /// The application configuration.
    #[must_use]
    pub fn config(&self) -> (r: &AppConfig)
        ensures
            *r == self.settings,
    {
        &self.settings
    }

    /// The current containment policy.
    #[must_use]
    pub fn get_enforcement(&self) -> (r: Enforcement)
        ensures
            r == self.enforcement,
    {
        self.enforcement
    }

    /// Replaces the containment policy. It governs the next session that is
    /// started; running sessions are unaffected.
    pub fn set_enforcement(&mut self, enforcement: Enforcement) -> (r: Enforcement)
        ensures
            r == enforcement,
            *final(self) == (Orchestrator { enforcement, ..*old(self) }),
    {
        self.enforcement = enforcement;
        enforcement
    }

    /// Decides whether a profile may start now.
    pub fn check_start(&self, spec: &ProfileSpec) -> (r: Result<(), Error>)
        ensures
            match refusal(*spec, self.enforcement, self.caps) {
                None => r is Ok,
                Some(em) => r matches Err(e) && e@ == em,
            },
    {
        match spec.isolation {
            IsolationLevel::FullVm => Ok(()),
            IsolationLevel::HostProcess => {
                if !self.enforcement.allow_host_browser {
                    return Err(Error::Config(HOST_MODE_DISABLED.to_owned()));
                }
                self.caps.host_backend_for(spec.browser)
            },
        }
    }

    /// Moves a session to `next` where that is permitted. Returns the record of
    /// the move.
    pub fn transition(&mut self, id: SessionId, next: SessionState) -> (r: Result<
        AuditDraft,
        Error,
    >)
        ensures
            final(self).same_setup(*old(self)),
            may_move(old(self).sessions@, id, next) ==> {
                &&& r matches Ok(d) && d@ == state_record(
                    id,
                    old(self).sessions@[id].profile,
                    next,
                )
                &&& final(self).sessions@ == moved(old(self).sessions@, id, next)
            },
            !may_move(old(self).sessions@, id, next) ==> {
                &&& r matches Err(e) && e@ == immovable(old(self).sessions@, id, next)
                &&& final(self).sessions@ == old(self).sessions@
            },
    {
        let (profile, state) = match self.sessions.get(id) {
            Some(e) => (e.profile, e.state),
            None => {
                return Err(unknown_session_error(id));
            },
        };
        if !state.can_transition_to(next) {
            return Err(
                Error::Internal(
                    text::cat4(
                        "illegal session transition ",
                        state.debug_name(),
                        " -> ",
                        next.debug_name(),
                    ),
                ),
            );
        }
        let _ = self.sessions.change(id, Change::State(next));
        Ok(state_draft(id, profile, next))
    }

    /// A status snapshot for the given platform.
    #[must_use]
    pub fn status(&self, platform: &str) -> (r: StatusDto)
        ensures
            r.version@ == VERSION@,
            r.platform@ == platform@,
            r.isolation_level == self.enforcement.yields(),
            r.enforcement == self.enforcement,
            r.host_browser_available == self.caps.host_browser,
            r.host_browser_path == self.caps.host_browser_path,
    {
        StatusDto {
            version: VERSION.to_owned(),
            platform: platform.to_owned(),
            isolation_level: self.enforcement.isolation_level(),
            enforcement: self.enforcement,
            host_browser_available: self.caps.host_browser,
            host_browser_path: text::copy_opt(&self.caps.host_browser_path),
        }
    }

    /// A summary of every tracked session.
    #[must_use]
    pub fn list_sessions(&self) -> (r: Vec<SessionSummary>)
        ensures
            summarizes(r@, self.sessions@),
    {
        self.sessions.list()
    }

    /// The state of a session, if it is tracked.
    #[must_use]
    pub fn session_state(&self, id: SessionId) -> (r: Option<SessionState>)
        ensures
            r == if self.sessions@.contains_key(id) {
                Some(self.sessions@[id].state)
            } else {
                None
            },
    {
        match self.sessions.get(id) {
            Some(e) => Some(e.state),
            None => None,
        }
    }
}

/// Host mode is never entered unless the policy permits a host browser: where it
/// does not, a host profile is refused whatever else holds, and where it is not
/// refused, the policy permits it and the engine is there.
pub proof fn law_host_mode_is_gated(
    spec: ProfileSpec,
    enforcement: Enforcement,
    caps: Capabilities,
)
    requires
        spec.isolation == IsolationLevel::HostProcess,
    ensures
        refusal(spec, enforcement, caps) is None <==> enforcement.allow_host_browser && caps.hosts(
            spec.browser,
        ),
        refusal(spec, Enforcement::strictest(), caps) is Some,
{
}

/// Every VM that is provisioned is fully isolated and disposable.
pub proof fn law_provisioned_vms_are_valid(
    req: VmProvisionRequest,
    config: AppConfig,
    role: VmRole,
    windows: bool,
)
    requires
        is_provision_request(req, config, role, windows),
    ensures
        req.violation() is None,
        req.disk.destroy_on_close,
{
    crate::vm::law_hardened_iff_no_violation(req.isolation);
}

/// The browser in the VM is pointed at the port that the gateway's tunnel serves:
/// Tor's SOCKS port for Tor, the general one for a VPN or a proxy; always at the
/// gateway's own address, which is also the one that the gateway is given and
/// that preflight asks.
pub proof fn law_vm_browser_goes_through_the_gateway(
    req: BrowserLaunchRequest,
    session: SessionId,
    profile: Profile,
    c: GatewayConfig,
    ctx: PreflightContext,
)
    requires
        is_launch_request(
            req,
            session,
            profile,
            GUEST_PROFILE_DIR@,
            gateway_proxy(profile.spec.network.mode),
        ),
        is_gateway_config(c, profile.spec.network),
        is_preflight_context(ctx, session, profile.spec.network),
    ensures
        profile.spec.network.mode is Tor ==> req.proxy_endpoint@ == "socks5://10.152.152.1:9050"@,
        profile.spec.network.mode is Vpn ==> req.proxy_endpoint@ == "socks5://10.152.152.1:1080"@,
        profile.spec.network.mode is Proxy ==> req.proxy_endpoint@ == "socks5://10.152.152.1:1080"@,
        c.gateway_address@ == "10.152.152.1"@,
        c.downstream_cidr@ == "10.152.152.0/24"@,
        ctx.gateway_address@ == c.gateway_address@,
        req.user_data_dir@ == "/home/user/.aegis/profile"@,
{
    reveal_strlit("socks5://");
    reveal_strlit("10.152.152.1");
    reveal_strlit(":9050");
    reveal_strlit(":1080");
    reveal_strlit("socks5://10.152.152.1:9050");
    reveal_strlit("socks5://10.152.152.1:1080");
    assert("socks5://"@ + "10.152.152.1"@ + ":9050"@ =~= "socks5://10.152.152.1:9050"@);
    assert("socks5://"@ + "10.152.152.1"@ + ":1080"@ =~= "socks5://10.152.152.1:1080"@);
}

/// What the gateway is configured with, and what preflight is told, is the
/// profile's own network: its tunnel, its DNS and its IPv6 policy, under the
/// tunnel's own name.
pub proof fn law_gateway_serves_the_profile(
    c: GatewayConfig,
    ctx: PreflightContext,
    session: SessionId,
    network: NetworkConfig,
)
    requires
        is_gateway_config(c, network),
        is_preflight_context(ctx, session, network),
    ensures
        c.mode is Tor <==> network.mode is Tor,
        c.mode is Vpn <==> network.mode is Vpn,
        c.mode is Proxy <==> network.mode is Proxy,
        network.mode matches NetworkMode::Tor(t) ==> (c.mode matches NetworkMode::Tor(u)
            && u.use_bridges == t.use_bridges && u.bridges@ == t.bridges@ && u.exit_country
            == t.exit_country),
        network.mode matches NetworkMode::Vpn(t) ==> (c.mode matches NetworkMode::Vpn(u)
            && u.protocol == t.protocol && u.endpoint == t.endpoint && u.credentials_ref
            == t.credentials_ref && u.dns_servers@ == t.dns_servers@),
        network.mode matches NetworkMode::Proxy(t) ==> (c.mode matches NetworkMode::Proxy(u) && u
            == t),
        c.dns.mode == network.dns.mode,
        c.dns.servers@ == network.dns.servers@,
        c.dns.block_plain_dns == network.dns.block_plain_dns,
        c.ipv6 == network.ipv6,
        ctx.session == session,
        ctx.dns.mode == c.dns.mode,
        ctx.dns.servers@ == c.dns.servers@,
        ctx.dns.block_plain_dns == c.dns.block_plain_dns,
        ctx.ipv6 == c.ipv6,
        network.mode is Tor ==> ctx.mode_label@ == "Tor"@,
        network.mode is Vpn ==> ctx.mode_label@ == "VPN"@,
        network.mode is Proxy ==> ctx.mode_label@ == "Proxy"@,
        ctx.webrtc_policy_installed,
        ctx.host_public_ip is None,
{
}

/// A browser on the host speaks to the configured proxy in the configured
/// protocol, at the configured host and port, and it is that host and port that
/// are probed.
pub proof fn law_host_proxy_is_the_configured_one(cfg: ProxyConfig, named: Option<Seq<char>>, p: HostProxy)
    requires
        host_endpoint(NetworkMode::Proxy(cfg), named) matches Ok(endpoint) && p.reads(endpoint),
    ensures
        cfg.protocol is Socks5 <==> "socks5h://"@.is_prefix_of(p.endpoint@),
        cfg.protocol is HttpConnect <==> "http://"@.is_prefix_of(p.endpoint@),
        cfg.protocol is Socks5 ==> p.endpoint@ == "socks5h://"@ + cfg.host@ + ":"@ + text::dec(
            cfg.port as nat,
        ),
        cfg.protocol is HttpConnect ==> p.endpoint@ == "http://"@ + cfg.host@ + ":"@ + text::dec(
            cfg.port as nat,
        ),
        !text::mentions(cfg.host@, "://"@) ==> p.probe_host@ == cfg.host@ && p.probe_port
            == cfg.port,
{
    reveal_strlit("socks5h");
    reveal_strlit("http");
    reveal_strlit("://");
    reveal_strlit("socks5h://");
    reveal_strlit("http://");
    assert("socks5h"@ + "://"@ =~= "socks5h://"@);
    assert("http"@ + "://"@ =~= "http://"@);
    let tail = cfg.host@ + ":"@ + text::dec(cfg.port as nat);
    let scheme = if cfg.protocol is Socks5 {
        "socks5h"@
    } else {
        "http"@
    };
    assert(p.endpoint@ =~= scheme + "://"@ + tail);
    assert("socks5h://"@ + cfg.host@ + ":"@ + text::dec(cfg.port as nat) =~= "socks5h://"@ + tail);
    assert("http://"@ + cfg.host@ + ":"@ + text::dec(cfg.port as nat) =~= "http://"@ + tail);
    if cfg.protocol is Socks5 {
        assert(p.endpoint@ =~= "socks5h://"@ + tail);
        assert(p.endpoint@.subrange(0, 10) =~= "socks5h://"@);
        assert(p.endpoint@[0] == 's');
        assert("http://"@[0] == 'h');
        if "http://"@.is_prefix_of(p.endpoint@) {
            assert(p.endpoint@.subrange(0, 7)[0] == p.endpoint@[0]);
        }
    } else {
        assert(p.endpoint@ =~= "http://"@ + tail);
        assert(p.endpoint@.subrange(0, 7) =~= "http://"@);
        assert(p.endpoint@[0] == 'h');
        if "socks5h://"@.is_prefix_of(p.endpoint@) {
            assert(p.endpoint@.subrange(0, 10)[0] == p.endpoint@[0]);
        }
    }
    if !text::mentions(cfg.host@, "://"@) {
        text::lemma_authority(scheme, cfg.host@, cfg.port as nat);
    }
}

/// Where the profile asks for Tor, a browser on the host goes through the proxy
/// that the environment names, exactly as named, and through the local Tor where
/// it names none; and it cannot go through a VPN at all.
pub proof fn law_host_tor_is_local_unless_named(mode: NetworkMode, named: Option<Seq<char>>)
    ensures
        mode is Tor && (named matches Some(s) && !text::is_blank(s)) ==> host_endpoint(mode, named)
            == Ok::<Seq<char>, ErrorModel>(named->0),
        mode is Tor && (named is None || text::is_blank(named->0)) ==> host_endpoint(mode, named)
            == Ok::<Seq<char>, ErrorModel>("socks5h://127.0.0.1:9050"@),
        mode is Tor ==> proxy_authority("socks5h://127.0.0.1:9050"@) == Ok::<
            (Seq<char>, nat),
            Seq<char>,
        >(("127.0.0.1"@, 9050)),
        mode is Vpn ==> (host_endpoint(mode, named) matches Err(e) && e.kind is Unsupported),
{
    reveal_strlit("socks5h://127.0.0.1:9050");
    reveal_strlit("socks5h");
    reveal_strlit("://");
    reveal_strlit(":");
    reveal_strlit("127.0.0.1");
    assert forall|j: int| !#[trigger] text::stands_at("127.0.0.1"@, "://"@, j) by {
        if text::stands_at("127.0.0.1"@, "://"@, j) {
            assert("127.0.0.1"@.subrange(j, j + 3)[0] == "127.0.0.1"@[j]);
        }
    }
    text::lemma_authority("socks5h"@, "127.0.0.1"@, 9050);
    reveal_with_fuel(text::dec, 5);
    assert("socks5h://127.0.0.1:9050"@ =~= "socks5h"@ + "://"@ + ("127.0.0.1"@ + ":"@ + text::dec(9050)));
}

/// Every launch is a launch of the session's profile: it carries the fingerprint
/// that the profile sets, or else the one that its level implies, and the
/// profile's permissions at every origin; it is a production launch that renders
/// in software.
pub proof fn law_launches_carry_the_profile(
    req: BrowserLaunchRequest,
    session: SessionId,
    profile: Profile,
    dir: Seq<char>,
    proxy: Seq<char>,
    origin: Seq<char>,
    feature: Feature,
)
    requires
        is_launch_request(req, session, profile, dir, proxy),
    ensures
        req.session == session,
        req.profile == profile.id,
        req.user_data_dir@ == dir,
        req.proxy_endpoint@ == proxy,
        profile.spec.fingerprint matches Some(q) ==> req.fingerprint == q,
        profile.spec.fingerprint is None ==> req.fingerprint.level == profile.spec.protection
            && req.fingerprint.implied_by(profile.spec.protection),
        req.permissions.in_effect(origin, feature) == profile.spec.permissions.in_effect(
            origin,
            feature,
        ),
        req.production,
        req.render_mode is Software,
{
    assert(req.permissions.at_origin(origin) == profile.spec.permissions.at_origin(origin));
}

/// A VM is provisioned by its role: the gateway small and from the gateway's
/// image, the browser larger and from the browser's; on a disposable overlay under
/// the runtime directory that is named after its instance, over a read-only root,
/// with no guarantee of its isolation given up, on the installation's own network.
pub proof fn law_vms_are_provisioned_by_role(
    req: VmProvisionRequest,
    config: AppConfig,
    role: VmRole,
    windows: bool,
)
    requires
        is_provision_request(req, config, role, windows),
    ensures
        req.role == role,
        role is Gateway ==> req.resources.vcpus == 1 && req.resources.memory_mib == 512,
        role is Browser ==> req.resources.vcpus == 2 && req.resources.memory_mib == 4096,
        role is Gateway ==> (config.images matches Some(images) ==> req.disk.backing_image@
            == images.gateway.path@),
        role is Browser ==> (config.images matches Some(images) ==> req.disk.backing_image@
            == images.browser.path@),
        config.images is None && role is Gateway ==> req.disk.backing_image@ == text::path_join(
            config.paths.images_dir@,
            "gateway-base.qcow2"@,
            windows,
        ),
        config.images is None && role is Browser ==> req.disk.backing_image@ == text::path_join(
            config.paths.images_dir@,
            "browser-base.qcow2"@,
            windows,
        ),
        req.disk.overlay_path@ == text::path_join(
            config.paths.runtime_dir@,
            "inst-"@ + simple_text(req.instance_id.value).subrange(0, 8) + "-overlay.qcow2"@,
            windows,
        ),
        req.disk.destroy_on_close,
        req.disk.read_only_root,
        req.gpu is VirtioGpu,
        req.isolated_network@ == config.network_prefix@ + "-net"@,
        req.isolation.no_shared_clipboard && req.isolation.no_drag_and_drop
            && req.isolation.no_shared_folders && req.isolation.no_host_disk_automount
            && req.isolation.no_usb_passthrough && req.isolation.no_pci_passthrough
            && req.isolation.no_camera_microphone && req.isolation.no_host_ssh_agent
            && req.isolation.no_desktop_integration_tools && req.isolation.read_only_root
            && req.isolation.random_instance_id && req.isolation.fresh_network_device,
{
    reveal_strlit("inst");
    reveal_strlit("-");
    reveal_strlit("inst-");
    assert("inst"@ + "-"@ =~= "inst-"@);
}

/// A profile's directory on the host lies under the runtime directory and is named
/// after the profile.
pub proof fn law_host_profiles_lie_apart(runtime_dir: Seq<char>, profile: ProfileId, windows: bool)
    ensures
        host_profile_dir(runtime_dir, profile, windows).skip(
            host_profile_dir(runtime_dir, profile, windows).len() - profile.shown().len(),
        ) == profile.shown(),
        runtime_dir.is_prefix_of(host_profile_dir(runtime_dir, profile, windows)),
        !windows && runtime_dir.len() > 0 && runtime_dir.last() != '/' ==> host_profile_dir(
            runtime_dir,
            profile,
            windows,
        ) == runtime_dir + "/host-profiles/"@ + profile.shown(),
        windows && runtime_dir.len() > 2 && runtime_dir.last() != '/' && runtime_dir.last() != '\\'
            ==> host_profile_dir(runtime_dir, profile, windows) == runtime_dir
            + "\\host-profiles\\"@ + profile.shown(),
{
    reveal_strlit("host-profiles");
    reveal_strlit("/host-profiles/");
    reveal_strlit("\\host-profiles\\");
    let dir = host_profile_dir(runtime_dir, profile, windows);
    let base = text::path_join(runtime_dir, "host-profiles"@, windows);
    assert(base.last() == 's');
    assert(base.len() > 2);
    assert(dir.skip(dir.len() - profile.shown().len()) =~= profile.shown());
    assert(dir.subrange(0, runtime_dir.len() as int) =~= runtime_dir);
    if !windows && runtime_dir.len() > 0 && runtime_dir.last() != '/' {
        assert(dir =~= runtime_dir + "/host-profiles/"@ + profile.shown());
    }
    if windows && runtime_dir.len() > 2 && runtime_dir.last() != '/' && runtime_dir.last() != '\\' {
        assert(dir =~= runtime_dir + "\\host-profiles\\"@ + profile.shown());
    }
}

/// A refusal for want of a browser names the engine that is missing, and only
/// that one.
pub proof fn law_missing_browsers_are_named(engine: BrowserBackendId)
    ensures
        no_host_browser(engine).kind is Config,
        engine is Chromium ==> text::mentions(no_host_browser(engine).message, "Chromium engine"@)
            && text::mentions(no_host_browser(engine).message, "AEGIS_BROWSER_BIN"@),
        engine is Firefox ==> text::mentions(no_host_browser(engine).message, "Firefox engine"@)
            && text::mentions(no_host_browser(engine).message, "AEGIS_FIREFOX_BIN"@),
{
    reveal_strlit("this profile requests the Chromium engine in host mode, but no host Chromium/Edge browser was located; install Chrome/Chromium/Edge or set AEGIS_BROWSER_BIN");
    reveal_strlit("this profile requests the Firefox engine in host mode, but no host Firefox / Tor Browser was located; install Firefox / the Tor Browser bundle or set AEGIS_FIREFOX_BIN");
    reveal_strlit("Chromium engine");
    reveal_strlit("Firefox engine");
    reveal_strlit("AEGIS_BROWSER_BIN");
    reveal_strlit("AEGIS_FIREFOX_BIN");
    assert(text::stands_at(NO_HOST_CHROMIUM@, "Chromium engine"@, 26)) by {
        assert(NO_HOST_CHROMIUM@.subrange(26, 41) =~= "Chromium engine"@);
    }
    assert(text::stands_at(NO_HOST_CHROMIUM@, "AEGIS_BROWSER_BIN"@, 139)) by {
        assert(NO_HOST_CHROMIUM@.subrange(139, 156) =~= "AEGIS_BROWSER_BIN"@);
    }
    assert(text::stands_at(NO_HOST_FIREFOX@, "Firefox engine"@, 26)) by {
        assert(NO_HOST_FIREFOX@.subrange(26, 40) =~= "Firefox engine"@);
    }
    assert(text::stands_at(NO_HOST_FIREFOX@, "AEGIS_FIREFOX_BIN"@, 150)) by {
        assert(NO_HOST_FIREFOX@.subrange(150, 167) =~= "AEGIS_FIREFOX_BIN"@);
    }
}

} // verus!
