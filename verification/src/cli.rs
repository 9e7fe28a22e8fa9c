//! The command line: its arguments, and the requests that they become.

use crate::browser::BrowserBackendId;
use crate::config::{Enforcement, IsolationLevel};
use crate::error::{Error, ErrorKind, ErrorModel};
use crate::fingerprint::ProtectionLevel;
use crate::ids::{uuid_parsed, ProfileId, SessionId};
use crate::network::{
    CredentialRef, NetworkConfig, NetworkMode, ProxyConfig, ProxyProtocol, TorConfig, VpnConfig,
    VpnProtocol,
};
use crate::permissions::PermissionPolicy;
use crate::profile::{ProfileSpec, ProfileType};
use crate::protocol::Request;
use crate::session::SessionRequest;
use crate::text;
use crate::update::{installed_version, VersionInfo};
use vstd::prelude::*;

verus! {

/// A parsed command line.
#[derive(Debug)]
pub struct Cli {
    /// Options for every command.
    pub global: GlobalArgs,
    /// The command.
    pub command: Command,
}

/// Options that apply to every command.
#[derive(Debug, PartialEq, Eq)]
pub struct GlobalArgs {
    /// The daemon's control socket.
    pub socket: Option<String>,
    /// The loopback endpoint of the development transport.
    pub endpoint: Option<String>,
    /// The token file of the development transport.
    pub token_file: Option<String>,
    /// Whether JSON is printed.
    pub json: bool,
    /// How often `-v` was given.
    pub verbose: u8,
}

impl Default for GlobalArgs {
    fn default() -> (r: GlobalArgs)
        ensures
            r.socket is None,
            r.endpoint is None,
            r.token_file is None,
            !r.json,
            r.verbose == 0,
    {
        GlobalArgs { socket: None, endpoint: None, token_file: None, json: false, verbose: 0 }
    }
}

/// The commands.
#[derive(Debug)]
pub enum Command {
    /// Profiles.
    Profile(ProfileCommand),
    /// Sessions.
    Session(SessionCommand),
    /// The diagnostics of a session.
    Diagnostics {
        /// The session id.
        session: String,
    },
    /// The daemon's status.
    Status,
    /// The configuration.
    Config(ConfigCommand),
    /// The self-test.
    Doctor,
    /// Updates.
    Update(UpdateCommand),
}

/// `config`
#[derive(Debug)]
pub enum ConfigCommand {
    /// Show or change the containment policy.
    Enforcement(EnforcementArgs),
}

/// An on/off switch.
#[derive(Debug, Clone, Copy, PartialEq, Eq, Structural)]
pub enum Toggle {
    /// On.
    On,
    /// Off.
    Off,
}

impl Toggle {
    /// Whether this is `on`.
    #[must_use]
    pub fn is_on(self) -> (r: bool)
        ensures
            r == (self == Toggle::On),
    {
        matches!(self, Toggle::On)
    }
}

/// The switches of `config enforcement`; what is not given stays.
#[derive(Debug, Clone, Copy, PartialEq, Eq, Structural)]
pub struct EnforcementArgs {
    /// Require VM isolation.
    pub vm_isolation: Option<Toggle>,
    /// Require a gateway VM.
    pub gateway: Option<Toggle>,
    /// Permit a host browser.
    pub host_browser: Option<Toggle>,
}

impl Default for EnforcementArgs {
    fn default() -> (r: EnforcementArgs)
        ensures
            r.vm_isolation is None,
            r.gateway is None,
            r.host_browser is None,
    {
        EnforcementArgs { vm_isolation: None, gateway: None, host_browser: None }
    }
}

/// A switch applied to a value.
pub open spec fn switched(value: bool, t: Option<Toggle>) -> bool {
    match t {
        Some(x) => x == Toggle::On,
        None => value,
    }
}

fn switch(value: bool, t: Option<Toggle>) -> (r: bool)
    ensures
        r == switched(value, t),
{
    match t {
        Some(x) => x.is_on(),
        None => value,
    }
}

impl EnforcementArgs {
    /// Whether nothing is to be changed.
    pub open spec fn none(self) -> bool {
        self.vm_isolation is None && self.gateway is None && self.host_browser is None
    }

    /// The policy with the switches applied.
    pub open spec fn applied(self, current: Enforcement) -> Enforcement {
        Enforcement {
            require_vm_isolation: switched(current.require_vm_isolation, self.vm_isolation),
            require_gateway: switched(current.require_gateway, self.gateway),
            allow_host_browser: switched(current.allow_host_browser, self.host_browser),
        }
    }

    /// Whether nothing is to be changed.
    #[must_use]
    pub fn is_empty(&self) -> (r: bool)
        ensures
            r == self.none(),
    {
        self.vm_isolation.is_none() && self.gateway.is_none() && self.host_browser.is_none()
    }

    /// Applies the switches that were given.
    #[must_use]
    pub fn apply(&self, current: Enforcement) -> (r: Enforcement)
        ensures
            r == self.applied(current),
    {
        Enforcement {
            require_vm_isolation: switch(current.require_vm_isolation, self.vm_isolation),
            require_gateway: switch(current.require_gateway, self.gateway),
            allow_host_browser: switch(current.allow_host_browser, self.host_browser),
        }
    }
}

/// A partial change touches only what was named: no switches change nothing, and
/// applying the same switches again changes nothing more.
pub proof fn law_switches_touch_only_what_they_name(args: EnforcementArgs, current: Enforcement)
    ensures
        args.none() ==> args.applied(current) == current,
        args.applied(args.applied(current)) == args.applied(current),
        args.gateway is None ==> args.applied(current).require_gateway == current.require_gateway,
{
}

/// `profile`
#[derive(Debug)]
pub enum ProfileCommand {
    /// Create a profile.
    Create(ProfileCreateArgs),
    /// List the profiles.
    List,
    /// Show a profile.
    Show {
        /// The profile id.
        id: String,
    },
    /// Remove a profile.
    Rm {
        /// The profile id.
        id: String,
    },
}

/// The arguments of `profile create`.
#[derive(Debug, PartialEq, Eq)]
pub struct ProfileCreateArgs {
    /// The name.
    pub name: String,
    /// Whether the profile survives its session.
    pub kind: ProfileKindArg,
    /// The tunnel.
    pub net: NetArg,
    /// The protection level.
    pub protection: ProtectionArg,
    /// Where the profile runs.
    pub isolation: IsolationArg,
    /// The engine.
    pub browser: BrowserArg,
    /// The proxy protocol.
    pub proxy_kind: ProxyKindArg,
    /// The proxy host.
    pub proxy_host: Option<String>,
    /// The proxy port.
    pub proxy_port: Option<u16>,
    /// Tor bridge lines.
    pub tor_bridge: Vec<String>,
}

/// `session`
#[derive(Debug)]
pub enum SessionCommand {
    /// Start a session.
    Start {
        /// The profile id.
        profile: String,
    },
    /// Stop a session.
    Stop {
        /// The session id.
        id: String,
    },
    /// List the sessions.
    List,
}

/// `update`
#[derive(Debug, Clone, Copy, PartialEq, Eq, Structural)]
pub enum UpdateCommand {
    /// Look for an update.
    Check,
    /// Apply the newest update.
    Apply,
}

/// The choices of `--kind`.
#[derive(Debug, Clone, Copy, PartialEq, Eq, Structural)]
pub enum ProfileKindArg {
    /// Destroyed at session end.
    Ephemeral,
    /// Stored.
    Persistent,
}

impl ProfileKindArg {
    /// The profile type meant.
    pub open spec fn domain(self) -> ProfileType {
        match self {
            ProfileKindArg::Ephemeral => ProfileType::Ephemeral,
            ProfileKindArg::Persistent => ProfileType::Persistent,
        }
    }

    /// The profile type meant.
    #[must_use]
    pub fn to_domain(self) -> (r: ProfileType)
        ensures
            r == self.domain(),
    {
        match self {
            ProfileKindArg::Ephemeral => ProfileType::Ephemeral,
            ProfileKindArg::Persistent => ProfileType::Persistent,
        }
    }
}

/// The choices of `--net`.
#[derive(Debug, Clone, Copy, PartialEq, Eq, Structural)]
pub enum NetArg {
    /// Tor.
    Tor,
    /// A VPN.
    Vpn,
    /// A proxy.
    Proxy,
}

/// The choices of `--isolation`.
#[derive(Debug, Clone, Copy, PartialEq, Eq, Structural)]
pub enum IsolationArg {
    /// In a VM.
    Vm,
    /// On the host.
    Host,
}

impl IsolationArg {
    /// The isolation level meant.
    pub open spec fn domain(self) -> IsolationLevel {
        match self {
            IsolationArg::Vm => IsolationLevel::FullVm,
            IsolationArg::Host => IsolationLevel::HostProcess,
        }
    }

    /// The isolation level meant.
    #[must_use]
    pub fn to_domain(self) -> (r: IsolationLevel)
        ensures
            r == self.domain(),
    {
        match self {
            IsolationArg::Vm => IsolationLevel::FullVm,
            IsolationArg::Host => IsolationLevel::HostProcess,
        }
    }
}

/// The choices of `--browser`.
#[derive(Debug, Clone, Copy, PartialEq, Eq, Structural)]
pub enum BrowserArg {
    /// Chromium.
    Chromium,
    /// Firefox.
    Firefox,
}

impl BrowserArg {
    /// The engine meant.
    pub open spec fn domain(self) -> BrowserBackendId {
        match self {
            BrowserArg::Chromium => BrowserBackendId::Chromium,
            BrowserArg::Firefox => BrowserBackendId::Firefox,
        }
    }

    /// The engine meant.
    #[must_use]
    pub fn to_domain(self) -> (r: BrowserBackendId)
        ensures
            r == self.domain(),
    {
        match self {
            BrowserArg::Chromium => BrowserBackendId::Chromium,
            BrowserArg::Firefox => BrowserBackendId::Firefox,
        }
    }
}

/// The choices of `--proxy-kind`.
#[derive(Debug, Clone, Copy, PartialEq, Eq, Structural)]
pub enum ProxyKindArg {
    /// SOCKS5.
    Socks5,
    /// HTTP CONNECT.
    Http,
}

impl ProxyKindArg {
    /// The protocol meant.
    pub open spec fn domain(self) -> ProxyProtocol {
        match self {
            ProxyKindArg::Socks5 => ProxyProtocol::Socks5,
            ProxyKindArg::Http => ProxyProtocol::HttpConnect,
        }
    }

    /// The protocol meant.
    #[must_use]
    pub fn to_domain(self) -> (r: ProxyProtocol)
        ensures
            r == self.domain(),
    {
        match self {
            ProxyKindArg::Socks5 => ProxyProtocol::Socks5,
            ProxyKindArg::Http => ProxyProtocol::HttpConnect,
        }
    }
}

/// The choices of `--protection`.
#[derive(Debug, Clone, Copy, PartialEq, Eq, Structural)]
pub enum ProtectionArg {
    /// Most sites work.
    Balanced,
    /// More privacy.
    Strict,
}

impl ProtectionArg {
    /// The level meant.
    pub open spec fn domain(self) -> ProtectionLevel {
        match self {
            ProtectionArg::Balanced => ProtectionLevel::Balanced,
            ProtectionArg::Strict => ProtectionLevel::Strict,
        }
    }

    /// The level meant.
    #[must_use]
    pub fn to_domain(self) -> (r: ProtectionLevel)
        ensures
            r == self.domain(),
    {
        match self {
            ProtectionArg::Balanced => ProtectionLevel::Balanced,
            ProtectionArg::Strict => ProtectionLevel::Strict,
        }
    }
}

/// The default logging level for a number of `-v`.
#[must_use]
pub fn log_level(verbose: u8) -> (r: &'static str)
    ensures
        r@ == if verbose == 0 {
            "warn"@
        } else if verbose == 1 {
            "info"@
        } else {
            "debug"@
        },
{
    if verbose == 0 {
        "warn"
    } else if verbose == 1 {
        "info"
    } else {
        "debug"
    }
}

/// The reason given where a VPN is asked for on the host.
pub const NO_VPN_ON_HOST: &'static str =
    "host mode supports Tor or a SOCKS5/HTTP proxy, not a VPN \u{2014} use full VM isolation (--isolation vm) for a VPN";

/// The reason given where a proxy is asked for without host and port.
pub const PROXY_NEEDS_HOST_AND_PORT: &'static str =
    "--net proxy requires --proxy-host <H> and --proxy-port <P>";

/// Why no profile can be made of the arguments, if there is a reason.
pub open spec fn spec_complaint(args: ProfileCreateArgs) -> Option<Seq<char>> {
    if args.isolation == IsolationArg::Host && args.net == NetArg::Vpn {
        Some(NO_VPN_ON_HOST@)
    } else if args.net == NetArg::Proxy && (args.proxy_host is None || text::is_blank(
        args.proxy_host->0@,
    ) || args.proxy_port is None) {
        Some(PROXY_NEEDS_HOST_AND_PORT@)
    } else {
        None
    }
}

/// Whether `mode` is the tunnel that the arguments ask for.
pub open spec fn is_asked_mode(mode: NetworkMode, args: ProfileCreateArgs) -> bool {
    match args.net {
        NetArg::Tor => mode matches NetworkMode::Tor(c) && {
            &&& c.use_bridges == (args.tor_bridge@.len() > 0)
            &&& c.bridges@ == args.tor_bridge@
            &&& c.exit_country is None
        },
        NetArg::Vpn => mode matches NetworkMode::Vpn(c) && {
            &&& c.protocol == VpnProtocol::WireGuard
            &&& c.endpoint@.len() == 0
            &&& c.credentials_ref.0@.len() == 0
            &&& c.dns_servers@.len() == 0
        },
        NetArg::Proxy => mode matches NetworkMode::Proxy(c) && {
            &&& c.protocol == args.proxy_kind.domain()
            &&& Some(c.host) == args.proxy_host
            &&& Some(c.port) == args.proxy_port
            &&& c.credentials_ref is None
            &&& c.remote_dns
        },
    }
}

/// Whether `spec` is the profile that the arguments ask for.
pub open spec fn is_asked_spec(spec: ProfileSpec, args: ProfileCreateArgs) -> bool {
    &&& spec.name == args.name
    &&& spec.kind == args.kind.domain()
    &&& is_asked_mode(spec.network.mode, args)
    &&& spec.network.derived()
    &&& spec.protection == args.protection.domain()
    &&& spec.isolation == args.isolation.domain()
    &&& spec.browser == args.browser.domain()
    &&& spec.fingerprint is None
    &&& spec.permissions.is_secure_default()
}

/// Builds the profile that the arguments ask for. A proxy needs host and port,
/// and on the host there is no VPN.
pub fn build_spec(args: &ProfileCreateArgs) -> (r: Result<ProfileSpec, Error>)
    ensures
        match spec_complaint(*args) {
            None => r matches Ok(s) && is_asked_spec(s, *args),
            Some(why) => r matches Err(e) && e@ == ErrorModel::of(ErrorKind::Config, why),
        },
{
    if args.isolation == IsolationArg::Host && args.net == NetArg::Vpn {
        return Err(Error::Config(NO_VPN_ON_HOST.to_owned()));
    }
    let mode = match args.net {
        NetArg::Tor => {
            let bridges = text::copy_all(&args.tor_bridge);
            NetworkMode::Tor(
                TorConfig { use_bridges: bridges.len() > 0, bridges, exit_country: None },
            )
        },
        NetArg::Vpn => NetworkMode::Vpn(
            VpnConfig {
                protocol: VpnProtocol::WireGuard,
                endpoint: String::new(),
                credentials_ref: CredentialRef::new(String::new()),
                dns_servers: Vec::new(),
            },
        ),
        NetArg::Proxy => {
            let host = match &args.proxy_host {
                Some(h) => if text::blank(h.as_str()) {
                    return Err(Error::Config(PROXY_NEEDS_HOST_AND_PORT.to_owned()));
                } else {
                    h.clone()
                },
                None => {
                    return Err(Error::Config(PROXY_NEEDS_HOST_AND_PORT.to_owned()));
                },
            };
            let port = match args.proxy_port {
                Some(p) => p,
                None => {
                    return Err(Error::Config(PROXY_NEEDS_HOST_AND_PORT.to_owned()));
                },
            };
            NetworkMode::Proxy(
                ProxyConfig {
                    protocol: args.proxy_kind.to_domain(),
                    host,
                    port,
                    credentials_ref: None,
                    remote_dns: true,
                },
            )
        },
    };
    Ok(
        ProfileSpec {
            name: args.name.clone(),
            kind: args.kind.to_domain(),
            network: NetworkConfig::from_mode(mode),
            protection: args.protection.to_domain(),
            isolation: args.isolation.to_domain(),
            browser: args.browser.to_domain(),
            fingerprint: None,
            permissions: PermissionPolicy::secure_default(),
        },
    )
}

/// The version that update checks present: the installed one.
#[must_use]
pub fn current_version_info() -> (r: VersionInfo)
    ensures
        r.current == installed_version(),
{
    VersionInfo::installed()
}

/// The error where a text is not an id of the given kind.
pub open spec fn bad_id(kind: Seq<char>, s: Seq<char>) -> ErrorModel {
    ErrorModel::of(ErrorKind::Config, "not a valid "@ + kind + " id: "@ + s)
}

/// Reads a profile id.
pub fn parse_profile_id(s: &str) -> (r: Result<ProfileId, Error>)
    ensures
        match uuid_parsed(s@) {
            Ok(v) => r == Ok::<ProfileId, Error>(ProfileId { value: v }),
            Err(_) => r matches Err(e) && e@ == bad_id("profile"@, s@),
        },
{
    match ProfileId::parse(s) {
        Ok(id) => Ok(id),
        Err(_) => Err(Error::Config(text::cat4("not a valid ", "profile", " id: ", s))),
    }
}

/// Reads a session id.
pub fn parse_session_id(s: &str) -> (r: Result<SessionId, Error>)
    ensures
        match uuid_parsed(s@) {
            Ok(v) => r == Ok::<SessionId, Error>(SessionId { value: v }),
            Err(_) => r matches Err(e) && e@ == bad_id("session"@, s@),
        },
{
    match SessionId::parse(s) {
        Ok(id) => Ok(id),
        Err(_) => Err(Error::Config(text::cat4("not a valid ", "session", " id: ", s))),
    }
}

/// Whether `r` is the request that a command becomes.
pub open spec fn requested(command: Command, r: Result<Request, Error>) -> bool {
    match command {
        Command::Profile(ProfileCommand::Create(args)) => match spec_complaint(args) {
            None => r matches Ok(Request::CreateProfile(s)) && is_asked_spec(s, args),
            Some(why) => r matches Err(e) && e@ == ErrorModel::of(ErrorKind::Config, why),
        },
        Command::Profile(ProfileCommand::List) => r matches Ok(q) && q is ListProfiles,
        Command::Profile(ProfileCommand::Show { .. }) => r matches Ok(q) && q is ListProfiles,
        Command::Profile(ProfileCommand::Rm { id }) => match uuid_parsed(id@) {
            Ok(value) => r matches Ok(q) && q == Request::DeleteProfile(ProfileId { value }),
            Err(_) => r matches Err(e) && e@ == bad_id("profile"@, id@),
        },
        Command::Session(SessionCommand::Start { profile }) => match uuid_parsed(profile@) {
            Ok(value) => r matches Ok(Request::StartSession(q)) && q.profile == (ProfileId {
                value,
            }) && q.unlock_ref is None,
            Err(_) => r matches Err(e) && e@ == bad_id("profile"@, profile@),
        },
        Command::Session(SessionCommand::Stop { id }) => match uuid_parsed(id@) {
            Ok(value) => r matches Ok(q) && q == Request::StopSession(SessionId { value }),
            Err(_) => r matches Err(e) && e@ == bad_id("session"@, id@),
        },
        Command::Session(SessionCommand::List) => r matches Ok(q) && q is ListSessions,
        Command::Diagnostics { session } => match uuid_parsed(session@) {
            Ok(value) => r matches Ok(q) && q == Request::GetDiagnostics(SessionId { value }),
            Err(_) => r matches Err(e) && e@ == bad_id("session"@, session@),
        },
        Command::Status => r matches Ok(q) && q is GetStatus,
        Command::Config(ConfigCommand::Enforcement(_)) => r matches Ok(q) && q is GetEnforcement,
        Command::Doctor => r matches Ok(q) && q is Doctor,
        Command::Update(UpdateCommand::Check) => r matches Ok(Request::CheckUpdate(info))
            && info.current == installed_version(),
        Command::Update(UpdateCommand::Apply) => r matches Err(e) && e@ == ErrorModel::of(
            ErrorKind::Internal,
            "update apply is dispatched via its own path"@,
        ),
    }
}

/// The request that a command becomes. `update apply` takes two requests and has
/// none of its own.
pub fn build_request(command: &Command) -> (r: Result<Request, Error>)
    ensures
        requested(*command, r),
{
    match command {
        Command::Profile(ProfileCommand::Create(args)) => match build_spec(args) {
            Ok(s) => Ok(Request::CreateProfile(s)),
            Err(e) => Err(e),
        },
        Command::Profile(ProfileCommand::List) => Ok(Request::ListProfiles),
        Command::Profile(ProfileCommand::Show { .. }) => Ok(Request::ListProfiles),
        Command::Profile(ProfileCommand::Rm { id }) => match parse_profile_id(id.as_str()) {
            Ok(p) => Ok(Request::DeleteProfile(p)),
            Err(e) => Err(e),
        },
        Command::Session(SessionCommand::Start { profile }) => match parse_profile_id(
            profile.as_str(),
        ) {
            Ok(p) => Ok(Request::StartSession(SessionRequest { profile: p, unlock_ref: None })),
            Err(e) => Err(e),
        },
        Command::Session(SessionCommand::Stop { id }) => match parse_session_id(id.as_str()) {
            Ok(s) => Ok(Request::StopSession(s)),
            Err(e) => Err(e),
        },
        Command::Session(SessionCommand::List) => Ok(Request::ListSessions),
        Command::Diagnostics { session } => match parse_session_id(session.as_str()) {
            Ok(s) => Ok(Request::GetDiagnostics(s)),
            Err(e) => Err(e),
        },
        Command::Status => Ok(Request::GetStatus),
        Command::Config(ConfigCommand::Enforcement(_)) => Ok(Request::GetEnforcement),
        Command::Doctor => Ok(Request::Doctor),
        Command::Update(UpdateCommand::Check) => Ok(Request::CheckUpdate(current_version_info())),
        Command::Update(UpdateCommand::Apply) => Err(
            Error::Internal("update apply is dispatched via its own path".to_owned()),
        ),
    }
}

/// The directory under which socket and token lie unless others are named, on
/// Unix.
pub const RUNTIME_DIR: &'static str = "/run/aegis";

/// The directory under which socket and token lie unless others are named. A host
/// other than Unix hands over its directory for temporary files.
pub open spec fn runtime_dir(temp_dir: Option<Seq<char>>) -> Seq<char> {
    match temp_dir {
        None => RUNTIME_DIR@,
        Some(dir) => text::path_join(dir, "aegis"@, true),
    }
}

/// The directory under which socket and token lie unless others are named.
#[must_use]
pub fn default_runtime_dir(temp_dir: Option<&str>) -> (r: String)
    ensures
        r@ == runtime_dir(
            match temp_dir {
                Some(dir) => Some(dir@),
                None => None,
            },
        ),
{
    match temp_dir {
        None => RUNTIME_DIR.to_owned(),
        Some(dir) => text::join_path(dir, "aegis", true),
    }
}

/// The path of the control socket on Unix.
#[must_use]
pub fn socket_path(args: &GlobalArgs) -> (r: String)
    ensures
        r@ == match args.socket {
            Some(p) => p@,
            None => text::path_join(RUNTIME_DIR@, "daemon.sock"@, false),
        },
{
    match &args.socket {
        Some(p) => p.clone(),
        None => text::join_path(default_runtime_dir(None).as_str(), "daemon.sock", false),
    }
}

/// The path of the token file, which the transport of other hosts needs, given
/// the directory for temporary files.
#[must_use]
pub fn token_path(args: &GlobalArgs, temp_dir: &str) -> (r: String)
    ensures
        r@ == match args.token_file {
            Some(p) => p@,
            None => text::path_join(runtime_dir(Some(temp_dir@)), "ipc.token"@, true),
        },
{
    match &args.token_file {
        Some(p) => p.clone(),
        None => text::join_path(default_runtime_dir(Some(temp_dir)).as_str(), "ipc.token", true),
    }
}

/// A profile is created as it was asked for: of the asked kind, network, isolation,
/// engine and protection, under the asked name, with the default permissions and no
/// fingerprint of its own; a proxy in the asked protocol at the asked host and port,
/// with DNS at its far end; Tor with exactly the given bridges.
pub proof fn law_profiles_are_created_as_asked(spec: ProfileSpec, args: ProfileCreateArgs)
    requires
        is_asked_spec(spec, args),
    ensures
        spec.name == args.name,
        spec.kind is Ephemeral <==> args.kind is Ephemeral,
        spec.kind is Persistent <==> args.kind is Persistent,
        spec.isolation is FullVm <==> args.isolation is Vm,
        spec.isolation is HostProcess <==> args.isolation is Host,
        spec.browser is Chromium <==> args.browser is Chromium,
        spec.browser is Firefox <==> args.browser is Firefox,
        spec.protection is Balanced <==> args.protection is Balanced,
        spec.protection is Strict <==> args.protection is Strict,
        spec.network.mode is Tor <==> args.net is Tor,
        spec.network.mode is Vpn <==> args.net is Vpn,
        spec.network.mode is Proxy <==> args.net is Proxy,
        spec.network.mode matches NetworkMode::Proxy(c) ==> {
            &&& c.protocol is Socks5 <==> args.proxy_kind is Socks5
            &&& c.protocol is HttpConnect <==> args.proxy_kind is Http
            &&& args.proxy_host == Some(c.host)
            &&& args.proxy_port == Some(c.port)
            &&& c.remote_dns
            &&& c.credentials_ref is None
        },
        spec.network.mode matches NetworkMode::Tor(c) ==> c.bridges@ == args.tor_bridge@ && (
        c.use_bridges <==> args.tor_bridge@.len() > 0) && c.exit_country is None,
        spec.network.dns.block_plain_dns,
        spec.network.ipv6 is Block,
        spec.fingerprint is None,
        spec.permissions.is_secure_default(),
{
}

/// A profile is refused exactly where it asks for a VPN on the host, or for a proxy
/// without saying which.
pub proof fn law_impossible_profiles_are_refused(args: ProfileCreateArgs)
    ensures
        spec_complaint(args) is Some <==> {
            ||| args.isolation is Host && args.net is Vpn
            ||| args.net is Proxy && (args.proxy_host is None || args.proxy_port is None
                || text::is_blank(args.proxy_host->0@))
        },
{
}

/// Every command asks the daemon for its own operation.
pub proof fn law_commands_ask_for_their_operation(command: Command, q: Request)
    requires
        requested(command, Ok(q)),
    ensures
        command matches Command::Profile(ProfileCommand::Create(_)) ==> q.op() == "create-profile"@,
        command matches Command::Profile(ProfileCommand::List) ==> q.op() == "list-profiles"@,
        command matches Command::Profile(ProfileCommand::Show { .. }) ==> q.op()
            == "list-profiles"@,
        command matches Command::Profile(ProfileCommand::Rm { .. }) ==> q.op() == "delete-profile"@,
        command matches Command::Session(SessionCommand::Start { .. }) ==> q.op()
            == "start-session"@,
        command matches Command::Session(SessionCommand::Stop { .. }) ==> q.op() == "stop-session"@,
        command matches Command::Session(SessionCommand::List) ==> q.op() == "list-sessions"@,
        command is Diagnostics ==> q.op() == "get-diagnostics"@,
        command is Status ==> q.op() == "get-status"@,
        command is Config ==> q.op() == "get-enforcement"@,
        command is Doctor ==> q.op() == "doctor"@,
        command matches Command::Update(UpdateCommand::Check) ==> q.op() == "check-update"@,
        !(command matches Command::Update(UpdateCommand::Apply)),
        command matches Command::Session(SessionCommand::Start { profile }) ==> (
        q matches Request::StartSession(r) && uuid_parsed(profile@) == Ok::<u128, Seq<char>>(
            r.profile.value,
        )),
        command matches Command::Session(SessionCommand::Stop { id }) ==> (
        q matches Request::StopSession(s) && uuid_parsed(id@) == Ok::<u128, Seq<char>>(s.value)),
        command matches Command::Profile(ProfileCommand::Rm { id }) ==> (
        q matches Request::DeleteProfile(p) && uuid_parsed(id@) == Ok::<u128, Seq<char>>(p.value)),
        command matches Command::Diagnostics { session } ==> (
        q matches Request::GetDiagnostics(s) && uuid_parsed(session@) == Ok::<u128, Seq<char>>(
            s.value,
        )),
{
}

/// A switch that is named sets its own layer, on where it says on and off where it
/// says off; what is not named stays.
pub proof fn law_switches_set_their_own_layer(args: EnforcementArgs, current: Enforcement)
    ensures
        ({
            let e = args.applied(current);
            &&& args.vm_isolation matches Some(t) ==> (e.require_vm_isolation <==> t is On)
            &&& args.vm_isolation is None ==> e.require_vm_isolation == current.require_vm_isolation
            &&& args.gateway matches Some(t) ==> (e.require_gateway <==> t is On)
            &&& args.gateway is None ==> e.require_gateway == current.require_gateway
            &&& args.host_browser matches Some(t) ==> (e.allow_host_browser <==> t is On)
            &&& args.host_browser is None ==> e.allow_host_browser == current.allow_host_browser
        }),
{
}

/// Where socket and token lie unless others are named.
pub proof fn law_runtime_places(temp_dir: Seq<char>)
    ensures
        runtime_dir(None) == "/run/aegis"@,
        text::path_join(runtime_dir(None), "daemon.sock"@, false) == "/run/aegis/daemon.sock"@,
        temp_dir.len() > 2 && temp_dir.last() != '/' && temp_dir.last() != '\\' ==> text::path_join(
            runtime_dir(Some(temp_dir)),
            "ipc.token"@,
            true,
        ) == temp_dir + "\\aegis\\ipc.token"@,
{
    reveal_strlit("/run/aegis");
    reveal_strlit("daemon.sock");
    reveal_strlit("/run/aegis/daemon.sock");
    reveal_strlit("aegis");
    reveal_strlit("ipc.token");
    reveal_strlit("\\aegis\\ipc.token");
    assert(text::path_join(runtime_dir(None), "daemon.sock"@, false) =~= "/run/aegis/daemon.sock"@);
    if temp_dir.len() > 2 && temp_dir.last() != '/' && temp_dir.last() != '\\' {
        let dir = runtime_dir(Some(temp_dir));
        assert(dir.last() == 's');
        assert(text::path_join(dir, "ipc.token"@, true) =~= temp_dir + "\\aegis\\ipc.token"@);
    }
}

} // verus!
