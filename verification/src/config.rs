//! Application configuration and storage paths.
//!
//! A path is kept as the text that notates it.

use crate::error::{Error, ErrorKind, ErrorModel};
use crate::fingerprint::ProtectionLevel;
use crate::network::{NetworkMode, TorConfig};
use crate::text;
use vstd::prelude::*;

verus! {

/// A reference to a signed VM base image on the host.
#[derive(Debug, PartialEq, Eq)]
pub struct ImageRef {
    /// Path to the base image.
    pub path: String,
    /// Path to the detached signature over the image.
    pub signature: String,
    /// The semantic version of the image.
    pub version: String,
    /// Lowercase hex SHA-256 of the image contents.
    pub sha256: String,
}

/// The pair of base images required for a session.
#[derive(Debug, PartialEq, Eq)]
pub struct ImageSet {
    /// Gateway base image.
    pub gateway: ImageRef,
    /// Browser base image.
    pub browser: ImageRef,
}

/// Top-level application configuration.
#[derive(Debug, PartialEq, Eq)]
pub struct AppConfig {
    /// Default network mode for new profiles.
    pub default_network: NetworkMode,
    /// Default protection level for new profiles.
    pub default_protection: ProtectionLevel,
    /// The isolated network name prefix.
    pub network_prefix: String,
    /// Base image set.
    pub images: Option<ImageSet>,
    /// The public key used to verify updates and image manifests.
    pub update_verify_key: Option<String>,
    /// Storage paths.
    pub paths: Paths,
    /// Which containment layers are mandatory.
    pub enforcement: Enforcement,
}

impl AppConfig {
    /// Whether this is the configuration where none is written down: Tor, the
    /// Balanced level, the standard paths and the strictest policy.
    pub open spec fn is_default(self) -> bool {
        &&& self.default_network matches NetworkMode::Tor(c) && c.is_plain()
        &&& self.default_protection == ProtectionLevel::Balanced
        &&& self.network_prefix@ == "aegis"@
        &&& self.images is None
        &&& self.update_verify_key is None
        &&& self.paths.standard()
        &&& self.enforcement == Enforcement::strictest()
    }
}

impl Default for AppConfig {
    fn default() -> (r: AppConfig)
        ensures
            r.is_default(),
    {
        AppConfig {
            default_network: NetworkMode::Tor(TorConfig::default()),
            default_protection: ProtectionLevel::Balanced,
            network_prefix: "aegis".to_owned(),
            images: None,
            update_verify_key: None,
            paths: Paths::default(),
            enforcement: Enforcement::default(),
        }
    }
}

/// What was found where the configuration is looked for.
pub enum FoundConfig {
    /// A file that holds this configuration.
    Parsed(AppConfig),
    /// A file that holds none.
    Malformed(String),
    /// No file.
    Missing,
    /// A file that cannot be read.
    Unreadable(String),
}

/// The configuration to run with: the one in the file, or the defaults where
/// there is no file. One that cannot be read or understood is refused, never
/// guessed.
pub fn load_config(path: &str, found: FoundConfig) -> (r: Result<AppConfig, Error>)
    ensures
        match found {
            FoundConfig::Parsed(config) => r == Ok::<AppConfig, Error>(config),
            FoundConfig::Malformed(why) => r matches Err(e) && e@ == ErrorModel::of(
                ErrorKind::Config,
                "invalid config "@ + path@ + ": "@ + why@,
            ),
            FoundConfig::Missing => r matches Ok(config) && config.is_default(),
            FoundConfig::Unreadable(why) => r matches Err(e) && e@ == ErrorModel::of(
                ErrorKind::Config,
                "cannot read config "@ + path@ + ": "@ + why@,
            ),
        },
{
    match found {
        FoundConfig::Parsed(config) => Ok(config),
        FoundConfig::Malformed(why) => Err(
            Error::Config(text::cat4("invalid config ", path, ": ", why.as_str())),
        ),
        FoundConfig::Missing => Ok(AppConfig::default()),
        FoundConfig::Unreadable(why) => Err(
            Error::Config(text::cat4("cannot read config ", path, ": ", why.as_str())),
        ),
    }
}

/// Which containment layers are mandatory before a session may reach the
/// internet.
#[derive(Debug, Clone, Copy, PartialEq, Eq, Structural)]
pub struct Enforcement {
    /// Require the browser to run in its own isolated VM.
    pub require_vm_isolation: bool,
    /// Require a dedicated Gateway VM for the network path.
    pub require_gateway: bool,
    /// Permit launching the browser directly on the host.
    pub allow_host_browser: bool,
}

/// The value of an enforcement switch that a configuration leaves out.
pub fn default_true() -> (r: bool)
    ensures
        r,
{
    true
}

impl Default for Enforcement {
    fn default() -> (r: Enforcement)
        ensures
            r == Enforcement::strictest(),
    {
        Enforcement::secure()
    }
}

impl Enforcement {
    /// VM isolation and gateway mandatory, no host browser.
    pub open spec fn strictest() -> Enforcement {
        Enforcement {
            require_vm_isolation: true,
            require_gateway: true,
            allow_host_browser: false,
        }
    }

    /// Whether both VM isolation and the gateway are mandatory.
    pub open spec fn full(self) -> bool {
        self.require_vm_isolation && self.require_gateway
    }

    /// The isolation level that a session gets.
    pub open spec fn yields(self) -> IsolationLevel {
        if self.full() {
            IsolationLevel::FullVm
        } else {
            IsolationLevel::HostProcess
        }
    }

    /// The fully secure posture.
    #[must_use]
    pub fn secure() -> (r: Enforcement)
        ensures
            r == Enforcement::strictest(),
    {
        Enforcement { require_vm_isolation: true, require_gateway: true, allow_host_browser: false }
    }

    /// The reduced host-browser posture.
    #[must_use]
    pub fn host_browser() -> (r: Enforcement)
        ensures
            !r.require_vm_isolation,
            !r.require_gateway,
            r.allow_host_browser,
    {
        Enforcement {
            require_vm_isolation: false,
            require_gateway: false,
            allow_host_browser: true,
        }
    }

    /// Whether the full VM-isolation posture is in force.
    #[must_use]
    pub fn is_full_isolation(&self) -> (r: bool)
        ensures
            r == self.full(),
    {
        self.require_vm_isolation && self.require_gateway
    }

    /// The isolation level a session gets under this policy.
    #[must_use]
    pub fn isolation_level(&self) -> (r: IsolationLevel)
        ensures
            r == self.yields(),
    {
        if self.is_full_isolation() {
            IsolationLevel::FullVm
        } else {
            IsolationLevel::HostProcess
        }
    }
}

/// How strongly the browser is isolated from the host.
#[derive(Debug, Clone, Copy, PartialEq, Eq, Structural)]
pub enum IsolationLevel {
    /// The browser runs in a dedicated VM behind a gateway.
    FullVm,
    /// The browser runs as a host process, routed through a proxy.
    HostProcess,
}

impl Default for IsolationLevel {
    fn default() -> (r: IsolationLevel)
        ensures
            r == IsolationLevel::FullVm,
    {
        IsolationLevel::FullVm
    }
}

impl IsolationLevel {
    /// The UI label.
    pub open spec fn name(self) -> Seq<char> {
        match self {
            IsolationLevel::FullVm => "full VM isolation"@,
            IsolationLevel::HostProcess => "host process (reduced)"@,
        }
    }

    /// UI label.
    #[must_use]
    pub fn label(self) -> (r: &'static str)
        ensures
            r@ == self.name(),
    {
        match self {
            IsolationLevel::FullVm => "full VM isolation",
            IsolationLevel::HostProcess => "host process (reduced)",
        }
    }

    /// Whether this is the full VM-isolation model.
    #[must_use]
    pub fn is_full(self) -> (r: bool)
        ensures
            r == (self == IsolationLevel::FullVm),
    {
        matches!(self, IsolationLevel::FullVm)
    }
}

/// Resolved storage locations.
#[derive(Debug, PartialEq, Eq)]
pub struct Paths {
    /// Directory holding persistent profile volumes.
    pub profiles_dir: String,
    /// Directory for base images.
    pub images_dir: String,
    /// Ephemeral runtime directory.
    pub runtime_dir: String,
    /// Append-only audit log path.
    pub audit_log: String,
    /// Daemon control socket path.
    pub daemon_socket: String,
}

impl Paths {
    /// Whether these are the built-in locations.
    pub open spec fn standard(self) -> bool {
        &&& self.profiles_dir@ == "/var/lib/aegis/profiles"@
        &&& self.images_dir@ == "/var/lib/aegis/images"@
        &&& self.runtime_dir@ == "/run/aegis"@
        &&& self.audit_log@ == "/var/log/aegis/audit.jsonl"@
        &&& self.daemon_socket@ == "/run/aegis/daemon.sock"@
    }
}

impl Default for Paths {
    fn default() -> (r: Paths)
        ensures
            r.standard(),
    {
        Paths {
            profiles_dir: "/var/lib/aegis/profiles".to_owned(),
            images_dir: "/var/lib/aegis/images".to_owned(),
            runtime_dir: "/run/aegis".to_owned(),
            audit_log: "/var/log/aegis/audit.jsonl".to_owned(),
            daemon_socket: "/run/aegis/daemon.sock".to_owned(),
        }
    }
}

/// The rendering mode in effect for a session.
#[derive(Debug, Clone, Copy, PartialEq, Eq, Structural)]
pub enum RenderMode {
    /// Hardware-accelerated via virtio-gpu.
    VirtioGpu,
    /// Software rendering.
    Software,
}

impl RenderMode {
    /// The UI label.
    pub open spec fn name(self) -> Seq<char> {
        match self {
            RenderMode::VirtioGpu => "virtio-gpu"@,
            RenderMode::Software => "software"@,
        }
    }

    /// UI label.
    #[must_use]
    pub fn label(self) -> (r: &'static str)
        ensures
            r@ == self.name(),
    {
        match self {
            RenderMode::VirtioGpu => "virtio-gpu",
            RenderMode::Software => "software",
        }
    }
}

/// A session is fully isolated exactly where both layers are mandatory: dropping
/// either one reduces it.
pub proof fn law_full_isolation_needs_both_layers(e: Enforcement)
    ensures
        e.yields() == IsolationLevel::FullVm <==> e.require_vm_isolation && e.require_gateway,
{
}

/// The defaults are the secure ones: Tor without bridges, Balanced protection, both
/// layers mandatory and no browser on the host; no update is trusted, and
/// everything lies in the system's places.
pub proof fn law_defaults_are_secure(c: AppConfig)
    requires
        c.is_default(),
    ensures
        c.default_network matches NetworkMode::Tor(t) && !t.use_bridges && t.bridges@.len() == 0
            && t.exit_country is None,
        c.default_protection is Balanced,
        c.enforcement.require_vm_isolation && c.enforcement.require_gateway
            && !c.enforcement.allow_host_browser,
        c.images is None,
        c.update_verify_key is None,
        c.network_prefix@ == "aegis"@,
        c.paths.profiles_dir@ == "/var/lib/aegis/profiles"@,
        c.paths.images_dir@ == "/var/lib/aegis/images"@,
        c.paths.runtime_dir@ == "/run/aegis"@,
        c.paths.audit_log@ == "/var/log/aegis/audit.jsonl"@,
        c.paths.daemon_socket@ == "/run/aegis/daemon.sock"@,
{
}

/// The level that a policy yields is the full one only with both layers, and each
/// level has its own name.
pub proof fn law_levels_are_named(e: Enforcement)
    ensures
        e.require_vm_isolation && e.require_gateway <==> e.yields() is FullVm,
        e.yields() is FullVm ==> e.yields().name() == "full VM isolation"@,
        e.yields() is HostProcess ==> e.yields().name() == "host process (reduced)"@,
{
}

} // verus!
