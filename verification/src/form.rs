//! The form that a profile is created from.
//!
//! Every choice is checked here before it is sent to the daemon. Proxy
//! credentials arrive as `user:pass`; only a reference that names the user goes
//! any further, never the password.

use crate::browser::BrowserBackendId;
use crate::config::IsolationLevel;
use crate::fingerprint::{CanvasMode, FingerprintPolicy, LetterboxMode, ProtectionLevel, WebGlMode};
use crate::network::{CredentialRef, NetworkConfig, NetworkMode, ProxyConfig, ProxyProtocol, TorConfig};
use crate::permissions::PermissionPolicy;
use crate::preview::ProfilePreview;
use crate::profile::{ProfileSpec, ProfileType};
use crate::text;
use vstd::prelude::*;

verus! {

/// What was entered in a field, without the white space around it; nothing where
/// the field is blank.
pub open spec fn entered(field: Option<String>) -> Option<Seq<char>> {
    match field {
        Some(s) => if text::is_blank(s@) {
            None
        } else {
            Some(text::trimmed(s@))
        },
        None => None,
    }
}

fn entry<'a>(field: &'a Option<String>) -> (r: Option<&'a str>)
    ensures
        match r {
            Some(s) => entered(*field) == Some(s@),
            None => entered(*field) is None,
        },
{
    match field {
        Some(s) => {
            let t = text::trim(s.as_str());
            if text::blank(s.as_str()) {
                None
            } else {
                Some(t)
            }
        },
        None => None,
    }
}

/// Whether a field holds exactly `word`.
fn holds(field: &Option<String>, word: &str) -> (r: bool)
    ensures
        r == (text::opt_text(*field) == Some(word@)),
{
    match field {
        Some(s) => text::same(s.as_str(), word),
        None => false,
    }
}

/// The WebGL mode with a name.
pub open spec fn webgl_named(name: Seq<char>) -> Option<WebGlMode> {
    if name == "virtual-backend"@ || name == "virtual"@ {
        Some(WebGlMode::VirtualBackend)
    } else if name == "restricted"@ {
        Some(WebGlMode::Restricted)
    } else if name == "disabled"@ || name == "off"@ {
        Some(WebGlMode::Disabled)
    } else {
        None
    }
}

fn webgl_mode(name: &str) -> (r: Option<WebGlMode>)
    ensures
        r == webgl_named(name@),
{
    if text::same(name, "virtual-backend") || text::same(name, "virtual") {
        Some(WebGlMode::VirtualBackend)
    } else if text::same(name, "restricted") {
        Some(WebGlMode::Restricted)
    } else if text::same(name, "disabled") || text::same(name, "off") {
        Some(WebGlMode::Disabled)
    } else {
        None
    }
}

/// The canvas mode with a name.
pub open spec fn canvas_named(name: Seq<char>) -> Option<CanvasMode> {
    if name == "passthrough"@ {
        Some(CanvasMode::Passthrough)
    } else if name == "limited"@ {
        Some(CanvasMode::Limited)
    } else {
        None
    }
}

fn canvas_mode(name: &str) -> (r: Option<CanvasMode>)
    ensures
        r == canvas_named(name@),
{
    if text::same(name, "passthrough") {
        Some(CanvasMode::Passthrough)
    } else if text::same(name, "limited") {
        Some(CanvasMode::Limited)
    } else {
        None
    }
}

/// Changes to the fingerprint policy; what is left out stays as the protection
/// level has it.
#[derive(Debug, PartialEq, Eq)]
pub struct FingerprintArgs {
    /// WebGL: `virtual-backend`, `restricted` or `disabled`.
    pub webgl: Option<String>,
    /// Whether WebGPU is exposed.
    pub webgpu_enabled: Option<bool>,
    /// Canvas: `passthrough` or `limited`.
    pub canvas: Option<String>,
    /// Whether letterboxing is on.
    pub letterbox: Option<bool>,
    /// The reported CPU count; 0 exposes the virtual one.
    pub hardware_concurrency: Option<u32>,
    /// A shared timezone.
    pub timezone: Option<String>,
    /// A shared primary language tag.
    pub language: Option<String>,
}

impl Default for FingerprintArgs {
    fn default() -> (r: FingerprintArgs)
        ensures
            r == (FingerprintArgs {
                webgl: None,
                webgpu_enabled: None,
                canvas: None,
                letterbox: None,
                hardware_concurrency: None,
                timezone: None,
                language: None,
            }),
    {
        FingerprintArgs {
            webgl: None,
            webgpu_enabled: None,
            canvas: None,
            letterbox: None,
            hardware_concurrency: None,
            timezone: None,
            language: None,
        }
    }
}

impl FingerprintArgs {
    /// What is wrong with the named switches, if anything.
    pub open spec fn unknown_switch(self) -> Option<Seq<char>> {
        if entered(self.webgl) matches Some(w) && webgl_named(w) is None {
            Some("unknown WebGL mode: "@ + entered(self.webgl)->0)
        } else if entered(self.canvas) matches Some(c) && canvas_named(c) is None {
            Some("unknown canvas mode: "@ + entered(self.canvas)->0)
        } else {
            None
        }
    }

    /// `base` with the switches changed.
    pub open spec fn switched(self, base: FingerprintPolicy) -> FingerprintPolicy {
        FingerprintPolicy {
            webgl: match entered(self.webgl) {
                Some(w) => webgl_named(w)->0,
                None => base.webgl,
            },
            webgpu_enabled: match self.webgpu_enabled {
                Some(b) => b,
                None => base.webgpu_enabled,
            },
            canvas: match entered(self.canvas) {
                Some(c) => canvas_named(c)->0,
                None => base.canvas,
            },
            letterbox: match self.letterbox {
                Some(true) => LetterboxMode::On,
                Some(false) => LetterboxMode::Off,
                None => base.letterbox,
            },
            hardware_concurrency: match self.hardware_concurrency {
                Some(0u32) => None,
                Some(n) => Some(n),
                None => base.hardware_concurrency,
            },
            ..base
        }
    }

    /// Whether `p` is `base` with the changes.
    pub open spec fn changes_to(self, base: FingerprintPolicy, p: FingerprintPolicy) -> bool {
        &&& p == (FingerprintPolicy {
            timezone: p.timezone,
            primary_language: p.primary_language,
            ..self.switched(base)
        })
        &&& match entered(self.timezone) {
            Some(z) => p.timezone matches Some(t) && t@ == z,
            None => p.timezone == base.timezone,
        }
        &&& match entered(self.language) {
            Some(l) => p.primary_language@ == l,
            None => p.primary_language == base.primary_language,
        }
    }

    /// Makes the changes on top of `base`. No change can relax a rule that every
    /// policy keeps.
    pub fn apply_to(&self, base: FingerprintPolicy) -> (r: Result<FingerprintPolicy, String>)
        ensures
            match self.unknown_switch() {
                Some(m) => r matches Err(e) && e@ == m,
                None => match self.switched(base).violation() {
                    Some(m) => r matches Err(e) && e@ == "invalid fingerprint override: "@ + m,
                    None => r matches Ok(p) && self.changes_to(base, p),
                },
            },
    {
        let webgl = match entry(&self.webgl) {
            Some(w) => match webgl_mode(w) {
                Some(m) => m,
                None => {
                    return Err(text::cat2("unknown WebGL mode: ", w));
                },
            },
            None => base.webgl,
        };
        let webgpu_enabled: bool = match self.webgpu_enabled {
            Some(b) => b,
            None => base.webgpu_enabled,
        };
        let canvas = match entry(&self.canvas) {
            Some(c) => match canvas_mode(c) {
                Some(m) => m,
                None => {
                    return Err(text::cat2("unknown canvas mode: ", c));
                },
            },
            None => base.canvas,
        };
        let letterbox = match self.letterbox {
            Some(on) => if on {
                LetterboxMode::On
            } else {
                LetterboxMode::Off
            },
            None => base.letterbox,
        };
        let hardware_concurrency: Option<u32> = match self.hardware_concurrency {
            Some(n) => if n == 0 {
                None
            } else {
                Some(n)
            },
            None => base.hardware_concurrency,
        };
        let ghost before = base;
        let base_zone = base.timezone;
        let base_language = base.primary_language;
        let timezone = match entry(&self.timezone) {
            Some(z) => Some(z.to_owned()),
            None => base_zone,
        };
        let primary_language = match entry(&self.language) {
            Some(l) => l.to_owned(),
            None => base_language,
        };
        let p = FingerprintPolicy {
            level: base.level,
            webgl,
            webgpu_enabled,
            canvas,
            letterbox,
            fonts: base.fonts,
            timer_coarsening_us: base.timer_coarsening_us,
            limit_media_device_enumeration: base.limit_media_device_enumeration,
            hardware_concurrency,
            disable_battery_api: base.disable_battery_api,
            disable_sensor_apis: base.disable_sensor_apis,
            block_device_apis: base.block_device_apis,
            timezone,
            primary_language,
        };
        assert(self.changes_to(before, p));
        if let Some(reason) = p.validate() {
            return Err(text::cat2("invalid fingerprint override: ", reason));
        }
        Ok(p)
    }
}

/// Every policy that the form gives keeps the rules that every policy keeps:
/// device APIs stay blocked, sensors and battery suppressed, and Strict exposes
/// neither WebGPU nor a full WebGL backend.
pub proof fn law_changes_relax_nothing(
    args: FingerprintArgs,
    level: ProtectionLevel,
    base: FingerprintPolicy,
    p: FingerprintPolicy,
)
    requires
        base.implied_by(level),
        args.switched(base).violation() is None,
        args.changes_to(base, p),
    ensures
        p.violation() is None,
        p.level == level,
        p.block_device_apis,
        p.disable_sensor_apis,
        p.disable_battery_api,
        level == ProtectionLevel::Strict ==> !p.webgpu_enabled && p.webgl
            != WebGlMode::VirtualBackend,
{
}

/// The choices of the form.
#[derive(Debug, PartialEq, Eq)]
pub struct CreateProfileArgs {
    /// The name.
    pub name: String,
    /// `ephemeral` or `persistent`.
    pub kind: Option<String>,
    /// `full-vm` or `host-process`.
    pub isolation: Option<String>,
    /// `tor`, `socks5`, `http` or `vpn`.
    pub network_mode: Option<String>,
    /// Tor bridge lines.
    pub bridges: Option<String>,
    /// Proxy host.
    pub proxy_host: Option<String>,
    /// Proxy port.
    pub proxy_port: Option<u16>,
    /// Proxy credentials, as `user:pass`.
    pub proxy_credentials: Option<String>,
    /// `balanced` or `strict`.
    pub protection: Option<String>,
    /// `chromium` or `firefox`.
    pub browser: Option<String>,
    /// Changes to the fingerprint policy.
    pub fingerprint: Option<FingerprintArgs>,
}

/// The lines that are not blank, without the white space around them.
pub open spec fn filled_lines(lines: Seq<Seq<char>>) -> Seq<Seq<char>>
    decreases lines.len(),
{
    if lines.len() == 0 {
        Seq::empty()
    } else if text::is_blank(lines.last()) {
        filled_lines(lines.drop_last())
    } else {
        filled_lines(lines.drop_last()).push(text::trimmed(lines.last()))
    }
}

/// The reference to the credentials of a user. What follows the first colon, the
/// password, has no part in it.
pub open spec fn credential_id(entry: Seq<char>) -> Seq<char> {
    let user = text::trimmed(text::cut_at(entry, ':').0);
    if user.len() == 0 {
        "proxy"@
    } else {
        "proxy:"@ + user
    }
}

impl CreateProfileArgs {
    /// The chosen profile type.
    pub open spec fn chosen_type(self) -> ProfileType {
        if text::opt_text(self.kind) == Some("persistent"@) {
            ProfileType::Persistent
        } else {
            ProfileType::Ephemeral
        }
    }

    /// The chosen profile type; ephemeral unless `persistent` was chosen.
    #[must_use]
    pub fn profile_type(&self) -> (r: ProfileType)
        ensures
            r == self.chosen_type(),
    {
        if holds(&self.kind, "persistent") {
            ProfileType::Persistent
        } else {
            ProfileType::Ephemeral
        }
    }

    /// The chosen isolation level.
    pub open spec fn chosen_isolation(self) -> IsolationLevel {
        if text::opt_text(self.isolation) == Some("host-process"@) || text::opt_text(self.isolation)
            == Some("host"@) {
            IsolationLevel::HostProcess
        } else {
            IsolationLevel::FullVm
        }
    }

    /// The chosen isolation level; full VM isolation unless the host was chosen.
    #[must_use]
    pub fn isolation_level(&self) -> (r: IsolationLevel)
        ensures
            r == self.chosen_isolation(),
    {
        if holds(&self.isolation, "host-process") || holds(&self.isolation, "host") {
            IsolationLevel::HostProcess
        } else {
            IsolationLevel::FullVm
        }
    }

    /// The chosen protection level.
    pub open spec fn chosen_protection(self) -> ProtectionLevel {
        if text::opt_text(self.protection) == Some("strict"@) {
            ProtectionLevel::Strict
        } else {
            ProtectionLevel::Balanced
        }
    }

    /// The chosen protection level; balanced unless `strict` was chosen.
    #[must_use]
    pub fn protection_level(&self) -> (r: ProtectionLevel)
        ensures
            r == self.chosen_protection(),
    {
        if holds(&self.protection, "strict") {
            ProtectionLevel::Strict
        } else {
            ProtectionLevel::Balanced
        }
    }

    /// The chosen browser.
    pub open spec fn chosen_browser(self) -> BrowserBackendId {
        let word = text::opt_text(self.browser);
        if word == Some("firefox"@) || word == Some("tor"@) || word == Some("tor-browser"@) {
            BrowserBackendId::Firefox
        } else {
            BrowserBackendId::Chromium
        }
    }

    /// The chosen browser; hardened Chromium unless Firefox or Tor Browser was
    /// chosen.
    #[must_use]
    pub fn browser_backend(&self) -> (r: BrowserBackendId)
        ensures
            r == self.chosen_browser(),
    {
        if holds(&self.browser, "firefox") || holds(&self.browser, "tor") || holds(
            &self.browser,
            "tor-browser",
        ) {
            BrowserBackendId::Firefox
        } else {
            BrowserBackendId::Chromium
        }
    }

    /// What is wrong with the fingerprint changes, if anything. A Balanced policy
    /// can be changed at will; a Strict one keeps WebGPU and the full WebGL backend
    /// off.
    pub open spec fn fingerprint_complaint(self) -> Option<Seq<char>> {
        match self.fingerprint {
            None => None,
            Some(args) => if args.unknown_switch() is Some {
                args.unknown_switch()
            } else if self.chosen_protection() == ProtectionLevel::Balanced {
                None
            } else if args.webgpu_enabled == Some(true) {
                Some(
                    "invalid fingerprint override: "@ + "WebGPU must be disabled in Strict mode"@,
                )
            } else if entered(args.webgl) matches Some(w) && webgl_named(w) == Some(
                WebGlMode::VirtualBackend,
            ) {
                Some(
                    "invalid fingerprint override: "@
                        + "Strict mode must not expose a full WebGL backend"@,
                )
            } else {
                None
            },
        }
    }

    /// Whether `p` is the policy that the form asks for: the policy of the
    /// protection level with the changes, or none where there are no changes.
    pub open spec fn asks_for(self, p: Option<FingerprintPolicy>) -> bool {
        match (self.fingerprint, p) {
            (None, None) => true,
            (Some(args), Some(q)) => exists|base: FingerprintPolicy| #[trigger]
                args.changes_to(base, q) && base.implied_by(self.chosen_protection()),
            _ => false,
        }
    }

    /// The policy that the form asks for; `None` leaves it to the protection level.
    pub fn fingerprint_override(&self) -> (r: Result<Option<FingerprintPolicy>, String>)
        ensures
            match self.fingerprint_complaint() {
                Some(m) => r matches Err(e) && e@ == m,
                None => r matches Ok(p) && self.asks_for(p) && (p matches Some(q)
                    ==> q.violation() is None),
            },
    {
        match &self.fingerprint {
            Some(args) => {
                let base = self.protection_level().policy();
                let ghost b = base;
                match args.apply_to(base) {
                    Ok(p) => {
                        assert(args.changes_to(b, p));
                        Ok(Some(p))
                    },
                    Err(e) => Err(e),
                }
            },
            None => Ok(None),
        }
    }

    /// The bridge lines that were entered.
    pub open spec fn entered_bridges(self) -> Seq<Seq<char>> {
        match self.bridges {
            Some(raw) => filled_lines(text::pieces(raw@, '\n')),
            None => Seq::empty(),
        }
    }

    /// The bridge lines that were entered: no blank ones, and none with white
    /// space around it.
    #[must_use]
    pub fn bridge_lines(&self) -> (r: Vec<String>)
        ensures
            text::texts(r@) == self.entered_bridges(),
    {
        let mut out: Vec<String> = Vec::new();
        if let Some(raw) = &self.bridges {
            let lines = text::split(raw.as_str(), '\n');
            let ghost all = text::texts(lines@);
            let mut i: usize = 0;
            assert(text::texts(out@) =~= filled_lines(all.take(0)));
            while i < lines.len()
                invariant
                    i <= lines@.len(),
                    all == text::texts(lines@),
                    text::texts(out@) == filled_lines(all.take(i as int)),
                decreases lines@.len() - i,
            {
                assert(all.take(i + 1).drop_last() =~= all.take(i as int));
                assert(all.take(i + 1).last() == lines@[i as int]@);
                let line = text::trim(lines[i].as_str());
                let ghost before = text::texts(out@);
                if !text::blank(lines[i].as_str()) {
                    let kept = line.to_owned();
                    out.push(kept);
                    assert(text::texts(out@) =~= before.push(kept@));
                }
                i += 1;
            }
            assert(all.take(all.len() as int) =~= all);
        } else {
            assert(text::texts(out@) =~= Seq::empty());
        }
        out
    }

    /// What is missing for a proxy, if anything.
    pub open spec fn proxy_complaint(self) -> Option<Seq<char>> {
        if entered(self.proxy_host) is None {
            Some("proxy host must not be empty"@)
        } else if self.proxy_port is None || self.proxy_port == Some(0u16) {
            Some("proxy port must be between 1 and 65535"@)
        } else {
            None
        }
    }

    /// Whether `p` is the proxy that was entered.
    pub open spec fn enters_proxy(self, protocol: ProxyProtocol, p: ProxyConfig) -> bool {
        &&& p.protocol == protocol
        &&& entered(self.proxy_host) == Some(p.host@)
        &&& self.proxy_port == Some(p.port)
        &&& p.remote_dns
        &&& match entered(self.proxy_credentials) {
            Some(c) => p.credentials_ref matches Some(x) && x.0@ == credential_id(c),
            None => p.credentials_ref is None,
        }
    }

    /// The proxy that was entered. DNS is resolved by the proxy.
    pub fn proxy_config(&self, protocol: ProxyProtocol) -> (r: Result<ProxyConfig, String>)
        ensures
            match self.proxy_complaint() {
                Some(m) => r matches Err(e) && e@ == m,
                None => r matches Ok(p) && self.enters_proxy(protocol, p),
            },
    {
        let host = match entry(&self.proxy_host) {
            Some(h) => h.to_owned(),
            None => {
                return Err("proxy host must not be empty".to_owned());
            },
        };
        let port: u16 = match self.proxy_port {
            Some(p) => p,
            None => 0,
        };
        if port == 0 {
            return Err("proxy port must be between 1 and 65535".to_owned());
        }
        let credentials_ref = match entry(&self.proxy_credentials) {
            Some(c) => {
                let user = text::trim(text::cut(c, ':').0);
                let id = if user.is_empty() {
                    "proxy".to_owned()
                } else {
                    text::cat2("proxy:", user)
                };
                Some(CredentialRef::new(id))
            },
            None => None,
        };
        Ok(ProxyConfig { protocol, host, port, credentials_ref, remote_dns: true })
    }

    /// The protocol of the chosen network mode, where it is a proxy.
    pub open spec fn chosen_proxy(self) -> Option<ProxyProtocol> {
        let word = text::opt_text(self.network_mode);
        if word is None || word == Some("tor"@) {
            None
        } else if word == Some("socks5"@) || word == Some("proxy"@) {
            Some(ProxyProtocol::Socks5)
        } else if word == Some("http"@) {
            Some(ProxyProtocol::HttpConnect)
        } else {
            None
        }
    }

    /// What is wrong with the network choice, if anything.
    pub open spec fn network_complaint(self) -> Option<Seq<char>> {
        match text::opt_text(self.network_mode) {
            None => None,
            Some(word) => if word == "tor"@ {
                None
            } else if self.chosen_proxy() is Some {
                self.proxy_complaint()
            } else if word == "vpn"@ {
                if self.chosen_isolation() == IsolationLevel::HostProcess {
                    Some(
                        "VPN is available only with full-VM isolation; use Tor or a proxy for host mode"@,
                    )
                } else {
                    Some(
                        "VPN profiles require an endpoint and stored credentials; create them via the CLI/config"@,
                    )
                }
            } else {
                Some("unknown network mode: "@ + word)
            },
        }
    }

    /// Whether `n` is the network that was chosen.
    pub open spec fn chooses_network(self, n: NetworkConfig) -> bool {
        &&& n.derived()
        &&& match self.chosen_proxy() {
            Some(protocol) => n.mode matches NetworkMode::Proxy(p) && self.enters_proxy(
                protocol,
                p,
            ),
            None => n.mode matches NetworkMode::Tor(t) && {
                &&& text::texts(t.bridges@) == self.entered_bridges()
                &&& t.use_bridges == (self.entered_bridges().len() > 0)
                &&& t.exit_country is None
            },
        }
    }

    /// The network that was chosen, with the DNS and IPv6 policy that it implies.
    pub fn network_config(&self) -> (r: Result<NetworkConfig, String>)
        ensures
            match self.network_complaint() {
                Some(m) => r matches Err(e) && e@ == m,
                None => r matches Ok(n) && self.chooses_network(n),
            },
    {
        let word = match &self.network_mode {
            Some(w) => w.as_str(),
            None => "tor",
        };
        if text::same(word, "tor") {
            let bridges = self.bridge_lines();
            assert(text::texts(bridges@).len() == bridges@.len());
            let use_bridges = bridges.len() > 0;
            let tor = TorConfig { use_bridges, bridges, exit_country: None };
            return Ok(NetworkConfig::from_mode(NetworkMode::Tor(tor)));
        }
        if text::same(word, "socks5") || text::same(word, "proxy") {
            return match self.proxy_config(ProxyProtocol::Socks5) {
                Ok(p) => Ok(NetworkConfig::from_mode(NetworkMode::Proxy(p))),
                Err(e) => Err(e),
            };
        }
        if text::same(word, "http") {
            return match self.proxy_config(ProxyProtocol::HttpConnect) {
                Ok(p) => Ok(NetworkConfig::from_mode(NetworkMode::Proxy(p))),
                Err(e) => Err(e),
            };
        }
        if text::same(word, "vpn") {
            return if self.isolation_level() == IsolationLevel::HostProcess {
                Err(
                    "VPN is available only with full-VM isolation; use Tor or a proxy for host mode".to_owned(),
                )
            } else {
                Err(
                    "VPN profiles require an endpoint and stored credentials; create them via the CLI/config".to_owned(),
                )
            };
        }
        Err(text::cat2("unknown network mode: ", word))
    }

    /// What is wrong with the choices other than the name, if anything.
    pub open spec fn complaint(self) -> Option<Seq<char>> {
        match self.network_complaint() {
            Some(m) => Some(m),
            None => self.fingerprint_complaint(),
        }
    }

    /// Whether `spec` is made of the choices, under a name.
    pub open spec fn describes(self, name: Seq<char>, spec: ProfileSpec) -> bool {
        &&& spec.name@ == name
        &&& spec.kind == self.chosen_type()
        &&& self.chooses_network(spec.network)
        &&& spec.protection == self.chosen_protection()
        &&& spec.isolation == self.chosen_isolation()
        &&& spec.browser == self.chosen_browser()
        &&& self.asks_for(spec.fingerprint)
        &&& spec.permissions.is_secure_default()
        &&& spec.valid()
    }

    fn spec_with_name(&self, name: String) -> (r: Result<ProfileSpec, String>)
        requires
            !text::is_blank(name@),
        ensures
            match self.complaint() {
                Some(m) => r matches Err(e) && e@ == m,
                None => r matches Ok(spec) && self.describes(name@, spec),
            },
    {
        let network = match self.network_config() {
            Ok(n) => n,
            Err(e) => {
                return Err(e);
            },
        };
        let fingerprint = match self.fingerprint_override() {
            Ok(p) => p,
            Err(e) => {
                return Err(e);
            },
        };
        let spec = ProfileSpec {
            name,
            kind: self.profile_type(),
            network,
            protection: self.protection_level(),
            isolation: self.isolation_level(),
            browser: self.browser_backend(),
            fingerprint,
            permissions: PermissionPolicy::secure_default(),
        };
        match spec.validate() {
            Ok(()) => Ok(spec),
            Err(e) => Err(text::cat2("invalid profile: ", e.text().as_str())),
        }
    }

    /// The specification that the form describes.
    pub fn to_spec(&self) -> (r: Result<ProfileSpec, String>)
        ensures
            if text::is_blank(self.name@) {
                r matches Err(e) && e@ == "profile name must not be empty"@
            } else {
                match self.complaint() {
                    Some(m) => r matches Err(e) && e@ == m,
                    None => r matches Ok(spec) && self.describes(text::trimmed(self.name@), spec),
                }
            },
    {
        if text::blank(self.name.as_str()) {
            return Err("profile name must not be empty".to_owned());
        }
        proof {
            text::lemma_trimmed_twice(self.name@);
        }
        self.spec_with_name(text::trim(self.name.as_str()).to_owned())
    }

    /// The name that is shown while none was entered.
    pub open spec fn shown_name(self) -> Seq<char> {
        if text::is_blank(self.name@) {
            "preview"@
        } else {
            text::trimmed(self.name@)
        }
    }

    /// What a site would see of the profile that the form describes. The name may
    /// still be missing.
    pub fn preview(&self) -> (r: Result<ProfilePreview, String>)
        ensures
            match self.complaint() {
                Some(m) => r matches Err(e) && e@ == m,
                None => r matches Ok(p) && exists|spec: ProfileSpec| #[trigger]
                    p.previews(spec) && self.describes(self.shown_name(), spec),
            },
    {
        let name = if text::blank(self.name.as_str()) {
            "preview".to_owned()
        } else {
            text::trim(self.name.as_str()).to_owned()
        };
        proof {
            text::lemma_trimmed_twice(self.name@);
            reveal_strlit("preview");
            text::lemma_not_blank("preview"@, 0);
        }
        match self.spec_with_name(name) {
            Ok(spec) => {
                let p = spec.preview();
                assert(p.previews(spec));
                Ok(p)
            },
            Err(e) => Err(e),
        }
    }
}

/// The password has no part in the reference that is carried: whatever follows
/// the user name, the reference names the user alone.
pub proof fn law_password_is_not_carried(user: Seq<char>, password: Seq<char>)
    requires
        !user.contains(':'),
    ensures
        credential_id(text::trimmed(user + seq![':'] + password)) == if text::is_blank(user) {
            "proxy"@
        } else {
            "proxy:"@ + text::trimmed(user)
        },
{
    text::lemma_trimmed_around(user, ':', password);
    let t = text::trimmed(user + seq![':'] + password);
    let front = text::trimmed_start(user);
    let k = text::lemma_lead(user);
    assert forall|j: int| 0 <= j < front.len() implies #[trigger] t[j] != ':' by {
        assert(t[j] == user[k + j]);
        assert(user.contains(user[k + j]));
    }
    text::lemma_first_index(t, ':', front.len() as int);
    assert(t.take(front.len() as int) =~= front);
    text::lemma_trimmed_twice(user);
}

/// A profile that the form creates shows sites exactly what its preview showed.
pub proof fn law_preview_matches_profile(
    args: CreateProfileArgs,
    created: ProfileSpec,
    previewed: ProfileSpec,
    before: ProfilePreview,
    after: ProfilePreview,
)
    requires
        args.describes(text::trimmed(args.name@), created),
        args.describes(args.shown_name(), previewed),
        before.previews(previewed),
        after.previews(created),
    ensures
        before.same(after),
{
}

/// The words of the form mean what they say, and an unknown or missing one means
/// the safe choice: ephemeral, in full isolation, with Chromium; the engines of Tor
/// Browser are Firefox.
pub proof fn law_form_words_mean_what_they_say(args: CreateProfileArgs, word: String)
    ensures
        args.kind is None ==> args.chosen_type() is Ephemeral,
        args.kind == Some(word) ==> (args.chosen_type() is Persistent <==> word@ == "persistent"@),
        args.isolation is None ==> args.chosen_isolation() is FullVm,
        args.isolation == Some(word) ==> (args.chosen_isolation() is HostProcess <==> word@
            == "host-process"@ || word@ == "host"@),
        args.protection is None ==> args.chosen_protection() is Balanced,
        args.protection == Some(word) ==> (args.chosen_protection() is Strict <==> word@
            == "strict"@),
        args.browser is None ==> args.chosen_browser() is Chromium,
        args.browser == Some(word) ==> (args.chosen_browser() is Firefox <==> word@ == "firefox"@
            || word@ == "tor"@ || word@ == "tor-browser"@),
        args.network_mode is None ==> args.chosen_proxy() is None,
        args.network_mode == Some(word) ==> (args.chosen_proxy() == Some(ProxyProtocol::Socks5)
            <==> word@ == "socks5"@ || word@ == "proxy"@),
        args.network_mode == Some(word) && word@ == "http"@ ==> args.chosen_proxy() == Some(
            ProxyProtocol::HttpConnect,
        ),
{
    reveal_strlit("socks5");
    reveal_strlit("proxy");
    reveal_strlit("http");
    reveal_strlit("tor");
    assert("tor"@.len() != "socks5"@.len() && "tor"@.len() != "proxy"@.len() && "tor"@.len()
        != "http"@.len());
    assert("http"@.len() != "socks5"@.len());
    assert("http"@.len() != "proxy"@.len());
}

/// The network of the form is the entered one: a proxy in the chosen protocol, at
/// the entered host and port, with DNS at its far end; or Tor, with bridges exactly
/// where some were entered.
pub proof fn law_form_network_is_the_entered_one(args: CreateProfileArgs, n: NetworkConfig)
    requires
        args.chooses_network(n),
    ensures
        n.mode is Proxy <==> args.chosen_proxy() is Some,
        n.mode is Tor <==> args.chosen_proxy() is None,
        n.mode matches NetworkMode::Proxy(p) ==> Some(p.protocol) == args.chosen_proxy() && Some(p.port)
            == args.proxy_port && entered(args.proxy_host) == Some(p.host@) && p.remote_dns,
        n.mode matches NetworkMode::Tor(t) ==> (t.use_bridges <==> t.bridges@.len() > 0)
            && t.exit_country is None,
        n.dns.block_plain_dns,
        n.ipv6 is Block,
{
    if let NetworkMode::Tor(t) = n.mode {
        assert(text::texts(t.bridges@).len() == t.bridges@.len());
    }
}

/// Each switch of the form moves its own setting and no other.
pub proof fn law_form_switches_move_their_own_setting(
    args: FingerprintArgs,
    base: FingerprintPolicy,
    p: FingerprintPolicy,
)
    requires
        args.changes_to(base, p),
        args.unknown_switch() is None,
    ensures
        args.webgpu_enabled matches Some(b) ==> p.webgpu_enabled == b,
        args.webgpu_enabled is None ==> p.webgpu_enabled == base.webgpu_enabled,
        args.letterbox matches Some(b) ==> (p.letterbox is On <==> b),
        args.letterbox is None ==> p.letterbox == base.letterbox,
        args.hardware_concurrency matches Some(n) ==> p.hardware_concurrency == (if n == 0 {
            None
        } else {
            Some(n)
        }),
        args.hardware_concurrency is None ==> p.hardware_concurrency == base.hardware_concurrency,
        entered(args.webgl) is None ==> p.webgl == base.webgl,
        entered(args.webgl) == Some("disabled"@) ==> p.webgl is Disabled,
        entered(args.webgl) == Some("restricted"@) ==> p.webgl is Restricted,
        entered(args.webgl) == Some("virtual-backend"@) ==> p.webgl is VirtualBackend,
        entered(args.canvas) is None ==> p.canvas == base.canvas,
        entered(args.canvas) == Some("limited"@) ==> p.canvas is Limited,
        entered(args.canvas) == Some("passthrough"@) ==> p.canvas is Passthrough,
        entered(args.timezone) matches Some(z) ==> (p.timezone matches Some(t) && t@ == z),
        entered(args.timezone) is None ==> p.timezone == base.timezone,
        entered(args.language) matches Some(l) ==> p.primary_language@ == l,
        p.level == base.level && p.block_device_apis == base.block_device_apis
            && p.disable_sensor_apis == base.disable_sensor_apis && p.disable_battery_api
            == base.disable_battery_api && p.timer_coarsening_us == base.timer_coarsening_us,
{
    reveal_strlit("virtual-backend");
    reveal_strlit("virtual");
    reveal_strlit("restricted");
    reveal_strlit("disabled");
    reveal_strlit("off");
    reveal_strlit("passthrough");
    reveal_strlit("limited");
    assert("restricted"@[0] != "virtual"@[0]);
    assert("restricted"@.len() != "virtual-backend"@.len());
    assert("disabled"@.len() != "restricted"@.len() && "disabled"@.len() != "virtual"@.len()
        && "disabled"@.len() != "virtual-backend"@.len());
    assert("limited"@.len() != "passthrough"@.len());
}

} // verus!
