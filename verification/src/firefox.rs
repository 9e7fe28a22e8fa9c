//! The Firefox / Tor Browser backend for host mode.
//!
//! Rendering is a pure function from a launch request to a `user.js` preference
//! set, which routes everything through the host SOCKS proxy and hardens the
//! browser, and a command line that pins an isolated profile.

use crate::browser::{
    arg_complaint, first_complaint, BackendCapabilities, BackendPolicyBundle, BrowserBackendId,
    BrowserHandle, BrowserLaunchRequest,
};
use crate::chromium::{lemma_harmless, push_arg};
use crate::error::{Error, ErrorKind, ErrorModel};
use crate::fingerprint::{FingerprintPolicy, LetterboxMode, ProtectionLevel, WebGlMode};
use crate::policy::{json_text, PolicyModel, PolicyTable, PolicyValue};
use crate::runner::{launch_plan, plans_launch, LaunchSpec};
use crate::table::TextTable;
use crate::text;
use vstd::prelude::*;

verus! {

/// The preferences filename in a Firefox profile.
pub const PREFS_FILE: &'static str = "user.js";

/// The first line of a rendered preferences file.
pub const USER_JS_HEADER: &'static str =
    "// Generated by Aegis Private Browser. Do not edit; regenerated on every launch.\n";

/// The reason given where a backend without a runner is asked to launch.
pub const NO_RUNNER: &'static str =
    "this FirefoxBackend was built without a runner; construct it with FirefoxBackend::with_runner (e.g. a HostBrowserRunner) to launch";

/// The error where the directory of a Firefox profile cannot be made.
#[must_use]
pub fn profile_dir_failed(dir: &str, why: &str) -> (r: Error)
    ensures
        r@ == ErrorModel::of(
            ErrorKind::System,
            "failed to create Firefox profile dir "@ + dir@ + ": "@ + why@,
        ),
{
    Error::System(text::cat4("failed to create Firefox profile dir ", dir, ": ", why))
}

/// The error where the preferences file of a Firefox profile cannot be written.
#[must_use]
pub fn prefs_file_failed(path: &str, why: &str) -> (r: Error)
    ensures
        r@ == ErrorModel::of(
            ErrorKind::System,
            "failed to write Firefox user.js at "@ + path@ + ": "@ + why@,
        ),
{
    Error::System(text::cat4("failed to write Firefox user.js at ", path, ": ", why))
}

/// The SOCKS host and port of an endpoint such as `socks5://127.0.0.1:9050` or
/// `127.0.0.1:9050`, or what is wrong with it. What stands before the last
/// `://` does not count, and the port follows the last colon.
pub open spec fn socks_endpoint(endpoint: Seq<char>) -> Result<(Seq<char>, nat), Seq<char>> {
    let authority = text::after_last(endpoint, "://"@);
    let i = text::last_match(authority, ":"@, authority.len() as int);
    let subject = "Firefox proxy endpoint '"@ + endpoint;
    if i < 0 {
        Err(subject + "' is missing a host:port"@)
    } else if i == 0 {
        Err(subject + "' is missing a host"@)
    } else {
        match text::uint_value(authority.skip(i + 1)) {
            Some(port) => if port <= u16::MAX {
                Ok((authority.take(i), port))
            } else {
                Err(subject + "' has an invalid port"@)
            },
            None => Err(subject + "' has an invalid port"@),
        }
    }
}

/// Parses the SOCKS host and port of a proxy endpoint.
pub fn parse_socks_endpoint(endpoint: &str) -> (r: Result<(String, u16), Error>)
    ensures
        match socks_endpoint(endpoint@) {
            Ok(hp) => r matches Ok(v) && v.0@ == hp.0 && v.1 == hp.1,
            Err(why) => r matches Err(Error::Config(m)) && m@ == why,
        },
{
    proof {
        reveal_strlit(":");
    }
    let authority = text::tail_after(endpoint, "://");
    let colon = match text::rfind(authority, ":") {
        Some(i) => i,
        None => {
            return Err(
                Error::Config(
                    text::cat3("Firefox proxy endpoint '", endpoint, "' is missing a host:port"),
                ),
            );
        },
    };
    if colon == 0 {
        return Err(
            Error::Config(
                text::cat3("Firefox proxy endpoint '", endpoint, "' is missing a host"),
            ),
        );
    }
    let n: usize = authority.unicode_len();
    let host = authority.substring_char(0, colon);
    let tail = authority.substring_char(colon + 1, n);
    assert(host@ =~= authority@.take(colon as int));
    assert(tail@ =~= authority@.skip(colon + 1));
    match text::parse_uint(tail, 65535) {
        Some(port) => Ok((host.to_owned(), port as u16)),
        None => Err(
            Error::Config(
                text::cat3("Firefox proxy endpoint '", endpoint, "' has an invalid port"),
            ),
        ),
    }
}

/// Whether the content area is letterboxed: where the policy asks for it, and
/// always at the strict level.
pub open spec fn letterboxed(fp: FingerprintPolicy) -> bool {
    fp.letterbox == LetterboxMode::On || fp.level == ProtectionLevel::Strict
}

/// The preference set for a fingerprint policy and a SOCKS proxy.
pub open spec fn firefox_preferences(fp: FingerprintPolicy, host: Seq<char>, port: nat) -> Map<
    Seq<char>,
    PolicyModel,
> {
    map![
        "network.proxy.type"@ => PolicyModel::Number(1),
        "network.proxy.socks"@ => PolicyModel::Words(host),
        "network.proxy.socks_port"@ => PolicyModel::Number(port as int),
        "network.proxy.socks_version"@ => PolicyModel::Number(5),
        "network.proxy.socks_remote_dns"@ => PolicyModel::Flag(true),
        "network.proxy.no_proxies_on"@ => PolicyModel::Words(""@),
        "network.trr.mode"@ => PolicyModel::Number(5),
        "media.peerconnection.enabled"@ => PolicyModel::Flag(false),
        "media.peerconnection.ice.no_host"@ => PolicyModel::Flag(true),
        "media.peerconnection.ice.default_address_only"@ => PolicyModel::Flag(true),
        "privacy.resistFingerprinting"@ => PolicyModel::Flag(true),
        "privacy.resistFingerprinting.letterboxing"@ => PolicyModel::Flag(letterboxed(fp)),
        "privacy.firstparty.isolate"@ => PolicyModel::Flag(true),
        "privacy.trackingprotection.enabled"@ => PolicyModel::Flag(true),
        "webgl.disabled"@ => PolicyModel::Flag(fp.webgl == WebGlMode::Disabled),
        "dom.webgpu.enabled"@ => PolicyModel::Flag(false),
        "dom.webbluetooth.enabled"@ => PolicyModel::Flag(!fp.block_device_apis),
        "dom.webusb.enabled"@ => PolicyModel::Flag(!fp.block_device_apis),
        "dom.serial.enabled"@ => PolicyModel::Flag(!fp.block_device_apis),
        "dom.webmidi.enabled"@ => PolicyModel::Flag(!fp.block_device_apis),
        "device.sensors.enabled"@ => PolicyModel::Flag(!fp.disable_sensor_apis),
        "dom.battery.enabled"@ => PolicyModel::Flag(!fp.disable_battery_api),
        "intl.accept_languages"@ => PolicyModel::Words(fp.primary_language@),
        "javascript.use_us_english_locale"@ => PolicyModel::Flag(true),
        "toolkit.telemetry.enabled"@ => PolicyModel::Flag(false),
        "toolkit.telemetry.unified"@ => PolicyModel::Flag(false),
        "toolkit.telemetry.archive.enabled"@ => PolicyModel::Flag(false),
        "datareporting.healthreport.uploadEnabled"@ => PolicyModel::Flag(false),
        "datareporting.policy.dataSubmissionEnabled"@ => PolicyModel::Flag(false),
        "app.shield.optoutstudies.enabled"@ => PolicyModel::Flag(false),
        "browser.newtabpage.activity-stream.feeds.telemetry"@ => PolicyModel::Flag(false),
        "browser.newtabpage.activity-stream.telemetry"@ => PolicyModel::Flag(false),
        "identity.fxaccounts.enabled"@ => PolicyModel::Flag(false),
        "services.sync.enabled"@ => PolicyModel::Flag(false),
        "app.update.enabled"@ => PolicyModel::Flag(false),
        "app.update.auto"@ => PolicyModel::Flag(false),
        "app.update.service.enabled"@ => PolicyModel::Flag(false),
        "extensions.update.enabled"@ => PolicyModel::Flag(false),
        "browser.search.update"@ => PolicyModel::Flag(false),
    ]
}

/// The command line for a profile directory.
pub open spec fn firefox_args(dir: Seq<char>) -> Seq<Seq<char>> {
    seq!["-no-remote"@, "-new-instance"@, "-profile"@, dir]
}

/// What is wrong with a request, if anything: its fingerprint policy, its proxy
/// endpoint, or a profile directory that reads as a forbidden flag.
pub open spec fn firefox_complaint(req: BrowserLaunchRequest) -> Option<Seq<char>> {
    if req.fingerprint.violation() is Some {
        Some("invalid fingerprint policy: "@ + req.fingerprint.violation()->0)
    } else {
        match socks_endpoint(req.proxy_endpoint@) {
            Err(why) => Some(why),
            Ok(_) => arg_complaint(req.user_data_dir@, req.production),
        }
    }
}

/// Whether `bundle` is the Firefox bundle for a request.
pub open spec fn is_firefox_bundle(bundle: BackendPolicyBundle, req: BrowserLaunchRequest) -> bool {
    let proxy = socks_endpoint(req.proxy_endpoint@)->Ok_0;
    &&& bundle.backend == BrowserBackendId::Firefox
    &&& bundle.managed_policies@ == Map::<Seq<char>, PolicyTable>::empty()
    &&& text::texts(bundle.command_line@) == firefox_args(req.user_data_dir@)
    &&& bundle.preferences@ == firefox_preferences(req.fingerprint, proxy.0, proxy.1)
}

/// Renders the preference set for a request.
fn render_preferences(req: &BrowserLaunchRequest) -> (r: Result<PolicyTable, Error>)
    ensures
        match socks_endpoint(req.proxy_endpoint@) {
            Ok(hp) => r matches Ok(t) && t@ == firefox_preferences(req.fingerprint, hp.0, hp.1),
            Err(why) => r matches Err(Error::Config(m)) && m@ == why,
        },
{
    let fp = &req.fingerprint;
    let (host, port) = match parse_socks_endpoint(req.proxy_endpoint.as_str()) {
        Ok(v) => v,
        Err(e) => {
            return Err(e);
        },
    };
    let letterbox: bool = fp.letterbox == LetterboxMode::On || fp.level == ProtectionLevel::Strict;
    let webgl_disabled: bool = fp.webgl == WebGlMode::Disabled;
    let mut prefs = PolicyTable::new();
    prefs.put("network.proxy.type", PolicyValue::Number(1));
    prefs.put("network.proxy.socks", PolicyValue::Words(host));
    prefs.put("network.proxy.socks_port", PolicyValue::Number(port as i64));
    prefs.put("network.proxy.socks_version", PolicyValue::Number(5));
    prefs.put("network.proxy.socks_remote_dns", PolicyValue::Flag(true));
    prefs.put("network.proxy.no_proxies_on", PolicyValue::words(""));
    prefs.put("network.trr.mode", PolicyValue::Number(5));
    prefs.put("media.peerconnection.enabled", PolicyValue::Flag(false));
    prefs.put("media.peerconnection.ice.no_host", PolicyValue::Flag(true));
    prefs.put("media.peerconnection.ice.default_address_only", PolicyValue::Flag(true));
    prefs.put("privacy.resistFingerprinting", PolicyValue::Flag(true));
    prefs.put("privacy.resistFingerprinting.letterboxing", PolicyValue::Flag(letterbox));
    prefs.put("privacy.firstparty.isolate", PolicyValue::Flag(true));
    prefs.put("privacy.trackingprotection.enabled", PolicyValue::Flag(true));
    prefs.put("webgl.disabled", PolicyValue::Flag(webgl_disabled));
    prefs.put("dom.webgpu.enabled", PolicyValue::Flag(false));
    prefs.put("dom.webbluetooth.enabled", PolicyValue::Flag(!fp.block_device_apis));
    prefs.put("dom.webusb.enabled", PolicyValue::Flag(!fp.block_device_apis));
    prefs.put("dom.serial.enabled", PolicyValue::Flag(!fp.block_device_apis));
    prefs.put("dom.webmidi.enabled", PolicyValue::Flag(!fp.block_device_apis));
    prefs.put("device.sensors.enabled", PolicyValue::Flag(!fp.disable_sensor_apis));
    prefs.put("dom.battery.enabled", PolicyValue::Flag(!fp.disable_battery_api));
    prefs.put("intl.accept_languages", PolicyValue::words(fp.primary_language.as_str()));
    prefs.put("javascript.use_us_english_locale", PolicyValue::Flag(true));
    prefs.put("toolkit.telemetry.enabled", PolicyValue::Flag(false));
    prefs.put("toolkit.telemetry.unified", PolicyValue::Flag(false));
    prefs.put("toolkit.telemetry.archive.enabled", PolicyValue::Flag(false));
    prefs.put("datareporting.healthreport.uploadEnabled", PolicyValue::Flag(false));
    prefs.put("datareporting.policy.dataSubmissionEnabled", PolicyValue::Flag(false));
    prefs.put("app.shield.optoutstudies.enabled", PolicyValue::Flag(false));
    prefs.put("browser.newtabpage.activity-stream.feeds.telemetry", PolicyValue::Flag(false));
    prefs.put("browser.newtabpage.activity-stream.telemetry", PolicyValue::Flag(false));
    prefs.put("identity.fxaccounts.enabled", PolicyValue::Flag(false));
    prefs.put("services.sync.enabled", PolicyValue::Flag(false));
    prefs.put("app.update.enabled", PolicyValue::Flag(false));
    prefs.put("app.update.auto", PolicyValue::Flag(false));
    prefs.put("app.update.service.enabled", PolicyValue::Flag(false));
    prefs.put("extensions.update.enabled", PolicyValue::Flag(false));
    prefs.put("browser.search.update", PolicyValue::Flag(false));
    Ok(prefs)
}

/// Renders the command line for a request.
fn render_command_line(req: &BrowserLaunchRequest) -> (r: Vec<String>)
    ensures
        text::texts(r@) == firefox_args(req.user_data_dir@),
{
    let mut args: Vec<String> = Vec::new();
    assert(text::texts(args@) =~= Seq::<Seq<char>>::empty());
    push_arg(&mut args, "-no-remote");
    push_arg(&mut args, "-new-instance");
    push_arg(&mut args, "-profile");
    push_arg(&mut args, req.user_data_dir.as_str());
    args
}

/// One line of a preferences file.
pub open spec fn pref_line(key: Seq<char>, value: PolicyModel) -> Seq<char> {
    "user_pref(\""@ + key + "\", "@ + json_text(value) + ");\n"@
}

/// The lines of a preferences file behind its header.
pub open spec fn pref_lines(rows: Seq<(Seq<char>, PolicyValue)>) -> Seq<char>
    decreases rows.len(),
{
    if rows.len() == 0 {
        Seq::empty()
    } else {
        pref_lines(rows.drop_last()) + pref_line(rows.last().0, rows.last().1@)
    }
}

/// Renders a preference set as a `user.js` file: a header, and a line per
/// preference, in the order of the keys.
#[must_use]
pub fn render_user_js(preferences: &PolicyTable) -> (r: String)
    ensures
        preferences.lists(),
        r@ == USER_JS_HEADER@ + pref_lines(preferences.rows()),
{
    let mut out = USER_JS_HEADER.to_owned();
    let n: usize = preferences.len();
    let mut i: usize = 0;
    assert(out@ =~= USER_JS_HEADER@ + pref_lines(preferences.rows().take(0)));
    while i < n
        invariant
            i <= n == preferences.rows().len(),
            out@ == USER_JS_HEADER@ + pref_lines(preferences.rows().take(i as int)),
        decreases n - i,
    {
        let value = preferences.value(i).to_json();
        let line = text::cat5(
            "user_pref(\"",
            preferences.key(i),
            "\", ",
            value.as_str(),
            ");\n",
        );
        out.append(line.as_str());
        i += 1;
        proof {
            let rows = preferences.rows().take(i as int);
            assert(rows.drop_last() =~= preferences.rows().take(i - 1));
            assert(out@ =~= USER_JS_HEADER@ + (pref_lines(rows.drop_last()) + line@));
        }
    }
    assert(preferences.rows().take(n as int) =~= preferences.rows());
    out
}

/// The fixed arguments are harmless, so only the directory can be complained of.
proof fn lemma_firefox_complaint(dir: Seq<char>, production: bool)
    ensures
        first_complaint(firefox_args(dir), production) == arg_complaint(dir, production),
{
    reveal_strlit("--no-sandbox");
    reveal_strlit("--disable-web-security");
    reveal_strlit("--disable-site-isolation-trials");
    reveal_strlit("--remote-debugging");
    reveal_strlit("-no-remote");
    reveal_strlit("-new-instance");
    reveal_strlit("-profile");
    lemma_harmless("-no-remote"@, production, 1, 1, 1, 1);
    lemma_harmless("-new-instance"@, production, 1, 1, 1, 1);
    lemma_harmless("-profile"@, production, 1, 1, 1, 1);
    let args = firefox_args(dir);
    reveal_with_fuel(first_complaint, 5);
    assert(args.skip(1)[0] == "-new-instance"@);
    assert(args.skip(1).skip(1)[0] == "-profile"@);
    assert(args.skip(1).skip(1).skip(1)[0] == dir);
    assert(args.skip(1).skip(1).skip(1).skip(1).len() == 0);
}

/// Renders the Firefox policy for a request. Fails exactly where something is
/// wrong with the request: a malformed fingerprint policy, a proxy endpoint
/// without host and port, or a profile directory that reads as a forbidden flag.
pub fn render_firefox_policy(req: &BrowserLaunchRequest) -> (r: Result<BackendPolicyBundle, Error>)
    ensures
        match firefox_complaint(*req) {
            None => r matches Ok(b) && is_firefox_bundle(b, *req) && b.complaint(
                req.production,
            ) is None,
            Some(why) => r matches Err(Error::Config(m)) && m@ == why,
        },
{
    if let Some(reason) = req.fingerprint.validate() {
        return Err(Error::Config(text::cat2("invalid fingerprint policy: ", reason)));
    }
    let preferences = match render_preferences(req) {
        Ok(p) => p,
        Err(e) => {
            return Err(e);
        },
    };
    let bundle = BackendPolicyBundle {
        backend: BrowserBackendId::Firefox,
        managed_policies: TextTable::new(),
        command_line: render_command_line(req),
        preferences,
    };
    proof {
        lemma_firefox_complaint(req.user_data_dir@, req.production);
    }
    match bundle.assert_safe(req.production) {
        Ok(_) => Ok(bundle),
        Err(e) => Err(e),
    }
}

/// What tells two keys of the preference set apart: the length and two characters.
spec fn mark(key: Seq<char>) -> (nat, char, char) {
    (key.len(), key[7], key[key.len() - 3])
}

/// No two keys of the preference set have the same mark.
proof fn lemma_marks()
    ensures
        mark("network.proxy.type"@) == (18nat, '.', 'y'),
        mark("network.proxy.socks"@) == (19nat, '.', 'c'),
        mark("network.proxy.socks_port"@) == (24nat, '.', 'o'),
        mark("network.proxy.socks_version"@) == (27nat, '.', 'i'),
        mark("network.proxy.socks_remote_dns"@) == (30nat, '.', 'd'),
        mark("network.proxy.no_proxies_on"@) == (27nat, '.', '_'),
        mark("network.trr.mode"@) == (16nat, '.', 'o'),
        mark("media.peerconnection.enabled"@) == (28nat, 'e', 'l'),
        mark("media.peerconnection.ice.no_host"@) == (32nat, 'e', 'o'),
        mark("media.peerconnection.ice.default_address_only"@) == (45nat, 'e', 'n'),
        mark("privacy.resistFingerprinting"@) == (28nat, '.', 'i'),
        mark("privacy.resistFingerprinting.letterboxing"@) == (41nat, '.', 'i'),
        mark("privacy.firstparty.isolate"@) == (26nat, '.', 'a'),
        mark("privacy.trackingprotection.enabled"@) == (34nat, '.', 'l'),
        mark("webgl.disabled"@) == (14nat, 'i', 'l'),
        mark("dom.webgpu.enabled"@) == (18nat, 'g', 'l'),
        mark("dom.webbluetooth.enabled"@) == (24nat, 'b', 'l'),
        mark("dom.webusb.enabled"@) == (18nat, 'u', 'l'),
        mark("dom.serial.enabled"@) == (18nat, 'i', 'l'),
        mark("dom.webmidi.enabled"@) == (19nat, 'm', 'l'),
        mark("device.sensors.enabled"@) == (22nat, 's', 'l'),
        mark("dom.battery.enabled"@) == (19nat, 't', 'l'),
        mark("intl.accept_languages"@) == (21nat, 'c', 'g'),
        mark("javascript.use_us_english_locale"@) == (32nat, 'i', 'a'),
        mark("toolkit.telemetry.enabled"@) == (25nat, '.', 'l'),
        mark("toolkit.telemetry.unified"@) == (25nat, '.', 'i'),
        mark("toolkit.telemetry.archive.enabled"@) == (33nat, '.', 'l'),
        mark("datareporting.healthreport.uploadEnabled"@) == (40nat, 'o', 'l'),
        mark("datareporting.policy.dataSubmissionEnabled"@) == (42nat, 'o', 'l'),
        mark("app.shield.optoutstudies.enabled"@) == (32nat, 'e', 'l'),
        mark("browser.newtabpage.activity-stream.feeds.telemetry"@) == (50nat, '.', 't'),
        mark("browser.newtabpage.activity-stream.telemetry"@) == (44nat, '.', 't'),
        mark("identity.fxaccounts.enabled"@) == (27nat, 'y', 'l'),
        mark("services.sync.enabled"@) == (21nat, 's', 'l'),
        mark("app.update.enabled"@) == (18nat, 'a', 'l'),
        mark("app.update.auto"@) == (15nat, 'a', 'u'),
        mark("app.update.service.enabled"@) == (26nat, 'a', 'l'),
        mark("extensions.update.enabled"@) == (25nat, 'o', 'l'),
        mark("browser.search.update"@) == (21nat, '.', 'a'),
{
    reveal_strlit("network.proxy.type");
    reveal_strlit("network.proxy.socks");
    reveal_strlit("network.proxy.socks_port");
    reveal_strlit("network.proxy.socks_version");
    reveal_strlit("network.proxy.socks_remote_dns");
    reveal_strlit("network.proxy.no_proxies_on");
    reveal_strlit("network.trr.mode");
    reveal_strlit("media.peerconnection.enabled");
    reveal_strlit("media.peerconnection.ice.no_host");
    reveal_strlit("media.peerconnection.ice.default_address_only");
    reveal_strlit("privacy.resistFingerprinting");
    reveal_strlit("privacy.resistFingerprinting.letterboxing");
    reveal_strlit("privacy.firstparty.isolate");
    reveal_strlit("privacy.trackingprotection.enabled");
    reveal_strlit("webgl.disabled");
    reveal_strlit("dom.webgpu.enabled");
    reveal_strlit("dom.webbluetooth.enabled");
    reveal_strlit("dom.webusb.enabled");
    reveal_strlit("dom.serial.enabled");
    reveal_strlit("dom.webmidi.enabled");
    reveal_strlit("device.sensors.enabled");
    reveal_strlit("dom.battery.enabled");
    reveal_strlit("intl.accept_languages");
    reveal_strlit("javascript.use_us_english_locale");
    reveal_strlit("toolkit.telemetry.enabled");
    reveal_strlit("toolkit.telemetry.unified");
    reveal_strlit("toolkit.telemetry.archive.enabled");
    reveal_strlit("datareporting.healthreport.uploadEnabled");
    reveal_strlit("datareporting.policy.dataSubmissionEnabled");
    reveal_strlit("app.shield.optoutstudies.enabled");
    reveal_strlit("browser.newtabpage.activity-stream.feeds.telemetry");
    reveal_strlit("browser.newtabpage.activity-stream.telemetry");
    reveal_strlit("identity.fxaccounts.enabled");
    reveal_strlit("services.sync.enabled");
    reveal_strlit("app.update.enabled");
    reveal_strlit("app.update.auto");
    reveal_strlit("app.update.service.enabled");
    reveal_strlit("extensions.update.enabled");
    reveal_strlit("browser.search.update");
}

/// Every Firefox launch goes through the SOCKS proxy, DNS too, with nothing
/// exempt and WebRTC off, whatever the fingerprint policy.
pub proof fn law_firefox_is_proxied(fp: FingerprintPolicy, host: Seq<char>, port: nat)
    ensures
        ({
            let p = firefox_preferences(fp, host, port);
            &&& p["network.proxy.type"@] == PolicyModel::Number(1)
            &&& p["network.proxy.socks"@] == PolicyModel::Words(host)
            &&& p["network.proxy.socks_port"@] == PolicyModel::Number(port as int)
            &&& p["network.proxy.socks_remote_dns"@] == PolicyModel::Flag(true)
            &&& p["network.proxy.no_proxies_on"@] == PolicyModel::Words(""@)
            &&& p["media.peerconnection.enabled"@] == PolicyModel::Flag(false)
        }),
{
    lemma_marks();
}

/// The placeholder runner of a backend without process control.
#[derive(Debug, Clone, Copy, PartialEq, Eq, Structural)]
pub struct NoRunner;

impl Default for NoRunner {
    fn default() -> (r: NoRunner)
        ensures
            r == NoRunner,
    {
        NoRunner
    }
}

impl NoRunner {
    /// Refused: there is no runner.
    pub fn start(&self, _slug: &str, _spec: &LaunchSpec) -> (r: Result<String, Error>)
        ensures
            r matches Err(Error::Unsupported(m)) && m@ == NO_RUNNER@,
    {
        Err(Error::Unsupported(NO_RUNNER.to_owned()))
    }

    /// Refused: there is no runner.
    pub fn is_running(&self, _token: &str) -> (r: Result<bool, Error>)
        ensures
            r matches Err(Error::Unsupported(m)) && m@ == NO_RUNNER@,
    {
        Err(Error::Unsupported(NO_RUNNER.to_owned()))
    }

    /// Refused: there is no runner.
    pub fn stop(&self, _token: &str) -> (r: Result<(), Error>)
        ensures
            r matches Err(Error::Unsupported(m)) && m@ == NO_RUNNER@,
    {
        Err(Error::Unsupported(NO_RUNNER.to_owned()))
    }
}

/// The Firefox backend: a runner, the program that it starts and its target.
#[derive(Debug)]
pub struct FirefoxBackend<R> {
    /// The runner that controls the process.
    pub runner: R,
    /// The executable name.
    pub program: String,
    /// The runner's target.
    pub slug: String,
}

impl FirefoxBackend<NoRunner> {
    /// A backend that renders policy and cannot launch.
    #[must_use]
    pub fn new() -> (r: FirefoxBackend<NoRunner>)
        ensures
            r.program@ == "firefox"@,
            r.slug@ == "firefox"@,
    {
        FirefoxBackend {
            runner: NoRunner,
            program: "firefox".to_owned(),
            slug: "firefox".to_owned(),
        }
    }
}

impl Default for FirefoxBackend<NoRunner> {
    fn default() -> (r: FirefoxBackend<NoRunner>)
        ensures
            r.program@ == "firefox"@,
            r.slug@ == "firefox"@,
    {
        FirefoxBackend::new()
    }
}

impl<R> FirefoxBackend<R> {
    /// A backend bound to a runner, a program name and a target.
    pub fn with_runner(runner: R, program: &str, slug: &str) -> (r: FirefoxBackend<R>)
        ensures
            r.runner == runner,
            r.program@ == program@,
            r.slug@ == slug@,
    {
        FirefoxBackend { runner, program: program.to_owned(), slug: slug.to_owned() }
    }

    /// Which backend this is.
    #[must_use]
    pub fn id(&self) -> (r: BrowserBackendId)
        ensures
            r == BrowserBackendId::Firefox,
    {
        BrowserBackendId::Firefox
    }

    /// What the backend can do: everything, letterboxing too.
    #[must_use]
    pub fn capabilities(&self) -> (r: BackendCapabilities)
        ensures
            r.letterboxing,
            r.site_isolation,
            r.renderer_sandbox,
            r.webrtc_policy,
    {
        BackendCapabilities {
            letterboxing: true,
            site_isolation: true,
            renderer_sandbox: true,
            webrtc_policy: true,
        }
    }

    /// Renders the policy for a request.
    pub fn render_policy(&self, req: &BrowserLaunchRequest) -> (r: Result<
        BackendPolicyBundle,
        Error,
    >)
        ensures
            match firefox_complaint(*req) {
                None => r matches Ok(b) && is_firefox_bundle(b, *req) && b.complaint(
                    req.production,
                ) is None,
                Some(why) => r matches Err(Error::Config(m)) && m@ == why,
            },
    {
        render_firefox_policy(req)
    }

    /// What the runner is to start once `user.js` is written: the vetted bundle's
    /// command line, verbatim. A bundle that is unsafe or of another backend is
    /// refused.
    pub fn launch_spec(&self, req: &BrowserLaunchRequest, bundle: &BackendPolicyBundle) -> (r: Result<
        LaunchSpec,
        Error,
    >)
        ensures
            match r {
                Ok(s) => {
                    &&& bundle.complaint(req.production) is None
                    &&& bundle.backend == BrowserBackendId::Firefox
                    &&& plans_launch(s, self.program@, *req, *bundle)
                },
                Err(Error::Config(m)) => {
                    ||| bundle.complaint(req.production) == Some(m@)
                    ||| bundle.complaint(req.production) is None && bundle.backend
                        != BrowserBackendId::Firefox && m@
                        == "bundle backend does not match FirefoxBackend"@
                },
                Err(_) => false,
            },
    {
        match bundle.assert_safe(req.production) {
            Ok(_) => {},
            Err(e) => {
                return Err(e);
            },
        }
        if bundle.backend != BrowserBackendId::Firefox {
            return Err(Error::Config("bundle backend does not match FirefoxBackend".to_owned()));
        }
        Ok(launch_plan(self.program.as_str(), req, bundle))
    }

    /// The handle of a process that the runner started.
    #[must_use]
    pub fn handle(&self, req: &BrowserLaunchRequest, token: String) -> (r: BrowserHandle)
        ensures
            r.session == req.session,
            r.backend == BrowserBackendId::Firefox,
            r.process_token == token,
    {
        BrowserHandle {
            session: req.session,
            backend: BrowserBackendId::Firefox,
            process_token: token,
        }
    }
}

/// With a policy that breaks no rule, sensors, the battery and every device
/// interface are off in the rendered preferences.
pub proof fn law_firefox_blocks_devices(bundle: BackendPolicyBundle, req: BrowserLaunchRequest)
    requires
        is_firefox_bundle(bundle, req),
        req.fingerprint.violation() is None,
    ensures
        bundle.preferences@["device.sensors.enabled"@] == PolicyModel::Flag(false),
        bundle.preferences@["dom.battery.enabled"@] == PolicyModel::Flag(false),
        bundle.preferences@["dom.webbluetooth.enabled"@] == PolicyModel::Flag(false),
        bundle.preferences@["dom.webusb.enabled"@] == PolicyModel::Flag(false),
        bundle.preferences@["dom.serial.enabled"@] == PolicyModel::Flag(false),
        bundle.preferences@["dom.webmidi.enabled"@] == PolicyModel::Flag(false),
        bundle.preferences@["dom.webgpu.enabled"@] == PolicyModel::Flag(false),
{
    lemma_marks();
}

/// Each switch of the policy has its own preference, and moves that one alone:
/// sensors, battery, device interfaces, WebGL, letterboxing and language.
pub proof fn law_firefox_follows_the_policy(bundle: BackendPolicyBundle, req: BrowserLaunchRequest)
    requires
        is_firefox_bundle(bundle, req),
    ensures
        ({
            let p = bundle.preferences@;
            let fp = req.fingerprint;
            &&& p["device.sensors.enabled"@] == PolicyModel::Flag(!fp.disable_sensor_apis)
            &&& p["dom.battery.enabled"@] == PolicyModel::Flag(!fp.disable_battery_api)
            &&& fp.webgl is Disabled <==> p["webgl.disabled"@] == PolicyModel::Flag(true)
            &&& fp.webgl !is Disabled <==> p["webgl.disabled"@] == PolicyModel::Flag(false)
            &&& fp.level is Strict ==> p["privacy.resistFingerprinting.letterboxing"@]
                == PolicyModel::Flag(true)
            &&& fp.level is Balanced ==> p["privacy.resistFingerprinting.letterboxing"@]
                == PolicyModel::Flag(fp.letterbox is On)
            &&& p["intl.accept_languages"@] == PolicyModel::Words(fp.primary_language@)
        }),
{
    lemma_marks();
}

/// Whatever the request, fingerprints are resisted and sites kept apart, nothing
/// asks DNS past the proxy, WebRTC shows no address, and the browser neither
/// reports, nor syncs, nor updates itself. These are all the preferences there are.
pub proof fn law_firefox_stays_quiet(bundle: BackendPolicyBundle, req: BrowserLaunchRequest)
    requires
        is_firefox_bundle(bundle, req),
    ensures
        bundle.backend is Firefox,
        bundle.preferences@["network.proxy.socks_remote_dns"@] == PolicyModel::Flag(true),
        bundle.preferences@["media.peerconnection.ice.no_host"@] == PolicyModel::Flag(true),
        bundle.preferences@["media.peerconnection.ice.default_address_only"@] == PolicyModel::Flag(true),
        bundle.preferences@["privacy.resistFingerprinting"@] == PolicyModel::Flag(true),
        bundle.preferences@["privacy.firstparty.isolate"@] == PolicyModel::Flag(true),
        bundle.preferences@["privacy.trackingprotection.enabled"@] == PolicyModel::Flag(true),
        bundle.preferences@["javascript.use_us_english_locale"@] == PolicyModel::Flag(true),
        bundle.preferences@["media.peerconnection.enabled"@] == PolicyModel::Flag(false),
        bundle.preferences@["dom.webgpu.enabled"@] == PolicyModel::Flag(false),
        bundle.preferences@["toolkit.telemetry.enabled"@] == PolicyModel::Flag(false),
        bundle.preferences@["toolkit.telemetry.unified"@] == PolicyModel::Flag(false),
        bundle.preferences@["toolkit.telemetry.archive.enabled"@] == PolicyModel::Flag(false),
        bundle.preferences@["datareporting.healthreport.uploadEnabled"@] == PolicyModel::Flag(false),
        bundle.preferences@["datareporting.policy.dataSubmissionEnabled"@] == PolicyModel::Flag(false),
        bundle.preferences@["app.shield.optoutstudies.enabled"@] == PolicyModel::Flag(false),
        bundle.preferences@["browser.newtabpage.activity-stream.feeds.telemetry"@] == PolicyModel::Flag(false),
        bundle.preferences@["browser.newtabpage.activity-stream.telemetry"@] == PolicyModel::Flag(false),
        bundle.preferences@["identity.fxaccounts.enabled"@] == PolicyModel::Flag(false),
        bundle.preferences@["services.sync.enabled"@] == PolicyModel::Flag(false),
        bundle.preferences@["app.update.enabled"@] == PolicyModel::Flag(false),
        bundle.preferences@["app.update.auto"@] == PolicyModel::Flag(false),
        bundle.preferences@["app.update.service.enabled"@] == PolicyModel::Flag(false),
        bundle.preferences@["extensions.update.enabled"@] == PolicyModel::Flag(false),
        bundle.preferences@["browser.search.update"@] == PolicyModel::Flag(false),
        bundle.preferences@["network.proxy.type"@] == PolicyModel::Number(1),
        bundle.preferences@["network.proxy.socks_version"@] == PolicyModel::Number(5),
        bundle.preferences@["network.proxy.no_proxies_on"@] == PolicyModel::Words(""@),
        bundle.preferences@["network.trr.mode"@] == PolicyModel::Number(5),
        bundle.managed_policies@ == Map::<Seq<char>, PolicyTable>::empty(),
        bundle.preferences@.dom() == set![
            "network.proxy.type"@,
            "network.proxy.socks"@,
            "network.proxy.socks_port"@,
            "network.proxy.socks_version"@,
            "network.proxy.socks_remote_dns"@,
            "network.proxy.no_proxies_on"@,
            "network.trr.mode"@,
            "media.peerconnection.enabled"@,
            "media.peerconnection.ice.no_host"@,
            "media.peerconnection.ice.default_address_only"@,
            "privacy.resistFingerprinting"@,
            "privacy.resistFingerprinting.letterboxing"@,
            "privacy.firstparty.isolate"@,
            "privacy.trackingprotection.enabled"@,
            "webgl.disabled"@,
            "dom.webgpu.enabled"@,
            "dom.webbluetooth.enabled"@,
            "dom.webusb.enabled"@,
            "dom.serial.enabled"@,
            "dom.webmidi.enabled"@,
            "device.sensors.enabled"@,
            "dom.battery.enabled"@,
            "intl.accept_languages"@,
            "javascript.use_us_english_locale"@,
            "toolkit.telemetry.enabled"@,
            "toolkit.telemetry.unified"@,
            "toolkit.telemetry.archive.enabled"@,
            "datareporting.healthreport.uploadEnabled"@,
            "datareporting.policy.dataSubmissionEnabled"@,
            "app.shield.optoutstudies.enabled"@,
            "browser.newtabpage.activity-stream.feeds.telemetry"@,
            "browser.newtabpage.activity-stream.telemetry"@,
            "identity.fxaccounts.enabled"@,
            "services.sync.enabled"@,
            "app.update.enabled"@,
            "app.update.auto"@,
            "app.update.service.enabled"@,
            "extensions.update.enabled"@,
            "browser.search.update"@,
        ],
{
    lemma_marks();
    let p = bundle.preferences@;
    assert(p.dom() =~= set![
        "network.proxy.type"@,
        "network.proxy.socks"@,
        "network.proxy.socks_port"@,
        "network.proxy.socks_version"@,
        "network.proxy.socks_remote_dns"@,
        "network.proxy.no_proxies_on"@,
        "network.trr.mode"@,
        "media.peerconnection.enabled"@,
        "media.peerconnection.ice.no_host"@,
        "media.peerconnection.ice.default_address_only"@,
        "privacy.resistFingerprinting"@,
        "privacy.resistFingerprinting.letterboxing"@,
        "privacy.firstparty.isolate"@,
        "privacy.trackingprotection.enabled"@,
        "webgl.disabled"@,
        "dom.webgpu.enabled"@,
        "dom.webbluetooth.enabled"@,
        "dom.webusb.enabled"@,
        "dom.serial.enabled"@,
        "dom.webmidi.enabled"@,
        "device.sensors.enabled"@,
        "dom.battery.enabled"@,
        "intl.accept_languages"@,
        "javascript.use_us_english_locale"@,
        "toolkit.telemetry.enabled"@,
        "toolkit.telemetry.unified"@,
        "toolkit.telemetry.archive.enabled"@,
        "datareporting.healthreport.uploadEnabled"@,
        "datareporting.policy.dataSubmissionEnabled"@,
        "app.shield.optoutstudies.enabled"@,
        "browser.newtabpage.activity-stream.feeds.telemetry"@,
        "browser.newtabpage.activity-stream.telemetry"@,
        "identity.fxaccounts.enabled"@,
        "services.sync.enabled"@,
        "app.update.enabled"@,
        "app.update.auto"@,
        "app.update.service.enabled"@,
        "extensions.update.enabled"@,
        "browser.search.update"@,
    ]);
}

/// The SOCKS proxy of the preferences is the one of the request: whatever scheme
/// stands before it, or none, the host and the port of the endpoint are what
/// Firefox is told.
pub proof fn law_firefox_uses_the_requested_proxy(
    bundle: BackendPolicyBundle,
    req: BrowserLaunchRequest,
    scheme: Seq<char>,
    host: Seq<char>,
    port: u16,
)
    requires
        is_firefox_bundle(bundle, req),
        host.len() > 0,
        !text::mentions(host, "://"@),
        req.proxy_endpoint@ == scheme + "://"@ + (host + ":"@ + text::dec(port as nat))
            || req.proxy_endpoint@ == host + ":"@ + text::dec(port as nat),
    ensures
        bundle.preferences@["network.proxy.socks"@] == PolicyModel::Words(host),
        bundle.preferences@["network.proxy.socks_port"@] == PolicyModel::Number(port as int),
{
    lemma_marks();
    text::lemma_authority(scheme, host, port as nat);
}

/// Firefox is started on its own: as an instance that no other one answers for,
/// and with the requested directory, and nothing else, as its profile.
pub proof fn law_firefox_keeps_to_its_profile(bundle: BackendPolicyBundle, req: BrowserLaunchRequest)
    requires
        is_firefox_bundle(bundle, req),
    ensures
        text::texts(bundle.command_line@).len() == 4,
        text::texts(bundle.command_line@).contains("-no-remote"@),
        text::texts(bundle.command_line@).contains("-new-instance"@),
        text::texts(bundle.command_line@)[2] == "-profile"@,
        text::texts(bundle.command_line@)[3] == req.user_data_dir@,
{
    let args = text::texts(bundle.command_line@);
    assert(args[0] == "-no-remote"@);
    assert(args[1] == "-new-instance"@);
}

/// A preferences file is one comment line and then one statement for each
/// preference, whatever comes before or after it: the key in quotes, and the value
/// as a literal.
pub proof fn law_every_preference_has_its_line(
    rows: Seq<(Seq<char>, PolicyValue)>,
    key: Seq<char>,
    value: PolicyValue,
)
    ensures
        pref_lines(rows.push((key, value))) == pref_lines(rows) + ("user_pref(\""@ + key + "\", "@
            + json_text(value@) + ");\n"@),
        pref_lines(Seq::empty()) == Seq::<char>::empty(),
        json_text(PolicyModel::Flag(true)) == "true"@,
        json_text(PolicyModel::Flag(false)) == "false"@,
        USER_JS_HEADER@.len() > 2 && USER_JS_HEADER@[0] == '/' && USER_JS_HEADER@[1] == '/'
            && USER_JS_HEADER@.last() == '\n',
        forall|i: int| 0 <= i < USER_JS_HEADER@.len() - 1 ==> USER_JS_HEADER@[i] != '\n',
        PREFS_FILE@ == "user.js"@,
{
    assert(rows.push((key, value)).drop_last() =~= rows);
    reveal_strlit("// Generated by Aegis Private Browser. Do not edit; regenerated on every launch.\n");
}

} // verus!
