//! Tests of the browser backends, the runners and the search for a browser.

use aegis::browser::{BackendPolicyBundle, BrowserBackendId, BrowserHandle, BrowserLaunchRequest};
use aegis::chromium::{render_chromium_policy, ChromiumBackend, MANAGED_POLICY_FILE};
use aegis::config::RenderMode;
use aegis::error::Error;
use aegis::firefox::{
    parse_socks_endpoint, prefs_file_failed, profile_dir_failed, render_user_js, FirefoxBackend,
    NoRunner, NO_RUNNER, USER_JS_HEADER,
};
use aegis::fingerprint::{FingerprintPolicy, ProtectionLevel};
use aegis::host_runner::{
    choose_binary, env_value, first_file, locate_firefox, program_files, resolve_browser_binary,
    search_default_browser, search_windows, windows_candidates, HostBrowserRunner, Polled,
    ResolverEnv, BROWSER_BIN_ENV, FIREFOX_BIN_ENV,
};
use aegis::ids::{ProfileId, SessionId};
use aegis::permissions::{Feature, PermissionPolicy};
use aegis::policy::{PolicyTable, PolicyValue};
use aegis::runner::{launch_plan, GuestChannelRunner, LaunchSpec, MockRunner, NO_GUEST_CHANNEL};
use std::collections::{HashMap, HashSet};

fn flag(v: bool) -> Option<PolicyValue> {
    Some(PolicyValue::Flag(v))
}

fn number(v: i64) -> Option<PolicyValue> {
    Some(PolicyValue::Number(v))
}

fn words(v: &str) -> Option<PolicyValue> {
    Some(PolicyValue::words(v))
}

fn at(table: &PolicyTable, key: &str) -> Option<PolicyValue> {
    table.get(key).map(|v| match v {
        PolicyValue::Flag(b) => PolicyValue::Flag(*b),
        PolicyValue::Number(n) => PolicyValue::Number(*n),
        PolicyValue::Words(s) => PolicyValue::Words(s.clone()),
    })
}

fn cmd_has(cmd: &[String], needle: &str) -> bool {
    cmd.iter().any(|a| a == needle)
}

fn cmd_has_prefix(cmd: &[String], prefix: &str) -> bool {
    cmd.iter().any(|a| a.starts_with(prefix))
}

// --- Chromium ---------------------------------------------------------------

fn request(level: ProtectionLevel, production: bool) -> BrowserLaunchRequest {
    let fp = match level {
        ProtectionLevel::Balanced => FingerprintPolicy::balanced(),
        ProtectionLevel::Strict => FingerprintPolicy::strict(),
    };
    BrowserLaunchRequest {
        session: SessionId::new(),
        profile: ProfileId::new(),
        user_data_dir: "/home/user/.aegis/profile".to_string(),
        fingerprint: fp,
        permissions: PermissionPolicy::secure_default(),
        proxy_endpoint: "socks5://10.152.152.10:9050".to_string(),
        render_mode: RenderMode::Software,
        production,
    }
}

#[test]
fn balanced_command_line_has_core_flags_and_no_forbidden() {
    let req = request(ProtectionLevel::Balanced, true);
    let b = render_chromium_policy(&req).unwrap();

    assert!(cmd_has(&b.command_line, "--user-data-dir=/home/user/.aegis/profile"));
    assert!(cmd_has(&b.command_line, "--proxy-server=socks5://10.152.152.10:9050"));
    assert!(cmd_has(
        &b.command_line,
        "--force-webrtc-ip-handling-policy=disable_non_proxied_udp"
    ));
    assert!(cmd_has(&b.command_line, "--disable-sync"));

    // Forbidden flags must never appear.
    assert!(!cmd_has(&b.command_line, "--no-sandbox"));
    assert!(!cmd_has(&b.command_line, "--disable-web-security"));
    assert!(!cmd_has(&b.command_line, "--disable-site-isolation-trials"));
    // No remote debugging in production.
    assert!(!cmd_has_prefix(&b.command_line, "--remote-debugging"));

    // assert_safe must pass for the produced bundle.
    assert!(b.assert_safe(true).is_ok());
}

#[test]
fn strict_reflects_webgl_and_webgpu_disabled() {
    let req = request(ProtectionLevel::Strict, true);
    let b = render_chromium_policy(&req).unwrap();

    assert!(cmd_has(&b.command_line, "--disable-webgl"));
    assert!(cmd_has(&b.command_line, "--disable-webgl2"));
    assert!(cmd_has(&b.command_line, "--disable-webgpu"));
    assert!(b
        .command_line
        .iter()
        .any(|a| a.contains("WebGPU") && a.starts_with("--disable-features")));

    // Still has the essentials and no forbidden flags.
    assert!(cmd_has(&b.command_line, "--user-data-dir=/home/user/.aegis/profile"));
    assert!(cmd_has(
        &b.command_line,
        "--force-webrtc-ip-handling-policy=disable_non_proxied_udp"
    ));
    assert!(!cmd_has(&b.command_line, "--no-sandbox"));
    assert!(!cmd_has_prefix(&b.command_line, "--remote-debugging"));
    assert!(b.assert_safe(true).is_ok());
}

#[test]
fn balanced_keeps_webgl_backend_enabled() {
    let req = request(ProtectionLevel::Balanced, false);
    let b = render_chromium_policy(&req).unwrap();
    // Balanced uses the virtual WebGL backend, so it must NOT disable WebGL.
    assert!(!cmd_has(&b.command_line, "--disable-webgl"));
    // WebGPU is off in both levels per the core policy.
    assert!(cmd_has(&b.command_line, "--disable-webgpu"));
}

#[test]
fn managed_policies_are_hardened() {
    let req = request(ProtectionLevel::Balanced, true);
    let b = render_chromium_policy(&req).unwrap();
    let doc = b.managed_policies.get(MANAGED_POLICY_FILE).expect("managed policy file present");

    assert_eq!(at(doc, "SyncDisabled"), flag(true));
    assert_eq!(at(doc, "MetricsReportingEnabled"), flag(false));
    assert_eq!(at(doc, "BrowserSignin"), number(0));
    assert_eq!(at(doc, "RemoteDebuggingAllowed"), flag(false));
    assert_eq!(at(doc, "DefaultGeolocationSetting"), number(2));
    assert_eq!(at(doc, "AudioCaptureAllowed"), flag(false));
    assert_eq!(at(doc, "VideoCaptureAllowed"), flag(false));
    assert_eq!(at(doc, "DefaultSensorsSetting"), number(2));

    // Device guards all blocked (== 2).
    for k in [
        "DefaultWebBluetoothGuardSetting",
        "DefaultWebUsbGuardSetting",
        "DefaultSerialGuardSetting",
        "DefaultHidGuardSetting",
        "DefaultWebHidGuardSetting",
    ] {
        assert_eq!(at(doc, k), number(2), "device guard {k} must be block(2)");
    }

    // Notifications default is Ask (3) from the secure default table.
    assert_eq!(at(doc, "DefaultNotificationsSetting"), number(3));
    // Clipboard read is blocked by default.
    assert_eq!(at(doc, "DefaultClipboardSetting"), number(2));
    // Downloads prompt for location (quarantine hardening).
    assert_eq!(at(doc, "PromptForDownloadLocation"), flag(true));
}

#[test]
fn capture_reflects_granted_permission() {
    let mut req = request(ProtectionLevel::Balanced, true);
    // Grant camera + mic for the policy-default origin used by the renderer.
    req.permissions.grant("https://example.invalid", Feature::Camera).unwrap();
    req.permissions.grant("https://example.invalid", Feature::Microphone).unwrap();
    let b = render_chromium_policy(&req).unwrap();
    let doc = b.managed_policies.get(MANAGED_POLICY_FILE).unwrap();
    assert_eq!(at(doc, "VideoCaptureAllowed"), flag(true));
    assert_eq!(at(doc, "AudioCaptureAllowed"), flag(true));
    // Device guards remain blocked regardless.
    assert_eq!(at(doc, "DefaultWebUsbGuardSetting"), number(2));
}

#[test]
fn non_production_permits_no_debugging_but_allows_it_if_present() {
    // In dev builds render_policy does not itself add remote-debugging, but a
    // bundle that had it would still pass assert_safe(false).
    let req = request(ProtectionLevel::Balanced, false);
    let b = render_chromium_policy(&req).unwrap();
    assert!(!cmd_has_prefix(&b.command_line, "--remote-debugging"));
    assert!(b.assert_safe(false).is_ok());
}

#[test]
fn production_render_with_debug_attempt_is_rejected() {
    // Simulate a caller trying to sneak remote debugging into a prod bundle:
    // assert_safe (called inside render + launch) must reject it.
    let req = request(ProtectionLevel::Balanced, true);
    let mut b = render_chromium_policy(&req).unwrap();
    b.command_line.push("--remote-debugging-port=9222".to_string());
    assert!(b.assert_safe(true).is_err());
}

#[test]
fn chromium_invalid_fingerprint_policy_is_rejected() {
    let mut req = request(ProtectionLevel::Strict, true);
    // Corrupt the policy so it violates an invariant (WebGPU on in Strict).
    req.fingerprint.webgpu_enabled = true;
    let e = render_chromium_policy(&req).err().unwrap();
    assert!(matches!(e, Error::Config(_)));
}

fn launch(
    backend: &mut ChromiumBackend<MockRunner>,
    req: &BrowserLaunchRequest,
    bundle: &BackendPolicyBundle,
) -> Result<BrowserHandle, Error> {
    let spec = backend.launch_spec(req, bundle)?;
    let slug = backend.vm_slug.clone();
    let token = backend.runner.start(&slug, &spec)?;
    Ok(backend.handle(req, token))
}

#[test]
fn launch_returns_handle_and_lifecycle_works() {
    let mut backend = ChromiumBackend::new(MockRunner::new(), "chromium", "vm-browser-01");
    let req = request(ProtectionLevel::Strict, true);
    let bundle = backend.render_policy(&req).unwrap();

    let handle = launch(&mut backend, &req, &bundle).unwrap();
    assert_eq!(handle.backend, BrowserBackendId::Chromium);
    assert_eq!(handle.session, req.session);
    assert!(!handle.process_token.is_empty());

    assert!(backend.runner.is_running(&handle.process_token).unwrap());
    backend.runner.stop(&handle.process_token).unwrap();
    assert!(!backend.runner.is_running(&handle.process_token).unwrap());
}

#[test]
fn launch_sets_tz_and_lang_env() {
    let mut backend = ChromiumBackend::new(MockRunner::new(), "chromium", "vm-1");
    let req = request(ProtectionLevel::Balanced, true);
    let bundle = backend.render_policy(&req).unwrap();
    let _ = launch(&mut backend, &req, &bundle).unwrap();

    let launched = backend.runner.launched();
    let (_, spec) = &launched[0];
    assert!(spec.env.iter().any(|(k, v)| k == "TZ" && v == "UTC"));
    assert!(spec.env.iter().any(|(k, v)| k == "LANGUAGE" && v == "en-US"));
    assert!(cmd_has(&spec.args, "--lang=en-US"));
}

#[test]
fn launch_rejects_tampered_bundle_in_production() {
    let mut backend = ChromiumBackend::new(MockRunner::new(), "chromium", "vm-1");
    let req = request(ProtectionLevel::Balanced, true);
    let mut bundle = backend.render_policy(&req).unwrap();
    bundle.command_line.push("--no-sandbox".to_string());
    let e = launch(&mut backend, &req, &bundle).unwrap_err();
    assert!(matches!(e, Error::Config(_)));
}

#[test]
fn launch_propagates_runner_failure() {
    let mut backend = ChromiumBackend::new(MockRunner::failing(), "chromium", "vm-1");
    let req = request(ProtectionLevel::Balanced, true);
    let bundle = backend.render_policy(&req).unwrap();
    let e = launch(&mut backend, &req, &bundle).unwrap_err();
    assert!(matches!(e, Error::System(_)));
}

// --- Firefox ----------------------------------------------------------------

fn ff_request(fp: FingerprintPolicy) -> BrowserLaunchRequest {
    request_with_dir(fp, "/profile")
}

fn request_with_dir(fp: FingerprintPolicy, dir: &str) -> BrowserLaunchRequest {
    BrowserLaunchRequest {
        session: SessionId::new(),
        profile: ProfileId::new(),
        user_data_dir: dir.to_string(),
        fingerprint: fp,
        permissions: PermissionPolicy::secure_default(),
        proxy_endpoint: "socks5://127.0.0.1:9050".into(),
        render_mode: RenderMode::Software,
        production: true,
    }
}

#[test]
fn id_and_capabilities() {
    let b = FirefoxBackend::new();
    assert_eq!(b.id(), BrowserBackendId::Firefox);
    let caps = b.capabilities();
    assert!(caps.letterboxing);
    assert!(caps.site_isolation);
    assert!(caps.webrtc_policy);
}

#[test]
fn render_policy_sets_socks_proxy_from_endpoint() {
    let b = FirefoxBackend::new();
    let bundle = b.render_policy(&ff_request(FingerprintPolicy::balanced())).unwrap();
    let p = &bundle.preferences;
    // Routed through the host SOCKS proxy, port parsed from the endpoint.
    assert_eq!(at(p, "network.proxy.type"), number(1));
    assert_eq!(at(p, "network.proxy.socks"), words("127.0.0.1"));
    assert_eq!(at(p, "network.proxy.socks_port"), number(9050));
    assert_eq!(at(p, "network.proxy.socks_version"), number(5));
    assert_eq!(at(p, "network.proxy.socks_remote_dns"), flag(true));
}

#[test]
fn socks_port_parsed_from_alternate_endpoint() {
    let b = FirefoxBackend::new();
    let mut req = ff_request(FingerprintPolicy::balanced());
    // Tor Browser bundle SOCKS port, no scheme.
    req.proxy_endpoint = "127.0.0.1:9150".into();
    let bundle = b.render_policy(&req).unwrap();
    assert_eq!(at(&bundle.preferences, "network.proxy.socks_port"), number(9150));
    assert_eq!(at(&bundle.preferences, "network.proxy.socks"), words("127.0.0.1"));
}

#[test]
fn render_policy_disables_webrtc_and_enables_resist_fingerprinting() {
    let b = FirefoxBackend::new();
    let bundle = b.render_policy(&ff_request(FingerprintPolicy::balanced())).unwrap();
    let p = &bundle.preferences;
    assert_eq!(at(p, "media.peerconnection.enabled"), flag(false));
    assert_eq!(at(p, "privacy.resistFingerprinting"), flag(true));
    // Telemetry / sync / updater all off.
    assert_eq!(at(p, "toolkit.telemetry.enabled"), flag(false));
    assert_eq!(at(p, "services.sync.enabled"), flag(false));
    assert_eq!(at(p, "app.update.enabled"), flag(false));
}

#[test]
fn command_line_launches_firefox_with_profile_and_no_forbidden() {
    let b = FirefoxBackend::new();
    let bundle = b
        .render_policy(&request_with_dir(
            FingerprintPolicy::balanced(),
            "/home/user/.aegis/ff-profile",
        ))
        .unwrap();
    assert!(cmd_has(&bundle.command_line, "-no-remote"));
    assert!(cmd_has(&bundle.command_line, "-new-instance"));
    assert!(cmd_has(&bundle.command_line, "-profile"));
    assert!(cmd_has(&bundle.command_line, "/home/user/.aegis/ff-profile"));
    // -profile is immediately followed by the dir.
    let idx = bundle.command_line.iter().position(|a| a == "-profile").unwrap();
    assert_eq!(bundle.command_line[idx + 1], "/home/user/.aegis/ff-profile");
    // No forbidden Chromium-style flags; assert_safe passes.
    assert!(!cmd_has(&bundle.command_line, "--no-sandbox"));
    assert!(!cmd_has(&bundle.command_line, "--disable-web-security"));
    assert!(bundle.assert_safe(true).is_ok());
}

#[test]
fn strict_enables_letterboxing_and_disables_webgl() {
    let b = FirefoxBackend::new();
    let bundle = b.render_policy(&ff_request(FingerprintPolicy::strict())).unwrap();
    let p = &bundle.preferences;
    assert_eq!(at(p, "privacy.resistFingerprinting.letterboxing"), flag(true));
    assert_eq!(at(p, "webgl.disabled"), flag(true));
    assert_eq!(at(p, "dom.webgpu.enabled"), flag(false));
    assert_eq!(at(p, "dom.webusb.enabled"), flag(false));
}

#[test]
fn balanced_keeps_webgl_enabled_and_no_letterbox() {
    let b = FirefoxBackend::new();
    let bundle = b.render_policy(&ff_request(FingerprintPolicy::balanced())).unwrap();
    assert_eq!(at(&bundle.preferences, "webgl.disabled"), flag(false));
    assert_eq!(
        at(&bundle.preferences, "privacy.resistFingerprinting.letterboxing"),
        flag(false)
    );
}

#[test]
fn invalid_proxy_endpoint_is_rejected() {
    let b = FirefoxBackend::new();
    let mut req = ff_request(FingerprintPolicy::balanced());
    req.proxy_endpoint = "socks5://no-port-here".into();
    let e = b.render_policy(&req).err().unwrap();
    assert!(matches!(e, Error::Config(_)));
}

#[test]
fn firefox_invalid_fingerprint_policy_is_rejected() {
    let b = FirefoxBackend::new();
    let mut req = ff_request(FingerprintPolicy::strict());
    req.fingerprint.webgpu_enabled = true; // violates a Strict invariant
    let e = b.render_policy(&req).err().unwrap();
    assert!(matches!(e, Error::Config(_)));
}

#[test]
fn render_user_js_produces_user_pref_lines() {
    let b = FirefoxBackend::new();
    let bundle = b.render_policy(&ff_request(FingerprintPolicy::balanced())).unwrap();
    let text = render_user_js(&bundle.preferences);
    assert!(text.contains(r#"user_pref("network.proxy.type", 1);"#));
    assert!(text.contains(r#"user_pref("network.proxy.socks", "127.0.0.1");"#));
    assert!(text.contains(r#"user_pref("network.proxy.socks_port", 9050);"#));
    assert!(text.contains(r#"user_pref("media.peerconnection.enabled", false);"#));
    assert!(text.contains(r#"user_pref("privacy.resistFingerprinting", true);"#));
}

#[test]
fn user_js_is_sorted_by_key_below_its_header() {
    let mut t = PolicyTable::new();
    t.put("b", PolicyValue::Number(2));
    t.put("a", PolicyValue::words("x\\y"));
    let text = render_user_js(&t);
    assert!(text.starts_with(USER_JS_HEADER));
    let a = text.find(r#"user_pref("a", "x\\y");"#).unwrap();
    let b = text.find(r#"user_pref("b", 2);"#).unwrap();
    assert!(a < b);
}

#[test]
fn launch_without_runner_is_unsupported() {
    let b = FirefoxBackend::new();
    let req = ff_request(FingerprintPolicy::balanced());
    let bundle = b.render_policy(&req).unwrap();
    let spec = b.launch_spec(&req, &bundle).unwrap();
    let e = b.runner.start(&b.slug, &spec).unwrap_err();
    assert!(matches!(e, Error::Unsupported(_)));
    assert_eq!(e.text(), format!("unsupported: {NO_RUNNER}"));
    assert!(matches!(NoRunner.is_running("t"), Err(Error::Unsupported(_))));
    assert!(matches!(NoRunner.stop("t"), Err(Error::Unsupported(_))));
}

#[test]
fn launch_with_runner_passes_the_profile_and_returns_handle() {
    let mut b = FirefoxBackend::with_runner(MockRunner::new(), "firefox", "host");
    let req = request_with_dir(FingerprintPolicy::balanced(), "/tmp/ff-profile");
    let bundle = b.render_policy(&req).unwrap();
    let spec = b.launch_spec(&req, &bundle).unwrap();
    let slug = b.slug.clone();
    let token = b.runner.start(&slug, &spec).unwrap();
    let handle = b.handle(&req, token);
    assert_eq!(handle.backend, BrowserBackendId::Firefox);
    assert!(!handle.process_token.is_empty());

    // The runner saw the firefox command line with -profile.
    let launched = b.runner.launched();
    let (_, spec) = &launched[0];
    assert!(cmd_has(&spec.args, "-no-remote"));
    assert!(cmd_has(&spec.args, "-profile"));

    // Lifecycle works through the runner.
    assert!(b.runner.is_running(&handle.process_token).unwrap());
    b.runner.stop(&handle.process_token).unwrap();
    assert!(!b.runner.is_running(&handle.process_token).unwrap());
}

#[test]
fn launch_rejects_bundle_from_wrong_backend() {
    let b = FirefoxBackend::with_runner(MockRunner::new(), "firefox", "host");
    let req = ff_request(FingerprintPolicy::balanced());
    let mut bundle = b.render_policy(&req).unwrap();
    bundle.backend = BrowserBackendId::Chromium;
    let e = b.launch_spec(&req, &bundle).err().unwrap();
    assert!(matches!(e, Error::Config(_)));
}

#[test]
fn socks_endpoints_are_split_at_the_last_colon() {
    assert_eq!(parse_socks_endpoint("socks5h://h:1").unwrap(), ("h".to_string(), 1));
    assert_eq!(parse_socks_endpoint("a:b:65535").unwrap(), ("a:b".to_string(), 65535));
    for bad in ["h", "h:", ":1", "h:65536", "h:x"] {
        assert!(matches!(parse_socks_endpoint(bad), Err(Error::Config(_))), "{bad}");
    }
}

// --- the backends together --------------------------------------------------

#[test]
fn backends_report_expected_ids() {
    let chromium = ChromiumBackend::new(MockRunner::new(), "chromium", "vm-1");
    assert_eq!(chromium.id(), BrowserBackendId::Chromium);
    assert!(chromium.capabilities().site_isolation);
    assert!(chromium.capabilities().renderer_sandbox);

    let firefox = FirefoxBackend::new();
    assert_eq!(firefox.id(), BrowserBackendId::Firefox);
    assert!(firefox.capabilities().letterboxing);
}

// --- runners ----------------------------------------------------------------

fn spec() -> LaunchSpec {
    LaunchSpec { program: "chromium".into(), args: vec![], env: vec![] }
}

#[test]
fn guest_channel_runner_is_unsupported_off_linux() {
    let r = GuestChannelRunner::new("/usr/lib/aegis/guest-control");
    let e = r.start("vm-abc", &spec()).unwrap_err();
    assert!(matches!(e, Error::Unsupported(_)));
    assert_eq!(e.text(), format!("unsupported: {NO_GUEST_CHANNEL}"));
    assert!(matches!(r.is_running("t").unwrap_err(), Error::Unsupported(_)));
    assert!(matches!(r.stop("t").unwrap_err(), Error::Unsupported(_)));
    assert_eq!(r.control_helper.as_deref(), Some("/usr/lib/aegis/guest-control"));
    assert!(GuestChannelRunner::default().control_helper.is_none());
}

#[test]
fn mock_runner_tracks_lifecycle() {
    let mut r = MockRunner::new();
    let spec = LaunchSpec {
        program: "chromium".into(),
        args: vec!["--user-data-dir=/x".into()],
        env: vec![("TZ".into(), "UTC".into())],
    };
    let token = r.start("vm-1", &spec).unwrap();
    assert!(r.is_running(&token).unwrap());
    assert_eq!(r.launched().len(), 1);
    assert_eq!(r.launched()[0].1, spec);
    r.stop(&token).unwrap();
    assert!(!r.is_running(&token).unwrap());
}

#[test]
fn mock_runner_stop_is_idempotent_and_unknown_is_notfound() {
    let mut r = MockRunner::new();
    // stop on unknown token is fine (idempotent).
    r.stop("nope").unwrap();
    // but is_running on a never-seen token is NotFound.
    assert!(matches!(r.is_running("never").unwrap_err(), Error::NotFound(_)));
}

#[test]
fn failing_mock_returns_system_error() {
    let mut r = MockRunner::failing();
    assert!(matches!(r.start("vm-1", &spec()).unwrap_err(), Error::System(_)));
}

#[test]
fn mock_runner_marks_a_crash() {
    let mut r = MockRunner::new();
    let a = r.start("vm-1", &spec()).unwrap();
    let b = r.start("vm-2", &spec()).unwrap();
    assert_ne!(a, b);
    r.mark_stopped(&a);
    assert!(!r.is_running(&a).unwrap());
    assert!(r.is_running(&b).unwrap());
}

#[test]
fn launch_plans_carry_the_command_line() {
    let req = request(ProtectionLevel::Balanced, true);
    let bundle = render_chromium_policy(&req).unwrap();
    let plan = launch_plan("chromium", &req, &bundle);
    assert_eq!(plan.program, "chromium");
    assert_eq!(plan.args, bundle.command_line);
    assert_eq!(plan.clone(), plan);
}

// --- the search for a browser -----------------------------------------------

/// A fully in-memory environment for deterministic resolution tests.
#[derive(Default)]
struct FakeEnv {
    vars: HashMap<String, String>,
    files: HashSet<String>,
    path: HashMap<String, String>,
}

impl FakeEnv {
    fn with_var(mut self, k: &str, v: &str) -> Self {
        self.vars.insert(k.to_string(), v.to_string());
        self
    }
    fn with_file(mut self, p: &str) -> Self {
        self.files.insert(p.to_string());
        self
    }
    fn with_on_path(mut self, program: &str, at: &str) -> Self {
        self.path.insert(program.to_string(), at.to_string());
        self
    }
}

impl ResolverEnv for FakeEnv {
    fn var(&self, key: &str) -> Option<String> {
        self.vars.get(key).cloned()
    }
    fn is_file(&self, path: &str) -> bool {
        self.files.contains(path)
    }
    fn which(&self, program: &str) -> Option<String> {
        self.path.get(program).cloned()
    }
}

#[test]
fn override_argument_wins_over_everything() {
    // Even with an env var set and a browser "installed", the explicit
    // override is returned verbatim.
    let env = FakeEnv::default()
        .with_var(BROWSER_BIN_ENV, "/env/chrome")
        .with_on_path("chromium", "/usr/bin/chromium");
    let got = resolve_browser_binary(Some("/explicit/browser"), &env, false).unwrap();
    assert_eq!(got, "/explicit/browser");
}

#[test]
fn blank_override_falls_through_to_env() {
    let env = FakeEnv::default().with_var(BROWSER_BIN_ENV, "/env/chrome");
    // A whitespace-only override is treated as "no override".
    let got = resolve_browser_binary(Some("   "), &env, false).unwrap();
    assert_eq!(got, "/env/chrome");
}

#[test]
fn env_var_wins_over_platform_search() {
    let env = FakeEnv::default()
        .with_var(BROWSER_BIN_ENV, "/env/chrome")
        .with_on_path("chromium", "/usr/bin/chromium");
    let got = resolve_browser_binary(None, &env, false).unwrap();
    assert_eq!(got, "/env/chrome");
}

#[test]
fn missing_binary_is_a_clear_not_found_error() {
    // No override, no env, nothing installed => clear resolution error.
    let env = FakeEnv::default();
    let err = resolve_browser_binary(None, &env, false).unwrap_err();
    assert!(matches!(err, Error::NotFound(_)));
    assert!(err.text().contains("AEGIS_BROWSER_BIN"));
}

#[test]
fn linux_search_prefers_path_order() {
    // google-chrome present but chromium is higher priority and also present.
    let env = FakeEnv::default()
        .with_on_path("chromium", "/usr/bin/chromium")
        .with_on_path("google-chrome", "/usr/bin/google-chrome");
    let got = search_default_browser(&env, false).unwrap();
    assert_eq!(got, "/usr/bin/chromium");

    // Only a lower-priority browser present => it is chosen.
    let env2 = FakeEnv::default().with_on_path("brave-browser", "/usr/bin/brave-browser");
    assert_eq!(search_default_browser(&env2, false).unwrap(), "/usr/bin/brave-browser");
}

#[test]
fn windows_search_prefers_chrome_then_edge_then_path() {
    let pf = r"C:\Program Files";
    let chrome = format!(r"{pf}\Google\Chrome\Application\chrome.exe");
    let edge = format!(r"{pf}\Microsoft\Edge\Application\msedge.exe");

    // Chrome installed under ProgramFiles wins.
    let env = FakeEnv::default()
        .with_var("ProgramFiles", pf)
        .with_file(&chrome)
        .with_file(&edge);
    assert_eq!(search_windows(&env).unwrap(), chrome);

    // No Chrome/Chromium => Edge is chosen.
    let env2 = FakeEnv::default().with_var("ProgramFiles", pf).with_file(&edge);
    assert_eq!(search_windows(&env2).unwrap(), edge);

    // Nothing in install dirs => PATH fallback.
    let env3 = FakeEnv::default().with_on_path("chrome.exe", r"C:\tools\chrome.exe");
    assert_eq!(search_windows(&env3).unwrap(), r"C:\tools\chrome.exe");
}

#[test]
fn an_override_is_taken_verbatim() {
    let env = FakeEnv::default().with_var(BROWSER_BIN_ENV, "/env/chrome");
    let got = resolve_browser_binary(Some(" /opt/my browser "), &env, false).unwrap();
    assert_eq!(got, " /opt/my browser ");
}

#[test]
fn the_search_goes_by_the_platform() {
    let env = FakeEnv::default()
        .with_on_path("chromium", "/usr/bin/chromium")
        .with_on_path("chrome.exe", r"C:\tools\chrome.exe");
    assert_eq!(resolve_browser_binary(None, &env, false).unwrap(), "/usr/bin/chromium");
    assert_eq!(resolve_browser_binary(None, &env, true).unwrap(), r"C:\tools\chrome.exe");
}

#[test]
fn firefox_is_where_the_variable_says() {
    let on_path = FakeEnv::default().with_on_path("firefox", "/usr/bin/firefox");
    assert_eq!(locate_firefox(&on_path).unwrap(), "/usr/bin/firefox");
    let named = on_path.with_var(FIREFOX_BIN_ENV, "/opt/tor-browser/firefox");
    assert_eq!(locate_firefox(&named).unwrap(), "/opt/tor-browser/firefox");
    assert_eq!(locate_firefox(&FakeEnv::default()), None);
}

#[test]
fn places_are_tried_in_order() {
    let roots = vec![r"C:\A".to_string(), r"C:\B".to_string()];
    let places = windows_candidates(&roots);
    assert_eq!(places.len(), 6);
    let env = FakeEnv::default().with_file(&places[4]).with_file(&places[2]);
    assert_eq!(first_file(&env, &places), Some(2));
    assert_eq!(first_file(&FakeEnv::default(), &places), None);
}

#[test]
fn a_drive_alone_takes_no_separator() {
    let roots = vec!["C:".to_string(), r"D:\".to_string(), "1:".to_string()];
    let places = windows_candidates(&roots);
    assert_eq!(places[0], r"C:Google\Chrome\Application\chrome.exe");
    assert_eq!(places[3], r"D:\Chromium\Application\chrome.exe");
    assert_eq!(places[8], r"1:\Microsoft\Edge\Application\msedge.exe");
}

#[test]
fn the_binary_is_chosen_in_order_of_preference() {
    assert_eq!(
        choose_binary(Some(" /a "), Some("/b".into()), Some("/c".into())).unwrap(),
        " /a "
    );
    assert_eq!(choose_binary(None, Some("/b".into()), Some("/c".into())).unwrap(), "/b");
    assert_eq!(choose_binary(Some(" "), None, Some("/c".into())).unwrap(), "/c");
    assert!(matches!(choose_binary(None, None, None), Err(Error::NotFound(_))));
}

#[test]
fn with_binary_exposes_the_path() {
    let r = HostBrowserRunner::with_binary("/x/chrome");
    assert_eq!(r.binary(), "/x/chrome");
}

#[test]
fn host_runner_starts_its_own_binary() {
    let r = HostBrowserRunner::with_binary("/x/chrome");
    let s = LaunchSpec {
        program: "ignored".into(),
        args: vec!["--version".into()],
        env: vec![("TZ".into(), "UTC".into())],
    };
    let c = r.command(&s);
    assert_eq!(c.program, "/x/chrome");
    assert_eq!(c.args, s.args);
    assert_eq!(c.env, s.env);
    assert_eq!(HostBrowserRunner::token(Some(42)).unwrap(), "42");
    assert!(matches!(HostBrowserRunner::token(None), Err(Error::System(_))));
}

#[test]
fn is_running_on_unknown_token_is_not_found() {
    let err = HostBrowserRunner::liveness("nope", Polled::Unknown).unwrap_err();
    assert!(matches!(err, Error::NotFound(_)));
    assert!(HostBrowserRunner::liveness("1", Polled::Running).unwrap());
    assert!(!HostBrowserRunner::liveness("1", Polled::Exited).unwrap());
    assert!(matches!(
        HostBrowserRunner::liveness("1", Polled::Failed("x".into())),
        Err(Error::System(_))
    ));
}

#[test]
fn a_blank_variable_names_nothing() {
    assert_eq!(env_value(None), None);
    assert_eq!(env_value(Some("  \t".into())), None);
    assert_eq!(env_value(Some(" /x ".into())), Some(" /x ".to_string()));
}

#[test]
fn windows_programs_are_also_looked_for_with_their_suffix() {
    assert_eq!(program_files("chromium", false), vec!["chromium".to_string()]);
    assert_eq!(
        program_files("chromium", true),
        vec!["chromium".to_string(), "chromium.exe".to_string()]
    );
    assert_eq!(program_files("Chrome.EXE", true), vec!["Chrome.EXE".to_string()]);
    assert_eq!(program_files("exe", true), vec!["exe".to_string(), "exe.exe".to_string()]);
}

#[test]
fn stopping_kills_what_may_still_run() {
    assert!(!HostBrowserRunner::must_kill(&Polled::Unknown));
    assert!(!HostBrowserRunner::must_kill(&Polled::Exited));
    assert!(HostBrowserRunner::must_kill(&Polled::Running));
    assert!(HostBrowserRunner::must_kill(&Polled::Failed("x".into())));
    assert_eq!(
        HostBrowserRunner::start_failed("no such file").text(),
        "system error: failed to launch host browser: no such file"
    );
    assert_eq!(
        HostBrowserRunner::kill_failed("denied").text(),
        "system error: failed to terminate host browser: denied"
    );
}

#[test]
fn faults_of_a_firefox_profile_name_the_path() {
    assert_eq!(
        profile_dir_failed("/p", "denied").text(),
        "system error: failed to create Firefox profile dir /p: denied"
    );
    assert_eq!(
        prefs_file_failed("/p/user.js", "full").text(),
        "system error: failed to write Firefox user.js at /p/user.js: full"
    );
}
