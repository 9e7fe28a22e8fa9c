//! Tests of the manager window: its form, its records and its commands.

use aegis::browser::BrowserBackendId;
use aegis::config::{Enforcement, IsolationLevel};
use aegis::dto::{
    humanize_age, isolation_token, protection_token, DiagItemView, DiagnosticsView, DoctorView,
    EnforcementView, ProfileView, SessionView, StatusView,
};
use aegis::error::FailureClass;
use aegis::fingerprint::{CanvasMode, FingerprintPolicy, LetterboxMode, ProtectionLevel, WebGlMode};
use aegis::form::{CreateProfileArgs, FingerprintArgs};
use aegis::health::{DiagnosticItem, HealthLevel};
use aegis::ids::{ProfileId, SessionId};
use aegis::network::{NetworkMode, ProxyProtocol};
use aegis::preflight::{
    CheckId, CheckReport, ConnectivityChecklist, IpObservation, ProtectionStatus,
};
use aegis::profile::{Profile, ProfileSpec, ProfileType, StorageUsage};
use aegis::protocol::{Request, Response, StatusDto};
use aegis::session::{SessionState, SessionSummary};
use aegis::time::{Age, Timestamp};
use aegis::ui;

fn at(secs: i64) -> Timestamp {
    Timestamp::new(secs, 0).unwrap()
}

// --- records ----------------------------------------------------------------

#[test]
fn protection_tokens_are_stable() {
    assert_eq!(protection_token(ProtectionStatus::Active), "active");
    assert_eq!(protection_token(ProtectionStatus::Partial), "partial");
    assert_eq!(protection_token(ProtectionStatus::Unsafe), "unsafe");
    assert_eq!(protection_token(ProtectionStatus::Unprotected), "none");
}

#[test]
fn protection_labels_are_the_exact_four() {
    assert_eq!(ProtectionStatus::Active.label(), "protection active");
    assert_eq!(ProtectionStatus::Partial.label(), "partial protection");
    assert_eq!(ProtectionStatus::Unsafe.label(), "unsafe configuration");
    assert_eq!(ProtectionStatus::Unprotected.label(), "no protection");
}

#[test]
fn diagnostics_view_has_all_six_checks() {
    let reports: Vec<CheckReport> =
        CheckId::all().into_iter().map(|id| CheckReport::pass(id, "ok")).collect();
    let mut cl = ConnectivityChecklist::new(reports);
    cl.observed_ip = Some(IpObservation {
        ip: "198.51.100.7".into(),
        via_tunnel: true,
        differs_from_host: true,
    });
    let view = DiagnosticsView::build(&cl, &[]);
    assert_eq!(view.checks.len(), 6);
    assert_eq!(view.protection_status, "active");
    assert_eq!(view.protection_label, "protection active");
    assert!(view.permits_browsing);
    assert_eq!(view.public_ip.as_deref(), Some("198.51.100.7"));
    assert_eq!(view.public_ip_via_tunnel, Some(true));
}

#[test]
fn unreported_checks_are_shown_as_skipped() {
    let cl = ConnectivityChecklist::new(vec![CheckReport::fail(CheckId::GatewayReady, "down")]);
    let view = DoctorView::build(&cl);
    assert_eq!(view.protection_status, "none");
    assert_eq!(view.checks.len(), 6);
    assert_eq!(view.checks[0].outcome, "fail");
    assert_eq!(view.checks[0].detail, "down");
    assert_eq!(view.checks[1].outcome, "skipped");
    assert_eq!(view.checks[1].detail, "not reported");
    assert!(view.checks.iter().all(|c| !c.passed));
    let item = DiagItemView::from(&DiagnosticItem::new("dns", HealthLevel::Degraded, "slow"));
    assert_eq!((item.key.as_str(), item.level.as_str()), ("dns", "degraded"));
}

#[test]
fn humanize_age_buckets() {
    assert_eq!(humanize_age(Age { seconds: 30 }), "just now");
    assert_eq!(humanize_age(Age { seconds: 5 * 60 }), "5m");
    assert_eq!(humanize_age(Age { seconds: 2 * 3600 }), "2h 0m");
    assert_eq!(humanize_age(Age { seconds: 3 * 86400 + 4 * 3600 }), "3d 4h");
}

#[test]
fn a_negative_age_is_just_now() {
    assert_eq!(humanize_age(Age { seconds: -1 }), "just now");
    assert_eq!(humanize_age(Age { seconds: i64::MIN }), "just now");
}

#[test]
fn enforcement_view_roundtrips_through_domain() {
    // A round trip EnforcementView -> Enforcement -> EnforcementView must be
    // lossless so the Advanced toggles reflect exactly what the daemon holds.
    for e in [Enforcement::secure(), Enforcement::host_browser()] {
        let view = EnforcementView::from(e);
        let back: Enforcement = view.into();
        assert_eq!(e, back);
    }
}

#[test]
fn status_view_maps_full_isolation() {
    let s = StatusDto {
        version: "0.1.0".into(),
        platform: "windows".into(),
        isolation_level: IsolationLevel::FullVm,
        enforcement: Enforcement::secure(),
        host_browser_available: false,
        host_browser_path: None,
    };
    let v = StatusView::from_status(&s);
    assert_eq!(v.isolation_status, "full-vm");
    assert_eq!(v.isolation_label, "full VM isolation");
    assert!(v.is_full_isolation);
    assert!(v.enforcement.require_vm_isolation);
    assert!(v.enforcement.require_gateway);
    assert!(!v.enforcement.allow_host_browser);
}

#[test]
fn status_view_of_a_host_process_holds_no_path() {
    let s = StatusDto {
        version: "0.1.0".into(),
        platform: "windows".into(),
        isolation_level: IsolationLevel::HostProcess,
        enforcement: Enforcement::host_browser(),
        host_browser_available: true,
        host_browser_path: Some("C:/Program Files/chrome.exe".into()),
    };
    let v = StatusView::from_status(&s);
    assert_eq!(v.isolation_status, "host-process");
    assert_eq!(v.isolation_label, "host process (reduced)");
    assert!(!v.is_full_isolation);
    assert!(v.host_browser_available);
    let shown = format!("{v:?}");
    assert!(!shown.contains("chrome.exe"));
    assert!(!shown.contains("Program Files"));
}

#[test]
fn isolation_tokens_are_stable() {
    assert_eq!(isolation_token(IsolationLevel::FullVm), "full-vm");
    assert_eq!(isolation_token(IsolationLevel::HostProcess), "host-process");
}

// --- the form ---------------------------------------------------------------

/// A minimal args value with everything defaulted; individual tests tweak
/// only the fields they care about.
fn args(name: &str) -> CreateProfileArgs {
    CreateProfileArgs {
        name: name.into(),
        kind: None,
        isolation: None,
        network_mode: None,
        bridges: None,
        proxy_host: None,
        proxy_port: None,
        proxy_credentials: None,
        protection: None,
        browser: None,
        fingerprint: None,
    }
}

#[test]
fn create_args_default_to_ephemeral() {
    let a = args("x");
    assert_eq!(a.profile_type(), ProfileType::Ephemeral);
    let mut a2 = args("y");
    a2.kind = Some("persistent".into());
    assert_eq!(a2.profile_type(), ProfileType::Persistent);
}

#[test]
fn to_spec_defaults_are_ephemeral_full_vm_tor_balanced() {
    // The friendly defaults: an ephemeral, full-VM, Tor, Balanced profile.
    let spec = args("research").to_spec().unwrap();
    assert_eq!(spec.name, "research");
    assert_eq!(spec.kind, ProfileType::Ephemeral);
    assert_eq!(spec.isolation, IsolationLevel::FullVm);
    assert_eq!(spec.network.mode.label(), "Tor");
    assert_eq!(spec.protection, ProtectionLevel::Balanced);
}

#[test]
fn to_spec_empty_name_is_rejected() {
    let mut a = args("   ");
    assert!(a.to_spec().is_err());
    a.name = "".into();
    assert!(a.to_spec().is_err());
}

#[test]
fn safety_tiers_collapse_onto_the_two_protection_levels() {
    let cases = [
        // (protection string the form sends, expected ProtectionLevel)
        (None, ProtectionLevel::Balanced), // default (Balanced pre-selected)
        (Some("balanced"), ProtectionLevel::Balanced),
        (Some("strict"), ProtectionLevel::Strict),
    ];
    for (proto, expected) in cases {
        let mut a = args("tiered");
        a.protection = proto.map(str::to_string);
        let spec = a.to_spec().expect("spec builds");
        assert_eq!(
            spec.protection, expected,
            "protection {proto:?} must map to {expected:?}"
        );
    }
}

#[test]
fn to_spec_carries_isolation_and_strict_protection() {
    let mut a = args("host-strict");
    a.isolation = Some("host-process".into());
    a.protection = Some("strict".into());
    let spec = a.to_spec().unwrap();
    assert_eq!(spec.isolation, IsolationLevel::HostProcess);
    assert!(!spec.isolation.is_full());
    assert_eq!(spec.protection, ProtectionLevel::Strict);
}

#[test]
fn to_spec_tor_bridges_are_parsed_and_enable_use_bridges() {
    let mut a = args("bridged");
    a.network_mode = Some("tor".into());
    a.bridges = Some("obfs4 1.2.3.4:443 CERT\n\n  obfs4 5.6.7.8:80 CERT2  \n".into());
    let spec = a.to_spec().unwrap();
    match spec.network.mode {
        NetworkMode::Tor(cfg) => {
            assert!(cfg.use_bridges);
            assert_eq!(cfg.bridges.len(), 2);
            assert_eq!(cfg.bridges[0], "obfs4 1.2.3.4:443 CERT");
            // Whitespace-only lines are dropped and each line is trimmed.
            assert_eq!(cfg.bridges[1], "obfs4 5.6.7.8:80 CERT2");
        }
        other => panic!("expected Tor mode, got {}", other.label()),
    }
}

#[test]
fn to_spec_socks5_proxy_maps_host_port_and_remote_dns() {
    let mut a = args("proxied");
    a.network_mode = Some("socks5".into());
    a.proxy_host = Some("10.0.0.9".into());
    a.proxy_port = Some(1080);
    let spec = a.to_spec().unwrap();
    match spec.network.mode {
        NetworkMode::Proxy(cfg) => {
            assert_eq!(cfg.protocol, ProxyProtocol::Socks5);
            assert_eq!(cfg.host, "10.0.0.9");
            assert_eq!(cfg.port, 1080);
            assert!(cfg.remote_dns, "proxy DNS must be remote (no leak)");
            assert!(cfg.credentials_ref.is_none());
        }
        other => panic!("expected Proxy mode, got {}", other.label()),
    }
    // DNS is forced to block plaintext regardless of mode.
    assert!(spec.network.dns.block_plain_dns);
}

#[test]
fn to_spec_http_proxy_credentials_become_a_reference_not_a_secret() {
    let mut a = args("http-auth");
    a.network_mode = Some("http".into());
    a.proxy_host = Some("proxy.example".into());
    a.proxy_port = Some(8080);
    a.proxy_credentials = Some("alice:hunter2".into());
    let spec = a.to_spec().unwrap();
    let cred = match &spec.network.mode {
        NetworkMode::Proxy(cfg) => {
            assert_eq!(cfg.protocol, ProxyProtocol::HttpConnect);
            cfg.credentials_ref.clone().expect("a credential ref")
        }
        other => panic!("expected Proxy mode, got {}", other.label()),
    };
    // The reference is derived from the username only; the password must NOT
    // appear anywhere in the spec.
    assert_eq!(cred.0, "proxy:alice");
    assert!(!format!("{spec:?}").contains("hunter2"), "password leaked into the spec");
}

#[test]
fn credentials_without_a_user_get_a_plain_reference() {
    for (entered, id) in [(" : secret", "proxy"), (" bob : a:b ", "proxy:bob"), ("carol", "proxy:carol")] {
        let mut a = args("x");
        a.proxy_host = Some(" h ".into());
        a.proxy_port = Some(1);
        a.proxy_credentials = Some(entered.into());
        let p = a.proxy_config(ProxyProtocol::Socks5).unwrap();
        assert_eq!(p.credentials_ref.unwrap().0, id);
        assert_eq!(p.host, "h");
    }
}

#[test]
fn to_spec_proxy_without_host_is_rejected() {
    let mut a = args("bad-proxy");
    a.network_mode = Some("socks5".into());
    a.proxy_port = Some(1080);
    assert!(a.to_spec().is_err());
}

#[test]
fn to_spec_vpn_on_host_isolation_points_to_tor_or_proxy() {
    let mut a = args("vpn-host");
    a.network_mode = Some("vpn".into());
    a.isolation = Some("host-process".into());
    let err = a.to_spec().unwrap_err();
    assert!(err.contains("Tor or a proxy"), "unexpected error: {err}");
}

#[test]
fn to_spec_vpn_on_full_vm_is_rejected_pending_cli_config() {
    let mut a = args("vpn-full");
    a.network_mode = Some("vpn".into());
    assert!(a.to_spec().is_err());
}

#[test]
fn every_complaint_has_its_text() {
    let mut a = args("x");
    a.network_mode = Some("carrier-pigeon".into());
    assert_eq!(a.to_spec().unwrap_err(), "unknown network mode: carrier-pigeon");
    a.network_mode = Some("proxy".into());
    assert_eq!(a.to_spec().unwrap_err(), "proxy host must not be empty");
    a.proxy_host = Some("h".into());
    assert_eq!(a.to_spec().unwrap_err(), "proxy port must be between 1 and 65535");
    a.proxy_port = Some(0);
    assert_eq!(a.to_spec().unwrap_err(), "proxy port must be between 1 and 65535");
    a.proxy_port = Some(9);
    assert!(a.to_spec().is_ok());
    a.fingerprint = Some(FingerprintArgs { canvas: Some("x".into()), ..Default::default() });
    assert_eq!(a.to_spec().unwrap_err(), "unknown canvas mode: x");
    a.fingerprint = Some(FingerprintArgs { webgl: Some("virtual".into()), ..Default::default() });
    a.protection = Some("strict".into());
    assert_eq!(
        a.to_spec().unwrap_err(),
        "invalid fingerprint override: Strict mode must not expose a full WebGL backend"
    );
    a.name = " ".into();
    assert_eq!(a.to_spec().unwrap_err(), "profile name must not be empty");
}

#[test]
fn to_spec_defaults_to_chromium_and_no_override() {
    let spec = args("x").to_spec().unwrap();
    assert_eq!(spec.browser, BrowserBackendId::Chromium);
    // No Advanced override => derive from `protection`.
    assert!(spec.fingerprint.is_none());
}

#[test]
fn to_spec_maps_firefox_browser() {
    let mut a = args("ffx");
    a.browser = Some("firefox".into());
    assert_eq!(a.to_spec().unwrap().browser, BrowserBackendId::Firefox);
    // The Tor Browser aliases map to the same Firefox backend.
    let mut b = args("torb");
    b.browser = Some("tor-browser".into());
    assert_eq!(b.to_spec().unwrap().browser, BrowserBackendId::Firefox);
}

#[test]
fn to_spec_applies_fingerprint_override_on_top_of_preset() {
    // Start from Balanced, then flip individual Advanced switches.
    let mut a = args("tuned");
    a.protection = Some("balanced".into());
    a.fingerprint = Some(FingerprintArgs {
        webgl: Some("disabled".into()),
        webgpu_enabled: Some(false),
        canvas: Some("limited".into()),
        letterbox: Some(true),
        hardware_concurrency: Some(6),
        timezone: Some("Europe/Warsaw".into()),
        language: Some("pl-PL".into()),
    });
    let spec = a.to_spec().unwrap();
    let fp = spec.fingerprint.expect("an override policy");
    // The coarse level is still Balanced (the override tunes on top of it).
    assert_eq!(fp.level, ProtectionLevel::Balanced);
    assert_eq!(fp.webgl, WebGlMode::Disabled);
    assert!(!fp.webgpu_enabled);
    assert_eq!(fp.canvas, CanvasMode::Limited);
    assert_eq!(fp.letterbox, LetterboxMode::On);
    assert_eq!(fp.hardware_concurrency, Some(6));
    assert_eq!(fp.timezone.as_deref(), Some("Europe/Warsaw"));
    assert_eq!(fp.primary_language, "pl-PL");
    // Non-negotiable rules survive the override.
    assert!(fp.block_device_apis);
}

#[test]
fn fingerprint_override_zero_cores_means_real_count() {
    let mut a = args("real-cpu");
    a.fingerprint = Some(FingerprintArgs {
        hardware_concurrency: Some(0),
        ..Default::default()
    });
    let fp = a.to_spec().unwrap().fingerprint.expect("an override");
    assert_eq!(fp.hardware_concurrency, None);
}

#[test]
fn fingerprint_override_rejects_webgpu_in_strict() {
    // Strict must never expose WebGPU; a UI toggle cannot relax that.
    let mut a = args("bad-strict");
    a.protection = Some("strict".into());
    a.fingerprint = Some(FingerprintArgs {
        webgpu_enabled: Some(true),
        ..Default::default()
    });
    assert!(a.to_spec().is_err());
}

#[test]
fn fingerprint_override_rejects_unknown_webgl_value() {
    let mut a = args("bad-webgl");
    a.fingerprint = Some(FingerprintArgs {
        webgl: Some("nonsense".into()),
        ..Default::default()
    });
    assert!(a.to_spec().is_err());
}

#[test]
fn no_changes_leave_the_policy_as_it_is() {
    let same = FingerprintArgs::default().apply_to(FingerprintPolicy::strict()).unwrap();
    assert_eq!(same, FingerprintPolicy::strict());
    let blank = FingerprintArgs {
        webgl: Some(" ".into()),
        timezone: Some("".into()),
        ..Default::default()
    };
    assert_eq!(blank.apply_to(FingerprintPolicy::balanced()).unwrap(), FingerprintPolicy::balanced());
}

#[test]
fn preview_tolerates_empty_name_and_reflects_defaults() {
    // The Preview tab must render before a name is typed.
    let a = args("");
    let p = a.preview().expect("preview builds with a placeholder name");
    assert_eq!(p.browser, BrowserBackendId::Chromium);
    assert!(p.user_agent.contains("Chrome"));
    assert_eq!(p.network, "Tor");
    assert_eq!(p.timezone, "UTC");
    assert_eq!(p.language, "en-US");
}

#[test]
fn preview_reflects_browser_and_fingerprint_override() {
    let mut a = args("preview-strict");
    a.browser = Some("firefox".into());
    a.protection = Some("strict".into());
    a.isolation = Some("host-process".into());
    a.fingerprint = Some(FingerprintArgs {
        hardware_concurrency: Some(2),
        timezone: Some("UTC".into()),
        ..Default::default()
    });
    let p = a.preview().unwrap();
    assert_eq!(p.browser, BrowserBackendId::Firefox);
    assert!(p.user_agent.contains("Firefox"));
    assert_eq!(p.isolation, IsolationLevel::HostProcess);
    assert_eq!(p.isolation_label, "host process (reduced)");
    // Strict preset => WebGL disabled, letterboxing on, WebGPU off.
    assert_eq!(p.webgl, "disabled");
    assert!(p.letterbox);
    assert!(!p.webgpu_enabled);
    assert_eq!(p.hardware_concurrency, Some(2));
    assert!(p.device_apis_blocked);
}

#[test]
fn preview_surfaces_network_selection_errors() {
    // An incomplete proxy selection must fail the preview too (fail-closed).
    let mut a = args("bad-preview");
    a.network_mode = Some("socks5".into());
    assert!(a.preview().is_err());
}

#[test]
fn the_preview_is_that_of_the_created_profile() {
    let mut a = args("same");
    a.browser = Some("tor".into());
    a.fingerprint = Some(FingerprintArgs { letterbox: Some(true), ..Default::default() });
    assert_eq!(a.preview().unwrap(), a.to_spec().unwrap().preview());
    assert_eq!(ui::preview_profile(&a).unwrap(), a.preview().unwrap());
}

// --- commands ---------------------------------------------------------------

#[test]
fn response_error_carries_class() {
    let resp = Response::Error {
        message: "tunnel down".into(),
        class: FailureClass::NetworkContainment,
    };
    let s = ui::response_error(&resp).unwrap();
    assert!(s.contains("tunnel down"));
    assert!(s.contains("NetworkContainment"));
}

fn profile(id: u128, locked: bool) -> Profile {
    Profile {
        id: ProfileId::from_u128(id),
        spec: ProfileSpec::ephemeral("p"),
        created_at: at(0),
        last_launched: Some(at(60)),
        storage: StorageUsage { bytes: 512 },
        locked,
    }
}

fn session(profile: u128, state: SessionState, ip: &str) -> SessionSummary {
    SessionSummary {
        id: SessionId::from_u128(99),
        profile: ProfileId::from_u128(profile),
        state,
        protection: ProtectionStatus::Active,
        public_ip: Some(ip.into()),
    }
}

#[test]
fn profiles_are_listed_with_their_sessions() {
    let reply = Response::Profiles(vec![
        profile(1, false),
        profile(2, false),
        profile(3, true),
        profile(4, false),
    ]);
    let sessions = vec![
        session(1, SessionState::Failed, "a"),
        session(1, SessionState::Browsing, "b"),
        session(2, SessionState::Destroyed, "c"),
        session(4, SessionState::Failed, "d"),
        session(4, SessionState::Preflight, "e"),
    ];
    let rows = ui::list_profiles(&reply, &sessions, at(120)).unwrap();
    // A browsing session comes first.
    assert_eq!(rows[0].public_ip.as_deref(), Some("b"));
    assert_eq!(rows[0].gateway_state, "running");
    // A session that has ended lends neither its address nor its gateway.
    assert_eq!(rows[1].public_ip, None);
    assert_eq!(rows[1].gateway_state, "idle");
    assert_eq!(rows[2].public_ip, None);
    assert_eq!(rows[2].gateway_state, "running");
    assert_eq!(rows[3].public_ip.as_deref(), Some("e"));
    assert_eq!(rows[3].gateway_state, "running");
    assert_eq!(rows[0].age, "2m");
    assert_eq!(rows[0].created_at, "1970-01-01T00:00:00+00:00");
    assert_eq!(rows[0].last_run.as_deref(), Some("1970-01-01T00:01:00+00:00"));
    assert_eq!(rows[0].size_on_disk, "512 B");
    assert!(ui::sessions_or_none(None).is_empty());
    assert!(ui::sessions_or_none(Some(Response::Done)).is_empty());
    assert_eq!(ui::sessions_or_none(Some(Response::Sessions(sessions))).len(), 5);
}

#[test]
fn wrong_replies_are_named_by_their_operation() {
    let done = Response::Done;
    let text = |op: &str| format!("daemon returned an unexpected reply for {op}");
    assert_eq!(ui::list_profiles(&done, &vec![], at(0)).unwrap_err(), text("list-profiles"));
    assert_eq!(ui::create_profile(&done, at(0)).unwrap_err(), text("create-profile"));
    assert_eq!(
        ui::delete_profile(&Response::Sessions(vec![])).unwrap_err(),
        text("delete-profile")
    );
    assert_eq!(ui::start_session(&done).unwrap_err(), text("start-session"));
    assert_eq!(ui::stop_session(&done).unwrap_err(), text("stop-session"));
    assert_eq!(ui::list_sessions(&done).unwrap_err(), text("list-sessions"));
    assert_eq!(ui::get_diagnostics(&done).unwrap_err(), text("get-diagnostics"));
    assert_eq!(ui::doctor(&done).unwrap_err(), text("doctor"));
    assert_eq!(ui::get_status(&done).unwrap_err(), text("get-status"));
    assert_eq!(ui::get_enforcement(&done).unwrap_err(), text("get-enforcement"));
    assert_eq!(ui::set_enforcement(&done).unwrap_err(), text("set-enforcement"));
}

#[test]
fn a_reported_failure_is_shown_with_its_class() {
    let failed = Response::Error { message: "no".into(), class: FailureClass::Precondition };
    assert_eq!(ui::start_session(&failed).unwrap_err(), "no [Precondition]");
    assert_eq!(ui::delete_profile(&failed).unwrap_err(), "no [Precondition]");
    assert!(ui::response_error(&Response::Done).is_none());
    assert_eq!(ui::err_to_string("cannot reach", "refused"), "cannot reach: refused");
}

#[test]
fn requests_read_their_ids() {
    let id = "00000000-0000-0000-0000-000000000007";
    assert!(matches!(
        ui::delete_request(id).unwrap(),
        Request::DeleteProfile(p) if p.as_u128() == 7
    ));
    assert!(matches!(
        ui::start_request(id).unwrap(),
        Request::StartSession(r) if r.profile.as_u128() == 7 && r.unlock_ref.is_none()
    ));
    assert!(matches!(ui::stop_request(id).unwrap(), Request::StopSession(s) if s.as_u128() == 7));
    assert!(matches!(
        ui::diagnostics_request(id).unwrap(),
        Request::GetDiagnostics(s) if s.as_u128() == 7
    ));
    assert!(ui::delete_request("x")
        .unwrap_err()
        .starts_with("invalid profile id: invalid configuration: invalid ProfileId: "));
    assert!(ui::stop_request("x")
        .unwrap_err()
        .starts_with("invalid session id: invalid configuration: invalid SessionId: "));
    assert!(matches!(
        ui::create_request(&args("n")).unwrap(),
        Request::CreateProfile(s) if s.name == "n"
    ));
    let view = EnforcementView::from(Enforcement::host_browser());
    assert!(matches!(
        ui::enforcement_request(view),
        Request::SetEnforcement(e) if e == Enforcement::host_browser()
    ));
}

#[test]
fn replies_become_records() {
    let s = session(1, SessionState::GatewayStarting, "ip");
    let v = SessionView::from_summary(&s);
    assert_eq!(v.state, "gateway-starting");
    assert!(!v.is_browsing && !v.is_safe);
    assert_eq!(ui::start_session(&Response::Session(s)).unwrap(), v);
    let rows = ui::list_sessions(&Response::Sessions(vec![session(1, SessionState::Browsing, "x")]))
        .unwrap();
    assert!(rows[0].is_safe);
    let made = ui::create_profile(&Response::Profile(profile(1, true)), at(0)).unwrap();
    assert_eq!(made, ProfileView::from_profile(&profile(1, true), at(0)));
    assert_eq!(made.gateway_state, "running");
    assert!(ui::delete_profile(&Response::Done).is_ok());
    let cl = ConnectivityChecklist::new(vec![]);
    assert_eq!(
        ui::doctor(&Response::Doctor(ConnectivityChecklist::new(vec![]))).unwrap(),
        DoctorView::build(&cl)
    );
    let d = ui::get_diagnostics(&Response::Diagnostics {
        checklist: ConnectivityChecklist::new(vec![]),
        items: vec![DiagnosticItem::new("k", HealthLevel::Down, "d")],
    })
    .unwrap();
    assert_eq!(d.items[0].level, "down");
    assert!(!d.permits_browsing);
    let e = ui::get_enforcement(&Response::Enforcement(Enforcement::secure())).unwrap();
    assert!(e.require_gateway);
    assert_eq!(
        ui::set_enforcement(&Response::Enforcement(Enforcement::secure())).unwrap(),
        e
    );
    for (state, live) in [
        (SessionState::Requested, true),
        (SessionState::Closing, true),
        (SessionState::Destroyed, false),
        (SessionState::Failed, false),
    ] {
        assert_eq!(ui::session_is_live(state), live);
    }
}
