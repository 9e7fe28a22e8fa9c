//! Tests of the command line: requests, rendering and output.

use aegis::cli::{
    build_request, build_spec, current_version_info, default_runtime_dir, log_level,
    parse_profile_id, parse_session_id, socket_path, token_path, BrowserArg, Command,
    ConfigCommand, EnforcementArgs, GlobalArgs, IsolationArg, NetArg, ProfileCommand,
    ProfileCreateArgs, ProfileKindArg, ProtectionArg, ProxyKindArg, SessionCommand, Toggle,
    UpdateCommand,
};
use aegis::config::{Enforcement, IsolationLevel};
use aegis::error::{Error, FailureClass};
use aegis::fingerprint::ProtectionLevel;
use aegis::health::{DiagnosticItem, HealthLevel};
use aegis::ids::{ProfileId, SessionId};
use aegis::network::{NetworkConfig, NetworkMode, ProxyConfig, ProxyProtocol};
use aegis::output::{
    after_get_enforcement, after_set_enforcement, after_update_check, format_diagnostics,
    format_doctor, format_enforcement, format_error, format_ok, format_profile,
    format_profile_show, format_profiles, format_response, format_session, format_sessions,
    format_status, format_update_applied, format_update_check, json_or_error, plan, response_name,
    update_check_request, Dispatch, Followup, JsonDoc, Output, Plan, Stdout,
};
use aegis::preflight::{
    CheckId, CheckReport, ConnectivityChecklist, IpObservation, ProtectionStatus,
};
use aegis::profile::{Profile, ProfileSpec, ProfileType, StorageUsage};
use aegis::protocol::{Request, Response, StatusDto};
use aegis::render::{
    checklist_report, diagnostics_report, doctor_report, enforcement_report, human_age,
    isolation_badge, profile_detail, profile_row, profiles_table, protection_badge, session_row,
    sessions_table, status_report,
};
use aegis::session::{SessionState, SessionSummary};
use aegis::time::{Age, Timestamp};
use aegis::update::{ApplyOutcome, UpdateKind, UpdateManifest, Version};

const NOW: i64 = 1_700_000_000;

fn ago(secs: i64) -> Timestamp {
    Timestamp::new(NOW - secs, 0).unwrap()
}

fn all_pass() -> Vec<CheckReport> {
    CheckId::all().into_iter().map(|id| CheckReport::pass(id, "ok")).collect()
}

fn all_pass_checklist() -> ConnectivityChecklist {
    ConnectivityChecklist::new(all_pass())
}

/// Arguments with all defaults except the named overrides, so tests only set the
/// fields they care about.
fn create_args(name: &str, net: NetArg) -> ProfileCreateArgs {
    ProfileCreateArgs {
        name: name.into(),
        kind: ProfileKindArg::Ephemeral,
        net,
        protection: ProtectionArg::Balanced,
        isolation: IsolationArg::Vm,
        browser: BrowserArg::Chromium,
        proxy_kind: ProxyKindArg::Socks5,
        proxy_host: None,
        proxy_port: None,
        tor_bridge: Vec::new(),
    }
}

// --- requests ---------------------------------------------------------------

#[test]
fn build_spec_tor_strict() {
    let mut args = create_args("x", NetArg::Tor);
    args.kind = ProfileKindArg::Persistent;
    args.protection = ProtectionArg::Strict;
    let spec = build_spec(&args).expect("spec");
    assert_eq!(spec.network.mode.label(), "Tor");
    assert_eq!(spec.protection.label(), "Strict");
    assert!(!spec.kind.is_ephemeral());
    // Default isolation is full VM.
    assert_eq!(spec.isolation, IsolationLevel::FullVm);
    // The spec built for a Tor/Strict profile must validate.
    assert!(spec.validate().is_ok());
}

#[test]
fn build_spec_proxy_balanced_validates() {
    let mut args = create_args("p", NetArg::Proxy);
    args.proxy_host = Some("10.0.0.1".into());
    args.proxy_port = Some(1080);
    let spec = build_spec(&args).expect("spec");
    assert_eq!(spec.network.mode.label(), "Proxy");
    assert!(spec.validate().is_ok());
}

#[test]
fn build_spec_proxy_requires_host_and_port() {
    // No host/port supplied => a friendly config error, not a silent default.
    let args = create_args("p", NetArg::Proxy);
    let err = build_spec(&args).expect_err("proxy needs host+port");
    assert_eq!(err.class(), FailureClass::Configuration);
    assert!(err.text().contains("--proxy-host"));

    // Host but no port is still rejected.
    let mut partial = create_args("p", NetArg::Proxy);
    partial.proxy_host = Some("127.0.0.1".into());
    assert!(build_spec(&partial).is_err());
}

#[test]
fn build_spec_proxy_http_kind_maps_protocol() {
    let mut args = create_args("h", NetArg::Proxy);
    args.proxy_kind = ProxyKindArg::Http;
    args.proxy_host = Some("proxy.internal".into());
    args.proxy_port = Some(3128);
    let spec = build_spec(&args).expect("spec");
    match &spec.network.mode {
        NetworkMode::Proxy(cfg) => {
            assert_eq!(cfg.protocol, ProxyProtocol::HttpConnect);
            assert_eq!(cfg.host, "proxy.internal");
            assert_eq!(cfg.port, 3128);
            assert!(cfg.remote_dns);
        }
        other => panic!("expected proxy mode, got {other:?}"),
    }
}

#[test]
fn build_spec_tor_bridges_set_use_bridges() {
    let mut args = create_args("br", NetArg::Tor);
    args.tor_bridge = vec!["obfs4 1.2.3.4:443 CERT".into(), "obfs4 5.6.7.8:80 CERT".into()];
    let spec = build_spec(&args).expect("spec");
    match &spec.network.mode {
        NetworkMode::Tor(cfg) => {
            assert!(cfg.use_bridges, "bridges supplied => use_bridges on");
            assert_eq!(cfg.bridges.len(), 2);
        }
        other => panic!("expected tor mode, got {other:?}"),
    }
    assert!(spec.validate().is_ok());
}

#[test]
fn build_spec_host_isolation_sets_level() {
    let mut args = create_args("host-tor", NetArg::Tor);
    args.isolation = IsolationArg::Host;
    let spec = build_spec(&args).expect("spec");
    assert_eq!(spec.isolation, IsolationLevel::HostProcess);
}

#[test]
fn build_spec_host_plus_vpn_is_rejected() {
    let mut args = create_args("bad", NetArg::Vpn);
    args.isolation = IsolationArg::Host;
    let err = build_spec(&args).expect_err("host + vpn must be rejected");
    assert_eq!(err.class(), FailureClass::Configuration);
    assert!(err.text().contains("not a VPN"));
}

#[test]
fn build_request_maps_commands() {
    assert!(matches!(
        build_request(&Command::Profile(ProfileCommand::List)).unwrap(),
        Request::ListProfiles
    ));
    assert!(matches!(build_request(&Command::Doctor).unwrap(), Request::Doctor));
    assert!(matches!(
        build_request(&Command::Session(SessionCommand::List)).unwrap(),
        Request::ListSessions
    ));
}

#[test]
fn build_request_rejects_bad_id() {
    let cmd = Command::Profile(ProfileCommand::Rm { id: "not-a-uuid".into() });
    assert!(build_request(&cmd).is_err());
}

#[test]
fn build_request_carries_the_ids() {
    let p = ProfileId::from_u128(7);
    let s = SessionId::from_u128(9);
    assert!(matches!(
        build_request(&Command::Session(SessionCommand::Start { profile: p.text() })).unwrap(),
        Request::StartSession(r) if r.profile == p && r.unlock_ref.is_none()
    ));
    assert!(matches!(
        build_request(&Command::Session(SessionCommand::Stop { id: s.text() })).unwrap(),
        Request::StopSession(id) if id == s
    ));
    assert!(matches!(
        build_request(&Command::Diagnostics { session: s.text() }).unwrap(),
        Request::GetDiagnostics(id) if id == s
    ));
    assert_eq!(parse_profile_id(&p.text()).unwrap(), p);
    assert_eq!(parse_session_id(&s.text()).unwrap(), s);
    assert!(matches!(parse_session_id("x"), Err(Error::Config(_))));
}

#[test]
fn version_info_parses_crate_version() {
    // The compiled-in version must parse into a Version.
    let vi = current_version_info();
    // 0.1.0 per the workspace; at minimum non-panicking and >= 0.0.0.
    assert!(vi.current >= Version::new(0, 0, 0));
}

#[test]
fn config_enforcement_flags_apply() {
    let args = EnforcementArgs {
        vm_isolation: Some(Toggle::Off),
        gateway: None,
        host_browser: Some(Toggle::On),
    };
    assert!(!args.is_empty());
    assert!(EnforcementArgs::default().is_empty());
    let applied = args.apply(Enforcement::secure());
    assert!(!applied.require_vm_isolation);
    assert!(applied.require_gateway);
    assert!(applied.allow_host_browser);
    assert_eq!(args.apply(applied), applied);
    assert_eq!(EnforcementArgs::default().apply(applied), applied);
    assert!(Toggle::On.is_on() && !Toggle::Off.is_on());
}

#[test]
fn arguments_map_to_the_domain() {
    assert_eq!(ProfileKindArg::Persistent.to_domain(), ProfileType::Persistent);
    assert_eq!(IsolationArg::Host.to_domain(), IsolationLevel::HostProcess);
    assert_eq!(ProxyKindArg::Http.to_domain(), ProxyProtocol::HttpConnect);
    assert_eq!(ProtectionArg::Strict.to_domain(), ProtectionLevel::Strict);
    assert_eq!(
        BrowserArg::Firefox.to_domain(),
        aegis::browser::BrowserBackendId::Firefox
    );
    assert_ne!(log_level(0), log_level(1));
    assert_ne!(log_level(1), log_level(2));
    assert_eq!(log_level(3), log_level(200));
}

// --- paths ------------------------------------------------------------------

#[test]
fn default_runtime_dir_is_nonempty() {
    assert!(!default_runtime_dir(None).is_empty());
    assert_eq!(default_runtime_dir(None), "/run/aegis");
    assert_eq!(default_runtime_dir(Some(r"C:\Temp\")), r"C:\Temp\aegis");
}

#[test]
fn socket_path_prefers_explicit_flag() {
    assert!(socket_path(&GlobalArgs::default()).ends_with("daemon.sock"));
    let args = GlobalArgs {
        socket: Some("/tmp/custom.sock".to_string()),
        ..Default::default()
    };
    assert_eq!(socket_path(&args), "/tmp/custom.sock");
}

#[test]
fn token_path_prefers_explicit_flag() {
    let temp = r"C:\Temp";
    assert!(token_path(&GlobalArgs::default(), temp).ends_with("ipc.token"));
    assert_eq!(token_path(&GlobalArgs::default(), temp), r"C:\Temp\aegis\ipc.token");
    let args = GlobalArgs {
        token_file: Some("C:/tmp/tok".to_string()),
        ..Default::default()
    };
    assert_eq!(token_path(&args, temp), "C:/tmp/tok");
}

// --- rendering --------------------------------------------------------------

fn tor_strict_profile() -> Profile {
    let mut spec = ProfileSpec::ephemeral("research");
    spec.kind = ProfileType::Persistent;
    spec.protection = ProtectionLevel::Strict;
    // default network is Tor
    Profile {
        id: ProfileId::new(),
        spec,
        created_at: ago(50 * 3600),
        last_launched: Some(ago(30 * 60)),
        storage: StorageUsage { bytes: 5 * 1024 * 1024 },
        locked: true,
    }
}

#[test]
fn human_age_buckets() {
    assert_eq!(human_age(Age { seconds: 5 }), "5s");
    assert_eq!(human_age(Age { seconds: 90 }), "1m");
    assert_eq!(human_age(Age { seconds: 90 * 60 }), "1h 30m");
    assert_eq!(human_age(Age { seconds: 50 * 3600 }), "2d 2h");
    // negative clamps to 0s
    assert_eq!(human_age(Age { seconds: -10 }), "0s");
}

#[test]
fn tor_strict_profile_row_renders_correctly() {
    let p = tor_strict_profile();
    let row = profile_row(&p, ago(0));
    assert_eq!(row[1], "persistent");
    assert_eq!(row[2], "Tor");
    assert_eq!(row[3], "vm"); // default full-VM isolation
    assert_eq!(row[4], "Strict");
    assert_eq!(row[5], "running"); // locked
    assert_eq!(row[8], "5.0 MiB");
    assert!(row[9].ends_with("ago"));
}

#[test]
fn proxy_balanced_profile_row() {
    let mut spec = ProfileSpec::ephemeral("proxied");
    spec.network = NetworkConfig::from_mode(NetworkMode::Proxy(ProxyConfig {
        protocol: ProxyProtocol::Socks5,
        host: "10.0.0.1".into(),
        port: 1080,
        credentials_ref: None,
        remote_dns: true,
    }));
    let p = Profile {
        id: ProfileId::new(),
        spec,
        created_at: ago(0),
        last_launched: None,
        storage: StorageUsage::default(),
        locked: false,
    };
    let row = profile_row(&p, ago(0));
    assert_eq!(row[2], "Proxy");
    assert_eq!(row[3], "vm");
    assert_eq!(row[4], "Balanced");
    assert_eq!(row[5], "idle");
    assert_eq!(row[9], "never");
}

#[test]
fn profiles_table_has_header_and_aligns() {
    let table = profiles_table(&vec![tor_strict_profile()], ago(0));
    assert!(table.contains("NAME"));
    assert!(table.contains("PROTECTION"));
    assert!(table.contains("research"));
    assert!(table.contains("Strict"));
    // header row + one data row
    assert_eq!(table.lines().count(), 2);
}

#[test]
fn empty_profiles_table_is_friendly() {
    assert_eq!(profiles_table(&vec![], ago(0)), "no profiles");
}

#[test]
fn profile_detail_lists_fields() {
    let detail = profile_detail(&tor_strict_profile(), ago(0));
    assert!(detail.contains("name"));
    assert!(detail.contains("research"));
    assert!(detail.contains("Strict"));
    assert!(detail.contains("Tor"));
    // The per-profile isolation level is surfaced.
    assert!(detail.contains("isolation"));
    assert!(detail.contains("full VM isolation"));
}

#[test]
fn profile_row_and_detail_reflect_host_isolation() {
    let mut spec = ProfileSpec::ephemeral("host");
    spec.isolation = IsolationLevel::HostProcess;
    let p = Profile {
        id: ProfileId::new(),
        spec,
        created_at: ago(0),
        last_launched: None,
        storage: StorageUsage::default(),
        locked: false,
    };
    // Table cell is the compact "host".
    let row = profile_row(&p, ago(0));
    assert_eq!(row[3], "host");
    // Detail shows the full reduced label.
    let detail = profile_detail(&p, ago(0));
    assert!(detail.contains("host process (reduced)"));
    assert!(!detail.to_lowercase().contains("anonymous"));
}

#[test]
fn profiles_table_has_isolation_column() {
    let table = profiles_table(&vec![tor_strict_profile()], ago(0));
    assert!(table.contains("ISOLATION"));
}

#[test]
fn checklist_all_pass_renders_active_badge() {
    let cl = ConnectivityChecklist::new(all_pass());
    let out = checklist_report(&cl);
    assert!(out.contains("protection active"));
    assert!(out.contains("all checks passed"));
    assert!(!out.to_lowercase().contains("100% anonymous"));
}

#[test]
fn checklist_dns_failure_renders_unsafe_and_lists_failing_check() {
    let mut reports = all_pass();
    for r in &mut reports {
        if r.id == CheckId::DnsRouteVerified {
            *r = CheckReport::fail(CheckId::DnsRouteVerified, "leak: plaintext DNS observed");
        }
    }
    let cl = ConnectivityChecklist::new(reports);
    let out = checklist_report(&cl);
    // The aggregate badge must be the unsafe label.
    assert!(
        out.contains("unsafe configuration"),
        "expected unsafe badge in:\n{out}"
    );
    // The failing check is listed by id and detail.
    assert!(out.contains("dns_route_verified"));
    assert!(out.contains("leak: plaintext DNS observed"));
    assert!(out.contains("FAIL"));
}

#[test]
fn checklist_no_gateway_renders_no_protection() {
    let mut reports = all_pass();
    for r in &mut reports {
        if r.id == CheckId::GatewayReady {
            *r = CheckReport::fail(CheckId::GatewayReady, "gateway unreachable");
        }
    }
    let cl = ConnectivityChecklist::new(reports);
    let out = checklist_report(&cl);
    assert!(out.contains("no protection"));
}

#[test]
fn diagnostics_report_includes_items_and_ip() {
    let mut cl = ConnectivityChecklist::new(all_pass());
    cl.observed_ip = Some(IpObservation {
        ip: "198.51.100.9".into(),
        via_tunnel: true,
        differs_from_host: true,
    });
    let items = vec![
        DiagnosticItem::new("dns", HealthLevel::Healthy, "verified via Tor DNSPort"),
        DiagnosticItem::new("ipv6", HealthLevel::Healthy, "blocked at gateway"),
        DiagnosticItem::new("kill_switch", HealthLevel::Healthy, "armed"),
    ];
    let out = diagnostics_report(&cl, &items);
    assert!(out.contains("198.51.100.9"));
    assert!(out.contains("SUBSYSTEM"));
    assert!(out.contains("dns"));
    assert!(out.contains("kill_switch"));
    assert!(out.contains("protection active"));
}

fn two_sessions() -> Vec<SessionSummary> {
    vec![
        SessionSummary {
            id: SessionId::new(),
            profile: ProfileId::new(),
            state: SessionState::Browsing,
            protection: ProtectionStatus::Active,
            public_ip: Some("198.51.100.1".into()),
        },
        SessionSummary {
            id: SessionId::new(),
            profile: ProfileId::new(),
            state: SessionState::Failed,
            protection: ProtectionStatus::Unsafe,
            public_ip: None,
        },
    ]
}

#[test]
fn sessions_table_shows_badges() {
    let out = sessions_table(&two_sessions());
    assert!(out.contains("PROTECTION"));
    assert!(out.contains("protection active"));
    assert!(out.contains("unsafe configuration"));
    assert!(out.contains("browsing"));
    assert!(out.contains("failed"));
}

#[test]
fn empty_sessions_table_is_friendly() {
    assert_eq!(sessions_table(&vec![]), "no active sessions");
}

#[test]
fn columns_line_up() {
    let out = sessions_table(&two_sessions());
    let starts: Vec<usize> = out
        .lines()
        .zip(["PROTECTION", "protection active", "unsafe configuration"])
        .map(|(l, w)| l.find(w).unwrap())
        .collect();
    assert_eq!(starts[0], starts[1]);
    assert_eq!(starts[1], starts[2]);
}

#[test]
fn protection_badge_never_claims_anonymity() {
    for status in [
        ProtectionStatus::Active,
        ProtectionStatus::Partial,
        ProtectionStatus::Unsafe,
        ProtectionStatus::Unprotected,
    ] {
        let b = protection_badge(status);
        assert!(!b.to_lowercase().contains("anonymous"));
        assert!(!b.contains("100%"));
    }
}

#[test]
fn doctor_report_renders_checklist() {
    let cl = ConnectivityChecklist::new(all_pass());
    let out = doctor_report(&cl);
    assert!(out.contains("doctor self-test"));
    assert!(out.contains("protection active"));
}

#[test]
fn isolation_badge_labels_full_and_reduced() {
    assert!(isolation_badge(IsolationLevel::FullVm).contains("full VM isolation"));
    let reduced = isolation_badge(IsolationLevel::HostProcess);
    assert!(reduced.contains("reduced"));
    assert!(!reduced.to_lowercase().contains("anonymous"));
    assert!(!reduced.contains("100%"));
}

#[test]
fn enforcement_report_shows_flags_and_badge() {
    let secure = enforcement_report(&Enforcement::secure());
    assert!(secure.contains("full VM isolation"));
    assert!(secure.contains("vm-isolation   on"));
    assert!(secure.contains("host-browser   off"));

    let host = enforcement_report(&Enforcement::host_browser());
    assert!(host.contains("reduced"));
    assert!(host.contains("vm-isolation   off"));
    assert!(host.contains("host-browser   on"));
}

#[test]
fn status_report_full_vm_has_no_reduced_note() {
    let status = StatusDto {
        version: "0.1.0".into(),
        platform: "linux".into(),
        isolation_level: IsolationLevel::FullVm,
        enforcement: Enforcement::secure(),
        host_browser_available: false,
        host_browser_path: None,
    };
    let out = status_report(&status);
    assert!(out.contains("platform       linux"));
    assert!(out.contains("full VM isolation"));
    assert!(out.contains("host browser   not found"));
    assert!(!out.contains("reduced protection"));
    assert!(!out.to_lowercase().contains("anonymous"));
}

#[test]
fn status_report_host_process_states_reduced_and_path() {
    let status = StatusDto {
        version: "0.1.0".into(),
        platform: "windows".into(),
        isolation_level: IsolationLevel::HostProcess,
        enforcement: Enforcement::host_browser(),
        host_browser_available: true,
        host_browser_path: Some(r"C:\chrome.exe".into()),
    };
    let out = status_report(&status);
    assert!(out.contains("platform       windows"));
    assert!(out.contains("reduced"));
    assert!(out.contains("reduced protection: the site runs on your real OS"));
    assert!(out.contains(r"available (C:\chrome.exe)"));
}

// --- output -----------------------------------------------------------------

fn sample_profile(name: &str) -> Profile {
    Profile {
        id: ProfileId::new(),
        spec: ProfileSpec::ephemeral(name),
        created_at: ago(0),
        last_launched: None,
        storage: Default::default(),
        locked: false,
    }
}

fn sample_manifest(v: Version) -> UpdateManifest {
    UpdateManifest {
        schema: 1,
        version: v,
        delta_base: None,
        kind: UpdateKind::Full,
        artifacts: vec![],
        sbom: None,
        signature: "aa".into(),
    }
}

/// Parse a string as JSON, asserting it is valid.
fn assert_valid_json(s: &str) -> serde_json::Value {
    serde_json::from_str(s).unwrap_or_else(|e| panic!("not valid JSON: {e}\n{s}"))
}

#[test]
fn host_profile_prints_reduced_note_on_stderr() {
    let response = Response::Profile(sample_profile("h"));
    let human = format_profile(&response, false, ago(0), IsolationArg::Host).expect("format");
    assert!(human.stderr.contains("reduced protection"));
    assert!(human.stderr.contains("real OS"));
    assert!(!human.text().to_lowercase().contains("anonymous"));

    let json = format_profile(&response, true, ago(0), IsolationArg::Host).expect("format");
    assert!(matches!(&json.stdout, Stdout::Json(JsonDoc::Profile(p)) if p.spec.name == "h"));
    assert!(json.stderr.contains("reduced protection"));

    // A VM-isolation profile has no reduced note.
    let vm = format_profile(&response, false, ago(0), IsolationArg::Vm).expect("format");
    assert!(vm.stderr.is_empty());
}

#[test]
fn diagnostics_document_names_the_badge() {
    let response = Response::Diagnostics {
        checklist: all_pass_checklist(),
        items: vec![DiagnosticItem::new("dns", HealthLevel::Healthy, "ok")],
    };
    let out = format_diagnostics(&response, true).expect("format");
    assert!(matches!(
        &out.stdout,
        Stdout::Json(JsonDoc::Diagnostics("protection active", c, items))
            if c.reports.len() == 6 && items.len() == 1
    ));
    assert_eq!(out.dispatch, Dispatch::Success);
    let human = format_diagnostics(&response, false).expect("format");
    assert!(human.text().contains("SUBSYSTEM"));
}

#[test]
fn profiles_document_holds_the_profiles() {
    let response = Response::Profiles(vec![sample_profile("t")]);
    let out = format_profiles(&response, true, ago(0)).expect("format");
    assert!(matches!(&out.stdout, Stdout::Json(JsonDoc::Profiles(p)) if p[0].spec.name == "t"));
}

#[test]
fn profiles_table_is_not_json() {
    let response = Response::Profiles(vec![sample_profile("t")]);
    let out = format_profiles(&response, false, ago(0)).expect("format");
    assert!(out.text().contains("NAME"));
    assert!(out.text().contains("PROTECTION"));
}

#[test]
fn error_response_goes_to_stderr_and_fails() {
    let response = Response::Error {
        message: "tunnel dropped".into(),
        class: FailureClass::NetworkContainment,
    };
    // Human path: message + class on stderr, non-zero exit.
    let human = format_response(
        &Command::Session(SessionCommand::List),
        &response,
        false,
        ago(0),
    )
    .expect("format");
    assert_eq!(human.dispatch, Dispatch::DaemonError);
    assert!(human.text().is_empty());
    assert!(human.stderr.contains("tunnel dropped"));
    assert!(human.stderr.contains("network-containment"));

    // JSON path: a valid JSON object carrying the class.
    let json = format_response(
        &Command::Session(SessionCommand::List),
        &response,
        true,
        ago(0),
    )
    .expect("format");
    assert_eq!(json.dispatch, Dispatch::DaemonError);
    let parsed = assert_valid_json(&json.text());
    assert_eq!(parsed["class"], "network-containment");
    assert_eq!(parsed["error"], "tunnel dropped");
}

#[test]
fn doctor_failure_fails_the_process() {
    let mut reports = all_pass();
    reports[2] = CheckReport::fail(CheckId::DnsRouteVerified, "leak");
    let response = Response::Doctor(ConnectivityChecklist::new(reports));

    let out = format_doctor(&response, false).expect("format");
    assert_eq!(out.dispatch, Dispatch::DaemonError);
    assert!(out.text().contains("unsafe configuration"));

    let out_json = format_doctor(&response, true).expect("format");
    assert!(matches!(
        &out_json.stdout,
        Stdout::Json(JsonDoc::Doctor("unsafe configuration", _))
    ));
    assert_eq!(out_json.dispatch, Dispatch::DaemonError);
}

#[test]
fn doctor_all_pass_signals_success() {
    let response = Response::Doctor(all_pass_checklist());
    let out = format_doctor(&response, false).expect("format");
    assert_eq!(out.dispatch, Dispatch::Success);
}

#[test]
fn sessions_document_holds_the_sessions() {
    let response = Response::Sessions(two_sessions());
    let out = format_sessions(&response, true).expect("format");
    assert!(matches!(
        &out.stdout,
        Stdout::Json(JsonDoc::Sessions(s)) if s[0].state == SessionState::Browsing
    ));
    assert!(format_sessions(&response, false).unwrap().text().contains("STATE"));
}

#[test]
fn session_line_has_the_state_and_the_badge() {
    let s = SessionSummary {
        id: SessionId::from_u128(1),
        profile: ProfileId::from_u128(2),
        state: SessionState::GatewayStarting,
        protection: ProtectionStatus::Active,
        public_ip: None,
    };
    let row = session_row(&s);
    assert_eq!(row[2], "gatewaystarting");
    let response = Response::Session(s);
    let out = format_session(&response, false).unwrap();
    assert_eq!(
        out.text(),
        "session 00000000-0000-0000-0000-000000000001 gatewaystarting [protection active]"
    );
}

#[test]
fn update_check_available_json() {
    let response = Response::UpdateAvailable(Some(sample_manifest(Version::new(1, 2, 3))));
    let out = format_update_check(&response, true).expect("format");
    let parsed = assert_valid_json(&out.text());
    assert_eq!(parsed["available"], true);
    assert_eq!(parsed["version"], "1.2.3");
}

#[test]
fn update_check_texts() {
    let found = Response::UpdateAvailable(Some(sample_manifest(Version::new(1, 2, 3))));
    assert_eq!(
        format_update_check(&found, false).unwrap().text(),
        "update available: 1.2.3"
    );
    let none = Response::UpdateAvailable(None);
    assert_eq!(format_update_check(&none, false).unwrap().text(), "up to date");
    assert_eq!(
        format_update_check(&none, true).unwrap().text(),
        "{\n  \"available\": false\n}"
    );
}

#[test]
fn objects_are_printed_one_member_to_a_line() {
    let found = Response::UpdateAvailable(Some(sample_manifest(Version::new(1, 2, 3))));
    assert_eq!(
        format_update_check(&found, true).unwrap().text(),
        "{\n  \"available\": true,\n  \"version\": \"1.2.3\"\n}"
    );
    let failed = Response::Error {
        message: "a \"b\"\n".into(),
        class: aegis::error::FailureClass::Internal,
    };
    assert_eq!(
        format_error(&failed, true).unwrap().text(),
        "{\n  \"class\": \"internal\",\n  \"error\": \"a \\\"b\\\"\\n\"\n}"
    );
}

#[test]
fn wrong_response_variant_is_internal_error() {
    // Asking to render a Profiles command but handed a Session response.
    let response = Response::Done;
    assert!(format_profiles(&response, false, ago(0)).is_err());
}

#[test]
fn a_wrong_reply_is_named() {
    let response = Response::Done;
    let e = format_profiles(&response, false, ago(0)).err().unwrap();
    assert_eq!(e.text(), "internal error: expected Profiles response, got ok");
    assert_eq!(response_name(&response), "ok");
    let e = format_error(&response, false).err().unwrap();
    assert_eq!(e.text(), "internal error: format_error on non-error");
    let e = format_response(&Command::Update(UpdateCommand::Apply), &response, false, ago(0))
        .err()
        .unwrap();
    assert_eq!(e.text(), "internal error: unreachable apply render");
}

#[test]
fn output_emit_returns_dispatch() {
    // emit() is the only impure part; verify it returns the dispatch value.
    assert_eq!(Output::ok("x").dispatch, Dispatch::Success);
    assert_eq!(Output::ok_but_failed("y").dispatch, Dispatch::DaemonError);
}

#[test]
fn a_removed_profile_is_confirmed() {
    let cmd = Command::Profile(ProfileCommand::Rm { id: ProfileId::new().text() });
    let out = format_response(&cmd, &Response::Done, false, ago(0)).unwrap();
    assert_eq!(out.text(), "profile removed");
    let json = format_ok(&Response::Done, "x", true).unwrap();
    assert_eq!(json.text(), "{\n  \"ok\": true\n}");
}

#[test]
fn one_profile_is_shown_out_of_all() {
    let a = sample_profile("a");
    let b = sample_profile("b");
    let id = b.id.text();
    let response = Response::Profiles(vec![a, b]);
    let out = format_profile_show(&response, &id, false, ago(0)).unwrap();
    assert!(out.text().contains("b"));
    let json = format_profile_show(&response, &id, true, ago(0)).unwrap();
    assert!(matches!(&json.stdout, Stdout::Json(JsonDoc::Profile(p)) if p.spec.name == "b"));
    let missing = ProfileId::new().text();
    let e = format_profile_show(&response, &missing, false, ago(0)).err().unwrap();
    assert_eq!(e.text(), format!("not found: no profile {missing}"));
    let e = format_profile_show(&response, "nope", false, ago(0)).err().unwrap();
    assert!(matches!(e, Error::Config(_)));
}

#[test]
fn serializer_failures_become_system_errors() {
    assert_eq!(json_or_error(Ok("{}".into())).unwrap(), "{}");
    assert_eq!(
        json_or_error(Err("bad".into())).unwrap_err().text(),
        "system error: could not serialize output: bad"
    );
}

fn sample_status(level: IsolationLevel) -> StatusDto {
    StatusDto {
        version: "0.1.0".into(),
        platform: "windows".into(),
        isolation_level: level,
        enforcement: if level.is_full() {
            Enforcement::secure()
        } else {
            Enforcement::host_browser()
        },
        host_browser_available: true,
        host_browser_path: Some("C:/chrome.exe".into()),
    }
}

#[test]
fn status_human_and_document() {
    let response = Response::Status(sample_status(IsolationLevel::HostProcess));
    // Human path: shows platform + reduced badge, never "anonymous".
    let human = format_status(&response, false).expect("format");
    assert!(human.text().contains("windows"));
    assert!(human.text().contains("reduced"));
    assert!(!human.text().to_lowercase().contains("anonymous"));
    assert_eq!(human.dispatch, Dispatch::Success);

    let json = format_status(&response, true).expect("format");
    assert!(matches!(
        &json.stdout,
        Stdout::Json(JsonDoc::Status(s)) if s.platform == "windows"
    ));
}

#[test]
fn enforcement_read_has_no_warning() {
    let response = Response::Enforcement(Enforcement::secure());
    let out = format_enforcement(&response, false, None).expect("format");
    assert!(out.stderr.is_empty(), "a plain read must not warn");
    assert!(out.text().contains("full VM isolation"));
}

#[test]
fn enforcement_relaxing_isolation_warns_on_stderr() {
    // Prior policy is full isolation; the new one is reduced => warn.
    let response = Response::Enforcement(Enforcement::host_browser());
    let out = format_enforcement(&response, false, Some(Enforcement::secure())).expect("format");
    assert!(out.stderr.contains("reduced protection"));
    assert!(out.stderr.contains("real OS"));
    assert!(!out.stderr.to_lowercase().contains("anonymous"));
}

#[test]
fn relaxing_warns_beside_the_document() {
    let response = Response::Enforcement(Enforcement::host_browser());
    let out = format_enforcement(&response, true, Some(Enforcement::secure())).expect("format");
    assert!(matches!(
        &out.stdout,
        Stdout::Json(JsonDoc::Enforcement(e)) if e.allow_host_browser
    ));
    assert!(out.stderr.contains("reduced protection"));
}

/// Runs `update apply` against queued replies; returns what was sent.
fn update_apply(replies: Vec<Response>, json: bool) -> (Vec<&'static str>, Output<'static>) {
    assert!(matches!(
        plan(&Command::Update(UpdateCommand::Apply)).unwrap(),
        Plan::CheckThenApply
    ));
    let mut replies = replies.into_iter();
    let mut seen = vec![update_check_request().op_name()];
    match after_update_check(replies.next().unwrap(), json).expect("apply") {
        Followup::Show(o) => (seen, o),
        Followup::Send(q) => {
            seen.push(q.op_name());
            let applied = replies.next().unwrap();
            (seen, format_update_applied(&applied, json).expect("apply"))
        }
    }
}

#[test]
fn update_apply_two_step_applies_available_manifest() {
    let (seen, out) = update_apply(
        vec![
            Response::UpdateAvailable(Some(sample_manifest(Version::new(9, 9, 9)))),
            Response::UpdateApplied(ApplyOutcome::Applied),
        ],
        false,
    );
    assert_eq!(out.dispatch, Dispatch::Success);
    assert!(out.text().contains("applied"));
    // It must check first, then apply — never apply blindly.
    assert_eq!(seen, vec!["check-update", "apply-update"]);
}

#[test]
fn update_apply_up_to_date_does_not_apply() {
    let (seen, out) = update_apply(vec![Response::UpdateAvailable(None)], false);
    assert_eq!(out.dispatch, Dispatch::Success);
    assert!(out.text().contains("up to date"));
    // Only the check happened; no apply request was sent.
    assert_eq!(seen, vec!["check-update"]);
    let (_, json) = update_apply(vec![Response::UpdateAvailable(None)], true);
    let parsed = assert_valid_json(&json.text());
    assert_eq!(parsed["applied"], false);
    assert_eq!(parsed["reason"], "up to date");
}

#[test]
fn update_apply_rollback_signals_failure() {
    let (_, out) = update_apply(
        vec![
            Response::UpdateAvailable(Some(sample_manifest(Version::new(2, 0, 0)))),
            Response::UpdateApplied(ApplyOutcome::RolledBack),
        ],
        true,
    );
    // A rollback is a non-zero exit; JSON output stays valid.
    assert_eq!(out.dispatch, Dispatch::DaemonError);
    let parsed = assert_valid_json(&out.text());
    assert_eq!(parsed["outcome"], "rolled-back");
}

#[test]
fn update_apply_propagates_daemon_error() {
    let (_, out) = update_apply(
        vec![Response::Error {
            message: "no verify key".into(),
            class: FailureClass::Configuration,
        }],
        false,
    );
    assert_eq!(out.dispatch, Dispatch::DaemonError);
    assert!(out.stderr.contains("no verify key"));
    let e = after_update_check(Response::Done, false).err().unwrap();
    assert_eq!(e.text(), "internal error: unexpected response to check-update: ok");
}

fn relax_args() -> EnforcementArgs {
    EnforcementArgs {
        vm_isolation: Some(Toggle::Off),
        gateway: None,
        host_browser: Some(Toggle::On),
    }
}

#[test]
fn set_enforcement_reads_then_writes_only_changed_flags() {
    // Current policy is fully secure; the user flips only --vm-isolation off
    // and --host-browser on. Gateway must be left as-is (unchanged).
    let args = relax_args();
    assert!(matches!(
        plan(&Command::Config(ConfigCommand::Enforcement(args))).unwrap(),
        Plan::ChangePolicy(a) if a == args
    ));
    let current = Response::Enforcement(Enforcement::secure());
    let sent = match after_get_enforcement(&current, &args, false).expect("set") {
        Followup::Send(Request::SetEnforcement(e)) => e,
        _ => panic!("expected a set-enforcement request"),
    };
    assert_eq!(
        sent,
        Enforcement {
            require_vm_isolation: false,
            require_gateway: true,
            allow_host_browser: true,
        }
    );
    let out = after_set_enforcement(&Response::Enforcement(sent), Enforcement::secure(), false)
        .expect("set");
    assert_eq!(out.dispatch, Dispatch::Success);
    // Relaxing from full to reduced prints the honest warning on stderr.
    assert!(out.stderr.contains("reduced protection"));
    assert!(out.text().contains("host-browser   on"));
}

#[test]
fn set_enforcement_propagates_daemon_error() {
    let failed = Response::Error {
        message: "policy lock poisoned".into(),
        class: FailureClass::Internal,
    };
    let out = match after_get_enforcement(&failed, &relax_args(), false).expect("set") {
        Followup::Show(o) => o,
        Followup::Send(_) => panic!("nothing may be sent"),
    };
    assert_eq!(out.dispatch, Dispatch::DaemonError);
    assert!(out.stderr.contains("policy lock poisoned"));
    let e = after_get_enforcement(&Response::Done, &relax_args(), false).err().unwrap();
    assert_eq!(e.text(), "internal error: unexpected response to get-enforcement: ok");
    let out = after_set_enforcement(&failed, Enforcement::secure(), false).unwrap();
    assert_eq!(out.stderr, "error: policy lock poisoned [internal]");
}

#[test]
fn a_read_of_the_policy_is_one_request() {
    let args = EnforcementArgs::default();
    assert!(matches!(
        plan(&Command::Config(ConfigCommand::Enforcement(args))).unwrap(),
        Plan::Once(Request::GetEnforcement)
    ));
    assert!(matches!(plan(&Command::Status).unwrap(), Plan::Once(Request::GetStatus)));
}
