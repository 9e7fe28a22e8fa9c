//! Tests of the domain types.

use aegis::audit::MemoryAuditSink;
use aegis::browser::{BackendPolicyBundle, BrowserBackendId};
use aegis::config::{
    default_true, AppConfig, Enforcement, IsolationLevel, Paths, RenderMode,
};
use aegis::error::{Error, FailureClass};
use aegis::events::{AuditDraft, AuditRecord, EventKind, Severity};
use aegis::fingerprint::{
    representative_user_agent, CanvasMode, FingerprintPolicy, FontPolicy, LetterboxMode,
    ProtectionLevel, SafetyPreset, WebGlMode,
};
use aegis::gateway::{
    DefaultPolicy, FirewallPolicy, GatewayConfig, GatewayHealth, KillSwitchState, TunnelState,
    TunnelStatus,
};
use aegis::health::{DiagnosticItem, HealthLevel};
use aegis::ids::{InstanceId, ProfileId, SessionId, VmId};
use aegis::network::{
    CredentialRef, DnsMode, DnsPolicy, Ipv6Policy, NetworkConfig, NetworkMode, ProxyConfig,
    ProxyProtocol, TorConfig, VpnConfig, VpnProtocol,
};
use aegis::permissions::{Feature, PermissionPolicy, PermissionState};
use aegis::policy::{PolicyTable, PolicyValue};
use aegis::preflight::{
    CheckId, CheckOutcome, CheckReport, ConnectivityChecklist, ProtectionStatus,
};
use aegis::profile::{Profile, ProfilePatch, ProfileSpec, ProfileType, StorageUsage};
use aegis::secure::{AeadAlg, KdfParams, Salt, SealedBlob, Secret, SecretKey};
use aegis::session::{SessionState, SessionSummary};
use aegis::table::TextTable;
use aegis::time::Timestamp;
use aegis::update::{UpdateTask, Version};
use aegis::vm::{
    DestroyReport, DiskLayer, GpuBackend, IsolationPolicy, VmProvisionRequest, VmResources, VmRole,
    VmState,
};
use aegis::{self_check, VERSION};

fn at(secs: i64) -> Timestamp {
    Timestamp::new(secs, 0).unwrap()
}

// --- browser ----------------------------------------------------------------

fn bundle(cmd: Vec<&str>) -> BackendPolicyBundle {
    BackendPolicyBundle {
        backend: BrowserBackendId::Chromium,
        managed_policies: TextTable::new(),
        command_line: cmd.into_iter().map(String::from).collect(),
        preferences: PolicyTable::new(),
    }
}

#[test]
fn safe_command_line_passes() {
    let b = bundle(vec!["--enable-features=StrictOriginIsolation"]);
    assert!(b.assert_safe(true).is_ok());
}

#[test]
fn no_sandbox_is_rejected() {
    assert!(bundle(vec!["--no-sandbox"]).assert_safe(true).is_err());
}

#[test]
fn disable_web_security_is_rejected() {
    assert!(bundle(vec!["--disable-web-security"]).assert_safe(true).is_err());
}

#[test]
fn remote_debugging_rejected_in_production_only() {
    let b = bundle(vec!["--remote-debugging-port=9222"]);
    assert!(b.assert_safe(true).is_err());
    assert!(b.assert_safe(false).is_ok());
}

#[test]
fn one_bad_argument_among_good_ones_is_refused() {
    let b = bundle(vec!["--no-first-run", "--no-sandbox=1", "--lang=en"]);
    assert!(matches!(b.assert_safe(false), Err(Error::Config(_))));
    let near = bundle(vec!["--no-sandboxed"]);
    assert!(near.assert_safe(true).is_ok());
}

#[test]
fn backend_labels() {
    assert_ne!(BrowserBackendId::Chromium.label(), BrowserBackendId::Firefox.label());
}

// --- config -----------------------------------------------------------------

#[test]
fn enforcement_defaults_to_full_isolation() {
    let e = Enforcement::default();
    assert!(e.is_full_isolation());
    assert!(!e.allow_host_browser);
    assert_eq!(e.isolation_level(), IsolationLevel::FullVm);
}

#[test]
fn host_browser_posture_is_reduced() {
    let e = Enforcement::host_browser();
    assert!(!e.is_full_isolation());
    assert!(e.allow_host_browser);
    assert_eq!(e.isolation_level(), IsolationLevel::HostProcess);
    assert!(!IsolationLevel::HostProcess.is_full());
}

#[test]
fn dropping_either_layer_reduces_isolation() {
    for (vm, gw) in [(true, false), (false, true)] {
        let e = Enforcement {
            require_vm_isolation: vm,
            require_gateway: gw,
            allow_host_browser: false,
        };
        assert!(!e.is_full_isolation());
        assert_eq!(e.isolation_level(), IsolationLevel::HostProcess);
    }
    assert!(default_true());
}

#[test]
fn default_config_is_tor_balanced_and_secure() {
    let cfg = AppConfig::default();
    assert_eq!(cfg.default_network.label(), "Tor");
    assert_eq!(cfg.default_protection, ProtectionLevel::Balanced);
    assert_eq!(cfg.network_prefix, "aegis");
    assert!(cfg.images.is_none());
    assert!(cfg.update_verify_key.is_none());
    assert_eq!(cfg.enforcement, Enforcement::secure());
    let paths = Paths::default();
    assert_eq!(cfg.paths, paths);
    assert_eq!(paths.daemon_socket, "/run/aegis/daemon.sock");
}

#[test]
fn config_labels() {
    assert_eq!(IsolationLevel::FullVm.label(), "full VM isolation");
    assert_eq!(IsolationLevel::HostProcess.label(), "host process (reduced)");
    assert_eq!(IsolationLevel::default(), IsolationLevel::FullVm);
    assert_ne!(RenderMode::VirtioGpu.label(), RenderMode::Software.label());
}

// --- error ------------------------------------------------------------------

#[test]
fn killswitch_classes() {
    assert!(Error::NetworkContainment("x".into()).requires_killswitch());
    assert!(Error::Isolation("x".into()).requires_killswitch());
    assert!(Error::preflight("dns_route_verified", "leak").requires_killswitch());
    assert!(!Error::Config("x".into()).requires_killswitch());
    assert!(!Error::Busy("x".into()).requires_killswitch());
}

#[test]
fn retryable_only_for_transient() {
    assert!(FailureClass::System.is_retryable());
    assert!(FailureClass::Precondition.is_retryable());
    assert!(!FailureClass::NetworkContainment.is_retryable());
    assert!(!FailureClass::Integrity.is_retryable());
}

#[test]
fn every_error_has_its_text_and_class() {
    let cases = [
        (
            Error::NetworkContainment("m".into()),
            "network containment failure: m",
            FailureClass::NetworkContainment,
        ),
        (Error::Isolation("m".into()), "isolation failure: m", FailureClass::Isolation),
        (
            Error::preflight("gateway_ready", "m"),
            "preflight check 'gateway_ready' failed: m",
            FailureClass::NetworkContainment,
        ),
        (Error::Crypto("m".into()), "cryptography failure: m", FailureClass::Cryptography),
        (Error::Integrity("m".into()), "integrity failure: m", FailureClass::Integrity),
        (Error::Config("m".into()), "invalid configuration: m", FailureClass::Configuration),
        (Error::Precondition("m".into()), "precondition not met: m", FailureClass::Precondition),
        (Error::NotFound("m".into()), "not found: m", FailureClass::Precondition),
        (Error::Busy("m".into()), "resource busy: m", FailureClass::Precondition),
        (Error::Unsupported("m".into()), "unsupported: m", FailureClass::System),
        (Error::System("m".into()), "system error: m", FailureClass::System),
        (Error::Internal("m".into()), "internal error: m", FailureClass::Internal),
    ];
    for (e, text, class) in cases {
        assert_eq!(e.text(), text);
        assert_eq!(e.class(), class);
        assert_eq!(e.requires_killswitch(), class.requires_killswitch());
    }
    assert_eq!(FailureClass::NetworkContainment.as_str(), "network-containment");
    assert_eq!(FailureClass::NetworkContainment.debug_name(), "NetworkContainment");
}

// --- events and audit -------------------------------------------------------

#[test]
fn severity_orders_critical_highest() {
    assert!(Severity::Critical > Severity::Warning);
    assert!(Severity::Warning > Severity::Notice);
    assert!(Severity::Notice > Severity::Info);
}

#[test]
fn records_carry_their_session_and_profile() {
    let s = SessionId::from_u128(1);
    let p = ProfileId::from_u128(2);
    let rec = AuditRecord::new(
        at(5),
        Severity::Info,
        EventKind::Profile { action: "profile-created".into() },
    );
    assert!(rec.session.is_none() && rec.profile.is_none());
    let rec = rec.with_session(s).with_profile(p);
    assert_eq!(rec.session, Some(s));
    assert_eq!(rec.profile, Some(p));
    assert_eq!(rec.at, at(5));
    let draft = AuditDraft::about(
        Severity::Notice,
        s,
        p,
        EventKind::Profile { action: "profile-deleted".into() },
    );
    let stamped = draft.stamped(at(7));
    assert_eq!(stamped.at, at(7));
    assert_eq!(stamped.severity, Severity::Notice);
    assert_eq!(stamped.session, Some(s));
}

#[test]
fn memory_sink_records_in_order() {
    let mut sink = MemoryAuditSink::new();
    assert!(sink.is_empty());
    for sev in [Severity::Info, Severity::Notice, Severity::Critical] {
        sink.record(AuditRecord::new(
            at(1),
            sev,
            EventKind::KillSwitch { state: "engaged".into() },
        ))
        .unwrap();
    }
    assert_eq!(sink.len(), 3);
    let got: Vec<Severity> = sink.records().iter().map(|r| r.severity).collect();
    assert_eq!(got, vec![Severity::Info, Severity::Notice, Severity::Critical]);
}

// --- fingerprint ------------------------------------------------------------

#[test]
fn levels_produce_valid_policies() {
    assert!(FingerprintPolicy::balanced().validate().is_none());
    assert!(FingerprintPolicy::strict().validate().is_none());
}

#[test]
fn strict_disables_webgpu_and_full_webgl() {
    let p = FingerprintPolicy::strict();
    assert!(!p.webgpu_enabled);
    assert_ne!(p.webgl, WebGlMode::VirtualBackend);
    assert_eq!(p.letterbox, LetterboxMode::On);
}

#[test]
fn device_apis_are_always_blocked() {
    for level in [ProtectionLevel::Balanced, ProtectionLevel::Strict] {
        assert!(level.policy().block_device_apis);
    }
}

#[test]
fn validation_rejects_unblocked_devices() {
    let mut p = FingerprintPolicy::balanced();
    p.block_device_apis = false;
    assert!(p.validate().is_some());
}

#[test]
fn validation_names_the_broken_rule() {
    let mut p = FingerprintPolicy::strict();
    p.webgpu_enabled = true;
    assert_eq!(p.validate(), Some("WebGPU must be disabled in Strict mode"));
    let mut p = FingerprintPolicy::strict();
    p.webgl = WebGlMode::VirtualBackend;
    assert_eq!(p.validate(), Some("Strict mode must not expose a full WebGL backend"));
    let mut p = FingerprintPolicy::balanced();
    p.webgpu_enabled = true;
    assert_eq!(p.validate(), None);
    for level in [ProtectionLevel::Balanced, ProtectionLevel::Strict] {
        let mut p = level.policy();
        p.disable_sensor_apis = false;
        assert_eq!(p.validate(), Some("sensor APIs must be suppressed"));
        let mut p = level.policy();
        p.disable_battery_api = false;
        assert_eq!(p.validate(), Some("the Battery Status API must be suppressed"));
    }
}

#[test]
fn policies_have_their_exact_values() {
    let b = FingerprintPolicy::balanced();
    assert_eq!(b.timer_coarsening_us, 100);
    assert_eq!(b.hardware_concurrency, Some(4));
    assert_eq!(b.canvas, CanvasMode::Passthrough);
    assert_eq!(b.fonts, FontPolicy::StandardSet);
    let s = FingerprintPolicy::strict();
    assert_eq!(s.timer_coarsening_us, 100_000);
    assert_eq!(s.hardware_concurrency, Some(2));
    assert_eq!(s.canvas, CanvasMode::Limited);
    assert_eq!(FingerprintPolicy::default(), b);
    assert_eq!(s.clone(), s);
}

#[test]
fn presets_collapse_onto_levels() {
    assert_eq!(SafetyPreset::Compatibility.level(), ProtectionLevel::Balanced);
    assert_eq!(SafetyPreset::Balanced.level(), ProtectionLevel::Balanced);
    assert_eq!(SafetyPreset::Strict.level(), ProtectionLevel::Strict);
    assert_eq!(SafetyPreset::Paranoid.level(), ProtectionLevel::Strict);
    assert_eq!(SafetyPreset::Paranoid.policy(), FingerprintPolicy::strict());
    assert_eq!(ProtectionLevel::Strict.label(), "Strict");
    assert!(representative_user_agent(BrowserBackendId::Firefox).contains("Firefox"));
}

// --- gateway ----------------------------------------------------------------

fn tor_cfg() -> GatewayConfig {
    GatewayConfig {
        mode: NetworkMode::Tor(TorConfig::default()),
        dns: DnsPolicy::tor(),
        ipv6: Ipv6Policy::Block,
        downstream_cidr: "10.152.152.0/24".into(),
        gateway_address: "10.152.152.1".into(),
    }
}

#[test]
fn fail_closed_policy_is_valid_and_drops() {
    let fw = FirewallPolicy::fail_closed(&tor_cfg());
    assert_eq!(fw.default_policy, DefaultPolicy::Drop);
    assert!(fw.block_direct_udp);
    assert!(fw.validate().is_none());
    // Tor mode wires transparent redirects.
    assert_eq!(fw.redirect_dns_to, Some(5353));
    assert_eq!(fw.redirect_tcp_to, Some(9040));
}

#[test]
fn accept_default_is_rejected() {
    let mut fw = FirewallPolicy::fail_closed(&tor_cfg());
    fw.default_policy = DefaultPolicy::Accept;
    assert!(fw.validate().is_some());
}

#[test]
fn health_requires_everything() {
    let mut h = GatewayHealth {
        gateway_up: true,
        firewall_applied: true,
        tunnel: TunnelStatus::up(),
        killswitch: KillSwitchState::Armed,
    };
    assert!(h.is_ready());
    h.killswitch = KillSwitchState::Engaged;
    assert!(!h.is_ready());
}

#[test]
fn only_a_running_tunnel_is_up() {
    assert!(TunnelState::Up.is_up());
    for s in [TunnelState::Down, TunnelState::Connecting, TunnelState::Failed] {
        assert!(!s.is_up());
    }
    assert!(KillSwitchState::Armed.allows_traffic());
    assert!(!KillSwitchState::Engaged.allows_traffic());
}

#[test]
fn every_tunnel_gets_a_valid_firewall() {
    let proxy = NetworkMode::Proxy(ProxyConfig {
        protocol: ProxyProtocol::Socks5,
        host: "p".into(),
        port: 1,
        credentials_ref: None,
        remote_dns: true,
    });
    let cfg = GatewayConfig { mode: proxy, ..tor_cfg() };
    let fw = FirewallPolicy::fail_closed(&cfg);
    assert!(fw.validate().is_none());
    assert_eq!(fw.redirect_tcp_to, None);
}

// --- ids --------------------------------------------------------------------

#[test]
fn roundtrip_display_parse() {
    let id = ProfileId::new();
    let parsed = ProfileId::parse(&id.text()).unwrap();
    assert_eq!(id, parsed);
}

#[test]
fn slug_is_prefixed_and_short() {
    let id = VmId::new();
    let slug = id.slug();
    assert!(slug.starts_with("vm-"));
    assert_eq!(slug.len(), "vm-".len() + 8);
}

#[test]
fn ids_are_unique() {
    assert_ne!(SessionId::new(), SessionId::new());
}

#[test]
fn ids_have_the_uuid_notation() {
    let id = SessionId::from_u128(0x0011_2233_4455_6677_8899_aabb_ccdd_eeff);
    assert_eq!(id.text(), "00112233-4455-6677-8899-aabbccddeeff");
    assert_eq!(id.slug(), "sess-00112233");
    assert_eq!(SessionId::parse("00112233445566778899AABBCCDDEEFF").unwrap(), id);
    assert_eq!(InstanceId::parse(&InstanceId::from_u128(9).text()).unwrap().as_u128(), 9);
    assert!(matches!(ProfileId::parse("nope"), Err(Error::Config(m)) if m.starts_with("invalid ProfileId: ")));
    let v4 = VmId::new().text();
    assert_eq!(v4.chars().nth(14), Some('4'));
    assert!("89ab".contains(v4.chars().nth(19).unwrap()));
}

// --- crate ------------------------------------------------------------------

#[test]
fn self_check_passes_for_defaults() {
    assert!(self_check().is_empty(), "self-check found: {:?}", self_check());
}

#[test]
fn version_is_nonempty() {
    assert!(!VERSION.is_empty());
}

// --- network ----------------------------------------------------------------

#[test]
fn tor_default_captures_dns_and_blocks_plain() {
    let cfg = NetworkConfig::default();
    assert_eq!(cfg.mode.label(), "Tor");
    assert_eq!(cfg.dns.mode, DnsMode::TorDnsPort);
    assert!(cfg.dns.block_plain_dns);
    assert_eq!(cfg.ipv6, Ipv6Policy::Block);
}

#[test]
fn proxy_dns_always_blocks_plaintext() {
    let cfg = NetworkConfig::from_mode(NetworkMode::Proxy(ProxyConfig {
        protocol: ProxyProtocol::Socks5,
        host: "10.0.0.1".into(),
        port: 1080,
        credentials_ref: None,
        remote_dns: false,
    }));
    assert!(cfg.dns.block_plain_dns);
}

#[test]
fn vpn_dns_uses_the_servers_of_the_tunnel() {
    let cfg = NetworkConfig::from_mode(NetworkMode::Vpn(VpnConfig {
        protocol: VpnProtocol::WireGuard,
        endpoint: "vpn.example:51820".into(),
        credentials_ref: CredentialRef::new("vpn-key-1".into()),
        dns_servers: vec!["10.64.0.1".into()],
    }));
    assert_eq!(cfg.dns.mode, DnsMode::TunnelDns);
    assert_eq!(cfg.dns.servers, vec!["10.64.0.1".to_string()]);
    assert!(cfg.dns.block_plain_dns);
    assert_eq!(cfg.mode.label(), "VPN");
    assert_eq!(cfg.clone(), cfg);
    assert_eq!(NetworkConfig::default_dns(&cfg.mode), cfg.dns);
    let tor = NetworkMode::Tor(TorConfig::default());
    assert_eq!(NetworkConfig::default_dns(&tor), DnsPolicy::tor());
}

// --- permissions ------------------------------------------------------------

#[test]
fn defaults_block_dangerous_devices() {
    let p = PermissionPolicy::secure_default();
    for f in [
        Feature::Usb,
        Feature::Bluetooth,
        Feature::Serial,
        Feature::Hid,
        Feature::Midi,
    ] {
        assert_eq!(p.effective("https://x", f), PermissionState::Block);
    }
    assert_eq!(p.effective("https://x", Feature::Camera), PermissionState::Block);
    assert_eq!(p.effective("https://x", Feature::Downloads), PermissionState::Quarantine);
}

#[test]
fn cannot_grant_hard_blocked() {
    let mut p = PermissionPolicy::secure_default();
    assert!(p.grant("https://x", Feature::Usb).is_err());
    assert!(p.grant("https://x", Feature::Bluetooth).is_err());
}

#[test]
fn grant_is_scoped_to_origin() {
    let mut p = PermissionPolicy::secure_default();
    p.grant("https://a.example", Feature::Notifications).unwrap();
    assert_eq!(
        p.effective("https://a.example", Feature::Notifications),
        PermissionState::Allow
    );
    assert_eq!(
        p.effective("https://b.example", Feature::Notifications),
        PermissionState::Ask
    );
}

#[test]
fn clearing_grants_restores_defaults() {
    let mut p = PermissionPolicy::secure_default();
    p.grant("https://a.example", Feature::Notifications).unwrap();
    p.clear_grants();
    assert_eq!(
        p.effective("https://a.example", Feature::Notifications),
        PermissionState::Ask
    );
}

#[test]
fn all_features_have_a_default() {
    let p = PermissionPolicy::secure_default();
    for f in Feature::all() {
        assert!(p.defaults.contains_key(f), "missing default for {f:?}");
    }
}

#[test]
fn no_origin_is_left_without_grants() {
    let mut p = PermissionPolicy::secure_default();
    assert_eq!(p.overrides.len(), 0);
    p.grant("https://a.example", Feature::Camera).unwrap();
    assert_eq!(p.clone().overrides.len(), 1);
    p.clear_grants();
    assert_eq!(p.overrides.len(), 0);
}

#[test]
fn a_refused_grant_changes_nothing() {
    let mut p = PermissionPolicy::secure_default();
    p.grant("https://a.example", Feature::Camera).unwrap();
    let before: Vec<PermissionState> =
        Feature::all().iter().map(|f| p.effective("https://a.example", *f)).collect();
    assert!(p.grant("https://a.example", Feature::Hid).is_err());
    let after: Vec<PermissionState> =
        Feature::all().iter().map(|f| p.effective("https://a.example", *f)).collect();
    assert_eq!(before, after);
    for f in Feature::all() {
        assert_eq!(f.is_hard_blocked(), p.grant("https://b.example", f).is_err());
    }
}

// --- preflight --------------------------------------------------------------

fn all_pass() -> Vec<CheckReport> {
    CheckId::all().into_iter().map(|id| CheckReport::pass(id, "ok")).collect()
}

#[test]
fn all_pass_is_active_and_permits() {
    let cl = ConnectivityChecklist::new(all_pass());
    assert!(cl.all_passed());
    assert_eq!(cl.status(), ProtectionStatus::Active);
    assert!(cl.permits_browsing());
}

#[test]
fn dns_failure_is_unsafe_and_blocks() {
    let mut reports = all_pass();
    // Fail DNS route.
    for r in &mut reports {
        if r.id == CheckId::DnsRouteVerified {
            r.outcome = CheckOutcome::Fail;
        }
    }
    let cl = ConnectivityChecklist::new(reports);
    assert_eq!(cl.status(), ProtectionStatus::Unsafe);
    assert!(!cl.permits_browsing());
    assert!(cl.failures().contains(&CheckId::DnsRouteVerified));
}

#[test]
fn no_gateway_is_none() {
    let mut reports = all_pass();
    for r in &mut reports {
        if r.id == CheckId::GatewayReady {
            r.outcome = CheckOutcome::Fail;
        }
    }
    let cl = ConnectivityChecklist::new(reports);
    assert_eq!(cl.status(), ProtectionStatus::Unprotected);
    assert!(!cl.permits_browsing());
}

#[test]
fn skipped_counts_as_not_passed() {
    let mut reports = all_pass();
    for r in &mut reports {
        if r.id == CheckId::WebrtcPolicyLoaded {
            r.outcome = CheckOutcome::Skipped;
        }
    }
    let cl = ConnectivityChecklist::new(reports);
    assert!(!cl.all_passed());
    assert!(!cl.permits_browsing());
}

#[test]
fn every_single_failure_stops_browsing() {
    for bad in CheckId::all() {
        let reports: Vec<CheckReport> =
            CheckId::all().into_iter().filter(|id| *id != bad).map(|id| CheckReport::pass(id, "ok")).collect();
        let cl = ConnectivityChecklist::new(reports);
        assert_eq!(cl.failures(), vec![bad]);
        assert!(!cl.permits_browsing());
        assert!(cl.report(bad).is_none());
        assert_ne!(cl.status(), ProtectionStatus::Active);
    }
    assert!(!CheckReport::skipped(CheckId::GatewayReady, "x").outcome.is_pass());
    assert!(!CheckReport::fail(CheckId::GatewayReady, "x").outcome.is_pass());
    assert_eq!(CheckOutcome::Skipped.as_str(), "skipped");
    assert_eq!(CheckId::DnsRouteVerified.as_str(), "dns_route_verified");
}

// --- preview ----------------------------------------------------------------

#[test]
fn preview_reflects_preset_and_browser() {
    let mut spec = ProfileSpec::ephemeral("p");
    spec.browser = BrowserBackendId::Firefox;
    spec.fingerprint = Some(SafetyPreset::Paranoid.policy());
    let p = spec.preview();
    assert_eq!(p.browser, BrowserBackendId::Firefox);
    assert!(p.user_agent.contains("Firefox"));
    assert_eq!(p.webgl, "disabled");
    assert!(p.letterbox);
    assert!(p.device_apis_blocked);
}

#[test]
fn preview_defaults_to_protection_level() {
    let spec = ProfileSpec::ephemeral("p"); // Balanced, Chromium, no override
    let p = spec.preview();
    assert_eq!(p.browser, BrowserBackendId::Chromium);
    assert!(p.user_agent.contains("Chrome"));
    assert_eq!(p.webgl, "virtual backend");
    assert_eq!(p.timezone, "UTC");
    assert_eq!(p.language, "en-US");
}

#[test]
fn a_preview_is_the_same_each_time() {
    let spec = ProfileSpec::ephemeral("p");
    assert_eq!(spec.preview(), spec.preview());
    let mut open = ProfileSpec::ephemeral("p");
    let mut fp = FingerprintPolicy::balanced();
    fp.timezone = None;
    open.fingerprint = Some(fp);
    assert_eq!(open.preview().timezone, "system-derived");
}

// --- profile ----------------------------------------------------------------

#[test]
fn ephemeral_spec_is_valid() {
    let spec = ProfileSpec::ephemeral("shopping");
    assert!(spec.validate().is_ok());
    assert!(spec.kind.is_ephemeral());
}

#[test]
fn empty_name_is_rejected() {
    let mut spec = ProfileSpec::ephemeral("  ");
    spec.name = "  ".into();
    assert!(spec.validate().is_err());
}

#[test]
fn storage_human_readable() {
    assert_eq!(StorageUsage { bytes: 512 }.human(), "512 B");
    assert_eq!(StorageUsage { bytes: 2048 }.human(), "2.0 KiB");
    assert_eq!(StorageUsage { bytes: 5 * 1024 * 1024 }.human(), "5.0 MiB");
}

#[test]
fn storage_rounds_as_a_double_does() {
    fn expected(bytes: u64) -> String {
        let units = ["B", "KiB", "MiB", "GiB", "TiB"];
        let mut size = bytes as f64;
        let mut unit = 0;
        while size >= 1024.0 && unit < units.len() - 1 {
            size /= 1024.0;
            unit += 1;
        }
        if unit == 0 {
            format!("{} {}", bytes, units[0])
        } else {
            format!("{size:.1} {}", units[unit])
        }
    }
    let mut cases: Vec<u64> = vec![
        0,
        1023,
        1024,
        1075,
        1076,
        1126,
        1280,
        1331,
        1048575,
        1048576,
        1073741823,
        1099511627775,
        1099511627776,
        9007199254740991,
        9007199254740993,
        18014398509481985,
        u64::MAX - 1,
        u64::MAX,
    ];
    let mut x: u64 = 0x9e37_79b9_7f4a_7c15;
    for i in 0..2000u32 {
        x = x.wrapping_mul(6364136223846793005).wrapping_add(1442695040888963407);
        cases.push(x >> (i % 64));
    }
    for bytes in cases {
        assert_eq!(StorageUsage { bytes }.human(), expected(bytes), "{bytes}");
    }
}

#[test]
fn locked_profile_cannot_open() {
    let mut p = Profile {
        id: ProfileId::new(),
        spec: ProfileSpec::ephemeral("x"),
        created_at: at(0),
        last_launched: None,
        storage: StorageUsage::default(),
        locked: false,
    };
    assert!(p.can_open());
    p.locked = true;
    assert!(!p.can_open());
    assert_eq!(p.age(at(90)).seconds, 90);
}

#[test]
fn an_invalid_override_is_refused_with_its_rule() {
    let mut spec = ProfileSpec::ephemeral("x").with_isolation(IsolationLevel::HostProcess);
    assert_eq!(spec.isolation, IsolationLevel::HostProcess);
    let mut fp = FingerprintPolicy::strict();
    fp.webgpu_enabled = true;
    spec.fingerprint = Some(fp);
    assert_eq!(
        spec.validate().unwrap_err().text(),
        "invalid configuration: fingerprint policy invalid: WebGPU must be disabled in Strict mode"
    );
    assert_eq!(spec.resolved_fingerprint().level, ProtectionLevel::Strict);
    assert!(ProfilePatch::default().is_empty());
    assert_eq!(ProfileType::Persistent.label(), "persistent");
}

// --- secure -----------------------------------------------------------------

#[test]
fn secret_debug_is_redacted() {
    let s = Secret::from_string("hunter2".to_string());
    assert_eq!(s.debug_text(), "Secret(<redacted>)");
    assert_eq!(s.expose(), b"hunter2");
}

#[test]
fn key_debug_is_redacted() {
    let k = SecretKey::from_bytes([7u8; 32]);
    assert_eq!(k.debug_text(), "SecretKey(<redacted>)");
}

#[test]
fn secrets_hold_their_bytes() {
    let s = Secret::new(vec![1, 2, 3]);
    assert_eq!(s.len(), 3);
    assert!(!s.is_empty());
    assert!(Secret::new(Vec::new()).is_empty());
    let k = SecretKey::from_bytes([7u8; 32]);
    assert_eq!(k.clone().as_bytes(), &[7u8; 32]);
    let kdf = KdfParams::interactive(Salt(vec![9u8; 16]));
    let blob = SealedBlob {
        alg: AeadAlg::XChaCha20Poly1305,
        nonce: vec![0u8; 24],
        ciphertext: vec![1, 2, 3],
        kdf: Some(kdf),
    };
    let kdf = blob.kdf.unwrap();
    assert_eq!((kdf.m_cost, kdf.t_cost, kdf.p_cost), (65536, 3, 1));
    assert_eq!(kdf.salt.0.len(), 16);
}

// --- session ----------------------------------------------------------------

#[test]
fn happy_path_transitions_are_allowed() {
    let path = [
        SessionState::Requested,
        SessionState::Provisioning,
        SessionState::GatewayStarting,
        SessionState::Preflight,
        SessionState::Browsing,
        SessionState::Closing,
        SessionState::Destroyed,
    ];
    for pair in path.windows(2) {
        assert!(
            pair[0].can_transition_to(pair[1]),
            "{:?} -> {:?}",
            pair[0],
            pair[1]
        );
    }
}

#[test]
fn cannot_skip_preflight_to_browsing() {
    assert!(!SessionState::GatewayStarting.can_transition_to(SessionState::Browsing));
}

#[test]
fn any_state_can_fail() {
    for s in [
        SessionState::Requested,
        SessionState::Provisioning,
        SessionState::GatewayStarting,
        SessionState::Preflight,
        SessionState::Browsing,
    ] {
        assert!(s.can_transition_to(SessionState::Failed), "{s:?} must be able to fail");
    }
}

#[test]
fn destroyed_is_terminal() {
    assert!(SessionState::Destroyed.is_terminal());
    assert!(SessionState::Destroyed.allowed_next().is_empty());
}

#[test]
fn failed_is_terminal_too() {
    assert!(SessionState::Failed.is_terminal());
    for s in [
        SessionState::Requested,
        SessionState::Provisioning,
        SessionState::GatewayStarting,
        SessionState::Preflight,
        SessionState::Browsing,
        SessionState::Closing,
    ] {
        assert!(!s.is_terminal(), "{s:?}");
    }
}

#[test]
fn a_session_is_safe_only_while_browsing_with_protection() {
    let mut s = SessionSummary {
        id: SessionId::from_u128(1),
        profile: ProfileId::from_u128(2),
        state: SessionState::Browsing,
        protection: ProtectionStatus::Active,
        public_ip: None,
    };
    assert!(s.is_safe());
    assert_eq!(s.clone(), s);
    s.protection = ProtectionStatus::Partial;
    assert!(!s.is_safe());
    s.protection = ProtectionStatus::Active;
    s.state = SessionState::Preflight;
    assert!(!s.is_safe());
    assert_eq!(SessionState::GatewayStarting.as_str(), "gateway-starting");
    assert_eq!(SessionState::GatewayStarting.debug_name(), "GatewayStarting");
}

// --- time -------------------------------------------------------------------

#[test]
fn timestamps_are_written_as_rfc3339() {
    assert_eq!(at(0).to_rfc3339(), "1970-01-01T00:00:00+00:00");
    assert_eq!(
        Timestamp::new(1_700_000_000, 500_000_000).unwrap().to_rfc3339(),
        "2023-11-14T22:13:20.500+00:00"
    );
    assert!(Timestamp::new(i64::MAX, 0).is_none());
    assert!(Timestamp::new(0, 2_000_000_000).is_none());
    let t = Timestamp::new(7, 9).unwrap();
    assert_eq!((t.seconds(), t.nanos()), (7, 9));
    assert_eq!(at(10).since(&at(4)).seconds, 6);
    assert_eq!(at(4).since(&at(10)).seconds, -6);
    assert_eq!(at(4).since(&at(10)).clamped(), 0);
    let half = Timestamp::new(10, 500_000_000).unwrap();
    assert_eq!(at(10).since(&half).seconds, 0);
}

// --- update -----------------------------------------------------------------

#[test]
fn version_ordering_and_parse() {
    assert!(Version::new(1, 2, 0).is_newer_than(&Version::new(1, 1, 9)));
    assert!(!Version::new(1, 0, 0).is_newer_than(&Version::new(1, 0, 0)));
    assert_eq!(Version::parse("2.3.4").unwrap(), Version::new(2, 3, 4));
    assert!(Version::parse("2.x").is_err());
}

#[test]
fn versions_read_back_their_notation() {
    for v in [
        Version::new(0, 0, 0),
        Version::new(10, 203, 4),
        Version::new(u32::MAX, 1, u32::MAX),
    ] {
        assert_eq!(Version::parse(&v.text()).unwrap(), v);
    }
    assert_eq!(Version::parse(" 1.2.3\n").unwrap(), Version::new(1, 2, 3));
    for (bad, text) in [
        ("1.2", "invalid configuration: invalid version: 1.2"),
        (
            "1.2.4294967296",
            "invalid configuration: invalid version component in: 1.2.4294967296",
        ),
        ("1.2.3.4", "invalid configuration: invalid version component in: 1.2.3.4"),
    ] {
        assert_eq!(Version::parse(bad).unwrap_err().text(), text);
    }
}

// --- vm ---------------------------------------------------------------------

#[test]
fn hardened_policy_validates() {
    assert!(IsolationPolicy::hardened().is_hardened());
    assert!(IsolationPolicy::default().is_hardened());
}

#[test]
fn any_weakening_is_rejected() {
    let mut p = IsolationPolicy::hardened();
    p.no_usb_passthrough = false;
    assert!(!p.is_hardened());
    assert!(p.validate().unwrap().contains("USB"));
}

fn provision(role: VmRole) -> VmProvisionRequest {
    VmProvisionRequest {
        instance_id: InstanceId::new(),
        role,
        resources: VmResources::browser(),
        disk: DiskLayer {
            backing_image: "/img/browser-base.qcow2".into(),
            overlay_path: "/run/aegis/overlay.qcow2".into(),
            destroy_on_close: true,
            read_only_root: true,
        },
        gpu: GpuBackend::VirtioGpu,
        isolation: IsolationPolicy::hardened(),
        isolated_network: "aegis-net-abcd".into(),
    }
}

#[test]
fn browser_requires_readonly_root() {
    let req = VmProvisionRequest {
        instance_id: InstanceId::new(),
        role: VmRole::Browser,
        resources: VmResources::browser(),
        disk: DiskLayer {
            backing_image: "/img/browser-base.qcow2".into(),
            overlay_path: "/run/aegis/overlay.qcow2".into(),
            destroy_on_close: true,
            read_only_root: false, // <- violation
        },
        gpu: GpuBackend::VirtioGpu,
        isolation: IsolationPolicy::hardened(),
        isolated_network: "aegis-net-abcd".into(),
    };
    assert!(req.validate().is_err());
}

#[test]
fn a_hardened_disposable_vm_is_accepted() {
    assert!(provision(VmRole::Browser).validate().is_ok());
    let mut req = provision(VmRole::Gateway);
    req.isolation.no_shared_clipboard = false;
    assert!(matches!(req.validate(), Err(Error::Isolation(_))));
    assert_eq!(VmRole::Browser.as_str(), "browser");
    assert!(VmState::Running.is_running());
    assert!(!VmState::Starting.is_running());
    assert_eq!(GpuBackend::default(), GpuBackend::VirtioGpu);
}

#[test]
fn destroy_report_clean_only_when_both() {
    let id = VmId::new();
    assert!(DestroyReport {
        id,
        overlay_shredded: true,
        domain_undefined: true
    }
    .is_clean());
    assert!(!DestroyReport {
        id,
        overlay_shredded: false,
        domain_undefined: true
    }
    .is_clean());
}

// --- policy tables ----------------------------------------------------------

#[test]
fn tables_keep_one_value_for_each_key() {
    let mut t: TextTable<u32> = TextTable::new();
    t.insert("b".into(), 1);
    t.insert("a".into(), 2);
    t.insert("b".into(), 3);
    assert_eq!(t.get("b"), Some(&3));
    assert_eq!(t.get("a"), Some(&2));
    assert_eq!(t.get("c"), None);
    assert_eq!(PolicyValue::Flag(true).to_json(), "true");
    assert_eq!(PolicyValue::Number(-3).to_json(), "-3");
    assert_eq!(PolicyValue::words("a\"b").to_json(), "\"a\\\"b\"");
}

#[test]
fn health_levels_and_items() {
    let d = DiagnosticItem::new("dns", HealthLevel::Healthy, "ok");
    assert_eq!(d.level.label(), "ok");
    assert_eq!(d.key, "dns");
    assert_eq!(HealthLevel::Unknown.label(), "unknown");
}

#[test]
fn every_check_is_containment_critical() {
    for c in [
        CheckId::GatewayReady,
        CheckId::TunnelReady,
        CheckId::DnsRouteVerified,
        CheckId::PublicIpObserved,
        CheckId::WebrtcPolicyLoaded,
        CheckId::Ipv6PolicyVerified,
    ] {
        assert!(c.is_containment_critical());
    }
}

#[test]
fn updates_without_a_key_are_refused() {
    for (task, noun) in [
        (UpdateTask::Check, "checking"),
        (UpdateTask::Verify, "verification"),
        (UpdateTask::Apply, "application"),
    ] {
        match task.refused() {
            Error::Config(m) => assert_eq!(
                m,
                format!("update {noun} is disabled: no update_verify_key configured")
            ),
            other => panic!("unexpected: {other:?}"),
        }
    }
}

#[test]
fn faults_below_the_library_are_system_errors() {
    assert!(matches!(Error::json("eof"), Error::System(m) if m == "json: eof"));
    assert!(matches!(Error::io("full"), Error::System(m) if m == "io: full"));
    assert!(!Error::io("full").requires_killswitch());
}
